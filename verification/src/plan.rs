//! What a build does, decided from the manifest before any compiler runs.
use vstd::prelude::*;
use crate::text::concat;

verus! {

/// The compiler call a build makes.
#[derive(Debug)]
pub enum CompilePlan {
    /// Compile a Rust project with cargo.
    Rust {
        /// The compile target.
        arch: String,
        /// The file the compiler writes.
        target: String,
        /// Whether to optimize the output.
        optimize: bool,
        /// Whether to build in debug mode.
        debug: bool,
    },
    /// Compile a JavaScript project into a wasm module.
    Js {
        /// The file the compiler writes.
        target: String,
        /// The script the module runs.
        entry: String,
        /// The JavaScript engine to embed, if one was given.
        js_engine: Option<String>,
    },
}

/// A build that cannot be planned.
#[derive(Debug)]
pub struct UnsupportedLanguage {
    /// The manifest's language.
    pub language: String,
}

impl UnsupportedLanguage {
    /// The error's text: `Unsupported language: <language>`.
    pub fn message(&self) -> (r: String)
        ensures
            r@ == "Unsupported language: "@ + self.language@,
    {
        concat("Unsupported language: ", self.language.as_str())
    }
}

/// The script a JavaScript project starts from.
pub fn js_entry() -> (r: String)
    ensures
        r@ == "src/index.js"@,
{
    String::from_str("src/index.js")
}

} // verus!
