//! Names and paths that the project's tools agree on.
use vstd::prelude::*;

verus! {

/// The manifest language of Rust projects.
pub const PROJECT_LANGUAGE_RUST: &'static str = "rust";

/// The manifest language of JavaScript projects.
pub const PROJECT_LANGUAGE_JS: &'static str = "js";

/// The compile target with WASI support.
pub const COMPILE_TARGET_WASM32_WASI: &'static str = "wasm32-wasi";

/// The bare compile target.
pub const COMPILE_TARGET_WASM32_UNKNOWN_UNKNOWN: &'static str = "wasm32-unknown-unknown";

/// The file name of a project's manifest.
pub const DEFAULT_MANIFEST_FILE: &'static str = "leaf.toml";

/// Where cargo puts release builds for the bare compile target.
pub const RUST_TARGET_WASM_RELEASE_DIR: &'static str = "target/wasm32-unknown-unknown/release";

/// The two project languages are different names.
pub proof fn lemma_languages_differ()
    ensures
        PROJECT_LANGUAGE_RUST@ != PROJECT_LANGUAGE_JS@,
{
    reveal_strlit("rust");
    reveal_strlit("js");
    assert(PROJECT_LANGUAGE_RUST@.len() != PROJECT_LANGUAGE_JS@.len());
}

} // verus!
