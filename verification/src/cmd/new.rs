//! `new` of the first command line: a Rust project from a built-in template.
use vstd::prelude::*;
use crate::text::{join_path, join_path_spec, replace_all, replace_all_spec, str_equal};
use crate::vars::PROJECT_LANGUAGE_RUST;

verus! {

/// `new`: creates a project.
#[derive(Debug)]
pub struct NewCommand {
    /// The name of the project.
    pub name: String,
    /// The template to use.
    pub template: Option<String>,
}

impl NewCommand {
    /// The language of the new project: this command makes Rust projects only.
    pub fn determine_language(&self) -> (r: String)
        ensures
            r@ == PROJECT_LANGUAGE_RUST@,
    {
        String::from_str(PROJECT_LANGUAGE_RUST)
    }
}

/// The source file a new project starts with.
#[derive(Debug, Clone, Copy, PartialEq, Eq, Structural)]
pub enum CodeTemplate {
    /// The hello-world handler.
    HttpHello,
    /// The handler that fetches another URL.
    HttpFetchHello,
    /// An empty file.
    Empty,
}

/// The source template named `template`: `hello-rust` and `fetch-rust` are
/// known, every other name gives an empty file.
pub fn select_code_template(template: &str) -> (r: CodeTemplate)
    ensures
        r == (if template@ == "hello-rust"@ {
            CodeTemplate::HttpHello
        } else if template@ == "fetch-rust"@ {
            CodeTemplate::HttpFetchHello
        } else {
            CodeTemplate::Empty
        }),
{
    if str_equal(template, "hello-rust") {
        CodeTemplate::HttpHello
    } else if str_equal(template, "fetch-rust") {
        CodeTemplate::HttpFetchHello
    } else {
        CodeTemplate::Empty
    }
}

/// A project template with every `{{name}}` replaced by the project's name.
pub fn render_template(content: &str, name: &str) -> (r: String)
    ensures
        r@ == replace_all_spec(content@, "{{name}}"@, name@),
{
    proof {
        reveal_strlit("{{name}}");
    }
    replace_all(content, "{{name}}", name)
}

/// Where the new project's source file goes: `<name>/src/lib.rs`.
pub fn code_file_path(name: &str) -> (r: String)
    ensures
        r@ == join_path_spec(name@, "src/lib.rs"@),
{
    join_path(name, "src/lib.rs")
}

/// The manifest written by this command.
#[derive(Debug)]
pub struct Manifest {
    /// The manifest format version.
    pub manifest: String,
    /// The project's name.
    pub name: String,
    /// What the project is.
    pub description: String,
    /// Who wrote it.
    pub authors: Vec<String>,
    /// The project's language.
    pub language: String,
}

impl Default for Manifest {
    fn default() -> (r: Self)
        ensures
            r.manifest@ == "v1"@,
            r.name@ == "leaf"@,
            r.description@ == "leaf wasm project"@,
            r.authors@.len() == 0,
            r.language@ == "rust"@,
    {
        Manifest {
            manifest: String::from_str("v1"),
            name: String::from_str("leaf"),
            description: String::from_str("leaf wasm project"),
            authors: Vec::new(),
            language: String::from_str("rust"),
        }
    }
}

} // verus!
