//! The `leaf` command line: its commands and what they decide.
use vstd::prelude::*;
use crate::manifest::wasm_file_name;
use crate::text::concat;
use crate::vars::RUST_TARGET_WASM_RELEASE_DIR;

pub mod cli;
pub mod cli_compile;
pub mod compile;
pub mod new;

verus! {

/// `init`: creates a new project.
#[derive(Debug)]
pub struct Init {
    /// The name of the project.
    pub name: String,
    /// The template to use.
    pub template: Option<String>,
}

/// `build`: compiles the project.
#[derive(Debug)]
pub struct Build {
    /// Whether to optimize the output.
    pub enable_optimize: bool,
}

/// The version text of a build: `<semver> (<sha> <commit date>)`.
pub fn build_info(semver: &str, sha: &str, commit_date: &str) -> (r: String)
    ensures
        r@ == semver@ + " ("@ + sha@ + " "@ + commit_date@ + ")"@,
{
    let a = concat(semver, " (");
    let b = concat(a.as_str(), sha);
    let c = concat(b.as_str(), " ");
    let d = concat(c.as_str(), commit_date);
    concat(d.as_str(), ")")
}

/// Where cargo puts the release build of the project called `name` for the
/// bare compile target: `target/wasm32-unknown-unknown/release/<name>.wasm`,
/// with `-` in the name replaced by `_`.
pub open spec fn spec_release_wasm_path(name: Seq<char>) -> Seq<char> {
    RUST_TARGET_WASM_RELEASE_DIR@ + "/"@ + wasm_file_name(name)
}

/// Where cargo puts the release build of the project called `name`.
pub fn release_wasm_path(name: &str) -> (r: String)
    ensures
        r@ == spec_release_wasm_path(name@),
{
    let dir = concat(RUST_TARGET_WASM_RELEASE_DIR, "/");
    let file = crate::manifest::wasm_file(name);
    concat(dir.as_str(), file.as_str())
}

} // verus!
