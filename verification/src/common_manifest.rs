//! The manifest as the shared project library reads it.
use vstd::prelude::*;

verus! {

/// The language of a project.
#[derive(Debug, Clone, Copy, PartialEq, Eq, Structural)]
pub enum Language {
    /// Rust.
    Rust,
    /// Go.
    Go,
    /// JavaScript.
    JavaScript,
}

/// The build section of the manifest.
#[derive(Debug)]
pub struct BuildInfo {
    /// Where cargo writes its output.
    pub rust_target_dir: Option<String>,
    /// Whether a Rust project is compiled for WASI.
    pub rust_enable_wasi: Option<bool>,
}

impl Default for BuildInfo {
    fn default() -> (r: Self)
        ensures
            r.rust_target_dir is None,
            r.rust_enable_wasi is None,
    {
        BuildInfo { rust_target_dir: None, rust_enable_wasi: None }
    }
}

/// The manifest of a project.
#[derive(Debug)]
pub struct Manifest {
    /// The manifest format version.
    pub manifest: String,
    /// The project's name.
    pub name: String,
    /// What the project is.
    pub description: String,
    /// Who wrote it.
    pub authors: Vec<String>,
    /// The project's language.
    pub language: String,
    /// The build section, if any.
    pub build: Option<BuildInfo>,
}

impl Default for Manifest {
    fn default() -> (r: Self)
        ensures
            r.manifest@.len() == 0,
            r.name@.len() == 0,
            r.description@.len() == 0,
            r.authors@.len() == 0,
            r.language@.len() == 0,
            r.build is None,
    {
        Manifest {
            manifest: String::new(),
            name: String::new(),
            description: String::new(),
            authors: Vec::new(),
            language: String::new(),
            build: None,
        }
    }
}

} // verus!
