//! The commands of the minimal command line.
use vstd::prelude::*;

verus! {

/// `init`: creates a new project.
#[derive(Debug)]
pub struct Init {
    /// The name of the project.
    pub name: String,
    /// The template to use.
    pub template: Option<String>,
}

/// `build`: compiles the project.
#[derive(Debug)]
pub struct Build {}

} // verus!
