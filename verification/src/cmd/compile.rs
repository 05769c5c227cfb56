//! `compile` of the first command line.
use vstd::prelude::*;

verus! {

/// `compile`: compiles the project.
#[derive(Debug)]
pub struct CompileCommand {
    /// The file to write.
    pub output: Option<String>,
}

} // verus!
