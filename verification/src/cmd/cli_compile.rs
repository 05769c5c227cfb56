//! `compile` of the second command line, which also optimizes.
use vstd::prelude::*;

verus! {

/// `compile`: compiles the project, optionally optimizing the module.
#[derive(Debug)]
pub struct CompileCommand {
    /// The file to write.
    pub output: Option<String>,
    /// Whether to run the optimizer.
    pub optimize: bool,
}

} // verus!
