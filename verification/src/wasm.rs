//! What the worker pool needs to start workers.
use vstd::prelude::*;

verus! {

/// Starts workers for one wasm file.
#[derive(Debug)]
pub struct Manager {
    path: String,
}

impl Manager {
    /// A manager for the wasm file at `path`.
    pub fn new(path: String) -> (r: Manager)
        ensures
            r.path()@ == path@,
    {
        Manager { path }
    }

    /// The wasm file's path.
    pub closed spec fn path(&self) -> String {
        self.path
    }

    /// The wasm file's path.
    pub fn wasm_path(&self) -> (r: &str)
        ensures
            r@ == self.path()@,
    {
        self.path.as_str()
    }
}

} // verus!
