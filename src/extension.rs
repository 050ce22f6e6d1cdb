//! The extension's state, kept for the lifetime of the editor process.

use vstd::prelude::*;

verus! {

/// The Odin extension. Its one piece of state is the path of the language
/// server binary found by the last successful resolution.
pub struct OdinExtension {
    pub cached_binary_path: Option<String>,
}

impl OdinExtension {
    /// An extension with nothing cached yet.
    pub fn new() -> (r: OdinExtension)
        ensures
            r.cached_binary_path is None,
    {
        OdinExtension { cached_binary_path: None }
    }
}

} // verus!
