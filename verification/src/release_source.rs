//! Where the index of releases comes from.

use vstd::prelude::*;

verus! {

/// The catalog from which the index of available releases is fetched.
#[derive(Debug, Copy, Clone, PartialEq, Eq, Structural)]
pub enum ReleaseSource {
    /// The changelog of the Rust project.
    RustChangelog,
    /// The distribution channel manifests.
    RustDist,
}

} // verus!
