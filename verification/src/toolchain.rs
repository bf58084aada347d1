//! The toolchain that a setup or a check is about.

use rust_releases::semver::Version;
use vstd::prelude::*;

verus! {

/// A toolchain to set up or check: a release of the compiler for one target.
#[derive(Debug)]
pub struct OwnedToolchainSpec {
    /// The release of the compiler.
    pub version: Version,
    /// The target triple, such as `x86_64-unknown-linux-gnu`.
    pub target: String,
}

impl OwnedToolchainSpec {
    /// The toolchain of release `version` for `target`.
    pub fn new(version: Version, target: String) -> (spec: Self)
        ensures
            spec == (OwnedToolchainSpec { version, target }),
    {
        OwnedToolchainSpec { version, target }
    }
}

impl Clone for OwnedToolchainSpec {
    fn clone(&self) -> (copy: Self)
        ensures
            copy == *self,
    {
        OwnedToolchainSpec { version: self.version.clone(), target: self.target.clone() }
    }
}

} // verus!
