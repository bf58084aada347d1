//! What the library assumes of `semver::Version`, the version type that
//! `rust_releases` exports and that actions carry as a payload.
//!
//! Nothing here is proved: these are statements about code outside the
//! library, which the proofs in the other modules rest on.

use rust_releases::semver::Version;
use vstd::prelude::*;

verus! {

/// `semver::Version`, taken as an opaque value: the library holds versions and
/// hands them on, and never looks inside one.
#[verifier::external_type_specification]
#[verifier::external_body]
pub struct ExVersion(Version);

/// `<semver::Version as Clone>::clone`, which `semver` derives field by field:
/// the copy has the major, minor and patch numbers, the pre-release tag and
/// the build metadata of the version it was made from. A version being opaque
/// here, this is stated as the copy being equal to that version.
pub assume_specification[ <Version as Clone>::clone ](version: &Version) -> (copy: Version)
    ensures
        copy == *version,
;

} // verus!
