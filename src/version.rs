use vstd::prelude::*;

verus! {

/// A compiler version, carried through unchanged from the build cache.
#[verifier::external_type_specification]
#[verifier::external_body]
pub struct ExVersion(semver::Version);

/// Relies on the derived `Clone` of `semver::Version`, which copies every
/// field of the version.
pub assume_specification[ <semver::Version as Clone>::clone ](v: &semver::Version) -> (r: semver::Version)
    ensures
        r == *v,
;

} // verus!
