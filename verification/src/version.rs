//! Semantic versions, as the `semver` crate reads and orders them.

use vstd::prelude::*;

verus! {

/// Whether `semver::Version::parse` accepts the text as a semantic version.
pub uninterp spec fn semver_accepts(text: Seq<char>) -> bool;

/// Whether the version that `semver::Version::parse` reads from `local` is
/// strictly less than the one it reads from `remote`, in the order of
/// `semver::Version`. Meaningful where both texts are accepted.
pub uninterp spec fn semver_older(local: Seq<char>, remote: Seq<char>) -> bool;

/// Calls `semver::Version::parse` and says whether it succeeded.
///
/// Not proved: that the answer is the one named by [`semver_accepts`], that
/// is, that it depends on the text alone.
#[verifier::external_body]
pub(crate) fn is_semver(text: &str) -> (ok: bool)
    ensures
        ok == semver_accepts(text@),
{
    semver::Version::parse(text).is_ok()
}

/// Reads both texts with `semver::Version::parse` and compares the two
/// versions with `<` of `semver::Version`.
///
/// Not proved: that the answer is the one named by [`semver_older`], that
/// is, that it depends on the two texts alone; and that no version is less
/// than itself.
#[verifier::external_body]
pub(crate) fn is_older(local: &str, remote: &str) -> (older: bool)
    requires
        semver_accepts(local@),
        semver_accepts(remote@),
    ensures
        older == semver_older(local@, remote@),
        local@ == remote@ ==> !older,
{
    match (semver::Version::parse(local), semver::Version::parse(remote)) {
        (Ok(local), Ok(remote)) => local < remote,
        _ => false,
    }
}

} // verus!
