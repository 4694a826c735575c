//! The version requirement model: whether a version string parses,
//! whether a requirement expression parses, and whether a version
//! satisfies a requirement.  All three are computed by the `versions`
//! crate; this module holds the trusted declarations through which the
//! rest of the crate reaches it.
//!
//! Parsing and matching in the `versions` crate are pure functions of the
//! strings involved, so each result is given a name here and every
//! contract of this crate speaks of those names.

use vstd::prelude::*;

verus! {

/// Whether `versions::Versioning::new` accepts `s` as a version.
pub uninterp spec fn version_parses(s: Seq<char>) -> bool;

/// Whether `versions::Requirement::new` accepts `s` as a requirement
/// expression.
pub uninterp spec fn requirement_parses(s: Seq<char>) -> bool;

/// Whether the version written `ver` satisfies the requirement written
/// `req`, as `versions::Requirement::matches` decides it.  Meaningful
/// only when both strings parse.
pub uninterp spec fn requirement_matches(req: Seq<char>, ver: Seq<char>) -> bool;

/// The ordering `versions::Versioning` gives to the versions written `a`
/// and `b`: whether `a` is at least `b`.  A string that does not parse
/// takes the place of the default (zero) version.
pub uninterp spec fn version_geq(a: Seq<char>, b: Seq<char>) -> bool;

/// Relies on `versions::Versioning::new`: parsing succeeds or fails as a
/// function of the string alone.
#[verifier::external_body]
pub(crate) fn version_is_wellformed(s: &str) -> (b: bool)
    ensures
        b == version_parses(s@),
{
    versions::Versioning::new(s).is_some()
}

/// Relies on `versions::Requirement::new`: parsing succeeds or fails as a
/// function of the string alone.
#[verifier::external_body]
pub(crate) fn requirement_is_wellformed(s: &str) -> (b: bool)
    ensures
        b == requirement_parses(s@),
{
    versions::Requirement::new(s).is_some()
}

/// Relies on `versions::Requirement::matches`, with
/// `versions::Requirement::new` and `versions::Versioning::new` supplying
/// its operands: whether a version satisfies a requirement is a function
/// of the two strings alone.
#[verifier::external_body]
pub(crate) fn requirement_admits(req: &str, ver: &str) -> (b: bool)
    requires
        requirement_parses(req@),
        version_parses(ver@),
    ensures
        b == requirement_matches(req@, ver@),
{
    let requirement = versions::Requirement::new(req).expect("requirement no longer parses");
    let version = versions::Versioning::new(ver).expect("version no longer parses");
    requirement.matches(&version)
}

/// Relies on the `Ord` implementation of `versions::Versioning`: the
/// comparison is a function of the two strings alone, with
/// `versions::Versioning::new` supplying the operands and an unparsable
/// string standing in as `versions::Versioning::default()`.
#[verifier::external_body]
pub(crate) fn version_at_least(a: &str, b: &str) -> (r: bool)
    ensures
        r == version_geq(a@, b@),
{
    let va = versions::Versioning::new(a).unwrap_or_default();
    let vb = versions::Versioning::new(b).unwrap_or_default();
    va >= vb
}

} // verus!
