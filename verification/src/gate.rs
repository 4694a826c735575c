//! The runtime version gate: a per-function, compute-once boolean saying
//! whether the function may be called under the resolved host version.
//!
//! A gate holds two ordered lists of requirement literals, `valid` and
//! `invalid`.  Warm-up resolves the decision once: the version must match
//! at least one `valid` requirement and no `invalid` requirement, and a
//! matching `invalid` requirement dominates — it decides for closed before
//! the `valid` list is even considered.  Once computed, the decision is
//! latched for the rest of the process.  A requirement literal that fails to
//! parse is a configuration defect, reported as the distinct
//! [`ConfigDefect`] type rather than as an ordinary refusal.

use vstd::prelude::*;
use vstd::string::*;

use crate::error::{ConfigDefect, Error, UnsupportedCall};
use crate::requirement::{
    requirement_admits, requirement_is_wellformed, requirement_matches, requirement_parses,
    version_is_wellformed, version_parses,
};
use crate::text::{clone_strings, str_views};

verus! {

/// Whether every requirement literal in `reqs` parses.
pub open spec fn all_requirements_parse(reqs: Seq<Seq<char>>) -> bool {
    forall|i: int| 0 <= i < reqs.len() ==> requirement_parses(reqs[i])
}

/// Whether some requirement in `reqs` matches the version `ver`.
pub open spec fn some_requirement_matches(reqs: Seq<Seq<char>>, ver: Seq<char>) -> bool {
    exists|i: int| 0 <= i < reqs.len() && requirement_matches(reqs[i], ver)
}

/// Whether a gate with these lists is open for version `ver`: some `valid` requirement
/// matches and no `invalid` requirement does.  An empty `valid` list
/// therefore refuses every version: the absence of an allow
/// rule is never read as "allow everything".
pub open spec fn gate_open(valid: Seq<Seq<char>>, invalid: Seq<Seq<char>>, ver: Seq<char>) -> bool {
    some_requirement_matches(valid, ver) && !some_requirement_matches(invalid, ver)
}

/// The outcome of evaluating `any(reqs, r => matches(r, ver))` the way the
/// gate does: requirement literals are parsed lazily, in order, stopping
/// at the first match, and `Err` names the first literal that fails to
/// parse before a match is found.
pub open spec fn lazy_any(reqs: Seq<Seq<char>>, ver: Seq<char>) -> Result<bool, Seq<char>>
    decreases reqs.len(),
{
    if reqs.len() == 0 {
        Result::Ok(false)
    } else if !requirement_parses(reqs.first()) {
        Result::Err(reqs.first())
    } else if requirement_matches(reqs.first(), ver) {
        Result::Ok(true)
    } else {
        lazy_any(reqs.drop_first(), ver)
    }
}

/// The decision warm-up reaches for version `ver`:
/// the `invalid` list is evaluated first and a match there yields
/// `Ok(false)` before any `valid` literal is parsed; otherwise the
/// `valid` list decides.  `Err` names the first requirement literal, in
/// that evaluation order, that fails to parse.
pub open spec fn decide_gate(
    valid: Seq<Seq<char>>,
    invalid: Seq<Seq<char>>,
    ver: Seq<char>,
) -> Result<bool, Seq<char>> {
    match lazy_any(invalid, ver) {
        Result::Err(req) => Result::Err(req),
        Result::Ok(true) => Result::Ok(false),
        Result::Ok(false) => lazy_any(valid, ver),
    }
}

proof fn lemma_lazy_any_ok(reqs: Seq<Seq<char>>, ver: Seq<char>, b: bool)
    requires
        lazy_any(reqs, ver) == Result::<bool, Seq<char>>::Ok(b),
    ensures
        b == some_requirement_matches(reqs, ver),
    decreases reqs.len(),
{
    if reqs.len() == 0 {
    } else if !requirement_parses(reqs.first()) {
    } else if requirement_matches(reqs.first(), ver) {
        assert(reqs[0] == reqs.first());
        assert(some_requirement_matches(reqs, ver));
    } else {
        lemma_lazy_any_ok(reqs.drop_first(), ver, b);
        if some_requirement_matches(reqs.drop_first(), ver) {
            let k = choose|k: int|
                0 <= k < reqs.drop_first().len() && requirement_matches(
                    reqs.drop_first()[k],
                    ver,
                );
            assert(reqs[k + 1] == reqs.drop_first()[k]);
            assert(some_requirement_matches(reqs, ver));
        }
        if some_requirement_matches(reqs, ver) {
            let k = choose|k: int|
                0 <= k < reqs.len() && requirement_matches(reqs[k], ver);
            assert(k != 0);
            assert(reqs.drop_first()[k - 1] == reqs[k]);
            assert(some_requirement_matches(reqs.drop_first(), ver));
        }
    }
}

/// Law: when every requirement literal parses, the lazy evaluation never
/// reports a defect and computes exactly `any(reqs, r => matches(r, ver))`.
pub proof fn lemma_lazy_any_total(reqs: Seq<Seq<char>>, ver: Seq<char>)
    requires
        all_requirements_parse(reqs),
    ensures
        lazy_any(reqs, ver) == Result::<bool, Seq<char>>::Ok(some_requirement_matches(reqs, ver)),
    decreases reqs.len(),
{
    if reqs.len() == 0 {
    } else {
        assert(requirement_parses(reqs[0]));
        if requirement_matches(reqs.first(), ver) {
            assert(reqs[0] == reqs.first());
            assert(some_requirement_matches(reqs, ver));
        } else {
            assert forall|j: int| 0 <= j < reqs.drop_first().len() implies requirement_parses(
                #[trigger] reqs.drop_first()[j],
            ) by {
                assert(reqs.drop_first()[j] == reqs[j + 1]);
            }
            lemma_lazy_any_total(reqs.drop_first(), ver);
            lemma_lazy_any_ok(reqs, ver, some_requirement_matches(reqs.drop_first(), ver));
        }
    }
}

/// Law: whenever the warm-up decision completes (no requirement literal in
/// its evaluation path is malformed), the boolean it computes is exactly
/// `gate_open`: some `valid` requirement matches and no `invalid` one
/// does.
pub proof fn lemma_gate_decision_sound(
    valid: Seq<Seq<char>>,
    invalid: Seq<Seq<char>>,
    ver: Seq<char>,
    b: bool,
)
    requires
        decide_gate(valid, invalid, ver) == Result::<bool, Seq<char>>::Ok(b),
    ensures
        b == gate_open(valid, invalid, ver),
{
    match lazy_any(invalid, ver) {
        Result::Err(_) => {},
        Result::Ok(iv) => {
            lemma_lazy_any_ok(invalid, ver, iv);
            if !iv {
                lemma_lazy_any_ok(valid, ver, b);
            }
        },
    }
}

/// Law: when every literal of both lists parses, the warm-up decision is
/// `Ok(gate_open(valid, invalid, ver))` — the conjunction of "some valid
/// requirement matches" with "no invalid requirement matches".
pub proof fn lemma_gate_decision_total(
    valid: Seq<Seq<char>>,
    invalid: Seq<Seq<char>>,
    ver: Seq<char>,
)
    requires
        all_requirements_parse(valid),
        all_requirements_parse(invalid),
    ensures
        decide_gate(valid, invalid, ver) == Result::<bool, Seq<char>>::Ok(
            gate_open(valid, invalid, ver),
        ),
{
    lemma_lazy_any_total(invalid, ver);
    lemma_lazy_any_total(valid, ver);
}

/// Law: a version matching any `invalid` requirement is rejected, even
/// when it also matches a `valid` requirement.
pub proof fn lemma_invalid_dominates(
    valid: Seq<Seq<char>>,
    invalid: Seq<Seq<char>>,
    ver: Seq<char>,
)
    requires
        some_requirement_matches(invalid, ver),
    ensures
        !gate_open(valid, invalid, ver),
{
}

/// Law: with no `valid` requirement at all — in particular with both
/// lists empty — every version is refused.
pub proof fn lemma_empty_valid_closes(
    valid: Seq<Seq<char>>,
    invalid: Seq<Seq<char>>,
    ver: Seq<char>,
)
    requires
        valid.len() == 0,
    ensures
        !gate_open(valid, invalid, ver),
{
}

/// A per-function version gate: the two declared requirement lists and
/// the memoized decision.  `state` is `None` until the first warm-up
/// resolves it; afterwards it is permanently `Some(decision)`.
pub struct VersionGate {
    /// The declared requirements under which the call is supported.
    pub valid: Vec<String>,
    /// The declared requirements under which the call is unsupported.
    pub invalid: Vec<String>,
    /// The latched decision: `None` before the first evaluation.
    pub state: Option<bool>,
    /// The version string the latched decision was computed from.
    pub resolved: Ghost<Seq<char>>,
}

impl VersionGate {
    /// The views of the `valid` requirement literals.
    pub open spec fn valid_reqs(self) -> Seq<Seq<char>> {
        str_views(self.valid@)
    }

    /// The views of the `invalid` requirement literals.
    pub open spec fn invalid_reqs(self) -> Seq<Seq<char>> {
        str_views(self.invalid@)
    }

    /// A latched decision is the warm-up decision for the version it was
    /// resolved with.
    pub open spec fn resolved_consistent(self) -> bool {
        self.state matches Some(b) ==> b == gate_open(
            self.valid_reqs(),
            self.invalid_reqs(),
            self.resolved@,
        )
    }

    /// The latched state after one warm-up against version `ver`:
    /// a gate that has already decided keeps its decision; an
    /// undecided gate latches the computed decision, or stays undecided
    /// when warm-up reports a configuration defect.
    pub open spec fn step(self, ver: Seq<char>) -> Option<bool> {
        match self.state {
            Some(b) => Some(b),
            None => if version_parses(ver) {
                match decide_gate(self.valid_reqs(), self.invalid_reqs(), ver) {
                    Result::Ok(b) => Some(b),
                    Result::Err(_) => None,
                }
            } else {
                None
            },
        }
    }

    /// Law: a gate latches exactly once.  Whatever a warm-up against
    /// `ver` latched, a second warm-up against the same version leaves
    /// the state unchanged and grants the same boolean.
    pub proof fn lemma_step_latches_once(self, ver: Seq<char>)
        ensures
            self.step(ver) matches Some(b) ==> (VersionGate {
                state: Some(b),
                ..self
            }).step(ver) == Some(b),
            self.state matches Some(b) ==> self.step(ver) == Some(b),
    {
    }

    /// A fresh, undecided gate for the two requirement lists.
    pub fn new(valid: Vec<String>, invalid: Vec<String>) -> (g: VersionGate)
        ensures
            g.valid == valid,
            g.invalid == invalid,
            g.state is None,
    {
        VersionGate { valid, invalid, state: None, resolved: Ghost(Seq::empty()) }
    }

    /// Resolve this gate against `version`, computing and latching the
    /// decision on first use and reading the latched value afterwards.
    ///
    /// A malformed `version`, or a malformed requirement literal reached
    /// before a match, is reported as a [`ConfigDefect`] and latches
    /// nothing.
    pub fn warm_up(&mut self, version: &str) -> (r: Result<bool, ConfigDefect>)
        ensures
            final(self).valid == old(self).valid,
            final(self).invalid == old(self).invalid,
            final(self).state == old(self).step(version@),
            old(self).resolved_consistent() ==> final(self).resolved_consistent(),
            r is Ok <==> old(self).step(version@) is Some,
            r matches Result::Ok(b) ==> old(self).step(version@) == Some(b),
            old(self).state matches Some(b) ==> r == Result::<bool, ConfigDefect>::Ok(b)
                && *final(self) == *old(self),
            (old(self).state is None && !version_parses(version@)) ==> (r matches Result::Err(d)
                && d matches ConfigDefect::ParseVersion { version: v } && v@ == version@
                && *final(self) == *old(self)),
            (old(self).state is None && version_parses(version@)) ==> (match decide_gate(
                old(self).valid_reqs(),
                old(self).invalid_reqs(),
                version@,
            ) {
                Result::Err(req) => r matches Result::Err(d) && d matches
                    ConfigDefect::ParseRequirement { requirement: q } && q@ == req && *final(self)
                    == *old(self),
                Result::Ok(b) => r == Result::<bool, ConfigDefect>::Ok(b) && final(self).state
                    == Some(b) && final(self).resolved@ == version@,
            }),
    {
        if let Some(b) = self.state {
            return Result::Ok(b);
        }
        if !version_is_wellformed(version) {
            return Result::Err(ConfigDefect::ParseVersion { version: version.to_owned() });
        }
        match lazy_match(&self.invalid, version) {
            Result::Err(req) => {
                return Result::Err(ConfigDefect::ParseRequirement { requirement: req });
            },
            Result::Ok(true) => {
                proof {
                    lemma_gate_decision_sound(
                        self.valid_reqs(),
                        self.invalid_reqs(),
                        version@,
                        false,
                    );
                }
                self.state = Some(false);
                self.resolved = Ghost(version@);
                return Result::Ok(false);
            },
            Result::Ok(false) => {},
        }
        match lazy_match(&self.valid, version) {
            Result::Err(req) => Result::Err(ConfigDefect::ParseRequirement { requirement: req }),
            Result::Ok(b) => {
                proof {
                    lemma_gate_decision_sound(self.valid_reqs(), self.invalid_reqs(), version@, b);
                }
                self.state = Some(b);
                self.resolved = Ghost(version@);
                Result::Ok(b)
            },
        }
    }

    /// Call a function through this gate, wrapping its plain result in the
    /// success variant of the uniform outcome type.
    ///
    /// The closure runs only when this gate is open; a closed gate returns
    /// the structured [`UnsupportedCall`] refusal carrying the resolved
    /// version and copies of both requirement lists, and a configuration
    /// defect found during warm-up is passed on as [`Error::Config`].
    /// The closure's precondition is demanded only when the decision for
    /// `version` is open, so a gate known to be closed provably never
    /// invokes the implementation.
    pub fn invoke<T, F: FnOnce() -> T>(&mut self, version: &str, f: F) -> (r: Result<T, Error>)
        requires
            old(self).step(version@) == Some(true) ==> call_requires(f, ()),
        ensures
            final(self).valid == old(self).valid,
            final(self).invalid == old(self).invalid,
            final(self).state == old(self).step(version@),
            old(self).resolved_consistent() ==> final(self).resolved_consistent(),
            match old(self).step(version@) {
                None => r matches Result::Err(e) && e matches Error::Config(d)
                    && spec_defect_for(*old(self), version@, d),
                Some(false) => r matches Result::Err(e) && e matches Error::Unsupported(u)
                    && u.version@ == version@ && str_views(u.valid@) == old(self).valid_reqs()
                    && str_views(u.invalid@) == old(self).invalid_reqs(),
                Some(true) => r matches Result::Ok(t) && call_ensures(f, (), t),
            },
    {
        let b = match self.warm_up(version) {
            Result::Err(d) => {
                return Result::Err(Error::Config(d));
            },
            Result::Ok(b) => b,
        };
        if !b {
            return Result::Err(
                Error::Unsupported(
                    UnsupportedCall {
                        version: version.to_owned(),
                        valid: clone_strings(&self.valid),
                        invalid: clone_strings(&self.invalid),
                    },
                ),
            );
        }
        Result::Ok(f())
    }

    /// Call a function that already returns the uniform outcome type
    /// through this gate: its outcome — success or failure — is passed
    /// through unmodified, never wrapped a second time.
    /// As with [`Self::invoke`], the closure's precondition is demanded
    /// only when the decision for `version` is open, so a gate known to
    /// be closed provably never invokes the implementation.
    pub fn invoke_outcome<T, F: FnOnce() -> Result<T, Error>>(
        &mut self,
        version: &str,
        f: F,
    ) -> (r: Result<T, Error>)
        requires
            old(self).step(version@) == Some(true) ==> call_requires(f, ()),
        ensures
            final(self).valid == old(self).valid,
            final(self).invalid == old(self).invalid,
            final(self).state == old(self).step(version@),
            old(self).resolved_consistent() ==> final(self).resolved_consistent(),
            match old(self).step(version@) {
                None => r matches Result::Err(e) && e matches Error::Config(d)
                    && spec_defect_for(*old(self), version@, d),
                Some(false) => r matches Result::Err(e) && e matches Error::Unsupported(u)
                    && u.version@ == version@ && str_views(u.valid@) == old(self).valid_reqs()
                    && str_views(u.invalid@) == old(self).invalid_reqs(),
                Some(true) => call_ensures(f, (), r),
            },
    {
        let b = match self.warm_up(version) {
            Result::Err(d) => {
                return Result::Err(Error::Config(d));
            },
            Result::Ok(b) => b,
        };
        if !b {
            return Result::Err(
                Error::Unsupported(
                    UnsupportedCall {
                        version: version.to_owned(),
                        valid: clone_strings(&self.valid),
                        invalid: clone_strings(&self.invalid),
                    },
                ),
            );
        }
        f()
    }
}

/// Which configuration defect warm-up reports for an undecided gate `g`
/// against version `ver`.
pub open spec fn spec_defect_for(g: VersionGate, ver: Seq<char>, d: ConfigDefect) -> bool {
    if !version_parses(ver) {
        d matches ConfigDefect::ParseVersion { version: v } && v@ == ver
    } else {
        match decide_gate(g.valid_reqs(), g.invalid_reqs(), ver) {
            Result::Err(req) => d matches ConfigDefect::ParseRequirement { requirement: q } && q@
                == req,
            Result::Ok(_) => false,
        }
    }
}

/// Evaluate `any(reqs, r => matches(r, version))` with lazy parsing, as
/// [`lazy_any`] describes it.
fn lazy_match(reqs: &Vec<String>, version: &str) -> (r: Result<bool, String>)
    requires
        version_parses(version@),
    ensures
        lazy_any(str_views(reqs@), version@) matches Result::Ok(b) ==> r == Result::<
            bool,
            String,
        >::Ok(b),
        lazy_any(str_views(reqs@), version@) matches Result::Err(req) ==> (r matches Result::Err(s)
            && s@ == req),
{
    let ghost rv = str_views(reqs@);
    let mut i: usize = 0;
    proof {
        assert(rv.skip(0) =~= rv);
    }
    while i < reqs.len()
        invariant
            i <= reqs@.len(),
            rv == str_views(reqs@),
            version_parses(version@),
            lazy_any(rv, version@) == lazy_any(rv.skip(i as int), version@),
            forall|j: int| 0 <= j < i ==> requirement_parses(rv[j]) && !requirement_matches(
                rv[j],
                version@,
            ),
        decreases reqs@.len() - i,
    {
        proof {
            assert(rv.skip(i as int).first() == rv[i as int]);
        }
        let req = &reqs[i];
        if !requirement_is_wellformed(req.as_str()) {
            return Result::Err(req.clone());
        }
        if requirement_admits(req.as_str(), version) {
            return Result::Ok(true);
        }
        proof {
            assert(rv.skip(i as int).drop_first() =~= rv.skip(i + 1));
        }
        i += 1;
    }
    proof {
        assert(rv.skip(reqs@.len() as int).len() == 0);
    }
    Result::Ok(false)
}

} // verus!
