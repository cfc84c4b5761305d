//! Checker trust policy.
//!
//! Trust levels are ordered `Checked < Builtin < Axiom < Oracle < Unsafe`; a normal
//! computation may only keep or raise taint, never lower it.

use vstd::prelude::*;
use vstd::string::*;

use crate::diagnostics::{error_help, error_with_help, Diagnostic, DiagnosticKind, DiagnosticV};
use crate::passport::record::passport_text;
use crate::passport::{Passport, TrustLevel};
use crate::text::{contains_text, starts_with_text, text_contains, text_starts_with};

verus! {

/// The most tainted trust level a check accepts.
#[derive(Debug, Clone, Copy, PartialEq, Eq, Structural)]
pub struct CheckPolicy {
    pub max_trust: TrustLevel,
}

impl CheckPolicy {
    /// Axioms allowed, oracles and unsafe values refused.
    pub fn research() -> (r: Self)
        ensures
            r.max_trust == TrustLevel::Axiom,
    {
        CheckPolicy { max_trust: TrustLevel::Axiom }
    }

    /// Only checked and builtin values.
    pub fn trusted_only() -> (r: Self)
        ensures
            r.max_trust == TrustLevel::Builtin,
    {
        CheckPolicy { max_trust: TrustLevel::Builtin }
    }

    /// Everything, unsafe values included.
    pub fn allow_unsafe() -> (r: Self)
        ensures
            r.max_trust == TrustLevel::Unsafe,
    {
        CheckPolicy { max_trust: TrustLevel::Unsafe }
    }
}

impl Default for CheckPolicy {
    fn default() -> (r: Self)
        ensures
            r.max_trust == TrustLevel::Axiom,
    {
        CheckPolicy::research()
    }
}

/// The join of two trust levels: the more tainted one.
pub fn join_trust(lhs: TrustLevel, rhs: TrustLevel) -> (r: TrustLevel)
    ensures
        r == lhs.higher(rhs),
        r.rank() >= lhs.rank(),
        r.rank() >= rhs.rank(),
{
    lhs.higher(rhs)
}

/// The join of a sequence of trust levels, starting from `Checked`.
pub open spec fn join_all(values: Seq<TrustLevel>) -> TrustLevel
    decreases values.len(),
{
    if values.len() == 0 {
        TrustLevel::Checked
    } else {
        join_all(values.drop_last()).higher(values.last())
    }
}

pub fn join_many_trust(values: &[TrustLevel]) -> (r: TrustLevel)
    ensures
        r == join_all(values@),
{
    let mut acc = TrustLevel::Checked;
    let mut i: usize = 0;
    while i < values.len()
        invariant
            i <= values.len(),
            acc == join_all(values@.take(i as int)),
        decreases values.len() - i,
    {
        assert(values@.take(i + 1).drop_last() =~= values@.take(i as int));
        acc = acc.higher(values[i]);
        i = i + 1;
    }
    assert(values@.take(values.len() as int) =~= values@);
    acc
}

pub open spec fn allowed(policy: CheckPolicy, trust: TrustLevel) -> bool {
    trust.rank() <= policy.max_trust.rank()
}

pub fn is_allowed_by_policy(policy: CheckPolicy, trust: TrustLevel) -> (r: bool)
    ensures
        r == allowed(policy, trust),
        r == (trust.rank() <= policy.max_trust.rank()),
{
    trust.rank() <= policy.max_trust.rank()
}

/// The diagnostic for a value whose taint exceeds the policy.
pub open spec fn policy_violation(trust: TrustLevel, policy: CheckPolicy, line: usize, passport: Seq<char>) -> DiagnosticV {
    error_with_help(
        DiagnosticKind::TrustTaintError,
        line,
        "value trust level "@ + trust.debug_text() + " exceeds current policy "@ + policy.max_trust.debug_text(),
        "value passport: "@ + passport
            + "\n  use --allow-unsafe for unsafe prototypes, or avoid Axiom/Unsafe sources for --trusted-only checks"@,
    )
}

pub fn validate_policy(passport: &Passport, policy: CheckPolicy, line: usize) -> (r: Result<(), Diagnostic>)
    ensures
        r is Ok <==> allowed(policy, passport.trust),
        r is Ok <==> passport.trust.rank() <= policy.max_trust.rank(),
        r matches Err(d) ==> d@ == policy_violation(passport.trust, policy, line, passport_text(passport@)),
{
    if is_allowed_by_policy(policy, passport.trust) {
        return Ok(());
    }
    let mut message = String::from_str("value trust level ");
    message.append(passport.trust.debug_str());
    message.append(" exceeds current policy ");
    message.append(policy.max_trust.debug_str());
    let mut help = String::from_str("value passport: ");
    help.append(passport.to_text().as_str());
    help.append("\n  use --allow-unsafe for unsafe prototypes, or avoid Axiom/Unsafe sources for --trusted-only checks");
    Err(error_help(DiagnosticKind::TrustTaintError, line, message.as_str(), help.as_str()))
}

/// A policy admits exactly the trust levels at or below its ceiling in the order
/// `Checked < Builtin < Axiom < Oracle < Unsafe`: `--trusted-only` admits
/// `Checked` and `Builtin` alone (it refuses `Axiom`), the research default
/// admits up to `Axiom` (it refuses `Oracle`), and `--allow-unsafe` admits all.
pub proof fn lemma_policy_follows_trust_order(policy: CheckPolicy, trust: TrustLevel)
    ensures
        allowed(policy, trust) <==> trust.rank() <= policy.max_trust.rank(),
        allowed(CheckPolicy { max_trust: TrustLevel::Builtin }, trust) <==> (trust == TrustLevel::Checked
            || trust == TrustLevel::Builtin),
        allowed(CheckPolicy { max_trust: TrustLevel::Axiom }, trust) <==> (trust == TrustLevel::Checked
            || trust == TrustLevel::Builtin || trust == TrustLevel::Axiom),
        allowed(CheckPolicy { max_trust: TrustLevel::Unsafe }, trust),
        allowed(policy, policy.max_trust),
{
}

/// History events that only an axiom-tainted value can carry.
pub open spec fn event_requires_axiom(event: Seq<char>) -> bool {
    ||| contains_text(event, "axiom:"@)
    ||| starts_with_text(event, "truth:from_provable_axiom"@)
    ||| starts_with_text(event, "consistency:axiom:"@)
    ||| starts_with_text(event, "reflection:axiom:"@)
    ||| starts_with_text(event, "self_reference:axiom:"@)
    ||| starts_with_text(event, "bridge:soundness:"@)
}

pub fn history_requires_at_least_axiom(event: &str) -> (r: bool)
    ensures
        r == event_requires_axiom(event@),
{
    text_contains(event, "axiom:") || text_starts_with(event, "truth:from_provable_axiom")
        || text_starts_with(event, "consistency:axiom:") || text_starts_with(event, "reflection:axiom:")
        || text_starts_with(event, "self_reference:axiom:") || text_starts_with(event, "bridge:soundness:")
}

/// History events that only an unsafe value can carry.
pub open spec fn event_requires_unsafe(event: Seq<char>) -> bool {
    contains_text(event, "unsafe:"@) || starts_with_text(event, "bridge:unsafe:"@)
}

pub fn history_requires_unsafe(event: &str) -> (r: bool)
    ensures
        r == event_requires_unsafe(event@),
{
    text_contains(event, "unsafe:") || text_starts_with(event, "bridge:unsafe:")
}

/// The join of several trust levels is their maximum: it is at least each of
/// them, and it is one of them (or `Checked` when there is none).
pub proof fn lemma_join_all_is_max(values: Seq<TrustLevel>)
    ensures
        forall|k: int| 0 <= k < values.len() ==> (#[trigger] values[k]).rank() <= join_all(values).rank(),
        join_all(values) == TrustLevel::Checked || values.contains(join_all(values)),
    decreases values.len(),
{
    if values.len() > 0 {
        let p = values.drop_last();
        lemma_join_all_is_max(p);
        assert forall|k: int| 0 <= k < values.len() implies (#[trigger] values[k]).rank() <= join_all(values).rank() by {
            if k < values.len() - 1 {
                assert(values[k] == p[k]);
            }
        }
        if join_all(values) != TrustLevel::Checked {
            if join_all(values) == values.last() {
                assert(values[values.len() - 1] == values.last());
            } else {
                let j = choose|j: int| 0 <= j < p.len() && p[j] == join_all(p);
                assert(values[j] == p[j]);
            }
        }
    }
}

/// The join of several trust levels does not depend on their order (or on
/// repeats): two sequences holding the same levels have the same join.
pub proof fn lemma_join_all_order_independent(vs: Seq<TrustLevel>, ws: Seq<TrustLevel>)
    requires
        forall|t: TrustLevel| vs.contains(t) <==> ws.contains(t),
    ensures
        join_all(vs) == join_all(ws),
{
    lemma_join_all_is_max(vs);
    lemma_join_all_is_max(ws);
    let a = join_all(vs);
    let b = join_all(ws);
    if vs.contains(a) {
        assert(ws.contains(a));
        let k = choose|k: int| 0 <= k < ws.len() && ws[k] == a;
        assert(ws[k].rank() <= b.rank());
    }
    if ws.contains(b) {
        assert(vs.contains(b));
        let k = choose|k: int| 0 <= k < vs.len() && vs[k] == b;
        assert(vs[k].rank() <= a.rank());
    }
    assert(a.rank() == b.rank());
}

} // verus!
