//! Small pure rules about passports, shared by the checker and its passes.

use vstd::prelude::*;
use vstd::string::*;

use crate::diagnostics::{error_help, error_with_help, Diagnostic, DiagnosticKind};
use crate::passport::record::passport_text;
use crate::passport::{Capability, Passport, TrustLevel};
use crate::text::{contains_text, text_contains};

verus! {

pub fn require_capability(passport: &Passport, capability: Capability, line: usize, reason: &str) -> (r: Result<(), Diagnostic>)
    ensures
        r is Ok <==> passport@.capabilities.contains(capability),
        r matches Err(d) ==> d@ == error_with_help(
            DiagnosticKind::AccessError,
            line,
            reason@,
            "value passport: "@ + passport_text(passport@) + "\n  missing capability: "@ + capability.debug_text(),
        ),
{
    if passport.capabilities.contains(capability) {
        Ok(())
    } else {
        let mut help = String::from_str("value passport: ");
        help.append(passport.to_text().as_str());
        help.append("\n  missing capability: ");
        help.append(capability.debug_str());
        Err(error_help(DiagnosticKind::AccessError, line, reason, help.as_str()))
    }
}

pub fn trust_join_from_sources(lhs: &Passport, rhs: &Passport) -> (r: TrustLevel)
    ensures
        r == lhs.trust.higher(rhs.trust),
{
    lhs.trust.higher(rhs.trust)
}

pub fn passport_is_axiom_or_worse(passport: &Passport) -> (r: bool)
    ensures
        r == (passport.trust.rank() >= TrustLevel::Axiom.rank()),
{
    passport.trust.rank() >= TrustLevel::Axiom.rank()
}

pub fn passport_is_unsafe(passport: &Passport) -> (r: bool)
    ensures
        r == (passport.trust == TrustLevel::Unsafe),
{
    passport.trust == TrustLevel::Unsafe
}

/// How many of `needles` a front-to-back scan of `events` matches in order, each
/// needle against the first later event that contains it.
pub open spec fn matched_in_order(events: Seq<Seq<char>>, needles: Seq<Seq<char>>) -> nat
    decreases events.len(),
{
    if events.len() == 0 {
        0
    } else {
        let k = matched_in_order(events.drop_last(), needles);
        if k < needles.len() && contains_text(events.last(), needles[k as int]) {
            k + 1
        } else {
            k
        }
    }
}

proof fn lemma_matched_bounded(events: Seq<Seq<char>>, needles: Seq<Seq<char>>)
    ensures
        matched_in_order(events, needles) <= needles.len(),
    decreases events.len(),
{
    if events.len() > 0 {
        lemma_matched_bounded(events.drop_last(), needles);
    }
}

proof fn lemma_matched_full_stays(events: Seq<Seq<char>>, needles: Seq<Seq<char>>, k: int)
    requires
        0 <= k <= events.len(),
        matched_in_order(events.take(k), needles) == needles.len(),
    ensures
        matched_in_order(events, needles) == needles.len(),
    decreases events.len() - k,
{
    if k < events.len() {
        let next = events.take(k + 1);
        assert(next.drop_last() =~= events.take(k));
        lemma_matched_full_stays(events, needles, k + 1);
    } else {
        assert(events.take(k) =~= events);
    }
}

/// `f` places the first `m` needles at strictly increasing positions of
/// `events`, each at an event that contains it.
pub open spec fn embeds_in_order(events: Seq<Seq<char>>, needles: Seq<Seq<char>>, m: int, f: Seq<int>) -> bool {
    &&& f.len() == m
    &&& forall|j: int| 0 <= j < m ==> 0 <= #[trigger] f[j] < events.len() && contains_text(events[f[j]], needles[j])
    &&& forall|a: int, b: int| 0 <= a < b < m ==> #[trigger] f[a] < #[trigger] f[b]
}

/// The needles occur in `events` as a subsequence: each inside its own event,
/// in the needles' order.
pub open spec fn occurs_in_order(events: Seq<Seq<char>>, needles: Seq<Seq<char>>) -> bool {
    exists|f: Seq<int>| embeds_in_order(events, needles, needles.len() as int, f)
}

proof fn lemma_matched_grows(events: Seq<Seq<char>>, needles: Seq<Seq<char>>)
    requires
        events.len() > 0,
    ensures
        matched_in_order(events, needles) >= matched_in_order(events.drop_last(), needles),
{
}

proof fn lemma_matched_sound(events: Seq<Seq<char>>, needles: Seq<Seq<char>>)
    ensures
        exists|f: Seq<int>| embeds_in_order(events, needles, matched_in_order(events, needles) as int, f),
    decreases events.len(),
{
    if events.len() == 0 {
        assert(embeds_in_order(events, needles, matched_in_order(events, needles) as int, Seq::<int>::empty()));
    } else {
        let p = events.drop_last();
        lemma_matched_sound(p, needles);
        let k = matched_in_order(p, needles);
        let f = choose|f: Seq<int>| embeds_in_order(p, needles, k as int, f);
        assert forall|j: int| 0 <= j < k implies 0 <= #[trigger] f[j] < events.len() && contains_text(events[f[j]], needles[j]) by {
            assert(events[f[j]] == p[f[j]]);
        }
        assert(events.drop_last() == p);
        if k < needles.len() && contains_text(events.last(), needles[k as int]) {
            assert(matched_in_order(events, needles) == k + 1);
            let g = f.push(events.len() - 1);
            assert forall|j: int| 0 <= j < k + 1 implies 0 <= #[trigger] g[j] < events.len() && contains_text(events[g[j]], needles[j]) by {
                if j < k {
                    assert(g[j] == f[j]);
                } else {
                    assert(g[j] == events.len() - 1);
                }
            }
            assert forall|a: int, b: int| 0 <= a < b < k + 1 implies #[trigger] g[a] < #[trigger] g[b] by {
                assert(g[a] == f[a]);
                if b < k {
                    assert(g[b] == f[b]);
                }
            }
            assert(embeds_in_order(events, needles, (k + 1) as int, g));
            assert(embeds_in_order(events, needles, matched_in_order(events, needles) as int, g));
        } else {
            assert(matched_in_order(events, needles) == k);
            assert(embeds_in_order(events, needles, k as int, f));
            assert(embeds_in_order(events, needles, matched_in_order(events, needles) as int, f));
        }
    }
}

proof fn lemma_matched_complete(events: Seq<Seq<char>>, needles: Seq<Seq<char>>, m: int, f: Seq<int>)
    requires
        0 <= m <= needles.len(),
        embeds_in_order(events, needles, m, f),
    ensures
        matched_in_order(events, needles) >= m,
    decreases events.len(),
{
    if m > 0 {
        assert(events.len() > 0) by {
            assert(0 <= f[0] < events.len());
        }
        let p = events.drop_last();
        lemma_matched_grows(events, needles);
        if f[m - 1] < events.len() - 1 {
            assert forall|j: int| 0 <= j < m implies 0 <= #[trigger] f[j] < p.len() && contains_text(p[f[j]], needles[j]) by {
                if j < m - 1 {
                    assert(f[j] < f[m - 1]);
                }
            }
            lemma_matched_complete(p, needles, m, f);
        } else {
            let g = f.take(m - 1);
            assert forall|j: int| 0 <= j < m - 1 implies 0 <= #[trigger] g[j] < p.len() && contains_text(p[g[j]], needles[j]) by {
                assert(g[j] == f[j]);
                assert(f[j] < f[m - 1]);
            }
            assert forall|a: int, b: int| 0 <= a < b < m - 1 implies #[trigger] g[a] < #[trigger] g[b] by {
                assert(g[a] == f[a] && g[b] == f[b]);
            }
            assert(embeds_in_order(p, needles, m - 1, g));
            lemma_matched_complete(p, needles, m - 1, g);
            assert(contains_text(events[f[m - 1]], needles[m - 1]));
            assert(events.last() == events[f[m - 1]]);
        }
    }
}

/// The greedy scan is exact: it matches every needle exactly when the
/// needles occur in the history as a subsequence.
pub proof fn lemma_matched_iff_occurs(events: Seq<Seq<char>>, needles: Seq<Seq<char>>)
    ensures
        (matched_in_order(events, needles) == needles.len()) <==> occurs_in_order(events, needles),
{
    lemma_matched_bounded(events, needles);
    lemma_matched_sound(events, needles);
    if occurs_in_order(events, needles) {
        let f = choose|f: Seq<int>| embeds_in_order(events, needles, needles.len() as int, f);
        lemma_matched_complete(events, needles, needles.len() as int, f);
    }
}

/// The history of `passport` contains events matching `needles`, in order.
pub fn history_contains_ordered_subsequence(passport: &Passport, needles: &[&str]) -> (r: bool)
    ensures
        r == (matched_in_order(passport@.history, needles@.map_values(|s: &str| s@)) == needles@.len()),
        r == occurs_in_order(passport@.history, needles@.map_values(|s: &str| s@)),
{
    proof {
        lemma_matched_iff_occurs(passport@.history, needles@.map_values(|s: &str| s@));
    }
    let ghost ns = needles@.map_values(|s: &str| s@);
    let ghost ev = passport@.history;
    if needles.len() == 0 {
        proof {
            lemma_matched_bounded(ev, ns);
        }
        return true;
    }
    let events = passport.history.events();
    let mut next: usize = 0;
    let mut i: usize = 0;
    while i < events.len()
        invariant
            ns == needles@.map_values(|s: &str| s@),
            ev == passport@.history,
            events.deep_view() == ev,
            needles.len() > 0,
            i <= events.len(),
            next < needles.len(),
            next == matched_in_order(ev.take(i as int), ns),
            (matched_in_order(ev, ns) == ns.len()) <==> occurs_in_order(ev, ns),
        decreases events.len() - i,
    {
        assert(ev.take(i + 1).drop_last() =~= ev.take(i as int));
        assert(ev[i as int] == events[i as int]@);
        if text_contains(events[i].as_str(), needles[next]) {
            next = next + 1;
            if next == needles.len() {
                proof {
                    lemma_matched_full_stays(ev, ns, i + 1);
                }
                return true;
            }
        }
        i = i + 1;
    }
    assert(ev.take(events.len() as int) =~= ev);
    false
}

} // verus!
