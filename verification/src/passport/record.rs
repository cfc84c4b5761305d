//! Passports: the static record of what a value is, where it came from and what it may do.

use vstd::prelude::*;
use vstd::string::*;

use super::capability::{capability_set_text, CapabilitySet, Capability};
use super::kinds::{
    ConstructionMode, CostClass, NodeArch, Provenance, TrustLevel, ValidationState,
};
use super::type_kind::{type_text, TypeKind, TypeKindV};
use crate::text::{
    contains_text, dec_text, join_strings, join_text, parse_u128, parse_u128_text,
    starts_with_text, strip_prefix_text, text_contains,
};

verus! {

/// Where a value lives.
#[derive(Debug, Clone, Copy, PartialEq, Eq, Structural)]
pub enum LocationContext {
    Local,
    Node { arch: NodeArch },
    Remote { arch: NodeArch },
}

impl LocationContext {
    pub fn local() -> (r: Self)
        ensures
            r == LocationContext::Local,
    {
        LocationContext::Local
    }

    pub fn node(arch: NodeArch) -> (r: Self)
        ensures
            r == (LocationContext::Node { arch }),
    {
        LocationContext::Node { arch }
    }

    pub fn remote(arch: NodeArch) -> (r: Self)
        ensures
            r == (LocationContext::Remote { arch }),
    {
        LocationContext::Remote { arch }
    }

    /// Display text: `local`, `node<arch>` or `remote<arch>`.
    pub open spec fn display_text(self) -> Seq<char> {
        match self {
            LocationContext::Local => "local"@,
            LocationContext::Node { arch } => "node<"@ + arch.display_text() + ">"@,
            LocationContext::Remote { arch } => "remote<"@ + arch.display_text() + ">"@,
        }
    }

    pub fn to_text(&self) -> (r: String)
        ensures
            r@ == self.display_text(),
    {
        match self {
            LocationContext::Local => String::from_str("local"),
            LocationContext::Node { arch } => {
                let mut s = String::from_str("node<");
                s.append(arch.display_str());
                s.append(">");
                s
            },
            LocationContext::Remote { arch } => {
                let mut s = String::from_str("remote<");
                s.append(arch.display_str());
                s.append(">");
                s
            },
        }
    }
}

/// Concatenation of several histories, in order.
pub open spec fn concat_histories(parts: Seq<Seq<Seq<char>>>) -> Seq<Seq<char>>
    decreases parts.len(),
{
    if parts.len() == 0 {
        Seq::empty()
    } else {
        concat_histories(parts.drop_last()) + parts.last()
    }
}

/// `summary` text of a history: its events joined by ` -> `, or `empty`.
pub open spec fn summary_text(h: Seq<Seq<char>>) -> Seq<char> {
    if h.len() == 0 {
        "empty"@
    } else {
        join_text(h, " -> "@)
    }
}

/// Display text of a history: its summary in brackets.
pub open spec fn history_text(h: Seq<Seq<char>>) -> Seq<char> {
    "["@ + summary_text(h) + "]"@
}

/// Result of adding up the resource amounts recorded by events that begin with `prefix`:
/// whether every such amount parses, whether any was found, and their sum.
pub open spec fn resource_tally(events: Seq<Seq<char>>, prefix: Seq<char>) -> (bool, bool, int)
    decreases events.len(),
{
    if events.len() == 0 {
        (true, false, 0)
    } else {
        let (ok, found, sum) = resource_tally(events.drop_last(), prefix);
        let e = events.last();
        if starts_with_text(e, prefix) {
            match parse_u128_text(e.subrange(prefix.len() as int, e.len() as int)) {
                Some(v) => (ok, true, sum + v),
                None => (false, true, sum),
            }
        } else {
            (ok, found, sum)
        }
    }
}

/// Total of the resource amounts recorded under `prefix`: `None` when none is recorded,
/// when one does not parse, or when the total does not fit in a `u128`.
pub open spec fn resource_total(events: Seq<Seq<char>>, prefix: Seq<char>) -> Option<u128> {
    let (ok, found, sum) = resource_tally(events, prefix);
    if ok && found && sum <= u128::MAX {
        Some(sum as u128)
    } else {
        None
    }
}

proof fn lemma_tally_prefix(events: Seq<Seq<char>>, prefix: Seq<char>, k: int)
    requires
        0 <= k <= events.len(),
    ensures
        ({
            let (ok_k, found_k, sum_k) = resource_tally(events.take(k), prefix);
            let (ok, found, sum) = resource_tally(events, prefix);
            &&& sum_k >= 0
            &&& (ok ==> ok_k && sum_k <= sum)
            &&& (found_k ==> found)
        }),
    decreases events.len(),
{
    if k == events.len() {
        assert(events.take(k) =~= events);
        lemma_tally_nonneg(events, prefix);
    } else {
        lemma_tally_prefix(events.drop_last(), prefix, k);
        assert(events.drop_last().take(k) =~= events.take(k));
        lemma_tally_nonneg(events.drop_last(), prefix);
    }
}

proof fn lemma_tally_nonneg(events: Seq<Seq<char>>, prefix: Seq<char>)
    ensures
        resource_tally(events, prefix).2 >= 0,
    decreases events.len(),
{
    if events.len() > 0 {
        lemma_tally_nonneg(events.drop_last(), prefix);
    }
}

proof fn lemma_tally_concat(a: Seq<Seq<char>>, b: Seq<Seq<char>>, prefix: Seq<char>)
    ensures
        resource_tally(a + b, prefix) == ({
            let (oa, fa, sa) = resource_tally(a, prefix);
            let (ob, fb, sb) = resource_tally(b, prefix);
            (oa && ob, fa || fb, sa + sb)
        }),
    decreases b.len(),
{
    if b.len() == 0 {
        assert(a + b =~= a);
    } else {
        lemma_tally_concat(a, b.drop_last(), prefix);
        assert((a + b).drop_last() =~= a + b.drop_last());
        assert((a + b).last() == b.last());
    }
}

/// Resource totals add up when histories are merged: if both histories record
/// a total under `prefix` and the sum fits, the merged history (closed by an
/// event that records no such amount) records the sum. A history merged with
/// itself counts twice.
pub proof fn lemma_merged_totals_add(a: Seq<Seq<char>>, b: Seq<Seq<char>>, event: Seq<char>, prefix: Seq<char>)
    requires
        resource_total(a, prefix) is Some,
        resource_total(b, prefix) is Some,
        resource_total(a, prefix)->Some_0 + resource_total(b, prefix)->Some_0 <= u128::MAX,
        !starts_with_text(event, prefix),
    ensures
        resource_total((a + b).push(event), prefix) == Some(
            (resource_total(a, prefix)->Some_0 + resource_total(b, prefix)->Some_0) as u128,
        ),
        concat_histories(seq![a, b]).push(event) == (a + b).push(event),
{
    lemma_tally_concat(a, b, prefix);
    lemma_tally_nonneg(a, prefix);
    lemma_tally_nonneg(b, prefix);
    let m = (a + b).push(event);
    assert(m.drop_last() =~= a + b);
    assert(m.last() == event);
    assert(resource_tally(m, prefix) == resource_tally(a + b, prefix));
    let s1 = seq![a];
    let s2 = seq![a, b];
    assert(s1.drop_last() =~= Seq::<Seq<Seq<char>>>::empty());
    assert(s1.last() == a);
    assert(concat_histories(s1.drop_last()) =~= Seq::<Seq<char>>::empty());
    assert(concat_histories(s1) == concat_histories(s1.drop_last()) + s1.last());
    assert(concat_histories(s1) =~= a);
    assert(s2.drop_last() =~= s1);
    assert(s2.last() == b);
    assert(concat_histories(s2) =~= a + b);
}

/// Append-only log of the transitions a value went through.
///
/// Repeated events are kept: resource accounting counts each one.
#[derive(Debug)]
pub struct HistoryChain {
    events: Vec<String>,
}

impl View for HistoryChain {
    type V = Seq<Seq<char>>;

    closed spec fn view(&self) -> Seq<Seq<char>> {
        self.events.deep_view()
    }
}

impl Clone for HistoryChain {
    fn clone(&self) -> (r: Self)
        ensures
            r@ == self@,
    {
        self.duplicate()
    }
}

impl HistoryChain {
    pub fn empty() -> (r: Self)
        ensures
            r@ == Seq::<Seq<char>>::empty(),
    {
        let r = HistoryChain { events: Vec::new() };
        assert(r@ =~= Seq::<Seq<char>>::empty());
        r
    }

    pub fn from_event(event: &str) -> (r: Self)
        ensures
            r@ == seq![event@],
    {
        let mut events: Vec<String> = Vec::new();
        events.push(String::from_str(event));
        let r = HistoryChain { events };
        assert(r@ =~= seq![event@]);
        r
    }

    /// A copy with the same events.
    pub fn duplicate(&self) -> (r: Self)
        ensures
            r@ == self@,
    {
        let mut events: Vec<String> = Vec::new();
        let mut i: usize = 0;
        while i < self.events.len()
            invariant
                i <= self.events.len(),
                events.deep_view() =~= self.events.deep_view().take(i as int),
            decreases self.events.len() - i,
        {
            let ghost before = events.deep_view();
            let e = self.events[i].clone();
            events.push(e);
            assert(events.deep_view() =~= before.push(self.events.deep_view()[i as int]));
            assert(self.events.deep_view().take(i + 1) =~= self.events.deep_view().take(i as int).push(self.events.deep_view()[i as int]));
            i = i + 1;
        }
        assert(self.events.deep_view().take(i as int) =~= self.events.deep_view());
        HistoryChain { events }
    }

    pub fn from_source(source: &HistoryChain, event: &str) -> (r: Self)
        ensures
            r@ == source@.push(event@),
    {
        let mut r = source.duplicate();
        r.push(event);
        r
    }

    pub fn merge2(lhs: &HistoryChain, rhs: &HistoryChain, event: &str) -> (r: Self)
        ensures
            r@ == (lhs@ + rhs@).push(event@),
    {
        let mut r = lhs.duplicate();
        r.extend_from(rhs);
        r.push(event);
        r
    }

    pub fn merge3(a: &HistoryChain, b: &HistoryChain, c: &HistoryChain, event: &str) -> (r: Self)
        ensures
            r@ == (a@ + b@ + c@).push(event@),
    {
        let mut r = a.duplicate();
        r.extend_from(b);
        r.extend_from(c);
        r.push(event);
        r
    }

    pub fn merge_many(sources: &[&HistoryChain], event: &str) -> (r: Self)
        ensures
            r@ == concat_histories(sources@.map_values(|h: &HistoryChain| h@)).push(event@),
    {
        let ghost parts = sources@.map_values(|h: &HistoryChain| h@);
        let mut r = HistoryChain::empty();
        let mut i: usize = 0;
        while i < sources.len()
            invariant
                parts == sources@.map_values(|h: &HistoryChain| h@),
                i <= sources.len(),
                r@ == concat_histories(parts.take(i as int)),
            decreases sources.len() - i,
        {
            assert(parts.take(i + 1).drop_last() =~= parts.take(i as int));
            r.extend_from(sources[i]);
            i = i + 1;
        }
        assert(parts.take(sources.len() as int) =~= parts);
        r.push(event);
        r
    }

    /// The histories of `items`, in order, followed by `event`.
    pub fn merge_passports(items: &[Passport], event: &str) -> (r: Self)
        ensures
            r@ == concat_histories(items@.map_values(|p: Passport| p.history@)).push(event@),
    {
        let ghost parts = items@.map_values(|p: Passport| p.history@);
        let mut r = HistoryChain::empty();
        let mut i: usize = 0;
        while i < items.len()
            invariant
                parts == items@.map_values(|p: Passport| p.history@),
                i <= items.len(),
                r@ == concat_histories(parts.take(i as int)),
            decreases items.len() - i,
        {
            assert(parts.take(i + 1).drop_last() =~= parts.take(i as int));
            r.extend_from(&items[i].history);
            i = i + 1;
        }
        assert(parts.take(items.len() as int) =~= parts);
        r.push(event);
        r
    }

    /// The histories of the passports `items` refers to, in order, followed by `event`.
    pub fn merge_refs(items: &[&Passport], event: &str) -> (r: Self)
        ensures
            r@ == concat_histories(ref_histories(items@)).push(event@),
    {
        let ghost parts = ref_histories(items@);
        let mut r = HistoryChain::empty();
        let mut i: usize = 0;
        while i < items.len()
            invariant
                parts == ref_histories(items@),
                i <= items.len(),
                r@ == concat_histories(parts.take(i as int)),
            decreases items.len() - i,
        {
            assert(parts.take(i + 1).drop_last() =~= parts.take(i as int));
            r.extend_from(&items[i].history);
            i = i + 1;
        }
        assert(parts.take(items.len() as int) =~= parts);
        r.push(event);
        r
    }

    fn extend_from(&mut self, other: &HistoryChain)
        ensures
            final(self)@ == old(self)@ + other@,
    {
        let mut i: usize = 0;
        while i < other.events.len()
            invariant
                i <= other.events.len(),
                self@ =~= old(self)@ + other@.take(i as int),
            decreases other.events.len() - i,
        {
            let ghost before = self@;
            let e = other.events[i].clone();
            self.events.push(e);
            assert(self@ =~= before.push(other@[i as int]));
            assert(other@.take(i + 1) =~= other@.take(i as int).push(other@[i as int]));
            i = i + 1;
        }
        assert(other@.take(i as int) =~= other@);
    }

    pub fn push(&mut self, event: &str)
        ensures
            final(self)@ == old(self)@.push(event@),
    {
        self.events.push(String::from_str(event));
        assert(self@ =~= old(self)@.push(event@));
    }

    pub fn summary(&self) -> (r: String)
        ensures
            r@ == summary_text(self@),
    {
        if self.events.len() == 0 {
            String::from_str("empty")
        } else {
            join_strings(&self.events, " -> ")
        }
    }

    /// Display text: the summary in brackets.
    pub fn to_text(&self) -> (r: String)
        ensures
            r@ == history_text(self@),
    {
        let mut s = String::from_str("[");
        s.append(self.summary().as_str());
        s.append("]");
        s
    }

    pub fn contains_event(&self, needle: &str) -> (r: bool)
        ensures
            r == exists|i: int| 0 <= i < self@.len() && contains_text(#[trigger] self@[i], needle@),
    {
        let mut i: usize = 0;
        while i < self.events.len()
            invariant
                i <= self.events.len(),
                forall|j: int| 0 <= j < i ==> !contains_text(#[trigger] self@[j], needle@),
            decreases self.events.len() - i,
        {
            if text_contains(self.events[i].as_str(), needle) {
                assert(contains_text(self@[i as int], needle@));
                return true;
            }
            i = i + 1;
        }
        false
    }

    /// The events, oldest first.
    pub fn events(&self) -> (r: &Vec<String>)
        ensures
            r.deep_view() == self@,
    {
        &self.events
    }

    /// Number of events.
    pub fn len(&self) -> (r: usize)
        ensures
            r == self@.len(),
    {
        self.events.len()
    }

    fn total_with_prefix(&self, prefix: &str) -> (r: Option<u128>)
        ensures
            r == resource_total(self@, prefix@),
    {
        let ghost ev = self@;
        let mut total: u128 = 0;
        let mut found = false;
        let mut i: usize = 0;
        while i < self.events.len()
            invariant
                ev == self@,
                i <= self.events.len(),
                ({
                    let (ok, f, sum) = resource_tally(ev.take(i as int), prefix@);
                    ok && f == found && sum == total
                }),
            decreases self.events.len() - i,
        {
            assert(ev.take(i + 1).drop_last() =~= ev.take(i as int));
            let event = &self.events[i];
            assert(event@ == ev[i as int]);
            match strip_prefix_text(event.as_str(), prefix) {
                Some(raw) => {
                    match parse_u128(raw.as_str()) {
                        Some(value) => {
                            match total.checked_add(value) {
                                Some(t) => {
                                    total = t;
                                    found = true;
                                },
                                None => {
                                    proof {
                                        lemma_tally_prefix(ev, prefix@, i + 1);
                                    }
                                    return None;
                                },
                            }
                        },
                        None => {
                            proof {
                                lemma_tally_prefix(ev, prefix@, i + 1);
                            }
                            return None;
                        },
                    }
                },
                None => {},
            }
            i = i + 1;
        }
        assert(ev.take(i as int) =~= ev);
        if found {
            Some(total)
        } else {
            None
        }
    }

    pub fn total_node_memory_mib(&self) -> (r: Option<u128>)
        ensures
            r == resource_total(self@, "node_resource:memory_mib:"@),
    {
        self.total_with_prefix("node_resource:memory_mib:")
    }

    pub fn total_gpu_memory_mib(&self) -> (r: Option<u128>)
        ensures
            r == resource_total(self@, "gpu_resource:memory_mib:"@),
    {
        self.total_with_prefix("gpu_resource:memory_mib:")
    }
}

/// Theory context of a value: its home theory, the theories it is valid in,
/// and the bridges it crossed.
#[derive(Debug)]
pub struct TheoryContext {
    pub home: String,
    /// Each theory name at most once: `new` starts with one name and
    /// `insert_valid_in` never adds a name that is already listed.
    pub valid_in: Vec<String>,
    pub bridge_trace: Vec<String>,
}

/// Model of a `TheoryContext`.
pub struct TheoryContextV {
    pub home: Seq<char>,
    pub valid_in: Set<Seq<char>>,
    pub bridge_trace: Seq<Seq<char>>,
}

impl View for TheoryContext {
    type V = TheoryContextV;

    open spec fn view(&self) -> TheoryContextV {
        TheoryContextV {
            home: self.home@,
            valid_in: self.valid_in.deep_view().to_set(),
            bridge_trace: self.bridge_trace.deep_view(),
        }
    }
}

/// The context of a value created in `home`.
pub open spec fn home_context(home: Seq<char>) -> TheoryContextV {
    TheoryContextV { home, valid_in: set![home], bridge_trace: Seq::empty() }
}

pub(crate) fn copy_strings(v: &Vec<String>) -> (r: Vec<String>)
    ensures
        r.deep_view() == v.deep_view(),
{
    let mut out: Vec<String> = Vec::new();
    let mut i: usize = 0;
    while i < v.len()
        invariant
            i <= v.len(),
            out.deep_view() =~= v.deep_view().take(i as int),
        decreases v.len() - i,
    {
        let ghost before = out.deep_view();
        let e = v[i].clone();
        out.push(e);
        assert(out.deep_view() =~= before.push(v.deep_view()[i as int]));
        assert(v.deep_view().take(i + 1) =~= v.deep_view().take(i as int).push(v.deep_view()[i as int]));
        i = i + 1;
    }
    assert(v.deep_view().take(i as int) =~= v.deep_view());
    out
}

impl Clone for TheoryContext {
    fn clone(&self) -> (r: Self)
        ensures
            r@ == self@,
    {
        self.duplicate()
    }
}

impl TheoryContext {
    pub fn new(home: &str) -> (r: Self)
        ensures
            r@ == home_context(home@),
            r.valid_in.deep_view() == seq![home@],
            r.valid_in.deep_view().no_duplicates(),
    {
        let mut valid_in: Vec<String> = Vec::new();
        valid_in.push(String::from_str(home));
        let r = TheoryContext { home: String::from_str(home), valid_in, bridge_trace: Vec::new() };
        assert(r.valid_in.deep_view() =~= seq![home@]);
        assert(seq![home@].to_set() =~= set![home@]) by {
            assert(seq![home@][0] == home@);
        }
        assert(r.bridge_trace.deep_view() =~= Seq::<Seq<char>>::empty());
        r
    }

    pub fn duplicate(&self) -> (r: Self)
        ensures
            r@ == self@,
            r.valid_in.deep_view() == self.valid_in.deep_view(),
    {
        TheoryContext {
            home: self.home.clone(),
            valid_in: copy_strings(&self.valid_in),
            bridge_trace: copy_strings(&self.bridge_trace),
        }
    }

    /// Record that the value is also valid in `theory`; a name already listed
    /// is not listed again, so a list without repeats stays without repeats.
    pub fn insert_valid_in(&mut self, theory: &str)
        ensures
            final(self)@ == (TheoryContextV { valid_in: old(self)@.valid_in.insert(theory@), ..old(self)@ }),
            final(self).valid_in.deep_view() == if old(self).valid_in.deep_view().contains(theory@) {
                old(self).valid_in.deep_view()
            } else {
                old(self).valid_in.deep_view().push(theory@)
            },
            old(self).valid_in.deep_view().no_duplicates() ==> final(self).valid_in.deep_view().no_duplicates(),
    {
        let ghost before = self.valid_in.deep_view();
        let mut i: usize = 0;
        while i < self.valid_in.len()
            invariant
                before == self.valid_in.deep_view(),
                i <= self.valid_in.len(),
                forall|j: int| 0 <= j < i ==> #[trigger] before[j] != theory@,
            decreases self.valid_in.len() - i,
        {
            if crate::text::str_eq(self.valid_in[i].as_str(), theory) {
                assert(before[i as int] == theory@);
                assert(before.contains(theory@));
                assert(before.to_set().insert(theory@) =~= before.to_set());
                return;
            }
            i = i + 1;
        }
        self.valid_in.push(String::from_str(theory));
        assert(self.valid_in.deep_view() =~= before.push(theory@));
        assert(!before.contains(theory@));
        assert(before.no_duplicates() ==> before.push(theory@).no_duplicates()) by {
            if before.no_duplicates() {
                assert forall|a: int, b: int| 0 <= a < before.len() + 1 && 0 <= b < before.len() + 1 && a != b implies before.push(
                    theory@,
                )[a] != before.push(theory@)[b] by {
                    if a == before.len() {
                        assert(before[b] != theory@);
                    } else if b == before.len() {
                        assert(before[a] != theory@);
                    }
                }
            }
        }
        assert(before.push(theory@).to_set() =~= before.to_set().insert(theory@)) by {
            assert forall|x: Seq<char>| before.push(theory@).contains(x) <==> before.to_set().insert(theory@).contains(x) by {
                if before.push(theory@).contains(x) {
                    let k = choose|k: int| 0 <= k < before.len() + 1 && before.push(theory@)[k] == x;
                    if k < before.len() {
                        assert(before[k] == x);
                    }
                }
                if before.contains(x) {
                    let k = choose|k: int| 0 <= k < before.len() && before[k] == x;
                    assert(before.push(theory@)[k] == x);
                }
                if x == theory@ {
                    assert(before.push(theory@)[before.len() as int] == x);
                }
            }
        }
    }

    /// Record that the value crossed `bridge`.
    pub fn push_bridge(&mut self, bridge: &str)
        ensures
            final(self)@ == (TheoryContextV { bridge_trace: old(self)@.bridge_trace.push(bridge@), ..old(self)@ }),
    {
        self.bridge_trace.push(String::from_str(bridge));
        assert(self.bridge_trace.deep_view() =~= old(self)@.bridge_trace.push(bridge@));
    }
}

/// The passport of a value.
#[derive(Debug)]
pub struct Passport {
    pub ty: TypeKind,
    pub construction: ConstructionMode,
    pub capabilities: CapabilitySet,
    pub cost: CostClass,
    pub trust: TrustLevel,
    pub provenance: Provenance,
    pub validation: ValidationState,
    pub theory: TheoryContext,
    pub history: HistoryChain,
    pub location: LocationContext,
}

/// Model of a `Passport`.
pub struct PassportV {
    pub ty: TypeKindV,
    pub construction: ConstructionMode,
    pub capabilities: Set<Capability>,
    pub cost: CostClass,
    pub trust: TrustLevel,
    pub provenance: Provenance,
    pub validation: ValidationState,
    pub theory: TheoryContextV,
    pub history: Seq<Seq<char>>,
    pub location: LocationContext,
}

impl View for Passport {
    type V = PassportV;

    open spec fn view(&self) -> PassportV {
        PassportV {
            ty: self.ty@,
            construction: self.construction,
            capabilities: self.capabilities@,
            cost: self.cost,
            trust: self.trust,
            provenance: self.provenance,
            validation: self.validation,
            theory: self.theory@,
            history: self.history@,
            location: self.location,
        }
    }
}

/// The histories of the passports a slice of references points to.
pub open spec fn ref_histories(items: Seq<&Passport>) -> Seq<Seq<Seq<char>>> {
    items.map_values(|p: &Passport| p.history@)
}

/// Display text of a passport.
pub open spec fn passport_text(p: PassportV) -> Seq<char> {
    type_text(p.ty) + "<construction="@ + p.construction.debug_text() + ", cost="@
        + p.cost.debug_text() + ", trust="@ + p.trust.debug_text() + ", provenance="@
        + p.provenance.debug_text() + ", validation="@ + p.validation.debug_text()
        + ", theory="@ + p.theory.home + ", location="@ + p.location.display_text()
        + ", caps="@ + capability_set_text(p.capabilities) + ", history="@ + history_text(
        p.history,
    ) + ">"@
}

impl Clone for Passport {
    fn clone(&self) -> (r: Self)
        ensures
            r@ == self@,
    {
        self.duplicate()
    }
}

impl Passport {
    /// A copy with the same model.
    pub fn duplicate(&self) -> (r: Self)
        ensures
            r@ == self@,
    {
        Passport {
            ty: self.ty.duplicate(),
            construction: self.construction,
            capabilities: self.capabilities,
            cost: self.cost,
            trust: self.trust,
            provenance: self.provenance,
            validation: self.validation,
            theory: self.theory.duplicate(),
            history: self.history.duplicate(),
            location: self.location,
        }
    }

    /// Display text of the passport.
    pub fn to_text(&self) -> (r: String)
        ensures
            r@ == passport_text(self@),
    {
        let mut s = self.ty.to_text();
        s.append("<construction=");
        s.append(self.construction.debug_str());
        s.append(", cost=");
        s.append(self.cost.debug_str());
        s.append(", trust=");
        s.append(self.trust.debug_str());
        s.append(", provenance=");
        s.append(self.provenance.debug_str());
        s.append(", validation=");
        s.append(self.validation.debug_str());
        s.append(", theory=");
        s.append(self.theory.home.as_str());
        s.append(", location=");
        s.append(self.location.to_text().as_str());
        s.append(", caps=");
        s.append(self.capabilities.to_text().as_str());
        s.append(", history=");
        s.append(self.history.to_text().as_str());
        s.append(">");
        s
    }
}

} // verus!
