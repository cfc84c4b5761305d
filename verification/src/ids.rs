//! Process-local identifiers for files, modules, theories, values, types, bridges and proofs.
//!
//! They are not stable serialization IDs and must not be used as source-level names.

use vstd::prelude::*;
use vstd::string::*;

use crate::text::{dec_text, u128_text};

verus! {

#[derive(Debug, Clone, Copy, PartialEq, Eq, Structural, PartialOrd, Ord, Hash)]
pub struct FileId(pub u32);

impl FileId {
    pub fn new(raw: u32) -> (r: Self)
        ensures
            r.0 == raw,
    {
        FileId(raw)
    }

    pub fn raw(self) -> (r: u32)
        ensures
            r == self.0,
    {
        self.0
    }

    /// Display text: `file#` followed by the number.
    pub fn to_text(self) -> (r: String)
        ensures
            r@ == "file#"@ + dec_text(self.0 as nat),
    {
        let mut s = String::from_str("file#");
        s.append(u128_text(self.0 as u128).as_str());
        s
    }
}

#[derive(Debug, Clone, Copy, PartialEq, Eq, Structural, PartialOrd, Ord, Hash)]
pub struct ModuleId(pub u32);

impl ModuleId {
    pub fn new(raw: u32) -> (r: Self)
        ensures
            r.0 == raw,
    {
        ModuleId(raw)
    }

    pub fn raw(self) -> (r: u32)
        ensures
            r == self.0,
    {
        self.0
    }

    /// Display text: `module#` followed by the number.
    pub fn to_text(self) -> (r: String)
        ensures
            r@ == "module#"@ + dec_text(self.0 as nat),
    {
        let mut s = String::from_str("module#");
        s.append(u128_text(self.0 as u128).as_str());
        s
    }
}

#[derive(Debug, Clone, Copy, PartialEq, Eq, Structural, PartialOrd, Ord, Hash)]
pub struct TheoryId(pub u32);

impl TheoryId {
    pub fn new(raw: u32) -> (r: Self)
        ensures
            r.0 == raw,
    {
        TheoryId(raw)
    }

    pub fn raw(self) -> (r: u32)
        ensures
            r == self.0,
    {
        self.0
    }

    /// Display text: `theory#` followed by the number.
    pub fn to_text(self) -> (r: String)
        ensures
            r@ == "theory#"@ + dec_text(self.0 as nat),
    {
        let mut s = String::from_str("theory#");
        s.append(u128_text(self.0 as u128).as_str());
        s
    }
}

#[derive(Debug, Clone, Copy, PartialEq, Eq, Structural, PartialOrd, Ord, Hash)]
pub struct ValueId(pub u32);

impl ValueId {
    pub fn new(raw: u32) -> (r: Self)
        ensures
            r.0 == raw,
    {
        ValueId(raw)
    }

    pub fn raw(self) -> (r: u32)
        ensures
            r == self.0,
    {
        self.0
    }

    /// Display text: `value#` followed by the number.
    pub fn to_text(self) -> (r: String)
        ensures
            r@ == "value#"@ + dec_text(self.0 as nat),
    {
        let mut s = String::from_str("value#");
        s.append(u128_text(self.0 as u128).as_str());
        s
    }
}

#[derive(Debug, Clone, Copy, PartialEq, Eq, Structural, PartialOrd, Ord, Hash)]
pub struct TypeId(pub u32);

impl TypeId {
    pub fn new(raw: u32) -> (r: Self)
        ensures
            r.0 == raw,
    {
        TypeId(raw)
    }

    pub fn raw(self) -> (r: u32)
        ensures
            r == self.0,
    {
        self.0
    }

    /// Display text: `type#` followed by the number.
    pub fn to_text(self) -> (r: String)
        ensures
            r@ == "type#"@ + dec_text(self.0 as nat),
    {
        let mut s = String::from_str("type#");
        s.append(u128_text(self.0 as u128).as_str());
        s
    }
}

#[derive(Debug, Clone, Copy, PartialEq, Eq, Structural, PartialOrd, Ord, Hash)]
pub struct BridgeId(pub u32);

impl BridgeId {
    pub fn new(raw: u32) -> (r: Self)
        ensures
            r.0 == raw,
    {
        BridgeId(raw)
    }

    pub fn raw(self) -> (r: u32)
        ensures
            r == self.0,
    {
        self.0
    }

    /// Display text: `bridge#` followed by the number.
    pub fn to_text(self) -> (r: String)
        ensures
            r@ == "bridge#"@ + dec_text(self.0 as nat),
    {
        let mut s = String::from_str("bridge#");
        s.append(u128_text(self.0 as u128).as_str());
        s
    }
}

#[derive(Debug, Clone, Copy, PartialEq, Eq, Structural, PartialOrd, Ord, Hash)]
pub struct ProofId(pub u32);

impl ProofId {
    pub fn new(raw: u32) -> (r: Self)
        ensures
            r.0 == raw,
    {
        ProofId(raw)
    }

    pub fn raw(self) -> (r: u32)
        ensures
            r == self.0,
    {
        self.0
    }

    /// Display text: `proof#` followed by the number.
    pub fn to_text(self) -> (r: String)
        ensures
            r@ == "proof#"@ + dec_text(self.0 as nat),
    {
        let mut s = String::from_str("proof#");
        s.append(u128_text(self.0 as u128).as_str());
        s
    }
}

impl FileId {
    /// The root file.
    pub fn root() -> (r: Self)
        ensures
            r.0 == 0,
    {
        FileId(0)
    }
}

/// Monotonic allocator of identifiers, one counter per kind.
#[derive(Debug, Clone, Default)]
pub struct IdAllocator {
    next_file: u32,
    next_module: u32,
    next_theory: u32,
    next_value: u32,
    next_ty: u32,
    next_bridge: u32,
    next_proof: u32,
}

/// Model of an `IdAllocator`: the next identifier of each kind.
pub struct IdAllocatorV {
    pub file: u32,
    pub module: u32,
    pub theory: u32,
    pub value: u32,
    pub ty: u32,
    pub bridge: u32,
    pub proof: u32,
}

impl View for IdAllocator {
    type V = IdAllocatorV;

    closed spec fn view(&self) -> IdAllocatorV {
        IdAllocatorV {
            file: self.next_file,
            module: self.next_module,
            theory: self.next_theory,
            value: self.next_value,
            ty: self.next_ty,
            bridge: self.next_bridge,
            proof: self.next_proof,
        }
    }
}

impl IdAllocator {
    pub fn new() -> (r: Self)
        ensures
            r@.file == 0,
            r@.module == 0,
            r@.theory == 0,
            r@.value == 0,
            r@.ty == 0,
            r@.bridge == 0,
            r@.proof == 0,
    {
        IdAllocator {next_file: 0, next_module: 0, next_theory: 0, next_value: 0, next_ty: 0, next_bridge: 0, next_proof: 0 }
    }

    /// The next FileId; the counter must not be exhausted.
    pub fn alloc_file(&mut self) -> (r: FileId)
        requires
            old(self)@.file < u32::MAX,
        ensures
            r.0 == old(self)@.file,
            final(self)@ == (IdAllocatorV { file: (old(self)@.file + 1) as u32, ..old(self)@ }),
            final(self)@ == bump(old(self)@, AllocKind::File),
            r.0 == counter_of(old(self)@, AllocKind::File),
    {
        let id = self.next_file;
        self.next_file = id + 1;
        FileId(id)
    }

    /// The next ModuleId; the counter must not be exhausted.
    pub fn alloc_module(&mut self) -> (r: ModuleId)
        requires
            old(self)@.module < u32::MAX,
        ensures
            r.0 == old(self)@.module,
            final(self)@ == (IdAllocatorV { module: (old(self)@.module + 1) as u32, ..old(self)@ }),
            final(self)@ == bump(old(self)@, AllocKind::Module),
            r.0 == counter_of(old(self)@, AllocKind::Module),
    {
        let id = self.next_module;
        self.next_module = id + 1;
        ModuleId(id)
    }

    /// The next TheoryId; the counter must not be exhausted.
    pub fn alloc_theory(&mut self) -> (r: TheoryId)
        requires
            old(self)@.theory < u32::MAX,
        ensures
            r.0 == old(self)@.theory,
            final(self)@ == (IdAllocatorV { theory: (old(self)@.theory + 1) as u32, ..old(self)@ }),
            final(self)@ == bump(old(self)@, AllocKind::Theory),
            r.0 == counter_of(old(self)@, AllocKind::Theory),
    {
        let id = self.next_theory;
        self.next_theory = id + 1;
        TheoryId(id)
    }

    /// The next ValueId; the counter must not be exhausted.
    pub fn alloc_value(&mut self) -> (r: ValueId)
        requires
            old(self)@.value < u32::MAX,
        ensures
            r.0 == old(self)@.value,
            final(self)@ == (IdAllocatorV { value: (old(self)@.value + 1) as u32, ..old(self)@ }),
            final(self)@ == bump(old(self)@, AllocKind::Value),
            r.0 == counter_of(old(self)@, AllocKind::Value),
    {
        let id = self.next_value;
        self.next_value = id + 1;
        ValueId(id)
    }

    /// The next TypeId; the counter must not be exhausted.
    pub fn alloc_type(&mut self) -> (r: TypeId)
        requires
            old(self)@.ty < u32::MAX,
        ensures
            r.0 == old(self)@.ty,
            final(self)@ == (IdAllocatorV { ty: (old(self)@.ty + 1) as u32, ..old(self)@ }),
            final(self)@ == bump(old(self)@, AllocKind::Type),
            r.0 == counter_of(old(self)@, AllocKind::Type),
    {
        let id = self.next_ty;
        self.next_ty = id + 1;
        TypeId(id)
    }

    /// The next BridgeId; the counter must not be exhausted.
    pub fn alloc_bridge(&mut self) -> (r: BridgeId)
        requires
            old(self)@.bridge < u32::MAX,
        ensures
            r.0 == old(self)@.bridge,
            final(self)@ == (IdAllocatorV { bridge: (old(self)@.bridge + 1) as u32, ..old(self)@ }),
            final(self)@ == bump(old(self)@, AllocKind::Bridge),
            r.0 == counter_of(old(self)@, AllocKind::Bridge),
    {
        let id = self.next_bridge;
        self.next_bridge = id + 1;
        BridgeId(id)
    }

    /// The next ProofId; the counter must not be exhausted.
    pub fn alloc_proof(&mut self) -> (r: ProofId)
        requires
            old(self)@.proof < u32::MAX,
        ensures
            r.0 == old(self)@.proof,
            final(self)@ == (IdAllocatorV { proof: (old(self)@.proof + 1) as u32, ..old(self)@ }),
            final(self)@ == bump(old(self)@, AllocKind::Proof),
            r.0 == counter_of(old(self)@, AllocKind::Proof),
    {
        let id = self.next_proof;
        self.next_proof = id + 1;
        ProofId(id)
    }

}

/// The kinds of id the allocator hands out.
#[derive(Debug, Clone, Copy, PartialEq, Eq, Structural)]
pub enum AllocKind {
    File,
    Module,
    Theory,
    Value,
    Type,
    Bridge,
    Proof,
}

/// The next id of kind `k` that `a` hands out.
pub open spec fn counter_of(a: IdAllocatorV, k: AllocKind) -> u32 {
    match k {
        AllocKind::File => a.file,
        AllocKind::Module => a.module,
        AllocKind::Theory => a.theory,
        AllocKind::Value => a.value,
        AllocKind::Type => a.ty,
        AllocKind::Bridge => a.bridge,
        AllocKind::Proof => a.proof,
    }
}

/// `a` after handing out one id of kind `k`: that counter goes up by one.
pub open spec fn bump(a: IdAllocatorV, k: AllocKind) -> IdAllocatorV {
    match k {
        AllocKind::File => IdAllocatorV { file: (a.file + 1) as u32, ..a },
        AllocKind::Module => IdAllocatorV { module: (a.module + 1) as u32, ..a },
        AllocKind::Theory => IdAllocatorV { theory: (a.theory + 1) as u32, ..a },
        AllocKind::Value => IdAllocatorV { value: (a.value + 1) as u32, ..a },
        AllocKind::Type => IdAllocatorV { ty: (a.ty + 1) as u32, ..a },
        AllocKind::Bridge => IdAllocatorV { bridge: (a.bridge + 1) as u32, ..a },
        AllocKind::Proof => IdAllocatorV { proof: (a.proof + 1) as u32, ..a },
    }
}

/// `a` after the allocations `ks`, in order.
pub open spec fn run_allocs(a: IdAllocatorV, ks: Seq<AllocKind>) -> IdAllocatorV
    decreases ks.len(),
{
    if ks.len() == 0 {
        a
    } else {
        bump(run_allocs(a, ks.drop_last()), ks.last())
    }
}

/// How many of the allocations `ks` are of kind `k`.
pub open spec fn count_kind(ks: Seq<AllocKind>, k: AllocKind) -> nat
    decreases ks.len(),
{
    if ks.len() == 0 {
        0
    } else {
        count_kind(ks.drop_last(), k) + if ks.last() == k { 1nat } else { 0nat }
    }
}

/// Every allocation of `ks` finds its counter below `u32::MAX` (where the
/// allocator would otherwise stop).
pub open spec fn allocs_fit(a: IdAllocatorV, ks: Seq<AllocKind>) -> bool {
    forall|i: int| 0 <= i < ks.len() ==> counter_of(run_allocs(a, ks.take(i)), #[trigger] ks[i]) < u32::MAX
}

/// Ids of each kind are handed out consecutively: after any sequence of
/// allocations `ks` (of any kinds, interleaved), the `i`-th allocation gets
/// the starting counter of its kind plus the number of earlier allocations of
/// that kind, and each counter has gone up by the number of its allocations.
/// So ids of one kind are strictly increasing and pairwise distinct.
pub proof fn lemma_allocations_are_consecutive(a: IdAllocatorV, ks: Seq<AllocKind>)
    requires
        allocs_fit(a, ks),
    ensures
        forall|k: AllocKind| counter_of(run_allocs(a, ks), k) == counter_of(a, k) + count_kind(ks, k),
        forall|i: int|
            0 <= i < ks.len() ==> counter_of(run_allocs(a, ks.take(i)), #[trigger] ks[i]) == counter_of(a, ks[i]) + count_kind(
                ks.take(i),
                ks[i],
            ),
        forall|i: int, j: int|
            0 <= i < j < ks.len() && ks[i] == ks[j] ==> counter_of(run_allocs(a, ks.take(i)), #[trigger] ks[i]) < counter_of(
                run_allocs(a, ks.take(j)),
                #[trigger] ks[j],
            ),
    decreases ks.len(),
{
    if ks.len() > 0 {
        let p = ks.drop_last();
        assert forall|i: int| 0 <= i < p.len() implies counter_of(run_allocs(a, p.take(i)), #[trigger] p[i]) < u32::MAX by {
            assert(p.take(i) =~= ks.take(i));
            assert(p[i] == ks[i]);
        }
        lemma_allocations_are_consecutive(a, p);
        assert(ks.take(ks.len() - 1) =~= p);
        let n = ks.len() - 1;
        assert(counter_of(run_allocs(a, ks.take(n)), ks[n]) < u32::MAX);
        assert forall|k: AllocKind| counter_of(run_allocs(a, ks), k) == counter_of(a, k) + count_kind(ks, k) by {
            assert(ks.last() == ks[n]);
            assert(run_allocs(a, ks) == bump(run_allocs(a, p), ks.last()));
            assert(counter_of(run_allocs(a, p), k) == counter_of(a, k) + count_kind(p, k));
        }
        assert forall|i: int|
            0 <= i < ks.len() implies counter_of(run_allocs(a, ks.take(i)), #[trigger] ks[i]) == counter_of(a, ks[i]) + count_kind(
            ks.take(i),
            ks[i],
        ) by {
            if i < n {
                assert(p.take(i) =~= ks.take(i));
                assert(p[i] == ks[i]);
            }
        }
        assert forall|i: int, j: int|
            0 <= i < j < ks.len() && ks[i] == ks[j] implies counter_of(run_allocs(a, ks.take(i)), #[trigger] ks[i]) < counter_of(
            run_allocs(a, ks.take(j)),
            #[trigger] ks[j],
        ) by {
            lemma_count_kind_grows(ks, ks[i], i, j);
        }
    }
}

proof fn lemma_count_kind_grows(ks: Seq<AllocKind>, k: AllocKind, i: int, j: int)
    requires
        0 <= i < j <= ks.len(),
        ks[i] == k,
    ensures
        count_kind(ks.take(i), k) < count_kind(ks.take(j), k),
    decreases j - i,
{
    assert(ks.take(j).drop_last() =~= ks.take(j - 1));
    if j == i + 1 {
        assert(ks.take(j).last() == k);
    } else {
        lemma_count_kind_grows(ks, k, i, j - 1);
    }
}

} // verus!
