//! Fieldless classification enums of a passport, each with its declaration-order rank,
//! its `Debug` name and (where it has one) its display text.

use vstd::prelude::*;

verus! {

/// Which notion of infinity a value denotes.
#[derive(Debug, Clone, Copy, PartialEq, Eq, Structural, PartialOrd, Ord, Hash)]
pub enum InfinityMode {
    Cardinal,
    Ordinal,
    Limit,
    Potential,
    Class,
    Universe,
}

impl InfinityMode {
    /// Position in declaration order (the order that `Ord` compares by).
    pub open spec fn spec_rank(self) -> u8 {
        match self {
            InfinityMode::Cardinal => 0,
            InfinityMode::Ordinal => 1,
            InfinityMode::Limit => 2,
            InfinityMode::Potential => 3,
            InfinityMode::Class => 4,
            InfinityMode::Universe => 5,
        }
    }

    #[verifier::when_used_as_spec(spec_rank)]
    pub fn rank(self) -> (r: u8)
        ensures
            r == self.spec_rank(),
    {
        match self {
            InfinityMode::Cardinal => 0,
            InfinityMode::Ordinal => 1,
            InfinityMode::Limit => 2,
            InfinityMode::Potential => 3,
            InfinityMode::Class => 4,
            InfinityMode::Universe => 5,
        }
    }

    /// The later of the two in declaration order (`Ord::max`).
    pub open spec fn spec_higher(self, other: Self) -> Self {
        if other.spec_rank() > self.spec_rank() { other } else { self }
    }

    #[verifier::when_used_as_spec(spec_higher)]
    pub fn higher(self, other: Self) -> (r: Self)
        ensures
            r == self.spec_higher(other),
    {
        if other.rank() > self.rank() { other } else { self }
    }

    /// The `Debug` name of the variant.
    pub open spec fn debug_text(self) -> Seq<char> {
        match self {
            InfinityMode::Cardinal => "Cardinal"@,
            InfinityMode::Ordinal => "Ordinal"@,
            InfinityMode::Limit => "Limit"@,
            InfinityMode::Potential => "Potential"@,
            InfinityMode::Class => "Class"@,
            InfinityMode::Universe => "Universe"@,
        }
    }

    pub fn debug_str(self) -> (r: &'static str)
        ensures
            r@ == self.debug_text(),
    {
        match self {
            InfinityMode::Cardinal => "Cardinal",
            InfinityMode::Ordinal => "Ordinal",
            InfinityMode::Limit => "Limit",
            InfinityMode::Potential => "Potential",
            InfinityMode::Class => "Class",
            InfinityMode::Universe => "Universe",
        }
    }

    /// The display text of the variant.
    pub open spec fn display_text(self) -> Seq<char> {
        match self {
            InfinityMode::Cardinal => "cardinal"@,
            InfinityMode::Ordinal => "ordinal"@,
            InfinityMode::Limit => "limit"@,
            InfinityMode::Potential => "potential"@,
            InfinityMode::Class => "class"@,
            InfinityMode::Universe => "universe"@,
        }
    }

    pub fn display_str(self) -> (r: &'static str)
        ensures
            r@ == self.display_text(),
    {
        match self {
            InfinityMode::Cardinal => "cardinal",
            InfinityMode::Ordinal => "ordinal",
            InfinityMode::Limit => "limit",
            InfinityMode::Potential => "potential",
            InfinityMode::Class => "class",
            InfinityMode::Universe => "universe",
        }
    }
}

/// Instruction-set architecture of a compute node.
#[derive(Debug, Clone, Copy, PartialEq, Eq, Structural, PartialOrd, Ord, Hash)]
pub enum NodeArch {
    X86_64,
    Aarch64,
}

impl NodeArch {
    /// Position in declaration order (the order that `Ord` compares by).
    pub open spec fn spec_rank(self) -> u8 {
        match self {
            NodeArch::X86_64 => 0,
            NodeArch::Aarch64 => 1,
        }
    }

    #[verifier::when_used_as_spec(spec_rank)]
    pub fn rank(self) -> (r: u8)
        ensures
            r == self.spec_rank(),
    {
        match self {
            NodeArch::X86_64 => 0,
            NodeArch::Aarch64 => 1,
        }
    }

    /// The later of the two in declaration order (`Ord::max`).
    pub open spec fn spec_higher(self, other: Self) -> Self {
        if other.spec_rank() > self.spec_rank() { other } else { self }
    }

    #[verifier::when_used_as_spec(spec_higher)]
    pub fn higher(self, other: Self) -> (r: Self)
        ensures
            r == self.spec_higher(other),
    {
        if other.rank() > self.rank() { other } else { self }
    }

    /// The `Debug` name of the variant.
    pub open spec fn debug_text(self) -> Seq<char> {
        match self {
            NodeArch::X86_64 => "X86_64"@,
            NodeArch::Aarch64 => "Aarch64"@,
        }
    }

    pub fn debug_str(self) -> (r: &'static str)
        ensures
            r@ == self.debug_text(),
    {
        match self {
            NodeArch::X86_64 => "X86_64",
            NodeArch::Aarch64 => "Aarch64",
        }
    }

    /// The display text of the variant.
    pub open spec fn display_text(self) -> Seq<char> {
        match self {
            NodeArch::X86_64 => "x86_64"@,
            NodeArch::Aarch64 => "aarch64"@,
        }
    }

    pub fn display_str(self) -> (r: &'static str)
        ensures
            r@ == self.display_text(),
    {
        match self {
            NodeArch::X86_64 => "x86_64",
            NodeArch::Aarch64 => "aarch64",
        }
    }
}

/// GPU runtime family.
#[derive(Debug, Clone, Copy, PartialEq, Eq, Structural, PartialOrd, Ord, Hash)]
pub enum GpuBackend {
    Cuda,
    Rocm,
}

impl GpuBackend {
    /// Position in declaration order (the order that `Ord` compares by).
    pub open spec fn spec_rank(self) -> u8 {
        match self {
            GpuBackend::Cuda => 0,
            GpuBackend::Rocm => 1,
        }
    }

    #[verifier::when_used_as_spec(spec_rank)]
    pub fn rank(self) -> (r: u8)
        ensures
            r == self.spec_rank(),
    {
        match self {
            GpuBackend::Cuda => 0,
            GpuBackend::Rocm => 1,
        }
    }

    /// The later of the two in declaration order (`Ord::max`).
    pub open spec fn spec_higher(self, other: Self) -> Self {
        if other.spec_rank() > self.spec_rank() { other } else { self }
    }

    #[verifier::when_used_as_spec(spec_higher)]
    pub fn higher(self, other: Self) -> (r: Self)
        ensures
            r == self.spec_higher(other),
    {
        if other.rank() > self.rank() { other } else { self }
    }

    /// The `Debug` name of the variant.
    pub open spec fn debug_text(self) -> Seq<char> {
        match self {
            GpuBackend::Cuda => "Cuda"@,
            GpuBackend::Rocm => "Rocm"@,
        }
    }

    pub fn debug_str(self) -> (r: &'static str)
        ensures
            r@ == self.debug_text(),
    {
        match self {
            GpuBackend::Cuda => "Cuda",
            GpuBackend::Rocm => "Rocm",
        }
    }

    /// The display text of the variant.
    pub open spec fn display_text(self) -> Seq<char> {
        match self {
            GpuBackend::Cuda => "cuda"@,
            GpuBackend::Rocm => "rocm"@,
        }
    }

    pub fn display_str(self) -> (r: &'static str)
        ensures
            r@ == self.display_text(),
    {
        match self {
            GpuBackend::Cuda => "cuda",
            GpuBackend::Rocm => "rocm",
        }
    }
}

/// How a value was constructed.
#[derive(Debug, Clone, Copy, PartialEq, Eq, Structural, PartialOrd, Ord, Hash)]
pub enum ConstructionMode {
    Literal,
    Compressed,
    Recursive,
    ProofFinite,
    Definable,
    Oracle,
    External,
    Unsafe,
}

impl ConstructionMode {
    /// Position in declaration order (the order that `Ord` compares by).
    pub open spec fn spec_rank(self) -> u8 {
        match self {
            ConstructionMode::Literal => 0,
            ConstructionMode::Compressed => 1,
            ConstructionMode::Recursive => 2,
            ConstructionMode::ProofFinite => 3,
            ConstructionMode::Definable => 4,
            ConstructionMode::Oracle => 5,
            ConstructionMode::External => 6,
            ConstructionMode::Unsafe => 7,
        }
    }

    #[verifier::when_used_as_spec(spec_rank)]
    pub fn rank(self) -> (r: u8)
        ensures
            r == self.spec_rank(),
    {
        match self {
            ConstructionMode::Literal => 0,
            ConstructionMode::Compressed => 1,
            ConstructionMode::Recursive => 2,
            ConstructionMode::ProofFinite => 3,
            ConstructionMode::Definable => 4,
            ConstructionMode::Oracle => 5,
            ConstructionMode::External => 6,
            ConstructionMode::Unsafe => 7,
        }
    }

    /// The later of the two in declaration order (`Ord::max`).
    pub open spec fn spec_higher(self, other: Self) -> Self {
        if other.spec_rank() > self.spec_rank() { other } else { self }
    }

    #[verifier::when_used_as_spec(spec_higher)]
    pub fn higher(self, other: Self) -> (r: Self)
        ensures
            r == self.spec_higher(other),
    {
        if other.rank() > self.rank() { other } else { self }
    }

    /// The `Debug` name of the variant.
    pub open spec fn debug_text(self) -> Seq<char> {
        match self {
            ConstructionMode::Literal => "Literal"@,
            ConstructionMode::Compressed => "Compressed"@,
            ConstructionMode::Recursive => "Recursive"@,
            ConstructionMode::ProofFinite => "ProofFinite"@,
            ConstructionMode::Definable => "Definable"@,
            ConstructionMode::Oracle => "Oracle"@,
            ConstructionMode::External => "External"@,
            ConstructionMode::Unsafe => "Unsafe"@,
        }
    }

    pub fn debug_str(self) -> (r: &'static str)
        ensures
            r@ == self.debug_text(),
    {
        match self {
            ConstructionMode::Literal => "Literal",
            ConstructionMode::Compressed => "Compressed",
            ConstructionMode::Recursive => "Recursive",
            ConstructionMode::ProofFinite => "ProofFinite",
            ConstructionMode::Definable => "Definable",
            ConstructionMode::Oracle => "Oracle",
            ConstructionMode::External => "External",
            ConstructionMode::Unsafe => "Unsafe",
        }
    }
}

/// How expensive a value is to expand or evaluate.
#[derive(Debug, Clone, Copy, PartialEq, Eq, Structural, PartialOrd, Ord, Hash)]
pub enum CostClass {
    Trivial,
    SmallFinite,
    LargeFinite,
    Compressed,
    Recursive,
    NonExpandable,
    ProofRequired,
    Uncomputable,
    OracleRequired,
    UnsafeUnknown,
}

impl CostClass {
    /// Position in declaration order (the order that `Ord` compares by).
    pub open spec fn spec_rank(self) -> u8 {
        match self {
            CostClass::Trivial => 0,
            CostClass::SmallFinite => 1,
            CostClass::LargeFinite => 2,
            CostClass::Compressed => 3,
            CostClass::Recursive => 4,
            CostClass::NonExpandable => 5,
            CostClass::ProofRequired => 6,
            CostClass::Uncomputable => 7,
            CostClass::OracleRequired => 8,
            CostClass::UnsafeUnknown => 9,
        }
    }

    #[verifier::when_used_as_spec(spec_rank)]
    pub fn rank(self) -> (r: u8)
        ensures
            r == self.spec_rank(),
    {
        match self {
            CostClass::Trivial => 0,
            CostClass::SmallFinite => 1,
            CostClass::LargeFinite => 2,
            CostClass::Compressed => 3,
            CostClass::Recursive => 4,
            CostClass::NonExpandable => 5,
            CostClass::ProofRequired => 6,
            CostClass::Uncomputable => 7,
            CostClass::OracleRequired => 8,
            CostClass::UnsafeUnknown => 9,
        }
    }

    /// The later of the two in declaration order (`Ord::max`).
    pub open spec fn spec_higher(self, other: Self) -> Self {
        if other.spec_rank() > self.spec_rank() { other } else { self }
    }

    #[verifier::when_used_as_spec(spec_higher)]
    pub fn higher(self, other: Self) -> (r: Self)
        ensures
            r == self.spec_higher(other),
    {
        if other.rank() > self.rank() { other } else { self }
    }

    /// The `Debug` name of the variant.
    pub open spec fn debug_text(self) -> Seq<char> {
        match self {
            CostClass::Trivial => "Trivial"@,
            CostClass::SmallFinite => "SmallFinite"@,
            CostClass::LargeFinite => "LargeFinite"@,
            CostClass::Compressed => "Compressed"@,
            CostClass::Recursive => "Recursive"@,
            CostClass::NonExpandable => "NonExpandable"@,
            CostClass::ProofRequired => "ProofRequired"@,
            CostClass::Uncomputable => "Uncomputable"@,
            CostClass::OracleRequired => "OracleRequired"@,
            CostClass::UnsafeUnknown => "UnsafeUnknown"@,
        }
    }

    pub fn debug_str(self) -> (r: &'static str)
        ensures
            r@ == self.debug_text(),
    {
        match self {
            CostClass::Trivial => "Trivial",
            CostClass::SmallFinite => "SmallFinite",
            CostClass::LargeFinite => "LargeFinite",
            CostClass::Compressed => "Compressed",
            CostClass::Recursive => "Recursive",
            CostClass::NonExpandable => "NonExpandable",
            CostClass::ProofRequired => "ProofRequired",
            CostClass::Uncomputable => "Uncomputable",
            CostClass::OracleRequired => "OracleRequired",
            CostClass::UnsafeUnknown => "UnsafeUnknown",
        }
    }
}

/// Trust taint of a value; later variants are less trusted.
#[derive(Debug, Clone, Copy, PartialEq, Eq, Structural, PartialOrd, Ord, Hash)]
pub enum TrustLevel {
    Checked,
    Builtin,
    Axiom,
    Oracle,
    Unsafe,
}

impl TrustLevel {
    /// Position in declaration order (the order that `Ord` compares by).
    pub open spec fn spec_rank(self) -> u8 {
        match self {
            TrustLevel::Checked => 0,
            TrustLevel::Builtin => 1,
            TrustLevel::Axiom => 2,
            TrustLevel::Oracle => 3,
            TrustLevel::Unsafe => 4,
        }
    }

    #[verifier::when_used_as_spec(spec_rank)]
    pub fn rank(self) -> (r: u8)
        ensures
            r == self.spec_rank(),
    {
        match self {
            TrustLevel::Checked => 0,
            TrustLevel::Builtin => 1,
            TrustLevel::Axiom => 2,
            TrustLevel::Oracle => 3,
            TrustLevel::Unsafe => 4,
        }
    }

    /// The later of the two in declaration order (`Ord::max`).
    pub open spec fn spec_higher(self, other: Self) -> Self {
        if other.spec_rank() > self.spec_rank() { other } else { self }
    }

    #[verifier::when_used_as_spec(spec_higher)]
    pub fn higher(self, other: Self) -> (r: Self)
        ensures
            r == self.spec_higher(other),
    {
        if other.rank() > self.rank() { other } else { self }
    }

    /// The `Debug` name of the variant.
    pub open spec fn debug_text(self) -> Seq<char> {
        match self {
            TrustLevel::Checked => "Checked"@,
            TrustLevel::Builtin => "Builtin"@,
            TrustLevel::Axiom => "Axiom"@,
            TrustLevel::Oracle => "Oracle"@,
            TrustLevel::Unsafe => "Unsafe"@,
        }
    }

    pub fn debug_str(self) -> (r: &'static str)
        ensures
            r@ == self.debug_text(),
    {
        match self {
            TrustLevel::Checked => "Checked",
            TrustLevel::Builtin => "Builtin",
            TrustLevel::Axiom => "Axiom",
            TrustLevel::Oracle => "Oracle",
            TrustLevel::Unsafe => "Unsafe",
        }
    }
}

/// How far a value has been validated.
#[derive(Debug, Clone, Copy, PartialEq, Eq, Structural, PartialOrd, Ord, Hash)]
pub enum ValidationState {
    StaticChecked,
    Raw,
    Parsed,
    RuntimeChecked,
    ConstraintChecked,
    Assumed,
}

impl ValidationState {
    /// Position in declaration order (the order that `Ord` compares by).
    pub open spec fn spec_rank(self) -> u8 {
        match self {
            ValidationState::StaticChecked => 0,
            ValidationState::Raw => 1,
            ValidationState::Parsed => 2,
            ValidationState::RuntimeChecked => 3,
            ValidationState::ConstraintChecked => 4,
            ValidationState::Assumed => 5,
        }
    }

    #[verifier::when_used_as_spec(spec_rank)]
    pub fn rank(self) -> (r: u8)
        ensures
            r == self.spec_rank(),
    {
        match self {
            ValidationState::StaticChecked => 0,
            ValidationState::Raw => 1,
            ValidationState::Parsed => 2,
            ValidationState::RuntimeChecked => 3,
            ValidationState::ConstraintChecked => 4,
            ValidationState::Assumed => 5,
        }
    }

    /// The later of the two in declaration order (`Ord::max`).
    pub open spec fn spec_higher(self, other: Self) -> Self {
        if other.spec_rank() > self.spec_rank() { other } else { self }
    }

    #[verifier::when_used_as_spec(spec_higher)]
    pub fn higher(self, other: Self) -> (r: Self)
        ensures
            r == self.spec_higher(other),
    {
        if other.rank() > self.rank() { other } else { self }
    }

    /// The `Debug` name of the variant.
    pub open spec fn debug_text(self) -> Seq<char> {
        match self {
            ValidationState::StaticChecked => "StaticChecked"@,
            ValidationState::Raw => "Raw"@,
            ValidationState::Parsed => "Parsed"@,
            ValidationState::RuntimeChecked => "RuntimeChecked"@,
            ValidationState::ConstraintChecked => "ConstraintChecked"@,
            ValidationState::Assumed => "Assumed"@,
        }
    }

    pub fn debug_str(self) -> (r: &'static str)
        ensures
            r@ == self.debug_text(),
    {
        match self {
            ValidationState::StaticChecked => "StaticChecked",
            ValidationState::Raw => "Raw",
            ValidationState::Parsed => "Parsed",
            ValidationState::RuntimeChecked => "RuntimeChecked",
            ValidationState::ConstraintChecked => "ConstraintChecked",
            ValidationState::Assumed => "Assumed",
        }
    }
}

/// Where a value came from.
#[derive(Debug, Clone, Copy, PartialEq, Eq, Structural, PartialOrd, Ord, Hash)]
pub enum Provenance {
    InternalLiteral,
    InternalDerived,
    BuiltinKnown,
    RuntimeInput,
    ExternalFile,
    OracleInput,
    UnsafeExternal,
}

impl Provenance {
    /// Position in declaration order (the order that `Ord` compares by).
    pub open spec fn spec_rank(self) -> u8 {
        match self {
            Provenance::InternalLiteral => 0,
            Provenance::InternalDerived => 1,
            Provenance::BuiltinKnown => 2,
            Provenance::RuntimeInput => 3,
            Provenance::ExternalFile => 4,
            Provenance::OracleInput => 5,
            Provenance::UnsafeExternal => 6,
        }
    }

    #[verifier::when_used_as_spec(spec_rank)]
    pub fn rank(self) -> (r: u8)
        ensures
            r == self.spec_rank(),
    {
        match self {
            Provenance::InternalLiteral => 0,
            Provenance::InternalDerived => 1,
            Provenance::BuiltinKnown => 2,
            Provenance::RuntimeInput => 3,
            Provenance::ExternalFile => 4,
            Provenance::OracleInput => 5,
            Provenance::UnsafeExternal => 6,
        }
    }

    /// The later of the two in declaration order (`Ord::max`).
    pub open spec fn spec_higher(self, other: Self) -> Self {
        if other.spec_rank() > self.spec_rank() { other } else { self }
    }

    #[verifier::when_used_as_spec(spec_higher)]
    pub fn higher(self, other: Self) -> (r: Self)
        ensures
            r == self.spec_higher(other),
    {
        if other.rank() > self.rank() { other } else { self }
    }

    /// The `Debug` name of the variant.
    pub open spec fn debug_text(self) -> Seq<char> {
        match self {
            Provenance::InternalLiteral => "InternalLiteral"@,
            Provenance::InternalDerived => "InternalDerived"@,
            Provenance::BuiltinKnown => "BuiltinKnown"@,
            Provenance::RuntimeInput => "RuntimeInput"@,
            Provenance::ExternalFile => "ExternalFile"@,
            Provenance::OracleInput => "OracleInput"@,
            Provenance::UnsafeExternal => "UnsafeExternal"@,
        }
    }

    pub fn debug_str(self) -> (r: &'static str)
        ensures
            r@ == self.debug_text(),
    {
        match self {
            Provenance::InternalLiteral => "InternalLiteral",
            Provenance::InternalDerived => "InternalDerived",
            Provenance::BuiltinKnown => "BuiltinKnown",
            Provenance::RuntimeInput => "RuntimeInput",
            Provenance::ExternalFile => "ExternalFile",
            Provenance::OracleInput => "OracleInput",
            Provenance::UnsafeExternal => "UnsafeExternal",
        }
    }
}

} // verus!
