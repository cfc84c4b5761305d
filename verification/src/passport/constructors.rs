//! Passport constructors: one per kind of value the checker can infer.

use vstd::prelude::*;
use vstd::string::*;

use super::capability::{Capability, CapabilitySet};
use super::kinds::{
    ConstructionMode, CostClass, GpuBackend, InfinityMode, NodeArch, Provenance, TrustLevel,
    ValidationState,
};
use super::record::{
    concat_histories, home_context, HistoryChain, LocationContext, Passport, PassportV,
    TheoryContext, TheoryContextV,
};
use super::type_kind::{TypeKind, TypeKindV};
use crate::text::{dec_text, u128_text, u8_text};

verus! {

impl Passport {
    /// A small natural number written as a literal.
    pub fn literal_nat(theory: &str) -> (r: Self)
        ensures
            r@ == literal_nat_model(theory@),
    {
        Passport {
            ty: TypeKind::Nat,
            construction: ConstructionMode::Literal,
            capabilities: CapabilitySet::empty().with(Capability::CanAddAsNat).with(Capability::CanPrintDecimal).with(Capability::CanSymbolicPrint).with(Capability::CanSerializeForMigration).with(Capability::CanCompilePortableCode).with(Capability::CanCompileGpuKernel).with(Capability::CanCompareDirect).with(Capability::CanComputeModular),
            cost: CostClass::Trivial,
            trust: TrustLevel::Checked,
            provenance: Provenance::InternalLiteral,
            validation: ValidationState::StaticChecked,
            theory: TheoryContext::new(theory),
            history: HistoryChain::from_event("created:literal_nat"),
            location: LocationContext::local(),
        }
    }

    /// A natural number kept in compressed form.
    pub fn compressed_nat(theory: &str) -> (r: Self)
        ensures
            r@ == compressed_nat_model(theory@),
    {
        Passport {
            ty: TypeKind::Nat,
            construction: ConstructionMode::Compressed,
            capabilities: CapabilitySet::empty().with(Capability::CanAddAsNat).with(Capability::CanSymbolicPrint).with(Capability::CanSerializeForMigration).with(Capability::CanCompilePortableCode).with(Capability::CanCompileGpuKernel).with(Capability::CanCompareByProof).with(Capability::CanComputeModular),
            cost: CostClass::Compressed,
            trust: TrustLevel::Checked,
            provenance: Provenance::InternalDerived,
            validation: ValidationState::StaticChecked,
            theory: TheoryContext::new(theory),
            history: HistoryChain::from_event("created:compressed_nat"),
            location: LocationContext::local(),
        }
    }

    /// A small number read off a big number (such as its growth parameter).
    pub fn big_number_resource_nat(theory: &str, source: &Passport, event: &str) -> (r: Self)
        ensures
            r@ == big_number_resource_nat_model(theory@, source@, event@),
    {
        let mut ev = String::new();
        ev.append(event);
        Passport {
            ty: TypeKind::Nat,
            construction: ConstructionMode::Definable,
            capabilities: CapabilitySet::empty().with(Capability::CanAddAsNat).with(Capability::CanPrintDecimal).with(Capability::CanSymbolicPrint).with(Capability::CanCompareDirect).with(Capability::CanComputeModular).with(Capability::CanSerializeForMigration).with(Capability::CanCompilePortableCode).with(Capability::CanCompileGpuKernel),
            cost: CostClass::SmallFinite,
            trust: source.trust.higher(TrustLevel::Builtin),
            provenance: source.provenance.higher(Provenance::BuiltinKnown),
            validation: source.validation,
            theory: TheoryContext::new(theory),
            history: HistoryChain::from_source(&source.history, ev.as_str()),
            location: LocationContext::local(),
        }
    }

    /// The cardinal infinity.
    pub fn cardinal_infinity(theory: &str) -> (r: Self)
        ensures
            r@ == cardinal_infinity_model(theory@),
    {
        Passport {
            ty: TypeKind::Infinity { mode: InfinityMode::Cardinal },
            construction: ConstructionMode::Definable,
            capabilities: CapabilitySet::empty().with(Capability::CanSymbolicPrint).with(Capability::CanSerializeForMigration).with(Capability::CanCompareByProof).with(Capability::CanCardinalArithmetic),
            cost: CostClass::ProofRequired,
            trust: TrustLevel::Builtin,
            provenance: Provenance::BuiltinKnown,
            validation: ValidationState::StaticChecked,
            theory: TheoryContext::new(theory),
            history: HistoryChain::from_event("created:infinity_cardinal"),
            location: LocationContext::local(),
        }
    }

    /// The ordinal infinity.
    pub fn ordinal_infinity(theory: &str) -> (r: Self)
        ensures
            r@ == ordinal_infinity_model(theory@),
    {
        Passport {
            ty: TypeKind::Infinity { mode: InfinityMode::Ordinal },
            construction: ConstructionMode::Definable,
            capabilities: CapabilitySet::empty().with(Capability::CanSymbolicPrint).with(Capability::CanSerializeForMigration).with(Capability::CanCompareByProof).with(Capability::CanOrdinalArithmetic),
            cost: CostClass::ProofRequired,
            trust: TrustLevel::Builtin,
            provenance: Provenance::BuiltinKnown,
            validation: ValidationState::StaticChecked,
            theory: TheoryContext::new(theory),
            history: HistoryChain::from_event("created:infinity_ordinal"),
            location: LocationContext::local(),
        }
    }

    /// The limit infinity.
    pub fn limit_infinity(theory: &str) -> (r: Self)
        ensures
            r@ == limit_infinity_model(theory@),
    {
        Passport {
            ty: TypeKind::Infinity { mode: InfinityMode::Limit },
            construction: ConstructionMode::Definable,
            capabilities: CapabilitySet::empty().with(Capability::CanSymbolicPrint).with(Capability::CanSerializeForMigration).with(Capability::CanCompareByProof).with(Capability::CanLimitReason),
            cost: CostClass::ProofRequired,
            trust: TrustLevel::Builtin,
            provenance: Provenance::BuiltinKnown,
            validation: ValidationState::StaticChecked,
            theory: TheoryContext::new(theory),
            history: HistoryChain::from_event("created:infinity_limit"),
            location: LocationContext::local(),
        }
    }

    /// The potential infinity.
    pub fn potential_infinity(theory: &str) -> (r: Self)
        ensures
            r@ == potential_infinity_model(theory@),
    {
        Passport {
            ty: TypeKind::Infinity { mode: InfinityMode::Potential },
            construction: ConstructionMode::Definable,
            capabilities: CapabilitySet::empty().with(Capability::CanSymbolicPrint).with(Capability::CanSerializeForMigration).with(Capability::CanCompareByProof).with(Capability::CanLimitReason),
            cost: CostClass::ProofRequired,
            trust: TrustLevel::Builtin,
            provenance: Provenance::BuiltinKnown,
            validation: ValidationState::StaticChecked,
            theory: TheoryContext::new(theory),
            history: HistoryChain::from_event("created:infinity_potential"),
            location: LocationContext::local(),
        }
    }

    /// The class infinity, derived from `source`.
    pub fn class_infinity(theory: &str, source: &Passport) -> (r: Self)
        ensures
            r@ == class_infinity_model(theory@, source@),
    {
        Passport {
            ty: TypeKind::Infinity { mode: InfinityMode::Class },
            construction: ConstructionMode::Definable,
            capabilities: CapabilitySet::empty().with(Capability::CanSymbolicPrint).with(Capability::CanSerializeForMigration).with(Capability::CanCompareByProof).with(Capability::CanClassReason),
            cost: CostClass::ProofRequired,
            trust: source.trust.higher(TrustLevel::Builtin),
            provenance: source.provenance.higher(Provenance::BuiltinKnown),
            validation: source.validation,
            theory: TheoryContext::new(theory),
            history: HistoryChain::from_source(&source.history, "created:infinity_class"),
            location: LocationContext::local(),
        }
    }

    /// The universe infinity, derived from `source`.
    pub fn universe_infinity(theory: &str, source: &Passport) -> (r: Self)
        ensures
            r@ == universe_infinity_model(theory@, source@),
    {
        Passport {
            ty: TypeKind::Infinity { mode: InfinityMode::Universe },
            construction: ConstructionMode::Definable,
            capabilities: CapabilitySet::empty().with(Capability::CanSymbolicPrint).with(Capability::CanSerializeForMigration).with(Capability::CanCompareByProof).with(Capability::CanUniverseLevel),
            cost: CostClass::ProofRequired,
            trust: source.trust.higher(TrustLevel::Builtin),
            provenance: source.provenance.higher(Provenance::BuiltinKnown),
            validation: source.validation,
            theory: TheoryContext::new(theory),
            history: HistoryChain::from_source(&source.history, "created:infinity_universe"),
            location: LocationContext::local(),
        }
    }

    /// The universe `U level`.
    pub fn universe(theory: &str, level: u8) -> (r: Self)
        ensures
            r@ == universe_model(theory@, level),
    {
        let mut ev = String::from_str("universe:U");
        ev.append(u8_text(level).as_str());
        Passport {
            ty: TypeKind::Universe { level },
            construction: ConstructionMode::Definable,
            capabilities: CapabilitySet::empty().with(Capability::CanSymbolicPrint).with(Capability::CanCompareByProof).with(Capability::CanUniverseLevel).with(Capability::CanFormSet).with(Capability::CanFormClass).with(Capability::CanLiftUniverse),
            cost: CostClass::ProofRequired,
            trust: TrustLevel::Builtin,
            provenance: Provenance::BuiltinKnown,
            validation: ValidationState::StaticChecked,
            theory: TheoryContext::new(theory),
            history: HistoryChain::from_event(ev.as_str()),
            location: LocationContext::local(),
        }
    }

    /// The level of a set or class, as a number.
    pub fn universe_level_nat(theory: &str, source: &Passport, event: &str) -> (r: Self)
        ensures
            r@ == universe_level_nat_model(theory@, source@, event@),
    {
        let mut ev = String::new();
        ev.append(event);
        Passport {
            ty: TypeKind::Nat,
            construction: ConstructionMode::Definable,
            capabilities: CapabilitySet::empty().with(Capability::CanAddAsNat).with(Capability::CanPrintDecimal).with(Capability::CanSymbolicPrint).with(Capability::CanCompareDirect).with(Capability::CanComputeModular).with(Capability::CanSerializeForMigration).with(Capability::CanCompilePortableCode).with(Capability::CanCompileGpuKernel),
            cost: CostClass::SmallFinite,
            trust: source.trust.higher(TrustLevel::Builtin),
            provenance: source.provenance.higher(Provenance::BuiltinKnown),
            validation: source.validation,
            theory: TheoryContext::new(theory),
            history: HistoryChain::from_source(&source.history, ev.as_str()),
            location: LocationContext::local(),
        }
    }

    /// A formal language that definitions are relative to.
    pub fn language(theory: &str, name: &str) -> (r: Self)
        ensures
            r@ == language_model(theory@, name@),
    {
        let mut ev = String::from_str("definability:language:");
        ev.append(name);
        Passport {
            ty: TypeKind::Language { name: String::from_str(name) },
            construction: ConstructionMode::Definable,
            capabilities: CapabilitySet::empty().with(Capability::CanSymbolicPrint).with(Capability::CanDefineInLanguage),
            cost: CostClass::ProofRequired,
            trust: TrustLevel::Builtin,
            provenance: Provenance::BuiltinKnown,
            validation: ValidationState::StaticChecked,
            theory: TheoryContext::new(theory),
            history: HistoryChain::from_event(ev.as_str()),
            location: LocationContext::local(),
        }
    }

    /// An encoding of syntax as numbers.
    pub fn encoding(theory: &str, name: &str) -> (r: Self)
        ensures
            r@ == encoding_model(theory@, name@),
    {
        let mut ev = String::from_str("definability:encoding:");
        ev.append(name);
        Passport {
            ty: TypeKind::Encoding { name: String::from_str(name) },
            construction: ConstructionMode::Definable,
            capabilities: CapabilitySet::empty().with(Capability::CanSymbolicPrint).with(Capability::CanUseEncoding),
            cost: CostClass::ProofRequired,
            trust: TrustLevel::Builtin,
            provenance: Provenance::BuiltinKnown,
            validation: ValidationState::StaticChecked,
            theory: TheoryContext::new(theory),
            history: HistoryChain::from_event(ev.as_str()),
            location: LocationContext::local(),
        }
    }

    /// A number read off a definable number (its bound or meta level).
    pub fn definability_resource_nat(theory: &str, source: &Passport, event: &str) -> (r: Self)
        ensures
            r@ == definability_resource_nat_model(theory@, source@, event@),
    {
        let mut ev = String::new();
        ev.append(event);
        Passport {
            ty: TypeKind::Nat,
            construction: ConstructionMode::Definable,
            capabilities: CapabilitySet::empty().with(Capability::CanAddAsNat).with(Capability::CanPrintDecimal).with(Capability::CanSymbolicPrint).with(Capability::CanCompareDirect).with(Capability::CanComputeModular).with(Capability::CanSerializeForMigration).with(Capability::CanCompilePortableCode).with(Capability::CanCompileGpuKernel),
            cost: CostClass::SmallFinite,
            trust: source.trust.higher(TrustLevel::Builtin),
            provenance: source.provenance.higher(Provenance::BuiltinKnown),
            validation: source.validation,
            theory: TheoryContext::new(theory),
            history: HistoryChain::from_source(&source.history, ev.as_str()),
            location: LocationContext::local(),
        }
    }

    /// A boolean assumed by axiom.
    pub fn axiom_bool(theory: &str) -> (r: Self)
        ensures
            r@ == axiom_bool_model(theory@),
    {
        Passport {
            ty: TypeKind::Bool,
            construction: ConstructionMode::ProofFinite,
            capabilities: CapabilitySet::empty().with(Capability::CanSymbolicPrint),
            cost: CostClass::ProofRequired,
            trust: TrustLevel::Axiom,
            provenance: Provenance::BuiltinKnown,
            validation: ValidationState::StaticChecked,
            theory: TheoryContext::new(theory),
            history: HistoryChain::from_event("axiom:bool"),
            location: LocationContext::local(),
        }
    }

    /// A natural number assumed by axiom.
    pub fn axiom_nat(theory: &str) -> (r: Self)
        ensures
            r@ == axiom_nat_model(theory@),
    {
        Passport {
            ty: TypeKind::Nat,
            construction: ConstructionMode::Definable,
            capabilities: CapabilitySet::empty().with(Capability::CanAddAsNat).with(Capability::CanSymbolicPrint).with(Capability::CanSerializeForMigration).with(Capability::CanCompareByProof),
            cost: CostClass::ProofRequired,
            trust: TrustLevel::Axiom,
            provenance: Provenance::BuiltinKnown,
            validation: ValidationState::StaticChecked,
            theory: TheoryContext::new(theory),
            history: HistoryChain::from_event("axiom:nat"),
            location: LocationContext::local(),
        }
    }

    /// A natural number assumed without any check.
    pub fn unsafe_nat(theory: &str) -> (r: Self)
        ensures
            r@ == unsafe_nat_model(theory@),
    {
        Passport {
            ty: TypeKind::Nat,
            construction: ConstructionMode::Unsafe,
            capabilities: CapabilitySet::empty().with(Capability::CanAddAsNat).with(Capability::CanPrintDecimal).with(Capability::CanSymbolicPrint).with(Capability::CanSerializeForMigration).with(Capability::CanCompareDirect).with(Capability::CanComputeModular),
            cost: CostClass::UnsafeUnknown,
            trust: TrustLevel::Unsafe,
            provenance: Provenance::UnsafeExternal,
            validation: ValidationState::Assumed,
            theory: TheoryContext::new(theory),
            history: HistoryChain::from_event("unsafe:assumed_nat"),
            location: LocationContext::local(),
        }
    }

    /// A natural number read at run time.
    pub fn runtime_nat_from_input(theory: &str) -> (r: Self)
        ensures
            r@ == runtime_nat_from_input_model(theory@),
    {
        Passport {
            ty: TypeKind::Nat,
            construction: ConstructionMode::External,
            capabilities: CapabilitySet::empty().with(Capability::CanAddAsNat).with(Capability::CanPrintDecimal).with(Capability::CanSymbolicPrint).with(Capability::CanSerializeForMigration).with(Capability::CanCompareDirect).with(Capability::CanRuntimeCompare).with(Capability::CanComputeModular),
            cost: CostClass::SmallFinite,
            trust: TrustLevel::Checked,
            provenance: Provenance::RuntimeInput,
            validation: ValidationState::Parsed,
            theory: TheoryContext::new(theory),
            history: HistoryChain::from_event("runtime_input:read_nat"),
            location: LocationContext::local(),
        }
    }

    /// Evidence that `predicate` held when checked at run time.
    pub fn runtime_witness(theory: &str, predicate: &str, source: &Passport) -> (r: Self)
        ensures
            r@ == runtime_witness_model(theory@, predicate@, source@),
    {
        Passport {
            ty: TypeKind::RuntimeWitness(String::from_str(predicate)),
            construction: ConstructionMode::External,
            capabilities: CapabilitySet::empty().with(Capability::CanSymbolicPrint),
            cost: source.cost,
            trust: source.trust,
            provenance: source.provenance,
            validation: ValidationState::RuntimeChecked,
            theory: TheoryContext::new(theory),
            history: HistoryChain::from_source(&source.history, "runtime_witness:require"),
            location: LocationContext::local(),
        }
    }

    /// A static proof of `predicate`.
    pub fn static_proof(theory: &str, predicate: &str, source: &Passport) -> (r: Self)
        ensures
            r@ == static_proof_model(theory@, predicate@, source@),
    {
        Passport {
            ty: TypeKind::StaticProof(String::from_str(predicate)),
            construction: ConstructionMode::ProofFinite,
            capabilities: CapabilitySet::empty().with(Capability::CanSymbolicPrint),
            cost: CostClass::ProofRequired,
            trust: source.trust,
            provenance: source.provenance,
            validation: ValidationState::StaticChecked,
            theory: TheoryContext::new(theory),
            history: HistoryChain::from_source(&source.history, "static_proof:prove"),
            location: LocationContext::local(),
        }
    }

    /// The claim that `proposition` is provable in `object_theory`.
    pub fn provable_claim(theory: &str, object_theory: &str, proposition: &str, source: &Passport) -> (r: Self)
        ensures
            r@ == provable_claim_model(theory@, object_theory@, proposition@, source@),
    {
        let mut ev = String::from_str("provability:of:");
        ev.append(object_theory);
        ev.append(":");
        ev.append(proposition);
        Passport {
            ty: TypeKind::Provable { object_theory: String::from_str(object_theory), proposition: String::from_str(proposition) },
            construction: ConstructionMode::ProofFinite,
            capabilities: CapabilitySet::empty().with(Capability::CanSymbolicPrint).with(Capability::CanProvabilityReason).with(Capability::CanExtractProvabilityTheory),
            cost: CostClass::ProofRequired,
            trust: source.trust.higher(TrustLevel::Builtin),
            provenance: source.provenance.higher(Provenance::BuiltinKnown),
            validation: ValidationState::StaticChecked,
            theory: TheoryContext::new(theory),
            history: HistoryChain::from_source(&source.history, ev.as_str()),
            location: LocationContext::local(),
        }
    }

    /// A number read off a provability claim.
    pub fn provability_resource_nat(theory: &str, source: &Passport, event: &str) -> (r: Self)
        ensures
            r@ == provability_resource_nat_model(theory@, source@, event@),
    {
        let mut ev = String::new();
        ev.append(event);
        Passport {
            ty: TypeKind::Nat,
            construction: ConstructionMode::Definable,
            capabilities: CapabilitySet::empty().with(Capability::CanAddAsNat).with(Capability::CanPrintDecimal).with(Capability::CanSymbolicPrint).with(Capability::CanCompareDirect).with(Capability::CanComputeModular).with(Capability::CanSerializeForMigration).with(Capability::CanCompilePortableCode).with(Capability::CanCompileGpuKernel),
            cost: CostClass::SmallFinite,
            trust: source.trust.higher(TrustLevel::Builtin),
            provenance: source.provenance.higher(Provenance::BuiltinKnown),
            validation: source.validation,
            theory: TheoryContext::new(theory),
            history: HistoryChain::from_source(&source.history, ev.as_str()),
            location: LocationContext::local(),
        }
    }

    /// A static proof of `predicate` obtained by checking a proof term.
    pub fn kernel_checked_proof(theory: &str, predicate: &str, source: &Passport) -> (r: Self)
        ensures
            r@ == kernel_checked_proof_model(theory@, predicate@, source@),
    {
        Passport {
            ty: TypeKind::StaticProof(String::from_str(predicate)),
            construction: ConstructionMode::ProofFinite,
            capabilities: CapabilitySet::empty().with(Capability::CanSymbolicPrint),
            cost: CostClass::ProofRequired,
            trust: source.trust,
            provenance: source.provenance,
            validation: ValidationState::StaticChecked,
            theory: TheoryContext::new(theory),
            history: HistoryChain::from_source(&source.history, "proof_kernel:check"),
            location: LocationContext::local(),
        }
    }

    /// Truth of `predicate` from its provability, by axiom: at least Axiom
    /// trust, and never below the source's.
    pub fn axiom_truth_from_provable(theory: &str, predicate: &str, source: &Passport) -> (r: Self)
        ensures
            r@ == axiom_truth_from_provable_model(theory@, predicate@, source@),
    {
        let mut tk = String::from_str("truth_from_provable:");
        tk.append(predicate);
        Passport {
            ty: TypeKind::StaticProof(tk),
            construction: ConstructionMode::ProofFinite,
            capabilities: CapabilitySet::empty().with(Capability::CanSymbolicPrint),
            cost: CostClass::ProofRequired,
            trust: source.trust.higher(TrustLevel::Axiom),
            provenance: source.provenance.higher(Provenance::BuiltinKnown),
            validation: ValidationState::StaticChecked,
            theory: TheoryContext::new(theory),
            history: HistoryChain::from_source(&source.history, "truth:from_provable_axiom"),
            location: LocationContext::local(),
        }
    }

    /// The reflection claim "provable in `object_theory` implies true" for `proposition`.
    pub fn reflection_claim(theory: &str, object_theory: &str, proposition: &str, source: &Passport) -> (r: Self)
        ensures
            r@ == reflection_claim_model(theory@, object_theory@, proposition@, source@),
    {
        let mut ev = String::from_str("reflection:claim:");
        ev.append(object_theory);
        ev.append(":");
        ev.append(proposition);
        Passport {
            ty: TypeKind::ReflectionClaim { object_theory: String::from_str(object_theory), proposition: String::from_str(proposition) },
            construction: ConstructionMode::ProofFinite,
            capabilities: CapabilitySet::empty().with(Capability::CanSymbolicPrint).with(Capability::CanProvabilityReason).with(Capability::CanTruthBoundaryReason),
            cost: CostClass::ProofRequired,
            trust: source.trust.higher(TrustLevel::Builtin),
            provenance: source.provenance.higher(Provenance::BuiltinKnown),
            validation: ValidationState::StaticChecked,
            theory: TheoryContext::new(theory),
            history: HistoryChain::from_source(&source.history, ev.as_str()),
            location: LocationContext::local(),
        }
    }

    /// A reflection principle assumed by axiom: at least Axiom trust, and
    /// never below the source's.
    pub fn axiom_reflection_proof(theory: &str, object_theory: &str, proposition: &str, source: &Passport) -> (r: Self)
        ensures
            r@ == axiom_reflection_proof_model(theory@, object_theory@, proposition@, source@),
    {
        let mut tk = String::from_str("reflection_axiom:");
        tk.append(object_theory);
        tk.append(":");
        tk.append(proposition);
        let mut ev = String::from_str("reflection:axiom:");
        ev.append(object_theory);
        ev.append(":");
        ev.append(proposition);
        Passport {
            ty: TypeKind::StaticProof(tk),
            construction: ConstructionMode::ProofFinite,
            capabilities: CapabilitySet::empty().with(Capability::CanSymbolicPrint),
            cost: CostClass::ProofRequired,
            trust: source.trust.higher(TrustLevel::Axiom),
            provenance: source.provenance.higher(Provenance::BuiltinKnown),
            validation: ValidationState::StaticChecked,
            theory: TheoryContext::new(theory),
            history: HistoryChain::from_source(&source.history, ev.as_str()),
            location: LocationContext::local(),
        }
    }

    /// A self-referential truth assumed by axiom: at least Axiom trust, and
    /// never below the source's.
    pub fn axiom_self_reference_proof(theory: &str, proposition: &str, source: &Passport) -> (r: Self)
        ensures
            r@ == axiom_self_reference_proof_model(theory@, proposition@, source@),
    {
        let mut tk = String::from_str("self_reference_axiom:");
        tk.append(proposition);
        let mut ev = String::from_str("self_reference:axiom:");
        ev.append(proposition);
        Passport {
            ty: TypeKind::StaticProof(tk),
            construction: ConstructionMode::ProofFinite,
            capabilities: CapabilitySet::empty().with(Capability::CanSymbolicPrint),
            cost: CostClass::ProofRequired,
            trust: source.trust.higher(TrustLevel::Axiom),
            provenance: source.provenance.higher(Provenance::BuiltinKnown),
            validation: ValidationState::StaticChecked,
            theory: TheoryContext::new(theory),
            history: HistoryChain::from_source(&source.history, ev.as_str()),
            location: LocationContext::local(),
        }
    }

    /// Consistency of `target_theory` assumed by axiom: at least Axiom trust,
    /// and never below the source's.
    pub fn axiom_consistency_proof(theory: &str, target_theory: &str, source: &Passport) -> (r: Self)
        ensures
            r@ == axiom_consistency_proof_model(theory@, target_theory@, source@),
    {
        let mut tk = String::from_str("consistency_axiom:");
        tk.append(target_theory);
        let mut ev = String::from_str("consistency:axiom:");
        ev.append(target_theory);
        Passport {
            ty: TypeKind::StaticProof(tk),
            construction: ConstructionMode::ProofFinite,
            capabilities: CapabilitySet::empty().with(Capability::CanSymbolicPrint),
            cost: CostClass::ProofRequired,
            trust: source.trust.higher(TrustLevel::Axiom),
            provenance: source.provenance.higher(Provenance::BuiltinKnown),
            validation: ValidationState::StaticChecked,
            theory: TheoryContext::new(theory),
            history: HistoryChain::from_source(&source.history, ev.as_str()),
            location: LocationContext::local(),
        }
    }

    /// Unvalidated bytes read at run time.
    pub fn raw_external_bytes(theory: &str) -> (r: Self)
        ensures
            r@ == raw_external_bytes_model(theory@),
    {
        Passport {
            ty: TypeKind::Bytes,
            construction: ConstructionMode::External,
            capabilities: CapabilitySet::empty().with(Capability::CanParse),
            cost: CostClass::SmallFinite,
            trust: TrustLevel::Checked,
            provenance: Provenance::RuntimeInput,
            validation: ValidationState::Raw,
            theory: TheoryContext::new(theory),
            history: HistoryChain::from_event("runtime_input:raw_bytes"),
            location: LocationContext::local(),
        }
    }

    /// A resource amount (cores, memory) of a cluster, as a number.
    pub fn cluster_resource_nat(theory: &str, source: &Passport, event: &str) -> (r: Self)
        ensures
            r@ == cluster_resource_nat_model(theory@, source@, event@),
    {
        let mut ev = String::new();
        ev.append(event);
        Passport {
            ty: TypeKind::Nat,
            construction: ConstructionMode::Definable,
            capabilities: CapabilitySet::empty().with(Capability::CanAddAsNat).with(Capability::CanPrintDecimal).with(Capability::CanSymbolicPrint).with(Capability::CanCompareDirect).with(Capability::CanComputeModular),
            cost: CostClass::SmallFinite,
            trust: source.trust,
            provenance: source.provenance,
            validation: source.validation,
            theory: TheoryContext::new(theory),
            history: HistoryChain::from_source(&source.history, ev.as_str()),
            location: LocationContext::local(),
        }
    }

    /// A region of `memory_mib` MiB allocated from a cluster pool.
    pub fn distributed_memory_region(theory: &str, pool: &Passport, memory_mib: u128) -> (r: Self)
        ensures
            r@ == distributed_memory_region_model(theory@, pool@, memory_mib),
    {
        let mut ev = String::from_str("memory:distributed_region:");
        ev.append(u128_text(memory_mib).as_str());
        ev.append("MiB");
        Passport {
            ty: TypeKind::DistributedMemory { memory_mib: Some(memory_mib) },
            construction: ConstructionMode::Definable,
            capabilities: CapabilitySet::empty().with(Capability::CanSymbolicPrint).with(Capability::CanUseDistributedMemory).with(Capability::CanCheckpointMemory),
            cost: pool.cost.higher(CostClass::SmallFinite),
            trust: pool.trust,
            provenance: pool.provenance,
            validation: pool.validation,
            theory: TheoryContext::new(theory),
            history: HistoryChain::from_source(&pool.history, ev.as_str()),
            location: LocationContext::local(),
        }
    }

    /// The size of a memory region, as a number.
    pub fn memory_region_resource_nat(theory: &str, source: &Passport, event: &str) -> (r: Self)
        ensures
            r@ == memory_region_resource_nat_model(theory@, source@, event@),
    {
        let mut ev = String::new();
        ev.append(event);
        Passport {
            ty: TypeKind::Nat,
            construction: ConstructionMode::Definable,
            capabilities: CapabilitySet::empty().with(Capability::CanAddAsNat).with(Capability::CanPrintDecimal).with(Capability::CanSymbolicPrint).with(Capability::CanCompareDirect).with(Capability::CanComputeModular),
            cost: CostClass::SmallFinite,
            trust: source.trust,
            provenance: source.provenance,
            validation: source.validation,
            theory: TheoryContext::new(theory),
            history: HistoryChain::from_source(&source.history, ev.as_str()),
            location: LocationContext::local(),
        }
    }

    /// A region of `memory_mib` MiB of GPU memory allocated from a GPU pool.
    pub fn distributed_gpu_memory_region(theory: &str, pool: &Passport, memory_mib: u128) -> (r: Self)
        ensures
            r@ == distributed_gpu_memory_region_model(theory@, pool@, memory_mib),
    {
        let mut ev = String::from_str("gpu_memory:distributed_region:");
        ev.append(u128_text(memory_mib).as_str());
        ev.append("MiB");
        Passport {
            ty: TypeKind::DistributedGpuMemory { memory_mib: Some(memory_mib) },
            construction: ConstructionMode::Definable,
            capabilities: CapabilitySet::empty().with(Capability::CanSymbolicPrint).with(Capability::CanUseGpuMemory).with(Capability::CanCheckpointGpuMemory).with(Capability::CanLaunchGpuKernel).with(Capability::CanCopyCpuToGpu).with(Capability::CanCopyGpuToCpu).with(Capability::CanGpuPeerTransfer),
            cost: CostClass::SmallFinite,
            trust: pool.trust,
            provenance: pool.provenance,
            validation: pool.validation,
            theory: TheoryContext::new(theory),
            history: HistoryChain::from_source(&pool.history, ev.as_str()),
            location: LocationContext::local(),
        }
    }

    /// The size of a GPU memory region, as a number.
    pub fn gpu_memory_resource_nat(theory: &str, source: &Passport, event: &str) -> (r: Self)
        ensures
            r@ == gpu_memory_resource_nat_model(theory@, source@, event@),
    {
        let mut ev = String::new();
        ev.append(event);
        Passport {
            ty: TypeKind::Nat,
            construction: ConstructionMode::Definable,
            capabilities: CapabilitySet::empty().with(Capability::CanAddAsNat).with(Capability::CanPrintDecimal).with(Capability::CanSymbolicPrint).with(Capability::CanCompareDirect).with(Capability::CanComputeModular),
            cost: CostClass::SmallFinite,
            trust: source.trust,
            provenance: source.provenance,
            validation: source.validation,
            theory: TheoryContext::new(theory),
            history: HistoryChain::from_source(&source.history, ev.as_str()),
            location: LocationContext::local(),
        }
    }

    /// A GPU kernel computing `source`; the inner construction is kept.
    pub fn gpu_kernel(theory: &str, source: &Passport) -> (r: Self)
        ensures
            r@ == gpu_kernel_model(theory@, source@),
    {
        Passport {
            ty: TypeKind::GpuKernel { inner: Box::new(source.ty.duplicate()) },
            construction: source.construction,
            capabilities: CapabilitySet::empty().with(Capability::CanSymbolicPrint).with(Capability::CanLaunchGpuKernel).with(Capability::CanCrossArchPortable),
            cost: source.cost.higher(CostClass::SmallFinite),
            trust: source.trust,
            provenance: source.provenance,
            validation: source.validation,
            theory: TheoryContext::new(theory),
            history: HistoryChain::from_source(&source.history, "gpu_kernel:compile"),
            location: LocationContext::local(),
        }
    }

    /// `source` copied into a GPU memory region; the inner construction is kept.
    pub fn gpu_value(theory: &str, source: &Passport, region: &Passport) -> (r: Self)
        ensures
            r@ == gpu_value_model(theory@, source@, region@),
    {
        Passport {
            ty: TypeKind::GpuValue { inner: Box::new(source.ty.duplicate()) },
            construction: source.construction,
            capabilities: CapabilitySet::empty().with(Capability::CanSymbolicPrint).with(Capability::CanCopyGpuToCpu).with(Capability::CanGpuPeerTransfer),
            cost: source.cost.higher(region.cost).higher(CostClass::SmallFinite),
            trust: source.trust.higher(region.trust),
            provenance: source.provenance.higher(region.provenance),
            validation: source.validation.higher(region.validation),
            theory: TheoryContext::new(theory),
            history: HistoryChain::merge2(&source.history, &region.history, "copy:cpu_to_gpu"),
            location: LocationContext::local(),
        }
    }

    /// `source` compiled to architecture-independent code.
    pub fn portable_code(theory: &str, source: &Passport) -> (r: Self)
        ensures
            r@ == portable_code_model(theory@, source@),
    {
        Passport {
            ty: TypeKind::PortableCode { inner: Box::new(source.ty.duplicate()) },
            construction: source.construction.higher(ConstructionMode::Definable),
            capabilities: CapabilitySet::empty().with(Capability::CanSymbolicPrint).with(Capability::CanDeployPortableCode).with(Capability::CanCrossArchPortable),
            cost: source.cost.higher(CostClass::SmallFinite),
            trust: source.trust,
            provenance: source.provenance,
            validation: source.validation,
            theory: TheoryContext::new(theory),
            history: HistoryChain::from_source(&source.history, "portable:compile"),
            location: LocationContext::local(),
        }
    }

    /// The successor of an infinite value: same type, capabilities and taint.
    pub fn infinity_succ_result(source: &Passport, theory: &str) -> (r: Self)
        ensures
            r@ == infinity_succ_result_model(source@, theory@),
    {
        Passport {
            ty: source.ty.duplicate(),
            construction: source.construction,
            capabilities: source.capabilities,
            cost: source.cost,
            trust: source.trust,
            provenance: source.provenance,
            validation: source.validation,
            theory: TheoryContext::new(theory),
            history: HistoryChain::from_source(&source.history, "derived:infinity_succ"),
            location: LocationContext::local(),
        }
    }

    /// The sum of two natural numbers: the join of both taints, the common capabilities.
    pub fn add_result(lhs: &Passport, rhs: &Passport, theory: &str) -> (r: Self)
        ensures
            r@ == add_result_model(lhs@, rhs@, theory@),
    {
        Passport {
            ty: TypeKind::Nat,
            construction: lhs.construction.higher(rhs.construction),
            capabilities: lhs.capabilities.intersection(&rhs.capabilities),
            cost: lhs.cost.higher(rhs.cost),
            trust: lhs.trust.higher(rhs.trust),
            provenance: lhs.provenance.higher(rhs.provenance),
            validation: lhs.validation.higher(rhs.validation),
            theory: TheoryContext::new(theory),
            history: HistoryChain::merge2(&lhs.history, &rhs.history, "derived:add"),
            location: LocationContext::local(),
        }
    }

    /// The result of an infinite binary operation: the left type, the join of both taints, the common capabilities.
    pub fn infinity_binary_result(lhs: &Passport, rhs: &Passport, theory: &str, event: &str) -> (r: Self)
        ensures
            r@ == infinity_binary_result_model(lhs@, rhs@, theory@, event@),
    {
        let mut ev = String::new();
        ev.append(event);
        Passport {
            ty: lhs.ty.duplicate(),
            construction: lhs.construction.higher(rhs.construction),
            capabilities: lhs.capabilities.intersection(&rhs.capabilities),
            cost: lhs.cost.higher(rhs.cost),
            trust: lhs.trust.higher(rhs.trust),
            provenance: lhs.provenance.higher(rhs.provenance),
            validation: lhs.validation.higher(rhs.validation),
            theory: TheoryContext::new(theory),
            history: HistoryChain::merge2(&lhs.history, &rhs.history, ev.as_str()),
            location: LocationContext::local(),
        }
    }
    /// A big natural number of a named growth family.
    pub fn big_nat(
        theory: &str,
        family: &str,
        parameter: Option<u128>,
        construction: ConstructionMode,
        cost: CostClass,
        event: &str,
    ) -> (r: Self)
        ensures
            r@ == big_nat_model(theory@, family@, parameter, construction, cost, event@),
    {
        Passport {
            ty: TypeKind::BigNat { family: String::from_str(family), parameter },
            construction,
            capabilities: CapabilitySet::empty().with(Capability::CanAddAsNat).with(
                Capability::CanSymbolicPrint,
            ).with(Capability::CanSerializeForMigration).with(Capability::CanCompilePortableCode).with(
                Capability::CanCompareByProof,
            ).with(Capability::CanBigNumberReason).with(Capability::CanExtractGrowthClass),
            cost,
            trust: TrustLevel::Builtin,
            provenance: Provenance::BuiltinKnown,
            validation: ValidationState::StaticChecked,
            theory: TheoryContext::new(theory),
            history: HistoryChain::from_event(event),
            location: LocationContext::local(),
        }
    }

    /// Graham's number (same as `graham_nat`).
    pub fn recursive_nat(theory: &str) -> (r: Self)
        ensures
            r@ == big_nat_model(theory@, "Graham"@, None, ConstructionMode::Recursive, CostClass::NonExpandable, "big_number:Graham"@),
    {
        Self::big_nat(theory, "Graham", None, ConstructionMode::Recursive, CostClass::NonExpandable, "big_number:Graham")
    }

    /// Graham's number: recursive, not expandable.
    pub fn graham_nat(theory: &str) -> (r: Self)
        ensures
            r@ == big_nat_model(theory@, "Graham"@, None, ConstructionMode::Recursive, CostClass::NonExpandable, "big_number:Graham"@),
    {
        Self::big_nat(theory, "Graham", None, ConstructionMode::Recursive, CostClass::NonExpandable, "big_number:Graham")
    }

    /// `TREE(parameter)`: finite by proof only.
    pub fn tree_nat(theory: &str, parameter: u128) -> (r: Self)
        ensures
            r@ == big_nat_model(theory@, "TREE"@, Some(parameter), ConstructionMode::ProofFinite, CostClass::ProofRequired, "big_number:TREE:"@ + dec_text(parameter as nat)),
    {
        let mut ev = String::from_str("big_number:TREE:");
        ev.append(u128_text(parameter).as_str());
        Self::big_nat(theory, "TREE", Some(parameter), ConstructionMode::ProofFinite, CostClass::ProofRequired, ev.as_str())
    }

    /// The busy-beaver number `BB(parameter)`: definable but not computable.
    pub fn busy_beaver_nat(theory: &str, parameter: Option<u128>) -> (r: Self)
        ensures
            r@ == big_nat_model(
                theory@,
                "BB"@,
                parameter,
                ConstructionMode::Definable,
                CostClass::Uncomputable,
                match parameter {
                    Some(p) => "big_number:BB:"@ + dec_text(p as nat) + ":definable_noncomputable"@,
                    None => "big_number:BB:definable_noncomputable"@,
                },
            ),
    {
        let ev = match parameter {
            Some(p) => {
                let mut ev = String::from_str("big_number:BB:");
                ev.append(u128_text(p).as_str());
                ev.append(":definable_noncomputable");
                ev
            },
            None => String::from_str("big_number:BB:definable_noncomputable"),
        };
        Self::big_nat(theory, "BB", parameter, ConstructionMode::Definable, CostClass::Uncomputable, ev.as_str())
    }

    /// A definable, non-computable number (`BB` without a parameter).
    pub fn definable_noncomputable_nat(theory: &str) -> (r: Self)
        ensures
            r@ == big_nat_model(theory@, "BB"@, None, ConstructionMode::Definable, CostClass::Uncomputable, "big_number:BB:definable_noncomputable"@),
    {
        Self::busy_beaver_nat(theory, None)
    }

    /// A number of the fast-growing hierarchy at `level`.
    pub fn fast_growing_nat(theory: &str, level: u128) -> (r: Self)
        ensures
            r@ == big_nat_model(theory@, "FGH"@, Some(level), ConstructionMode::Recursive, CostClass::Recursive, "big_number:fast_growing:"@ + dec_text(level as nat)),
    {
        let mut ev = String::from_str("big_number:fast_growing:");
        ev.append(u128_text(level).as_str());
        Self::big_nat(theory, "FGH", Some(level), ConstructionMode::Recursive, CostClass::Recursive, ev.as_str())
    }

    /// The universe one above that of `source` (level 0 when `source` is not a
    /// universe), keeping the source's taint.
    pub fn universe_succ(source: &Passport, theory: &str) -> (r: Self)
        ensures
            r@ == universe_succ_model(source@, theory@),
    {
        let next: u8 = match &source.ty {
            TypeKind::Universe { level } => if *level == 255 { 255 } else { *level + 1 },
            _ => 0,
        };
        let mut value = Self::universe(theory, next);
        value.trust = source.trust.higher(TrustLevel::Builtin);
        let mut ev = String::from_str("universe:succ:U");
        ev.append(u8_text(next).as_str());
        value.history = HistoryChain::from_source(&source.history, ev.as_str());
        value
    }

    /// The set formed from a universe `U n`: a set of level `n` living in `U n+1`.
    pub fn set_of_universe(source: &Passport, theory: &str) -> (r: Self)
        ensures
            r@ == set_of_universe_model(source@, theory@),
    {
        let (of_level, lives_in): (u8, u8) = match &source.ty {
            TypeKind::Universe { level } => (*level, if *level == 255 { 255 } else { *level + 1 }),
            _ => (0, 1),
        };
        let mut ev = String::from_str("set:of:U");
        ev.append(u8_text(of_level).as_str());
        ev.append(":lives_in:U");
        ev.append(u8_text(lives_in).as_str());
        Passport {
            ty: TypeKind::SetType { of_level, lives_in },
            construction: ConstructionMode::Definable,
            capabilities: CapabilitySet::empty().with(Capability::CanSymbolicPrint).with(Capability::CanCompareByProof).with(Capability::CanSetReason),
            cost: CostClass::ProofRequired,
            trust: source.trust.higher(TrustLevel::Builtin),
            provenance: source.provenance.higher(Provenance::BuiltinKnown),
            validation: source.validation,
            theory: TheoryContext::new(theory),
            history: HistoryChain::from_source(&source.history, ev.as_str()),
            location: LocationContext::local(),
        }
    }

    /// The class of all sets of a universe (a meta-level view of `U n`).
    pub fn class_of_universe(source: &Passport, theory: &str) -> (r: Self)
        ensures
            r@ == class_of_universe_model(source@, theory@),
    {
        let of_level: u8 = match &source.ty {
            TypeKind::Universe { level } => *level,
            _ => 0,
        };
        let mut ev = String::from_str("class:of:U");
        ev.append(u8_text(of_level).as_str());
        Passport {
            ty: TypeKind::Class { of_level },
            construction: ConstructionMode::Definable,
            capabilities: CapabilitySet::empty().with(Capability::CanSymbolicPrint).with(Capability::CanCompareByProof).with(Capability::CanClassReason),
            cost: CostClass::ProofRequired,
            trust: source.trust.higher(TrustLevel::Builtin),
            provenance: source.provenance.higher(Provenance::BuiltinKnown),
            validation: source.validation,
            theory: TheoryContext::new(theory),
            history: HistoryChain::from_source(&source.history, ev.as_str()),
            location: LocationContext::local(),
        }
    }

    /// The meta level `M level`, optionally continuing a source history.
    pub fn meta_level(theory: &str, level: u8, source_history: Option<&HistoryChain>) -> (r: Self)
        ensures
            r@ == meta_level_model(theory@, level, opt_history_view(source_history)),
    {
        let mut ev = String::from_str("definability:meta_level:M");
        ev.append(u8_text(level).as_str());
        let history = match source_history {
            Some(h) => HistoryChain::from_source(h, ev.as_str()),
            None => HistoryChain::from_event(ev.as_str()),
        };
        Passport {
            ty: TypeKind::MetaLevel { level },
            construction: ConstructionMode::Definable,
            capabilities: CapabilitySet::empty().with(Capability::CanSymbolicPrint).with(Capability::CanMetaLevelReason),
            cost: CostClass::ProofRequired,
            trust: TrustLevel::Builtin,
            provenance: Provenance::BuiltinKnown,
            validation: ValidationState::StaticChecked,
            theory: TheoryContext::new(theory),
            history,
            location: LocationContext::local(),
        }
    }

    /// A number definable in `language` under `encoding` below `bound`, at meta level `meta`.
    pub fn definable_nat(theory: &str, language: &Passport, encoding: &Passport, bound: u128, meta: &Passport) -> (r: Self)
        ensures
            r@ == definable_nat_model(theory@, language@, encoding@, bound, meta@),
    {
        let language_name = match &language.ty {
            TypeKind::Language { name } => name.clone(),
            _ => String::from_str("unknown_language"),
        };
        let encoding_name = match &encoding.ty {
            TypeKind::Encoding { name } => name.clone(),
            _ => String::from_str("unknown_encoding"),
        };
        let meta_level: u8 = match &meta.ty {
            TypeKind::MetaLevel { level } => *level,
            _ => 0,
        };
        let mut ev = String::from_str("definability:definable_nat:");
        ev.append(language_name.as_str());
        ev.append(":");
        ev.append(encoding_name.as_str());
        ev.append(":bound:");
        ev.append(u128_text(bound).as_str());
        ev.append(":M");
        ev.append(u8_text(meta_level).as_str());
        Passport {
            ty: TypeKind::DefinableNat {
                language: language_name,
                encoding: encoding_name,
                object_theory: String::from_str(theory),
                bound,
                meta_level,
            },
            construction: ConstructionMode::Definable,
            capabilities: CapabilitySet::empty().with(Capability::CanSymbolicPrint).with(Capability::CanCompareByProof).with(
                Capability::CanDefinabilityReason,
            ).with(Capability::CanExtractDefinabilityBound).with(Capability::CanExtractDefinabilityMeta),
            cost: CostClass::ProofRequired,
            trust: language.trust.higher(encoding.trust).higher(meta.trust).higher(TrustLevel::Builtin),
            provenance: language.provenance.higher(encoding.provenance).higher(meta.provenance).higher(Provenance::BuiltinKnown),
            validation: language.validation.higher(encoding.validation).higher(meta.validation),
            theory: TheoryContext::new(theory),
            history: HistoryChain::merge3(&language.history, &encoding.history, &meta.history, ev.as_str()),
            location: LocationContext::local(),
        }
    }

    /// A named proposition, optionally derived from a source value.
    pub fn proposition(theory: &str, name: &str, source: Option<&Passport>, event: &str) -> (r: Self)
        ensures
            r@ == proposition_model(theory@, name@, opt_passport_view(source), event@),
    {
        let (trust, provenance, validation, history) = derived_or_builtin_parts(source, event);
        Passport {
            ty: TypeKind::Prop { name: String::from_str(name) },
            construction: ConstructionMode::ProofFinite,
            capabilities: CapabilitySet::empty().with(Capability::CanSymbolicPrint).with(Capability::CanCompareByProof).with(Capability::CanPropositionReason),
            cost: CostClass::ProofRequired,
            trust,
            provenance,
            validation,
            theory: TheoryContext::new(theory),
            history,
            location: LocationContext::local(),
        }
    }

    /// A self-referential claim about `proposition`, optionally derived from a source value.
    pub fn self_reference_claim(theory: &str, proposition: &str, source: Option<&Passport>, event: &str) -> (r: Self)
        ensures
            r@ == self_reference_claim_model(theory@, proposition@, opt_passport_view(source), event@),
    {
        let (trust, provenance, validation, history) = derived_or_builtin_parts(source, event);
        Passport {
            ty: TypeKind::SelfReferenceClaim { proposition: String::from_str(proposition) },
            construction: ConstructionMode::ProofFinite,
            capabilities: CapabilitySet::empty().with(Capability::CanSymbolicPrint).with(Capability::CanPropositionReason).with(Capability::CanTruthBoundaryReason),
            cost: CostClass::ProofRequired,
            trust,
            provenance,
            validation,
            theory: TheoryContext::new(theory),
            history,
            location: LocationContext::local(),
        }
    }

    /// The claim that `target_theory` is consistent, optionally derived from a source value.
    pub fn consistency_claim(theory: &str, target_theory: &str, source: Option<&Passport>) -> (r: Self)
        ensures
            r@ == consistency_claim_model(theory@, target_theory@, opt_passport_view(source)),
    {
        let mut ev = String::from_str("consistency:claim:");
        ev.append(target_theory);
        let (trust, provenance, validation, history) = derived_or_builtin_parts(source, ev.as_str());
        Passport {
            ty: TypeKind::ConsistencyClaim { theory: String::from_str(target_theory) },
            construction: ConstructionMode::ProofFinite,
            capabilities: CapabilitySet::empty().with(Capability::CanSymbolicPrint).with(Capability::CanConsistencyReason).with(Capability::CanIncompletenessReason),
            cost: CostClass::ProofRequired,
            trust,
            provenance,
            validation,
            theory: TheoryContext::new(theory),
            history,
            location: LocationContext::local(),
        }
    }

    /// A proof term built with `rule`, optionally from a source value.
    pub fn proof_term(theory: &str, rule: &str, source: Option<&Passport>) -> (r: Self)
        ensures
            r@ == proof_term_model(theory@, rule@, opt_passport_view(source)),
    {
        let mut ev = String::from_str("proof_kernel:term:");
        ev.append(rule);
        let (trust, provenance, validation, history) = match source {
            Some(s) => (s.trust, s.provenance, s.validation, HistoryChain::from_source(&s.history, ev.as_str())),
            None => (TrustLevel::Checked, Provenance::InternalDerived, ValidationState::StaticChecked, HistoryChain::from_event(ev.as_str())),
        };
        Passport {
            ty: TypeKind::ProofTerm { rule: String::from_str(rule) },
            construction: ConstructionMode::ProofFinite,
            capabilities: CapabilitySet::empty().with(Capability::CanSymbolicPrint).with(Capability::CanProofKernelCheck),
            cost: CostClass::ProofRequired,
            trust,
            provenance,
            validation,
            theory: TheoryContext::new(theory),
            history,
            location: LocationContext::local(),
        }
    }

    /// `source` quoted across `bridge_name` into `theory` as a syntax term.
    pub fn term_of(theory: &str, source_theory: &str, source_type: &str, bridge_name: &str, source: &Passport) -> (r: Self)
        ensures
            r@ == term_of_model(theory@, source_theory@, source_type@, bridge_name@, source@),
    {
        let mut ctx = TheoryContext::new(source_theory);
        ctx.insert_valid_in(theory);
        ctx.push_bridge(bridge_name);
        let mut ev = String::from_str("bridge:quote:");
        ev.append(bridge_name);
        Passport {
            ty: TypeKind::Term { of_theory: String::from_str(source_theory), of_type: String::from_str(source_type) },
            construction: ConstructionMode::Literal,
            capabilities: CapabilitySet::empty().with(Capability::CanInspectAst).with(Capability::CanCompareSyntax).with(Capability::CanSymbolicPrint),
            cost: CostClass::SmallFinite,
            trust: source.trust.higher(TrustLevel::Builtin),
            provenance: Provenance::InternalDerived,
            validation: ValidationState::StaticChecked,
            theory: ctx,
            history: HistoryChain::from_source(&source.history, ev.as_str()),
            location: LocationContext::local(),
        }
    }

    /// This value transported across `bridge_name` into `target_theory`:
    /// everything is kept, the theory context records the crossing.
    pub fn transported_to(&self, target_theory: &str, bridge_name: &str) -> (r: Self)
        ensures
            r@ == transported_to_model(self@, target_theory@, bridge_name@),
    {
        let mut transported = self.duplicate();
        let source_home = self.theory.home.clone();
        transported.theory.home = String::from_str(target_theory);
        transported.theory.insert_valid_in(source_home.as_str());
        transported.theory.insert_valid_in(target_theory);
        transported.theory.push_bridge(bridge_name);
        let mut ev = String::from_str("bridge:transport:");
        ev.append(bridge_name);
        transported.history.push(ev.as_str());
        transported
    }

    /// A soundness-bridge proof of `predicate` in `theory`, carrying an axiom taint.
    pub fn soundness_proof(theory: &str, predicate: &str, source: &Passport, bridge_name: &str) -> (r: Self)
        ensures
            r@ == soundness_proof_model(theory@, predicate@, source@, bridge_name@),
    {
        let mut ctx = TheoryContext::new(theory);
        ctx.insert_valid_in(source.theory.home.as_str());
        ctx.push_bridge(bridge_name);
        let mut ev = String::from_str("bridge:soundness:");
        ev.append(bridge_name);
        let mut history = HistoryChain::from_source(&source.history, ev.as_str());
        history.push("axiom:soundness_assumption");
        Passport {
            ty: TypeKind::StaticProof(String::from_str(predicate)),
            construction: ConstructionMode::ProofFinite,
            capabilities: CapabilitySet::empty().with(Capability::CanSymbolicPrint),
            cost: CostClass::ProofRequired,
            trust: source.trust.higher(TrustLevel::Axiom),
            provenance: source.provenance,
            validation: ValidationState::StaticChecked,
            theory: ctx,
            history,
            location: LocationContext::local(),
        }
    }

    /// A compute node of architecture `arch`, without declared resources.
    pub fn node(theory: &str, arch: NodeArch) -> (r: Self)
        ensures
            r@ == node_model(theory@, arch, None, None),
    {
        Self::node_with_resources(theory, arch, None, None)
    }

    /// A compute node with optional core and memory resources recorded in its history.
    pub fn node_with_resources(theory: &str, arch: NodeArch, cores: Option<u128>, memory_mib: Option<u128>) -> (r: Self)
        ensures
            r@ == node_model(theory@, arch, cores, memory_mib),
    {
        let mut ev = String::from_str("node:");
        ev.append(arch.display_str());
        let mut history = HistoryChain::from_event(ev.as_str());
        let ghost h0 = history@;
        match cores {
            Some(c) => {
                let mut e = String::from_str("node_resource:cores:");
                e.append(u128_text(c).as_str());
                history.push(e.as_str());
                assert(history@ =~= h0 + seq![e@]);
            },
            None => {
                assert(history@ =~= h0 + Seq::<Seq<char>>::empty());
            },
        }
        let ghost h1 = history@;
        match memory_mib {
            Some(m) => {
                let mut e = String::from_str("node_resource:memory_mib:");
                e.append(u128_text(m).as_str());
                history.push(e.as_str());
                assert(history@ =~= h1 + seq![e@]);
            },
            None => {
                assert(history@ =~= h1 + Seq::<Seq<char>>::empty());
            },
        }
        Passport {
            ty: TypeKind::Node { arch },
            construction: ConstructionMode::Definable,
            capabilities: CapabilitySet::empty().with(Capability::CanHostRuntime).with(Capability::CanAcceptMigration).with(Capability::CanSymbolicPrint).with(Capability::CanCrossArchPortable),
            cost: CostClass::SmallFinite,
            trust: TrustLevel::Builtin,
            provenance: Provenance::BuiltinKnown,
            validation: ValidationState::StaticChecked,
            theory: TheoryContext::new(theory),
            history,
            location: LocationContext::node(arch),
        }
    }

    /// A virtual cluster pooling `nodes`: their histories are merged in order.
    pub fn virtual_cluster(theory: &str, nodes: &[Passport]) -> (r: Self)
        ensures
            r@ == virtual_cluster_model(theory@, passports_view(nodes@)),
    {
        assert(passports_view(nodes@).map_values(|p: PassportV| p.history) =~= nodes@.map_values(|p: Passport| p.history@));
        let trust = max_trust_in(nodes, TrustLevel::Builtin);
        Passport {
            ty: TypeKind::VirtualCluster,
            construction: ConstructionMode::Definable,
            capabilities: CapabilitySet::empty().with(Capability::CanHostRuntime).with(Capability::CanSymbolicPrint).with(
                Capability::CanVirtualizeCores,
            ).with(Capability::CanVirtualizeMemory).with(Capability::CanScheduleRuntime).with(Capability::CanAllocateDistributedMemory),
            cost: CostClass::SmallFinite,
            trust: trust.higher(TrustLevel::Builtin),
            provenance: Provenance::InternalDerived,
            validation: ValidationState::StaticChecked,
            theory: TheoryContext::new(theory),
            history: HistoryChain::merge_passports(nodes, "cluster:virtual_pool"),
            location: LocationContext::local(),
        }
    }

    /// A checkpoint of a distributed memory region (size kept when known).
    pub fn memory_checkpoint(theory: &str, source: &Passport) -> (r: Self)
        ensures
            r@ == memory_checkpoint_model(theory@, source@),
    {
        let memory_mib = match &source.ty {
            TypeKind::DistributedMemory { memory_mib } => *memory_mib,
            _ => None,
        };
        Passport {
            ty: TypeKind::MemoryCheckpoint { memory_mib },
            construction: ConstructionMode::Definable,
            capabilities: CapabilitySet::empty().with(Capability::CanSymbolicPrint).with(Capability::CanRestoreCheckpoint),
            cost: source.cost.higher(CostClass::SmallFinite),
            trust: source.trust,
            provenance: source.provenance,
            validation: source.validation,
            theory: TheoryContext::new(theory),
            history: HistoryChain::from_source(&source.history, "checkpoint:memory"),
            location: LocationContext::local(),
        }
    }

    /// A distributed memory region restored from a checkpoint (size kept when known).
    pub fn restored_memory_region(theory: &str, source: &Passport) -> (r: Self)
        ensures
            r@ == restored_memory_region_model(theory@, source@),
    {
        let memory_mib = match &source.ty {
            TypeKind::MemoryCheckpoint { memory_mib } => *memory_mib,
            _ => None,
        };
        Passport {
            ty: TypeKind::DistributedMemory { memory_mib },
            construction: ConstructionMode::Definable,
            capabilities: CapabilitySet::empty().with(Capability::CanSymbolicPrint).with(Capability::CanUseDistributedMemory).with(Capability::CanCheckpointMemory),
            cost: source.cost.higher(CostClass::SmallFinite),
            trust: source.trust,
            provenance: source.provenance,
            validation: source.validation,
            theory: TheoryContext::new(theory),
            history: HistoryChain::from_source(&source.history, "checkpoint:restore_memory"),
            location: LocationContext::local(),
        }
    }

    /// This value migrated across `bridge_name` to a node of `target_arch`.
    pub fn migrated_to(&self, target_theory: &str, target_arch: NodeArch, bridge_name: &str) -> (r: Self)
        ensures
            r@ == migrated_to_model(self@, target_theory@, target_arch, bridge_name@),
    {
        let mut ctx = TheoryContext::new(target_theory);
        ctx.insert_valid_in(self.theory.home.as_str());
        ctx.push_bridge(bridge_name);
        let mut ev = String::from_str("migration:");
        ev.append(bridge_name);
        ev.append(":to:");
        ev.append(target_arch.display_str());
        Passport {
            ty: TypeKind::Remote { inner: Box::new(self.ty.duplicate()), target_arch },
            construction: self.construction,
            capabilities: remote_capability_set(),
            cost: self.cost.higher(CostClass::SmallFinite),
            trust: self.trust,
            provenance: self.provenance,
            validation: self.validation,
            theory: ctx,
            history: HistoryChain::from_source(&self.history, ev.as_str()),
            location: LocationContext::remote(target_arch),
        }
    }

    /// This value scheduled on a pool node of `target_arch`; a `local_schedule` bridge
    /// is not recorded in the bridge trace.
    pub fn scheduled_to(
        &self,
        target_theory: &str,
        target_arch: NodeArch,
        bridge_name: &str,
        pool: &Passport,
        target: &Passport,
    ) -> (r: Self)
        ensures
            r@ == scheduled_to_model(self@, target_theory@, target_arch, bridge_name@, pool@, target@),
    {
        let mut ctx = TheoryContext::new(target_theory);
        ctx.insert_valid_in(self.theory.home.as_str());
        if !crate::text::str_eq(bridge_name, "local_schedule") {
            ctx.push_bridge(bridge_name);
        }
        let mut ev = String::from_str("cluster:schedule:");
        ev.append(bridge_name);
        ev.append(":to:");
        ev.append(target_arch.display_str());
        Passport {
            ty: TypeKind::Remote { inner: Box::new(self.ty.duplicate()), target_arch },
            construction: self.construction,
            capabilities: remote_capability_set(),
            cost: self.cost.higher(pool.cost).higher(target.cost).higher(CostClass::SmallFinite),
            trust: self.trust.higher(pool.trust).higher(target.trust),
            provenance: self.provenance.higher(pool.provenance).higher(target.provenance),
            validation: self.validation.higher(pool.validation).higher(target.validation),
            theory: ctx,
            history: HistoryChain::merge3(&pool.history, &target.history, &self.history, ev.as_str()),
            location: LocationContext::remote(target_arch),
        }
    }

    /// Portable code deployed on a node of `target_arch`.
    pub fn deployed_portable_code(theory: &str, code: &Passport, target: &Passport, target_arch: NodeArch, event: &str) -> (r: Self)
        ensures
            r@ == deployed_portable_code_model(theory@, code@, target@, target_arch, event@),
    {
        let inner = match &code.ty {
            TypeKind::PortableCode { inner } => {
                let d = inner.duplicate();
                assert(code@.ty == TypeKindV::PortableCode { inner: Box::new(d@) });
                d
            },
            _ => {
                assert(!(code@.ty is PortableCode));
                TypeKind::Unknown(String::from_str("PortableCodeInner"))
            },
        };
        let ghost iv = inner@;
        let r = Passport {
            ty: TypeKind::Remote { inner: Box::new(inner), target_arch },
            construction: code.construction,
            capabilities: remote_capability_set(),
            cost: code.cost.higher(target.cost).higher(CostClass::SmallFinite),
            trust: code.trust.higher(target.trust),
            provenance: code.provenance.higher(target.provenance),
            validation: code.validation.higher(target.validation),
            theory: TheoryContext::new(theory),
            history: HistoryChain::merge2(&code.history, &target.history, event),
            location: LocationContext::remote(target_arch),
        };
        assert(r@.ty == TypeKindV::Remote { inner: Box::new(iv), target_arch });
        assert(iv == match code@.ty {
                        TypeKindV::PortableCode { inner } => *inner,
                        _ => TypeKindV::Unknown("PortableCodeInner"@),
                    });
        assert(r@.history == (code@.history + target@.history).push(event@));
        assert(r@.theory == home_context(theory@));
        r
    }

    /// A checkpoint of a remote job, remembering the architecture it ran on.
    pub fn remote_checkpoint(theory: &str, source: &Passport) -> (r: Self)
        ensures
            r@ == remote_checkpoint_model(theory@, source@),
    {
        let (inner, source_arch) = match &source.ty {
            TypeKind::Remote { inner, target_arch } => {
                let d = inner.duplicate();
                assert(source@.ty == TypeKindV::Remote { inner: Box::new(d@), target_arch: *target_arch });
                (d, *target_arch)
            },
            _ => {
                assert(!(source@.ty is Remote));
                (TypeKind::Unknown(String::from_str("RemoteCheckpointSource")), NodeArch::X86_64)
            },
        };
        let ghost iv = inner@;
        assert(TypeKindV::RemoteCheckpoint { inner: Box::new(iv), source_arch } == match source@.ty {
            TypeKindV::Remote { inner, target_arch } => TypeKindV::RemoteCheckpoint { inner, source_arch: target_arch },
            _ => TypeKindV::RemoteCheckpoint {
                inner: Box::new(TypeKindV::Unknown("RemoteCheckpointSource"@)),
                source_arch: NodeArch::X86_64,
            },
        });
        Passport {
            ty: TypeKind::RemoteCheckpoint { inner: Box::new(inner), source_arch },
            construction: source.construction,
            capabilities: CapabilitySet::empty().with(Capability::CanSymbolicPrint).with(Capability::CanRestoreRemoteCheckpoint).with(Capability::CanCrossArchPortable),
            cost: source.cost.higher(CostClass::SmallFinite),
            trust: source.trust,
            provenance: source.provenance,
            validation: source.validation,
            theory: TheoryContext::new(theory),
            history: HistoryChain::from_source(&source.history, "checkpoint:remote"),
            location: LocationContext::local(),
        }
    }

    /// A remote job restored from a checkpoint on a node of `target_arch`.
    pub fn restored_remote(theory: &str, checkpoint: &Passport, target: &Passport, target_arch: NodeArch) -> (r: Self)
        ensures
            r@ == restored_remote_model(theory@, checkpoint@, target@, target_arch),
    {
        let inner = match &checkpoint.ty {
            TypeKind::RemoteCheckpoint { inner, source_arch } => {
                let d = inner.duplicate();
                assert(checkpoint@.ty == TypeKindV::RemoteCheckpoint { inner: Box::new(d@), source_arch: *source_arch });
                d
            },
            _ => {
                assert(!(checkpoint@.ty is RemoteCheckpoint));
                TypeKind::Unknown(String::from_str("RemoteCheckpointInner"))
            },
        };
        let mut ev = String::from_str("checkpoint:restore_remote:to:");
        ev.append(target_arch.display_str());
        let ghost iv = inner@;
        assert(iv == match checkpoint@.ty {
            TypeKindV::RemoteCheckpoint { inner, .. } => *inner,
            _ => TypeKindV::Unknown("RemoteCheckpointInner"@),
        });
        Passport {
            ty: TypeKind::Remote { inner: Box::new(inner), target_arch },
            construction: checkpoint.construction,
            capabilities: remote_capability_set(),
            cost: checkpoint.cost.higher(target.cost).higher(CostClass::SmallFinite),
            trust: checkpoint.trust.higher(target.trust),
            provenance: checkpoint.provenance.higher(target.provenance),
            validation: checkpoint.validation.higher(target.validation),
            theory: TheoryContext::new(theory),
            history: HistoryChain::merge2(&checkpoint.history, &target.history, ev.as_str()),
            location: LocationContext::remote(target_arch),
        }
    }

    /// A remote job live-migrated to a node of `target_arch`.
    pub fn live_migrated_remote(theory: &str, source: &Passport, target: &Passport, target_arch: NodeArch) -> (r: Self)
        ensures
            r@ == live_migrated_remote_model(theory@, source@, target@, target_arch),
    {
        let inner = remote_inner_of(&source.ty);
        let mut ev = String::from_str("migration:live_remote:to:");
        ev.append(target_arch.display_str());
        Passport {
            ty: TypeKind::Remote { inner: Box::new(inner), target_arch },
            construction: source.construction,
            capabilities: remote_capability_set(),
            cost: source.cost.higher(target.cost).higher(CostClass::SmallFinite),
            trust: source.trust.higher(target.trust),
            provenance: source.provenance.higher(target.provenance),
            validation: source.validation.higher(target.validation),
            theory: TheoryContext::new(theory),
            history: HistoryChain::merge2(&source.history, &target.history, ev.as_str()),
            location: LocationContext::remote(target_arch),
        }
    }

    /// A remote value brought back into local value space; capabilities are those of
    /// its inner type (`local_materialize` is recorded as a local materialization).
    pub fn materialized_remote(theory: &str, source: &Passport, bridge_name: &str) -> (r: Self)
        ensures
            r@ == materialized_remote_model(theory@, source@, bridge_name@),
    {
        let inner = remote_inner_of(&source.ty);
        let capabilities = capabilities_for_materialized_inner(&inner, source.construction, source.cost);
        let ev = if crate::text::str_eq(bridge_name, "local_materialize") {
            String::from_str("remote:materialize:local")
        } else {
            let mut ev = String::from_str("remote:materialize:");
            ev.append(bridge_name);
            ev
        };
        Passport {
            ty: inner,
            construction: source.construction,
            capabilities,
            cost: source.cost.higher(CostClass::SmallFinite),
            trust: source.trust,
            provenance: source.provenance,
            validation: source.validation,
            theory: TheoryContext::new(theory),
            history: HistoryChain::from_source(&source.history, ev.as_str()),
            location: LocationContext::local(),
        }
    }

    /// A GPU device of `backend`, with optional memory recorded in its history.
    pub fn gpu_device_with(theory: &str, backend: GpuBackend, memory_mib: Option<u128>) -> (r: Self)
        ensures
            r@ == gpu_device_with_model(theory@, backend, memory_mib),
    {
        let mut ev = String::from_str("gpu:");
        ev.append(backend.display_str());
        let mut history = HistoryChain::from_event(ev.as_str());
        match memory_mib {
            Some(m) => {
                let mut e = String::from_str("gpu_resource:memory_mib:");
                e.append(u128_text(m).as_str());
                history.push(e.as_str());
                assert(history@ =~= seq![ev@] + seq![e@]);
            },
            None => {
                assert(history@ =~= seq![ev@] + Seq::<Seq<char>>::empty());
            },
        }
        Passport {
            ty: TypeKind::GpuDevice { backend },
            construction: ConstructionMode::Definable,
            capabilities: CapabilitySet::empty().with(Capability::CanSymbolicPrint).with(Capability::CanHostGpuRuntime).with(
                Capability::CanAcceptMigration,
            ).with(Capability::CanAllocateGpuMemory).with(Capability::CanGpuPeerTransfer).with(Capability::CanGpuUnifiedAddressing),
            cost: CostClass::SmallFinite,
            trust: TrustLevel::Builtin,
            provenance: Provenance::BuiltinKnown,
            validation: ValidationState::StaticChecked,
            theory: TheoryContext::new(theory),
            history,
            location: LocationContext::local(),
        }
    }

    /// A GPU pool over `devices`: the most tainted device decides the pool's taint
    /// (builtin defaults for an empty pool).
    pub fn gpu_pool(theory: &str, devices: &[Passport]) -> (r: Self)
        ensures
            r@ == gpu_pool_model(theory@, passports_view(devices@)),
    {
        assert(passports_view(devices@).map_values(|p: PassportV| p.history) =~= devices@.map_values(|p: Passport| p.history@));
        Passport {
            ty: TypeKind::GpuPool,
            construction: ConstructionMode::Definable,
            capabilities: CapabilitySet::empty().with(Capability::CanSymbolicPrint).with(Capability::CanHostGpuRuntime).with(
                Capability::CanAllocateGpuMemory,
            ).with(Capability::CanGpuPeerTransfer).with(Capability::CanGpuUnifiedAddressing).with(Capability::CanLaunchGpuKernel),
            cost: CostClass::SmallFinite,
            trust: max_trust_in(devices, TrustLevel::Builtin),
            provenance: max_provenance_in(devices, Provenance::BuiltinKnown),
            validation: max_validation_in(devices, ValidationState::StaticChecked),
            theory: TheoryContext::new(theory),
            history: HistoryChain::merge_passports(devices, "gpu_pool:create"),
            location: LocationContext::local(),
        }
    }

    /// The result of launching a GPU kernel on a memory region: a GPU value of the
    /// kernel's inner type.
    pub fn launched_gpu_kernel(theory: &str, region: &Passport, kernel: &Passport) -> (r: Self)
        ensures
            r@ == launched_gpu_kernel_model(theory@, region@, kernel@),
    {
        let inner = match &kernel.ty {
            TypeKind::GpuKernel { inner } => {
                let d = inner.duplicate();
                assert(kernel@.ty == TypeKindV::GpuKernel { inner: Box::new(d@) });
                d
            },
            _ => {
                assert(!(kernel@.ty is GpuKernel));
                TypeKind::Unknown(String::from_str("GpuKernelInner"))
            },
        };
        let ghost iv = inner@;
        assert(iv == match kernel@.ty {
            TypeKindV::GpuKernel { inner } => *inner,
            _ => TypeKindV::Unknown("GpuKernelInner"@),
        });
        Passport {
            ty: TypeKind::GpuValue { inner: Box::new(inner) },
            construction: kernel.construction,
            capabilities: CapabilitySet::empty().with(Capability::CanSymbolicPrint).with(Capability::CanCopyGpuToCpu).with(Capability::CanGpuPeerTransfer),
            cost: kernel.cost.higher(region.cost).higher(CostClass::SmallFinite),
            trust: kernel.trust.higher(region.trust),
            provenance: kernel.provenance.higher(region.provenance),
            validation: kernel.validation.higher(region.validation),
            theory: TheoryContext::new(theory),
            history: HistoryChain::merge2(&region.history, &kernel.history, "gpu_kernel:launch"),
            location: LocationContext::local(),
        }
    }

    /// A GPU value copied back to the CPU, with the capabilities of its inner type.
    pub fn copied_from_gpu(theory: &str, source: &Passport) -> (r: Self)
        ensures
            r@ == copied_from_gpu_model(theory@, source@),
    {
        let inner = match &source.ty {
            TypeKind::GpuValue { inner } => inner.duplicate(),
            _ => TypeKind::Unknown(String::from_str("GpuValueInner")),
        };
        let capabilities = capabilities_for_materialized_inner(&inner, source.construction, source.cost);
        Passport {
            ty: inner,
            construction: source.construction,
            capabilities,
            cost: source.cost.higher(CostClass::SmallFinite),
            trust: source.trust,
            provenance: source.provenance,
            validation: source.validation,
            theory: TheoryContext::new(theory),
            history: HistoryChain::from_source(&source.history, "copy:gpu_to_cpu"),
            location: LocationContext::local(),
        }
    }
}

/// Model of `Passport::big_nat`.
pub open spec fn big_nat_model(
    theory: Seq<char>,
    family: Seq<char>,
    parameter: Option<u128>,
    construction: ConstructionMode,
    cost: CostClass,
    event: Seq<char>,
) -> PassportV {
    PassportV {
        ty: TypeKindV::BigNat { family, parameter },
        construction,
        capabilities: set![
            Capability::CanAddAsNat,
            Capability::CanSymbolicPrint,
            Capability::CanSerializeForMigration,
            Capability::CanCompilePortableCode,
            Capability::CanCompareByProof,
            Capability::CanBigNumberReason,
            Capability::CanExtractGrowthClass
        ],
        cost,
        trust: TrustLevel::Builtin,
        provenance: Provenance::BuiltinKnown,
        validation: ValidationState::StaticChecked,
        theory: home_context(theory),
        history: seq![event],
        location: LocationContext::Local,
    }
}

/// Model of `Passport::universe`.
pub open spec fn universe_model(theory: Seq<char>, level: u8) -> PassportV {
    PassportV {
        ty: TypeKindV::Universe { level },
        construction: ConstructionMode::Definable,
        capabilities: set![
            Capability::CanSymbolicPrint,
            Capability::CanCompareByProof,
            Capability::CanUniverseLevel,
            Capability::CanFormSet,
            Capability::CanFormClass,
            Capability::CanLiftUniverse
        ],
        cost: CostClass::ProofRequired,
        trust: TrustLevel::Builtin,
        provenance: Provenance::BuiltinKnown,
        validation: ValidationState::StaticChecked,
        theory: home_context(theory),
        history: seq!["universe:U"@ + dec_text(level as nat)],
        location: LocationContext::Local,
    }
}

/// Model of `Passport::node_with_resources`.
pub open spec fn node_model(theory: Seq<char>, arch: NodeArch, cores: Option<u128>, memory_mib: Option<u128>) -> PassportV {
    PassportV {
        ty: TypeKindV::Node { arch },
        construction: ConstructionMode::Definable,
        capabilities: set![
            Capability::CanHostRuntime,
            Capability::CanAcceptMigration,
            Capability::CanSymbolicPrint,
            Capability::CanCrossArchPortable
        ],
        cost: CostClass::SmallFinite,
        trust: TrustLevel::Builtin,
        provenance: Provenance::BuiltinKnown,
        validation: ValidationState::StaticChecked,
        theory: home_context(theory),
        history: seq!["node:"@ + arch.display_text()] + match cores {
            Some(c) => seq!["node_resource:cores:"@ + dec_text(c as nat)],
            None => Seq::empty(),
        } + match memory_mib {
            Some(m) => seq!["node_resource:memory_mib:"@ + dec_text(m as nat)],
            None => Seq::empty(),
        },
        location: LocationContext::Node { arch },
    }
}

/// Taint, provenance, validation and history of a value derived from an optional source:
/// at least builtin with a source (its history continued by `event`), builtin without.
pub open spec fn derived_or_builtin(theory: Seq<char>, source: Option<PassportV>, event: Seq<char>) -> PassportV {
    PassportV {
        ty: TypeKindV::Bool,
        construction: ConstructionMode::ProofFinite,
        capabilities: Set::empty(),
        cost: CostClass::ProofRequired,
        trust: match source {
            Some(s) => s.trust.higher(TrustLevel::Builtin),
            None => TrustLevel::Builtin,
        },
        provenance: match source {
            Some(s) => s.provenance.higher(Provenance::BuiltinKnown),
            None => Provenance::BuiltinKnown,
        },
        validation: match source {
            Some(s) => s.validation,
            None => ValidationState::StaticChecked,
        },
        theory: home_context(theory),
        history: match source {
            Some(s) => s.history.push(event),
            None => seq![event],
        },
        location: LocationContext::Local,
    }
}

fn derived_or_builtin_parts(source: Option<&Passport>, event: &str) -> (r: (TrustLevel, Provenance, ValidationState, HistoryChain))
    ensures
        r.0 == derived_or_builtin(Seq::empty(), opt_passport_view(source), event@).trust,
        r.1 == derived_or_builtin(Seq::empty(), opt_passport_view(source), event@).provenance,
        r.2 == derived_or_builtin(Seq::empty(), opt_passport_view(source), event@).validation,
        r.3@ == derived_or_builtin(Seq::empty(), opt_passport_view(source), event@).history,
{
    match source {
        Some(s) => (
            s.trust.higher(TrustLevel::Builtin),
            s.provenance.higher(Provenance::BuiltinKnown),
            s.validation,
            HistoryChain::from_source(&s.history, event),
        ),
        None => (TrustLevel::Builtin, Provenance::BuiltinKnown, ValidationState::StaticChecked, HistoryChain::from_event(event)),
    }
}

/// Capabilities of a remote value.
pub open spec fn remote_caps() -> Set<Capability> {
    set![
        Capability::CanSymbolicPrint,
        Capability::CanRemoteSymbolicPrint,
        Capability::CanCheckpointRemote,
        Capability::CanLiveMigrateRemote,
        Capability::CanMaterializeRemote
    ]
}

fn remote_capability_set() -> (r: CapabilitySet)
    ensures
        r@ == remote_caps(),
{
    CapabilitySet::empty().with(Capability::CanSymbolicPrint).with(Capability::CanRemoteSymbolicPrint).with(
        Capability::CanCheckpointRemote,
    ).with(Capability::CanLiveMigrateRemote).with(Capability::CanMaterializeRemote)
}

/// The type inside a remote value.
pub open spec fn remote_inner(t: TypeKindV) -> TypeKindV {
    match t {
        TypeKindV::Remote { inner, .. } => *inner,
        _ => TypeKindV::Unknown("RemoteInner"@),
    }
}

fn remote_inner_of(t: &TypeKind) -> (r: TypeKind)
    ensures
        r@ == remote_inner(t@),
{
    match t {
        TypeKind::Remote { inner, .. } => inner.duplicate(),
        _ => TypeKind::Unknown(String::from_str("RemoteInner")),
    }
}

/// Capabilities a value regains when it is brought back into local space, by its type.
pub open spec fn materialized_caps(inner: TypeKindV, construction: ConstructionMode, cost: CostClass) -> Set<Capability> {
    match inner {
        TypeKindV::Nat => {
            let base = set![
                Capability::CanAddAsNat,
                Capability::CanSymbolicPrint,
                Capability::CanSerializeForMigration,
                Capability::CanCompilePortableCode,
                Capability::CanCompileGpuKernel
            ];
            if construction == ConstructionMode::Literal && cost.rank() <= CostClass::SmallFinite.rank() {
                base.insert(Capability::CanPrintDecimal).insert(Capability::CanCompareDirect).insert(Capability::CanComputeModular)
            } else if cost.rank() < CostClass::Uncomputable.rank() {
                base.insert(Capability::CanCompareByProof).insert(Capability::CanComputeModular)
            } else {
                base.insert(Capability::CanCompareByProof)
            }
        },
        TypeKindV::Universe { .. } => set![
            Capability::CanSymbolicPrint,
            Capability::CanCompareByProof,
            Capability::CanUniverseLevel,
            Capability::CanFormSet,
            Capability::CanFormClass,
            Capability::CanLiftUniverse
        ],
        TypeKindV::SetType { .. } => set![Capability::CanSymbolicPrint, Capability::CanCompareByProof, Capability::CanSetReason],
        TypeKindV::Class { .. } => set![Capability::CanSymbolicPrint, Capability::CanCompareByProof, Capability::CanClassReason],
        TypeKindV::Language { .. } => set![Capability::CanSymbolicPrint, Capability::CanDefineInLanguage],
        TypeKindV::Encoding { .. } => set![Capability::CanSymbolicPrint, Capability::CanUseEncoding],
        TypeKindV::MetaLevel { .. } => set![Capability::CanSymbolicPrint, Capability::CanMetaLevelReason],
        TypeKindV::DefinableNat { .. } => set![
            Capability::CanSymbolicPrint,
            Capability::CanCompareByProof,
            Capability::CanDefinabilityReason,
            Capability::CanExtractDefinabilityBound,
            Capability::CanExtractDefinabilityMeta
        ],
        TypeKindV::Bool | TypeKindV::Text => set![Capability::CanSymbolicPrint],
        TypeKindV::ReflectionClaim { .. } | TypeKindV::SelfReferenceClaim { .. } | TypeKindV::Statement { .. }
        | TypeKindV::Theorem { .. } | TypeKindV::Goal { .. } | TypeKindV::Hypothesis { .. } => set![
            Capability::CanSymbolicPrint,
            Capability::CanPropositionReason
        ],
        TypeKindV::Infinity { mode } => match mode {
            InfinityMode::Cardinal => set![
                Capability::CanSymbolicPrint,
                Capability::CanSerializeForMigration,
                Capability::CanCompareByProof,
                Capability::CanCardinalArithmetic
            ],
            InfinityMode::Ordinal => set![
                Capability::CanSymbolicPrint,
                Capability::CanSerializeForMigration,
                Capability::CanCompareByProof,
                Capability::CanOrdinalArithmetic
            ],
            _ => set![Capability::CanSymbolicPrint, Capability::CanSerializeForMigration, Capability::CanCompareByProof],
        },
        _ => set![Capability::CanSymbolicPrint, Capability::CanSerializeForMigration],
    }
}

fn capabilities_for_materialized_inner(inner: &TypeKind, construction: ConstructionMode, cost: CostClass) -> (r: CapabilitySet)
    ensures
        r@ == materialized_caps(inner@, construction, cost),
{
    match inner {
        TypeKind::Nat => {
            let mut caps = CapabilitySet::empty().with(Capability::CanAddAsNat).with(Capability::CanSymbolicPrint).with(
                Capability::CanSerializeForMigration,
            ).with(Capability::CanCompilePortableCode).with(Capability::CanCompileGpuKernel);
            if construction == ConstructionMode::Literal && cost.rank() <= CostClass::SmallFinite.rank() {
                caps.insert(Capability::CanPrintDecimal);
                caps.insert(Capability::CanCompareDirect);
                caps.insert(Capability::CanComputeModular);
            } else {
                caps.insert(Capability::CanCompareByProof);
                if cost.rank() < CostClass::Uncomputable.rank() {
                    caps.insert(Capability::CanComputeModular);
                }
            }
            caps
        },
        TypeKind::Universe { .. } => CapabilitySet::empty().with(Capability::CanSymbolicPrint).with(Capability::CanCompareByProof).with(
            Capability::CanUniverseLevel,
        ).with(Capability::CanFormSet).with(Capability::CanFormClass).with(Capability::CanLiftUniverse),
        TypeKind::SetType { .. } => CapabilitySet::empty().with(Capability::CanSymbolicPrint).with(Capability::CanCompareByProof).with(Capability::CanSetReason),
        TypeKind::Class { .. } => CapabilitySet::empty().with(Capability::CanSymbolicPrint).with(Capability::CanCompareByProof).with(Capability::CanClassReason),
        TypeKind::Language { .. } => CapabilitySet::empty().with(Capability::CanSymbolicPrint).with(Capability::CanDefineInLanguage),
        TypeKind::Encoding { .. } => CapabilitySet::empty().with(Capability::CanSymbolicPrint).with(Capability::CanUseEncoding),
        TypeKind::MetaLevel { .. } => CapabilitySet::empty().with(Capability::CanSymbolicPrint).with(Capability::CanMetaLevelReason),
        TypeKind::DefinableNat { .. } => CapabilitySet::empty().with(Capability::CanSymbolicPrint).with(Capability::CanCompareByProof).with(
            Capability::CanDefinabilityReason,
        ).with(Capability::CanExtractDefinabilityBound).with(Capability::CanExtractDefinabilityMeta),
        TypeKind::Bool | TypeKind::Text => CapabilitySet::empty().with(Capability::CanSymbolicPrint),
        TypeKind::ReflectionClaim { .. } | TypeKind::SelfReferenceClaim { .. } | TypeKind::Statement { .. }
        | TypeKind::Theorem { .. } | TypeKind::Goal { .. } | TypeKind::Hypothesis { .. } => CapabilitySet::empty().with(
            Capability::CanSymbolicPrint,
        ).with(Capability::CanPropositionReason),
        TypeKind::Infinity { mode } => match mode {
            InfinityMode::Cardinal => CapabilitySet::empty().with(Capability::CanSymbolicPrint).with(Capability::CanSerializeForMigration).with(
                Capability::CanCompareByProof,
            ).with(Capability::CanCardinalArithmetic),
            InfinityMode::Ordinal => CapabilitySet::empty().with(Capability::CanSymbolicPrint).with(Capability::CanSerializeForMigration).with(
                Capability::CanCompareByProof,
            ).with(Capability::CanOrdinalArithmetic),
            _ => CapabilitySet::empty().with(Capability::CanSymbolicPrint).with(Capability::CanSerializeForMigration).with(Capability::CanCompareByProof),
        },
        _ => CapabilitySet::empty().with(Capability::CanSymbolicPrint).with(Capability::CanSerializeForMigration),
    }
}

/// The most tainted trust level among `items`, or `default` when there are none.
pub open spec fn max_trust_of(items: Seq<PassportV>, default: TrustLevel) -> TrustLevel
    decreases items.len(),
{
    if items.len() == 0 {
        default
    } else if items.len() == 1 {
        items[0].trust
    } else {
        max_trust_of(items.drop_last(), default).higher(items.last().trust)
    }
}

/// The least trusted provenance among `items`, or `default` when there are none.
pub open spec fn max_provenance_of(items: Seq<PassportV>, default: Provenance) -> Provenance
    decreases items.len(),
{
    if items.len() == 0 {
        default
    } else if items.len() == 1 {
        items[0].provenance
    } else {
        max_provenance_of(items.drop_last(), default).higher(items.last().provenance)
    }
}

/// The weakest validation among `items`, or `default` when there are none.
pub open spec fn max_validation_of(items: Seq<PassportV>, default: ValidationState) -> ValidationState
    decreases items.len(),
{
    if items.len() == 0 {
        default
    } else if items.len() == 1 {
        items[0].validation
    } else {
        max_validation_of(items.drop_last(), default).higher(items.last().validation)
    }
}

fn max_trust_in(items: &[Passport], default: TrustLevel) -> (r: TrustLevel)
    ensures
        r == max_trust_of(passports_view(items@), default),
{
    let mut acc = default;
    let mut i: usize = 0;
    while i < items.len()
        invariant
            i <= items.len(),
            acc == max_trust_of(passports_view(items@).take(i as int), default),
        decreases items.len() - i,
    {
        assert(passports_view(items@).take(i + 1).drop_last() =~= passports_view(items@).take(i as int));
        if i == 0 {
            acc = items[0].trust;
        } else {
            acc = acc.higher(items[i].trust);
        }
        i = i + 1;
    }
    assert(passports_view(items@).take(items.len() as int) =~= passports_view(items@));
    acc
}

fn max_provenance_in(items: &[Passport], default: Provenance) -> (r: Provenance)
    ensures
        r == max_provenance_of(passports_view(items@), default),
{
    let mut acc = default;
    let mut i: usize = 0;
    while i < items.len()
        invariant
            i <= items.len(),
            acc == max_provenance_of(passports_view(items@).take(i as int), default),
        decreases items.len() - i,
    {
        assert(passports_view(items@).take(i + 1).drop_last() =~= passports_view(items@).take(i as int));
        if i == 0 {
            acc = items[0].provenance;
        } else {
            acc = acc.higher(items[i].provenance);
        }
        i = i + 1;
    }
    assert(passports_view(items@).take(items.len() as int) =~= passports_view(items@));
    acc
}

fn max_validation_in(items: &[Passport], default: ValidationState) -> (r: ValidationState)
    ensures
        r == max_validation_of(passports_view(items@), default),
{
    let mut acc = default;
    let mut i: usize = 0;
    while i < items.len()
        invariant
            i <= items.len(),
            acc == max_validation_of(passports_view(items@).take(i as int), default),
        decreases items.len() - i,
    {
        assert(passports_view(items@).take(i + 1).drop_last() =~= passports_view(items@).take(i as int));
        if i == 0 {
            acc = items[0].validation;
        } else {
            acc = acc.higher(items[i].validation);
        }
        i = i + 1;
    }
    assert(passports_view(items@).take(items.len() as int) =~= passports_view(items@));
    acc
}

/// The models of a slice of passports.
pub open spec fn passports_view(items: Seq<Passport>) -> Seq<PassportV> {
    items.map_values(|p: Passport| p@)
}

/// The model of an optional passport.
pub open spec fn opt_passport_view(o: Option<&Passport>) -> Option<PassportV> {
    match o {
        Some(p) => Some(p@),
        None => None,
    }
}

/// The model of an optional history.
pub open spec fn opt_history_view(o: Option<&HistoryChain>) -> Option<Seq<Seq<char>>> {
    match o {
        Some(h) => Some(h@),
        None => None,
    }
}

/// Model of `Passport::literal_nat`.
pub open spec fn literal_nat_model(theory: Seq<char>) -> PassportV {
    (PassportV {
        ty: TypeKindV::Nat,
        construction: ConstructionMode::Literal,
        capabilities: set![Capability::CanAddAsNat, Capability::CanPrintDecimal, Capability::CanSymbolicPrint, Capability::CanSerializeForMigration, Capability::CanCompilePortableCode, Capability::CanCompileGpuKernel, Capability::CanCompareDirect, Capability::CanComputeModular],
        cost: CostClass::Trivial,
        trust: TrustLevel::Checked,
        provenance: Provenance::InternalLiteral,
        validation: ValidationState::StaticChecked,
        theory: home_context(theory),
        history: seq!["created:literal_nat"@],
        location: LocationContext::Local,
    })
}

/// Model of `Passport::compressed_nat`.
pub open spec fn compressed_nat_model(theory: Seq<char>) -> PassportV {
    (PassportV {
        ty: TypeKindV::Nat,
        construction: ConstructionMode::Compressed,
        capabilities: set![Capability::CanAddAsNat, Capability::CanSymbolicPrint, Capability::CanSerializeForMigration, Capability::CanCompilePortableCode, Capability::CanCompileGpuKernel, Capability::CanCompareByProof, Capability::CanComputeModular],
        cost: CostClass::Compressed,
        trust: TrustLevel::Checked,
        provenance: Provenance::InternalDerived,
        validation: ValidationState::StaticChecked,
        theory: home_context(theory),
        history: seq!["created:compressed_nat"@],
        location: LocationContext::Local,
    })
}

/// Model of `Passport::big_number_resource_nat`.
pub open spec fn big_number_resource_nat_model(theory: Seq<char>, source: PassportV, event: Seq<char>) -> PassportV {
    (PassportV {
        ty: TypeKindV::Nat,
        construction: ConstructionMode::Definable,
        capabilities: set![Capability::CanAddAsNat, Capability::CanPrintDecimal, Capability::CanSymbolicPrint, Capability::CanCompareDirect, Capability::CanComputeModular, Capability::CanSerializeForMigration, Capability::CanCompilePortableCode, Capability::CanCompileGpuKernel],
        cost: CostClass::SmallFinite,
        trust: source.trust.higher(TrustLevel::Builtin),
        provenance: source.provenance.higher(Provenance::BuiltinKnown),
        validation: source.validation,
        theory: home_context(theory),
        history: source.history.push(event),
        location: LocationContext::Local,
    })
}

/// Model of `Passport::cardinal_infinity`.
pub open spec fn cardinal_infinity_model(theory: Seq<char>) -> PassportV {
    (PassportV {
        ty: TypeKindV::Infinity { mode: InfinityMode::Cardinal },
        construction: ConstructionMode::Definable,
        capabilities: set![Capability::CanSymbolicPrint, Capability::CanSerializeForMigration, Capability::CanCompareByProof, Capability::CanCardinalArithmetic],
        cost: CostClass::ProofRequired,
        trust: TrustLevel::Builtin,
        provenance: Provenance::BuiltinKnown,
        validation: ValidationState::StaticChecked,
        theory: home_context(theory),
        history: seq!["created:infinity_cardinal"@],
        location: LocationContext::Local,
    })
}

/// Model of `Passport::ordinal_infinity`.
pub open spec fn ordinal_infinity_model(theory: Seq<char>) -> PassportV {
    (PassportV {
        ty: TypeKindV::Infinity { mode: InfinityMode::Ordinal },
        construction: ConstructionMode::Definable,
        capabilities: set![Capability::CanSymbolicPrint, Capability::CanSerializeForMigration, Capability::CanCompareByProof, Capability::CanOrdinalArithmetic],
        cost: CostClass::ProofRequired,
        trust: TrustLevel::Builtin,
        provenance: Provenance::BuiltinKnown,
        validation: ValidationState::StaticChecked,
        theory: home_context(theory),
        history: seq!["created:infinity_ordinal"@],
        location: LocationContext::Local,
    })
}

/// Model of `Passport::limit_infinity`.
pub open spec fn limit_infinity_model(theory: Seq<char>) -> PassportV {
    (PassportV {
        ty: TypeKindV::Infinity { mode: InfinityMode::Limit },
        construction: ConstructionMode::Definable,
        capabilities: set![Capability::CanSymbolicPrint, Capability::CanSerializeForMigration, Capability::CanCompareByProof, Capability::CanLimitReason],
        cost: CostClass::ProofRequired,
        trust: TrustLevel::Builtin,
        provenance: Provenance::BuiltinKnown,
        validation: ValidationState::StaticChecked,
        theory: home_context(theory),
        history: seq!["created:infinity_limit"@],
        location: LocationContext::Local,
    })
}

/// Model of `Passport::potential_infinity`.
pub open spec fn potential_infinity_model(theory: Seq<char>) -> PassportV {
    (PassportV {
        ty: TypeKindV::Infinity { mode: InfinityMode::Potential },
        construction: ConstructionMode::Definable,
        capabilities: set![Capability::CanSymbolicPrint, Capability::CanSerializeForMigration, Capability::CanCompareByProof, Capability::CanLimitReason],
        cost: CostClass::ProofRequired,
        trust: TrustLevel::Builtin,
        provenance: Provenance::BuiltinKnown,
        validation: ValidationState::StaticChecked,
        theory: home_context(theory),
        history: seq!["created:infinity_potential"@],
        location: LocationContext::Local,
    })
}

/// Model of `Passport::class_infinity`.
pub open spec fn class_infinity_model(theory: Seq<char>, source: PassportV) -> PassportV {
    (PassportV {
        ty: TypeKindV::Infinity { mode: InfinityMode::Class },
        construction: ConstructionMode::Definable,
        capabilities: set![Capability::CanSymbolicPrint, Capability::CanSerializeForMigration, Capability::CanCompareByProof, Capability::CanClassReason],
        cost: CostClass::ProofRequired,
        trust: source.trust.higher(TrustLevel::Builtin),
        provenance: source.provenance.higher(Provenance::BuiltinKnown),
        validation: source.validation,
        theory: home_context(theory),
        history: source.history.push("created:infinity_class"@),
        location: LocationContext::Local,
    })
}

/// Model of `Passport::universe_infinity`.
pub open spec fn universe_infinity_model(theory: Seq<char>, source: PassportV) -> PassportV {
    (PassportV {
        ty: TypeKindV::Infinity { mode: InfinityMode::Universe },
        construction: ConstructionMode::Definable,
        capabilities: set![Capability::CanSymbolicPrint, Capability::CanSerializeForMigration, Capability::CanCompareByProof, Capability::CanUniverseLevel],
        cost: CostClass::ProofRequired,
        trust: source.trust.higher(TrustLevel::Builtin),
        provenance: source.provenance.higher(Provenance::BuiltinKnown),
        validation: source.validation,
        theory: home_context(theory),
        history: source.history.push("created:infinity_universe"@),
        location: LocationContext::Local,
    })
}


/// Model of `Passport::universe_level_nat`.
pub open spec fn universe_level_nat_model(theory: Seq<char>, source: PassportV, event: Seq<char>) -> PassportV {
    (PassportV {
        ty: TypeKindV::Nat,
        construction: ConstructionMode::Definable,
        capabilities: set![Capability::CanAddAsNat, Capability::CanPrintDecimal, Capability::CanSymbolicPrint, Capability::CanCompareDirect, Capability::CanComputeModular, Capability::CanSerializeForMigration, Capability::CanCompilePortableCode, Capability::CanCompileGpuKernel],
        cost: CostClass::SmallFinite,
        trust: source.trust.higher(TrustLevel::Builtin),
        provenance: source.provenance.higher(Provenance::BuiltinKnown),
        validation: source.validation,
        theory: home_context(theory),
        history: source.history.push(event),
        location: LocationContext::Local,
    })
}

/// Model of `Passport::language`.
pub open spec fn language_model(theory: Seq<char>, name: Seq<char>) -> PassportV {
    (PassportV {
        ty: TypeKindV::Language { name: name },
        construction: ConstructionMode::Definable,
        capabilities: set![Capability::CanSymbolicPrint, Capability::CanDefineInLanguage],
        cost: CostClass::ProofRequired,
        trust: TrustLevel::Builtin,
        provenance: Provenance::BuiltinKnown,
        validation: ValidationState::StaticChecked,
        theory: home_context(theory),
        history: seq!["definability:language:"@ + name],
        location: LocationContext::Local,
    })
}

/// Model of `Passport::encoding`.
pub open spec fn encoding_model(theory: Seq<char>, name: Seq<char>) -> PassportV {
    (PassportV {
        ty: TypeKindV::Encoding { name: name },
        construction: ConstructionMode::Definable,
        capabilities: set![Capability::CanSymbolicPrint, Capability::CanUseEncoding],
        cost: CostClass::ProofRequired,
        trust: TrustLevel::Builtin,
        provenance: Provenance::BuiltinKnown,
        validation: ValidationState::StaticChecked,
        theory: home_context(theory),
        history: seq!["definability:encoding:"@ + name],
        location: LocationContext::Local,
    })
}

/// Model of `Passport::definability_resource_nat`.
pub open spec fn definability_resource_nat_model(theory: Seq<char>, source: PassportV, event: Seq<char>) -> PassportV {
    (PassportV {
        ty: TypeKindV::Nat,
        construction: ConstructionMode::Definable,
        capabilities: set![Capability::CanAddAsNat, Capability::CanPrintDecimal, Capability::CanSymbolicPrint, Capability::CanCompareDirect, Capability::CanComputeModular, Capability::CanSerializeForMigration, Capability::CanCompilePortableCode, Capability::CanCompileGpuKernel],
        cost: CostClass::SmallFinite,
        trust: source.trust.higher(TrustLevel::Builtin),
        provenance: source.provenance.higher(Provenance::BuiltinKnown),
        validation: source.validation,
        theory: home_context(theory),
        history: source.history.push(event),
        location: LocationContext::Local,
    })
}

/// Model of `Passport::axiom_bool`.
pub open spec fn axiom_bool_model(theory: Seq<char>) -> PassportV {
    (PassportV {
        ty: TypeKindV::Bool,
        construction: ConstructionMode::ProofFinite,
        capabilities: set![Capability::CanSymbolicPrint],
        cost: CostClass::ProofRequired,
        trust: TrustLevel::Axiom,
        provenance: Provenance::BuiltinKnown,
        validation: ValidationState::StaticChecked,
        theory: home_context(theory),
        history: seq!["axiom:bool"@],
        location: LocationContext::Local,
    })
}

/// Model of `Passport::axiom_nat`.
pub open spec fn axiom_nat_model(theory: Seq<char>) -> PassportV {
    (PassportV {
        ty: TypeKindV::Nat,
        construction: ConstructionMode::Definable,
        capabilities: set![Capability::CanAddAsNat, Capability::CanSymbolicPrint, Capability::CanSerializeForMigration, Capability::CanCompareByProof],
        cost: CostClass::ProofRequired,
        trust: TrustLevel::Axiom,
        provenance: Provenance::BuiltinKnown,
        validation: ValidationState::StaticChecked,
        theory: home_context(theory),
        history: seq!["axiom:nat"@],
        location: LocationContext::Local,
    })
}

/// Model of `Passport::unsafe_nat`.
pub open spec fn unsafe_nat_model(theory: Seq<char>) -> PassportV {
    (PassportV {
        ty: TypeKindV::Nat,
        construction: ConstructionMode::Unsafe,
        capabilities: set![Capability::CanAddAsNat, Capability::CanPrintDecimal, Capability::CanSymbolicPrint, Capability::CanSerializeForMigration, Capability::CanCompareDirect, Capability::CanComputeModular],
        cost: CostClass::UnsafeUnknown,
        trust: TrustLevel::Unsafe,
        provenance: Provenance::UnsafeExternal,
        validation: ValidationState::Assumed,
        theory: home_context(theory),
        history: seq!["unsafe:assumed_nat"@],
        location: LocationContext::Local,
    })
}

/// Model of `Passport::runtime_nat_from_input`.
pub open spec fn runtime_nat_from_input_model(theory: Seq<char>) -> PassportV {
    (PassportV {
        ty: TypeKindV::Nat,
        construction: ConstructionMode::External,
        capabilities: set![Capability::CanAddAsNat, Capability::CanPrintDecimal, Capability::CanSymbolicPrint, Capability::CanSerializeForMigration, Capability::CanCompareDirect, Capability::CanRuntimeCompare, Capability::CanComputeModular],
        cost: CostClass::SmallFinite,
        trust: TrustLevel::Checked,
        provenance: Provenance::RuntimeInput,
        validation: ValidationState::Parsed,
        theory: home_context(theory),
        history: seq!["runtime_input:read_nat"@],
        location: LocationContext::Local,
    })
}

/// Model of `Passport::runtime_witness`.
pub open spec fn runtime_witness_model(theory: Seq<char>, predicate: Seq<char>, source: PassportV) -> PassportV {
    (PassportV {
        ty: TypeKindV::RuntimeWitness(predicate),
        construction: ConstructionMode::External,
        capabilities: set![Capability::CanSymbolicPrint],
        cost: source.cost,
        trust: source.trust,
        provenance: source.provenance,
        validation: ValidationState::RuntimeChecked,
        theory: home_context(theory),
        history: source.history.push("runtime_witness:require"@),
        location: LocationContext::Local,
    })
}

/// Model of `Passport::static_proof`.
pub open spec fn static_proof_model(theory: Seq<char>, predicate: Seq<char>, source: PassportV) -> PassportV {
    (PassportV {
        ty: TypeKindV::StaticProof(predicate),
        construction: ConstructionMode::ProofFinite,
        capabilities: set![Capability::CanSymbolicPrint],
        cost: CostClass::ProofRequired,
        trust: source.trust,
        provenance: source.provenance,
        validation: ValidationState::StaticChecked,
        theory: home_context(theory),
        history: source.history.push("static_proof:prove"@),
        location: LocationContext::Local,
    })
}

/// Model of `Passport::provable_claim`.
pub open spec fn provable_claim_model(theory: Seq<char>, object_theory: Seq<char>, proposition: Seq<char>, source: PassportV) -> PassportV {
    (PassportV {
        ty: TypeKindV::Provable { object_theory: object_theory, proposition: proposition },
        construction: ConstructionMode::ProofFinite,
        capabilities: set![Capability::CanSymbolicPrint, Capability::CanProvabilityReason, Capability::CanExtractProvabilityTheory],
        cost: CostClass::ProofRequired,
        trust: source.trust.higher(TrustLevel::Builtin),
        provenance: source.provenance.higher(Provenance::BuiltinKnown),
        validation: ValidationState::StaticChecked,
        theory: home_context(theory),
        history: source.history.push("provability:of:"@ + object_theory + ":"@ + proposition),
        location: LocationContext::Local,
    })
}

/// Model of `Passport::provability_resource_nat`.
pub open spec fn provability_resource_nat_model(theory: Seq<char>, source: PassportV, event: Seq<char>) -> PassportV {
    (PassportV {
        ty: TypeKindV::Nat,
        construction: ConstructionMode::Definable,
        capabilities: set![Capability::CanAddAsNat, Capability::CanPrintDecimal, Capability::CanSymbolicPrint, Capability::CanCompareDirect, Capability::CanComputeModular, Capability::CanSerializeForMigration, Capability::CanCompilePortableCode, Capability::CanCompileGpuKernel],
        cost: CostClass::SmallFinite,
        trust: source.trust.higher(TrustLevel::Builtin),
        provenance: source.provenance.higher(Provenance::BuiltinKnown),
        validation: source.validation,
        theory: home_context(theory),
        history: source.history.push(event),
        location: LocationContext::Local,
    })
}

/// Model of `Passport::kernel_checked_proof`.
pub open spec fn kernel_checked_proof_model(theory: Seq<char>, predicate: Seq<char>, source: PassportV) -> PassportV {
    (PassportV {
        ty: TypeKindV::StaticProof(predicate),
        construction: ConstructionMode::ProofFinite,
        capabilities: set![Capability::CanSymbolicPrint],
        cost: CostClass::ProofRequired,
        trust: source.trust,
        provenance: source.provenance,
        validation: ValidationState::StaticChecked,
        theory: home_context(theory),
        history: source.history.push("proof_kernel:check"@),
        location: LocationContext::Local,
    })
}

/// Model of `Passport::axiom_truth_from_provable`.
pub open spec fn axiom_truth_from_provable_model(theory: Seq<char>, predicate: Seq<char>, source: PassportV) -> PassportV {
    (PassportV {
        ty: TypeKindV::StaticProof("truth_from_provable:"@ + predicate),
        construction: ConstructionMode::ProofFinite,
        capabilities: set![Capability::CanSymbolicPrint],
        cost: CostClass::ProofRequired,
        trust: source.trust.higher(TrustLevel::Axiom),
        provenance: source.provenance.higher(Provenance::BuiltinKnown),
        validation: ValidationState::StaticChecked,
        theory: home_context(theory),
        history: source.history.push("truth:from_provable_axiom"@),
        location: LocationContext::Local,
    })
}

/// Model of `Passport::reflection_claim`.
pub open spec fn reflection_claim_model(theory: Seq<char>, object_theory: Seq<char>, proposition: Seq<char>, source: PassportV) -> PassportV {
    (PassportV {
        ty: TypeKindV::ReflectionClaim { object_theory: object_theory, proposition: proposition },
        construction: ConstructionMode::ProofFinite,
        capabilities: set![Capability::CanSymbolicPrint, Capability::CanProvabilityReason, Capability::CanTruthBoundaryReason],
        cost: CostClass::ProofRequired,
        trust: source.trust.higher(TrustLevel::Builtin),
        provenance: source.provenance.higher(Provenance::BuiltinKnown),
        validation: ValidationState::StaticChecked,
        theory: home_context(theory),
        history: source.history.push("reflection:claim:"@ + object_theory + ":"@ + proposition),
        location: LocationContext::Local,
    })
}

/// Model of `Passport::axiom_reflection_proof`.
pub open spec fn axiom_reflection_proof_model(theory: Seq<char>, object_theory: Seq<char>, proposition: Seq<char>, source: PassportV) -> PassportV {
    (PassportV {
        ty: TypeKindV::StaticProof("reflection_axiom:"@ + object_theory + ":"@ + proposition),
        construction: ConstructionMode::ProofFinite,
        capabilities: set![Capability::CanSymbolicPrint],
        cost: CostClass::ProofRequired,
        trust: source.trust.higher(TrustLevel::Axiom),
        provenance: source.provenance.higher(Provenance::BuiltinKnown),
        validation: ValidationState::StaticChecked,
        theory: home_context(theory),
        history: source.history.push("reflection:axiom:"@ + object_theory + ":"@ + proposition),
        location: LocationContext::Local,
    })
}

/// Model of `Passport::axiom_self_reference_proof`.
pub open spec fn axiom_self_reference_proof_model(theory: Seq<char>, proposition: Seq<char>, source: PassportV) -> PassportV {
    (PassportV {
        ty: TypeKindV::StaticProof("self_reference_axiom:"@ + proposition),
        construction: ConstructionMode::ProofFinite,
        capabilities: set![Capability::CanSymbolicPrint],
        cost: CostClass::ProofRequired,
        trust: source.trust.higher(TrustLevel::Axiom),
        provenance: source.provenance.higher(Provenance::BuiltinKnown),
        validation: ValidationState::StaticChecked,
        theory: home_context(theory),
        history: source.history.push("self_reference:axiom:"@ + proposition),
        location: LocationContext::Local,
    })
}

/// Model of `Passport::axiom_consistency_proof`.
pub open spec fn axiom_consistency_proof_model(theory: Seq<char>, target_theory: Seq<char>, source: PassportV) -> PassportV {
    (PassportV {
        ty: TypeKindV::StaticProof("consistency_axiom:"@ + target_theory),
        construction: ConstructionMode::ProofFinite,
        capabilities: set![Capability::CanSymbolicPrint],
        cost: CostClass::ProofRequired,
        trust: source.trust.higher(TrustLevel::Axiom),
        provenance: source.provenance.higher(Provenance::BuiltinKnown),
        validation: ValidationState::StaticChecked,
        theory: home_context(theory),
        history: source.history.push("consistency:axiom:"@ + target_theory),
        location: LocationContext::Local,
    })
}

/// Model of `Passport::raw_external_bytes`.
pub open spec fn raw_external_bytes_model(theory: Seq<char>) -> PassportV {
    (PassportV {
        ty: TypeKindV::Bytes,
        construction: ConstructionMode::External,
        capabilities: set![Capability::CanParse],
        cost: CostClass::SmallFinite,
        trust: TrustLevel::Checked,
        provenance: Provenance::RuntimeInput,
        validation: ValidationState::Raw,
        theory: home_context(theory),
        history: seq!["runtime_input:raw_bytes"@],
        location: LocationContext::Local,
    })
}

/// Model of `Passport::cluster_resource_nat`.
pub open spec fn cluster_resource_nat_model(theory: Seq<char>, source: PassportV, event: Seq<char>) -> PassportV {
    (PassportV {
        ty: TypeKindV::Nat,
        construction: ConstructionMode::Definable,
        capabilities: set![Capability::CanAddAsNat, Capability::CanPrintDecimal, Capability::CanSymbolicPrint, Capability::CanCompareDirect, Capability::CanComputeModular],
        cost: CostClass::SmallFinite,
        trust: source.trust,
        provenance: source.provenance,
        validation: source.validation,
        theory: home_context(theory),
        history: source.history.push(event),
        location: LocationContext::Local,
    })
}

/// Model of `Passport::distributed_memory_region`.
pub open spec fn distributed_memory_region_model(theory: Seq<char>, pool: PassportV, memory_mib: u128) -> PassportV {
    (PassportV {
        ty: TypeKindV::DistributedMemory { memory_mib: Some(memory_mib) },
        construction: ConstructionMode::Definable,
        capabilities: set![Capability::CanSymbolicPrint, Capability::CanUseDistributedMemory, Capability::CanCheckpointMemory],
        cost: pool.cost.higher(CostClass::SmallFinite),
        trust: pool.trust,
        provenance: pool.provenance,
        validation: pool.validation,
        theory: home_context(theory),
        history: pool.history.push("memory:distributed_region:"@ + dec_text(memory_mib as nat) + "MiB"@),
        location: LocationContext::Local,
    })
}

/// Model of `Passport::memory_region_resource_nat`.
pub open spec fn memory_region_resource_nat_model(theory: Seq<char>, source: PassportV, event: Seq<char>) -> PassportV {
    (PassportV {
        ty: TypeKindV::Nat,
        construction: ConstructionMode::Definable,
        capabilities: set![Capability::CanAddAsNat, Capability::CanPrintDecimal, Capability::CanSymbolicPrint, Capability::CanCompareDirect, Capability::CanComputeModular],
        cost: CostClass::SmallFinite,
        trust: source.trust,
        provenance: source.provenance,
        validation: source.validation,
        theory: home_context(theory),
        history: source.history.push(event),
        location: LocationContext::Local,
    })
}

/// Model of `Passport::distributed_gpu_memory_region`.
pub open spec fn distributed_gpu_memory_region_model(theory: Seq<char>, pool: PassportV, memory_mib: u128) -> PassportV {
    (PassportV {
        ty: TypeKindV::DistributedGpuMemory { memory_mib: Some(memory_mib) },
        construction: ConstructionMode::Definable,
        capabilities: set![Capability::CanSymbolicPrint, Capability::CanUseGpuMemory, Capability::CanCheckpointGpuMemory, Capability::CanLaunchGpuKernel, Capability::CanCopyCpuToGpu, Capability::CanCopyGpuToCpu, Capability::CanGpuPeerTransfer],
        cost: CostClass::SmallFinite,
        trust: pool.trust,
        provenance: pool.provenance,
        validation: pool.validation,
        theory: home_context(theory),
        history: pool.history.push("gpu_memory:distributed_region:"@ + dec_text(memory_mib as nat) + "MiB"@),
        location: LocationContext::Local,
    })
}

/// Model of `Passport::gpu_memory_resource_nat`.
pub open spec fn gpu_memory_resource_nat_model(theory: Seq<char>, source: PassportV, event: Seq<char>) -> PassportV {
    (PassportV {
        ty: TypeKindV::Nat,
        construction: ConstructionMode::Definable,
        capabilities: set![Capability::CanAddAsNat, Capability::CanPrintDecimal, Capability::CanSymbolicPrint, Capability::CanCompareDirect, Capability::CanComputeModular],
        cost: CostClass::SmallFinite,
        trust: source.trust,
        provenance: source.provenance,
        validation: source.validation,
        theory: home_context(theory),
        history: source.history.push(event),
        location: LocationContext::Local,
    })
}

/// Model of `Passport::gpu_kernel`.
pub open spec fn gpu_kernel_model(theory: Seq<char>, source: PassportV) -> PassportV {
    (PassportV {
        ty: TypeKindV::GpuKernel { inner: Box::new(source.ty) },
        construction: source.construction,
        capabilities: set![Capability::CanSymbolicPrint, Capability::CanLaunchGpuKernel, Capability::CanCrossArchPortable],
        cost: source.cost.higher(CostClass::SmallFinite),
        trust: source.trust,
        provenance: source.provenance,
        validation: source.validation,
        theory: home_context(theory),
        history: source.history.push("gpu_kernel:compile"@),
        location: LocationContext::Local,
    })
}

/// Model of `Passport::gpu_value`.
pub open spec fn gpu_value_model(theory: Seq<char>, source: PassportV, region: PassportV) -> PassportV {
    (PassportV {
        ty: TypeKindV::GpuValue { inner: Box::new(source.ty) },
        construction: source.construction,
        capabilities: set![Capability::CanSymbolicPrint, Capability::CanCopyGpuToCpu, Capability::CanGpuPeerTransfer],
        cost: source.cost.higher(region.cost).higher(CostClass::SmallFinite),
        trust: source.trust.higher(region.trust),
        provenance: source.provenance.higher(region.provenance),
        validation: source.validation.higher(region.validation),
        theory: home_context(theory),
        history: (source.history + region.history).push("copy:cpu_to_gpu"@),
        location: LocationContext::Local,
    })
}

/// Model of `Passport::portable_code`.
pub open spec fn portable_code_model(theory: Seq<char>, source: PassportV) -> PassportV {
    (PassportV {
        ty: TypeKindV::PortableCode { inner: Box::new(source.ty) },
        construction: source.construction.higher(ConstructionMode::Definable),
        capabilities: set![Capability::CanSymbolicPrint, Capability::CanDeployPortableCode, Capability::CanCrossArchPortable],
        cost: source.cost.higher(CostClass::SmallFinite),
        trust: source.trust,
        provenance: source.provenance,
        validation: source.validation,
        theory: home_context(theory),
        history: source.history.push("portable:compile"@),
        location: LocationContext::Local,
    })
}

/// Model of `Passport::infinity_succ_result`.
pub open spec fn infinity_succ_result_model(source: PassportV, theory: Seq<char>) -> PassportV {
    (PassportV {
        ty: source.ty,
        construction: source.construction,
        capabilities: source.capabilities,
        cost: source.cost,
        trust: source.trust,
        provenance: source.provenance,
        validation: source.validation,
        theory: home_context(theory),
        history: source.history.push("derived:infinity_succ"@),
        location: LocationContext::Local,
    })
}

/// Model of `Passport::add_result`.
pub open spec fn add_result_model(lhs: PassportV, rhs: PassportV, theory: Seq<char>) -> PassportV {
    (PassportV {
        ty: TypeKindV::Nat,
        construction: lhs.construction.higher(rhs.construction),
        capabilities: lhs.capabilities.intersect(rhs.capabilities),
        cost: lhs.cost.higher(rhs.cost),
        trust: lhs.trust.higher(rhs.trust),
        provenance: lhs.provenance.higher(rhs.provenance),
        validation: lhs.validation.higher(rhs.validation),
        theory: home_context(theory),
        history: (lhs.history + rhs.history).push("derived:add"@),
        location: LocationContext::Local,
    })
}

/// Model of `Passport::infinity_binary_result`.
pub open spec fn infinity_binary_result_model(lhs: PassportV, rhs: PassportV, theory: Seq<char>, event: Seq<char>) -> PassportV {
    (PassportV {
        ty: lhs.ty,
        construction: lhs.construction.higher(rhs.construction),
        capabilities: lhs.capabilities.intersect(rhs.capabilities),
        cost: lhs.cost.higher(rhs.cost),
        trust: lhs.trust.higher(rhs.trust),
        provenance: lhs.provenance.higher(rhs.provenance),
        validation: lhs.validation.higher(rhs.validation),
        theory: home_context(theory),
        history: (lhs.history + rhs.history).push(event),
        location: LocationContext::Local,
    })
}

/// Model of `Passport::universe_succ`.
pub open spec fn universe_succ_model(source: PassportV, theory: Seq<char>) -> PassportV {
    ({
        let next: u8 = match source.ty {
            TypeKindV::Universe { level } => if level == 255 { 255u8 } else { (level + 1) as u8 },
            _ => 0u8,
        };
        (PassportV {
            trust: source.trust.higher(TrustLevel::Builtin),
            history: source.history.push("universe:succ:U"@ + dec_text(next as nat)),
            ..universe_model(theory, next)
        })
    })
}

/// Model of `Passport::set_of_universe`.
pub open spec fn set_of_universe_model(source: PassportV, theory: Seq<char>) -> PassportV {
    ({
        let (of_level, lives_in): (u8, u8) = match source.ty {
            TypeKindV::Universe { level } => (level, if level == 255 { 255u8 } else { (level + 1) as u8 }),
            _ => (0u8, 1u8),
        };
        (PassportV {
            ty: TypeKindV::SetType { of_level, lives_in },
            construction: ConstructionMode::Definable,
            capabilities: set![Capability::CanSymbolicPrint, Capability::CanCompareByProof, Capability::CanSetReason],
            cost: CostClass::ProofRequired,
            trust: source.trust.higher(TrustLevel::Builtin),
            provenance: source.provenance.higher(Provenance::BuiltinKnown),
            validation: source.validation,
            theory: home_context(theory),
            history: source.history.push("set:of:U"@ + dec_text(of_level as nat) + ":lives_in:U"@ + dec_text(lives_in as nat)),
            location: LocationContext::Local,
        })
    })
}

/// Model of `Passport::class_of_universe`.
pub open spec fn class_of_universe_model(source: PassportV, theory: Seq<char>) -> PassportV {
    ({
        let of_level: u8 = match source.ty {
            TypeKindV::Universe { level } => level,
            _ => 0u8,
        };
        (PassportV {
            ty: TypeKindV::Class { of_level },
            construction: ConstructionMode::Definable,
            capabilities: set![Capability::CanSymbolicPrint, Capability::CanCompareByProof, Capability::CanClassReason],
            cost: CostClass::ProofRequired,
            trust: source.trust.higher(TrustLevel::Builtin),
            provenance: source.provenance.higher(Provenance::BuiltinKnown),
            validation: source.validation,
            theory: home_context(theory),
            history: source.history.push("class:of:U"@ + dec_text(of_level as nat)),
            location: LocationContext::Local,
        })
    })
}

/// Model of `Passport::meta_level`.
pub open spec fn meta_level_model(theory: Seq<char>, level: u8, source_history: Option<Seq<Seq<char>>>) -> PassportV {
    ({
        let ev = "definability:meta_level:M"@ + dec_text(level as nat);
        (PassportV {
            ty: TypeKindV::MetaLevel { level },
            construction: ConstructionMode::Definable,
            capabilities: set![Capability::CanSymbolicPrint, Capability::CanMetaLevelReason],
            cost: CostClass::ProofRequired,
            trust: TrustLevel::Builtin,
            provenance: Provenance::BuiltinKnown,
            validation: ValidationState::StaticChecked,
            theory: home_context(theory),
            history: match source_history {
                Some(h) => h.push(ev),
                None => seq![ev],
            },
            location: LocationContext::Local,
        })
    })
}

/// Model of `Passport::definable_nat`.
pub open spec fn definable_nat_model(theory: Seq<char>, language: PassportV, encoding: PassportV, bound: u128, meta: PassportV) -> PassportV {
    ({
        let language_name = match language.ty {
            TypeKindV::Language { name } => name,
            _ => "unknown_language"@,
        };
        let encoding_name = match encoding.ty {
            TypeKindV::Encoding { name } => name,
            _ => "unknown_encoding"@,
        };
        let meta_level: u8 = match meta.ty {
            TypeKindV::MetaLevel { level } => level,
            _ => 0u8,
        };
        (PassportV {
            ty: TypeKindV::DefinableNat {
                language: language_name,
                encoding: encoding_name,
                object_theory: theory,
                bound,
                meta_level,
            },
            construction: ConstructionMode::Definable,
            capabilities: set![
                Capability::CanSymbolicPrint,
                Capability::CanCompareByProof,
                Capability::CanDefinabilityReason,
                Capability::CanExtractDefinabilityBound,
                Capability::CanExtractDefinabilityMeta
            ],
            cost: CostClass::ProofRequired,
            trust: language.trust.higher(encoding.trust).higher(meta.trust).higher(TrustLevel::Builtin),
            provenance: language.provenance.higher(encoding.provenance).higher(meta.provenance).higher(Provenance::BuiltinKnown),
            validation: language.validation.higher(encoding.validation).higher(meta.validation),
            theory: home_context(theory),
            history: (language.history + encoding.history + meta.history).push(
                "definability:definable_nat:"@ + language_name + ":"@ + encoding_name + ":bound:"@
                    + dec_text(bound as nat) + ":M"@ + dec_text(meta_level as nat),
            ),
            location: LocationContext::Local,
        })
    })
}

/// Model of `Passport::proposition`.
pub open spec fn proposition_model(theory: Seq<char>, name: Seq<char>, source: Option<PassportV>, event: Seq<char>) -> PassportV {
    (PassportV {
        ty: TypeKindV::Prop { name: name },
        construction: ConstructionMode::ProofFinite,
        capabilities: set![Capability::CanSymbolicPrint, Capability::CanCompareByProof, Capability::CanPropositionReason],
        cost: CostClass::ProofRequired,
        ..derived_or_builtin(theory, source, event)
    })
}

/// Model of `Passport::self_reference_claim`.
pub open spec fn self_reference_claim_model(theory: Seq<char>, proposition: Seq<char>, source: Option<PassportV>, event: Seq<char>) -> PassportV {
    (PassportV {
        ty: TypeKindV::SelfReferenceClaim { proposition: proposition },
        construction: ConstructionMode::ProofFinite,
        capabilities: set![Capability::CanSymbolicPrint, Capability::CanPropositionReason, Capability::CanTruthBoundaryReason],
        cost: CostClass::ProofRequired,
        ..derived_or_builtin(theory, source, event)
    })
}

/// Model of `Passport::consistency_claim`.
pub open spec fn consistency_claim_model(theory: Seq<char>, target_theory: Seq<char>, source: Option<PassportV>) -> PassportV {
    (PassportV {
        ty: TypeKindV::ConsistencyClaim { theory: target_theory },
        construction: ConstructionMode::ProofFinite,
        capabilities: set![Capability::CanSymbolicPrint, Capability::CanConsistencyReason, Capability::CanIncompletenessReason],
        cost: CostClass::ProofRequired,
        ..derived_or_builtin(theory, source, "consistency:claim:"@ + target_theory)
    })
}

/// Model of `Passport::proof_term`.
pub open spec fn proof_term_model(theory: Seq<char>, rule: Seq<char>, source: Option<PassportV>) -> PassportV {
    ({
        let ev = "proof_kernel:term:"@ + rule;
        (PassportV {
            ty: TypeKindV::ProofTerm { rule: rule },
            construction: ConstructionMode::ProofFinite,
            capabilities: set![Capability::CanSymbolicPrint, Capability::CanProofKernelCheck],
            cost: CostClass::ProofRequired,
            trust: match source { Some(s) => s.trust, None => TrustLevel::Checked },
            provenance: match source { Some(s) => s.provenance, None => Provenance::InternalDerived },
            validation: match source { Some(s) => s.validation, None => ValidationState::StaticChecked },
            theory: home_context(theory),
            history: match source { Some(s) => s.history.push(ev), None => seq![ev] },
            location: LocationContext::Local,
        })
    })
}

/// Model of `Passport::term_of`.
pub open spec fn term_of_model(theory: Seq<char>, source_theory: Seq<char>, source_type: Seq<char>, bridge_name: Seq<char>, source: PassportV) -> PassportV {
    (PassportV {
        ty: TypeKindV::Term { of_theory: source_theory, of_type: source_type },
        construction: ConstructionMode::Literal,
        capabilities: set![Capability::CanInspectAst, Capability::CanCompareSyntax, Capability::CanSymbolicPrint],
        cost: CostClass::SmallFinite,
        trust: source.trust.higher(TrustLevel::Builtin),
        provenance: Provenance::InternalDerived,
        validation: ValidationState::StaticChecked,
        theory: TheoryContextV {
            home: source_theory,
            valid_in: set![source_theory].insert(theory),
            bridge_trace: seq![bridge_name],
        },
        history: source.history.push("bridge:quote:"@ + bridge_name),
        location: LocationContext::Local,
    })
}

/// Model of `Passport::transported_to`.
pub open spec fn transported_to_model(this: PassportV, target_theory: Seq<char>, bridge_name: Seq<char>) -> PassportV {
    (PassportV {
        theory: TheoryContextV {
            home: target_theory,
            valid_in: this.theory.valid_in.insert(this.theory.home).insert(target_theory),
            bridge_trace: this.theory.bridge_trace.push(bridge_name),
        },
        history: this.history.push("bridge:transport:"@ + bridge_name),
        ..this
    })
}

/// Model of `Passport::soundness_proof`.
pub open spec fn soundness_proof_model(theory: Seq<char>, predicate: Seq<char>, source: PassportV, bridge_name: Seq<char>) -> PassportV {
    (PassportV {
        ty: TypeKindV::StaticProof(predicate),
        construction: ConstructionMode::ProofFinite,
        capabilities: set![Capability::CanSymbolicPrint],
        cost: CostClass::ProofRequired,
        trust: source.trust.higher(TrustLevel::Axiom),
        provenance: source.provenance,
        validation: ValidationState::StaticChecked,
        theory: TheoryContextV {
            home: theory,
            valid_in: set![theory].insert(source.theory.home),
            bridge_trace: seq![bridge_name],
        },
        history: source.history.push("bridge:soundness:"@ + bridge_name).push("axiom:soundness_assumption"@),
        location: LocationContext::Local,
    })
}

/// Model of `Passport::virtual_cluster`.
pub open spec fn virtual_cluster_model(theory: Seq<char>, nodes: Seq<PassportV>) -> PassportV {
    (PassportV {
        ty: TypeKindV::VirtualCluster,
        construction: ConstructionMode::Definable,
        capabilities: set![
            Capability::CanHostRuntime,
            Capability::CanSymbolicPrint,
            Capability::CanVirtualizeCores,
            Capability::CanVirtualizeMemory,
            Capability::CanScheduleRuntime,
            Capability::CanAllocateDistributedMemory
        ],
        cost: CostClass::SmallFinite,
        trust: max_trust_of(nodes, TrustLevel::Builtin).higher(TrustLevel::Builtin),
        provenance: Provenance::InternalDerived,
        validation: ValidationState::StaticChecked,
        theory: home_context(theory),
        history: concat_histories(nodes.map_values(|p: PassportV| p.history)).push("cluster:virtual_pool"@),
        location: LocationContext::Local,
    })
}

/// Model of `Passport::memory_checkpoint`.
pub open spec fn memory_checkpoint_model(theory: Seq<char>, source: PassportV) -> PassportV {
    (PassportV {
        ty: TypeKindV::MemoryCheckpoint {
            memory_mib: match source.ty {
                TypeKindV::DistributedMemory { memory_mib } => memory_mib,
                _ => None,
            },
        },
        construction: ConstructionMode::Definable,
        capabilities: set![Capability::CanSymbolicPrint, Capability::CanRestoreCheckpoint],
        cost: source.cost.higher(CostClass::SmallFinite),
        trust: source.trust,
        provenance: source.provenance,
        validation: source.validation,
        theory: home_context(theory),
        history: source.history.push("checkpoint:memory"@),
        location: LocationContext::Local,
    })
}

/// Model of `Passport::restored_memory_region`.
pub open spec fn restored_memory_region_model(theory: Seq<char>, source: PassportV) -> PassportV {
    (PassportV {
        ty: TypeKindV::DistributedMemory {
            memory_mib: match source.ty {
                TypeKindV::MemoryCheckpoint { memory_mib } => memory_mib,
                _ => None,
            },
        },
        construction: ConstructionMode::Definable,
        capabilities: set![Capability::CanSymbolicPrint, Capability::CanUseDistributedMemory, Capability::CanCheckpointMemory],
        cost: source.cost.higher(CostClass::SmallFinite),
        trust: source.trust,
        provenance: source.provenance,
        validation: source.validation,
        theory: home_context(theory),
        history: source.history.push("checkpoint:restore_memory"@),
        location: LocationContext::Local,
    })
}

/// Model of `Passport::migrated_to`.
pub open spec fn migrated_to_model(this: PassportV, target_theory: Seq<char>, target_arch: NodeArch, bridge_name: Seq<char>) -> PassportV {
    (PassportV {
        ty: TypeKindV::Remote { inner: Box::new(this.ty), target_arch },
        construction: this.construction,
        capabilities: remote_caps(),
        cost: this.cost.higher(CostClass::SmallFinite),
        trust: this.trust,
        provenance: this.provenance,
        validation: this.validation,
        theory: TheoryContextV {
            home: target_theory,
            valid_in: set![target_theory].insert(this.theory.home),
            bridge_trace: seq![bridge_name],
        },
        history: this.history.push("migration:"@ + bridge_name + ":to:"@ + target_arch.display_text()),
        location: LocationContext::Remote { arch: target_arch },
    })
}

/// Model of `Passport::scheduled_to`.
pub open spec fn scheduled_to_model(this: PassportV, target_theory: Seq<char>, target_arch: NodeArch, bridge_name: Seq<char>, pool: PassportV, target: PassportV) -> PassportV {
    (PassportV {
        ty: TypeKindV::Remote { inner: Box::new(this.ty), target_arch },
        construction: this.construction,
        capabilities: remote_caps(),
        cost: this.cost.higher(pool.cost).higher(target.cost).higher(CostClass::SmallFinite),
        trust: this.trust.higher(pool.trust).higher(target.trust),
        provenance: this.provenance.higher(pool.provenance).higher(target.provenance),
        validation: this.validation.higher(pool.validation).higher(target.validation),
        theory: TheoryContextV {
            home: target_theory,
            valid_in: set![target_theory].insert(this.theory.home),
            bridge_trace: if bridge_name == "local_schedule"@ { Seq::empty() } else { seq![bridge_name] },
        },
        history: (pool.history + target.history + this.history).push(
            "cluster:schedule:"@ + bridge_name + ":to:"@ + target_arch.display_text(),
        ),
        location: LocationContext::Remote { arch: target_arch },
    })
}

/// Model of `Passport::deployed_portable_code`.
pub open spec fn deployed_portable_code_model(theory: Seq<char>, code: PassportV, target: PassportV, target_arch: NodeArch, event: Seq<char>) -> PassportV {
    (PassportV {
        ty: TypeKindV::Remote {
            inner: Box::new(match code.ty {
                TypeKindV::PortableCode { inner } => *inner,
                _ => TypeKindV::Unknown("PortableCodeInner"@),
            }),
            target_arch,
        },
        construction: code.construction,
        capabilities: remote_caps(),
        cost: code.cost.higher(target.cost).higher(CostClass::SmallFinite),
        trust: code.trust.higher(target.trust),
        provenance: code.provenance.higher(target.provenance),
        validation: code.validation.higher(target.validation),
        theory: home_context(theory),
        history: (code.history + target.history).push(event),
        location: LocationContext::Remote { arch: target_arch },
    })
}

/// Model of `Passport::remote_checkpoint`.
pub open spec fn remote_checkpoint_model(theory: Seq<char>, source: PassportV) -> PassportV {
    (PassportV {
        ty: match source.ty {
            TypeKindV::Remote { inner, target_arch } => TypeKindV::RemoteCheckpoint { inner, source_arch: target_arch },
            _ => TypeKindV::RemoteCheckpoint {
                inner: Box::new(TypeKindV::Unknown("RemoteCheckpointSource"@)),
                source_arch: NodeArch::X86_64,
            },
        },
        construction: source.construction,
        capabilities: set![Capability::CanSymbolicPrint, Capability::CanRestoreRemoteCheckpoint, Capability::CanCrossArchPortable],
        cost: source.cost.higher(CostClass::SmallFinite),
        trust: source.trust,
        provenance: source.provenance,
        validation: source.validation,
        theory: home_context(theory),
        history: source.history.push("checkpoint:remote"@),
        location: LocationContext::Local,
    })
}

/// Model of `Passport::restored_remote`.
pub open spec fn restored_remote_model(theory: Seq<char>, checkpoint: PassportV, target: PassportV, target_arch: NodeArch) -> PassportV {
    (PassportV {
        ty: TypeKindV::Remote {
            inner: Box::new(match checkpoint.ty {
                TypeKindV::RemoteCheckpoint { inner, .. } => *inner,
                _ => TypeKindV::Unknown("RemoteCheckpointInner"@),
            }),
            target_arch,
        },
        construction: checkpoint.construction,
        capabilities: remote_caps(),
        cost: checkpoint.cost.higher(target.cost).higher(CostClass::SmallFinite),
        trust: checkpoint.trust.higher(target.trust),
        provenance: checkpoint.provenance.higher(target.provenance),
        validation: checkpoint.validation.higher(target.validation),
        theory: home_context(theory),
        history: (checkpoint.history + target.history).push("checkpoint:restore_remote:to:"@ + target_arch.display_text()),
        location: LocationContext::Remote { arch: target_arch },
    })
}

/// Model of `Passport::live_migrated_remote`.
pub open spec fn live_migrated_remote_model(theory: Seq<char>, source: PassportV, target: PassportV, target_arch: NodeArch) -> PassportV {
    (PassportV {
        ty: TypeKindV::Remote {
            inner: Box::new(remote_inner(source.ty)),
            target_arch,
        },
        construction: source.construction,
        capabilities: remote_caps(),
        cost: source.cost.higher(target.cost).higher(CostClass::SmallFinite),
        trust: source.trust.higher(target.trust),
        provenance: source.provenance.higher(target.provenance),
        validation: source.validation.higher(target.validation),
        theory: home_context(theory),
        history: (source.history + target.history).push("migration:live_remote:to:"@ + target_arch.display_text()),
        location: LocationContext::Remote { arch: target_arch },
    })
}

/// Model of `Passport::materialized_remote`.
pub open spec fn materialized_remote_model(theory: Seq<char>, source: PassportV, bridge_name: Seq<char>) -> PassportV {
    (PassportV {
        ty: remote_inner(source.ty),
        construction: source.construction,
        capabilities: materialized_caps(remote_inner(source.ty), source.construction, source.cost),
        cost: source.cost.higher(CostClass::SmallFinite),
        trust: source.trust,
        provenance: source.provenance,
        validation: source.validation,
        theory: home_context(theory),
        history: source.history.push(
            if bridge_name == "local_materialize"@ { "remote:materialize:local"@ } else { "remote:materialize:"@ + bridge_name },
        ),
        location: LocationContext::Local,
    })
}

/// Model of `Passport::gpu_device_with`.
pub open spec fn gpu_device_with_model(theory: Seq<char>, backend: GpuBackend, memory_mib: Option<u128>) -> PassportV {
    (PassportV {
        ty: TypeKindV::GpuDevice { backend },
        construction: ConstructionMode::Definable,
        capabilities: set![
            Capability::CanSymbolicPrint,
            Capability::CanHostGpuRuntime,
            Capability::CanAcceptMigration,
            Capability::CanAllocateGpuMemory,
            Capability::CanGpuPeerTransfer,
            Capability::CanGpuUnifiedAddressing
        ],
        cost: CostClass::SmallFinite,
        trust: TrustLevel::Builtin,
        provenance: Provenance::BuiltinKnown,
        validation: ValidationState::StaticChecked,
        theory: home_context(theory),
        history: seq!["gpu:"@ + backend.display_text()] + match memory_mib {
            Some(m) => seq!["gpu_resource:memory_mib:"@ + dec_text(m as nat)],
            None => Seq::empty(),
        },
        location: LocationContext::Local,
    })
}

/// Model of `Passport::gpu_pool`.
pub open spec fn gpu_pool_model(theory: Seq<char>, devices: Seq<PassportV>) -> PassportV {
    (PassportV {
        ty: TypeKindV::GpuPool,
        construction: ConstructionMode::Definable,
        capabilities: set![
            Capability::CanSymbolicPrint,
            Capability::CanHostGpuRuntime,
            Capability::CanAllocateGpuMemory,
            Capability::CanGpuPeerTransfer,
            Capability::CanGpuUnifiedAddressing,
            Capability::CanLaunchGpuKernel
        ],
        cost: CostClass::SmallFinite,
        trust: max_trust_of(devices, TrustLevel::Builtin),
        provenance: max_provenance_of(devices, Provenance::BuiltinKnown),
        validation: max_validation_of(devices, ValidationState::StaticChecked),
        theory: home_context(theory),
        history: concat_histories(devices.map_values(|p: PassportV| p.history)).push("gpu_pool:create"@),
        location: LocationContext::Local,
    })
}

/// Model of `Passport::launched_gpu_kernel`.
pub open spec fn launched_gpu_kernel_model(theory: Seq<char>, region: PassportV, kernel: PassportV) -> PassportV {
    (PassportV {
        ty: TypeKindV::GpuValue {
            inner: Box::new(match kernel.ty {
                TypeKindV::GpuKernel { inner } => *inner,
                _ => TypeKindV::Unknown("GpuKernelInner"@),
            }),
        },
        construction: kernel.construction,
        capabilities: set![Capability::CanSymbolicPrint, Capability::CanCopyGpuToCpu, Capability::CanGpuPeerTransfer],
        cost: kernel.cost.higher(region.cost).higher(CostClass::SmallFinite),
        trust: kernel.trust.higher(region.trust),
        provenance: kernel.provenance.higher(region.provenance),
        validation: kernel.validation.higher(region.validation),
        theory: home_context(theory),
        history: (region.history + kernel.history).push("gpu_kernel:launch"@),
        location: LocationContext::Local,
    })
}

/// Model of `Passport::copied_from_gpu`.
pub open spec fn copied_from_gpu_model(theory: Seq<char>, source: PassportV) -> PassportV {
    ({
        let inner = match source.ty {
            TypeKindV::GpuValue { inner } => *inner,
            _ => TypeKindV::Unknown("GpuValueInner"@),
        };
        (PassportV {
            ty: inner,
            construction: source.construction,
            capabilities: materialized_caps(inner, source.construction, source.cost),
            cost: source.cost.higher(CostClass::SmallFinite),
            trust: source.trust,
            provenance: source.provenance,
            validation: source.validation,
            theory: home_context(theory),
            history: source.history.push("copy:gpu_to_cpu"@),
            location: LocationContext::Local,
        })
    })
}

/// `p` is at least as tainted as `source`: its trust is not lower.
pub open spec fn keeps_taint_of(p: PassportV, source: PassportV) -> bool {
    p.trust.rank() >= source.trust.rank()
}

/// `p` is at least as tainted as an optional source.
pub open spec fn keeps_taint_of_opt(p: PassportV, source: Option<PassportV>) -> bool {
    match source {
        Some(s) => keeps_taint_of(p, s),
        None => true,
    }
}

proof fn lemma_max_trust_of_bounds(items: Seq<PassportV>, default: TrustLevel)
    ensures
        forall|k: int| 0 <= k < items.len() ==> max_trust_of(items, default).rank() >= (#[trigger] items[k]).trust.rank(),
    decreases items.len(),
{
    if items.len() > 1 {
        lemma_max_trust_of_bounds(items.drop_last(), default);
        assert forall|k: int| 0 <= k < items.len() implies max_trust_of(items, default).rank() >= (#[trigger] items[k]).trust.rank() by {
            if k < items.len() - 1 {
                assert(items[k] == items.drop_last()[k]);
            }
        }
    }
}

/// No constructor that builds a passport from other passports lowers taint:
/// the result's trust is never below the trust of any passport it is built from.
pub proof fn lemma_constructors_keep_taint(
    theory: Seq<char>,
    text: Seq<char>,
    other: Seq<char>,
    a: PassportV,
    b: PassportV,
    c: PassportV,
    o: Option<PassportV>,
    n: u128,
    arch: NodeArch,
    items: Seq<PassportV>,
)
    ensures
        keeps_taint_of(big_number_resource_nat_model(theory, a, text), a),
        keeps_taint_of(class_infinity_model(theory, a), a),
        keeps_taint_of(universe_infinity_model(theory, a), a),
        keeps_taint_of(universe_level_nat_model(theory, a, text), a),
        keeps_taint_of(definability_resource_nat_model(theory, a, text), a),
        keeps_taint_of(runtime_witness_model(theory, text, a), a),
        keeps_taint_of(static_proof_model(theory, text, a), a),
        keeps_taint_of(provable_claim_model(theory, text, other, a), a),
        keeps_taint_of(provability_resource_nat_model(theory, a, text), a),
        keeps_taint_of(kernel_checked_proof_model(theory, text, a), a),
        keeps_taint_of(axiom_truth_from_provable_model(theory, text, a), a),
        keeps_taint_of(reflection_claim_model(theory, text, other, a), a),
        keeps_taint_of(axiom_reflection_proof_model(theory, text, other, a), a),
        keeps_taint_of(axiom_self_reference_proof_model(theory, text, a), a),
        keeps_taint_of(axiom_consistency_proof_model(theory, text, a), a),
        keeps_taint_of(cluster_resource_nat_model(theory, a, text), a),
        keeps_taint_of(distributed_memory_region_model(theory, a, n), a),
        keeps_taint_of(memory_region_resource_nat_model(theory, a, text), a),
        keeps_taint_of(distributed_gpu_memory_region_model(theory, a, n), a),
        keeps_taint_of(gpu_memory_resource_nat_model(theory, a, text), a),
        keeps_taint_of(gpu_kernel_model(theory, a), a),
        keeps_taint_of(gpu_value_model(theory, a, b), a) && keeps_taint_of(gpu_value_model(theory, a, b), b),
        keeps_taint_of(portable_code_model(theory, a), a),
        keeps_taint_of(infinity_succ_result_model(a, theory), a),
        keeps_taint_of(add_result_model(a, b, theory), a) && keeps_taint_of(add_result_model(a, b, theory), b),
        keeps_taint_of(infinity_binary_result_model(a, b, theory, text), a) && keeps_taint_of(
            infinity_binary_result_model(a, b, theory, text),
            b,
        ),
        keeps_taint_of(universe_succ_model(a, theory), a),
        keeps_taint_of(set_of_universe_model(a, theory), a),
        keeps_taint_of(class_of_universe_model(a, theory), a),
        keeps_taint_of(definable_nat_model(theory, a, b, n, c), a) && keeps_taint_of(definable_nat_model(theory, a, b, n, c), b)
            && keeps_taint_of(definable_nat_model(theory, a, b, n, c), c),
        keeps_taint_of_opt(proposition_model(theory, text, o, other), o),
        keeps_taint_of_opt(self_reference_claim_model(theory, text, o, other), o),
        keeps_taint_of_opt(consistency_claim_model(theory, text, o), o),
        keeps_taint_of_opt(proof_term_model(theory, text, o), o),
        keeps_taint_of(term_of_model(theory, text, other, text, a), a),
        keeps_taint_of(transported_to_model(a, theory, text), a),
        keeps_taint_of(soundness_proof_model(theory, text, a, other), a),
        forall|k: int| 0 <= k < items.len() ==> keeps_taint_of(virtual_cluster_model(theory, items), #[trigger] items[k]),
        keeps_taint_of(memory_checkpoint_model(theory, a), a),
        keeps_taint_of(restored_memory_region_model(theory, a), a),
        keeps_taint_of(migrated_to_model(a, theory, arch, text), a),
        keeps_taint_of(scheduled_to_model(a, theory, arch, text, b, c), a) && keeps_taint_of(scheduled_to_model(a, theory, arch, text, b, c), b)
            && keeps_taint_of(scheduled_to_model(a, theory, arch, text, b, c), c),
        keeps_taint_of(deployed_portable_code_model(theory, a, b, arch, text), a) && keeps_taint_of(
            deployed_portable_code_model(theory, a, b, arch, text),
            b,
        ),
        keeps_taint_of(remote_checkpoint_model(theory, a), a),
        keeps_taint_of(restored_remote_model(theory, a, b, arch), a) && keeps_taint_of(restored_remote_model(theory, a, b, arch), b),
        keeps_taint_of(live_migrated_remote_model(theory, a, b, arch), a) && keeps_taint_of(live_migrated_remote_model(theory, a, b, arch), b),
        keeps_taint_of(materialized_remote_model(theory, a, text), a),
        forall|k: int| 0 <= k < items.len() ==> keeps_taint_of(gpu_pool_model(theory, items), #[trigger] items[k]),
        keeps_taint_of(launched_gpu_kernel_model(theory, a, b), a) && keeps_taint_of(launched_gpu_kernel_model(theory, a, b), b),
        keeps_taint_of(copied_from_gpu_model(theory, a), a),
{
    lemma_max_trust_of_bounds(items, TrustLevel::Builtin);
}

} // verus!
