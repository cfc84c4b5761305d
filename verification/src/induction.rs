//! Natural-number induction: a scheme for a proposition family, its base and
//! step cases backed by exact static proofs, and the induction proof they give.

use vstd::prelude::*;
use vstd::string::*;

use crate::diagnostics::{error_model, error_with_help, Diagnostic, DiagnosticKind, DiagnosticV};
use crate::passport::record::{home_context, passport_text};
use crate::passport::type_kind::type_text;
use crate::passport::{
    Capability, CapabilitySet, ConstructionMode, CostClass, HistoryChain, LocationContext, Passport, PassportV, Provenance,
    TheoryContext, TrustLevel, TypeKind, TypeKindV, ValidationState,
};
use crate::policy::join_trust;
use crate::text::{all_ws, is_blank, str_eq};

verus! {

/// A declared induction scheme over `Nat`.
#[derive(Debug, Clone, PartialEq, Eq)]
pub struct NatInductionSchemeDecl {
    pub theory: String,
    pub proposition_family: String,
}

/// A declared base case.
#[derive(Debug, Clone, PartialEq, Eq)]
pub struct InductionBaseCaseDecl {
    pub theory: String,
    pub proposition: String,
}

/// A declared step case.
#[derive(Debug, Clone, PartialEq, Eq)]
pub struct InductionStepCaseDecl {
    pub theory: String,
    pub proposition: String,
}

/// A declared induction proof.
#[derive(Debug, Clone, PartialEq, Eq)]
pub struct InductionProofDecl {
    pub theory: String,
    pub proposition: String,
}

pub fn nat_induction_scheme_decl(theory: &str, proposition_family: &str) -> (r: NatInductionSchemeDecl)
    ensures
        r.theory@ == theory@,
        r.proposition_family@ == proposition_family@,
{
    NatInductionSchemeDecl { theory: String::from_str(theory), proposition_family: String::from_str(proposition_family) }
}

pub fn induction_base_case_decl(theory: &str, proposition: &str) -> (r: InductionBaseCaseDecl)
    ensures
        r.theory@ == theory@,
        r.proposition@ == proposition@,
{
    InductionBaseCaseDecl { theory: String::from_str(theory), proposition: String::from_str(proposition) }
}

pub fn induction_step_case_decl(theory: &str, proposition: &str) -> (r: InductionStepCaseDecl)
    ensures
        r.theory@ == theory@,
        r.proposition@ == proposition@,
{
    InductionStepCaseDecl { theory: String::from_str(theory), proposition: String::from_str(proposition) }
}

pub fn induction_proof_decl(theory: &str, proposition: &str) -> (r: InductionProofDecl)
    ensures
        r.theory@ == theory@,
        r.proposition@ == proposition@,
{
    InductionProofDecl { theory: String::from_str(theory), proposition: String::from_str(proposition) }
}

/// `P(0)`.
pub open spec fn base_text(family: Seq<char>) -> Seq<char> {
    family + "(0)"@
}

/// `forall n:Nat. P(n) -> P(succ(n))`.
pub open spec fn step_text(family: Seq<char>) -> Seq<char> {
    "forall n:Nat. "@ + family + "(n) -> "@ + family + "(succ(n))"@
}

/// `forall n:Nat. P(n)`.
pub open spec fn conclusion_text(family: Seq<char>) -> Seq<char> {
    "forall n:Nat. "@ + family + "(n)"@
}

pub fn nat_base_case_proposition(proposition_family: &str) -> (r: String)
    ensures
        r@ == base_text(proposition_family@),
{
    let mut s = String::from_str(proposition_family);
    s.append("(0)");
    s
}

pub fn nat_step_case_proposition(proposition_family: &str) -> (r: String)
    ensures
        r@ == step_text(proposition_family@),
{
    let mut s = String::from_str("forall n:Nat. ");
    s.append(proposition_family);
    s.append("(n) -> ");
    s.append(proposition_family);
    s.append("(succ(n))");
    s
}

pub fn nat_induction_conclusion(proposition_family: &str) -> (r: String)
    ensures
        r@ == conclusion_text(proposition_family@),
{
    let mut s = String::from_str("forall n:Nat. ");
    s.append(proposition_family);
    s.append("(n)");
    s
}

/// The capabilities of induction objects.
pub open spec fn induction_caps() -> Set<Capability> {
    set![
        Capability::CanSymbolicPrint,
        Capability::CanPropositionReason,
        Capability::CanProofKernelCheck,
        Capability::CanCompareByProof,
    ]
}

fn induction_capabilities() -> (r: CapabilitySet)
    ensures
        r@ == induction_caps(),
{
    CapabilitySet::empty().with(Capability::CanSymbolicPrint).with(Capability::CanPropositionReason).with(
        Capability::CanProofKernelCheck,
    ).with(Capability::CanCompareByProof)
}

/// Both checked statically stays statically checked; an assumption taints the
/// result; anything else is only constraint-checked.
pub open spec fn join_validation_spec(lhs: ValidationState, rhs: ValidationState) -> ValidationState {
    if lhs == ValidationState::StaticChecked && rhs == ValidationState::StaticChecked {
        ValidationState::StaticChecked
    } else if lhs == ValidationState::Assumed || rhs == ValidationState::Assumed {
        ValidationState::Assumed
    } else {
        ValidationState::ConstraintChecked
    }
}

fn join_validation(lhs: ValidationState, rhs: ValidationState) -> (r: ValidationState)
    ensures
        r == join_validation_spec(lhs, rhs),
{
    match (lhs, rhs) {
        (ValidationState::StaticChecked, ValidationState::StaticChecked) => ValidationState::StaticChecked,
        (ValidationState::Assumed, _) | (_, ValidationState::Assumed) => ValidationState::Assumed,
        _ => ValidationState::ConstraintChecked,
    }
}

/// An induction error without help.
pub open spec fn induction_error(line: usize, message: Seq<char>) -> DiagnosticV {
    error_model(DiagnosticKind::InductionError, Some(line), message)
}

/// An induction error with help.
pub open spec fn induction_error_help(line: usize, message: Seq<char>, help: Seq<char>) -> DiagnosticV {
    error_with_help(DiagnosticKind::InductionError, line, message, help)
}

fn ind_error(line: usize, message: &str) -> (r: Diagnostic)
    ensures
        r@ == induction_error(line, message@),
{
    Diagnostic::error(DiagnosticKind::InductionError, Some(line), message)
}

fn ind_error_help(line: usize, message: &str, help: &str) -> (r: Diagnostic)
    ensures
        r@ == induction_error_help(line, message@, help@),
{
    Diagnostic::error(DiagnosticKind::InductionError, Some(line), message).with_help(help)
}

/// What `nat_induction_scheme` gives.
pub open spec fn nat_induction_scheme_spec(theory: Seq<char>, family: Seq<char>, line: usize) -> Result<PassportV, DiagnosticV> {
    if all_ws(family) {
        Err(induction_error(line, "proposition family cannot be empty in Nat induction context"@))
    } else {
        Ok(PassportV {
            ty: TypeKindV::NatInductionScheme { proposition_family: family },
            construction: ConstructionMode::ProofFinite,
            capabilities: induction_caps(),
            cost: CostClass::ProofRequired,
            trust: TrustLevel::Builtin,
            provenance: Provenance::BuiltinKnown,
            validation: ValidationState::StaticChecked,
            theory: home_context(theory),
            history: seq!["induction:nat:scheme:"@ + family],
            location: LocationContext::Local,
        })
    }
}

pub fn nat_induction_scheme(theory: &str, proposition_family: &str, line: usize) -> (r: Result<Passport, Diagnostic>)
    ensures
        nat_induction_scheme_spec(theory@, proposition_family@, line) == (match r {
            Ok(p) => Ok::<PassportV, DiagnosticV>(p@),
            Err(d) => Err::<PassportV, DiagnosticV>(d@),
        }),
{
    if is_blank(proposition_family) {
        return Err(ind_error(line, "proposition family cannot be empty in Nat induction context"));
    }
    let mut ev = String::from_str("induction:nat:scheme:");
    ev.append(proposition_family);
    Ok(Passport {
        ty: TypeKind::NatInductionScheme { proposition_family: String::from_str(proposition_family) },
        construction: ConstructionMode::ProofFinite,
        capabilities: induction_capabilities(),
        cost: CostClass::ProofRequired,
        trust: TrustLevel::Builtin,
        provenance: Provenance::BuiltinKnown,
        validation: ValidationState::StaticChecked,
        theory: TheoryContext::new(theory),
        history: HistoryChain::from_event(ev.as_str()),
        location: LocationContext::local(),
    })
}

/// The family of a scheme passport, or the error for another type.
pub open spec fn scheme_family(p: PassportV, line: usize) -> Result<Seq<char>, DiagnosticV> {
    match p.ty {
        TypeKindV::NatInductionScheme { proposition_family } => Ok(proposition_family),
        TypeKindV::Theorem { .. } | TypeKindV::StaticProof(_) | TypeKindV::InductionProof { .. } => Err(induction_error_help(
            line,
            "Nat induction requires an InductionScheme<Nat,P>, not a proof/theorem object"@,
            "value passport: "@ + passport_text(p),
        )),
        _ => Err(induction_error_help(
            line,
            "Nat induction requires an InductionScheme<Nat,P> passport"@,
            "received passport type: "@ + type_text(p.ty),
        )),
    }
}

pub fn require_nat_induction_scheme(passport: &Passport, line: usize) -> (r: Result<String, Diagnostic>)
    ensures
        scheme_family(passport@, line) == (match r {
            Ok(s) => Ok::<Seq<char>, DiagnosticV>(s@),
            Err(d) => Err::<Seq<char>, DiagnosticV>(d@),
        }),
{
    match &passport.ty {
        TypeKind::NatInductionScheme { proposition_family } => Ok(proposition_family.clone()),
        TypeKind::Theorem { .. } | TypeKind::StaticProof(_) | TypeKind::InductionProof { .. } => {
            let mut help = String::from_str("value passport: ");
            help.append(passport.to_text().as_str());
            Err(ind_error_help(line, "Nat induction requires an InductionScheme<Nat,P>, not a proof/theorem object", help.as_str()))
        },
        _ => {
            let mut help = String::from_str("received passport type: ");
            help.append(passport.ty.to_text().as_str());
            Err(ind_error_help(line, "Nat induction requires an InductionScheme<Nat,P> passport", help.as_str()))
        },
    }
}

/// The error for a proof that is not a static proof of exactly `expected`.
pub open spec fn exact_proof_error(p: PassportV, expected: Seq<char>, line: usize) -> Option<DiagnosticV> {
    match p.ty {
        TypeKindV::StaticProof(proposition) => if proposition == expected {
            None
        } else {
            Some(induction_error(
                line,
                "static proof proves `"@ + proposition + "`, but induction case requires `"@ + expected + "`"@,
            ))
        },
        TypeKindV::RuntimeWitness(_) => Some(induction_error(line, "RuntimeWitness cannot justify a static induction case"@)),
        TypeKindV::ProofTerm { .. } => Some(induction_error(line, "ProofTerm must be kernel-checked into StaticProof before induction use"@)),
        _ => Some(induction_error_help(
            line,
            "induction case requires StaticProof evidence"@,
            "received passport type: "@ + type_text(p.ty),
        )),
    }
}

fn require_static_proof_of_exact(proof: &Passport, expected: &str, line: usize) -> (r: Result<(), Diagnostic>)
    ensures
        exact_proof_error(proof@, expected@, line) == (match r {
            Ok(()) => None::<DiagnosticV>,
            Err(d) => Some(d@),
        }),
{
    match &proof.ty {
        TypeKind::StaticProof(proposition) => {
            if str_eq(proposition.as_str(), expected) {
                Ok(())
            } else {
                let mut msg = String::from_str("static proof proves `");
                msg.append(proposition.as_str());
                msg.append("`, but induction case requires `");
                msg.append(expected);
                msg.append("`");
                Err(ind_error(line, msg.as_str()))
            }
        },
        TypeKind::RuntimeWitness(_) => Err(ind_error(line, "RuntimeWitness cannot justify a static induction case")),
        TypeKind::ProofTerm { .. } => Err(ind_error(line, "ProofTerm must be kernel-checked into StaticProof before induction use")),
        _ => {
            let mut help = String::from_str("received passport type: ");
            help.append(proof.ty.to_text().as_str());
            Err(ind_error_help(line, "induction case requires StaticProof evidence", help.as_str()))
        },
    }
}

/// An induction case (base or step) justified by `proof` for the scheme.
pub open spec fn case_passport_model(theory: Seq<char>, ty: TypeKindV, scheme: PassportV, proof: PassportV, event: Seq<char>) -> PassportV {
    PassportV {
        ty,
        construction: ConstructionMode::ProofFinite,
        capabilities: induction_caps(),
        cost: CostClass::ProofRequired,
        trust: scheme.trust.higher(proof.trust),
        provenance: scheme.provenance.higher(proof.provenance),
        validation: join_validation_spec(scheme.validation, proof.validation),
        theory: home_context(theory),
        history: (scheme.history + proof.history).push(event),
        location: LocationContext::Local,
    }
}

/// What `induction_base_case` gives: the proof must be a static proof of `P(0)`.
pub open spec fn induction_base_case_spec(theory: Seq<char>, scheme: PassportV, proof: PassportV, line: usize) -> Result<PassportV, DiagnosticV> {
    match scheme_family(scheme, line) {
        Err(d) => Err(d),
        Ok(family) => match exact_proof_error(proof, base_text(family), line) {
            Some(d) => Err(d),
            None => Ok(case_passport_model(
                theory,
                TypeKindV::InductionBaseCase { proposition: base_text(family) },
                scheme,
                proof,
                "induction:nat:base:"@ + base_text(family),
            )),
        },
    }
}

pub fn induction_base_case(theory: &str, scheme: &Passport, proof: &Passport, line: usize) -> (r: Result<Passport, Diagnostic>)
    ensures
        induction_base_case_spec(theory@, scheme@, proof@, line) == (match r {
            Ok(p) => Ok::<PassportV, DiagnosticV>(p@),
            Err(d) => Err::<PassportV, DiagnosticV>(d@),
        }),
{
    let family = match require_nat_induction_scheme(scheme, line) {
        Ok(f) => f,
        Err(d) => return Err(d),
    };
    let expected = nat_base_case_proposition(family.as_str());
    match require_static_proof_of_exact(proof, expected.as_str(), line) {
        Err(d) => return Err(d),
        Ok(()) => {},
    }
    let mut ev = String::from_str("induction:nat:base:");
    ev.append(expected.as_str());
    Ok(Passport {
        ty: TypeKind::InductionBaseCase { proposition: expected },
        construction: ConstructionMode::ProofFinite,
        capabilities: induction_capabilities(),
        cost: CostClass::ProofRequired,
        trust: join_trust(scheme.trust, proof.trust),
        provenance: scheme.provenance.higher(proof.provenance),
        validation: join_validation(scheme.validation, proof.validation),
        theory: TheoryContext::new(theory),
        history: HistoryChain::merge2(&scheme.history, &proof.history, ev.as_str()),
        location: LocationContext::local(),
    })
}

/// What `induction_step_case` gives: the proof must be a static proof of
/// `forall n:Nat. P(n) -> P(succ(n))`.
pub open spec fn induction_step_case_spec(theory: Seq<char>, scheme: PassportV, proof: PassportV, line: usize) -> Result<PassportV, DiagnosticV> {
    match scheme_family(scheme, line) {
        Err(d) => Err(d),
        Ok(family) => match exact_proof_error(proof, step_text(family), line) {
            Some(d) => Err(d),
            None => Ok(case_passport_model(
                theory,
                TypeKindV::InductionStepCase { proposition: step_text(family) },
                scheme,
                proof,
                "induction:nat:step:"@ + step_text(family),
            )),
        },
    }
}

pub fn induction_step_case(theory: &str, scheme: &Passport, proof: &Passport, line: usize) -> (r: Result<Passport, Diagnostic>)
    ensures
        induction_step_case_spec(theory@, scheme@, proof@, line) == (match r {
            Ok(p) => Ok::<PassportV, DiagnosticV>(p@),
            Err(d) => Err::<PassportV, DiagnosticV>(d@),
        }),
{
    let family = match require_nat_induction_scheme(scheme, line) {
        Ok(f) => f,
        Err(d) => return Err(d),
    };
    let expected = nat_step_case_proposition(family.as_str());
    match require_static_proof_of_exact(proof, expected.as_str(), line) {
        Err(d) => return Err(d),
        Ok(()) => {},
    }
    let mut ev = String::from_str("induction:nat:step:");
    ev.append(expected.as_str());
    Ok(Passport {
        ty: TypeKind::InductionStepCase { proposition: expected },
        construction: ConstructionMode::ProofFinite,
        capabilities: induction_capabilities(),
        cost: CostClass::ProofRequired,
        trust: join_trust(scheme.trust, proof.trust),
        provenance: scheme.provenance.higher(proof.provenance),
        validation: join_validation(scheme.validation, proof.validation),
        theory: TheoryContext::new(theory),
        history: HistoryChain::merge2(&scheme.history, &proof.history, ev.as_str()),
        location: LocationContext::local(),
    })
}

/// The proposition of a base case for the family, or the error.
pub open spec fn base_case_check(p: PassportV, family: Seq<char>, line: usize) -> Result<Seq<char>, DiagnosticV> {
    match p.ty {
        TypeKindV::InductionBaseCase { proposition } => if proposition == base_text(family) {
            Ok(proposition)
        } else {
            Err(induction_error(line, "base case proves `"@ + proposition + "`, but scheme requires `"@ + base_text(family) + "`"@))
        },
        TypeKindV::StaticProof(_) => Err(induction_error(
            line,
            "raw StaticProof must first be wrapped as an induction BaseCase for the scheme"@,
        )),
        _ => Err(induction_error_help(line, "Nat induction requires a BaseCase passport"@, "received passport type: "@ + type_text(p.ty))),
    }
}

pub fn require_induction_base_case(passport: &Passport, proposition_family: &str, line: usize) -> (r: Result<String, Diagnostic>)
    ensures
        base_case_check(passport@, proposition_family@, line) == (match r {
            Ok(s) => Ok::<Seq<char>, DiagnosticV>(s@),
            Err(d) => Err::<Seq<char>, DiagnosticV>(d@),
        }),
{
    let expected = nat_base_case_proposition(proposition_family);
    match &passport.ty {
        TypeKind::InductionBaseCase { proposition } => {
            if str_eq(proposition.as_str(), expected.as_str()) {
                Ok(proposition.clone())
            } else {
                let mut msg = String::from_str("base case proves `");
                msg.append(proposition.as_str());
                msg.append("`, but scheme requires `");
                msg.append(expected.as_str());
                msg.append("`");
                Err(ind_error(line, msg.as_str()))
            }
        },
        TypeKind::StaticProof(_) => Err(ind_error(line, "raw StaticProof must first be wrapped as an induction BaseCase for the scheme")),
        _ => {
            let mut help = String::from_str("received passport type: ");
            help.append(passport.ty.to_text().as_str());
            Err(ind_error_help(line, "Nat induction requires a BaseCase passport", help.as_str()))
        },
    }
}

/// The proposition of a step case for the family, or the error.
pub open spec fn step_case_check(p: PassportV, family: Seq<char>, line: usize) -> Result<Seq<char>, DiagnosticV> {
    match p.ty {
        TypeKindV::InductionStepCase { proposition } => if proposition == step_text(family) {
            Ok(proposition)
        } else {
            Err(induction_error(line, "step case proves `"@ + proposition + "`, but scheme requires `"@ + step_text(family) + "`"@))
        },
        TypeKindV::StaticProof(_) => Err(induction_error(
            line,
            "raw StaticProof must first be wrapped as an induction StepCase for the scheme"@,
        )),
        _ => Err(induction_error_help(line, "Nat induction requires a StepCase passport"@, "received passport type: "@ + type_text(p.ty))),
    }
}

pub fn require_induction_step_case(passport: &Passport, proposition_family: &str, line: usize) -> (r: Result<String, Diagnostic>)
    ensures
        step_case_check(passport@, proposition_family@, line) == (match r {
            Ok(s) => Ok::<Seq<char>, DiagnosticV>(s@),
            Err(d) => Err::<Seq<char>, DiagnosticV>(d@),
        }),
{
    let expected = nat_step_case_proposition(proposition_family);
    match &passport.ty {
        TypeKind::InductionStepCase { proposition } => {
            if str_eq(proposition.as_str(), expected.as_str()) {
                Ok(proposition.clone())
            } else {
                let mut msg = String::from_str("step case proves `");
                msg.append(proposition.as_str());
                msg.append("`, but scheme requires `");
                msg.append(expected.as_str());
                msg.append("`");
                Err(ind_error(line, msg.as_str()))
            }
        },
        TypeKind::StaticProof(_) => Err(ind_error(line, "raw StaticProof must first be wrapped as an induction StepCase for the scheme")),
        _ => {
            let mut help = String::from_str("received passport type: ");
            help.append(passport.ty.to_text().as_str());
            Err(ind_error_help(line, "Nat induction requires a StepCase passport", help.as_str()))
        },
    }
}

/// What `nat_induction_proof` gives: the base and step cases must be those of
/// the scheme's family; the proof concludes `forall n:Nat. P(n)`.
pub open spec fn nat_induction_proof_spec(theory: Seq<char>, scheme: PassportV, base: PassportV, step: PassportV, line: usize) -> Result<
    PassportV,
    DiagnosticV,
> {
    match scheme_family(scheme, line) {
        Err(d) => Err(d),
        Ok(family) => if base_case_check(base, family, line) is Err {
            Err(base_case_check(base, family, line)->Err_0)
        } else if step_case_check(step, family, line) is Err {
            Err(step_case_check(step, family, line)->Err_0)
        } else {
            Ok(PassportV {
                ty: TypeKindV::InductionProof { proposition: conclusion_text(family) },
                construction: ConstructionMode::ProofFinite,
                capabilities: induction_caps(),
                cost: CostClass::ProofRequired,
                trust: scheme.trust.higher(base.trust).higher(step.trust),
                provenance: scheme.provenance.higher(base.provenance).higher(step.provenance),
                validation: join_validation_spec(join_validation_spec(scheme.validation, base.validation), step.validation),
                theory: home_context(theory),
                history: (scheme.history + base.history + step.history).push("induction:nat:proof:"@ + conclusion_text(family)),
                location: LocationContext::Local,
            })
        },
    }
}

pub fn nat_induction_proof(theory: &str, scheme: &Passport, base_case: &Passport, step_case: &Passport, line: usize) -> (r: Result<
    Passport,
    Diagnostic,
>)
    ensures
        nat_induction_proof_spec(theory@, scheme@, base_case@, step_case@, line) == (match r {
            Ok(p) => Ok::<PassportV, DiagnosticV>(p@),
            Err(d) => Err::<PassportV, DiagnosticV>(d@),
        }),
{
    let family = match require_nat_induction_scheme(scheme, line) {
        Ok(f) => f,
        Err(d) => return Err(d),
    };
    match require_induction_base_case(base_case, family.as_str(), line) {
        Err(d) => return Err(d),
        Ok(_) => {},
    }
    match require_induction_step_case(step_case, family.as_str(), line) {
        Err(d) => return Err(d),
        Ok(_) => {},
    }
    let conclusion = nat_induction_conclusion(family.as_str());
    let trust = join_trust(join_trust(scheme.trust, base_case.trust), step_case.trust);
    let provenance = scheme.provenance.higher(base_case.provenance).higher(step_case.provenance);
    let validation = join_validation(join_validation(scheme.validation, base_case.validation), step_case.validation);
    let mut ev = String::from_str("induction:nat:proof:");
    ev.append(conclusion.as_str());
    Ok(Passport {
        ty: TypeKind::InductionProof { proposition: conclusion },
        construction: ConstructionMode::ProofFinite,
        capabilities: induction_capabilities(),
        cost: CostClass::ProofRequired,
        trust,
        provenance,
        validation,
        theory: TheoryContext::new(theory),
        history: HistoryChain::merge3(&scheme.history, &base_case.history, &step_case.history, ev.as_str()),
        location: LocationContext::local(),
    })
}

/// The proposition an induction proof concludes, or the error.
pub open spec fn induction_proof_check(p: PassportV, line: usize) -> Result<Seq<char>, DiagnosticV> {
    match p.ty {
        TypeKindV::InductionProof { proposition } => Ok(proposition),
        TypeKindV::StaticProof(_) => Err(induction_error(line, "raw StaticProof is not an InductionProof certificate"@)),
        TypeKindV::RuntimeWitness(_) => Err(induction_error(line, "RuntimeWitness cannot close a static Nat induction proof"@)),
        _ => Err(induction_error_help(line, "expected an InductionProof passport"@, "received passport type: "@ + type_text(p.ty))),
    }
}

pub fn require_induction_proof(passport: &Passport, line: usize) -> (r: Result<String, Diagnostic>)
    ensures
        induction_proof_check(passport@, line) == (match r {
            Ok(s) => Ok::<Seq<char>, DiagnosticV>(s@),
            Err(d) => Err::<Seq<char>, DiagnosticV>(d@),
        }),
{
    match &passport.ty {
        TypeKind::InductionProof { proposition } => Ok(proposition.clone()),
        TypeKind::StaticProof(_) => Err(ind_error(line, "raw StaticProof is not an InductionProof certificate")),
        TypeKind::RuntimeWitness(_) => Err(ind_error(line, "RuntimeWitness cannot close a static Nat induction proof")),
        _ => {
            let mut help = String::from_str("received passport type: ");
            help.append(passport.ty.to_text().as_str());
            Err(ind_error_help(line, "expected an InductionProof passport", help.as_str()))
        },
    }
}

/// Induction composes: a base case and a step case built from static proofs
/// for one scheme give an induction proof of `forall n:Nat. P(n)`, which that
/// proof reports as its conclusion.
pub proof fn lemma_induction_composes(
    theory: Seq<char>,
    scheme: PassportV,
    base_proof: PassportV,
    step_proof: PassportV,
    line: usize,
)
    requires
        induction_base_case_spec(theory, scheme, base_proof, line) is Ok,
        induction_step_case_spec(theory, scheme, step_proof, line) is Ok,
    ensures
        ({
            let base = induction_base_case_spec(theory, scheme, base_proof, line)->Ok_0;
            let step = induction_step_case_spec(theory, scheme, step_proof, line)->Ok_0;
            let family = scheme_family(scheme, line)->Ok_0;
            &&& nat_induction_proof_spec(theory, scheme, base, step, line) is Ok
            &&& induction_proof_check(nat_induction_proof_spec(theory, scheme, base, step, line)->Ok_0, line) == Ok::<
                Seq<char>,
                DiagnosticV,
            >(conclusion_text(family))
        }),
{
}

} // verus!
