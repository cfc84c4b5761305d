//! Equality proofs and rewriting: an `EqProof` is justified by static evidence or
//! an axiom, becomes a rewrite rule, and rules chain into rewrite traces.

use vstd::prelude::*;
use vstd::string::*;

use crate::diagnostics::{error_model, error_with_help, Diagnostic, DiagnosticKind, DiagnosticV};
use crate::passport::record::{concat_histories, home_context};
use crate::passport::type_kind::type_text;
use crate::passport::{
    Capability, CapabilitySet, ConstructionMode, CostClass, HistoryChain, LocationContext, Passport, PassportV, Provenance,
    TheoryContext, TrustLevel, TypeKind, TypeKindV, ValidationState,
};
use crate::text::{all_ws, is_blank, str_eq, usize_text};

verus! {

/// Which way a rewrite rule is used.
#[derive(Debug, Clone, Copy, PartialEq, Eq, Structural)]
pub enum RewriteDirection {
    Forward,
    Reverse,
}

impl RewriteDirection {
    /// Display text.
    pub open spec fn display_text(self) -> Seq<char> {
        match self {
            RewriteDirection::Forward => "forward"@,
            RewriteDirection::Reverse => "reverse"@,
        }
    }

    pub fn display_str(self) -> (r: &'static str)
        ensures
            r@ == self.display_text(),
    {
        match self {
            RewriteDirection::Forward => "forward",
            RewriteDirection::Reverse => "reverse",
        }
    }
}

/// A request to prove `lhs = rhs` in a theory.
#[derive(Debug, Clone)]
pub struct EqProofDecl {
    pub theory: String,
    pub lhs: String,
    pub rhs: String,
}

/// A named rewrite rule `lhs -> rhs` declared in a theory.
#[derive(Debug, Clone)]
pub struct RewriteRuleDecl {
    pub theory: String,
    pub name: String,
    pub lhs: String,
    pub rhs: String,
}

/// One application of a rewrite rule.
#[derive(Debug)]
pub struct RewriteStep {
    pub rule_name: String,
    pub direction: RewriteDirection,
    pub from: String,
    pub to: String,
}

/// Model of a `RewriteStep`.
pub struct RewriteStepV {
    pub rule_name: Seq<char>,
    pub direction: RewriteDirection,
    pub from: Seq<char>,
    pub to: Seq<char>,
}

impl View for RewriteStep {
    type V = RewriteStepV;

    open spec fn view(&self) -> RewriteStepV {
        RewriteStepV { rule_name: self.rule_name@, direction: self.direction, from: self.from@, to: self.to@ }
    }
}

/// A chain of rewrite steps from one term to another.
#[derive(Debug)]
pub struct RewriteTrace {
    pub theory: String,
    pub from: String,
    pub to: String,
    pub steps: Vec<RewriteStep>,
    pub trust: TrustLevel,
    pub provenance: Provenance,
    pub rule_histories: Vec<HistoryChain>,
}

/// Model of a `RewriteTrace`.
pub struct RewriteTraceV {
    pub theory: Seq<char>,
    pub from: Seq<char>,
    pub to: Seq<char>,
    pub steps: Seq<RewriteStepV>,
    pub trust: TrustLevel,
    pub provenance: Provenance,
    pub rule_histories: Seq<Seq<Seq<char>>>,
}

impl View for RewriteTrace {
    type V = RewriteTraceV;

    open spec fn view(&self) -> RewriteTraceV {
        RewriteTraceV {
            theory: self.theory@,
            from: self.from@,
            to: self.to@,
            steps: self.steps@.map_values(|s: RewriteStep| s@),
            trust: self.trust,
            provenance: self.provenance,
            rule_histories: self.rule_histories@.map_values(|h: HistoryChain| h@),
        }
    }
}

/// The label of a step: `rewrite:rule:direction:from->to`.
pub open spec fn step_label(s: RewriteStepV) -> Seq<char> {
    "rewrite:"@ + s.rule_name + ":"@ + s.direction.display_text() + ":"@ + s.from + "->"@ + s.to
}

impl RewriteTrace {
    /// The trace rests on an axiom or on something less trusted.
    pub fn is_axiom_tainted(&self) -> (r: bool)
        ensures
            r == (self.trust.rank() >= TrustLevel::Axiom.rank()),
    {
        self.trust.rank() >= TrustLevel::Axiom.rank()
    }

    pub fn len(&self) -> (r: usize)
        ensures
            r == self@.steps.len(),
    {
        self.steps.len()
    }

    pub fn is_empty(&self) -> (r: bool)
        ensures
            r == (self@.steps.len() == 0),
    {
        self.steps.len() == 0
    }

    /// The label of every step, in order.
    pub fn step_labels(&self) -> (r: Vec<String>)
        ensures
            r@.len() == self@.steps.len(),
            forall|i: int| 0 <= i < r@.len() ==> #[trigger] r@[i]@ == step_label(self@.steps[i]),
    {
        let mut out: Vec<String> = Vec::new();
        let mut i: usize = 0;
        while i < self.steps.len()
            invariant
                i <= self.steps.len(),
                out@.len() == i,
                forall|j: int| 0 <= j < i ==> #[trigger] out@[j]@ == step_label(self@.steps[j]),
            decreases self.steps.len() - i,
        {
            out.push(rewrite_step_label(&self.steps[i]));
            i = i + 1;
        }
        out
    }
}

/// The proposition `Eq(lhs,rhs)`.
pub open spec fn equality_text(lhs: Seq<char>, rhs: Seq<char>) -> Seq<char> {
    "Eq("@ + lhs + ","@ + rhs + ")"@
}

pub fn equality_proposition(lhs: &str, rhs: &str) -> (r: String)
    ensures
        r@ == equality_text(lhs@, rhs@),
{
    let mut s = String::from_str("Eq(");
    s.append(lhs);
    s.append(",");
    s.append(rhs);
    s.append(")");
    s
}

pub fn eq_proof_decl(theory: &str, lhs: &str, rhs: &str) -> (r: EqProofDecl)
    ensures
        r.theory@ == theory@,
        r.lhs@ == lhs@,
        r.rhs@ == rhs@,
{
    EqProofDecl { theory: String::from_str(theory), lhs: String::from_str(lhs), rhs: String::from_str(rhs) }
}

pub fn rewrite_rule_decl(theory: &str, name: &str, lhs: &str, rhs: &str) -> (r: RewriteRuleDecl)
    ensures
        r.theory@ == theory@,
        r.name@ == name@,
        r.lhs@ == lhs@,
        r.rhs@ == rhs@,
{
    RewriteRuleDecl {
        theory: String::from_str(theory),
        name: String::from_str(name),
        lhs: String::from_str(lhs),
        rhs: String::from_str(rhs),
    }
}

/// The error for a blank term.
pub open spec fn blank_term_error(label: Seq<char>, line: usize) -> DiagnosticV {
    error_model(DiagnosticKind::EqualityRewriteError, Some(line), label + " cannot be empty in equality/rewrite context"@)
}

pub open spec fn equality_caps() -> Set<Capability> {
    set![Capability::CanSymbolicPrint, Capability::CanCompareByProof, Capability::CanPropositionReason]
}

pub open spec fn rewrite_caps() -> Set<Capability> {
    set![Capability::CanSymbolicPrint, Capability::CanCompareByProof, Capability::CanCompareSyntax, Capability::CanPropositionReason]
}

/// An equality proof of `lhs = rhs` with the given taint, validation and history.
pub open spec fn eq_proof_model(
    theory: Seq<char>,
    lhs: Seq<char>,
    rhs: Seq<char>,
    trust: TrustLevel,
    provenance: Provenance,
    validation: ValidationState,
    history: Seq<Seq<char>>,
) -> PassportV {
    PassportV {
        ty: TypeKindV::EqProof { lhs, rhs },
        construction: ConstructionMode::ProofFinite,
        capabilities: equality_caps(),
        cost: CostClass::ProofRequired,
        trust,
        provenance,
        validation,
        theory: home_context(theory),
        history,
        location: LocationContext::Local,
    }
}

/// The result of a constructor that only checks its terms are not blank.
pub open spec fn passport_result(r: Result<Passport, Diagnostic>) -> Result<PassportV, DiagnosticV> {
    match r {
        Ok(p) => Ok(p@),
        Err(d) => Err(d@),
    }
}

/// `term = term`: builtin, statically checked.
pub fn reflexive_eq_proof(theory: &str, term: &str, line: usize) -> (r: Result<Passport, Diagnostic>)
    ensures
        passport_result(r) == (if all_ws(term@) {
            Err(blank_term_error("term"@, line))
        } else {
            Ok(eq_proof_model(
                theory@,
                term@,
                term@,
                TrustLevel::Builtin,
                Provenance::BuiltinKnown,
                ValidationState::StaticChecked,
                seq!["eq:refl:"@ + term@],
            ))
        }),
{
    match require_non_empty_term(term, "term", line) {
        Err(d) => Err(d),
        Ok(()) => {
            let mut ev = String::from_str("eq:refl:");
            ev.append(term);
            Ok(Passport {
                ty: TypeKind::EqProof { lhs: String::from_str(term), rhs: String::from_str(term) },
                construction: ConstructionMode::ProofFinite,
                capabilities: equality_capabilities(),
                cost: CostClass::ProofRequired,
                trust: TrustLevel::Builtin,
                provenance: Provenance::BuiltinKnown,
                validation: ValidationState::StaticChecked,
                theory: TheoryContext::new(theory),
                history: HistoryChain::from_event(ev.as_str()),
                location: LocationContext::local(),
            })
        },
    }
}

/// What `eq_proof_from_static_proof` gives: an equality proof only from a static
/// proof of exactly `Eq(lhs,rhs)`, keeping the proof's taint.
pub open spec fn eq_from_static_spec(theory: Seq<char>, lhs: Seq<char>, rhs: Seq<char>, proof: PassportV, line: usize) -> Result<PassportV, DiagnosticV> {
    if all_ws(lhs) {
        Err(blank_term_error("lhs"@, line))
    } else if all_ws(rhs) {
        Err(blank_term_error("rhs"@, line))
    } else {
        let expected = equality_text(lhs, rhs);
        match proof.ty {
            TypeKindV::StaticProof(predicate) => if predicate == expected {
                Ok(eq_proof_model(
                    theory,
                    lhs,
                    rhs,
                    proof.trust,
                    proof.provenance,
                    ValidationState::StaticChecked,
                    proof.history.push("eq:from_static_proof:"@ + lhs + ":"@ + rhs),
                ))
            } else {
                Err(error_with_help(
                    DiagnosticKind::EqualityRewriteError,
                    line,
                    "static proof proves `"@ + predicate + "`, not equality `"@ + expected + "`"@,
                    "EqProof construction requires a StaticProof of exactly Eq(lhs,rhs)"@,
                ))
            },
            TypeKindV::RuntimeWitness(_) => Err(error_model(
                DiagnosticKind::EqualityRewriteError,
                Some(line),
                "EqProof requires StaticProof; RuntimeWitness cannot justify rewrite equality"@,
            )),
            TypeKindV::ProofTerm { .. } => Err(error_model(
                DiagnosticKind::EqualityRewriteError,
                Some(line),
                "EqProof requires StaticProof; ProofTerm must be kernel-checked first"@,
            )),
            other => Err(error_with_help(
                DiagnosticKind::EqualityRewriteError,
                line,
                "EqProof construction requires StaticProof evidence"@,
                "received passport type: "@ + type_text(other),
            )),
        }
    }
}

pub fn eq_proof_from_static_proof(theory: &str, lhs: &str, rhs: &str, proof: &Passport, line: usize) -> (r: Result<Passport, Diagnostic>)
    ensures
        passport_result(r) == eq_from_static_spec(theory@, lhs@, rhs@, proof@, line),
        r is Ok ==> proof@.ty == TypeKindV::StaticProof("Eq("@ + lhs@ + ","@ + rhs@ + ")"@),
{
    match require_non_empty_term(lhs, "lhs", line) {
        Err(d) => return Err(d),
        Ok(()) => {},
    }
    match require_non_empty_term(rhs, "rhs", line) {
        Err(d) => return Err(d),
        Ok(()) => {},
    }
    let expected = equality_proposition(lhs, rhs);
    match &proof.ty {
        TypeKind::StaticProof(predicate) => {
            if str_eq(predicate.as_str(), expected.as_str()) {
                let mut ev = String::from_str("eq:from_static_proof:");
                ev.append(lhs);
                ev.append(":");
                ev.append(rhs);
                Ok(Passport {
                    ty: TypeKind::EqProof { lhs: String::from_str(lhs), rhs: String::from_str(rhs) },
                    construction: ConstructionMode::ProofFinite,
                    capabilities: equality_capabilities(),
                    cost: CostClass::ProofRequired,
                    trust: proof.trust,
                    provenance: proof.provenance,
                    validation: ValidationState::StaticChecked,
                    theory: TheoryContext::new(theory),
                    history: HistoryChain::from_source(&proof.history, ev.as_str()),
                    location: LocationContext::local(),
                })
            } else {
                let mut msg = String::from_str("static proof proves `");
                msg.append(predicate.as_str());
                msg.append("`, not equality `");
                msg.append(expected.as_str());
                msg.append("`");
                Err(Diagnostic::error(DiagnosticKind::EqualityRewriteError, Some(line), msg.as_str()).with_help(
                    "EqProof construction requires a StaticProof of exactly Eq(lhs,rhs)",
                ))
            }
        },
        TypeKind::RuntimeWitness(_) => Err(Diagnostic::error(
            DiagnosticKind::EqualityRewriteError,
            Some(line),
            "EqProof requires StaticProof; RuntimeWitness cannot justify rewrite equality",
        )),
        TypeKind::ProofTerm { .. } => Err(Diagnostic::error(
            DiagnosticKind::EqualityRewriteError,
            Some(line),
            "EqProof requires StaticProof; ProofTerm must be kernel-checked first",
        )),
        other => {
            let mut help = String::from_str("received passport type: ");
            help.append(other.to_text().as_str());
            Err(Diagnostic::error(DiagnosticKind::EqualityRewriteError, Some(line), "EqProof construction requires StaticProof evidence")
                .with_help(help.as_str()))
        },
    }
}

/// `lhs = rhs` taken as an axiom: axiom-tainted and only assumed.
pub fn axiom_eq_proof(theory: &str, lhs: &str, rhs: &str, reason: &str, line: usize) -> (r: Result<Passport, Diagnostic>)
    ensures
        passport_result(r) == (if all_ws(lhs@) {
            Err(blank_term_error("lhs"@, line))
        } else if all_ws(rhs@) {
            Err(blank_term_error("rhs"@, line))
        } else {
            Ok(eq_proof_model(
                theory@,
                lhs@,
                rhs@,
                TrustLevel::Axiom,
                Provenance::BuiltinKnown,
                ValidationState::Assumed,
                seq!["eq:axiom:"@ + lhs@ + ":"@ + rhs@ + ":"@ + reason@],
            ))
        }),
{
    match require_non_empty_term(lhs, "lhs", line) {
        Err(d) => return Err(d),
        Ok(()) => {},
    }
    match require_non_empty_term(rhs, "rhs", line) {
        Err(d) => return Err(d),
        Ok(()) => {},
    }
    let mut ev = String::from_str("eq:axiom:");
    ev.append(lhs);
    ev.append(":");
    ev.append(rhs);
    ev.append(":");
    ev.append(reason);
    Ok(Passport {
        ty: TypeKind::EqProof { lhs: String::from_str(lhs), rhs: String::from_str(rhs) },
        construction: ConstructionMode::ProofFinite,
        capabilities: equality_capabilities(),
        cost: CostClass::ProofRequired,
        trust: TrustLevel::Axiom,
        provenance: Provenance::BuiltinKnown,
        validation: ValidationState::Assumed,
        theory: TheoryContext::new(theory),
        history: HistoryChain::from_event(ev.as_str()),
        location: LocationContext::local(),
    })
}

/// The sides of an equality proof.
pub open spec fn eq_sides_spec(p: PassportV, line: usize) -> Result<(Seq<char>, Seq<char>), DiagnosticV> {
    match p.ty {
        TypeKindV::EqProof { lhs, rhs } => Ok((lhs, rhs)),
        TypeKindV::Bool => Err(error_model(
            DiagnosticKind::EqualityRewriteError,
            Some(line),
            "Bool equality result is not an EqProof and cannot justify rewriting"@,
        )),
        TypeKindV::RuntimeWitness(_) => Err(error_model(
            DiagnosticKind::EqualityRewriteError,
            Some(line),
            "RuntimeWitness cannot justify static rewriting"@,
        )),
        other => Err(error_with_help(
            DiagnosticKind::EqualityRewriteError,
            line,
            "rewrite rule construction requires EqProof evidence"@,
            "received passport type: "@ + type_text(other),
        )),
    }
}

pub fn require_eq_proof(passport: &Passport, line: usize) -> (r: Result<(String, String), Diagnostic>)
    ensures
        eq_sides_spec(passport@, line) == (match r {
            Ok(x) => Ok::<(Seq<char>, Seq<char>), DiagnosticV>((x.0@, x.1@)),
            Err(d) => Err::<(Seq<char>, Seq<char>), DiagnosticV>(d@),
        }),
{
    match &passport.ty {
        TypeKind::EqProof { lhs, rhs } => Ok((lhs.clone(), rhs.clone())),
        TypeKind::Bool => Err(Diagnostic::error(
            DiagnosticKind::EqualityRewriteError,
            Some(line),
            "Bool equality result is not an EqProof and cannot justify rewriting",
        )),
        TypeKind::RuntimeWitness(_) => Err(Diagnostic::error(
            DiagnosticKind::EqualityRewriteError,
            Some(line),
            "RuntimeWitness cannot justify static rewriting",
        )),
        other => {
            let mut help = String::from_str("received passport type: ");
            help.append(other.to_text().as_str());
            Err(Diagnostic::error(DiagnosticKind::EqualityRewriteError, Some(line), "rewrite rule construction requires EqProof evidence")
                .with_help(help.as_str()))
        },
    }
}

/// The name and sides of a rewrite rule.
pub open spec fn rule_parts_spec(p: PassportV, line: usize) -> Result<(Seq<char>, Seq<char>, Seq<char>), DiagnosticV> {
    match p.ty {
        TypeKindV::RewriteRule { name, lhs, rhs } => Ok((name, lhs, rhs)),
        TypeKindV::EqProof { .. } => Err(error_model(
            DiagnosticKind::EqualityRewriteError,
            Some(line),
            "EqProof must first be registered as a RewriteRule before applying it"@,
        )),
        other => Err(error_with_help(
            DiagnosticKind::EqualityRewriteError,
            line,
            "rewrite application requires a RewriteRule passport"@,
            "received passport type: "@ + type_text(other),
        )),
    }
}

pub fn require_rewrite_rule(passport: &Passport, line: usize) -> (r: Result<(String, String, String), Diagnostic>)
    ensures
        rule_parts_spec(passport@, line) == (match r {
            Ok(x) => Ok::<(Seq<char>, Seq<char>, Seq<char>), DiagnosticV>((x.0@, x.1@, x.2@)),
            Err(d) => Err::<(Seq<char>, Seq<char>, Seq<char>), DiagnosticV>(d@),
        }),
{
    match &passport.ty {
        TypeKind::RewriteRule { name, lhs, rhs } => Ok((name.clone(), lhs.clone(), rhs.clone())),
        TypeKind::EqProof { .. } => Err(Diagnostic::error(
            DiagnosticKind::EqualityRewriteError,
            Some(line),
            "EqProof must first be registered as a RewriteRule before applying it",
        )),
        other => {
            let mut help = String::from_str("received passport type: ");
            help.append(other.to_text().as_str());
            Err(Diagnostic::error(DiagnosticKind::EqualityRewriteError, Some(line), "rewrite application requires a RewriteRule passport")
                .with_help(help.as_str()))
        },
    }
}

/// The rewrite rule an equality proof registers.
pub open spec fn rule_from_eq_spec(theory: Seq<char>, name: Seq<char>, eq: PassportV, line: usize) -> Result<PassportV, DiagnosticV> {
    if all_ws(name) {
        Err(blank_term_error("rewrite rule name"@, line))
    } else {
        match eq_sides_spec(eq, line) {
            Err(d) => Err(d),
            Ok((lhs, rhs)) => Ok(PassportV {
                ty: TypeKindV::RewriteRule { name, lhs, rhs },
                construction: ConstructionMode::ProofFinite,
                capabilities: rewrite_caps(),
                cost: CostClass::ProofRequired,
                trust: eq.trust,
                provenance: eq.provenance,
                validation: eq.validation,
                theory: home_context(theory),
                history: eq.history.push("rewrite:rule:"@ + name + ":"@ + lhs + "->"@ + rhs),
                location: LocationContext::Local,
            }),
        }
    }
}

pub fn rewrite_rule_from_eq_proof(theory: &str, name: &str, eq_proof: &Passport, line: usize) -> (r: Result<Passport, Diagnostic>)
    ensures
        passport_result(r) == rule_from_eq_spec(theory@, name@, eq_proof@, line),
{
    match require_non_empty_term(name, "rewrite rule name", line) {
        Err(d) => return Err(d),
        Ok(()) => {},
    }
    let (lhs, rhs) = match require_eq_proof(eq_proof, line) {
        Ok(x) => x,
        Err(d) => return Err(d),
    };
    let mut ev = String::from_str("rewrite:rule:");
    ev.append(name);
    ev.append(":");
    ev.append(lhs.as_str());
    ev.append("->");
    ev.append(rhs.as_str());
    Ok(Passport {
        ty: TypeKind::RewriteRule { name: String::from_str(name), lhs, rhs },
        construction: ConstructionMode::ProofFinite,
        capabilities: rewrite_capabilities(),
        cost: CostClass::ProofRequired,
        trust: eq_proof.trust,
        provenance: eq_proof.provenance,
        validation: eq_proof.validation,
        theory: TheoryContext::new(theory),
        history: HistoryChain::from_source(&eq_proof.history, ev.as_str()),
        location: LocationContext::local(),
    })
}

/// What applying a rewrite rule to `current` gives: forward the rule's left side
/// becomes its right side, reverse the other way round.
pub open spec fn apply_spec(rule: PassportV, current: Seq<char>, direction: RewriteDirection, line: usize) -> Result<RewriteStepV, DiagnosticV> {
    if all_ws(current) {
        Err(blank_term_error("current term"@, line))
    } else {
        match rule_parts_spec(rule, line) {
            Err(d) => Err(d),
            Ok((name, lhs, rhs)) => match direction {
                RewriteDirection::Forward => if current == lhs {
                    Ok(RewriteStepV { rule_name: name, direction, from: lhs, to: rhs })
                } else {
                    Err(error_with_help(
                        DiagnosticKind::EqualityRewriteError,
                        line,
                        "rewrite rule `"@ + name + "` cannot apply forward to `"@ + current + "`"@,
                        "forward rule expects `"@ + lhs + "` and rewrites to `"@ + rhs + "`"@,
                    ))
                },
                RewriteDirection::Reverse => if current == rhs {
                    Ok(RewriteStepV { rule_name: name, direction, from: rhs, to: lhs })
                } else {
                    Err(error_with_help(
                        DiagnosticKind::EqualityRewriteError,
                        line,
                        "rewrite rule `"@ + name + "` cannot apply reverse to `"@ + current + "`"@,
                        "reverse rule expects `"@ + rhs + "` and rewrites to `"@ + lhs + "`"@,
                    ))
                },
            },
        }
    }
}

pub open spec fn step_result(r: Result<RewriteStep, Diagnostic>) -> Result<RewriteStepV, DiagnosticV> {
    match r {
        Ok(s) => Ok(s@),
        Err(d) => Err(d@),
    }
}

pub fn apply_rewrite_rule(rule: &Passport, current: &str, direction: RewriteDirection, line: usize) -> (r: Result<RewriteStep, Diagnostic>)
    ensures
        step_result(r) == apply_spec(rule@, current@, direction, line),
{
    match require_non_empty_term(current, "current term", line) {
        Err(d) => return Err(d),
        Ok(()) => {},
    }
    let (name, lhs, rhs) = match require_rewrite_rule(rule, line) {
        Ok(x) => x,
        Err(d) => return Err(d),
    };
    match direction {
        RewriteDirection::Forward => {
            if str_eq(current, lhs.as_str()) {
                Ok(RewriteStep { rule_name: name, direction, from: lhs, to: rhs })
            } else {
                let mut msg = String::from_str("rewrite rule `");
                msg.append(name.as_str());
                msg.append("` cannot apply forward to `");
                msg.append(current);
                msg.append("`");
                let mut help = String::from_str("forward rule expects `");
                help.append(lhs.as_str());
                help.append("` and rewrites to `");
                help.append(rhs.as_str());
                help.append("`");
                Err(Diagnostic::error(DiagnosticKind::EqualityRewriteError, Some(line), msg.as_str()).with_help(help.as_str()))
            }
        },
        RewriteDirection::Reverse => {
            if str_eq(current, rhs.as_str()) {
                Ok(RewriteStep { rule_name: name, direction, from: rhs, to: lhs })
            } else {
                let mut msg = String::from_str("rewrite rule `");
                msg.append(name.as_str());
                msg.append("` cannot apply reverse to `");
                msg.append(current);
                msg.append("`");
                let mut help = String::from_str("reverse rule expects `");
                help.append(rhs.as_str());
                help.append("` and rewrites to `");
                help.append(lhs.as_str());
                help.append("`");
                Err(Diagnostic::error(DiagnosticKind::EqualityRewriteError, Some(line), msg.as_str()).with_help(help.as_str()))
            }
        },
    }
}

/// The state of a trace after the first `n` applications: the steps so far, the
/// current term, the joined taint and provenance, and the rules' histories.
pub struct TraceStateV {
    pub steps: Seq<RewriteStepV>,
    pub current: Seq<char>,
    pub trust: TrustLevel,
    pub provenance: Provenance,
    pub histories: Seq<Seq<Seq<char>>>,
}

pub open spec fn trace_prefix(start: Seq<char>, apps: Seq<(PassportV, RewriteDirection)>, line: usize, n: int) -> Result<TraceStateV, DiagnosticV>
    decreases n,
{
    if n <= 0 {
        Ok(TraceStateV { steps: Seq::empty(), current: start, trust: TrustLevel::Builtin, provenance: Provenance::BuiltinKnown, histories: Seq::empty() })
    } else {
        match trace_prefix(start, apps, line, n - 1) {
            Err(d) => Err(d),
            Ok(st) => {
                let (rule, direction) = apps[n - 1];
                match apply_spec(rule, st.current, direction, line) {
                    Err(d) => Err(d),
                    Ok(step) => Ok(TraceStateV {
                        steps: st.steps.push(step),
                        current: step.to,
                        trust: st.trust.higher(rule.trust),
                        provenance: st.provenance.higher(rule.provenance),
                        histories: st.histories.push(rule.history),
                    }),
                }
            },
        }
    }
}

/// What `rewrite_trace` gives: the steps applying each rule in turn from `start`.
pub open spec fn trace_spec(theory: Seq<char>, start: Seq<char>, apps: Seq<(PassportV, RewriteDirection)>, line: usize) -> Result<RewriteTraceV, DiagnosticV> {
    if all_ws(start) {
        Err(blank_term_error("start term"@, line))
    } else {
        match trace_prefix(start, apps, line, apps.len() as int) {
            Err(d) => Err(d),
            Ok(st) => Ok(RewriteTraceV {
                theory,
                from: start,
                to: st.current,
                steps: st.steps,
                trust: st.trust,
                provenance: st.provenance,
                rule_histories: st.histories,
            }),
        }
    }
}

/// The models of rule applications.
pub open spec fn apps_view(s: Seq<(Passport, RewriteDirection)>) -> Seq<(PassportV, RewriteDirection)> {
    s.map_values(|a: (Passport, RewriteDirection)| (a.0@, a.1))
}

proof fn lemma_trace_err(start: Seq<char>, apps: Seq<(PassportV, RewriteDirection)>, line: usize, m: int, n: int)
    requires
        0 <= m <= n,
        trace_prefix(start, apps, line, m) is Err,
    ensures
        trace_prefix(start, apps, line, n) == trace_prefix(start, apps, line, m),
    decreases n - m,
{
    if m < n {
        lemma_trace_err(start, apps, line, m, n - 1);
    }
}

pub fn rewrite_trace(theory: &str, start: &str, applications: &[(Passport, RewriteDirection)], line: usize) -> (r: Result<RewriteTrace, Diagnostic>)
    ensures
        trace_spec(theory@, start@, apps_view(applications@), line) == (match r {
            Ok(t) => Ok::<RewriteTraceV, DiagnosticV>(t@),
            Err(d) => Err::<RewriteTraceV, DiagnosticV>(d@),
        }),
{
    let ghost apps = apps_view(applications@);
    match require_non_empty_term(start, "start term", line) {
        Err(d) => return Err(d),
        Ok(()) => {},
    }
    let mut current = String::from_str(start);
    let mut steps: Vec<RewriteStep> = Vec::new();
    let mut trust = TrustLevel::Builtin;
    let mut provenance = Provenance::BuiltinKnown;
    let mut rule_histories: Vec<HistoryChain> = Vec::new();
    let mut i: usize = 0;
    assert(steps@.map_values(|s: RewriteStep| s@) =~= Seq::<RewriteStepV>::empty());
    assert(rule_histories@.map_values(|h: HistoryChain| h@) =~= Seq::<Seq<Seq<char>>>::empty());
    while i < applications.len()
        invariant
            apps == apps_view(applications@),
            !all_ws(start@),
            i <= applications.len(),
            trace_prefix(start@, apps, line, i as int) == Ok::<TraceStateV, DiagnosticV>(TraceStateV {
                steps: steps@.map_values(|s: RewriteStep| s@),
                current: current@,
                trust,
                provenance,
                histories: rule_histories@.map_values(|h: HistoryChain| h@),
            }),
        decreases applications.len() - i,
    {
        let rule = &applications[i].0;
        let direction = applications[i].1;
        assert(apps[i as int] == (rule@, direction));
        let step = match apply_rewrite_rule(rule, current.as_str(), direction, line) {
            Ok(s) => s,
            Err(d) => {
                proof {
                    lemma_trace_err(start@, apps, line, i + 1, apps.len() as int);
                }
                return Err(d);
            },
        };
        current = step.to.clone();
        trust = trust.higher(rule.trust);
        provenance = provenance.higher(rule.provenance);
        let ghost old_h = rule_histories@;
        let ghost old_s = steps@;
        rule_histories.push(rule.history.clone());
        assert(rule_histories@.map_values(|h: HistoryChain| h@) =~= old_h.map_values(|h: HistoryChain| h@).push(rule@.history));
        let ghost sv = step@;
        steps.push(step);
        assert(steps@.map_values(|s: RewriteStep| s@) =~= old_s.map_values(|s: RewriteStep| s@).push(sv));
        i = i + 1;
    }
    Ok(RewriteTrace { theory: String::from_str(theory), from: String::from_str(start), to: current, steps, trust, provenance, rule_histories })
}

/// The certificate of a trace: its rules' histories merged, then the trace's event.
pub open spec fn certificate_model(theory: Seq<char>, t: RewriteTraceV) -> PassportV {
    PassportV {
        ty: TypeKindV::RewriteCertificate { from: t.from, to: t.to },
        construction: ConstructionMode::ProofFinite,
        capabilities: rewrite_caps(),
        cost: CostClass::ProofRequired,
        trust: t.trust,
        provenance: t.provenance,
        validation: ValidationState::StaticChecked,
        theory: home_context(theory),
        history: concat_histories(t.rule_histories).push(
            "rewrite:certificate:"@ + t.from + "->"@ + t.to + ":steps="@ + crate::text::dec_text(t.steps.len()),
        ),
        location: LocationContext::Local,
    }
}

pub fn rewrite_certificate_passport(theory: &str, trace: &RewriteTrace) -> (r: Passport)
    ensures
        r@ == certificate_model(theory@, trace@),
{
    let ghost parts = trace@.rule_histories;
    let mut history = HistoryChain::empty();
    let mut i: usize = 0;
    assert(parts.take(0) =~= Seq::<Seq<Seq<char>>>::empty());
    while i < trace.rule_histories.len()
        invariant
            parts == trace@.rule_histories,
            i <= trace.rule_histories.len(),
            history@ == concat_histories(parts.take(i as int)),
        decreases trace.rule_histories.len() - i,
    {
        let events = trace.rule_histories[i].events();
        let ghost base = history@;
        let mut j: usize = 0;
        while j < events.len()
            invariant
                events.deep_view() == parts[i as int],
                j <= events.len(),
                history@ == base + parts[i as int].take(j as int),
            decreases events.len() - j,
        {
            history.push(events[j].as_str());
            assert(parts[i as int].take(j + 1) =~= parts[i as int].take(j as int).push(events[j as int]@));
            j = j + 1;
        }
        assert(parts[i as int].take(j as int) =~= parts[i as int]);
        assert(parts.take(i + 1).drop_last() =~= parts.take(i as int));
        i = i + 1;
    }
    assert(parts.take(i as int) =~= parts);
    let mut ev = String::from_str("rewrite:certificate:");
    ev.append(trace.from.as_str());
    ev.append("->");
    ev.append(trace.to.as_str());
    ev.append(":steps=");
    ev.append(usize_text(trace.steps.len()).as_str());
    history.push(ev.as_str());
    Passport {
        ty: TypeKind::RewriteCertificate { from: trace.from.clone(), to: trace.to.clone() },
        construction: ConstructionMode::ProofFinite,
        capabilities: rewrite_capabilities(),
        cost: CostClass::ProofRequired,
        trust: trace.trust,
        provenance: trace.provenance,
        validation: ValidationState::StaticChecked,
        theory: TheoryContext::new(theory),
        history,
        location: LocationContext::local(),
    }
}

fn equality_capabilities() -> (r: CapabilitySet)
    ensures
        r@ == equality_caps(),
{
    CapabilitySet::empty().with(Capability::CanSymbolicPrint).with(Capability::CanCompareByProof).with(Capability::CanPropositionReason)
}

fn rewrite_capabilities() -> (r: CapabilitySet)
    ensures
        r@ == rewrite_caps(),
{
    CapabilitySet::empty().with(Capability::CanSymbolicPrint).with(Capability::CanCompareByProof).with(Capability::CanCompareSyntax).with(
        Capability::CanPropositionReason,
    )
}

fn require_non_empty_term(term: &str, label: &str, line: usize) -> (r: Result<(), Diagnostic>)
    ensures
        r is Ok <==> !all_ws(term@),
        r matches Err(d) ==> d@ == blank_term_error(label@, line),
{
    if is_blank(term) {
        let mut msg = String::from_str(label);
        msg.append(" cannot be empty in equality/rewrite context");
        Err(Diagnostic::error(DiagnosticKind::EqualityRewriteError, Some(line), msg.as_str()))
    } else {
        Ok(())
    }
}

fn rewrite_step_label(step: &RewriteStep) -> (r: String)
    ensures
        r@ == step_label(step@),
{
    let mut s = String::from_str("rewrite:");
    s.append(step.rule_name.as_str());
    s.append(":");
    s.append(step.direction.display_str());
    s.append(":");
    s.append(step.from.as_str());
    s.append("->");
    s.append(step.to.as_str());
    s
}

/// Rewriting can be undone: applying a rule forward and then, to the result, in
/// reverse comes back to the starting term.
pub proof fn lemma_rewrite_round_trip(rule: PassportV, current: Seq<char>, line: usize)
    requires
        apply_spec(rule, current, RewriteDirection::Forward, line) is Ok,
        !all_ws(apply_spec(rule, current, RewriteDirection::Forward, line)->Ok_0.to),
    ensures
        ({
            let there = apply_spec(rule, current, RewriteDirection::Forward, line)->Ok_0;
            &&& there.from == current
            &&& apply_spec(rule, there.to, RewriteDirection::Reverse, line) is Ok
            &&& apply_spec(rule, there.to, RewriteDirection::Reverse, line)->Ok_0.to == current
        }),
{
}

/// A trace is a chain: it starts at `start`, each step starts where the previous one
/// ended, and it ends where the last step ended; its taint is at least builtin and
/// at least each rule's.
pub proof fn lemma_trace_chains(start: Seq<char>, apps: Seq<(PassportV, RewriteDirection)>, line: usize, n: int)
    requires
        0 <= n <= apps.len(),
        trace_prefix(start, apps, line, n) is Ok,
    ensures
        ({
            let st = trace_prefix(start, apps, line, n)->Ok_0;
            &&& st.steps.len() == n
            &&& n == 0 ==> st.current == start
            &&& n > 0 ==> st.steps[0].from == start && st.current == st.steps[n - 1].to
            &&& forall|i: int| 0 <= i < n - 1 ==> #[trigger] st.steps[i + 1].from == st.steps[i].to
            &&& TrustLevel::Builtin.rank() <= st.trust.rank()
            &&& forall|i: int| 0 <= i < n ==> (#[trigger] apps[i]).0.trust.rank() <= st.trust.rank()
        }),
    decreases n,
{
    if n > 0 {
        lemma_trace_chains(start, apps, line, n - 1);
        let prev = trace_prefix(start, apps, line, n - 1)->Ok_0;
        let st = trace_prefix(start, apps, line, n)->Ok_0;
        assert forall|i: int| 0 <= i < n - 1 implies #[trigger] st.steps[i + 1].from == st.steps[i].to by {
            if i < n - 2 {
                assert(st.steps[i + 1] == prev.steps[i + 1]);
                assert(st.steps[i] == prev.steps[i]);
            } else {
                assert(st.steps[i] == prev.steps[i]);
            }
        }
        if n > 1 {
            assert(st.steps[0] == prev.steps[0]);
        }
    }
}

/// An equality proof built from static evidence proves exactly that equality: it
/// is built only when the evidence is a static proof of the text
/// `Eq(lhs,rhs)` itself, and then it is an `EqProof` of `lhs` and `rhs` with the
/// evidence's trust and provenance. Evidence for any other proposition, such as
/// `Eq(x,y)` offered for `a = b`, is refused.
pub proof fn lemma_static_eq_proof_is_exact(theory: Seq<char>, lhs: Seq<char>, rhs: Seq<char>, proof: PassportV, line: usize)
    ensures
        eq_from_static_spec(theory, lhs, rhs, proof, line) is Ok ==> proof.ty == TypeKindV::StaticProof(
            "Eq("@ + lhs + ","@ + rhs + ")"@,
        ),
        eq_from_static_spec(theory, lhs, rhs, proof, line) is Ok ==> ({
            let p = eq_from_static_spec(theory, lhs, rhs, proof, line)->Ok_0;
            &&& p.ty == TypeKindV::EqProof { lhs, rhs }
            &&& p.trust == proof.trust
            &&& p.provenance == proof.provenance
        }),
        !all_ws(lhs) && !all_ws(rhs) && proof.ty == TypeKindV::StaticProof("Eq("@ + lhs + ","@ + rhs + ")"@)
            ==> eq_from_static_spec(theory, lhs, rhs, proof, line) is Ok,
        (proof.ty matches TypeKindV::StaticProof(q) && q != "Eq("@ + lhs + ","@ + rhs + ")"@)
            ==> eq_from_static_spec(theory, lhs, rhs, proof, line) is Err,
{
}

} // verus!
