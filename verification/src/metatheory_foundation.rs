//! The exit gate of the metatheory foundation: criteria, each backed by
//! evidence, and a report that is ready only when every required criterion is
//! present and satisfied.

use vstd::prelude::*;
use vstd::string::*;

use crate::axiom_registry::diagnostics_view;
use crate::diagnostics::{error_with_help, Diagnostic, DiagnosticKind, DiagnosticV};
use crate::fingerprint::{fingerprint_text, stable_fingerprint, strings_view};
use crate::passport::record::{copy_strings, home_context};
use crate::passport::type_kind::type_text;
use crate::passport::{
    Capability, CapabilitySet, ConstructionMode, CostClass, HistoryChain, LocationContext, Passport, PassportV, Provenance,
    TheoryContext, TrustLevel, TypeKind, TypeKindV, ValidationState,
};
use crate::text::{all_ws, bool_str, bool_text, contains_text, occurs_at, dec_text, is_blank, str_eq, text_contains, u8_text, usize_text};

verus! {

/// The kinds of evidence the foundation exit is judged on.
#[derive(Debug, Clone, Copy, PartialEq, Eq, Structural, PartialOrd, Ord)]
pub enum MetatheoryExitCriterionKind {
    MetaLevelStratification,
    TruthProvabilityBoundary,
    ConsistencyBoundary,
    ReflectionBoundary,
    StatementTheoremBoundary,
    ProofContextBoundary,
    EqualityRewriteBoundary,
    RewriteNormalizationBoundary,
    InductionBoundary,
    ModuleBoundary,
    AxiomAccounting,
    DependencyAccounting,
    ClosureAccounting,
    ConservativeExtensionAccounting,
    TheoremDependencyInventory,
    SoundnessBoundaryLedger,
    TrustedBaseClosure,
    DiagnosticCoverage,
    RegressionCoverage,
}

impl MetatheoryExitCriterionKind {
    pub open spec fn display_text(self) -> Seq<char> {
        match self {
            MetatheoryExitCriterionKind::MetaLevelStratification => "meta_level_stratification"@,
            MetatheoryExitCriterionKind::TruthProvabilityBoundary => "truth_provability_boundary"@,
            MetatheoryExitCriterionKind::ConsistencyBoundary => "consistency_boundary"@,
            MetatheoryExitCriterionKind::ReflectionBoundary => "reflection_boundary"@,
            MetatheoryExitCriterionKind::StatementTheoremBoundary => "statement_theorem_boundary"@,
            MetatheoryExitCriterionKind::ProofContextBoundary => "proof_context_boundary"@,
            MetatheoryExitCriterionKind::EqualityRewriteBoundary => "equality_rewrite_boundary"@,
            MetatheoryExitCriterionKind::RewriteNormalizationBoundary => "rewrite_normalization_boundary"@,
            MetatheoryExitCriterionKind::InductionBoundary => "induction_boundary"@,
            MetatheoryExitCriterionKind::ModuleBoundary => "module_boundary"@,
            MetatheoryExitCriterionKind::AxiomAccounting => "axiom_accounting"@,
            MetatheoryExitCriterionKind::DependencyAccounting => "dependency_accounting"@,
            MetatheoryExitCriterionKind::ClosureAccounting => "closure_accounting"@,
            MetatheoryExitCriterionKind::ConservativeExtensionAccounting => "conservative_extension_accounting"@,
            MetatheoryExitCriterionKind::TheoremDependencyInventory => "theorem_dependency_inventory"@,
            MetatheoryExitCriterionKind::SoundnessBoundaryLedger => "soundness_boundary_ledger"@,
            MetatheoryExitCriterionKind::TrustedBaseClosure => "trusted_base_closure"@,
            MetatheoryExitCriterionKind::DiagnosticCoverage => "diagnostic_coverage"@,
            MetatheoryExitCriterionKind::RegressionCoverage => "regression_coverage"@,
        }
    }

    pub fn display_str(self) -> (r: &'static str)
        ensures
            r@ == self.display_text(),
    {
        match self {
            MetatheoryExitCriterionKind::MetaLevelStratification => "meta_level_stratification",
            MetatheoryExitCriterionKind::TruthProvabilityBoundary => "truth_provability_boundary",
            MetatheoryExitCriterionKind::ConsistencyBoundary => "consistency_boundary",
            MetatheoryExitCriterionKind::ReflectionBoundary => "reflection_boundary",
            MetatheoryExitCriterionKind::StatementTheoremBoundary => "statement_theorem_boundary",
            MetatheoryExitCriterionKind::ProofContextBoundary => "proof_context_boundary",
            MetatheoryExitCriterionKind::EqualityRewriteBoundary => "equality_rewrite_boundary",
            MetatheoryExitCriterionKind::RewriteNormalizationBoundary => "rewrite_normalization_boundary",
            MetatheoryExitCriterionKind::InductionBoundary => "induction_boundary",
            MetatheoryExitCriterionKind::ModuleBoundary => "module_boundary",
            MetatheoryExitCriterionKind::AxiomAccounting => "axiom_accounting",
            MetatheoryExitCriterionKind::DependencyAccounting => "dependency_accounting",
            MetatheoryExitCriterionKind::ClosureAccounting => "closure_accounting",
            MetatheoryExitCriterionKind::ConservativeExtensionAccounting => "conservative_extension_accounting",
            MetatheoryExitCriterionKind::TheoremDependencyInventory => "theorem_dependency_inventory",
            MetatheoryExitCriterionKind::SoundnessBoundaryLedger => "soundness_boundary_ledger",
            MetatheoryExitCriterionKind::TrustedBaseClosure => "trusted_base_closure",
            MetatheoryExitCriterionKind::DiagnosticCoverage => "diagnostic_coverage",
            MetatheoryExitCriterionKind::RegressionCoverage => "regression_coverage",
        }
    }
}

/// How far one criterion is met.
#[derive(Debug, Clone, Copy, PartialEq, Eq, Structural, PartialOrd, Ord)]
pub enum MetatheoryExitCriterionStatus {
    Satisfied,
    Open,
    Failed,
}

impl MetatheoryExitCriterionStatus {
    pub open spec fn display_text(self) -> Seq<char> {
        match self {
            MetatheoryExitCriterionStatus::Satisfied => "satisfied"@,
            MetatheoryExitCriterionStatus::Open => "open"@,
            MetatheoryExitCriterionStatus::Failed => "failed"@,
        }
    }

    pub fn display_str(self) -> (r: &'static str)
        ensures
            r@ == self.display_text(),
    {
        match self {
            MetatheoryExitCriterionStatus::Satisfied => "satisfied",
            MetatheoryExitCriterionStatus::Open => "open",
            MetatheoryExitCriterionStatus::Failed => "failed",
        }
    }
}

/// The verdict on the foundation as a whole.
#[derive(Debug, Clone, Copy, PartialEq, Eq, Structural, PartialOrd, Ord)]
pub enum MetatheoryFoundationStatus {
    Ready,
    Incomplete,
    Rejected,
}

impl MetatheoryFoundationStatus {
    pub open spec fn display_text(self) -> Seq<char> {
        match self {
            MetatheoryFoundationStatus::Ready => "ready"@,
            MetatheoryFoundationStatus::Incomplete => "incomplete"@,
            MetatheoryFoundationStatus::Rejected => "rejected"@,
        }
    }

    pub fn display_str(self) -> (r: &'static str)
        ensures
            r@ == self.display_text(),
    {
        match self {
            MetatheoryFoundationStatus::Ready => "ready",
            MetatheoryFoundationStatus::Incomplete => "incomplete",
            MetatheoryFoundationStatus::Rejected => "rejected",
        }
    }
}

/// One exit criterion with its evidence and taint.
#[derive(Debug, PartialEq, Eq)]
pub struct MetatheoryExitCriterion {
    pub id: String,
    pub kind: MetatheoryExitCriterionKind,
    pub subject: String,
    pub status: MetatheoryExitCriterionStatus,
    pub evidence: String,
    pub trust: TrustLevel,
    pub provenance: Provenance,
    pub validation: ValidationState,
    pub has_axiom_taint: bool,
    pub has_oracle_taint: bool,
    pub has_unsafe_taint: bool,
    pub history: Vec<String>,
    pub fingerprint: String,
}

pub struct MetatheoryExitCriterionV {
    pub id: Seq<char>,
    pub kind: MetatheoryExitCriterionKind,
    pub subject: Seq<char>,
    pub status: MetatheoryExitCriterionStatus,
    pub evidence: Seq<char>,
    pub trust: TrustLevel,
    pub provenance: Provenance,
    pub validation: ValidationState,
    pub has_axiom_taint: bool,
    pub has_oracle_taint: bool,
    pub has_unsafe_taint: bool,
    pub history: Seq<Seq<char>>,
    pub fingerprint: Seq<char>,
}

impl View for MetatheoryExitCriterion {
    type V = MetatheoryExitCriterionV;

    open spec fn view(&self) -> MetatheoryExitCriterionV {
        MetatheoryExitCriterionV {
            id: self.id@,
            kind: self.kind,
            subject: self.subject@,
            status: self.status,
            evidence: self.evidence@,
            trust: self.trust,
            provenance: self.provenance,
            validation: self.validation,
            has_axiom_taint: self.has_axiom_taint,
            has_oracle_taint: self.has_oracle_taint,
            has_unsafe_taint: self.has_unsafe_taint,
            history: self.history.deep_view(),
            fingerprint: self.fingerprint@,
        }
    }
}

impl Clone for MetatheoryExitCriterion {
    fn clone(&self) -> (r: Self)
        ensures
            r@ == self@,
    {
        MetatheoryExitCriterion {
            id: self.id.clone(),
            kind: self.kind,
            subject: self.subject.clone(),
            status: self.status,
            evidence: self.evidence.clone(),
            trust: self.trust,
            provenance: self.provenance,
            validation: self.validation,
            has_axiom_taint: self.has_axiom_taint,
            has_oracle_taint: self.has_oracle_taint,
            has_unsafe_taint: self.has_unsafe_taint,
            history: copy_strings(&self.history),
            fingerprint: self.fingerprint.clone(),
        }
    }
}

/// The models of a sequence of criteria.
pub open spec fn criteria_view(s: Seq<MetatheoryExitCriterion>) -> Seq<MetatheoryExitCriterionV> {
    s.map_values(|c: MetatheoryExitCriterion| c@)
}

/// The foundation exit report.
#[derive(Debug)]
pub struct MetatheoryFoundationExitReport {
    pub subject: String,
    pub status: MetatheoryFoundationStatus,
    pub criteria: Vec<MetatheoryExitCriterion>,
    pub diagnostics: Vec<Diagnostic>,
    pub max_trust: TrustLevel,
    pub has_axiom_taint: bool,
    pub has_oracle_taint: bool,
    pub has_unsafe_taint: bool,
    pub exit_fingerprint: String,
}

pub struct MetatheoryFoundationExitReportV {
    pub subject: Seq<char>,
    pub status: MetatheoryFoundationStatus,
    pub criteria: Seq<MetatheoryExitCriterionV>,
    pub diagnostics: Seq<DiagnosticV>,
    pub max_trust: TrustLevel,
    pub has_axiom_taint: bool,
    pub has_oracle_taint: bool,
    pub has_unsafe_taint: bool,
    pub exit_fingerprint: Seq<char>,
}

impl View for MetatheoryFoundationExitReport {
    type V = MetatheoryFoundationExitReportV;

    open spec fn view(&self) -> MetatheoryFoundationExitReportV {
        MetatheoryFoundationExitReportV {
            subject: self.subject@,
            status: self.status,
            criteria: criteria_view(self.criteria@),
            diagnostics: diagnostics_view(self.diagnostics@),
            max_trust: self.max_trust,
            has_axiom_taint: self.has_axiom_taint,
            has_oracle_taint: self.has_oracle_taint,
            has_unsafe_taint: self.has_unsafe_taint,
            exit_fingerprint: self.exit_fingerprint@,
        }
    }
}

/// An error of the foundation exit gate.
pub open spec fn foundation_error_model(line: usize, message: Seq<char>, help: Seq<char>) -> DiagnosticV {
    error_with_help(DiagnosticKind::MetatheoryFoundationError, line, message, help)
}

fn foundation_error(line: usize, message: &str, help: &str) -> (r: Diagnostic)
    ensures
        r@ == foundation_error_model(line, message@, help@),
{
    Diagnostic::error(DiagnosticKind::MetatheoryFoundationError, Some(line), message).with_help(help)
}

/// The error for a blank identifier, if `value` is blank.
pub open spec fn foundation_blank_error(value: Seq<char>, label: Seq<char>, line: usize) -> Option<DiagnosticV> {
    if all_ws(value) {
        Some(foundation_error_model(
            line,
            label + " must not be empty"@,
            "metatheory foundation exit evidence requires stable non-empty identifiers"@,
        ))
    } else {
        None
    }
}

fn require_non_empty(value: &str, label: &str, line: usize) -> (r: Result<(), Diagnostic>)
    ensures
        foundation_blank_error(value@, label@, line) == (match r {
            Ok(()) => None::<DiagnosticV>,
            Err(d) => Some(d@),
        }),
{
    if is_blank(value) {
        let mut msg = String::from_str(label);
        msg.append(" must not be empty");
        Err(foundation_error(line, msg.as_str(), "metatheory foundation exit evidence requires stable non-empty identifiers"))
    } else {
        Ok(())
    }
}

/// The prefix of foundation-exit fingerprints.
pub open spec fn exit_prefix() -> Seq<char> {
    "dlm-metatheory-foundation-exit-v1-"@
}

/// Axiom taint of a trust level and provenance.
pub open spec fn axiom_tainted(trust: TrustLevel) -> bool {
    trust.rank() >= TrustLevel::Axiom.rank()
}

/// Oracle taint of a trust level and provenance.
pub open spec fn oracle_tainted(trust: TrustLevel, provenance: Provenance) -> bool {
    trust.rank() >= TrustLevel::Oracle.rank() || provenance == Provenance::OracleInput
}

/// Unsafe taint of a trust level and provenance.
pub open spec fn unsafe_tainted(trust: TrustLevel, provenance: Provenance) -> bool {
    trust.rank() >= TrustLevel::Unsafe.rank() || provenance == Provenance::UnsafeExternal
}

/// The parts a criterion's fingerprint is taken over.
pub open spec fn criterion_parts(
    id: Seq<char>,
    kind: MetatheoryExitCriterionKind,
    subject: Seq<char>,
    status: MetatheoryExitCriterionStatus,
    evidence: Seq<char>,
    trust: TrustLevel,
    provenance: Provenance,
    validation: ValidationState,
    history: Seq<Seq<char>>,
) -> Seq<Seq<char>> {
    seq![
        "metatheory-exit-criterion:v1"@,
        id,
        kind.display_text(),
        subject,
        status.display_text(),
        evidence,
        trust.debug_text(),
        provenance.debug_text(),
        validation.debug_text(),
        bool_text(axiom_tainted(trust)),
        bool_text(oracle_tainted(trust, provenance)),
        bool_text(unsafe_tainted(trust, provenance)),
    ] + history
}

/// What `metatheory_exit_criterion` gives: the criterion, when its id,
/// subject and evidence are not blank (checked in that order).
pub open spec fn exit_criterion_spec(
    id: Seq<char>,
    kind: MetatheoryExitCriterionKind,
    subject: Seq<char>,
    status: MetatheoryExitCriterionStatus,
    evidence: Seq<char>,
    trust: TrustLevel,
    provenance: Provenance,
    validation: ValidationState,
    history: Seq<Seq<char>>,
    line: usize,
) -> Result<MetatheoryExitCriterionV, DiagnosticV> {
    if foundation_blank_error(id, "metatheory exit criterion id"@, line) is Some {
        Err(foundation_blank_error(id, "metatheory exit criterion id"@, line)->Some_0)
    } else if foundation_blank_error(subject, "metatheory exit criterion subject"@, line) is Some {
        Err(foundation_blank_error(subject, "metatheory exit criterion subject"@, line)->Some_0)
    } else if foundation_blank_error(evidence, "metatheory exit criterion evidence"@, line) is Some {
        Err(foundation_blank_error(evidence, "metatheory exit criterion evidence"@, line)->Some_0)
    } else {
        Ok(MetatheoryExitCriterionV {
            id,
            kind,
            subject,
            status,
            evidence,
            trust,
            provenance,
            validation,
            has_axiom_taint: axiom_tainted(trust),
            has_oracle_taint: oracle_tainted(trust, provenance),
            has_unsafe_taint: unsafe_tainted(trust, provenance),
            history,
            fingerprint: fingerprint_text(
                exit_prefix(),
                criterion_parts(id, kind, subject, status, evidence, trust, provenance, validation, history),
            ),
        })
    }
}

pub fn metatheory_exit_criterion(
    id: &str,
    kind: MetatheoryExitCriterionKind,
    subject: &str,
    status: MetatheoryExitCriterionStatus,
    evidence: &str,
    trust: TrustLevel,
    provenance: Provenance,
    validation: ValidationState,
    history: Vec<String>,
    line: usize,
) -> (r: Result<MetatheoryExitCriterion, Diagnostic>)
    ensures
        exit_criterion_spec(id@, kind, subject@, status, evidence@, trust, provenance, validation, history.deep_view(), line) == (
        match r {
            Ok(c) => Ok::<MetatheoryExitCriterionV, DiagnosticV>(c@),
            Err(d) => Err::<MetatheoryExitCriterionV, DiagnosticV>(d@),
        }),
{
    match require_non_empty(id, "metatheory exit criterion id", line) {
        Err(d) => return Err(d),
        Ok(()) => {},
    }
    match require_non_empty(subject, "metatheory exit criterion subject", line) {
        Err(d) => return Err(d),
        Ok(()) => {},
    }
    match require_non_empty(evidence, "metatheory exit criterion evidence", line) {
        Err(d) => return Err(d),
        Ok(()) => {},
    }
    let has_axiom_taint = trust.rank() >= TrustLevel::Axiom.rank();
    let has_oracle_taint = trust.rank() >= TrustLevel::Oracle.rank() || provenance == Provenance::OracleInput;
    let has_unsafe_taint = trust.rank() >= TrustLevel::Unsafe.rank() || provenance == Provenance::UnsafeExternal;
    let mut parts: Vec<String> = Vec::new();
    parts.push(String::from_str("metatheory-exit-criterion:v1"));
    parts.push(String::from_str(id));
    parts.push(String::from_str(kind.display_str()));
    parts.push(String::from_str(subject));
    parts.push(String::from_str(status.display_str()));
    parts.push(String::from_str(evidence));
    parts.push(String::from_str(trust.debug_str()));
    parts.push(String::from_str(provenance.debug_str()));
    parts.push(String::from_str(validation.debug_str()));
    parts.push(String::from_str(bool_str(has_axiom_taint)));
    parts.push(String::from_str(bool_str(has_oracle_taint)));
    parts.push(String::from_str(bool_str(has_unsafe_taint)));
    let ghost head = strings_view(parts@);
    let mut k: usize = 0;
    while k < history.len()
        invariant
            k <= history.len(),
            strings_view(parts@) =~= head + history.deep_view().take(k as int),
        decreases history.len() - k,
    {
        let ghost before = strings_view(parts@);
        parts.push(history[k].clone());
        assert(strings_view(parts@) =~= before.push(history.deep_view()[k as int]));
        assert(history.deep_view().take(k + 1) =~= history.deep_view().take(k as int).push(history.deep_view()[k as int]));
        k = k + 1;
    }
    assert(history.deep_view().take(k as int) =~= history.deep_view());
    assert(strings_view(parts@) =~= criterion_parts(
        id@,
        kind,
        subject@,
        status,
        evidence@,
        trust,
        provenance,
        validation,
        history.deep_view(),
    ));
    let fingerprint = stable_fingerprint("dlm-metatheory-foundation-exit-v1-", &parts);
    Ok(MetatheoryExitCriterion {
        id: String::from_str(id),
        kind,
        subject: String::from_str(subject),
        status,
        evidence: String::from_str(evidence),
        trust,
        provenance,
        validation,
        has_axiom_taint,
        has_oracle_taint,
        has_unsafe_taint,
        history,
        fingerprint,
    })
}

/// The subject that a passport's type names, for the kinds of passport that
/// count as foundation evidence.
pub open spec fn passport_subject(t: TypeKindV) -> Option<Seq<char>> {
    match t {
        TypeKindV::MetaLevel { level } => Some("M"@ + dec_text(level as nat)),
        TypeKindV::Provable { object_theory, proposition } => Some(object_theory + "."@ + proposition),
        TypeKindV::ConsistencyClaim { theory } => Some(theory),
        TypeKindV::ReflectionClaim { object_theory, proposition } => Some(object_theory + "."@ + proposition),
        TypeKindV::SelfReferenceClaim { proposition } => Some(proposition),
        TypeKindV::Statement { proposition } => Some(proposition),
        TypeKindV::Goal { proposition } => Some(proposition),
        TypeKindV::Hypothesis { proposition } => Some(proposition),
        TypeKindV::Theorem { name, proposition } => Some(name + ":"@ + proposition),
        TypeKindV::EqProof { lhs, rhs } => Some(lhs + "="@ + rhs),
        TypeKindV::RewriteRule { name, lhs, rhs } => Some(name + ":"@ + lhs + "->"@ + rhs),
        TypeKindV::RewriteCertificate { from, to } => Some(from + "->"@ + to),
        TypeKindV::NatInductionScheme { proposition_family } => Some(proposition_family),
        TypeKindV::InductionProof { proposition } => Some(proposition),
        TypeKindV::InductionBaseCase { proposition } => Some(proposition),
        TypeKindV::InductionStepCase { proposition } => Some(proposition),
        TypeKindV::ModuleManifest { module } => Some(module),
        TypeKindV::ModuleInterface { module } => Some(module),
        TypeKindV::ImportGraph { root } => Some(root),
        TypeKindV::ModuleImportAudit { importer, provider, status } => Some(importer + "->"@ + provider + ":"@ + status),
        TypeKindV::AxiomRegistry { theory } => Some(theory),
        TypeKindV::MetatheoryDependencyAudit { subject, .. } => Some(subject),
        TypeKindV::MetatheoryClosureReport { subject, .. } => Some(subject),
        TypeKindV::GlobalMetatheoryInventory { subject, .. } => Some(subject),
        TypeKindV::SoundnessBoundaryLedger { subject, .. } => Some(subject),
        TypeKindV::TrustedBaseClosure { subject, .. } => Some(subject),
        TypeKindV::MetatheoryFoundationExit { subject, .. } => Some(subject),
        TypeKindV::ConservativeExtensionAudit { base, extension, .. } => Some(base + "->"@ + extension),
        _ => None,
    }
}

/// The subject of a passport as evidence, or why it is none.
pub open spec fn passport_subject_spec(p: PassportV, line: usize) -> Result<Seq<char>, DiagnosticV> {
    match passport_subject(p.ty) {
        None => Err(foundation_error_model(
            line,
            "passport `"@ + type_text(p.ty) + "` is not metatheory-foundation exit evidence"@,
            "exit evidence must come from an explicit metatheory/passport/audit boundary artifact"@,
        )),
        Some(s) => match foundation_blank_error(s, "metatheory exit passport subject"@, line) {
            Some(d) => Err(d),
            None => Ok(s),
        },
    }
}

fn cat2(a: &str, sep: &str, b: &str) -> (r: String)
    ensures
        r@ == a@ + sep@ + b@,
{
    let mut s = String::from_str(a);
    s.append(sep);
    s.append(b);
    s
}

fn subject_from_passport(passport: &Passport, line: usize) -> (r: Result<String, Diagnostic>)
    ensures
        passport_subject_spec(passport@, line) == (match r {
            Ok(s) => Ok::<Seq<char>, DiagnosticV>(s@),
            Err(d) => Err::<Seq<char>, DiagnosticV>(d@),
        }),
{
    let subject: String = match &passport.ty {
        TypeKind::MetaLevel { level } => {
            let mut s = String::from_str("M");
            s.append(u8_text(*level).as_str());
            s
        },
        TypeKind::Provable { object_theory, proposition } => cat2(object_theory.as_str(), ".", proposition.as_str()),
        TypeKind::ConsistencyClaim { theory } => theory.clone(),
        TypeKind::ReflectionClaim { object_theory, proposition } => cat2(object_theory.as_str(), ".", proposition.as_str()),
        TypeKind::SelfReferenceClaim { proposition } => proposition.clone(),
        TypeKind::Statement { proposition } => proposition.clone(),
        TypeKind::Goal { proposition } => proposition.clone(),
        TypeKind::Hypothesis { proposition } => proposition.clone(),
        TypeKind::Theorem { name, proposition } => cat2(name.as_str(), ":", proposition.as_str()),
        TypeKind::EqProof { lhs, rhs } => cat2(lhs.as_str(), "=", rhs.as_str()),
        TypeKind::RewriteRule { name, lhs, rhs } => {
            let mut s = cat2(name.as_str(), ":", lhs.as_str());
            s.append("->");
            s.append(rhs.as_str());
            s
        },
        TypeKind::RewriteCertificate { from, to } => cat2(from.as_str(), "->", to.as_str()),
        TypeKind::NatInductionScheme { proposition_family } => proposition_family.clone(),
        TypeKind::InductionProof { proposition } => proposition.clone(),
        TypeKind::InductionBaseCase { proposition } => proposition.clone(),
        TypeKind::InductionStepCase { proposition } => proposition.clone(),
        TypeKind::ModuleManifest { module } => module.clone(),
        TypeKind::ModuleInterface { module } => module.clone(),
        TypeKind::ImportGraph { root } => root.clone(),
        TypeKind::ModuleImportAudit { importer, provider, status } => {
            let mut s = cat2(importer.as_str(), "->", provider.as_str());
            s.append(":");
            s.append(status.as_str());
            s
        },
        TypeKind::AxiomRegistry { theory } => theory.clone(),
        TypeKind::MetatheoryDependencyAudit { subject, .. } => subject.clone(),
        TypeKind::MetatheoryClosureReport { subject, .. } => subject.clone(),
        TypeKind::GlobalMetatheoryInventory { subject, .. } => subject.clone(),
        TypeKind::SoundnessBoundaryLedger { subject, .. } => subject.clone(),
        TypeKind::TrustedBaseClosure { subject, .. } => subject.clone(),
        TypeKind::MetatheoryFoundationExit { subject, .. } => subject.clone(),
        TypeKind::ConservativeExtensionAudit { base, extension, .. } => cat2(base.as_str(), "->", extension.as_str()),
        _ => {
            let mut msg = String::from_str("passport `");
            msg.append(passport.ty.to_text().as_str());
            msg.append("` is not metatheory-foundation exit evidence");
            return Err(foundation_error(line, msg.as_str(), "exit evidence must come from an explicit metatheory/passport/audit boundary artifact"));
        },
    };
    assert(passport_subject(passport@.ty) == Some(subject@));
    match require_non_empty(subject.as_str(), "metatheory exit passport subject", line) {
        Err(d) => Err(d),
        Ok(()) => Ok(subject),
    }
}

/// The status text a passport's type carries, for audit and report kinds.
pub open spec fn passport_status_text(t: TypeKindV) -> Option<Seq<char>> {
    match t {
        TypeKindV::MetatheoryDependencyAudit { status, .. } => Some(status),
        TypeKindV::MetatheoryClosureReport { status, .. } => Some(status),
        TypeKindV::ConservativeExtensionAudit { status, .. } => Some(status),
        TypeKindV::GlobalMetatheoryInventory { status, .. } => Some(status),
        TypeKindV::SoundnessBoundaryLedger { status, .. } => Some(status),
        TypeKindV::TrustedBaseClosure { status, .. } => Some(status),
        TypeKindV::MetatheoryFoundationExit { status, .. } => Some(status),
        _ => None,
    }
}

/// How far a passport meets a criterion: by its status text where it has one
/// (ready, closed, verified or satisfied meet it; open or incomplete leave it
/// open; anything else fails it), else by whether it was statically checked.
pub open spec fn passport_status(p: PassportV) -> MetatheoryExitCriterionStatus {
    match passport_status_text(p.ty) {
        Some(s) => if s == "ready"@ || s == "closed"@ || s == "verified"@ || s == "satisfied"@ {
            MetatheoryExitCriterionStatus::Satisfied
        } else if s == "open"@ || s == "incomplete"@ {
            MetatheoryExitCriterionStatus::Open
        } else {
            MetatheoryExitCriterionStatus::Failed
        },
        None => if p.validation == ValidationState::StaticChecked {
            MetatheoryExitCriterionStatus::Satisfied
        } else {
            MetatheoryExitCriterionStatus::Open
        },
    }
}

fn status_of_text(s: &str) -> (r: MetatheoryExitCriterionStatus)
    ensures
        r == (if s@ == "ready"@ || s@ == "closed"@ || s@ == "verified"@ || s@ == "satisfied"@ {
            MetatheoryExitCriterionStatus::Satisfied
        } else if s@ == "open"@ || s@ == "incomplete"@ {
            MetatheoryExitCriterionStatus::Open
        } else {
            MetatheoryExitCriterionStatus::Failed
        }),
{
    if str_eq(s, "ready") || str_eq(s, "closed") || str_eq(s, "verified") || str_eq(s, "satisfied") {
        MetatheoryExitCriterionStatus::Satisfied
    } else if str_eq(s, "open") || str_eq(s, "incomplete") {
        MetatheoryExitCriterionStatus::Open
    } else {
        MetatheoryExitCriterionStatus::Failed
    }
}

fn status_from_passport(passport: &Passport) -> (r: MetatheoryExitCriterionStatus)
    ensures
        r == passport_status(passport@),
{
    match &passport.ty {
        TypeKind::MetatheoryDependencyAudit { status, .. } => status_of_text(status.as_str()),
        TypeKind::MetatheoryClosureReport { status, .. } => status_of_text(status.as_str()),
        TypeKind::ConservativeExtensionAudit { status, .. } => status_of_text(status.as_str()),
        TypeKind::GlobalMetatheoryInventory { status, .. } => status_of_text(status.as_str()),
        TypeKind::SoundnessBoundaryLedger { status, .. } => status_of_text(status.as_str()),
        TypeKind::TrustedBaseClosure { status, .. } => status_of_text(status.as_str()),
        TypeKind::MetatheoryFoundationExit { status, .. } => status_of_text(status.as_str()),
        _ => {
            if passport.validation == ValidationState::StaticChecked {
                MetatheoryExitCriterionStatus::Satisfied
            } else {
                MetatheoryExitCriterionStatus::Open
            }
        },
    }
}

/// What `metatheory_exit_criterion_from_passport` gives: a criterion whose
/// subject and status come from the passport's type, whose evidence is the
/// type's text and whose taint and history are the passport's.
pub open spec fn criterion_from_passport_spec(id: Seq<char>, kind: MetatheoryExitCriterionKind, p: PassportV, line: usize) -> Result<
    MetatheoryExitCriterionV,
    DiagnosticV,
> {
    match passport_subject_spec(p, line) {
        Err(d) => Err(d),
        Ok(s) => exit_criterion_spec(
            id,
            kind,
            s,
            passport_status(p),
            type_text(p.ty),
            p.trust,
            p.provenance,
            p.validation,
            p.history,
            line,
        ),
    }
}

pub fn metatheory_exit_criterion_from_passport(id: &str, kind: MetatheoryExitCriterionKind, passport: &Passport, line: usize) -> (r: Result<
    MetatheoryExitCriterion,
    Diagnostic,
>)
    ensures
        criterion_from_passport_spec(id@, kind, passport@, line) == (match r {
            Ok(c) => Ok::<MetatheoryExitCriterionV, DiagnosticV>(c@),
            Err(d) => Err::<MetatheoryExitCriterionV, DiagnosticV>(d@),
        }),
{
    let subject = match subject_from_passport(passport, line) {
        Err(d) => return Err(d),
        Ok(s) => s,
    };
    let status = status_from_passport(passport);
    let history = copy_strings(passport.history.events());
    metatheory_exit_criterion(
        id,
        kind,
        subject.as_str(),
        status,
        passport.ty.to_text().as_str(),
        passport.trust,
        passport.provenance,
        passport.validation,
        history,
        line,
    )
}

/// The criteria a ready foundation must hold, in the order they are checked.
pub open spec fn required_exit_kinds() -> Seq<MetatheoryExitCriterionKind> {
    seq![
        MetatheoryExitCriterionKind::MetaLevelStratification,
        MetatheoryExitCriterionKind::TruthProvabilityBoundary,
        MetatheoryExitCriterionKind::ConsistencyBoundary,
        MetatheoryExitCriterionKind::ReflectionBoundary,
        MetatheoryExitCriterionKind::StatementTheoremBoundary,
        MetatheoryExitCriterionKind::ProofContextBoundary,
        MetatheoryExitCriterionKind::EqualityRewriteBoundary,
        MetatheoryExitCriterionKind::RewriteNormalizationBoundary,
        MetatheoryExitCriterionKind::InductionBoundary,
        MetatheoryExitCriterionKind::ModuleBoundary,
        MetatheoryExitCriterionKind::AxiomAccounting,
        MetatheoryExitCriterionKind::DependencyAccounting,
        MetatheoryExitCriterionKind::ClosureAccounting,
        MetatheoryExitCriterionKind::TheoremDependencyInventory,
        MetatheoryExitCriterionKind::SoundnessBoundaryLedger,
        MetatheoryExitCriterionKind::TrustedBaseClosure,
        MetatheoryExitCriterionKind::RegressionCoverage,
    ]
}

pub fn required_metatheory_exit_criteria() -> (r: [MetatheoryExitCriterionKind; 17])
    ensures
        r@ == required_exit_kinds(),
{
    let r = [
        MetatheoryExitCriterionKind::MetaLevelStratification,
        MetatheoryExitCriterionKind::TruthProvabilityBoundary,
        MetatheoryExitCriterionKind::ConsistencyBoundary,
        MetatheoryExitCriterionKind::ReflectionBoundary,
        MetatheoryExitCriterionKind::StatementTheoremBoundary,
        MetatheoryExitCriterionKind::ProofContextBoundary,
        MetatheoryExitCriterionKind::EqualityRewriteBoundary,
        MetatheoryExitCriterionKind::RewriteNormalizationBoundary,
        MetatheoryExitCriterionKind::InductionBoundary,
        MetatheoryExitCriterionKind::ModuleBoundary,
        MetatheoryExitCriterionKind::AxiomAccounting,
        MetatheoryExitCriterionKind::DependencyAccounting,
        MetatheoryExitCriterionKind::ClosureAccounting,
        MetatheoryExitCriterionKind::TheoremDependencyInventory,
        MetatheoryExitCriterionKind::SoundnessBoundaryLedger,
        MetatheoryExitCriterionKind::TrustedBaseClosure,
        MetatheoryExitCriterionKind::RegressionCoverage,
    ];
    assert(r@ =~= required_exit_kinds());
    r
}

/// The diagnostics for criterion `k`: an id or fingerprint an earlier
/// criterion has, and a failed status.
pub open spec fn criterion_diags(cs: Seq<MetatheoryExitCriterionV>, line: usize, k: int) -> Seq<DiagnosticV> {
    let c = cs[k];
    (if exists|j: int| 0 <= j < k && #[trigger] cs[j].id == c.id {
        seq![foundation_error_model(
            line,
            "duplicate metatheory exit criterion id `"@ + c.id + "`"@,
            "each exit criterion must have a unique stable id"@,
        )]
    } else {
        Seq::empty()
    }) + (if exists|j: int| 0 <= j < k && #[trigger] cs[j].fingerprint == c.fingerprint {
        seq![foundation_error_model(
            line,
            "duplicate metatheory exit criterion fingerprint `"@ + c.fingerprint + "`"@,
            "duplicated exit evidence must be recorded once or made explicit with distinct identity"@,
        )]
    } else {
        Seq::empty()
    }) + (if c.status == MetatheoryExitCriterionStatus::Failed {
        seq![foundation_error_model(
            line,
            "metatheory exit criterion `"@ + c.id + "` failed"@,
            "failed foundation criteria block the transition to ordinary language mathematics"@,
        )]
    } else {
        Seq::empty()
    })
}

/// The diagnostics for the first `n` criteria.
pub open spec fn criteria_diags(cs: Seq<MetatheoryExitCriterionV>, line: usize, n: int) -> Seq<DiagnosticV>
    decreases n,
{
    if n <= 0 {
        Seq::empty()
    } else {
        criteria_diags(cs, line, n - 1) + criterion_diags(cs, line, n - 1)
    }
}

/// Some criterion is of kind `kind`.
pub open spec fn kind_present(cs: Seq<MetatheoryExitCriterionV>, kind: MetatheoryExitCriterionKind) -> bool {
    exists|k: int| 0 <= k < cs.len() && #[trigger] cs[k].kind == kind
}

/// The diagnostics for the first `n` required kinds that no criterion has.
pub open spec fn missing_diags(cs: Seq<MetatheoryExitCriterionV>, line: usize, n: int) -> Seq<DiagnosticV>
    decreases n,
{
    if n <= 0 {
        Seq::empty()
    } else {
        let kind = required_exit_kinds()[n - 1];
        missing_diags(cs, line, n - 1) + if kind_present(cs, kind) {
            Seq::<DiagnosticV>::empty()
        } else {
            seq![foundation_error_model(
                line,
                "metatheory foundation exit is missing required criterion `"@ + kind.display_text() + "`"@,
                "the metamathematical foundation cannot be marked ready until every required criterion is explicitly satisfied"@,
            )]
        }
    }
}

/// All the diagnostics of an exit report, in the order they are reported.
pub open spec fn exit_diags(subject: Seq<char>, cs: Seq<MetatheoryExitCriterionV>, line: usize) -> Seq<DiagnosticV> {
    (if all_ws(subject) {
        seq![foundation_error_model(
            line,
            "metatheory foundation exit subject must not be empty"@,
            "the foundation exit report needs stable subject identity before it can unlock the next development phase"@,
        )]
    } else {
        Seq::empty()
    }) + (if cs.len() == 0 {
        seq![foundation_error_model(
            line,
            "metatheory foundation exit report has no criteria"@,
            "the exit gate must enumerate every required metamathematical foundation criterion"@,
        )]
    } else {
        Seq::empty()
    }) + criteria_diags(cs, line, cs.len() as int) + missing_diags(cs, line, 17)
}

/// The least trusted level among the criteria (from `Checked`), and whether
/// any carries axiom, oracle or unsafe taint.
pub open spec fn exit_taint(cs: Seq<MetatheoryExitCriterionV>) -> (TrustLevel, bool, bool, bool)
    decreases cs.len(),
{
    if cs.len() == 0 {
        (TrustLevel::Checked, false, false, false)
    } else {
        let (t, a, o, u) = exit_taint(cs.drop_last());
        let c = cs.last();
        (
            t.higher(c.trust),
            a || c.has_axiom_taint || axiom_tainted(c.trust),
            o || c.has_oracle_taint || oracle_tainted(c.trust, c.provenance),
            u || c.has_unsafe_taint || unsafe_tainted(c.trust, c.provenance),
        )
    }
}

/// A diagnostic whose message rejects the foundation outright.
pub open spec fn rejecting_message(m: Seq<char>) -> bool {
    contains_text(m, "duplicate"@) || contains_text(m, "subject must not be empty"@) || contains_text(m, "has no criteria"@)
}

/// The status of a report: `Rejected` when a criterion failed or a message
/// rejects it, `Incomplete` when a criterion is open or a required kind is
/// missing, `Ready` otherwise.
pub open spec fn exit_status(cs: Seq<MetatheoryExitCriterionV>, ds: Seq<DiagnosticV>) -> MetatheoryFoundationStatus {
    if (exists|k: int| 0 <= k < cs.len() && #[trigger] cs[k].status == MetatheoryExitCriterionStatus::Failed) || (exists|i: int|
        0 <= i < ds.len() && rejecting_message(#[trigger] ds[i].message)) {
        MetatheoryFoundationStatus::Rejected
    } else if (exists|k: int| 0 <= k < cs.len() && #[trigger] cs[k].status == MetatheoryExitCriterionStatus::Open) || (exists|r: int|
        0 <= r < 17 && !kind_present(cs, #[trigger] required_exit_kinds()[r])) {
        MetatheoryFoundationStatus::Incomplete
    } else {
        MetatheoryFoundationStatus::Ready
    }
}

/// What each criterion contributes to the exit fingerprint.
pub open spec fn criterion_entry_text(c: MetatheoryExitCriterionV) -> Seq<char> {
    "criterion:"@ + c.id + ":"@ + c.kind.display_text() + ":"@ + c.status.display_text() + ":"@ + c.fingerprint + ":"@
        + c.trust.debug_text()
}

/// What each diagnostic contributes to the exit fingerprint.
pub open spec fn diagnostic_entry_text(d: DiagnosticV) -> Seq<char> {
    "diagnostic:"@ + d.kind.debug_text() + ":"@ + d.message
}

/// The parts the exit fingerprint is taken over.
pub open spec fn exit_parts(
    subject: Seq<char>,
    status: MetatheoryFoundationStatus,
    cs: Seq<MetatheoryExitCriterionV>,
    ds: Seq<DiagnosticV>,
    max_trust: TrustLevel,
    ax: bool,
    or: bool,
    un: bool,
) -> Seq<Seq<char>> {
    seq![
        "metatheory-foundation-exit:v1"@,
        subject,
        status.display_text(),
        max_trust.debug_text(),
        bool_text(ax),
        bool_text(or),
        bool_text(un),
    ] + cs.map_values(|c: MetatheoryExitCriterionV| criterion_entry_text(c)) + ds.map_values(
        |d: DiagnosticV| diagnostic_entry_text(d),
    )
}

/// What `metatheory_foundation_exit_report` gives.
pub open spec fn exit_report_spec(subject: Seq<char>, cs: Seq<MetatheoryExitCriterionV>, line: usize) -> MetatheoryFoundationExitReportV {
    let ds = exit_diags(subject, cs, line);
    let status = exit_status(cs, ds);
    let (t, a, o, u) = exit_taint(cs);
    MetatheoryFoundationExitReportV {
        subject,
        status,
        criteria: cs,
        diagnostics: ds,
        max_trust: t,
        has_axiom_taint: a,
        has_oracle_taint: o,
        has_unsafe_taint: u,
        exit_fingerprint: fingerprint_text(exit_prefix(), exit_parts(subject, status, cs, ds, t, a, o, u)),
    }
}

fn push_diag(ds: &mut Vec<Diagnostic>, d: Diagnostic)
    ensures
        diagnostics_view(final(ds)@) == diagnostics_view(old(ds)@).push(d@),
{
    ds.push(d);
    assert(diagnostics_view(ds@) =~= diagnostics_view(old(ds)@).push(d@));
}

fn check_criterion(criteria: &Vec<MetatheoryExitCriterion>, k: usize, line: usize, ds: &mut Vec<Diagnostic>)
    requires
        k < criteria.len(),
    ensures
        diagnostics_view(final(ds)@) == diagnostics_view(old(ds)@) + criterion_diags(criteria_view(criteria@), line, k as int),
{
    let ghost cs = criteria_view(criteria@);
    let ghost start = diagnostics_view(ds@);
    assert(cs[k as int] == criteria@[k as int]@);
    let c = &criteria[k];
    let mut dup_id = false;
    let mut dup_fp = false;
    let mut j: usize = 0;
    while j < k
        invariant
            cs == criteria_view(criteria@),
            j <= k < criteria.len(),
            cs[k as int] == c@,
            dup_id == exists|m: int| 0 <= m < j && #[trigger] cs[m].id == c@.id,
            dup_fp == exists|m: int| 0 <= m < j && #[trigger] cs[m].fingerprint == c@.fingerprint,
        decreases k - j,
    {
        assert(cs[j as int] == criteria@[j as int]@);
        assert(cs[j as int].id == criteria@[j as int].id@ && cs[j as int].fingerprint == criteria@[j as int].fingerprint@);
        if str_eq(criteria[j].id.as_str(), c.id.as_str()) {
            dup_id = true;
        }
        if str_eq(criteria[j].fingerprint.as_str(), c.fingerprint.as_str()) {
            dup_fp = true;
        }
        j = j + 1;
    }
    if dup_id {
        let mut msg = String::from_str("duplicate metatheory exit criterion id `");
        msg.append(c.id.as_str());
        msg.append("`");
        push_diag(ds, foundation_error(line, msg.as_str(), "each exit criterion must have a unique stable id"));
    }
    let ghost d1 = diagnostics_view(ds@);
    if dup_fp {
        let mut msg = String::from_str("duplicate metatheory exit criterion fingerprint `");
        msg.append(c.fingerprint.as_str());
        msg.append("`");
        push_diag(
            ds,
            foundation_error(line, msg.as_str(), "duplicated exit evidence must be recorded once or made explicit with distinct identity"),
        );
    }
    let ghost d2 = diagnostics_view(ds@);
    if c.status == MetatheoryExitCriterionStatus::Failed {
        let mut msg = String::from_str("metatheory exit criterion `");
        msg.append(c.id.as_str());
        msg.append("` failed");
        push_diag(ds, foundation_error(line, msg.as_str(), "failed foundation criteria block the transition to ordinary language mathematics"));
    }
    assert(diagnostics_view(ds@) =~= start + criterion_diags(cs, line, k as int));
}

fn kind_is_present(criteria: &Vec<MetatheoryExitCriterion>, kind: MetatheoryExitCriterionKind) -> (r: bool)
    ensures
        r == kind_present(criteria_view(criteria@), kind),
{
    let ghost cs = criteria_view(criteria@);
    let mut k: usize = 0;
    while k < criteria.len()
        invariant
            cs == criteria_view(criteria@),
            k <= criteria.len(),
            forall|m: int| 0 <= m < k ==> (#[trigger] cs[m]).kind != kind,
        decreases criteria.len() - k,
    {
        assert(cs[k as int] == criteria@[k as int]@);
        if criteria[k].kind == kind {
            return true;
        }
        k = k + 1;
    }
    false
}

fn is_rejecting(message: &str) -> (r: bool)
    ensures
        r == rejecting_message(message@),
{
    text_contains(message, "duplicate") || text_contains(message, "subject must not be empty") || text_contains(message, "has no criteria")
}

fn criterion_entry(c: &MetatheoryExitCriterion) -> (r: String)
    ensures
        r@ == criterion_entry_text(c@),
{
    let mut s = String::from_str("criterion:");
    s.append(c.id.as_str());
    s.append(":");
    s.append(c.kind.display_str());
    s.append(":");
    s.append(c.status.display_str());
    s.append(":");
    s.append(c.fingerprint.as_str());
    s.append(":");
    s.append(c.trust.debug_str());
    s
}

fn diagnostic_entry(d: &Diagnostic) -> (r: String)
    ensures
        r@ == diagnostic_entry_text(d@),
{
    let mut s = String::from_str("diagnostic:");
    s.append(d.kind.debug_str());
    s.append(":");
    s.append(d.message.as_str());
    s
}

fn exit_fingerprint(
    subject: &str,
    status: MetatheoryFoundationStatus,
    criteria: &Vec<MetatheoryExitCriterion>,
    diagnostics: &Vec<Diagnostic>,
    max_trust: TrustLevel,
    ax: bool,
    or: bool,
    un: bool,
) -> (r: String)
    ensures
        r@ == fingerprint_text(
            exit_prefix(),
            exit_parts(subject@, status, criteria_view(criteria@), diagnostics_view(diagnostics@), max_trust, ax, or, un),
        ),
{
    let ghost cs = criteria_view(criteria@);
    let ghost ds = diagnostics_view(diagnostics@);
    let mut parts: Vec<String> = Vec::new();
    parts.push(String::from_str("metatheory-foundation-exit:v1"));
    parts.push(String::from_str(subject));
    parts.push(String::from_str(status.display_str()));
    parts.push(String::from_str(max_trust.debug_str()));
    parts.push(String::from_str(bool_str(ax)));
    parts.push(String::from_str(bool_str(or)));
    parts.push(String::from_str(bool_str(un)));
    let ghost head = strings_view(parts@);
    let ghost centries = cs.map_values(|c: MetatheoryExitCriterionV| criterion_entry_text(c));
    let ghost dentries = ds.map_values(|d: DiagnosticV| diagnostic_entry_text(d));
    let mut k: usize = 0;
    while k < criteria.len()
        invariant
            cs == criteria_view(criteria@),
            centries == cs.map_values(|c: MetatheoryExitCriterionV| criterion_entry_text(c)),
            k <= criteria.len(),
            strings_view(parts@) =~= head + centries.take(k as int),
        decreases criteria.len() - k,
    {
        assert(cs[k as int] == criteria@[k as int]@);
        let ghost before = strings_view(parts@);
        parts.push(criterion_entry(&criteria[k]));
        assert(strings_view(parts@) =~= before.push(centries[k as int]));
        assert(centries.take(k + 1) =~= centries.take(k as int).push(centries[k as int]));
        k = k + 1;
    }
    assert(centries.take(k as int) =~= centries);
    let ghost mid = strings_view(parts@);
    let mut i: usize = 0;
    while i < diagnostics.len()
        invariant
            ds == diagnostics_view(diagnostics@),
            dentries == ds.map_values(|d: DiagnosticV| diagnostic_entry_text(d)),
            i <= diagnostics.len(),
            strings_view(parts@) =~= mid + dentries.take(i as int),
        decreases diagnostics.len() - i,
    {
        assert(ds[i as int] == diagnostics@[i as int]@);
        let ghost before = strings_view(parts@);
        parts.push(diagnostic_entry(&diagnostics[i]));
        assert(strings_view(parts@) =~= before.push(dentries[i as int]));
        assert(dentries.take(i + 1) =~= dentries.take(i as int).push(dentries[i as int]));
        i = i + 1;
    }
    assert(dentries.take(i as int) =~= dentries);
    assert(strings_view(parts@) =~= exit_parts(subject@, status, cs, ds, max_trust, ax, or, un));
    stable_fingerprint("dlm-metatheory-foundation-exit-v1-", &parts)
}

#[verifier::rlimit(40)]
pub fn metatheory_foundation_exit_report(subject: &str, criteria: Vec<MetatheoryExitCriterion>, line: usize) -> (r:
    MetatheoryFoundationExitReport)
    ensures
        r@ == exit_report_spec(subject@, criteria_view(criteria@), line),
{
    let ghost cs = criteria_view(criteria@);
    let mut diagnostics: Vec<Diagnostic> = Vec::new();
    assert(diagnostics_view(diagnostics@) =~= Seq::<DiagnosticV>::empty());
    if is_blank(subject) {
        push_diag(
            &mut diagnostics,
            foundation_error(
                line,
                "metatheory foundation exit subject must not be empty",
                "the foundation exit report needs stable subject identity before it can unlock the next development phase",
            ),
        );
    }
    if criteria.len() == 0 {
        push_diag(
            &mut diagnostics,
            foundation_error(
                line,
                "metatheory foundation exit report has no criteria",
                "the exit gate must enumerate every required metamathematical foundation criterion",
            ),
        );
    }
    let ghost head = diagnostics_view(diagnostics@);
    let mut has_open = false;
    let mut has_failed = false;
    let mut max_trust = TrustLevel::Checked;
    let mut ax = false;
    let mut or = false;
    let mut un = false;
    let mut k: usize = 0;
    while k < criteria.len()
        invariant
            cs == criteria_view(criteria@),
            k <= criteria.len(),
            diagnostics_view(diagnostics@) == head + criteria_diags(cs, line, k as int),
            (max_trust, ax, or, un) == exit_taint(cs.take(k as int)),
            has_open == exists|m: int| 0 <= m < k && #[trigger] cs[m].status == MetatheoryExitCriterionStatus::Open,
            has_failed == exists|m: int| 0 <= m < k && #[trigger] cs[m].status == MetatheoryExitCriterionStatus::Failed,
        decreases criteria.len() - k,
    {
        assert(cs[k as int] == criteria@[k as int]@);
        check_criterion(&criteria, k, line, &mut diagnostics);
        let c = &criteria[k];
        match c.status {
            MetatheoryExitCriterionStatus::Satisfied => {},
            MetatheoryExitCriterionStatus::Open => {
                has_open = true;
            },
            MetatheoryExitCriterionStatus::Failed => {
                has_failed = true;
            },
        }
        assert(cs.take(k + 1).drop_last() =~= cs.take(k as int));
        max_trust = max_trust.higher(c.trust);
        ax = ax || c.has_axiom_taint || c.trust.rank() >= TrustLevel::Axiom.rank();
        or = or || c.has_oracle_taint || c.trust.rank() >= TrustLevel::Oracle.rank() || c.provenance == Provenance::OracleInput;
        un = un || c.has_unsafe_taint || c.trust.rank() >= TrustLevel::Unsafe.rank() || c.provenance == Provenance::UnsafeExternal;
        k = k + 1;
    }
    assert(cs.take(k as int) =~= cs);
    let required = required_metatheory_exit_criteria();
    let ghost mid = diagnostics_view(diagnostics@);
    let mut missing = false;
    let mut r: usize = 0;
    while r < 17
        invariant
            cs == criteria_view(criteria@),
            required@ == required_exit_kinds(),
            r <= 17,
            diagnostics_view(diagnostics@) == mid + missing_diags(cs, line, r as int),
            missing == exists|q: int| 0 <= q < r && !kind_present(cs, #[trigger] required_exit_kinds()[q]),
        decreases 17 - r,
    {
        let kind = required[r];
        let ghost before = diagnostics_view(diagnostics@);
        if !kind_is_present(&criteria, kind) {
            missing = true;
            let mut msg = String::from_str("metatheory foundation exit is missing required criterion `");
            msg.append(kind.display_str());
            msg.append("`");
            push_diag(
                &mut diagnostics,
                foundation_error(
                    line,
                    msg.as_str(),
                    "the metamathematical foundation cannot be marked ready until every required criterion is explicitly satisfied",
                ),
            );
        }
        assert(diagnostics_view(diagnostics@) =~= mid + missing_diags(cs, line, r + 1));
        r = r + 1;
    }
    let ghost ds = diagnostics_view(diagnostics@);
    assert(ds =~= exit_diags(subject@, cs, line));
    let mut rejecting = false;
    let mut i: usize = 0;
    while i < diagnostics.len()
        invariant
            ds == diagnostics_view(diagnostics@),
            i <= diagnostics.len(),
            rejecting == exists|m: int| 0 <= m < i && rejecting_message(#[trigger] ds[m].message),
        decreases diagnostics.len() - i,
    {
        assert(ds[i as int] == diagnostics@[i as int]@);
        assert(ds[i as int].message == diagnostics@[i as int].message@);
        if is_rejecting(diagnostics[i].message.as_str()) {
            rejecting = true;
        }
        i = i + 1;
    }
    let status = if has_failed || rejecting {
        MetatheoryFoundationStatus::Rejected
    } else if has_open || missing {
        MetatheoryFoundationStatus::Incomplete
    } else {
        MetatheoryFoundationStatus::Ready
    };
    let exit_fingerprint = exit_fingerprint(subject, status, &criteria, &diagnostics, max_trust, ax, or, un);
    MetatheoryFoundationExitReport {
        subject: String::from_str(subject),
        status,
        criteria,
        diagnostics,
        max_trust,
        has_axiom_taint: ax,
        has_oracle_taint: or,
        has_unsafe_taint: un,
        exit_fingerprint,
    }
}

/// What `require_metatheory_foundation_ready` gives.
pub open spec fn require_ready_spec(rv: MetatheoryFoundationExitReportV, line: usize) -> Option<DiagnosticV> {
    if rv.status == MetatheoryFoundationStatus::Ready {
        None
    } else {
        Some(foundation_error_model(
            line,
            "metatheory foundation `"@ + rv.subject + "` is "@ + rv.status.display_text(),
            "only a ready metatheory foundation exit report may unlock ordinary mathematics language development"@,
        ))
    }
}

pub fn require_metatheory_foundation_ready(report: &MetatheoryFoundationExitReport, line: usize) -> (r: Result<(), Diagnostic>)
    ensures
        require_ready_spec(report@, line) == (match r {
            Ok(()) => None::<DiagnosticV>,
            Err(d) => Some(d@),
        }),
{
    if report.status == MetatheoryFoundationStatus::Ready {
        Ok(())
    } else {
        let mut msg = String::from_str("metatheory foundation `");
        msg.append(report.subject.as_str());
        msg.append("` is ");
        msg.append(report.status.display_str());
        Err(foundation_error(
            line,
            msg.as_str(),
            "only a ready metatheory foundation exit report may unlock ordinary mathematics language development",
        ))
    }
}

/// The validation a foundation verdict carries.
pub open spec fn validation_for(status: MetatheoryFoundationStatus) -> ValidationState {
    match status {
        MetatheoryFoundationStatus::Ready => ValidationState::StaticChecked,
        MetatheoryFoundationStatus::Incomplete => ValidationState::ConstraintChecked,
        MetatheoryFoundationStatus::Rejected => ValidationState::Raw,
    }
}

fn validation_from_foundation_status(status: MetatheoryFoundationStatus) -> (r: ValidationState)
    ensures
        r == validation_for(status),
{
    match status {
        MetatheoryFoundationStatus::Ready => ValidationState::StaticChecked,
        MetatheoryFoundationStatus::Incomplete => ValidationState::ConstraintChecked,
        MetatheoryFoundationStatus::Rejected => ValidationState::Raw,
    }
}

/// The provenance that the strongest taint implies.
pub open spec fn provenance_for(ax: bool, or: bool, un: bool) -> Provenance {
    if un {
        Provenance::UnsafeExternal
    } else if or {
        Provenance::OracleInput
    } else if ax {
        Provenance::BuiltinKnown
    } else {
        Provenance::InternalDerived
    }
}

fn provenance_from_taints(ax: bool, or: bool, un: bool) -> (r: Provenance)
    ensures
        r == provenance_for(ax, or, un),
{
    if un {
        Provenance::UnsafeExternal
    } else if or {
        Provenance::OracleInput
    } else if ax {
        Provenance::BuiltinKnown
    } else {
        Provenance::InternalDerived
    }
}

/// The capabilities of a foundation exit passport.
pub open spec fn foundation_caps() -> Set<Capability> {
    set![
        Capability::CanSymbolicPrint,
        Capability::CanInspectAst,
        Capability::CanMetaLevelReason,
        Capability::CanPropositionReason,
        Capability::CanProofKernelCheck,
        Capability::CanTruthBoundaryReason,
        Capability::CanConsistencyReason,
    ]
}

fn foundation_capabilities() -> (r: CapabilitySet)
    ensures
        r@ == foundation_caps(),
{
    let r = CapabilitySet::empty().with(Capability::CanSymbolicPrint).with(Capability::CanInspectAst).with(Capability::CanMetaLevelReason).with(
        Capability::CanPropositionReason,
    ).with(Capability::CanProofKernelCheck).with(Capability::CanTruthBoundaryReason).with(Capability::CanConsistencyReason);
    assert(r@ =~= foundation_caps());
    r
}

/// The history event of one criterion in a foundation passport.
pub open spec fn criterion_event(c: MetatheoryExitCriterionV) -> Seq<char> {
    "metatheory_exit:criterion:"@ + c.kind.display_text() + ":"@ + c.id + ":"@ + c.fingerprint
}

/// What `metatheory_foundation_exit_passport` gives.
pub open spec fn foundation_passport_spec(theory: Seq<char>, rv: MetatheoryFoundationExitReportV) -> PassportV {
    PassportV {
        ty: TypeKindV::MetatheoryFoundationExit { subject: rv.subject, status: rv.status.display_text() },
        construction: ConstructionMode::ProofFinite,
        capabilities: foundation_caps(),
        cost: CostClass::ProofRequired,
        trust: rv.max_trust,
        provenance: provenance_for(rv.has_axiom_taint, rv.has_oracle_taint, rv.has_unsafe_taint),
        validation: validation_for(rv.status),
        theory: home_context(theory),
        history: rv.criteria.map_values(|c: MetatheoryExitCriterionV| criterion_event(c)).push(
            "metatheory_exit:foundation:"@ + rv.subject + ":"@ + rv.status.display_text() + ":fingerprint="@ + rv.exit_fingerprint,
        ),
        location: LocationContext::Local,
    }
}

pub fn metatheory_foundation_exit_passport(theory: &str, report: &MetatheoryFoundationExitReport) -> (r: Passport)
    ensures
        r@ == foundation_passport_spec(theory@, report@),
{
    let ghost cs = report@.criteria;
    let ghost evs = cs.map_values(|c: MetatheoryExitCriterionV| criterion_event(c));
    let mut history = HistoryChain::empty();
    let mut k: usize = 0;
    while k < report.criteria.len()
        invariant
            cs == report@.criteria,
            evs == cs.map_values(|c: MetatheoryExitCriterionV| criterion_event(c)),
            k <= report.criteria.len(),
            history@ =~= evs.take(k as int),
        decreases report.criteria.len() - k,
    {
        assert(cs[k as int] == report.criteria@[k as int]@);
        let c = &report.criteria[k];
        let mut ev = String::from_str("metatheory_exit:criterion:");
        ev.append(c.kind.display_str());
        ev.append(":");
        ev.append(c.id.as_str());
        ev.append(":");
        ev.append(c.fingerprint.as_str());
        history.push(ev.as_str());
        assert(evs.take(k + 1) =~= evs.take(k as int).push(evs[k as int]));
        k = k + 1;
    }
    assert(evs.take(k as int) =~= evs);
    let mut ev = String::from_str("metatheory_exit:foundation:");
    ev.append(report.subject.as_str());
    ev.append(":");
    ev.append(report.status.display_str());
    ev.append(":fingerprint=");
    ev.append(report.exit_fingerprint.as_str());
    history.push(ev.as_str());
    Passport {
        ty: TypeKind::MetatheoryFoundationExit {
            subject: report.subject.clone(),
            status: String::from_str(report.status.display_str()),
        },
        construction: ConstructionMode::ProofFinite,
        capabilities: foundation_capabilities(),
        cost: CostClass::ProofRequired,
        trust: report.max_trust,
        provenance: provenance_from_taints(report.has_axiom_taint, report.has_oracle_taint, report.has_unsafe_taint),
        validation: validation_from_foundation_status(report.status),
        theory: TheoryContext::new(theory),
        history,
        location: LocationContext::local(),
    }
}

/// The report line of one criterion.
pub open spec fn criterion_line(c: MetatheoryExitCriterionV) -> Seq<char> {
    "- "@ + c.id + " kind="@ + c.kind.display_text() + " status="@ + c.status.display_text() + " trust="@ + c.trust.debug_text()
        + " evidence="@ + c.evidence + " fingerprint="@ + c.fingerprint + "\n"@
}

/// The report line of one diagnostic.
pub open spec fn foundation_diagnostic_line(d: DiagnosticV) -> Seq<char> {
    "- "@ + d.kind.debug_text() + ": "@ + d.message + "\n"@
}

/// The concatenation of texts.
pub open spec fn concat_texts(s: Seq<Seq<char>>) -> Seq<char>
    decreases s.len(),
{
    if s.len() == 0 {
        Seq::empty()
    } else {
        concat_texts(s.drop_last()) + s.last()
    }
}

/// The text of a foundation exit report.
pub open spec fn exit_report_text(rv: MetatheoryFoundationExitReportV) -> Seq<char> {
    "DLM Metatheory Foundation Exit Report v1\n"@ + "subject: "@ + rv.subject + "\n"@ + "status: "@ + rv.status.display_text() + "\n"@
        + "max_trust: "@ + rv.max_trust.debug_text() + "\n"@ + "has_axiom_taint: "@ + bool_text(rv.has_axiom_taint) + "\n"@
        + "has_oracle_taint: "@ + bool_text(rv.has_oracle_taint) + "\n"@ + "has_unsafe_taint: "@ + bool_text(rv.has_unsafe_taint)
        + "\n"@ + "criteria: "@ + dec_text(rv.criteria.len()) + "\n"@ + concat_texts(
        rv.criteria.map_values(|c: MetatheoryExitCriterionV| criterion_line(c)),
    ) + (if rv.diagnostics.len() == 0 {
        Seq::<char>::empty()
    } else {
        "diagnostics:\n"@ + concat_texts(rv.diagnostics.map_values(|d: DiagnosticV| foundation_diagnostic_line(d)))
    }) + "exit_fingerprint: "@ + rv.exit_fingerprint + "\n"@
}

pub fn render_metatheory_foundation_exit_report(report: &MetatheoryFoundationExitReport) -> (r: String)
    ensures
        r@ == exit_report_text(report@),
{
    let ghost rv = report@;
    let mut out = String::from_str("DLM Metatheory Foundation Exit Report v1\n");
    out.append("subject: ");
    out.append(report.subject.as_str());
    out.append("\n");
    out.append("status: ");
    out.append(report.status.display_str());
    out.append("\n");
    out.append("max_trust: ");
    out.append(report.max_trust.debug_str());
    out.append("\n");
    out.append("has_axiom_taint: ");
    out.append(bool_str(report.has_axiom_taint));
    out.append("\n");
    out.append("has_oracle_taint: ");
    out.append(bool_str(report.has_oracle_taint));
    out.append("\n");
    out.append("has_unsafe_taint: ");
    out.append(bool_str(report.has_unsafe_taint));
    out.append("\n");
    out.append("criteria: ");
    out.append(usize_text(report.criteria.len()).as_str());
    out.append("\n");
    let ghost head = out@;
    let ghost lines = rv.criteria.map_values(|c: MetatheoryExitCriterionV| criterion_line(c));
    let mut k: usize = 0;
    while k < report.criteria.len()
        invariant
            rv == report@,
            lines == rv.criteria.map_values(|c: MetatheoryExitCriterionV| criterion_line(c)),
            k <= report.criteria.len(),
            out@ =~= head + concat_texts(lines.take(k as int)),
        decreases report.criteria.len() - k,
    {
        assert(lines.take(k + 1).drop_last() =~= lines.take(k as int));
        assert(rv.criteria[k as int] == report.criteria@[k as int]@);
        let c = &report.criteria[k];
        out.append("- ");
        out.append(c.id.as_str());
        out.append(" kind=");
        out.append(c.kind.display_str());
        out.append(" status=");
        out.append(c.status.display_str());
        out.append(" trust=");
        out.append(c.trust.debug_str());
        out.append(" evidence=");
        out.append(c.evidence.as_str());
        out.append(" fingerprint=");
        out.append(c.fingerprint.as_str());
        out.append("\n");
        k = k + 1;
    }
    assert(lines.take(k as int) =~= lines);
    if report.diagnostics.len() != 0 {
        out.append("diagnostics:\n");
        let ghost mid = out@;
        let ghost dlines = rv.diagnostics.map_values(|d: DiagnosticV| foundation_diagnostic_line(d));
        let mut i: usize = 0;
        while i < report.diagnostics.len()
            invariant
                rv == report@,
                dlines == rv.diagnostics.map_values(|d: DiagnosticV| foundation_diagnostic_line(d)),
                i <= report.diagnostics.len(),
                out@ =~= mid + concat_texts(dlines.take(i as int)),
            decreases report.diagnostics.len() - i,
        {
            assert(dlines.take(i + 1).drop_last() =~= dlines.take(i as int));
            assert(rv.diagnostics[i as int] == report.diagnostics@[i as int]@);
            out.append("- ");
            out.append(report.diagnostics[i].kind.debug_str());
            out.append(": ");
            out.append(report.diagnostics[i].message.as_str());
            out.append("\n");
            i = i + 1;
        }
        assert(dlines.take(i as int) =~= dlines);
    }
    out.append("exit_fingerprint: ");
    out.append(report.exit_fingerprint.as_str());
    out.append("\n");
    out
}

pub fn export_metatheory_foundation_exit_report(report: &MetatheoryFoundationExitReport) -> (r: String)
    ensures
        r@ == exit_report_text(report@),
{
    render_metatheory_foundation_exit_report(report)
}

proof fn lemma_criterion_diags_block(cs: Seq<MetatheoryExitCriterionV>, line: usize, k: int)
    requires
        0 <= k < cs.len(),
    ensures
        forall|i: int|
            0 <= i < criterion_diags(cs, line, k).len() ==> rejecting_message(#[trigger] criterion_diags(cs, line, k)[i].message)
                || cs[k].status == MetatheoryExitCriterionStatus::Failed,
{
    let c = cs[k];
    let needle = "duplicate"@;
    let m1 = "duplicate metatheory exit criterion id `"@ + c.id + "`"@;
    let m2 = "duplicate metatheory exit criterion fingerprint `"@ + c.fingerprint + "`"@;
    reveal_strlit("duplicate");
    reveal_strlit("duplicate metatheory exit criterion id `");
    reveal_strlit("duplicate metatheory exit criterion fingerprint `");
    assert(m1.subrange(0, 9) =~= needle);
    assert(occurs_at(m1, needle, 0));
    assert(m2.subrange(0, 9) =~= needle);
    assert(occurs_at(m2, needle, 0));
    assert(rejecting_message(m1));
    assert(rejecting_message(m2));
}

proof fn lemma_criteria_diags_block(cs: Seq<MetatheoryExitCriterionV>, line: usize, n: int)
    requires
        0 <= n <= cs.len(),
    ensures
        forall|i: int|
            0 <= i < criteria_diags(cs, line, n).len() ==> rejecting_message(#[trigger] criteria_diags(cs, line, n)[i].message)
                || exists|k: int| 0 <= k < n && #[trigger] cs[k].status == MetatheoryExitCriterionStatus::Failed,
    decreases n,
{
    if n > 0 {
        lemma_criteria_diags_block(cs, line, n - 1);
        lemma_criterion_diags_block(cs, line, n - 1);
        let prev = criteria_diags(cs, line, n - 1);
        let cur = criterion_diags(cs, line, n - 1);
        let all = criteria_diags(cs, line, n);
        assert(all == prev + cur);
        assert forall|i: int| 0 <= i < all.len() implies rejecting_message(#[trigger] all[i].message) || exists|k: int|
            0 <= k < n && #[trigger] cs[k].status == MetatheoryExitCriterionStatus::Failed by {
            if i < prev.len() {
                assert(all[i] == prev[i]);
            } else {
                assert(all[i] == cur[i - prev.len()]);
                if !rejecting_message(all[i].message) {
                    assert(cs[n - 1].status == MetatheoryExitCriterionStatus::Failed);
                }
            }
        }
    }
}

proof fn lemma_criteria_diags_empty(cs: Seq<MetatheoryExitCriterionV>, line: usize, n: int)
    requires
        0 <= n <= cs.len(),
        criteria_diags(cs, line, n).len() == 0,
    ensures
        forall|k: int| 0 <= k < n ==> (#[trigger] criterion_diags(cs, line, k)).len() == 0,
    decreases n,
{
    if n > 0 {
        lemma_criteria_diags_empty(cs, line, n - 1);
    }
}

proof fn lemma_missing_diags(cs: Seq<MetatheoryExitCriterionV>, line: usize, n: int)
    requires
        0 <= n <= 17,
    ensures
        missing_diags(cs, line, n).len() > 0 ==> exists|q: int| 0 <= q < n && !kind_present(cs, #[trigger] required_exit_kinds()[q]),
    decreases n,
{
    if n > 0 {
        lemma_missing_diags(cs, line, n - 1);
    }
}

/// A ready foundation exit report carries no diagnostic, names its subject,
/// lists at least one criterion, gives every criterion a distinct id, and
/// holds every required kind with every criterion satisfied.
pub proof fn lemma_ready_means_every_requirement_met(subject: Seq<char>, cs: Seq<MetatheoryExitCriterionV>, line: usize)
    requires
        exit_report_spec(subject, cs, line).status == MetatheoryFoundationStatus::Ready,
    ensures
        exit_report_spec(subject, cs, line).diagnostics.len() == 0,
        !all_ws(subject),
        cs.len() > 0,
        forall|k: int| 0 <= k < cs.len() ==> (#[trigger] cs[k]).status == MetatheoryExitCriterionStatus::Satisfied,
        forall|q: int| 0 <= q < 17 ==> kind_present(cs, #[trigger] required_exit_kinds()[q]),
        forall|i: int, j: int| 0 <= i < j < cs.len() ==> #[trigger] cs[i].id != #[trigger] cs[j].id,
{
    let ds = exit_diags(subject, cs, line);
    let s1 = if all_ws(subject) {
        seq![foundation_error_model(
            line,
            "metatheory foundation exit subject must not be empty"@,
            "the foundation exit report needs stable subject identity before it can unlock the next development phase"@,
        )]
    } else {
        Seq::<DiagnosticV>::empty()
    };
    let s2 = if cs.len() == 0 {
        seq![foundation_error_model(
            line,
            "metatheory foundation exit report has no criteria"@,
            "the exit gate must enumerate every required metamathematical foundation criterion"@,
        )]
    } else {
        Seq::<DiagnosticV>::empty()
    };
    let crit = criteria_diags(cs, line, cs.len() as int);
    let miss = missing_diags(cs, line, 17);
    assert(ds == s1 + s2 + crit + miss);
    assert(forall|k: int| 0 <= k < cs.len() ==> #[trigger] cs[k].status != MetatheoryExitCriterionStatus::Failed);
    assert(forall|i: int| 0 <= i < ds.len() ==> !rejecting_message(#[trigger] ds[i].message));
    if s1.len() > 0 {
        let m = "metatheory foundation exit subject must not be empty"@;
        reveal_strlit("metatheory foundation exit subject must not be empty");
        reveal_strlit("subject must not be empty");
        assert(m.subrange(27, 52) =~= "subject must not be empty"@);
        assert(occurs_at(m, "subject must not be empty"@, 27));
        assert(ds[0] == s1[0]);
        assert(contains_text(ds[0].message, "subject must not be empty"@));
        assert(rejecting_message(ds[0].message));
    }
    if s2.len() > 0 {
        let m = "metatheory foundation exit report has no criteria"@;
        reveal_strlit("metatheory foundation exit report has no criteria");
        reveal_strlit("has no criteria");
        assert(m.subrange(34, 49) =~= "has no criteria"@);
        assert(occurs_at(m, "has no criteria"@, 34));
        assert(ds[0] == s2[0]);
        assert(contains_text(ds[0].message, "has no criteria"@));
        assert(rejecting_message(ds[0].message));
    }
    lemma_criteria_diags_block(cs, line, cs.len() as int);
    if crit.len() > 0 {
        assert(ds[0] == crit[0]);
        assert(rejecting_message(crit[0].message) || exists|k: int|
            0 <= k < cs.len() && #[trigger] cs[k].status == MetatheoryExitCriterionStatus::Failed);
        assert(!rejecting_message(ds[0].message));
    }
    lemma_missing_diags(cs, line, 17);
    assert(miss.len() == 0);
    assert(ds.len() == 0);
    lemma_criteria_diags_empty(cs, line, cs.len() as int);
    assert forall|i: int, j: int| 0 <= i < j < cs.len() implies #[trigger] cs[i].id != #[trigger] cs[j].id by {
        assert(criterion_diags(cs, line, j).len() == 0);
        if cs[i].id == cs[j].id {
            assert(exists|m: int| 0 <= m < j && #[trigger] cs[m].id == cs[j].id);
        }
    }
}

} // verus!
