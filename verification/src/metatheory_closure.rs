//! Metatheory closure reports: a subject closes over one primary dependency
//! audit, supporting audits, and obligations that are either closed or open.

use vstd::prelude::*;
use vstd::string::*;

use crate::axiom_registry::{
    append_diagnostic_lines, diag_keys, diagnostic_lines, diagnostics_view, metatheory_capabilities, metatheory_caps,
    push_diag_keys, DependencyAuditStatus, MetatheoryDependencyAuditReport, MetatheoryDependencyAuditReportV,
};
use crate::diagnostics::{error_with_help, Diagnostic, DiagnosticKind, DiagnosticV};
use crate::fingerprint::{fingerprint_text, stable_fingerprint, strings_view};
use crate::passport::record::home_context;
use crate::passport::{
    ConstructionMode, CostClass, HistoryChain, LocationContext, Passport, PassportV, Provenance, TheoryContext, TrustLevel,
    TypeKind, TypeKindV, ValidationState,
};
use crate::text::{all_ws, bool_str, bool_text, dec_text, is_blank, str_eq, usize_text};

verus! {

#[derive(Debug, Clone, Copy, PartialEq, Eq, Structural, PartialOrd, Ord)]
pub enum ClosureObligationKind {
    AxiomRegistry,
    DependencyAudit,
    SoundnessBoundary,
    ReflectionBoundary,
    ConsistencyBoundary,
    ModuleBoundary,
    ConservativeExtension,
    Unknown,
}

impl ClosureObligationKind {
    pub open spec fn display_text(self) -> Seq<char> {
        match self {
            ClosureObligationKind::AxiomRegistry => "axiom_registry"@,
            ClosureObligationKind::DependencyAudit => "dependency_audit"@,
            ClosureObligationKind::SoundnessBoundary => "soundness_boundary"@,
            ClosureObligationKind::ReflectionBoundary => "reflection_boundary"@,
            ClosureObligationKind::ConsistencyBoundary => "consistency_boundary"@,
            ClosureObligationKind::ModuleBoundary => "module_boundary"@,
            ClosureObligationKind::ConservativeExtension => "conservative_extension"@,
            ClosureObligationKind::Unknown => "unknown"@,
        }
    }

    pub fn display_str(self) -> (r: &'static str)
        ensures
            r@ == self.display_text(),
    {
        match self {
            ClosureObligationKind::AxiomRegistry => "axiom_registry",
            ClosureObligationKind::DependencyAudit => "dependency_audit",
            ClosureObligationKind::SoundnessBoundary => "soundness_boundary",
            ClosureObligationKind::ReflectionBoundary => "reflection_boundary",
            ClosureObligationKind::ConsistencyBoundary => "consistency_boundary",
            ClosureObligationKind::ModuleBoundary => "module_boundary",
            ClosureObligationKind::ConservativeExtension => "conservative_extension",
            ClosureObligationKind::Unknown => "unknown",
        }
    }
}

#[derive(Debug, Clone, Copy, PartialEq, Eq, Structural, PartialOrd, Ord)]
pub enum MetatheoryClosureStatus {
    Closed,
    Open,
    Rejected,
}

impl MetatheoryClosureStatus {
    pub open spec fn display_text(self) -> Seq<char> {
        match self {
            MetatheoryClosureStatus::Closed => "closed"@,
            MetatheoryClosureStatus::Open => "open"@,
            MetatheoryClosureStatus::Rejected => "rejected"@,
        }
    }

    pub fn display_str(self) -> (r: &'static str)
        ensures
            r@ == self.display_text(),
    {
        match self {
            MetatheoryClosureStatus::Closed => "closed",
            MetatheoryClosureStatus::Open => "open",
            MetatheoryClosureStatus::Rejected => "rejected",
        }
    }
}

/// Something the closure needs; `closed_by` names what discharges it.
#[derive(Debug)]
pub struct ClosureObligation {
    pub label: String,
    pub kind: ClosureObligationKind,
    pub description: String,
    pub closed_by: Option<String>,
    pub fingerprint: String,
}

pub struct ClosureObligationV {
    pub label: Seq<char>,
    pub kind: ClosureObligationKind,
    pub description: Seq<char>,
    pub closed_by: Option<Seq<char>>,
    pub fingerprint: Seq<char>,
}

/// The model of an optional string.
pub open spec fn opt_string_view(s: Option<String>) -> Option<Seq<char>> {
    match s {
        Some(t) => Some(t@),
        None => None,
    }
}

impl View for ClosureObligation {
    type V = ClosureObligationV;

    open spec fn view(&self) -> ClosureObligationV {
        ClosureObligationV {
            label: self.label@,
            kind: self.kind,
            description: self.description@,
            closed_by: opt_string_view(self.closed_by),
            fingerprint: self.fingerprint@,
        }
    }
}

impl Clone for ClosureObligation {
    fn clone(&self) -> (r: Self)
        ensures
            r@ == self@,
    {
        ClosureObligation {
            label: self.label.clone(),
            kind: self.kind,
            description: self.description.clone(),
            closed_by: match &self.closed_by {
                Some(c) => Some(c.clone()),
                None => None,
            },
            fingerprint: self.fingerprint.clone(),
        }
    }
}

/// The models of a sequence of obligations.
pub open spec fn obligations_view(s: Seq<ClosureObligation>) -> Seq<ClosureObligationV> {
    s.map_values(|o: ClosureObligation| o@)
}

/// The models of a sequence of dependency audits.
pub open spec fn audits_view(s: Seq<MetatheoryDependencyAuditReport>) -> Seq<MetatheoryDependencyAuditReportV> {
    s.map_values(|a: MetatheoryDependencyAuditReport| a@)
}

/// What a closure over dependency audits found.
#[derive(Debug)]
pub struct MetatheoryClosureReport {
    pub subject: String,
    pub status: MetatheoryClosureStatus,
    pub primary_audit_fingerprint: String,
    pub supporting_audit_fingerprints: Vec<String>,
    pub obligations: Vec<ClosureObligation>,
    pub diagnostics: Vec<Diagnostic>,
    pub max_trust: TrustLevel,
    pub has_axiom_taint: bool,
    pub has_oracle_taint: bool,
    pub has_unsafe_taint: bool,
    pub closure_fingerprint: String,
}

pub struct MetatheoryClosureReportV {
    pub subject: Seq<char>,
    pub status: MetatheoryClosureStatus,
    pub primary_audit_fingerprint: Seq<char>,
    pub supporting_audit_fingerprints: Seq<Seq<char>>,
    pub obligations: Seq<ClosureObligationV>,
    pub diagnostics: Seq<DiagnosticV>,
    pub max_trust: TrustLevel,
    pub has_axiom_taint: bool,
    pub has_oracle_taint: bool,
    pub has_unsafe_taint: bool,
    pub closure_fingerprint: Seq<char>,
}

impl View for MetatheoryClosureReport {
    type V = MetatheoryClosureReportV;

    open spec fn view(&self) -> MetatheoryClosureReportV {
        MetatheoryClosureReportV {
            subject: self.subject@,
            status: self.status,
            primary_audit_fingerprint: self.primary_audit_fingerprint@,
            supporting_audit_fingerprints: strings_view(self.supporting_audit_fingerprints@),
            obligations: obligations_view(self.obligations@),
            diagnostics: diagnostics_view(self.diagnostics@),
            max_trust: self.max_trust,
            has_axiom_taint: self.has_axiom_taint,
            has_oracle_taint: self.has_oracle_taint,
            has_unsafe_taint: self.has_unsafe_taint,
            closure_fingerprint: self.closure_fingerprint@,
        }
    }
}

/// The prefix of every fingerprint this module makes.
pub open spec fn closure_prefix() -> Seq<char> {
    "dlm-meta-closure-v1-"@
}

/// An error of the closure layer.
pub open spec fn closure_error_model(line: usize, message: Seq<char>, help: Seq<char>) -> DiagnosticV {
    error_with_help(DiagnosticKind::MetatheoryClosureError, line, message, help)
}

fn closure_error(line: usize, message: &str, help: &str) -> (r: Diagnostic)
    ensures
        r@ == closure_error_model(line, message@, help@),
{
    Diagnostic::error(DiagnosticKind::MetatheoryClosureError, Some(line), message).with_help(help)
}

/// The error for a blank identifier, if `value` is blank.
pub open spec fn closure_blank_error(value: Seq<char>, label: Seq<char>, line: usize) -> Option<DiagnosticV> {
    if all_ws(value) {
        Some(closure_error_model(line, label + " must not be empty"@, "metatheory closure objects need stable semantic identifiers"@))
    } else {
        None
    }
}

fn require_non_empty(value: &str, label: &str, line: usize) -> (r: Result<(), Diagnostic>)
    ensures
        closure_blank_error(value@, label@, line) == (match r {
            Ok(()) => None::<DiagnosticV>,
            Err(d) => Some(d@),
        }),
{
    if is_blank(value) {
        let mut msg = String::from_str(label);
        msg.append(" must not be empty");
        Err(closure_error(line, msg.as_str(), "metatheory closure objects need stable semantic identifiers"))
    } else {
        Ok(())
    }
}

/// The discharging evidence an obligation keeps: none when it is absent or blank.
pub open spec fn kept_closed_by(closed_by: Option<Seq<char>>) -> Option<Seq<char>> {
    match closed_by {
        Some(c) => if all_ws(c) { None } else { Some(c) },
        None => None,
    }
}

/// The model of an optional string slice.
pub open spec fn opt_str_view(s: Option<&str>) -> Option<Seq<char>> {
    match s {
        Some(t) => Some(t@),
        None => None,
    }
}

/// What `closure_obligation` gives.
pub open spec fn closure_obligation_spec(
    label: Seq<char>,
    kind: ClosureObligationKind,
    description: Seq<char>,
    closed_by: Option<Seq<char>>,
    line: usize,
) -> Result<ClosureObligationV, DiagnosticV> {
    if closure_blank_error(label, "closure obligation label"@, line) is Some {
        Err(closure_blank_error(label, "closure obligation label"@, line)->0)
    } else if closure_blank_error(description, "closure obligation description"@, line) is Some {
        Err(closure_blank_error(description, "closure obligation description"@, line)->0)
    } else {
        let kept = kept_closed_by(closed_by);
        Ok(ClosureObligationV {
            label,
            kind,
            description,
            closed_by: kept,
            fingerprint: fingerprint_text(closure_prefix(), obligation_parts(label, kind, description, kept)),
        })
    }
}

/// The parts an obligation's fingerprint is taken over.
pub open spec fn obligation_parts(label: Seq<char>, kind: ClosureObligationKind, description: Seq<char>, kept: Option<Seq<char>>) -> Seq<Seq<char>> {
    seq![
        "closure-obligation:v1"@,
        label,
        kind.display_text(),
        description,
        match kept {
            Some(c) => c,
            None => "open"@,
        },
    ]
}

pub fn closure_obligation(
    label: &str,
    kind: ClosureObligationKind,
    description: &str,
    closed_by: Option<&str>,
    line: usize,
) -> (r: Result<ClosureObligation, Diagnostic>)
    ensures
        closure_obligation_spec(label@, kind, description@, opt_str_view(closed_by), line) == (match r {
            Ok(o) => Ok::<ClosureObligationV, DiagnosticV>(o@),
            Err(d) => Err::<ClosureObligationV, DiagnosticV>(d@),
        }),
{
    match require_non_empty(label, "closure obligation label", line) {
        Err(d) => return Err(d),
        Ok(()) => {},
    }
    match require_non_empty(description, "closure obligation description", line) {
        Err(d) => return Err(d),
        Ok(()) => {},
    }
    let kept: Option<String> = match closed_by {
        Some(c) => if is_blank(c) {
            None
        } else {
            Some(String::from_str(c))
        },
        None => None,
    };
    assert(opt_string_view(kept) == kept_closed_by(opt_str_view(closed_by)));
    let mut parts: Vec<String> = Vec::new();
    parts.push(String::from_str("closure-obligation:v1"));
    parts.push(String::from_str(label));
    parts.push(String::from_str(kind.display_str()));
    parts.push(String::from_str(description));
    match &kept {
        Some(c) => parts.push(c.clone()),
        None => parts.push(String::from_str("open")),
    }
    assert(strings_view(parts@) =~= obligation_parts(label@, kind, description@, kept_closed_by(opt_str_view(closed_by))));
    let fingerprint = stable_fingerprint("dlm-meta-closure-v1-", &parts);
    Ok(ClosureObligation {
        label: String::from_str(label),
        kind,
        description: String::from_str(description),
        closed_by: kept,
        fingerprint,
    })
}

pub fn open_closure_obligation(label: &str, kind: ClosureObligationKind, description: &str, line: usize) -> (r: Result<
    ClosureObligation,
    Diagnostic,
>)
    ensures
        closure_obligation_spec(label@, kind, description@, None, line) == (match r {
            Ok(o) => Ok::<ClosureObligationV, DiagnosticV>(o@),
            Err(d) => Err::<ClosureObligationV, DiagnosticV>(d@),
        }),
{
    closure_obligation(label, kind, description, None, line)
}

pub fn closed_closure_obligation(
    label: &str,
    kind: ClosureObligationKind,
    description: &str,
    closed_by: &str,
    line: usize,
) -> (r: Result<ClosureObligation, Diagnostic>)
    ensures
        closure_obligation_spec(label@, kind, description@, Some(closed_by@), line) == (match r {
            Ok(o) => Ok::<ClosureObligationV, DiagnosticV>(o@),
            Err(d) => Err::<ClosureObligationV, DiagnosticV>(d@),
        }),
{
    closure_obligation(label, kind, description, Some(closed_by), line)
}

/// Whether supporting audit `k` repeats the primary audit's fingerprint or an
/// earlier supporting audit's.
pub open spec fn repeats_audit(primary: Seq<char>, sup: Seq<MetatheoryDependencyAuditReportV>, k: int) -> bool {
    sup[k].audit_fingerprint == primary || exists|j: int| 0 <= j < k && #[trigger] sup[j].audit_fingerprint == sup[k].audit_fingerprint
}

/// The diagnostics for supporting audit `k`.
pub open spec fn supporting_diags(primary: Seq<char>, sup: Seq<MetatheoryDependencyAuditReportV>, line: usize, k: int) -> Seq<DiagnosticV> {
    let a = sup[k];
    let dup = if repeats_audit(primary, sup, k) {
        seq![closure_error_model(
            line,
            "duplicate audit fingerprint `"@ + a.audit_fingerprint + "`"@,
            "supporting audits must not repeat the primary audit or each other"@,
        )]
    } else {
        Seq::empty()
    };
    let rejected = if a.status != DependencyAuditStatus::Verified {
        seq![closure_error_model(
            line,
            "supporting dependency audit `"@ + a.subject + "` is "@ + a.status.display_text(),
            "rejected dependency audits cannot serve as closure evidence"@,
        )]
    } else {
        Seq::empty()
    };
    dup + rejected
}

/// The diagnostics for the first `n` supporting audits.
pub open spec fn supporting_diags_upto(primary: Seq<char>, sup: Seq<MetatheoryDependencyAuditReportV>, line: usize, n: int) -> Seq<DiagnosticV>
    decreases n,
{
    if n <= 0 {
        Seq::empty()
    } else {
        supporting_diags_upto(primary, sup, line, n - 1) + supporting_diags(primary, sup, line, n - 1)
    }
}

/// Whether obligation `k` repeats an earlier obligation's fingerprint.
pub open spec fn repeats_obligation(obs: Seq<ClosureObligationV>, k: int) -> bool {
    exists|j: int| 0 <= j < k && #[trigger] obs[j].fingerprint == obs[k].fingerprint
}

/// The diagnostics for the first `n` obligations.
pub open spec fn obligation_diags_upto(obs: Seq<ClosureObligationV>, line: usize, n: int) -> Seq<DiagnosticV>
    decreases n,
{
    if n <= 0 {
        Seq::empty()
    } else {
        obligation_diags_upto(obs, line, n - 1) + if repeats_obligation(obs, n - 1) {
            seq![closure_error_model(
                line,
                "duplicate closure obligation fingerprint `"@ + obs[n - 1].fingerprint + "`"@,
                "closure obligations must be stable and non-duplicated inside one report"@,
            )]
        } else {
            Seq::empty()
        }
    }
}

/// All the diagnostics of a closure, in the order they are reported.
pub open spec fn closure_diags(
    subject: Seq<char>,
    primary: MetatheoryDependencyAuditReportV,
    sup: Seq<MetatheoryDependencyAuditReportV>,
    obs: Seq<ClosureObligationV>,
    line: usize,
) -> Seq<DiagnosticV> {
    let s1 = if all_ws(subject) {
        seq![closure_error_model(
            line,
            "metatheory closure subject must not be empty"@,
            "closure reports need stable subject identity before they can serve as global metatheory evidence"@,
        )]
    } else {
        Seq::empty()
    };
    let s2 = if primary.status != DependencyAuditStatus::Verified {
        seq![closure_error_model(
            line,
            "primary dependency audit `"@ + primary.subject + "` is "@ + primary.status.display_text(),
            "metatheory closure can only close over verified dependency audits"@,
        )]
    } else {
        Seq::empty()
    };
    s1 + s2 + supporting_diags_upto(primary.audit_fingerprint, sup, line, sup.len() as int) + obligation_diags_upto(
        obs,
        line,
        obs.len() as int,
    )
}

/// The joined taint of the primary audit and the supporting audits.
pub open spec fn closure_taint(primary: MetatheoryDependencyAuditReportV, sup: Seq<MetatheoryDependencyAuditReportV>) -> (
    TrustLevel,
    bool,
    bool,
    bool,
)
    decreases sup.len(),
{
    if sup.len() == 0 {
        (primary.max_trust, primary.has_axiom_taint, primary.has_oracle_taint, primary.has_unsafe_taint)
    } else {
        let (t, a, o, u) = closure_taint(primary, sup.drop_last());
        let s = sup.last();
        (t.higher(s.max_trust), a || s.has_axiom_taint, o || s.has_oracle_taint, u || s.has_unsafe_taint)
    }
}

/// The fingerprints of audits.
pub open spec fn audit_fingerprints(sup: Seq<MetatheoryDependencyAuditReportV>) -> Seq<Seq<char>> {
    sup.map_values(|a: MetatheoryDependencyAuditReportV| a.audit_fingerprint)
}

/// The fingerprints of obligations.
pub open spec fn obligation_fingerprints(obs: Seq<ClosureObligationV>) -> Seq<Seq<char>> {
    obs.map_values(|o: ClosureObligationV| o.fingerprint)
}

/// Whether some obligation is still open.
pub open spec fn has_open_obligation(obs: Seq<ClosureObligationV>) -> bool {
    exists|i: int| 0 <= i < obs.len() && (#[trigger] obs[i]).closed_by is None
}

/// The parts a closure's fingerprint is taken over.
pub open spec fn closure_parts(
    subject: Seq<char>,
    status: MetatheoryClosureStatus,
    primary_fp: Seq<char>,
    sup_fps: Seq<Seq<char>>,
    obs: Seq<ClosureObligationV>,
    ds: Seq<DiagnosticV>,
    t: TrustLevel,
    a: bool,
    o: bool,
    u: bool,
) -> Seq<Seq<char>> {
    seq![
        "metatheory-closure:v1"@,
        subject,
        status.display_text(),
        primary_fp,
        t.debug_text(),
        bool_text(a),
        bool_text(o),
        bool_text(u),
    ] + sup_fps + obligation_fingerprints(obs) + diag_keys(ds)
}

/// What `metatheory_closure_report` gives: rejected when any diagnostic is
/// found, else open while an obligation is open, else closed.
pub open spec fn closure_report_spec(
    subject: Seq<char>,
    primary: MetatheoryDependencyAuditReportV,
    sup: Seq<MetatheoryDependencyAuditReportV>,
    obs: Seq<ClosureObligationV>,
    line: usize,
) -> MetatheoryClosureReportV {
    let ds = closure_diags(subject, primary, sup, obs, line);
    let status = if ds.len() > 0 {
        MetatheoryClosureStatus::Rejected
    } else if has_open_obligation(obs) {
        MetatheoryClosureStatus::Open
    } else {
        MetatheoryClosureStatus::Closed
    };
    let (t, a, o, u) = closure_taint(primary, sup);
    let sup_fps = audit_fingerprints(sup);
    MetatheoryClosureReportV {
        subject,
        status,
        primary_audit_fingerprint: primary.audit_fingerprint,
        supporting_audit_fingerprints: sup_fps,
        obligations: obs,
        diagnostics: ds,
        max_trust: t,
        has_axiom_taint: a,
        has_oracle_taint: o,
        has_unsafe_taint: u,
        closure_fingerprint: fingerprint_text(
            closure_prefix(),
            closure_parts(subject, status, primary.audit_fingerprint, sup_fps, obs, ds, t, a, o, u),
        ),
    }
}

fn repeats_earlier_audit(primary: &str, sup: &[MetatheoryDependencyAuditReport], k: usize) -> (r: bool)
    requires
        k < sup.len(),
    ensures
        r == repeats_audit(primary@, audits_view(sup@), k as int),
{
    let ghost sv = audits_view(sup@);
    assert(sv[k as int] == sup@[k as int]@);
    if str_eq(sup[k].audit_fingerprint.as_str(), primary) {
        return true;
    }
    let mut j: usize = 0;
    while j < k
        invariant
            sv == audits_view(sup@),
            j <= k < sup.len(),
            sv[k as int].audit_fingerprint != primary@,
            forall|m: int| 0 <= m < j ==> #[trigger] sv[m].audit_fingerprint != sv[k as int].audit_fingerprint,
        decreases k - j,
    {
        assert(sv[j as int] == sup@[j as int]@);
        assert(sv[k as int] == sup@[k as int]@);
        if str_eq(sup[j].audit_fingerprint.as_str(), sup[k].audit_fingerprint.as_str()) {
            assert(sv[j as int].audit_fingerprint == sv[k as int].audit_fingerprint);
            return true;
        }
        j = j + 1;
    }
    false
}

fn repeats_earlier_obligation(obs: &Vec<ClosureObligation>, k: usize) -> (r: bool)
    requires
        k < obs.len(),
    ensures
        r == repeats_obligation(obligations_view(obs@), k as int),
{
    let ghost ov = obligations_view(obs@);
    let mut j: usize = 0;
    while j < k
        invariant
            ov == obligations_view(obs@),
            j <= k < obs.len(),
            forall|m: int| 0 <= m < j ==> #[trigger] ov[m].fingerprint != ov[k as int].fingerprint,
        decreases k - j,
    {
        assert(ov[j as int] == obs@[j as int]@);
        assert(ov[k as int] == obs@[k as int]@);
        if str_eq(obs[j].fingerprint.as_str(), obs[k].fingerprint.as_str()) {
            assert(ov[j as int].fingerprint == ov[k as int].fingerprint);
            return true;
        }
        j = j + 1;
    }
    false
}

fn push_supporting_diags(diagnostics: &mut Vec<Diagnostic>, primary: &str, sup: &[MetatheoryDependencyAuditReport], line: usize, k: usize)
    requires
        k < sup.len(),
    ensures
        diagnostics_view(final(diagnostics)@) == diagnostics_view(old(diagnostics)@) + supporting_diags(
            primary@,
            audits_view(sup@),
            line,
            k as int,
        ),
{
    let ghost sv = audits_view(sup@);
    let ghost start = diagnostics_view(diagnostics@);
    assert(sv[k as int] == sup@[k as int]@);
    let a = &sup[k];
    if repeats_earlier_audit(primary, sup, k) {
        let mut msg = String::from_str("duplicate audit fingerprint `");
        msg.append(a.audit_fingerprint.as_str());
        msg.append("`");
        diagnostics.push(closure_error(line, msg.as_str(), "supporting audits must not repeat the primary audit or each other"));
    }
    let ghost mid = diagnostics_view(diagnostics@);
    if a.status != DependencyAuditStatus::Verified {
        let mut msg = String::from_str("supporting dependency audit `");
        msg.append(a.subject.as_str());
        msg.append("` is ");
        msg.append(a.status.display_str());
        diagnostics.push(closure_error(line, msg.as_str(), "rejected dependency audits cannot serve as closure evidence"));
    }
    proof {
        let dup = if repeats_audit(primary@, sv, k as int) {
            seq![closure_error_model(
                line,
                "duplicate audit fingerprint `"@ + sv[k as int].audit_fingerprint + "`"@,
                "supporting audits must not repeat the primary audit or each other"@,
            )]
        } else {
            Seq::empty()
        };
        assert(mid =~= start + dup);
        assert(diagnostics_view(diagnostics@) =~= start + supporting_diags(primary@, sv, line, k as int));
    }
}

fn closure_fingerprint(
    subject: &str,
    status: MetatheoryClosureStatus,
    primary_fp: &str,
    sup_fps: &Vec<String>,
    obligations: &Vec<ClosureObligation>,
    diagnostics: &Vec<Diagnostic>,
    max_trust: TrustLevel,
    has_axiom_taint: bool,
    has_oracle_taint: bool,
    has_unsafe_taint: bool,
) -> (r: String)
    ensures
        r@ == fingerprint_text(
            closure_prefix(),
            closure_parts(
                subject@,
                status,
                primary_fp@,
                strings_view(sup_fps@),
                obligations_view(obligations@),
                diagnostics_view(diagnostics@),
                max_trust,
                has_axiom_taint,
                has_oracle_taint,
                has_unsafe_taint,
            ),
        ),
{
    let mut parts: Vec<String> = Vec::new();
    parts.push(String::from_str("metatheory-closure:v1"));
    parts.push(String::from_str(subject));
    parts.push(String::from_str(status.display_str()));
    parts.push(String::from_str(primary_fp));
    parts.push(String::from_str(max_trust.debug_str()));
    parts.push(String::from_str(bool_str(has_axiom_taint)));
    parts.push(String::from_str(bool_str(has_oracle_taint)));
    parts.push(String::from_str(bool_str(has_unsafe_taint)));
    let ghost head = strings_view(parts@);
    let mut k: usize = 0;
    while k < sup_fps.len()
        invariant
            k <= sup_fps.len(),
            strings_view(parts@) == head + strings_view(sup_fps@).take(k as int),
        decreases sup_fps.len() - k,
    {
        let ghost before = parts@;
        parts.push(sup_fps[k].clone());
        assert(strings_view(parts@) =~= strings_view(before).push(sup_fps@[k as int]@));
        assert(strings_view(sup_fps@).take(k + 1) =~= strings_view(sup_fps@).take(k as int).push(sup_fps@[k as int]@));
        k = k + 1;
    }
    assert(strings_view(sup_fps@).take(k as int) =~= strings_view(sup_fps@));
    let ghost mid = strings_view(parts@);
    let ghost ov = obligations_view(obligations@);
    let mut k: usize = 0;
    while k < obligations.len()
        invariant
            ov == obligations_view(obligations@),
            k <= obligations.len(),
            strings_view(parts@) == mid + obligation_fingerprints(ov).take(k as int),
        decreases obligations.len() - k,
    {
        let ghost before = parts@;
        parts.push(obligations[k].fingerprint.clone());
        assert(strings_view(parts@) =~= strings_view(before).push(obligations@[k as int].fingerprint@));
        assert(obligation_fingerprints(ov).take(k + 1) =~= obligation_fingerprints(ov).take(k as int).push(ov[k as int].fingerprint));
        k = k + 1;
    }
    assert(obligation_fingerprints(ov).take(k as int) =~= obligation_fingerprints(ov));
    push_diag_keys(&mut parts, diagnostics);
    assert(strings_view(parts@) =~= closure_parts(
        subject@,
        status,
        primary_fp@,
        strings_view(sup_fps@),
        ov,
        diagnostics_view(diagnostics@),
        max_trust,
        has_axiom_taint,
        has_oracle_taint,
        has_unsafe_taint,
    ));
    stable_fingerprint("dlm-meta-closure-v1-", &parts)
}

pub fn metatheory_closure_report(
    subject: &str,
    primary_audit: &MetatheoryDependencyAuditReport,
    supporting_audits: &[MetatheoryDependencyAuditReport],
    obligations: Vec<ClosureObligation>,
    line: usize,
) -> (r: MetatheoryClosureReport)
    ensures
        r@ == closure_report_spec(subject@, primary_audit@, audits_view(supporting_audits@), obligations_view(obligations@), line),
{
    let ghost sv = audits_view(supporting_audits@);
    let ghost ov = obligations_view(obligations@);
    let ghost pv = primary_audit@;
    let mut diagnostics: Vec<Diagnostic> = Vec::new();
    if is_blank(subject) {
        diagnostics.push(closure_error(
            line,
            "metatheory closure subject must not be empty",
            "closure reports need stable subject identity before they can serve as global metatheory evidence",
        ));
    }
    if primary_audit.status != DependencyAuditStatus::Verified {
        let mut msg = String::from_str("primary dependency audit `");
        msg.append(primary_audit.subject.as_str());
        msg.append("` is ");
        msg.append(primary_audit.status.display_str());
        diagnostics.push(closure_error(line, msg.as_str(), "metatheory closure can only close over verified dependency audits"));
    }
    let ghost head = diagnostics_view(diagnostics@);
    let mut max_trust = primary_audit.max_trust;
    let mut has_axiom_taint = primary_audit.has_axiom_taint;
    let mut has_oracle_taint = primary_audit.has_oracle_taint;
    let mut has_unsafe_taint = primary_audit.has_unsafe_taint;
    let mut supporting_audit_fingerprints: Vec<String> = Vec::new();
    let mut i: usize = 0;
    assert(sv.take(0) =~= Seq::<MetatheoryDependencyAuditReportV>::empty());
    while i < supporting_audits.len()
        invariant
            sv == audits_view(supporting_audits@),
            pv == primary_audit@,
            i <= supporting_audits.len(),
            diagnostics_view(diagnostics@) == head + supporting_diags_upto(pv.audit_fingerprint, sv, line, i as int),
            (max_trust, has_axiom_taint, has_oracle_taint, has_unsafe_taint) == closure_taint(pv, sv.take(i as int)),
            strings_view(supporting_audit_fingerprints@) == audit_fingerprints(sv).take(i as int),
        decreases supporting_audits.len() - i,
    {
        push_supporting_diags(&mut diagnostics, primary_audit.audit_fingerprint.as_str(), supporting_audits, line, i);
        assert(sv[i as int] == supporting_audits@[i as int]@);
        assert(sv.take(i + 1).drop_last() =~= sv.take(i as int));
        let a = &supporting_audits[i];
        max_trust = max_trust.higher(a.max_trust);
        has_axiom_taint = has_axiom_taint || a.has_axiom_taint;
        has_oracle_taint = has_oracle_taint || a.has_oracle_taint;
        has_unsafe_taint = has_unsafe_taint || a.has_unsafe_taint;
        let ghost before = supporting_audit_fingerprints@;
        supporting_audit_fingerprints.push(a.audit_fingerprint.clone());
        assert(strings_view(supporting_audit_fingerprints@) =~= strings_view(before).push(sv[i as int].audit_fingerprint));
        assert(audit_fingerprints(sv).take(i + 1) =~= audit_fingerprints(sv).take(i as int).push(sv[i as int].audit_fingerprint));
        i = i + 1;
    }
    assert(sv.take(i as int) =~= sv);
    assert(audit_fingerprints(sv).take(i as int) =~= audit_fingerprints(sv));
    let ghost mid = diagnostics_view(diagnostics@);
    let mut k: usize = 0;
    let mut has_open = false;
    while k < obligations.len()
        invariant
            ov == obligations_view(obligations@),
            k <= obligations.len(),
            diagnostics_view(diagnostics@) == mid + obligation_diags_upto(ov, line, k as int),
            has_open == exists|m: int| 0 <= m < k && (#[trigger] ov[m]).closed_by is None,
        decreases obligations.len() - k,
    {
        assert(ov[k as int] == obligations@[k as int]@);
        let ghost before = diagnostics_view(diagnostics@);
        if repeats_earlier_obligation(&obligations, k) {
            let mut msg = String::from_str("duplicate closure obligation fingerprint `");
            msg.append(obligations[k].fingerprint.as_str());
            msg.append("`");
            diagnostics.push(closure_error(line, msg.as_str(), "closure obligations must be stable and non-duplicated inside one report"));
        }
        assert(diagnostics_view(diagnostics@) =~= before + if repeats_obligation(ov, k as int) {
            seq![closure_error_model(
                line,
                "duplicate closure obligation fingerprint `"@ + ov[k as int].fingerprint + "`"@,
                "closure obligations must be stable and non-duplicated inside one report"@,
            )]
        } else {
            Seq::empty()
        });
        if obligations[k].closed_by.is_none() {
            assert(ov[k as int].closed_by is None);
            has_open = true;
        }
        k = k + 1;
    }
    assert(diagnostics_view(diagnostics@) =~= closure_diags(subject@, pv, sv, ov, line));
    let status = if diagnostics.len() > 0 {
        MetatheoryClosureStatus::Rejected
    } else if has_open {
        MetatheoryClosureStatus::Open
    } else {
        MetatheoryClosureStatus::Closed
    };
    let fp = closure_fingerprint(
        subject,
        status,
        primary_audit.audit_fingerprint.as_str(),
        &supporting_audit_fingerprints,
        &obligations,
        &diagnostics,
        max_trust,
        has_axiom_taint,
        has_oracle_taint,
        has_unsafe_taint,
    );
    MetatheoryClosureReport {
        subject: String::from_str(subject),
        status,
        primary_audit_fingerprint: primary_audit.audit_fingerprint.clone(),
        supporting_audit_fingerprints,
        obligations,
        diagnostics,
        max_trust,
        has_axiom_taint,
        has_oracle_taint,
        has_unsafe_taint,
        closure_fingerprint: fp,
    }
}

/// What `require_closed_metatheory_closure` gives.
pub open spec fn require_closed_spec(report: MetatheoryClosureReportV, line: usize) -> Result<(), DiagnosticV> {
    if report.status == MetatheoryClosureStatus::Closed {
        Ok(())
    } else {
        Err(closure_error_model(
            line,
            "metatheory closure `"@ + report.subject + "` is "@ + report.status.display_text(),
            "only closed metatheory closure reports may serve as final closure evidence for later math/proof-kernel layers"@,
        ))
    }
}

pub fn require_closed_metatheory_closure(report: &MetatheoryClosureReport, line: usize) -> (r: Result<(), Diagnostic>)
    ensures
        require_closed_spec(report@, line) == (match r {
            Ok(()) => Ok::<(), DiagnosticV>(()),
            Err(d) => Err::<(), DiagnosticV>(d@),
        }),
{
    if report.status == MetatheoryClosureStatus::Closed {
        Ok(())
    } else {
        let mut msg = String::from_str("metatheory closure `");
        msg.append(report.subject.as_str());
        msg.append("` is ");
        msg.append(report.status.display_str());
        Err(closure_error(
            line,
            msg.as_str(),
            "only closed metatheory closure reports may serve as final closure evidence for later math/proof-kernel layers",
        ))
    }
}

/// The history event of one supporting audit.
pub open spec fn supporting_event(fp: Seq<char>) -> Seq<char> {
    "metatheory:supporting_dependency_audit:fingerprint="@ + fp
}

/// The history event of one obligation.
pub open spec fn obligation_event(o: ClosureObligationV) -> Seq<char> {
    "metatheory:closure_obligation:"@ + o.kind.display_text() + ":"@ + o.label + ":"@ + o.fingerprint
}

/// The history of a closure report's passport.
pub open spec fn closure_history(r: MetatheoryClosureReportV) -> Seq<Seq<char>> {
    seq!["metatheory:primary_dependency_audit:fingerprint="@ + r.primary_audit_fingerprint]
        + r.supporting_audit_fingerprints.map_values(|f: Seq<char>| supporting_event(f))
        + r.obligations.map_values(|o: ClosureObligationV| obligation_event(o))
        + seq![
        "metatheory:closure_report:"@ + r.subject + ":"@ + r.status.display_text() + ":fingerprint="@ + r.closure_fingerprint,
    ]
}

/// What `metatheory_closure_report_passport` gives.
pub open spec fn closure_passport_spec(theory: Seq<char>, r: MetatheoryClosureReportV) -> PassportV {
    PassportV {
        ty: TypeKindV::MetatheoryClosureReport { subject: r.subject, status: r.status.display_text() },
        construction: ConstructionMode::ProofFinite,
        capabilities: metatheory_caps(),
        cost: CostClass::ProofRequired,
        trust: r.max_trust,
        provenance: if r.has_unsafe_taint {
            Provenance::UnsafeExternal
        } else if r.has_oracle_taint {
            Provenance::OracleInput
        } else if r.has_axiom_taint {
            Provenance::BuiltinKnown
        } else {
            Provenance::InternalDerived
        },
        validation: match r.status {
            MetatheoryClosureStatus::Closed => ValidationState::StaticChecked,
            MetatheoryClosureStatus::Open => ValidationState::ConstraintChecked,
            MetatheoryClosureStatus::Rejected => ValidationState::Raw,
        },
        theory: home_context(theory),
        history: closure_history(r),
        location: LocationContext::Local,
    }
}

pub fn metatheory_closure_report_passport(theory: &str, report: &MetatheoryClosureReport) -> (r: Passport)
    ensures
        r@ == closure_passport_spec(theory@, report@),
{
    let ghost rv = report@;
    let mut history = HistoryChain::empty();
    let mut ev = String::from_str("metatheory:primary_dependency_audit:fingerprint=");
    ev.append(report.primary_audit_fingerprint.as_str());
    history.push(ev.as_str());
    let ghost h0 = history@;
    let ghost sfs = rv.supporting_audit_fingerprints.map_values(|f: Seq<char>| supporting_event(f));
    let mut i: usize = 0;
    while i < report.supporting_audit_fingerprints.len()
        invariant
            rv == report@,
            sfs == rv.supporting_audit_fingerprints.map_values(|f: Seq<char>| supporting_event(f)),
            i <= report.supporting_audit_fingerprints.len(),
            history@ == h0 + sfs.take(i as int),
        decreases report.supporting_audit_fingerprints.len() - i,
    {
        let mut ev = String::from_str("metatheory:supporting_dependency_audit:fingerprint=");
        ev.append(report.supporting_audit_fingerprints[i].as_str());
        history.push(ev.as_str());
        assert(sfs.take(i + 1) =~= sfs.take(i as int).push(sfs[i as int]));
        i = i + 1;
    }
    assert(sfs.take(i as int) =~= sfs);
    let ghost h1 = history@;
    let ghost oes = rv.obligations.map_values(|o: ClosureObligationV| obligation_event(o));
    let mut k: usize = 0;
    while k < report.obligations.len()
        invariant
            rv == report@,
            oes == rv.obligations.map_values(|o: ClosureObligationV| obligation_event(o)),
            k <= report.obligations.len(),
            history@ == h1 + oes.take(k as int),
        decreases report.obligations.len() - k,
    {
        assert(rv.obligations[k as int] == report.obligations@[k as int]@);
        let o = &report.obligations[k];
        let mut ev = String::from_str("metatheory:closure_obligation:");
        ev.append(o.kind.display_str());
        ev.append(":");
        ev.append(o.label.as_str());
        ev.append(":");
        ev.append(o.fingerprint.as_str());
        history.push(ev.as_str());
        assert(oes.take(k + 1) =~= oes.take(k as int).push(oes[k as int]));
        k = k + 1;
    }
    assert(oes.take(k as int) =~= oes);
    let mut ev = String::from_str("metatheory:closure_report:");
    ev.append(report.subject.as_str());
    ev.append(":");
    ev.append(report.status.display_str());
    ev.append(":fingerprint=");
    ev.append(report.closure_fingerprint.as_str());
    history.push(ev.as_str());
    assert(history@ =~= closure_history(rv));
    Passport {
        ty: TypeKind::MetatheoryClosureReport {
            subject: report.subject.clone(),
            status: String::from_str(report.status.display_str()),
        },
        construction: ConstructionMode::ProofFinite,
        capabilities: metatheory_capabilities(),
        cost: CostClass::ProofRequired,
        trust: report.max_trust,
        provenance: if report.has_unsafe_taint {
            Provenance::UnsafeExternal
        } else if report.has_oracle_taint {
            Provenance::OracleInput
        } else if report.has_axiom_taint {
            Provenance::BuiltinKnown
        } else {
            Provenance::InternalDerived
        },
        validation: match report.status {
            MetatheoryClosureStatus::Closed => ValidationState::StaticChecked,
            MetatheoryClosureStatus::Open => ValidationState::ConstraintChecked,
            MetatheoryClosureStatus::Rejected => ValidationState::Raw,
        },
        theory: TheoryContext::new(theory),
        history,
        location: LocationContext::local(),
    }
}

/// The report lines of the supporting audits.
pub open spec fn supporting_lines(fps: Seq<Seq<char>>) -> Seq<char>
    decreases fps.len(),
{
    if fps.len() == 0 {
        Seq::empty()
    } else {
        supporting_lines(fps.drop_last()) + "- supporting_audit: "@ + fps.last() + "\n"@
    }
}

/// The report line of one obligation.
pub open spec fn obligation_line(o: ClosureObligationV) -> Seq<char> {
    "- "@ + o.label + " kind="@ + o.kind.display_text() + " closed_by="@ + match o.closed_by {
        Some(c) => c,
        None => "OPEN"@,
    } + " fingerprint="@ + o.fingerprint + " description="@ + o.description + "\n"@
}

/// The report lines of the obligations.
pub open spec fn obligation_lines(obs: Seq<ClosureObligationV>) -> Seq<char>
    decreases obs.len(),
{
    if obs.len() == 0 {
        Seq::empty()
    } else {
        obligation_lines(obs.drop_last()) + obligation_line(obs.last())
    }
}

/// The rendered text of a closure report.
pub open spec fn closure_report_text(r: MetatheoryClosureReportV) -> Seq<char> {
    let body = "DLM Metatheory Closure Report v1\n"@ + "subject: "@ + r.subject + "\n"@ + "status: "@ + r.status.display_text()
        + "\n"@ + "max_trust: "@ + r.max_trust.debug_text() + "\n"@ + "has_axiom_taint: "@ + bool_text(r.has_axiom_taint) + "\n"@
        + "has_oracle_taint: "@ + bool_text(r.has_oracle_taint) + "\n"@ + "has_unsafe_taint: "@ + bool_text(r.has_unsafe_taint)
        + "\n"@ + "primary_audit_fingerprint: "@ + r.primary_audit_fingerprint + "\n"@ + "supporting_audits: "@ + dec_text(
        r.supporting_audit_fingerprints.len(),
    ) + "\n"@ + supporting_lines(r.supporting_audit_fingerprints) + "obligations: "@ + dec_text(r.obligations.len()) + "\n"@
        + obligation_lines(r.obligations);
    let with_diags = if r.diagnostics.len() == 0 {
        body
    } else {
        body + "diagnostics:\n"@ + diagnostic_lines(r.diagnostics)
    };
    with_diags + "closure_fingerprint: "@ + r.closure_fingerprint + "\n"@
}

fn obligation_line_string(o: &ClosureObligation) -> (r: String)
    ensures
        r@ == obligation_line(o@),
{
    let mut out = String::from_str("- ");
    out.append(o.label.as_str());
    out.append(" kind=");
    out.append(o.kind.display_str());
    out.append(" closed_by=");
    match &o.closed_by {
        Some(c) => out.append(c.as_str()),
        None => out.append("OPEN"),
    }
    out.append(" fingerprint=");
    out.append(o.fingerprint.as_str());
    out.append(" description=");
    out.append(o.description.as_str());
    out.append("\n");
    out
}

fn append_head(out: &mut String, report: &MetatheoryClosureReport)
    ensures
        final(out)@ == old(out)@ + "DLM Metatheory Closure Report v1\n"@ + "subject: "@ + report@.subject + "\n"@ + "status: "@
            + report@.status.display_text() + "\n"@ + "max_trust: "@ + report@.max_trust.debug_text() + "\n"@ + "has_axiom_taint: "@
            + bool_text(report@.has_axiom_taint) + "\n"@ + "has_oracle_taint: "@ + bool_text(report@.has_oracle_taint) + "\n"@
            + "has_unsafe_taint: "@ + bool_text(report@.has_unsafe_taint) + "\n"@ + "primary_audit_fingerprint: "@
            + report@.primary_audit_fingerprint + "\n"@ + "supporting_audits: "@ + dec_text(
            report@.supporting_audit_fingerprints.len(),
        ) + "\n"@,
{
    out.append("DLM Metatheory Closure Report v1\n");
    out.append("subject: ");
    out.append(report.subject.as_str());
    out.append("\n");
    out.append("status: ");
    out.append(report.status.display_str());
    out.append("\n");
    out.append("max_trust: ");
    out.append(report.max_trust.debug_str());
    out.append("\n");
    out.append("has_axiom_taint: ");
    out.append(bool_str(report.has_axiom_taint));
    out.append("\n");
    out.append("has_oracle_taint: ");
    out.append(bool_str(report.has_oracle_taint));
    out.append("\n");
    out.append("has_unsafe_taint: ");
    out.append(bool_str(report.has_unsafe_taint));
    out.append("\n");
    out.append("primary_audit_fingerprint: ");
    out.append(report.primary_audit_fingerprint.as_str());
    out.append("\n");
    out.append("supporting_audits: ");
    out.append(usize_text(report.supporting_audit_fingerprints.len()).as_str());
    out.append("\n");
}

pub fn render_metatheory_closure_report(report: &MetatheoryClosureReport) -> (r: String)
    ensures
        r@ == closure_report_text(report@),
{
    let ghost rv = report@;
    let mut out = String::new();
    append_head(&mut out, report);
    let ghost h0 = out@;
    let ghost fps = rv.supporting_audit_fingerprints;
    let mut i: usize = 0;
    assert(fps.take(0) =~= Seq::<Seq<char>>::empty());
    assert(h0 + supporting_lines(fps.take(0)) =~= h0);
    while i < report.supporting_audit_fingerprints.len()
        invariant
            rv == report@,
            fps == rv.supporting_audit_fingerprints,
            i <= report.supporting_audit_fingerprints.len(),
            out@ == h0 + supporting_lines(fps.take(i as int)),
        decreases report.supporting_audit_fingerprints.len() - i,
    {
        assert(fps.take(i + 1).drop_last() =~= fps.take(i as int));
        out.append("- supporting_audit: ");
        out.append(report.supporting_audit_fingerprints[i].as_str());
        out.append("\n");
        i = i + 1;
    }
    assert(fps.take(i as int) =~= fps);
    out.append("obligations: ");
    out.append(usize_text(report.obligations.len()).as_str());
    out.append("\n");
    let ghost h1 = out@;
    let ghost obs = rv.obligations;
    let mut k: usize = 0;
    assert(obs.take(0) =~= Seq::<ClosureObligationV>::empty());
    assert(h1 + obligation_lines(obs.take(0)) =~= h1);
    while k < report.obligations.len()
        invariant
            rv == report@,
            obs == rv.obligations,
            k <= report.obligations.len(),
            out@ == h1 + obligation_lines(obs.take(k as int)),
        decreases report.obligations.len() - k,
    {
        assert(obs[k as int] == report.obligations@[k as int]@);
        assert(obs.take(k + 1).drop_last() =~= obs.take(k as int));
        out.append(obligation_line_string(&report.obligations[k]).as_str());
        k = k + 1;
    }
    assert(obs.take(k as int) =~= obs);
    if report.diagnostics.len() > 0 {
        out.append("diagnostics:\n");
        append_diagnostic_lines(&mut out, &report.diagnostics);
    }
    out.append("closure_fingerprint: ");
    out.append(report.closure_fingerprint.as_str());
    out.append("\n");
    out
}

pub fn export_metatheory_closure_report(report: &MetatheoryClosureReport) -> (r: String)
    ensures
        r@ == closure_report_text(report@),
{
    render_metatheory_closure_report(report)
}

proof fn lemma_rejected_support_reported(primary: Seq<char>, sup: Seq<MetatheoryDependencyAuditReportV>, line: usize, n: int, k: int)
    requires
        0 <= k < n <= sup.len(),
        sup[k].status != DependencyAuditStatus::Verified,
    ensures
        supporting_diags_upto(primary, sup, line, n).len() > 0,
    decreases n,
{
    if k < n - 1 {
        lemma_rejected_support_reported(primary, sup, line, n - 1, k);
    }
}

/// A closure report is closed only when its primary audit and every
/// supporting audit are verified and every obligation names what closed it.
pub proof fn lemma_closed_only_over_verified_evidence(
    subject: Seq<char>,
    primary: MetatheoryDependencyAuditReportV,
    sup: Seq<MetatheoryDependencyAuditReportV>,
    obs: Seq<ClosureObligationV>,
    line: usize,
)
    requires
        closure_report_spec(subject, primary, sup, obs, line).status == MetatheoryClosureStatus::Closed,
    ensures
        primary.status == DependencyAuditStatus::Verified,
        forall|k: int| 0 <= k < sup.len() ==> (#[trigger] sup[k]).status == DependencyAuditStatus::Verified,
        forall|k: int| 0 <= k < obs.len() ==> (#[trigger] obs[k]).closed_by is Some,
        !all_ws(subject),
{
    assert forall|k: int| 0 <= k < sup.len() implies (#[trigger] sup[k]).status == DependencyAuditStatus::Verified by {
        if sup[k].status != DependencyAuditStatus::Verified {
            lemma_rejected_support_reported(primary.audit_fingerprint, sup, line, sup.len() as int, k);
        }
    }
}

} // verus!
