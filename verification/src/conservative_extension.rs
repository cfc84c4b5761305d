//! Conservative extension audits: an extension of a closed base theory that
//! keeps the base's theorems word for word and shows its new assumptions.

use vstd::prelude::*;
use vstd::string::*;

use crate::axiom_registry::{
    append_diagnostic_lines, diag_keys, diagnostic_lines, diagnostics_view, entries_view, entry_fingerprints,
    metatheory_capabilities, metatheory_caps, push_diag_keys, push_entry_fingerprints, DependencyEntry, DependencyEntryV,
};
use crate::diagnostics::{error_with_help, Diagnostic, DiagnosticKind, DiagnosticV};
use crate::fingerprint::{fingerprint_text, stable_fingerprint, strings_view};
use crate::metatheory_closure::{MetatheoryClosureReport, MetatheoryClosureReportV, MetatheoryClosureStatus};
use crate::passport::record::{copy_strings, home_context};
use crate::passport::type_kind::type_text;
use crate::passport::{
    ConstructionMode, CostClass, HistoryChain, LocationContext, Passport, PassportV, Provenance, TheoryContext, TrustLevel,
    TypeKind, TypeKindV, ValidationState,
};
use crate::text::{all_ws, bool_str, bool_text, dec_text, is_blank, str_eq, usize_text};

verus! {

#[derive(Debug, Clone, Copy, PartialEq, Eq, Structural, PartialOrd, Ord)]
pub enum ConservativeExtensionStatus {
    Verified,
    Open,
    Rejected,
}

impl ConservativeExtensionStatus {
    pub open spec fn display_text(self) -> Seq<char> {
        match self {
            ConservativeExtensionStatus::Verified => "verified"@,
            ConservativeExtensionStatus::Open => "open"@,
            ConservativeExtensionStatus::Rejected => "rejected"@,
        }
    }

    pub fn display_str(self) -> (r: &'static str)
        ensures
            r@ == self.display_text(),
    {
        match self {
            ConservativeExtensionStatus::Verified => "verified",
            ConservativeExtensionStatus::Open => "open",
            ConservativeExtensionStatus::Rejected => "rejected",
        }
    }
}

/// Evidence that a base theorem survives unchanged in the extension.
#[derive(Debug)]
pub struct PreservedTheorem {
    pub name: String,
    pub proposition: String,
    pub base_type: String,
    pub extension_type: String,
    pub base_history: Vec<String>,
    pub extension_history: Vec<String>,
    pub base_fingerprint: String,
    pub extension_fingerprint: String,
    pub preservation_fingerprint: String,
}

pub struct PreservedTheoremV {
    pub name: Seq<char>,
    pub proposition: Seq<char>,
    pub base_type: Seq<char>,
    pub extension_type: Seq<char>,
    pub base_history: Seq<Seq<char>>,
    pub extension_history: Seq<Seq<char>>,
    pub base_fingerprint: Seq<char>,
    pub extension_fingerprint: Seq<char>,
    pub preservation_fingerprint: Seq<char>,
}

impl View for PreservedTheorem {
    type V = PreservedTheoremV;

    open spec fn view(&self) -> PreservedTheoremV {
        PreservedTheoremV {
            name: self.name@,
            proposition: self.proposition@,
            base_type: self.base_type@,
            extension_type: self.extension_type@,
            base_history: self.base_history.deep_view(),
            extension_history: self.extension_history.deep_view(),
            base_fingerprint: self.base_fingerprint@,
            extension_fingerprint: self.extension_fingerprint@,
            preservation_fingerprint: self.preservation_fingerprint@,
        }
    }
}

impl Clone for PreservedTheorem {
    fn clone(&self) -> (r: Self)
        ensures
            r@ == self@,
    {
        PreservedTheorem {
            name: self.name.clone(),
            proposition: self.proposition.clone(),
            base_type: self.base_type.clone(),
            extension_type: self.extension_type.clone(),
            base_history: copy_strings(&self.base_history),
            extension_history: copy_strings(&self.extension_history),
            base_fingerprint: self.base_fingerprint.clone(),
            extension_fingerprint: self.extension_fingerprint.clone(),
            preservation_fingerprint: self.preservation_fingerprint.clone(),
        }
    }
}

/// The models of a sequence of preserved theorems.
pub open spec fn preserved_view(s: Seq<PreservedTheorem>) -> Seq<PreservedTheoremV> {
    s.map_values(|t: PreservedTheorem| t@)
}

/// What a conservative extension audit found.
#[derive(Debug)]
pub struct ConservativeExtensionAuditReport {
    pub base_subject: String,
    pub extension_subject: String,
    pub status: ConservativeExtensionStatus,
    pub base_closure_fingerprint: String,
    pub extension_closure_fingerprint: String,
    pub preserved_theorems: Vec<PreservedTheorem>,
    pub new_assumptions: Vec<DependencyEntry>,
    pub diagnostics: Vec<Diagnostic>,
    pub max_trust: TrustLevel,
    pub has_axiom_taint: bool,
    pub has_oracle_taint: bool,
    pub has_unsafe_taint: bool,
    pub audit_fingerprint: String,
}

pub struct ConservativeExtensionAuditReportV {
    pub base_subject: Seq<char>,
    pub extension_subject: Seq<char>,
    pub status: ConservativeExtensionStatus,
    pub base_closure_fingerprint: Seq<char>,
    pub extension_closure_fingerprint: Seq<char>,
    pub preserved_theorems: Seq<PreservedTheoremV>,
    pub new_assumptions: Seq<DependencyEntryV>,
    pub diagnostics: Seq<DiagnosticV>,
    pub max_trust: TrustLevel,
    pub has_axiom_taint: bool,
    pub has_oracle_taint: bool,
    pub has_unsafe_taint: bool,
    pub audit_fingerprint: Seq<char>,
}

impl View for ConservativeExtensionAuditReport {
    type V = ConservativeExtensionAuditReportV;

    open spec fn view(&self) -> ConservativeExtensionAuditReportV {
        ConservativeExtensionAuditReportV {
            base_subject: self.base_subject@,
            extension_subject: self.extension_subject@,
            status: self.status,
            base_closure_fingerprint: self.base_closure_fingerprint@,
            extension_closure_fingerprint: self.extension_closure_fingerprint@,
            preserved_theorems: preserved_view(self.preserved_theorems@),
            new_assumptions: entries_view(self.new_assumptions@),
            diagnostics: diagnostics_view(self.diagnostics@),
            max_trust: self.max_trust,
            has_axiom_taint: self.has_axiom_taint,
            has_oracle_taint: self.has_oracle_taint,
            has_unsafe_taint: self.has_unsafe_taint,
            audit_fingerprint: self.audit_fingerprint@,
        }
    }
}

/// The prefix of every fingerprint this module makes.
pub open spec fn extension_prefix() -> Seq<char> {
    "dlm-conservative-extension-v1-"@
}

/// An error of the conservative extension layer.
pub open spec fn extension_error_model(line: usize, message: Seq<char>, help: Seq<char>) -> DiagnosticV {
    error_with_help(DiagnosticKind::ConservativeExtensionError, line, message, help)
}

fn extension_error(line: usize, message: &str, help: &str) -> (r: Diagnostic)
    ensures
        r@ == extension_error_model(line, message@, help@),
{
    Diagnostic::error(DiagnosticKind::ConservativeExtensionError, Some(line), message).with_help(help)
}

/// The name and proposition of a theorem passport, or the error for another type.
pub open spec fn theorem_of(p: PassportV, label: Seq<char>, line: usize) -> Result<(Seq<char>, Seq<char>), DiagnosticV> {
    match p.ty {
        TypeKindV::Theorem { name, proposition } => Ok((name, proposition)),
        _ => Err(extension_error_model(
            line,
            label + " must be Theorem, got "@ + type_text(p.ty),
            "conservative extension evidence preserves old theorems, not statements, goals, proof terms, or runtime witnesses"@,
        )),
    }
}

fn require_theorem(passport: &Passport, label: &str, line: usize) -> (r: Result<(String, String), Diagnostic>)
    ensures
        theorem_of(passport@, label@, line) == (match r {
            Ok((n, p)) => Ok::<(Seq<char>, Seq<char>), DiagnosticV>((n@, p@)),
            Err(d) => Err::<(Seq<char>, Seq<char>), DiagnosticV>(d@),
        }),
{
    match &passport.ty {
        TypeKind::Theorem { name, proposition } => Ok((name.clone(), proposition.clone())),
        _ => {
            let mut msg = String::from_str(label);
            msg.append(" must be Theorem, got ");
            msg.append(passport.ty.to_text().as_str());
            Err(extension_error(
                line,
                msg.as_str(),
                "conservative extension evidence preserves old theorems, not statements, goals, proof terms, or runtime witnesses",
            ))
        },
    }
}

/// The parts a passport's fingerprint is taken over.
pub open spec fn passport_parts(prefix: Seq<char>, p: PassportV) -> Seq<Seq<char>> {
    seq![
        "passport-fingerprint:"@ + prefix + ":v1"@,
        type_text(p.ty),
        p.trust.debug_text(),
        p.provenance.debug_text(),
        p.validation.debug_text(),
        p.theory.home,
    ] + p.history
}

fn passport_fingerprint(prefix: &str, passport: &Passport) -> (r: String)
    ensures
        r@ == fingerprint_text(extension_prefix(), passport_parts(prefix@, passport@)),
{
    let mut head = String::from_str("passport-fingerprint:");
    head.append(prefix);
    head.append(":v1");
    let mut parts: Vec<String> = Vec::new();
    parts.push(head);
    parts.push(passport.ty.to_text());
    parts.push(String::from_str(passport.trust.debug_str()));
    parts.push(String::from_str(passport.provenance.debug_str()));
    parts.push(String::from_str(passport.validation.debug_str()));
    parts.push(passport.theory.home.clone());
    let ghost start = strings_view(parts@);
    let events = passport.history.events();
    let mut k: usize = 0;
    while k < events.len()
        invariant
            events.deep_view() == passport@.history,
            k <= events.len(),
            strings_view(parts@) == start + events.deep_view().take(k as int),
        decreases events.len() - k,
    {
        let ghost before = parts@;
        parts.push(events[k].clone());
        assert(strings_view(parts@) =~= strings_view(before).push(events.deep_view()[k as int]));
        assert(events.deep_view().take(k + 1) =~= events.deep_view().take(k as int).push(events.deep_view()[k as int]));
        k = k + 1;
    }
    assert(events.deep_view().take(k as int) =~= events.deep_view());
    assert(strings_view(parts@) =~= passport_parts(prefix@, passport@));
    stable_fingerprint("dlm-conservative-extension-v1-", &parts)
}

/// What `preserved_theorem` gives: the requested name, the base theorem and
/// the extension theorem must agree on name and proposition.
pub open spec fn preserved_theorem_spec(name: Seq<char>, base: PassportV, ext: PassportV, line: usize) -> Result<PreservedTheoremV, DiagnosticV> {
    if all_ws(name) {
        Err(extension_error_model(
            line,
            "preserved theorem name must not be empty"@,
            "conservative extension audit objects need stable semantic identifiers"@,
        ))
    } else if theorem_of(base, "base theorem"@, line) is Err {
        Err(theorem_of(base, "base theorem"@, line)->Err_0)
    } else if theorem_of(ext, "extension theorem"@, line) is Err {
        Err(theorem_of(ext, "extension theorem"@, line)->Err_0)
    } else {
        let (base_name, base_prop) = theorem_of(base, "base theorem"@, line)->Ok_0;
        let (ext_name, ext_prop) = theorem_of(ext, "extension theorem"@, line)->Ok_0;
        if name != base_name {
            Err(extension_error_model(
                line,
                "preserved theorem request `"@ + name + "` does not match base theorem `"@ + base_name + "`"@,
                "conservative extension evidence must identify the old theorem being preserved exactly"@,
            ))
        } else if base_name != ext_name {
            Err(extension_error_model(
                line,
                "base theorem `"@ + base_name + "` is not preserved by extension theorem `"@ + ext_name + "`"@,
                "old theorem names must be preserved exactly across conservative extension audits"@,
            ))
        } else if base_prop != ext_prop {
            Err(extension_error_model(
                line,
                "theorem `"@ + base_name + "` proposition changed from `"@ + base_prop + "` to `"@ + ext_prop + "`"@,
                "a conservative extension may add new vocabulary, but must not mutate old theorem statements"@,
            ))
        } else {
            let bf = fingerprint_text(extension_prefix(), passport_parts("base-theorem"@, base));
            let ef = fingerprint_text(extension_prefix(), passport_parts("extension-theorem"@, ext));
            Ok(PreservedTheoremV {
                name,
                proposition: base_prop,
                base_type: type_text(base.ty),
                extension_type: type_text(ext.ty),
                base_history: base.history,
                extension_history: ext.history,
                base_fingerprint: bf,
                extension_fingerprint: ef,
                preservation_fingerprint: fingerprint_text(
                    extension_prefix(),
                    seq!["preserved-theorem:v1"@, name, base_prop, bf, ef],
                ),
            })
        }
    }
}

pub fn preserved_theorem(name: &str, base_theorem: &Passport, extension_theorem: &Passport, line: usize) -> (r: Result<
    PreservedTheorem,
    Diagnostic,
>)
    ensures
        preserved_theorem_spec(name@, base_theorem@, extension_theorem@, line) == (match r {
            Ok(t) => Ok::<PreservedTheoremV, DiagnosticV>(t@),
            Err(d) => Err::<PreservedTheoremV, DiagnosticV>(d@),
        }),
{
    if is_blank(name) {
        return Err(extension_error(
            line,
            "preserved theorem name must not be empty",
            "conservative extension audit objects need stable semantic identifiers",
        ));
    }
    let (base_name, base_prop) = match require_theorem(base_theorem, "base theorem", line) {
        Ok(x) => x,
        Err(d) => return Err(d),
    };
    let (extension_name, extension_prop) = match require_theorem(extension_theorem, "extension theorem", line) {
        Ok(x) => x,
        Err(d) => return Err(d),
    };
    if !str_eq(name, base_name.as_str()) {
        let mut msg = String::from_str("preserved theorem request `");
        msg.append(name);
        msg.append("` does not match base theorem `");
        msg.append(base_name.as_str());
        msg.append("`");
        return Err(extension_error(
            line,
            msg.as_str(),
            "conservative extension evidence must identify the old theorem being preserved exactly",
        ));
    }
    if !str_eq(base_name.as_str(), extension_name.as_str()) {
        let mut msg = String::from_str("base theorem `");
        msg.append(base_name.as_str());
        msg.append("` is not preserved by extension theorem `");
        msg.append(extension_name.as_str());
        msg.append("`");
        return Err(extension_error(
            line,
            msg.as_str(),
            "old theorem names must be preserved exactly across conservative extension audits",
        ));
    }
    if !str_eq(base_prop.as_str(), extension_prop.as_str()) {
        let mut msg = String::from_str("theorem `");
        msg.append(base_name.as_str());
        msg.append("` proposition changed from `");
        msg.append(base_prop.as_str());
        msg.append("` to `");
        msg.append(extension_prop.as_str());
        msg.append("`");
        return Err(extension_error(
            line,
            msg.as_str(),
            "a conservative extension may add new vocabulary, but must not mutate old theorem statements",
        ));
    }
    let base_fingerprint = passport_fingerprint("base-theorem", base_theorem);
    let extension_fingerprint = passport_fingerprint("extension-theorem", extension_theorem);
    let mut parts: Vec<String> = Vec::new();
    parts.push(String::from_str("preserved-theorem:v1"));
    parts.push(String::from_str(name));
    parts.push(base_prop.clone());
    parts.push(base_fingerprint.clone());
    parts.push(extension_fingerprint.clone());
    assert(strings_view(parts@) =~= seq!["preserved-theorem:v1"@, name@, base_prop@, base_fingerprint@, extension_fingerprint@]);
    let preservation_fingerprint = stable_fingerprint("dlm-conservative-extension-v1-", &parts);
    Ok(PreservedTheorem {
        name: String::from_str(name),
        proposition: base_prop,
        base_type: base_theorem.ty.to_text(),
        extension_type: extension_theorem.ty.to_text(),
        base_history: copy_strings(base_theorem.history.events()),
        extension_history: copy_strings(extension_theorem.history.events()),
        base_fingerprint,
        extension_fingerprint,
        preservation_fingerprint,
    })
}

/// Whether preserved theorem `k` repeats an earlier one's name.
pub open spec fn repeats_theorem(ts: Seq<PreservedTheoremV>, k: int) -> bool {
    exists|j: int| 0 <= j < k && #[trigger] ts[j].name == ts[k].name
}

/// Whether new assumption `k` repeats an earlier one's fingerprint.
pub open spec fn repeats_assumption(es: Seq<DependencyEntryV>, k: int) -> bool {
    exists|j: int| 0 <= j < k && #[trigger] es[j].fingerprint == es[k].fingerprint
}

/// The duplicate-theorem diagnostics for the first `n` preserved theorems.
pub open spec fn theorem_diags(ts: Seq<PreservedTheoremV>, line: usize, n: int) -> Seq<DiagnosticV>
    decreases n,
{
    if n <= 0 {
        Seq::empty()
    } else {
        theorem_diags(ts, line, n - 1) + if repeats_theorem(ts, n - 1) {
            seq![extension_error_model(
                line,
                "duplicate preserved theorem `"@ + ts[n - 1].name + "`"@,
                "each old theorem should have one preservation witness in a single conservative extension audit"@,
            )]
        } else {
            Seq::empty()
        }
    }
}

/// The duplicate-assumption diagnostics for the first `n` new assumptions.
pub open spec fn assumption_diags(es: Seq<DependencyEntryV>, line: usize, n: int) -> Seq<DiagnosticV>
    decreases n,
{
    if n <= 0 {
        Seq::empty()
    } else {
        assumption_diags(es, line, n - 1) + if repeats_assumption(es, n - 1) {
            seq![extension_error_model(
                line,
                "duplicate new assumption fingerprint `"@ + es[n - 1].fingerprint + "`"@,
                "new assumptions must be visible and non-duplicated in conservative extension audits"@,
            )]
        } else {
            Seq::empty()
        }
    }
}

/// All the diagnostics of a conservative extension audit, in order.
pub open spec fn extension_diags(
    base: MetatheoryClosureReportV,
    ext: MetatheoryClosureReportV,
    ts: Seq<PreservedTheoremV>,
    es: Seq<DependencyEntryV>,
    line: usize,
) -> Seq<DiagnosticV> {
    let s1 = if base.status != MetatheoryClosureStatus::Closed {
        seq![extension_error_model(
            line,
            "base metatheory closure `"@ + base.subject + "` is "@ + base.status.display_text(),
            "the base theory must be closed before extension conservativity can be judged"@,
        )]
    } else {
        Seq::empty()
    };
    let s2 = if ext.status == MetatheoryClosureStatus::Rejected {
        seq![extension_error_model(
            line,
            "extension metatheory closure `"@ + ext.subject + "` is rejected"@,
            "rejected extension closure cannot serve as conservative extension evidence"@,
        )]
    } else {
        Seq::empty()
    };
    let s3 = if ts.len() == 0 {
        seq![extension_error_model(
            line,
            "conservative extension audit has no preserved theorem evidence"@,
            "at least one old theorem preservation witness is required to avoid vacuous extension audits"@,
        )]
    } else {
        Seq::empty()
    };
    s1 + s2 + s3 + theorem_diags(ts, line, ts.len() as int) + assumption_diags(es, line, es.len() as int)
}

/// The joined taint of both closures and the new assumptions.
pub open spec fn extension_taint(base: MetatheoryClosureReportV, ext: MetatheoryClosureReportV, es: Seq<DependencyEntryV>) -> (
    TrustLevel,
    bool,
    bool,
    bool,
)
    decreases es.len(),
{
    if es.len() == 0 {
        (
            base.max_trust.higher(ext.max_trust),
            base.has_axiom_taint || ext.has_axiom_taint,
            base.has_oracle_taint || ext.has_oracle_taint,
            base.has_unsafe_taint || ext.has_unsafe_taint,
        )
    } else {
        let (t, a, o, u) = extension_taint(base, ext, es.drop_last());
        let e = es.last();
        (
            t.higher(e.trust),
            a || e.trust.rank() >= TrustLevel::Axiom.rank(),
            o || e.trust.rank() >= TrustLevel::Oracle.rank(),
            u || e.trust.rank() >= TrustLevel::Unsafe.rank() || e.provenance == Provenance::UnsafeExternal,
        )
    }
}

/// The preservation fingerprints of the theorems.
pub open spec fn preservation_fingerprints(ts: Seq<PreservedTheoremV>) -> Seq<Seq<char>> {
    ts.map_values(|t: PreservedTheoremV| t.preservation_fingerprint)
}

/// The parts an extension audit's fingerprint is taken over.
pub open spec fn extension_parts(
    base_subject: Seq<char>,
    ext_subject: Seq<char>,
    status: ConservativeExtensionStatus,
    base_fp: Seq<char>,
    ext_fp: Seq<char>,
    ts: Seq<PreservedTheoremV>,
    es: Seq<DependencyEntryV>,
    ds: Seq<DiagnosticV>,
    t: TrustLevel,
    a: bool,
    o: bool,
    u: bool,
) -> Seq<Seq<char>> {
    seq![
        "conservative-extension-audit:v1"@,
        base_subject,
        ext_subject,
        status.display_text(),
        base_fp,
        ext_fp,
        t.debug_text(),
        bool_text(a),
        bool_text(o),
        bool_text(u),
    ] + preservation_fingerprints(ts) + entry_fingerprints(es) + diag_keys(ds)
}

/// What `audit_conservative_extension` gives: rejected on any diagnostic, else
/// open while the extension's closure is open, else verified.
pub open spec fn extension_audit_spec(
    base: MetatheoryClosureReportV,
    ext: MetatheoryClosureReportV,
    ts: Seq<PreservedTheoremV>,
    es: Seq<DependencyEntryV>,
    line: usize,
) -> ConservativeExtensionAuditReportV {
    let ds = extension_diags(base, ext, ts, es, line);
    let status = if ds.len() > 0 {
        ConservativeExtensionStatus::Rejected
    } else if ext.status == MetatheoryClosureStatus::Open {
        ConservativeExtensionStatus::Open
    } else {
        ConservativeExtensionStatus::Verified
    };
    let (t, a, o, u) = extension_taint(base, ext, es);
    ConservativeExtensionAuditReportV {
        base_subject: base.subject,
        extension_subject: ext.subject,
        status,
        base_closure_fingerprint: base.closure_fingerprint,
        extension_closure_fingerprint: ext.closure_fingerprint,
        preserved_theorems: ts,
        new_assumptions: es,
        diagnostics: ds,
        max_trust: t,
        has_axiom_taint: a,
        has_oracle_taint: o,
        has_unsafe_taint: u,
        audit_fingerprint: fingerprint_text(
            extension_prefix(),
            extension_parts(base.subject, ext.subject, status, base.closure_fingerprint, ext.closure_fingerprint, ts, es, ds, t, a, o, u),
        ),
    }
}

fn repeats_earlier_theorem(ts: &Vec<PreservedTheorem>, k: usize) -> (r: bool)
    requires
        k < ts.len(),
    ensures
        r == repeats_theorem(preserved_view(ts@), k as int),
{
    let ghost tv = preserved_view(ts@);
    let mut j: usize = 0;
    while j < k
        invariant
            tv == preserved_view(ts@),
            j <= k < ts.len(),
            forall|m: int| 0 <= m < j ==> #[trigger] tv[m].name != tv[k as int].name,
        decreases k - j,
    {
        assert(tv[j as int] == ts@[j as int]@);
        assert(tv[k as int] == ts@[k as int]@);
        if str_eq(ts[j].name.as_str(), ts[k].name.as_str()) {
            assert(tv[j as int].name == tv[k as int].name);
            return true;
        }
        j = j + 1;
    }
    false
}

fn repeats_earlier_assumption(es: &Vec<DependencyEntry>, k: usize) -> (r: bool)
    requires
        k < es.len(),
    ensures
        r == repeats_assumption(entries_view(es@), k as int),
{
    let ghost ev = entries_view(es@);
    let mut j: usize = 0;
    while j < k
        invariant
            ev == entries_view(es@),
            j <= k < es.len(),
            forall|m: int| 0 <= m < j ==> #[trigger] ev[m].fingerprint != ev[k as int].fingerprint,
        decreases k - j,
    {
        assert(ev[j as int] == es@[j as int]@);
        assert(ev[k as int] == es@[k as int]@);
        if str_eq(es[j].fingerprint.as_str(), es[k].fingerprint.as_str()) {
            assert(ev[j as int].fingerprint == ev[k as int].fingerprint);
            return true;
        }
        j = j + 1;
    }
    false
}

fn extension_fingerprint(
    base: &MetatheoryClosureReport,
    ext: &MetatheoryClosureReport,
    status: ConservativeExtensionStatus,
    ts: &Vec<PreservedTheorem>,
    es: &Vec<DependencyEntry>,
    diagnostics: &Vec<Diagnostic>,
    max_trust: TrustLevel,
    has_axiom_taint: bool,
    has_oracle_taint: bool,
    has_unsafe_taint: bool,
) -> (r: String)
    ensures
        r@ == fingerprint_text(
            extension_prefix(),
            extension_parts(
                base@.subject,
                ext@.subject,
                status,
                base@.closure_fingerprint,
                ext@.closure_fingerprint,
                preserved_view(ts@),
                entries_view(es@),
                diagnostics_view(diagnostics@),
                max_trust,
                has_axiom_taint,
                has_oracle_taint,
                has_unsafe_taint,
            ),
        ),
{
    let mut parts: Vec<String> = Vec::new();
    parts.push(String::from_str("conservative-extension-audit:v1"));
    parts.push(base.subject.clone());
    parts.push(ext.subject.clone());
    parts.push(String::from_str(status.display_str()));
    parts.push(base.closure_fingerprint.clone());
    parts.push(ext.closure_fingerprint.clone());
    parts.push(String::from_str(max_trust.debug_str()));
    parts.push(String::from_str(bool_str(has_axiom_taint)));
    parts.push(String::from_str(bool_str(has_oracle_taint)));
    parts.push(String::from_str(bool_str(has_unsafe_taint)));
    let ghost head = strings_view(parts@);
    let ghost tv = preserved_view(ts@);
    let mut k: usize = 0;
    while k < ts.len()
        invariant
            tv == preserved_view(ts@),
            k <= ts.len(),
            strings_view(parts@) == head + preservation_fingerprints(tv).take(k as int),
        decreases ts.len() - k,
    {
        let ghost before = parts@;
        parts.push(ts[k].preservation_fingerprint.clone());
        assert(strings_view(parts@) =~= strings_view(before).push(ts@[k as int].preservation_fingerprint@));
        assert(preservation_fingerprints(tv).take(k + 1) =~= preservation_fingerprints(tv).take(k as int).push(
            tv[k as int].preservation_fingerprint,
        ));
        k = k + 1;
    }
    assert(preservation_fingerprints(tv).take(k as int) =~= preservation_fingerprints(tv));
    push_entry_fingerprints(&mut parts, es);
    push_diag_keys(&mut parts, diagnostics);
    assert(strings_view(parts@) =~= extension_parts(
        base@.subject,
        ext@.subject,
        status,
        base@.closure_fingerprint,
        ext@.closure_fingerprint,
        tv,
        entries_view(es@),
        diagnostics_view(diagnostics@),
        max_trust,
        has_axiom_taint,
        has_oracle_taint,
        has_unsafe_taint,
    ));
    stable_fingerprint("dlm-conservative-extension-v1-", &parts)
}

fn push_theorem_diags(diagnostics: &mut Vec<Diagnostic>, preserved_theorems: &Vec<PreservedTheorem>, line: usize)
    ensures
        diagnostics_view(final(diagnostics)@) == diagnostics_view(old(diagnostics)@) + theorem_diags(
            preserved_view(preserved_theorems@),
            line,
            preserved_theorems.len() as int,
        ),
{
    let ghost tv = preserved_view(preserved_theorems@);
    let ghost head = diagnostics_view(diagnostics@);
    let mut k: usize = 0;
    while k < preserved_theorems.len()
        invariant
            tv == preserved_view(preserved_theorems@),
            k <= preserved_theorems.len(),
            diagnostics_view(diagnostics@) == head + theorem_diags(tv, line, k as int),
        decreases preserved_theorems.len() - k,
    {
        assert(tv[k as int] == preserved_theorems@[k as int]@);
        let ghost before = diagnostics_view(diagnostics@);
        if repeats_earlier_theorem(preserved_theorems, k) {
            let mut msg = String::from_str("duplicate preserved theorem `");
            msg.append(preserved_theorems[k].name.as_str());
            msg.append("`");
            diagnostics.push(extension_error(
                line,
                msg.as_str(),
                "each old theorem should have one preservation witness in a single conservative extension audit",
            ));
        }
        assert(diagnostics_view(diagnostics@) =~= before + if repeats_theorem(tv, k as int) {
            seq![extension_error_model(
                line,
                "duplicate preserved theorem `"@ + tv[k as int].name + "`"@,
                "each old theorem should have one preservation witness in a single conservative extension audit"@,
            )]
        } else {
            Seq::empty()
        });
        k = k + 1;
    }
}

fn scan_assumptions(
    diagnostics: &mut Vec<Diagnostic>,
    new_assumptions: &Vec<DependencyEntry>,
    base: &MetatheoryClosureReport,
    extension: &MetatheoryClosureReport,
    line: usize,
) -> (r: (TrustLevel, bool, bool, bool))
    ensures
        diagnostics_view(final(diagnostics)@) == diagnostics_view(old(diagnostics)@) + assumption_diags(
            entries_view(new_assumptions@),
            line,
            new_assumptions.len() as int,
        ),
        r == extension_taint(base@, extension@, entries_view(new_assumptions@)),
{
    let ghost ev = entries_view(new_assumptions@);
    let ghost mid = diagnostics_view(diagnostics@);
    let mut max_trust = base.max_trust.higher(extension.max_trust);
    let mut has_axiom_taint = base.has_axiom_taint || extension.has_axiom_taint;
    let mut has_oracle_taint = base.has_oracle_taint || extension.has_oracle_taint;
    let mut has_unsafe_taint = base.has_unsafe_taint || extension.has_unsafe_taint;
    let mut i: usize = 0;
    assert(ev.take(0) =~= Seq::<DependencyEntryV>::empty());
    while i < new_assumptions.len()
        invariant
            ev == entries_view(new_assumptions@),
            i <= new_assumptions.len(),
            diagnostics_view(diagnostics@) == mid + assumption_diags(ev, line, i as int),
            (max_trust, has_axiom_taint, has_oracle_taint, has_unsafe_taint) == extension_taint(base@, extension@, ev.take(i as int)),
        decreases new_assumptions.len() - i,
    {
        assert(ev[i as int] == new_assumptions@[i as int]@);
        assert(ev.take(i + 1).drop_last() =~= ev.take(i as int));
        let ghost before = diagnostics_view(diagnostics@);
        if repeats_earlier_assumption(new_assumptions, i) {
            let mut msg = String::from_str("duplicate new assumption fingerprint `");
            msg.append(new_assumptions[i].fingerprint.as_str());
            msg.append("`");
            diagnostics.push(extension_error(
                line,
                msg.as_str(),
                "new assumptions must be visible and non-duplicated in conservative extension audits",
            ));
        }
        assert(diagnostics_view(diagnostics@) =~= before + if repeats_assumption(ev, i as int) {
            seq![extension_error_model(
                line,
                "duplicate new assumption fingerprint `"@ + ev[i as int].fingerprint + "`"@,
                "new assumptions must be visible and non-duplicated in conservative extension audits"@,
            )]
        } else {
            Seq::empty()
        });
        let e = &new_assumptions[i];
        max_trust = max_trust.higher(e.trust);
        has_axiom_taint = has_axiom_taint || e.trust.rank() >= TrustLevel::Axiom.rank();
        has_oracle_taint = has_oracle_taint || e.trust.rank() >= TrustLevel::Oracle.rank();
        has_unsafe_taint = has_unsafe_taint || e.trust.rank() >= TrustLevel::Unsafe.rank() || e.provenance == Provenance::UnsafeExternal;
        i = i + 1;
    }
    assert(ev.take(i as int) =~= ev);
    (max_trust, has_axiom_taint, has_oracle_taint, has_unsafe_taint)
}

pub fn audit_conservative_extension(
    base: &MetatheoryClosureReport,
    extension: &MetatheoryClosureReport,
    preserved_theorems: Vec<PreservedTheorem>,
    new_assumptions: Vec<DependencyEntry>,
    line: usize,
) -> (r: ConservativeExtensionAuditReport)
    ensures
        r@ == extension_audit_spec(base@, extension@, preserved_view(preserved_theorems@), entries_view(new_assumptions@), line),
{
    let ghost tv = preserved_view(preserved_theorems@);
    let ghost ev = entries_view(new_assumptions@);
    let mut diagnostics: Vec<Diagnostic> = Vec::new();
    if base.status != MetatheoryClosureStatus::Closed {
        let mut msg = String::from_str("base metatheory closure `");
        msg.append(base.subject.as_str());
        msg.append("` is ");
        msg.append(base.status.display_str());
        diagnostics.push(extension_error(line, msg.as_str(), "the base theory must be closed before extension conservativity can be judged"));
    }
    if extension.status == MetatheoryClosureStatus::Rejected {
        let mut msg = String::from_str("extension metatheory closure `");
        msg.append(extension.subject.as_str());
        msg.append("` is rejected");
        diagnostics.push(extension_error(line, msg.as_str(), "rejected extension closure cannot serve as conservative extension evidence"));
    }
    if preserved_theorems.len() == 0 {
        diagnostics.push(extension_error(
            line,
            "conservative extension audit has no preserved theorem evidence",
            "at least one old theorem preservation witness is required to avoid vacuous extension audits",
        ));
    }
    let ghost head = diagnostics_view(diagnostics@);
    push_theorem_diags(&mut diagnostics, &preserved_theorems, line);
    let (max_trust, has_axiom_taint, has_oracle_taint, has_unsafe_taint) = scan_assumptions(
        &mut diagnostics,
        &new_assumptions,
        base,
        extension,
        line,
    );
    assert(diagnostics_view(diagnostics@) =~= extension_diags(base@, extension@, tv, ev, line));
    let status = if diagnostics.len() > 0 {
        ConservativeExtensionStatus::Rejected
    } else if extension.status == MetatheoryClosureStatus::Open {
        ConservativeExtensionStatus::Open
    } else {
        ConservativeExtensionStatus::Verified
    };
    let fp = extension_fingerprint(
        base,
        extension,
        status,
        &preserved_theorems,
        &new_assumptions,
        &diagnostics,
        max_trust,
        has_axiom_taint,
        has_oracle_taint,
        has_unsafe_taint,
    );
    ConservativeExtensionAuditReport {
        base_subject: base.subject.clone(),
        extension_subject: extension.subject.clone(),
        status,
        base_closure_fingerprint: base.closure_fingerprint.clone(),
        extension_closure_fingerprint: extension.closure_fingerprint.clone(),
        preserved_theorems,
        new_assumptions,
        diagnostics,
        max_trust,
        has_axiom_taint,
        has_oracle_taint,
        has_unsafe_taint,
        audit_fingerprint: fp,
    }
}

/// What `require_verified_conservative_extension_audit` gives.
pub open spec fn require_verified_extension_spec(r: ConservativeExtensionAuditReportV, line: usize) -> Result<(), DiagnosticV> {
    if r.status == ConservativeExtensionStatus::Verified {
        Ok(())
    } else {
        Err(extension_error_model(
            line,
            "conservative extension audit `"@ + r.base_subject + " -> "@ + r.extension_subject + "` is "@ + r.status.display_text(),
            "only verified conservative extension audits may serve as old-theorem preservation evidence"@,
        ))
    }
}

pub fn require_verified_conservative_extension_audit(report: &ConservativeExtensionAuditReport, line: usize) -> (r: Result<
    (),
    Diagnostic,
>)
    ensures
        require_verified_extension_spec(report@, line) == (match r {
            Ok(()) => Ok::<(), DiagnosticV>(()),
            Err(d) => Err::<(), DiagnosticV>(d@),
        }),
{
    if report.status == ConservativeExtensionStatus::Verified {
        Ok(())
    } else {
        let mut msg = String::from_str("conservative extension audit `");
        msg.append(report.base_subject.as_str());
        msg.append(" -> ");
        msg.append(report.extension_subject.as_str());
        msg.append("` is ");
        msg.append(report.status.display_str());
        Err(extension_error(
            line,
            msg.as_str(),
            "only verified conservative extension audits may serve as old-theorem preservation evidence",
        ))
    }
}

/// The history event of one preserved theorem.
pub open spec fn theorem_event(t: PreservedTheoremV) -> Seq<char> {
    "metatheory:preserved_theorem:"@ + t.name + ":"@ + t.preservation_fingerprint
}

/// The history event of one new assumption.
pub open spec fn assumption_event(e: DependencyEntryV) -> Seq<char> {
    "metatheory:new_assumption:"@ + e.kind.display_text() + ":"@ + e.label + ":"@ + e.fingerprint
}

/// The history of an extension audit's passport.
pub open spec fn extension_history(r: ConservativeExtensionAuditReportV) -> Seq<Seq<char>> {
    seq![
        "metatheory:base_closure:fingerprint="@ + r.base_closure_fingerprint,
        "metatheory:extension_closure:fingerprint="@ + r.extension_closure_fingerprint,
    ] + r.preserved_theorems.map_values(|t: PreservedTheoremV| theorem_event(t)) + r.new_assumptions.map_values(
        |e: DependencyEntryV| assumption_event(e),
    ) + seq![
        "metatheory:conservative_extension:"@ + r.base_subject + "->"@ + r.extension_subject + ":"@ + r.status.display_text()
            + ":fingerprint="@ + r.audit_fingerprint,
    ]
}

/// What `conservative_extension_audit_passport` gives.
pub open spec fn extension_passport_spec(theory: Seq<char>, r: ConservativeExtensionAuditReportV) -> PassportV {
    PassportV {
        ty: TypeKindV::ConservativeExtensionAudit {
            base: r.base_subject,
            extension: r.extension_subject,
            status: r.status.display_text(),
        },
        construction: ConstructionMode::ProofFinite,
        capabilities: metatheory_caps(),
        cost: CostClass::ProofRequired,
        trust: r.max_trust,
        provenance: if r.has_unsafe_taint {
            Provenance::UnsafeExternal
        } else if r.has_oracle_taint {
            Provenance::OracleInput
        } else if r.has_axiom_taint {
            Provenance::BuiltinKnown
        } else {
            Provenance::InternalDerived
        },
        validation: match r.status {
            ConservativeExtensionStatus::Verified => ValidationState::StaticChecked,
            ConservativeExtensionStatus::Open => ValidationState::ConstraintChecked,
            ConservativeExtensionStatus::Rejected => ValidationState::Raw,
        },
        theory: home_context(theory),
        history: extension_history(r),
        location: LocationContext::Local,
    }
}

pub fn conservative_extension_audit_passport(theory: &str, report: &ConservativeExtensionAuditReport) -> (r: Passport)
    ensures
        r@ == extension_passport_spec(theory@, report@),
{
    let ghost rv = report@;
    let mut history = HistoryChain::empty();
    let mut ev = String::from_str("metatheory:base_closure:fingerprint=");
    ev.append(report.base_closure_fingerprint.as_str());
    history.push(ev.as_str());
    let mut ev = String::from_str("metatheory:extension_closure:fingerprint=");
    ev.append(report.extension_closure_fingerprint.as_str());
    history.push(ev.as_str());
    let ghost h0 = history@;
    let ghost tes = rv.preserved_theorems.map_values(|t: PreservedTheoremV| theorem_event(t));
    let mut i: usize = 0;
    while i < report.preserved_theorems.len()
        invariant
            rv == report@,
            tes == rv.preserved_theorems.map_values(|t: PreservedTheoremV| theorem_event(t)),
            i <= report.preserved_theorems.len(),
            history@ == h0 + tes.take(i as int),
        decreases report.preserved_theorems.len() - i,
    {
        assert(rv.preserved_theorems[i as int] == report.preserved_theorems@[i as int]@);
        let t = &report.preserved_theorems[i];
        let mut ev = String::from_str("metatheory:preserved_theorem:");
        ev.append(t.name.as_str());
        ev.append(":");
        ev.append(t.preservation_fingerprint.as_str());
        history.push(ev.as_str());
        assert(tes.take(i + 1) =~= tes.take(i as int).push(tes[i as int]));
        i = i + 1;
    }
    assert(tes.take(i as int) =~= tes);
    let ghost h1 = history@;
    let ghost aes = rv.new_assumptions.map_values(|e: DependencyEntryV| assumption_event(e));
    let mut k: usize = 0;
    while k < report.new_assumptions.len()
        invariant
            rv == report@,
            aes == rv.new_assumptions.map_values(|e: DependencyEntryV| assumption_event(e)),
            k <= report.new_assumptions.len(),
            history@ == h1 + aes.take(k as int),
        decreases report.new_assumptions.len() - k,
    {
        assert(rv.new_assumptions[k as int] == report.new_assumptions@[k as int]@);
        let e = &report.new_assumptions[k];
        let mut ev = String::from_str("metatheory:new_assumption:");
        ev.append(e.kind.display_str());
        ev.append(":");
        ev.append(e.label.as_str());
        ev.append(":");
        ev.append(e.fingerprint.as_str());
        history.push(ev.as_str());
        assert(aes.take(k + 1) =~= aes.take(k as int).push(aes[k as int]));
        k = k + 1;
    }
    assert(aes.take(k as int) =~= aes);
    let mut ev = String::from_str("metatheory:conservative_extension:");
    ev.append(report.base_subject.as_str());
    ev.append("->");
    ev.append(report.extension_subject.as_str());
    ev.append(":");
    ev.append(report.status.display_str());
    ev.append(":fingerprint=");
    ev.append(report.audit_fingerprint.as_str());
    history.push(ev.as_str());
    assert(history@ =~= extension_history(rv));
    Passport {
        ty: TypeKind::ConservativeExtensionAudit {
            base: report.base_subject.clone(),
            extension: report.extension_subject.clone(),
            status: String::from_str(report.status.display_str()),
        },
        construction: ConstructionMode::ProofFinite,
        capabilities: metatheory_capabilities(),
        cost: CostClass::ProofRequired,
        trust: report.max_trust,
        provenance: if report.has_unsafe_taint {
            Provenance::UnsafeExternal
        } else if report.has_oracle_taint {
            Provenance::OracleInput
        } else if report.has_axiom_taint {
            Provenance::BuiltinKnown
        } else {
            Provenance::InternalDerived
        },
        validation: match report.status {
            ConservativeExtensionStatus::Verified => ValidationState::StaticChecked,
            ConservativeExtensionStatus::Open => ValidationState::ConstraintChecked,
            ConservativeExtensionStatus::Rejected => ValidationState::Raw,
        },
        theory: TheoryContext::new(theory),
        history,
        location: LocationContext::local(),
    }
}

/// The report line of one preserved theorem.
pub open spec fn theorem_line(t: PreservedTheoremV) -> Seq<char> {
    "- "@ + t.name + " proposition="@ + t.proposition + " preservation_fingerprint="@ + t.preservation_fingerprint + "\n"@
}

/// The report lines of the preserved theorems.
pub open spec fn theorem_lines(ts: Seq<PreservedTheoremV>) -> Seq<char>
    decreases ts.len(),
{
    if ts.len() == 0 {
        Seq::empty()
    } else {
        theorem_lines(ts.drop_last()) + theorem_line(ts.last())
    }
}

/// The report line of one new assumption.
pub open spec fn assumption_line(e: DependencyEntryV) -> Seq<char> {
    "- "@ + e.label + " kind="@ + e.kind.display_text() + " type="@ + e.ty + " trust="@ + e.trust.debug_text() + " fingerprint="@
        + e.fingerprint + "\n"@
}

/// The report lines of the new assumptions.
pub open spec fn assumption_lines(es: Seq<DependencyEntryV>) -> Seq<char>
    decreases es.len(),
{
    if es.len() == 0 {
        Seq::empty()
    } else {
        assumption_lines(es.drop_last()) + assumption_line(es.last())
    }
}

/// The head of an extension audit's text, up to its theorem count.
pub open spec fn extension_head_text(r: ConservativeExtensionAuditReportV) -> Seq<char> {
    "DLM Conservative Extension Audit v1\n"@ + "base: "@ + r.base_subject + "\n"@ + "extension: "@ + r.extension_subject + "\n"@
        + "status: "@ + r.status.display_text() + "\n"@ + "max_trust: "@ + r.max_trust.debug_text() + "\n"@ + "has_axiom_taint: "@
        + bool_text(r.has_axiom_taint) + "\n"@ + "has_oracle_taint: "@ + bool_text(r.has_oracle_taint) + "\n"@
        + "has_unsafe_taint: "@ + bool_text(r.has_unsafe_taint) + "\n"@ + "base_closure_fingerprint: "@
        + r.base_closure_fingerprint + "\n"@ + "extension_closure_fingerprint: "@ + r.extension_closure_fingerprint + "\n"@
        + "preserved_theorems: "@ + dec_text(r.preserved_theorems.len()) + "\n"@
}

/// The rendered text of an extension audit.
pub open spec fn extension_report_text(r: ConservativeExtensionAuditReportV) -> Seq<char> {
    let body = extension_head_text(r) + theorem_lines(r.preserved_theorems) + "new_assumptions: "@ + dec_text(
        r.new_assumptions.len(),
    ) + "\n"@ + assumption_lines(r.new_assumptions);
    let with_diags = if r.diagnostics.len() == 0 {
        body
    } else {
        body + "diagnostics:\n"@ + diagnostic_lines(r.diagnostics)
    };
    with_diags + "audit_fingerprint: "@ + r.audit_fingerprint + "\n"@
}

fn extension_head_string(report: &ConservativeExtensionAuditReport) -> (r: String)
    ensures
        r@ == extension_head_text(report@),
{
    let mut out = String::from_str("DLM Conservative Extension Audit v1\n");
    out.append("base: ");
    out.append(report.base_subject.as_str());
    out.append("\n");
    out.append("extension: ");
    out.append(report.extension_subject.as_str());
    out.append("\n");
    out.append("status: ");
    out.append(report.status.display_str());
    out.append("\n");
    out.append("max_trust: ");
    out.append(report.max_trust.debug_str());
    out.append("\n");
    out.append("has_axiom_taint: ");
    out.append(bool_str(report.has_axiom_taint));
    out.append("\n");
    out.append("has_oracle_taint: ");
    out.append(bool_str(report.has_oracle_taint));
    out.append("\n");
    out.append("has_unsafe_taint: ");
    out.append(bool_str(report.has_unsafe_taint));
    out.append("\n");
    out.append("base_closure_fingerprint: ");
    out.append(report.base_closure_fingerprint.as_str());
    out.append("\n");
    out.append("extension_closure_fingerprint: ");
    out.append(report.extension_closure_fingerprint.as_str());
    out.append("\n");
    out.append("preserved_theorems: ");
    out.append(usize_text(report.preserved_theorems.len()).as_str());
    out.append("\n");
    out
}

fn theorem_line_string(t: &PreservedTheorem) -> (r: String)
    ensures
        r@ == theorem_line(t@),
{
    let mut out = String::from_str("- ");
    out.append(t.name.as_str());
    out.append(" proposition=");
    out.append(t.proposition.as_str());
    out.append(" preservation_fingerprint=");
    out.append(t.preservation_fingerprint.as_str());
    out.append("\n");
    out
}

fn assumption_line_string(e: &DependencyEntry) -> (r: String)
    ensures
        r@ == assumption_line(e@),
{
    let mut out = String::from_str("- ");
    out.append(e.label.as_str());
    out.append(" kind=");
    out.append(e.kind.display_str());
    out.append(" type=");
    out.append(e.ty.as_str());
    out.append(" trust=");
    out.append(e.trust.debug_str());
    out.append(" fingerprint=");
    out.append(e.fingerprint.as_str());
    out.append("\n");
    out
}

pub fn render_conservative_extension_audit_report(report: &ConservativeExtensionAuditReport) -> (r: String)
    ensures
        r@ == extension_report_text(report@),
{
    let ghost rv = report@;
    let mut out = extension_head_string(report);
    let ghost h0 = out@;
    let ghost ts = rv.preserved_theorems;
    let mut i: usize = 0;
    assert(ts.take(0) =~= Seq::<PreservedTheoremV>::empty());
    assert(h0 + theorem_lines(ts.take(0)) =~= h0);
    while i < report.preserved_theorems.len()
        invariant
            rv == report@,
            ts == rv.preserved_theorems,
            i <= report.preserved_theorems.len(),
            out@ == h0 + theorem_lines(ts.take(i as int)),
        decreases report.preserved_theorems.len() - i,
    {
        assert(ts[i as int] == report.preserved_theorems@[i as int]@);
        assert(ts.take(i + 1).drop_last() =~= ts.take(i as int));
        out.append(theorem_line_string(&report.preserved_theorems[i]).as_str());
        i = i + 1;
    }
    assert(ts.take(i as int) =~= ts);
    out.append("new_assumptions: ");
    out.append(usize_text(report.new_assumptions.len()).as_str());
    out.append("\n");
    let ghost h1 = out@;
    let ghost es = rv.new_assumptions;
    let mut k: usize = 0;
    assert(es.take(0) =~= Seq::<DependencyEntryV>::empty());
    assert(h1 + assumption_lines(es.take(0)) =~= h1);
    while k < report.new_assumptions.len()
        invariant
            rv == report@,
            es == rv.new_assumptions,
            k <= report.new_assumptions.len(),
            out@ == h1 + assumption_lines(es.take(k as int)),
        decreases report.new_assumptions.len() - k,
    {
        assert(es[k as int] == report.new_assumptions@[k as int]@);
        assert(es.take(k + 1).drop_last() =~= es.take(k as int));
        out.append(assumption_line_string(&report.new_assumptions[k]).as_str());
        k = k + 1;
    }
    assert(es.take(k as int) =~= es);
    if report.diagnostics.len() > 0 {
        out.append("diagnostics:\n");
        append_diagnostic_lines(&mut out, &report.diagnostics);
    }
    out.append("audit_fingerprint: ");
    out.append(report.audit_fingerprint.as_str());
    out.append("\n");
    out
}

pub fn export_conservative_extension_audit_report(report: &ConservativeExtensionAuditReport) -> (r: String)
    ensures
        r@ == extension_report_text(report@),
{
    render_conservative_extension_audit_report(report)
}

/// An extension audit is verified only when the base closure is closed, the
/// extension's closure is closed too, and at least one base theorem is shown preserved.
pub proof fn lemma_verified_extension_needs_closed_base(
    base: MetatheoryClosureReportV,
    ext: MetatheoryClosureReportV,
    ts: Seq<PreservedTheoremV>,
    es: Seq<DependencyEntryV>,
    line: usize,
)
    requires
        extension_audit_spec(base, ext, ts, es, line).status == ConservativeExtensionStatus::Verified,
    ensures
        base.status == MetatheoryClosureStatus::Closed,
        ext.status == MetatheoryClosureStatus::Closed,
        ts.len() > 0,
{
}

} // verus!
