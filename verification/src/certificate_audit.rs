//! Audits of proof certificates: whether a certificate can be exported, and
//! whether it matches the theorem passport it claims to certify.

use vstd::prelude::*;
use vstd::string::*;

use crate::certificate::{
    certificate_axiom_tainted, recomputed_fingerprint_text, verify_certificate_against_theorem, verify_certificate_spec,
    ProofCertificate, ProofCertificateV,
};
use crate::diagnostics::{error_model, Diagnostic, DiagnosticKind, DiagnosticV};
use crate::passport::{Passport, PassportV, TypeKind, TypeKindV};
use crate::text::{all_ws, bool_str, bool_text, dec_text, is_blank, str_eq, usize_text};

verus! {

/// Whether an audit accepted the certificate.
#[derive(Debug, Clone, Copy, PartialEq, Eq, Structural)]
pub enum CertificateAuditStatus {
    Verified,
    Rejected,
}

impl CertificateAuditStatus {
    /// The `Debug` name of the variant.
    pub open spec fn debug_text(self) -> Seq<char> {
        match self {
            CertificateAuditStatus::Verified => "Verified"@,
            CertificateAuditStatus::Rejected => "Rejected"@,
        }
    }

    pub fn debug_str(self) -> (r: &'static str)
        ensures
            r@ == self.debug_text(),
    {
        match self {
            CertificateAuditStatus::Verified => "Verified",
            CertificateAuditStatus::Rejected => "Rejected",
        }
    }

    pub fn is_verified(self) -> (r: bool)
        ensures
            r == (self == CertificateAuditStatus::Verified),
    {
        self == CertificateAuditStatus::Verified
    }
}

/// The outcome of auditing a certificate against a theorem.
#[derive(Debug, PartialEq, Eq)]
pub struct CertificateAuditReport {
    pub status: CertificateAuditStatus,
    pub theory: String,
    pub theorem_name: String,
    pub proposition: String,
    pub fingerprint: String,
    pub axiom_tainted: bool,
    pub trace_len: usize,
    pub diagnostics: Vec<String>,
}

pub struct CertificateAuditReportV {
    pub status: CertificateAuditStatus,
    pub theory: Seq<char>,
    pub theorem_name: Seq<char>,
    pub proposition: Seq<char>,
    pub fingerprint: Seq<char>,
    pub axiom_tainted: bool,
    pub trace_len: usize,
    pub diagnostics: Seq<Seq<char>>,
}

impl View for CertificateAuditReport {
    type V = CertificateAuditReportV;

    open spec fn view(&self) -> CertificateAuditReportV {
        CertificateAuditReportV {
            status: self.status,
            theory: self.theory@,
            theorem_name: self.theorem_name@,
            proposition: self.proposition@,
            fingerprint: self.fingerprint@,
            axiom_tainted: self.axiom_tainted,
            trace_len: self.trace_len,
            diagnostics: self.diagnostics.deep_view(),
        }
    }
}

impl CertificateAuditReport {
    pub fn verified(&self) -> (r: bool)
        ensures
            r == (self.status == CertificateAuditStatus::Verified),
    {
        self.status.is_verified()
    }
}

/// An audit error.
pub open spec fn audit_error_model(line: usize, message: Seq<char>) -> DiagnosticV {
    error_model(DiagnosticKind::ProofCertificateAuditError, Some(line), message)
}

/// Why a certificate cannot be exported, if it cannot: a trace length that
/// disagrees with the trace, a fingerprint that disagrees with the contents,
/// or a blank identity field (checked in that order).
pub open spec fn export_error(c: ProofCertificateV, line: usize) -> Option<DiagnosticV> {
    if c.trace_len != c.trace.len() {
        Some(audit_error_model(line, "certificate trace length does not match embedded trace"@))
    } else if c.fingerprint != recomputed_fingerprint_text(c) {
        Some(audit_error_model(line, "certificate fingerprint does not match certificate contents"@))
    } else if all_ws(c.theory) || all_ws(c.theorem_name) || all_ws(c.proposition) {
        Some(audit_error_model(line, "certificate identity fields must be non-empty"@))
    } else {
        None
    }
}

fn validate_exportable_certificate(certificate: &ProofCertificate, line: usize) -> (r: Result<(), Diagnostic>)
    ensures
        export_error(certificate@, line) == (match r {
            Ok(()) => None::<DiagnosticV>,
            Err(d) => Some(d@),
        }),
{
    if certificate.trace_len != certificate.trace.len() {
        return Err(
            Diagnostic::error(
                DiagnosticKind::ProofCertificateAuditError,
                Some(line),
                "certificate trace length does not match embedded trace",
            ),
        );
    }
    if !certificate.fingerprint_is_stable() {
        return Err(
            Diagnostic::error(
                DiagnosticKind::ProofCertificateAuditError,
                Some(line),
                "certificate fingerprint does not match certificate contents",
            ),
        );
    }
    if is_blank(certificate.theory.as_str()) || is_blank(certificate.theorem_name.as_str()) || is_blank(
        certificate.proposition.as_str(),
    ) {
        return Err(
            Diagnostic::error(DiagnosticKind::ProofCertificateAuditError, Some(line), "certificate identity fields must be non-empty"),
        );
    }
    Ok(())
}

/// The lines of a certificate's trace, each numbered from 0.
pub open spec fn trace_lines(trace: Seq<Seq<char>>) -> Seq<char>
    decreases trace.len(),
{
    if trace.len() == 0 {
        Seq::empty()
    } else {
        trace_lines(trace.drop_last()) + "  "@ + dec_text((trace.len() - 1) as nat) + ": "@ + trace.last() + "\n"@
    }
}

/// The text export of a certificate.
pub open spec fn certificate_text(c: ProofCertificateV) -> Seq<char> {
    "DLM-PROOF-CERTIFICATE v1\n"@ + "theory: "@ + c.theory + "\n"@ + "theorem: "@ + c.theorem_name + "\n"@ + "proposition: "@
        + c.proposition + "\n"@ + "status: "@ + c.status.debug_text() + "\n"@ + "trust: "@ + c.trust.debug_text() + "\n"@
        + "provenance: "@ + c.provenance.debug_text() + "\n"@ + "fingerprint: "@ + c.fingerprint + "\n"@ + "axiom_tainted: "@
        + bool_text(certificate_axiom_tainted(c)) + "\n"@ + "trace_len: "@ + dec_text(c.trace_len as nat) + "\n"@ + "trace:\n"@
        + trace_lines(c.trace)
}

fn certificate_head(certificate: &ProofCertificate) -> (r: String)
    ensures
        r@ == "DLM-PROOF-CERTIFICATE v1\n"@ + "theory: "@ + certificate@.theory + "\n"@ + "theorem: "@ + certificate@.theorem_name
            + "\n"@ + "proposition: "@ + certificate@.proposition + "\n"@ + "status: "@ + certificate@.status.debug_text() + "\n"@
            + "trust: "@ + certificate@.trust.debug_text() + "\n"@ + "provenance: "@ + certificate@.provenance.debug_text() + "\n"@
            + "fingerprint: "@ + certificate@.fingerprint + "\n"@,
{
    let mut out = String::from_str("DLM-PROOF-CERTIFICATE v1\n");
    out.append("theory: ");
    out.append(certificate.theory.as_str());
    out.append("\n");
    out.append("theorem: ");
    out.append(certificate.theorem_name.as_str());
    out.append("\n");
    out.append("proposition: ");
    out.append(certificate.proposition.as_str());
    out.append("\n");
    out.append("status: ");
    out.append(certificate.status.debug_str());
    out.append("\n");
    out.append("trust: ");
    out.append(certificate.trust.debug_str());
    out.append("\n");
    out.append("provenance: ");
    out.append(certificate.provenance.debug_str());
    out.append("\n");
    out.append("fingerprint: ");
    out.append(certificate.fingerprint.as_str());
    out.append("\n");
    out
}

pub fn export_certificate_text_unchecked(certificate: &ProofCertificate) -> (r: String)
    ensures
        r@ == certificate_text(certificate@),
{
    let ghost c = certificate@;
    let mut out = certificate_head(certificate);
    out.append("axiom_tainted: ");
    out.append(bool_str(certificate.is_axiom_tainted()));
    out.append("\n");
    out.append("trace_len: ");
    out.append(usize_text(certificate.trace_len).as_str());
    out.append("\n");
    out.append("trace:\n");
    let ghost head = out@;
    let mut k: usize = 0;
    assert(trace_lines(c.trace.take(0)) =~= Seq::<char>::empty());
    while k < certificate.trace.len()
        invariant
            c == certificate@,
            k <= certificate.trace.len(),
            out@ =~= head + trace_lines(c.trace.take(k as int)),
        decreases certificate.trace.len() - k,
    {
        assert(c.trace.take(k + 1).drop_last() =~= c.trace.take(k as int));
        assert(c.trace[k as int] == certificate.trace@[k as int]@);
        out.append("  ");
        out.append(usize_text(k).as_str());
        out.append(": ");
        out.append(certificate.trace[k].as_str());
        out.append("\n");
        k = k + 1;
    }
    assert(c.trace.take(k as int) =~= c.trace);
    out
}

/// What `export_certificate_text` gives: the text, when the certificate can be exported.
pub open spec fn export_certificate_spec(c: ProofCertificateV, line: usize) -> Result<Seq<char>, DiagnosticV> {
    match export_error(c, line) {
        Some(d) => Err(d),
        None => Ok(certificate_text(c)),
    }
}

pub fn export_certificate_text(certificate: &ProofCertificate, line: usize) -> (r: Result<String, Diagnostic>)
    ensures
        export_certificate_spec(certificate@, line) == (match r {
            Ok(t) => Ok::<Seq<char>, DiagnosticV>(t@),
            Err(d) => Err::<Seq<char>, DiagnosticV>(d@),
        }),
{
    match validate_exportable_certificate(certificate, line) {
        Err(d) => Err(d),
        Ok(()) => Ok(export_certificate_text_unchecked(certificate)),
    }
}

/// The messages an audit reports: the export error, then the mismatch with
/// the theorem, then a note when the target is not a theorem at all.
pub open spec fn audit_messages(c: ProofCertificateV, theorem: PassportV, line: usize) -> Seq<Seq<char>> {
    (match export_error(c, line) {
        Some(d) => seq![d.message],
        None => Seq::empty(),
    }) + (match verify_certificate_spec(c, theorem, line) {
        Some(d) => seq![d.message],
        None => Seq::empty(),
    }) + (if theorem.ty is Theorem {
        Seq::empty()
    } else {
        seq!["audit target is not a theorem passport"@]
    })
}

/// An audit verifies a certificate exactly when it can be exported, it matches
/// the theorem, and the theorem is a theorem of the certificate's name and
/// proposition.
pub open spec fn audit_status(c: ProofCertificateV, theorem: PassportV, line: usize) -> CertificateAuditStatus {
    let identity_ok = match theorem.ty {
        TypeKindV::Theorem { name, proposition } => c.theorem_name == name && c.proposition == proposition,
        _ => false,
    };
    if export_error(c, line) is None && verify_certificate_spec(c, theorem, line) is None && identity_ok {
        CertificateAuditStatus::Verified
    } else {
        CertificateAuditStatus::Rejected
    }
}

/// What `audit_certificate_against_theorem` gives.
pub open spec fn audit_spec(c: ProofCertificateV, theorem: PassportV, line: usize) -> CertificateAuditReportV {
    CertificateAuditReportV {
        status: audit_status(c, theorem, line),
        theory: c.theory,
        theorem_name: c.theorem_name,
        proposition: c.proposition,
        fingerprint: c.fingerprint,
        axiom_tainted: certificate_axiom_tainted(c),
        trace_len: c.trace_len,
        diagnostics: audit_messages(c, theorem, line),
    }
}

pub fn audit_certificate_against_theorem(certificate: &ProofCertificate, theorem: &Passport, line: usize) -> (r:
    CertificateAuditReport)
    ensures
        r@ == audit_spec(certificate@, theorem@, line),
{
    let mut diagnostics: Vec<String> = Vec::new();
    let mut status = CertificateAuditStatus::Verified;
    match validate_exportable_certificate(certificate, line) {
        Err(d) => {
            status = CertificateAuditStatus::Rejected;
            diagnostics.push(d.message);
        },
        Ok(()) => {},
    }
    let ghost d1 = diagnostics.deep_view();
    match verify_certificate_against_theorem(certificate, theorem, line) {
        Err(d) => {
            status = CertificateAuditStatus::Rejected;
            diagnostics.push(d.message);
        },
        Ok(()) => {},
    }
    let ghost d2 = diagnostics.deep_view();
    match &theorem.ty {
        TypeKind::Theorem { name, proposition } => {
            if !str_eq(certificate.theorem_name.as_str(), name.as_str()) || !str_eq(
                certificate.proposition.as_str(),
                proposition.as_str(),
            ) {
                status = CertificateAuditStatus::Rejected;
            }
        },
        _ => {
            status = CertificateAuditStatus::Rejected;
            diagnostics.push(String::from_str("audit target is not a theorem passport"));
        },
    }
    assert(diagnostics.deep_view() =~= audit_messages(certificate@, theorem@, line));
    CertificateAuditReport {
        status,
        theory: certificate.theory.clone(),
        theorem_name: certificate.theorem_name.clone(),
        proposition: certificate.proposition.clone(),
        fingerprint: certificate.fingerprint.clone(),
        axiom_tainted: certificate.is_axiom_tainted(),
        trace_len: certificate.trace_len,
        diagnostics,
    }
}

/// The lines of an audit report's diagnostics, each numbered from 0.
pub open spec fn diagnostic_lines(ds: Seq<Seq<char>>) -> Seq<char>
    decreases ds.len(),
{
    if ds.len() == 0 {
        Seq::empty()
    } else {
        diagnostic_lines(ds.drop_last()) + "  "@ + dec_text((ds.len() - 1) as nat) + ": "@ + ds.last() + "\n"@
    }
}

/// The text of an audit report.
pub open spec fn audit_report_text(rv: CertificateAuditReportV) -> Seq<char> {
    "DLM-PROOF-CERTIFICATE-AUDIT v1\n"@ + "status: "@ + rv.status.debug_text() + "\n"@ + "theory: "@ + rv.theory + "\n"@
        + "theorem: "@ + rv.theorem_name + "\n"@ + "proposition: "@ + rv.proposition + "\n"@ + "fingerprint: "@ + rv.fingerprint
        + "\n"@ + "axiom_tainted: "@ + bool_text(rv.axiom_tainted) + "\n"@ + "trace_len: "@ + dec_text(rv.trace_len as nat) + "\n"@
        + if rv.diagnostics.len() == 0 {
        "diagnostics: []\n"@
    } else {
        "diagnostics:\n"@ + diagnostic_lines(rv.diagnostics)
    }
}

fn audit_head(report: &CertificateAuditReport) -> (r: String)
    ensures
        r@ == "DLM-PROOF-CERTIFICATE-AUDIT v1\n"@ + "status: "@ + report@.status.debug_text() + "\n"@ + "theory: "@ + report@.theory
            + "\n"@ + "theorem: "@ + report@.theorem_name + "\n"@ + "proposition: "@ + report@.proposition + "\n"@ + "fingerprint: "@
            + report@.fingerprint + "\n"@ + "axiom_tainted: "@ + bool_text(report@.axiom_tainted) + "\n"@ + "trace_len: "@ + dec_text(
            report@.trace_len as nat,
        ) + "\n"@,
{
    let mut out = String::from_str("DLM-PROOF-CERTIFICATE-AUDIT v1\n");
    out.append("status: ");
    out.append(report.status.debug_str());
    out.append("\n");
    out.append("theory: ");
    out.append(report.theory.as_str());
    out.append("\n");
    out.append("theorem: ");
    out.append(report.theorem_name.as_str());
    out.append("\n");
    out.append("proposition: ");
    out.append(report.proposition.as_str());
    out.append("\n");
    out.append("fingerprint: ");
    out.append(report.fingerprint.as_str());
    out.append("\n");
    out.append("axiom_tainted: ");
    out.append(bool_str(report.axiom_tainted));
    out.append("\n");
    out.append("trace_len: ");
    out.append(usize_text(report.trace_len).as_str());
    out.append("\n");
    out
}

pub fn render_certificate_audit_report(report: &CertificateAuditReport) -> (r: String)
    ensures
        r@ == audit_report_text(report@),
{
    let ghost rv = report@;
    let mut out = audit_head(report);
    if report.diagnostics.len() == 0 {
        out.append("diagnostics: []\n");
    } else {
        out.append("diagnostics:\n");
        let ghost head = out@;
        let mut k: usize = 0;
        assert(diagnostic_lines(rv.diagnostics.take(0)) =~= Seq::<char>::empty());
        while k < report.diagnostics.len()
            invariant
                rv == report@,
                k <= report.diagnostics.len(),
                out@ =~= head + diagnostic_lines(rv.diagnostics.take(k as int)),
            decreases report.diagnostics.len() - k,
        {
            assert(rv.diagnostics.take(k + 1).drop_last() =~= rv.diagnostics.take(k as int));
            assert(rv.diagnostics[k as int] == report.diagnostics@[k as int]@);
            out.append("  ");
            out.append(usize_text(k).as_str());
            out.append(": ");
            out.append(report.diagnostics[k].as_str());
            out.append("\n");
            k = k + 1;
        }
        assert(rv.diagnostics.take(k as int) =~= rv.diagnostics);
    }
    out
}

/// A verified audit means the certificate is exportable, carries the
/// theorem's own theory, name, proposition, trust and provenance, has a
/// consistent trace length and a fingerprint that matches its contents.
pub proof fn lemma_verified_audit_matches_theorem(c: ProofCertificateV, theorem: PassportV, line: usize)
    requires
        audit_spec(c, theorem, line).status == CertificateAuditStatus::Verified,
    ensures
        audit_spec(c, theorem, line).diagnostics.len() == 0,
        theorem.ty == (TypeKindV::Theorem { name: c.theorem_name, proposition: c.proposition }),
        c.theory == theorem.theory.home,
        c.trust == theorem.trust,
        c.provenance == theorem.provenance,
        c.trace_len == c.trace.len(),
        c.fingerprint == recomputed_fingerprint_text(c),
        !all_ws(c.theory) && !all_ws(c.theorem_name) && !all_ws(c.proposition),
{
}

} // verus!
