//! Proof certificates: the identity, taint and trace of a closed theorem,
//! sealed by a fingerprint that can be recomputed and checked against the
//! theorem's passport.

use vstd::prelude::*;
use vstd::string::*;

use crate::diagnostics::{error_model, Diagnostic, DiagnosticKind, DiagnosticV};
use crate::fingerprint::{fingerprint_text, stable_fingerprint, strings_view};
use crate::passport::record::copy_strings;
use crate::passport::type_kind::type_text;
use crate::passport::{Passport, PassportV, Provenance, TrustLevel, TypeKind, TypeKindV};
use crate::text::str_eq;

verus! {

/// How a certified theorem was closed.
#[derive(Debug, Clone, Copy, PartialEq, Eq, Structural)]
pub enum ProofCertificateStatus {
    Checked,
    AxiomAdmitted,
}

impl ProofCertificateStatus {
    /// The `Debug` name of the variant.
    pub open spec fn debug_text(self) -> Seq<char> {
        match self {
            ProofCertificateStatus::Checked => "Checked"@,
            ProofCertificateStatus::AxiomAdmitted => "AxiomAdmitted"@,
        }
    }

    pub fn debug_str(self) -> (r: &'static str)
        ensures
            r@ == self.debug_text(),
    {
        match self {
            ProofCertificateStatus::Checked => "Checked",
            ProofCertificateStatus::AxiomAdmitted => "AxiomAdmitted",
        }
    }

    pub fn is_axiom_tainted(self) -> (r: bool)
        ensures
            r == (self == ProofCertificateStatus::AxiomAdmitted),
    {
        self == ProofCertificateStatus::AxiomAdmitted
    }
}

/// A proof certificate.
#[derive(Debug, PartialEq, Eq)]
pub struct ProofCertificate {
    pub theory: String,
    pub theorem_name: String,
    pub proposition: String,
    pub status: ProofCertificateStatus,
    pub trust: TrustLevel,
    pub provenance: Provenance,
    pub fingerprint: String,
    pub trace_len: usize,
    pub trace: Vec<String>,
}

pub struct ProofCertificateV {
    pub theory: Seq<char>,
    pub theorem_name: Seq<char>,
    pub proposition: Seq<char>,
    pub status: ProofCertificateStatus,
    pub trust: TrustLevel,
    pub provenance: Provenance,
    pub fingerprint: Seq<char>,
    pub trace_len: usize,
    pub trace: Seq<Seq<char>>,
}

impl View for ProofCertificate {
    type V = ProofCertificateV;

    open spec fn view(&self) -> ProofCertificateV {
        ProofCertificateV {
            theory: self.theory@,
            theorem_name: self.theorem_name@,
            proposition: self.proposition@,
            status: self.status,
            trust: self.trust,
            provenance: self.provenance,
            fingerprint: self.fingerprint@,
            trace_len: self.trace_len,
            trace: self.trace.deep_view(),
        }
    }
}

impl Clone for ProofCertificate {
    fn clone(&self) -> (r: Self)
        ensures
            r@ == self@,
    {
        ProofCertificate {
            theory: self.theory.clone(),
            theorem_name: self.theorem_name.clone(),
            proposition: self.proposition.clone(),
            status: self.status,
            trust: self.trust,
            provenance: self.provenance,
            fingerprint: self.fingerprint.clone(),
            trace_len: self.trace_len,
            trace: copy_strings(&self.trace),
        }
    }
}

/// A certificate is axiom-tainted when it was admitted by axiom or its trust
/// is Axiom or beyond.
pub open spec fn certificate_axiom_tainted(c: ProofCertificateV) -> bool {
    c.status == ProofCertificateStatus::AxiomAdmitted || c.trust.rank() >= TrustLevel::Axiom.rank()
}

/// The fingerprint of a certificate's contents: FNV-1a over the tag, the
/// identity, the status, trust and provenance names, and the trace.
pub open spec fn certificate_fingerprint_text(
    theory: Seq<char>,
    theorem_name: Seq<char>,
    proposition: Seq<char>,
    status: ProofCertificateStatus,
    trust: TrustLevel,
    provenance: Provenance,
    trace: Seq<Seq<char>>,
) -> Seq<char> {
    fingerprint_text(
        "dlm-cert-v1-"@,
        seq!["DLM-CERT-v1"@, theory, theorem_name, proposition, status.debug_text(), trust.debug_text(), provenance.debug_text()]
            + trace,
    )
}

/// The fingerprint recomputed from a certificate's own contents.
pub open spec fn recomputed_fingerprint_text(c: ProofCertificateV) -> Seq<char> {
    certificate_fingerprint_text(c.theory, c.theorem_name, c.proposition, c.status, c.trust, c.provenance, c.trace)
}

pub fn compute_certificate_fingerprint(
    theory: &str,
    theorem_name: &str,
    proposition: &str,
    status: ProofCertificateStatus,
    trust: TrustLevel,
    provenance: Provenance,
    trace: &Vec<String>,
) -> (r: String)
    ensures
        r@ == certificate_fingerprint_text(theory@, theorem_name@, proposition@, status, trust, provenance, trace.deep_view()),
{
    let mut parts: Vec<String> = Vec::new();
    parts.push(String::from_str("DLM-CERT-v1"));
    parts.push(String::from_str(theory));
    parts.push(String::from_str(theorem_name));
    parts.push(String::from_str(proposition));
    parts.push(String::from_str(status.debug_str()));
    parts.push(String::from_str(trust.debug_str()));
    parts.push(String::from_str(provenance.debug_str()));
    let ghost head = strings_view(parts@);
    let ghost tv = trace.deep_view();
    let mut k: usize = 0;
    while k < trace.len()
        invariant
            tv == trace.deep_view(),
            k <= trace.len(),
            strings_view(parts@) =~= head + tv.take(k as int),
        decreases trace.len() - k,
    {
        let ghost before = strings_view(parts@);
        parts.push(trace[k].clone());
        assert(strings_view(parts@) =~= before.push(tv[k as int]));
        assert(tv.take(k + 1) =~= tv.take(k as int).push(tv[k as int]));
        k = k + 1;
    }
    assert(tv.take(k as int) =~= tv);
    assert(strings_view(parts@) =~= seq![
        "DLM-CERT-v1"@,
        theory@,
        theorem_name@,
        proposition@,
        status.debug_text(),
        trust.debug_text(),
        provenance.debug_text(),
    ] + tv);
    stable_fingerprint("dlm-cert-v1-", &parts)
}

impl ProofCertificate {
    pub fn is_axiom_tainted(&self) -> (r: bool)
        ensures
            r == certificate_axiom_tainted(self@),
    {
        self.status.is_axiom_tainted() || self.trust.rank() >= TrustLevel::Axiom.rank()
    }

    pub fn recomputed_fingerprint(&self) -> (r: String)
        ensures
            r@ == recomputed_fingerprint_text(self@),
    {
        compute_certificate_fingerprint(
            self.theory.as_str(),
            self.theorem_name.as_str(),
            self.proposition.as_str(),
            self.status,
            self.trust,
            self.provenance,
            &self.trace,
        )
    }

    pub fn fingerprint_is_stable(&self) -> (r: bool)
        ensures
            r == (self@.fingerprint == recomputed_fingerprint_text(self@)),
    {
        let f = self.recomputed_fingerprint();
        str_eq(self.fingerprint.as_str(), f.as_str())
    }
}

/// The name and proposition of a theorem passport, or the error for any other.
pub open spec fn theorem_parts_spec(theorem: PassportV, line: usize) -> Result<(Seq<char>, Seq<char>), DiagnosticV> {
    match theorem.ty {
        TypeKindV::Theorem { name, proposition } => Ok((name, proposition)),
        _ => Err(DiagnosticV {
            help: Some("received passport type: "@ + type_text(theorem.ty)),
            ..error_model(
                DiagnosticKind::ProofCertificateError,
                Some(line),
                "proof certificate can only be emitted for Theorem passports"@,
            )
        }),
    }
}

fn theorem_parts(theorem: &Passport, line: usize) -> (r: Result<(String, String), Diagnostic>)
    ensures
        theorem_parts_spec(theorem@, line) == (match r {
            Ok(p) => Ok::<(Seq<char>, Seq<char>), DiagnosticV>((p.0@, p.1@)),
            Err(d) => Err::<(Seq<char>, Seq<char>), DiagnosticV>(d@),
        }),
{
    match &theorem.ty {
        TypeKind::Theorem { name, proposition } => Ok((name.clone(), proposition.clone())),
        _ => {
            let mut help = String::from_str("received passport type: ");
            help.append(theorem.ty.to_text().as_str());
            Err(
                Diagnostic::error(
                    DiagnosticKind::ProofCertificateError,
                    Some(line),
                    "proof certificate can only be emitted for Theorem passports",
                ).with_help(help.as_str()),
            )
        },
    }
}

/// A certificate error without help text.
pub open spec fn certificate_error_model(line: usize, message: Seq<char>) -> DiagnosticV {
    error_model(DiagnosticKind::ProofCertificateError, Some(line), message)
}

/// What `verify_certificate_against_theorem` reports: the first mismatch
/// between the certificate and the theorem passport, checked in the order
/// theorem kind, theory, identity, taint, trace length, fingerprint.
pub open spec fn verify_certificate_spec(c: ProofCertificateV, theorem: PassportV, line: usize) -> Option<DiagnosticV> {
    match theorem_parts_spec(theorem, line) {
        Err(d) => Some(d),
        Ok((name, proposition)) => if c.theory != theorem.theory.home {
            Some(certificate_error_model(
                line,
                "certificate theory `"@ + c.theory + "` does not match theorem theory `"@ + theorem.theory.home + "`"@,
            ))
        } else if c.theorem_name != name || c.proposition != proposition {
            Some(DiagnosticV {
                help: Some(
                    "certificate="@ + c.theorem_name + "::"@ + c.proposition + ", theorem="@ + name + "::"@ + proposition,
                ),
                ..certificate_error_model(line, "certificate theorem identity does not match theorem passport"@)
            })
        } else if c.trust != theorem.trust || c.provenance != theorem.provenance {
            Some(certificate_error_model(line, "certificate trust/provenance does not match theorem passport"@))
        } else if c.trace_len != c.trace.len() {
            Some(certificate_error_model(line, "certificate trace length does not match embedded trace"@))
        } else if c.fingerprint != recomputed_fingerprint_text(c) {
            Some(certificate_error_model(line, "certificate fingerprint does not match certificate contents"@))
        } else {
            None
        },
    }
}

pub fn verify_certificate_against_theorem(certificate: &ProofCertificate, theorem: &Passport, line: usize) -> (r: Result<
    (),
    Diagnostic,
>)
    ensures
        verify_certificate_spec(certificate@, theorem@, line) == (match r {
            Ok(()) => None::<DiagnosticV>,
            Err(d) => Some(d@),
        }),
{
    let (name, proposition) = match theorem_parts(theorem, line) {
        Ok(p) => p,
        Err(d) => return Err(d),
    };
    if !str_eq(certificate.theory.as_str(), theorem.theory.home.as_str()) {
        let mut msg = String::from_str("certificate theory `");
        msg.append(certificate.theory.as_str());
        msg.append("` does not match theorem theory `");
        msg.append(theorem.theory.home.as_str());
        msg.append("`");
        return Err(Diagnostic::error(DiagnosticKind::ProofCertificateError, Some(line), msg.as_str()));
    }
    if !str_eq(certificate.theorem_name.as_str(), name.as_str()) || !str_eq(certificate.proposition.as_str(), proposition.as_str()) {
        let mut help = String::from_str("certificate=");
        help.append(certificate.theorem_name.as_str());
        help.append("::");
        help.append(certificate.proposition.as_str());
        help.append(", theorem=");
        help.append(name.as_str());
        help.append("::");
        help.append(proposition.as_str());
        return Err(
            Diagnostic::error(
                DiagnosticKind::ProofCertificateError,
                Some(line),
                "certificate theorem identity does not match theorem passport",
            ).with_help(help.as_str()),
        );
    }
    if certificate.trust != theorem.trust || certificate.provenance != theorem.provenance {
        return Err(
            Diagnostic::error(
                DiagnosticKind::ProofCertificateError,
                Some(line),
                "certificate trust/provenance does not match theorem passport",
            ),
        );
    }
    if certificate.trace_len != certificate.trace.len() {
        return Err(
            Diagnostic::error(DiagnosticKind::ProofCertificateError, Some(line), "certificate trace length does not match embedded trace"),
        );
    }
    if !certificate.fingerprint_is_stable() {
        return Err(
            Diagnostic::error(
                DiagnosticKind::ProofCertificateError,
                Some(line),
                "certificate fingerprint does not match certificate contents",
            ),
        );
    }
    Ok(())
}

} // verus!
