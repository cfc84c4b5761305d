use lib::certificate::{compute_certificate_fingerprint, verify_certificate_against_theorem, ProofCertificate, ProofCertificateStatus};
use lib::certificate_audit::{
    audit_certificate_against_theorem, export_certificate_text, export_certificate_text_unchecked, render_certificate_audit_report,
    CertificateAuditStatus,
};
use lib::policy::join_many_trust;
use lib::{DiagnosticKind, HistoryChain, Passport, Provenance, TrustLevel, TypeKind};

fn theorem() -> Passport {
    let mut p = Passport::literal_nat("T");
    p.ty = TypeKind::Theorem { name: "thm".to_string(), proposition: "p".to_string() };
    p
}

fn certificate() -> ProofCertificate {
    let trace = vec!["open:p".to_string()];
    let fingerprint = compute_certificate_fingerprint(
        "T",
        "thm",
        "p",
        ProofCertificateStatus::Checked,
        TrustLevel::Checked,
        Provenance::InternalLiteral,
        &trace,
    );
    ProofCertificate {
        theory: "T".to_string(),
        theorem_name: "thm".to_string(),
        proposition: "p".to_string(),
        status: ProofCertificateStatus::Checked,
        trust: TrustLevel::Checked,
        provenance: Provenance::InternalLiteral,
        fingerprint,
        trace_len: 1,
        trace,
    }
}

#[test]
fn certificate_fingerprint_is_known() {
    let c = certificate();
    assert_eq!(c.fingerprint, "dlm-cert-v1-856da8aed5ac79d6");
    assert!(c.fingerprint_is_stable());
    assert!(!c.is_axiom_tainted());
    assert!(verify_certificate_against_theorem(&c, &theorem(), 1).is_ok());
}

#[test]
fn certificate_mismatches_are_reported() {
    let mut c = certificate();
    c.theorem_name = "other".to_string();
    let err = verify_certificate_against_theorem(&c, &theorem(), 2).unwrap_err();
    assert_eq!(err.kind, DiagnosticKind::ProofCertificateError);
    assert_eq!(err.message, "certificate theorem identity does not match theorem passport");
    assert_eq!(err.help.as_deref(), Some("certificate=other::p, theorem=thm::p"));

    let err = verify_certificate_against_theorem(&certificate(), &Passport::literal_nat("T"), 2).unwrap_err();
    assert_eq!(err.message, "proof certificate can only be emitted for Theorem passports");
    assert_eq!(err.help.as_deref(), Some("received passport type: Nat"));

    let mut c = certificate();
    c.trace_len = 3;
    let err = verify_certificate_against_theorem(&c, &theorem(), 2).unwrap_err();
    assert_eq!(err.message, "certificate trace length does not match embedded trace");
}

#[test]
fn certificate_export_and_audit() {
    let c = certificate();
    let text = export_certificate_text(&c, 1).unwrap();
    assert_eq!(text, export_certificate_text_unchecked(&c));
    assert!(text.starts_with("DLM-PROOF-CERTIFICATE v1\ntheory: T\ntheorem: thm\nproposition: p\nstatus: Checked\n"));
    assert!(text.ends_with("axiom_tainted: false\ntrace_len: 1\ntrace:\n  0: open:p\n"));

    let report = audit_certificate_against_theorem(&c, &theorem(), 1);
    assert_eq!(report.status, CertificateAuditStatus::Verified);
    assert!(report.verified());
    assert!(render_certificate_audit_report(&report).ends_with("trace_len: 1\ndiagnostics: []\n"));

    let mut bad = certificate();
    bad.fingerprint = "x".to_string();
    let err = export_certificate_text(&bad, 4).unwrap_err();
    assert_eq!(err.kind, DiagnosticKind::ProofCertificateAuditError);
    let report = audit_certificate_against_theorem(&bad, &Passport::literal_nat("T"), 4);
    assert_eq!(report.status, CertificateAuditStatus::Rejected);
    assert_eq!(
        report.diagnostics,
        vec![
            "certificate fingerprint does not match certificate contents".to_string(),
            "proof certificate can only be emitted for Theorem passports".to_string(),
            "audit target is not a theorem passport".to_string(),
        ]
    );
    assert!(render_certificate_audit_report(&report).contains("diagnostics:\n  0: certificate fingerprint"));
}

#[test]
fn merged_memory_totals_add_up() {
    let a = HistoryChain::from_event("node_resource:memory_mib:512");
    let b = HistoryChain::from_event("node_resource:memory_mib:256");
    assert_eq!(HistoryChain::merge2(&a, &b, "merge").total_node_memory_mib(), Some(768));
    assert_eq!(HistoryChain::merge_many(&[&a, &a], "merge").total_node_memory_mib(), Some(1024));
}

#[test]
fn joined_trust_is_order_free_maximum() {
    assert_eq!(join_many_trust(&[]), TrustLevel::Checked);
    let v = [TrustLevel::Builtin, TrustLevel::Oracle, TrustLevel::Axiom];
    let w = [TrustLevel::Axiom, TrustLevel::Builtin, TrustLevel::Oracle];
    assert_eq!(join_many_trust(&v), TrustLevel::Oracle);
    assert_eq!(join_many_trust(&w), join_many_trust(&v));
}
