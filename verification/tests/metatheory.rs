use lib::axiom_registry::{
    audit_metatheory_dependencies, axiom_decl, axiom_registry, axiom_registry_passport, dependency_entry_from_axiom,
    dependency_entry_from_passport, export_axiom_registry_text, metatheory_dependency_audit_passport, name_lt,
    render_metatheory_dependency_audit_report, require_declared_axiom, require_verified_metatheory_dependency_audit, AxiomKind,
    DependencyAuditStatus, DependencyUseKind,
};
use lib::conservative_extension::{
    audit_conservative_extension, conservative_extension_audit_passport, export_conservative_extension_audit_report,
    preserved_theorem, require_verified_conservative_extension_audit, ConservativeExtensionStatus,
};
use lib::fingerprint::stable_fingerprint;
use lib::metatheory_closure::{
    closed_closure_obligation, closure_obligation, export_metatheory_closure_report, metatheory_closure_report,
    metatheory_closure_report_passport, open_closure_obligation, render_metatheory_closure_report, require_closed_metatheory_closure,
    ClosureObligationKind, MetatheoryClosureStatus,
};
use lib::{DiagnosticKind, HistoryChain, Passport, Provenance, TrustLevel, TypeKind, ValidationState};

fn theorem(theory: &str, name: &str, proposition: &str) -> Passport {
    let mut p = Passport::literal_nat(theory);
    p.ty = TypeKind::Theorem { name: name.to_string(), proposition: proposition.to_string() };
    p
}

#[test]
fn fingerprint_is_fnv1a_over_parts() {
    let parts = vec!["a".to_string(), "bc".to_string()];
    assert_eq!(stable_fingerprint("dlm-x-", &parts), "dlm-x-a0a3542c19b900ab");
}

#[test]
fn axiom_declaration_fingerprint_and_taint() {
    let a = axiom_decl("PA", "ax1", "forall x. x = x", AxiomKind::Logical, "reflexivity", 1).unwrap();
    assert_eq!(a.trust, TrustLevel::Axiom);
    assert_eq!(a.provenance, Provenance::BuiltinKnown);
    assert_eq!(a.fingerprint, "dlm-meta-dep-v1-48a9bf3573207368");
    let u = axiom_decl("PA", "ffi", "p", AxiomKind::UnsafeExternal, "foreign", 1).unwrap();
    assert_eq!(u.trust, TrustLevel::Unsafe);
    assert_eq!(u.provenance, Provenance::UnsafeExternal);
}

#[test]
fn axiom_declaration_rejects_blank_fields() {
    let err = axiom_decl("PA", "  ", "p", AxiomKind::Logical, "r", 7).unwrap_err();
    assert_eq!(err.kind, DiagnosticKind::MetatheoryDependencyError);
    assert_eq!(err.message, "axiom name must not be empty");
    assert_eq!(err.line, Some(7));
    let err = axiom_decl("PA", "a", "p", AxiomKind::Logical, "", 7).unwrap_err();
    assert_eq!(err.message, "axiom reason must not be empty");
}

#[test]
fn registry_sorts_axioms_by_name() {
    let b = axiom_decl("PA", "beta", "q", AxiomKind::Mathematical, "r", 1).unwrap();
    let a = axiom_decl("PA", "alpha", "p", AxiomKind::Logical, "r", 1).unwrap();
    let c = axiom_decl("PA", "Zeta", "z", AxiomKind::Domain, "r", 1).unwrap();
    let reg = axiom_registry("PA", vec![b, a, c], 1).unwrap();
    let names: Vec<&str> = reg.axioms.iter().map(|x| x.name.as_str()).collect();
    assert_eq!(names, vec!["Zeta", "alpha", "beta"]);
    let text = export_axiom_registry_text(&reg);
    assert!(text.starts_with("DLM Axiom Registry v1\ntheory: PA\n"));
    assert!(text.contains("axioms: 3\n- Zeta [domain] trust=Axiom provenance=BuiltinKnown proposition=z"));
}

#[test]
fn registry_rejects_foreign_and_duplicate_axioms() {
    let a = axiom_decl("ZF", "alpha", "p", AxiomKind::Logical, "r", 1).unwrap();
    let err = axiom_registry("PA", vec![a], 3).unwrap_err();
    assert_eq!(err.message, "axiom `alpha` belongs to theory `ZF`, not registry theory `PA`");
    let a1 = axiom_decl("PA", "alpha", "p", AxiomKind::Logical, "r", 1).unwrap();
    let a2 = axiom_decl("PA", "alpha", "q", AxiomKind::Logical, "r", 1).unwrap();
    let err = axiom_registry("PA", vec![a1, a2], 3).unwrap_err();
    assert_eq!(err.message, "duplicate axiom `alpha` in registry `PA`");
}

#[test]
fn declared_axiom_lookup() {
    let a = axiom_decl("PA", "alpha", "p", AxiomKind::Logical, "r", 1).unwrap();
    let reg = axiom_registry("PA", vec![a], 1).unwrap();
    assert_eq!(require_declared_axiom(&reg, "alpha", 2).unwrap().proposition, "p");
    let err = require_declared_axiom(&reg, "gamma", 2).unwrap_err();
    assert_eq!(err.message, "axiom `gamma` is not declared in registry `PA`");
}

#[test]
fn text_order_is_byte_order() {
    assert!(name_lt("Zeta", "alpha"));
    assert!(name_lt("ab", "abc"));
    assert!(!name_lt("abc", "abc"));
    assert!(!name_lt("b", "a"));
}

#[test]
fn audit_of_registered_axiom_is_verified() {
    let a = axiom_decl("PA", "alpha", "p", AxiomKind::Logical, "r", 1).unwrap();
    let entry = dependency_entry_from_axiom(&a);
    assert_eq!(entry.ty, "Axiom<PA:p>");
    assert_eq!(entry.history, vec!["axiom:declared:PA:alpha".to_string()]);
    let reg = axiom_registry("PA", vec![a], 1).unwrap();
    let report = audit_metatheory_dependencies("lemma1", vec![entry], Some(&reg), 4);
    assert_eq!(report.status, DependencyAuditStatus::Verified);
    assert!(report.diagnostics.is_empty());
    assert!(report.has_axiom_taint);
    assert!(!report.has_unsafe_taint);
    assert_eq!(report.max_trust, TrustLevel::Axiom);
    assert_eq!(report.registry_fingerprint, Some(reg.fingerprint.clone()));
    assert!(require_verified_metatheory_dependency_audit(&report, 4).is_ok());
    let passport = metatheory_dependency_audit_passport("Meta", &report);
    assert_eq!(passport.validation, ValidationState::StaticChecked);
    assert_eq!(passport.provenance, Provenance::BuiltinKnown);
}

#[test]
fn audit_rejects_unregistered_axiom_and_duplicates() {
    let a = axiom_decl("PA", "alpha", "p", AxiomKind::Logical, "r", 1).unwrap();
    let entry = dependency_entry_from_axiom(&a);
    let again = dependency_entry_from_axiom(&a);
    let report = audit_metatheory_dependencies("lemma1", vec![entry, again], None, 4);
    assert_eq!(report.status, DependencyAuditStatus::Rejected);
    let messages: Vec<&str> = report.diagnostics.iter().map(|d| d.message.as_str()).collect();
    let dup = format!("duplicate dependency fingerprint `{}`", a.fingerprint);
    assert_eq!(messages, vec!["axiom dependency `alpha` has no registry", dup.as_str(), "axiom dependency `alpha` has no registry"]);
    let err = require_verified_metatheory_dependency_audit(&report, 9).unwrap_err();
    assert_eq!(err.message, "metatheory dependency audit `lemma1` is rejected");
    let text = render_metatheory_dependency_audit_report(&report);
    assert!(text.contains("diagnostics:\n- MetatheoryDependencyError: axiom dependency `alpha` has no registry\n"));
}

#[test]
fn audit_of_nothing_is_rejected() {
    let report = audit_metatheory_dependencies(" ", vec![], None, 2);
    assert_eq!(report.status, DependencyAuditStatus::Rejected);
    assert_eq!(report.diagnostics.len(), 2);
    assert_eq!(report.diagnostics[0].message, "dependency audit subject must not be empty");
    assert_eq!(report.diagnostics[1].message, "dependency audit ` ` has no entries");
}

#[test]
fn dependency_entry_from_passport_keeps_history() {
    let p = Passport::literal_nat("PA");
    let e = dependency_entry_from_passport("n", DependencyUseKind::Theorem, &p, 1).unwrap();
    assert_eq!(e.history, p.history.events().clone());
    assert_eq!(e.trust, p.trust);
    assert!(dependency_entry_from_passport("", DependencyUseKind::Theorem, &p, 1).is_err());
}

#[test]
fn registry_passport_joins_axiom_trust() {
    let a = axiom_decl("PA", "alpha", "p", AxiomKind::Logical, "r", 1).unwrap();
    let u = axiom_decl("PA", "ffi", "q", AxiomKind::UnsafeExternal, "r", 1).unwrap();
    let reg = axiom_registry("PA", vec![a, u], 1).unwrap();
    let p = axiom_registry_passport("Meta", &reg);
    assert_eq!(p.trust, TrustLevel::Unsafe);
    assert_eq!(p.provenance, Provenance::UnsafeExternal);
    let expected = format!("metatheory:axiom_registry:PA:axioms=2:fingerprint={}", reg.fingerprint);
    assert_eq!(p.history.events(), &vec![expected]);
}

fn verified_audit(subject: &str) -> lib::axiom_registry::MetatheoryDependencyAuditReport {
    let p = Passport::literal_nat("PA");
    let e = dependency_entry_from_passport(subject, DependencyUseKind::Theorem, &p, 1).unwrap();
    audit_metatheory_dependencies(subject, vec![e], None, 1)
}

#[test]
fn closure_obligation_keeps_only_real_evidence() {
    let open = closure_obligation("o1", ClosureObligationKind::SoundnessBoundary, "sound", Some("   "), 1).unwrap();
    assert_eq!(open.closed_by, None);
    let closed = closed_closure_obligation("o2", ClosureObligationKind::ModuleBoundary, "mods", "audit-7", 1).unwrap();
    assert_eq!(closed.closed_by, Some("audit-7".to_string()));
    let err = open_closure_obligation("", ClosureObligationKind::Unknown, "x", 5).unwrap_err();
    assert_eq!(err.kind, DiagnosticKind::MetatheoryClosureError);
    assert_eq!(err.message, "closure obligation label must not be empty");
}

#[test]
fn closure_status_closed_open_rejected() {
    let primary = verified_audit("base");
    let support = verified_audit("support");
    let closed = closed_closure_obligation("o", ClosureObligationKind::DependencyAudit, "d", "ev", 1).unwrap();
    let report = metatheory_closure_report("T", &primary, &[support], vec![closed], 1);
    assert_eq!(report.status, MetatheoryClosureStatus::Closed);
    assert!(require_closed_metatheory_closure(&report, 1).is_ok());

    let open = open_closure_obligation("o", ClosureObligationKind::DependencyAudit, "d", 1).unwrap();
    let report = metatheory_closure_report("T", &primary, &[], vec![open], 1);
    assert_eq!(report.status, MetatheoryClosureStatus::Open);
    let err = require_closed_metatheory_closure(&report, 3).unwrap_err();
    assert_eq!(err.message, "metatheory closure `T` is open");

    let again = verified_audit("base");
    let report = metatheory_closure_report("T", &primary, &[again], vec![], 1);
    assert_eq!(report.status, MetatheoryClosureStatus::Rejected);
    assert_eq!(report.diagnostics[0].message, format!("duplicate audit fingerprint `{}`", primary.audit_fingerprint));
}

#[test]
fn closure_over_rejected_audit_is_rejected() {
    let rejected = audit_metatheory_dependencies("bad", vec![], None, 1);
    let report = metatheory_closure_report("T", &rejected, &[], vec![], 2);
    assert_eq!(report.status, MetatheoryClosureStatus::Rejected);
    assert_eq!(report.diagnostics[0].message, "primary dependency audit `bad` is rejected");
    let passport = metatheory_closure_report_passport("Meta", &report);
    assert_eq!(passport.validation, ValidationState::Raw);
    let text = render_metatheory_closure_report(&report);
    assert_eq!(text, export_metatheory_closure_report(&report));
    assert!(text.ends_with(&format!("closure_fingerprint: {}\n", report.closure_fingerprint)));
}

#[test]
fn closure_passport_history_lists_evidence() {
    let primary = verified_audit("base");
    let o = closed_closure_obligation("o", ClosureObligationKind::AxiomRegistry, "d", "ev", 1).unwrap();
    let report = metatheory_closure_report("T", &primary, &[], vec![o], 1);
    let p = metatheory_closure_report_passport("Meta", &report);
    let events = p.history.events();
    assert_eq!(events.len(), 3);
    assert_eq!(events[0], format!("metatheory:primary_dependency_audit:fingerprint={}", primary.audit_fingerprint));
    assert!(events[1].starts_with("metatheory:closure_obligation:axiom_registry:o:"));
    assert_eq!(p.validation, ValidationState::StaticChecked);
}

#[test]
fn preserved_theorem_requires_identical_statement() {
    let base = theorem("PA", "comm", "a+b=b+a");
    let ext = theorem("PA2", "comm", "a+b=b+a");
    let t = preserved_theorem("comm", &base, &ext, 1).unwrap();
    assert_eq!(t.proposition, "a+b=b+a");
    let changed = theorem("PA2", "comm", "a+b=b");
    let err = preserved_theorem("comm", &base, &changed, 1).unwrap_err();
    assert_eq!(err.message, "theorem `comm` proposition changed from `a+b=b+a` to `a+b=b`");
    let err = preserved_theorem("assoc", &base, &ext, 1).unwrap_err();
    assert_eq!(err.message, "preserved theorem request `assoc` does not match base theorem `comm`");
    let not_theorem = Passport::literal_nat("PA");
    let err = preserved_theorem("comm", &not_theorem, &ext, 1).unwrap_err();
    assert!(err.message.starts_with("base theorem must be Theorem, got "));
}

#[test]
fn conservative_extension_verified_and_rejected() {
    let base_audit = verified_audit("base");
    let ext_audit = verified_audit("ext");
    let base = metatheory_closure_report("PA", &base_audit, &[], vec![], 1);
    let ext = metatheory_closure_report("PA2", &ext_audit, &[], vec![], 1);
    let t = preserved_theorem("comm", &theorem("PA", "comm", "x"), &theorem("PA2", "comm", "x"), 1).unwrap();
    let report = audit_conservative_extension(&base, &ext, vec![t], vec![], 1);
    assert_eq!(report.status, ConservativeExtensionStatus::Verified);
    assert!(require_verified_conservative_extension_audit(&report, 1).is_ok());
    let passport = conservative_extension_audit_passport("Meta", &report);
    assert_eq!(passport.validation, ValidationState::StaticChecked);
    assert_eq!(passport.history.events().len(), 4);

    let vacuous = audit_conservative_extension(&base, &ext, vec![], vec![], 6);
    assert_eq!(vacuous.status, ConservativeExtensionStatus::Rejected);
    assert_eq!(vacuous.diagnostics[0].message, "conservative extension audit has no preserved theorem evidence");
    let err = require_verified_conservative_extension_audit(&vacuous, 6).unwrap_err();
    assert_eq!(err.message, "conservative extension audit `PA -> PA2` is rejected");
    let text = export_conservative_extension_audit_report(&vacuous);
    assert!(text.starts_with("DLM Conservative Extension Audit v1\nbase: PA\nextension: PA2\nstatus: rejected\n"));
}

#[test]
fn history_chain_merge_keeps_order() {
    let a = HistoryChain::from_event("a");
    let b = HistoryChain::from_event("b");
    let m = HistoryChain::merge2(&a, &b, "c");
    assert_eq!(m.events(), &vec!["a".to_string(), "b".to_string(), "c".to_string()]);
}
