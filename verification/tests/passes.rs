use lib::passes::{PassId, PassPipelineReport, PassReport, PassStatus};
use lib::{Diagnostic, DiagnosticKind};

#[test]
fn pass_ids_have_stable_names() {
    assert_eq!(PassId::RawAstAccepted.as_str(), "raw_ast_accepted");
    assert_eq!(PassId::NameResolution.as_str(), "name_resolution");
    assert_eq!(PassId::LegacyChecker.as_str(), "legacy_checker");
}

#[test]
fn pipeline_collects_passes_in_order() {
    let mut report = PassPipelineReport::new();
    assert!(report.is_empty());
    assert!(report.ok());
    report.push(PassReport::passed(PassId::RawAstAccepted, "parsed"));
    report.push(PassReport::skipped(PassId::LegacyChecker, "not run"));
    assert_eq!(report.len(), 2);
    assert!(!report.ok());
    assert_eq!(report.find(PassId::LegacyChecker).unwrap().status, PassStatus::Skipped);
    assert!(report.find(PassId::NameResolution).is_none());
    assert!(report.diagnostics().is_empty());

    let d = Diagnostic::error(DiagnosticKind::ParseError, Some(3), "bad");
    report.push(PassReport::failed(PassId::NameResolution, vec![d], "rejected"));
    let found = report.find(PassId::NameResolution).unwrap();
    assert!(!found.ok());
    assert_eq!(found.note.as_deref(), Some("rejected"));
    let diags = report.diagnostics();
    assert_eq!(diags.len(), 1);
    assert_eq!(diags[0].message, "bad");

    let mut clean = PassPipelineReport::default();
    clean.push(PassReport::passed(PassId::RawAstAccepted, "parsed"));
    assert!(clean.ok());
}
