use lib::bridge::BridgeProfile;
use lib::bridge_assumption::{
    boundary_assumption_from_bridge_profile, boundary_assumption_from_passport, export_soundness_boundary_ledger,
    render_soundness_boundary_ledger, require_verified_soundness_boundary_ledger, soundness_boundary_ledger,
    soundness_boundary_ledger_passport, BoundaryAssumptionKind, GlobalInventorySummary, InventoryStatus, SoundnessBoundaryStatus,
};
use lib::metatheory_foundation::{
    export_metatheory_foundation_exit_report, metatheory_exit_criterion, metatheory_exit_criterion_from_passport,
    metatheory_foundation_exit_passport, metatheory_foundation_exit_report, render_metatheory_foundation_exit_report,
    require_metatheory_foundation_ready, required_metatheory_exit_criteria, MetatheoryExitCriterion, MetatheoryExitCriterionKind,
    MetatheoryExitCriterionStatus, MetatheoryFoundationStatus,
};
use lib::{BridgeDecl, BridgeKind, DiagnosticKind, Passport, Provenance, TrustLevel, ValidationState};

fn criterion(id: &str, kind: MetatheoryExitCriterionKind, status: MetatheoryExitCriterionStatus) -> MetatheoryExitCriterion {
    metatheory_exit_criterion(
        id,
        kind,
        "subject",
        status,
        "evidence",
        TrustLevel::Checked,
        Provenance::InternalDerived,
        ValidationState::StaticChecked,
        vec![],
        1,
    )
    .unwrap()
}

fn all_required() -> Vec<MetatheoryExitCriterion> {
    required_metatheory_exit_criteria()
        .iter()
        .enumerate()
        .map(|(i, kind)| criterion(&format!("c{i}"), *kind, MetatheoryExitCriterionStatus::Satisfied))
        .collect()
}

#[test]
fn exit_criterion_fields_and_fingerprint() {
    let c = metatheory_exit_criterion(
        "c1",
        MetatheoryExitCriterionKind::MetaLevelStratification,
        "s",
        MetatheoryExitCriterionStatus::Satisfied,
        "e",
        TrustLevel::Checked,
        Provenance::InternalDerived,
        ValidationState::StaticChecked,
        vec!["h1".to_string()],
        1,
    )
    .unwrap();
    assert_eq!(c.fingerprint, "dlm-metatheory-foundation-exit-v1-44c754259ed06293");
    assert!(!c.has_axiom_taint && !c.has_oracle_taint && !c.has_unsafe_taint);

    let c = metatheory_exit_criterion(
        "c2",
        MetatheoryExitCriterionKind::AxiomAccounting,
        "s",
        MetatheoryExitCriterionStatus::Open,
        "e",
        TrustLevel::Axiom,
        Provenance::OracleInput,
        ValidationState::StaticChecked,
        vec![],
        1,
    )
    .unwrap();
    assert!(c.has_axiom_taint && c.has_oracle_taint && !c.has_unsafe_taint);
}

#[test]
fn exit_criterion_rejects_blank_fields() {
    let make = |id: &str, subject: &str, evidence: &str| {
        metatheory_exit_criterion(
            id,
            MetatheoryExitCriterionKind::ModuleBoundary,
            subject,
            MetatheoryExitCriterionStatus::Satisfied,
            evidence,
            TrustLevel::Checked,
            Provenance::InternalDerived,
            ValidationState::StaticChecked,
            vec![],
            6,
        )
        .unwrap_err()
    };
    let err = make(" ", "s", "e");
    assert_eq!(err.kind, DiagnosticKind::MetatheoryFoundationError);
    assert_eq!(err.message, "metatheory exit criterion id must not be empty");
    assert_eq!(make("i", "", "e").message, "metatheory exit criterion subject must not be empty");
    assert_eq!(make("i", "s", "\t").message, "metatheory exit criterion evidence must not be empty");
}

#[test]
fn exit_criterion_from_passports() {
    let meta = Passport::meta_level("T", 2, None);
    let c = metatheory_exit_criterion_from_passport("m", MetatheoryExitCriterionKind::MetaLevelStratification, &meta, 1).unwrap();
    assert_eq!(c.subject, "M2");
    assert_eq!(c.status, MetatheoryExitCriterionStatus::Satisfied);
    assert_eq!(c.history, meta.history.events().clone());

    let err = metatheory_exit_criterion_from_passport(
        "n",
        MetatheoryExitCriterionKind::ModuleBoundary,
        &Passport::literal_nat("T"),
        3,
    )
    .unwrap_err();
    assert_eq!(err.message, "passport `Nat` is not metatheory-foundation exit evidence");
}

#[test]
fn ready_foundation_report() {
    let report = metatheory_foundation_exit_report("core", all_required(), 1);
    assert_eq!(report.status, MetatheoryFoundationStatus::Ready);
    assert!(report.diagnostics.is_empty());
    assert_eq!(report.max_trust, TrustLevel::Checked);
    assert!(report.exit_fingerprint.starts_with("dlm-metatheory-foundation-exit-v1-"));
    assert!(require_metatheory_foundation_ready(&report, 1).is_ok());
    let p = metatheory_foundation_exit_passport("T", &report);
    assert_eq!(p.validation, ValidationState::StaticChecked);
    assert_eq!(p.provenance, Provenance::InternalDerived);
    assert_eq!(p.history.events().len(), 18);
    assert_eq!(
        p.history.events()[17],
        format!("metatheory_exit:foundation:core:ready:fingerprint={}", report.exit_fingerprint)
    );
    let text = render_metatheory_foundation_exit_report(&report);
    assert!(text.starts_with("DLM Metatheory Foundation Exit Report v1\nsubject: core\nstatus: ready\nmax_trust: Checked\n"));
    assert!(text.contains("criteria: 17\n- c0 kind=meta_level_stratification status=satisfied trust=Checked evidence=evidence"));
    assert!(!text.contains("diagnostics:"));
    assert_eq!(export_metatheory_foundation_exit_report(&report), text);
}

#[test]
fn incomplete_and_rejected_foundation_reports() {
    let mut criteria = all_required();
    criteria.pop();
    let report = metatheory_foundation_exit_report("core", criteria, 1);
    assert_eq!(report.status, MetatheoryFoundationStatus::Incomplete);
    assert_eq!(
        report.diagnostics[0].message,
        "metatheory foundation exit is missing required criterion `regression_coverage`"
    );
    let err = require_metatheory_foundation_ready(&report, 2).unwrap_err();
    assert_eq!(err.message, "metatheory foundation `core` is incomplete");

    let mut criteria = all_required();
    criteria[0] = criterion("c0", MetatheoryExitCriterionKind::MetaLevelStratification, MetatheoryExitCriterionStatus::Open);
    assert_eq!(metatheory_foundation_exit_report("core", criteria, 1).status, MetatheoryFoundationStatus::Incomplete);

    let mut criteria = all_required();
    criteria.push(criterion("c0", MetatheoryExitCriterionKind::DiagnosticCoverage, MetatheoryExitCriterionStatus::Satisfied));
    let report = metatheory_foundation_exit_report("core", criteria, 1);
    assert_eq!(report.status, MetatheoryFoundationStatus::Rejected);
    assert_eq!(report.diagnostics[0].message, "duplicate metatheory exit criterion id `c0`");

    let mut criteria = all_required();
    criteria[3] = criterion("c3", MetatheoryExitCriterionKind::ReflectionBoundary, MetatheoryExitCriterionStatus::Failed);
    let report = metatheory_foundation_exit_report("core", criteria, 1);
    assert_eq!(report.status, MetatheoryFoundationStatus::Rejected);
    assert_eq!(report.diagnostics[0].message, "metatheory exit criterion `c3` failed");
    let p = metatheory_foundation_exit_passport("T", &report);
    assert_eq!(p.validation, ValidationState::Raw);

    let report = metatheory_foundation_exit_report(" ", vec![], 1);
    assert_eq!(report.status, MetatheoryFoundationStatus::Rejected);
    assert_eq!(report.diagnostics[0].message, "metatheory foundation exit subject must not be empty");
    assert_eq!(report.diagnostics[1].message, "metatheory foundation exit report has no criteria");
    assert_eq!(report.diagnostics.len(), 19);
    let text = render_metatheory_foundation_exit_report(&report);
    assert!(text.contains("diagnostics:\n- MetatheoryFoundationError: metatheory foundation exit subject must not be empty\n"));
}

fn soundness_profile() -> BridgeProfile {
    BridgeProfile::from_decl(&BridgeDecl {
        name: "sound".to_string(),
        source: "PA".to_string(),
        target: "ZFC".to_string(),
        kind: BridgeKind::Soundness,
        line: 1,
    })
}

#[test]
fn boundary_assumptions_from_bridges() {
    let e = boundary_assumption_from_bridge_profile("b1", &soundness_profile(), 1).unwrap();
    assert_eq!(e.kind, BoundaryAssumptionKind::SoundnessBridge);
    assert_eq!(e.source, "PA");
    assert_eq!(e.target, "ZFC");
    assert_eq!(e.history[0], "bridge:name:sound");
    assert_eq!(e.history[1], "bridge:kind:soundness");
    assert!(e.fingerprint.starts_with("dlm-soundness-boundary-ledger-v1-"));

    let safe = BridgeProfile::from_decl(&BridgeDecl {
        name: "defn".to_string(),
        source: "PA".to_string(),
        target: "PA2".to_string(),
        kind: BridgeKind::Definitional,
        line: 1,
    });
    let err = boundary_assumption_from_bridge_profile("b2", &safe, 4).unwrap_err();
    assert_eq!(err.kind, DiagnosticKind::SoundnessBoundaryError);
    assert_eq!(err.message, "bridge profile `defn` is not a soundness-boundary assumption");
    let err = boundary_assumption_from_bridge_profile("", &soundness_profile(), 4).unwrap_err();
    assert_eq!(err.message, "boundary assumption id must not be empty");
}

#[test]
fn boundary_assumptions_from_passports() {
    let source = Passport::literal_nat("PA");
    let lift = Passport::axiom_truth_from_provable("PA", "goal", &source);
    let e = boundary_assumption_from_passport("t1", BoundaryAssumptionKind::TruthLift, &lift, 1).unwrap();
    assert_eq!(e.target, "truth_from_provable:goal");
    assert_eq!(e.source, "PA");
    assert!(e.requires_axiom);
    assert!(e.preserves_truth);
    assert!(!e.preserves_proof);
    assert_eq!(e.role, "passport boundary evidence: StaticProof<truth_from_provable:goal>");

    let err = boundary_assumption_from_passport("t2", BoundaryAssumptionKind::ConsistencyAssumption, &lift, 2).unwrap_err();
    assert_eq!(err.message, "passport `StaticProof<truth_from_provable:goal>` is not a consistency axiom proof");
    let err = boundary_assumption_from_passport("t3", BoundaryAssumptionKind::AxiomDependency, &source, 2).unwrap_err();
    assert_eq!(err.message, "passport `Nat` has trust Checked, below Axiom");
    let err = boundary_assumption_from_passport("t4", BoundaryAssumptionKind::OracleDependency, &source, 2).unwrap_err();
    assert_eq!(err.message, "passport `Nat` is not oracle-tainted");
}

#[test]
fn verified_and_rejected_ledgers() {
    let source = Passport::literal_nat("PA");
    let lift = Passport::axiom_truth_from_provable("PA", "goal", &source);
    let a = boundary_assumption_from_passport("t1", BoundaryAssumptionKind::TruthLift, &lift, 1).unwrap();
    let b = boundary_assumption_from_bridge_profile("b1", &soundness_profile(), 1).unwrap();
    let ledger = soundness_boundary_ledger("core", vec![a.clone(), b.clone()], None, 1);
    assert_eq!(ledger.status, SoundnessBoundaryStatus::Verified);
    assert_eq!(ledger.max_trust, TrustLevel::Axiom);
    assert!(ledger.has_axiom_taint && !ledger.has_unsafe_taint);
    assert!(require_verified_soundness_boundary_ledger(&ledger, 1).is_ok());
    let p = soundness_boundary_ledger_passport("T", &ledger);
    assert_eq!(p.provenance, Provenance::BuiltinKnown);
    assert_eq!(p.history.events().len(), 3);
    assert_eq!(p.history.events()[0], format!("soundness_boundary:assumption:truth_lift:t1:{}", a.fingerprint));
    let text = render_soundness_boundary_ledger(&ledger);
    assert!(text.starts_with("DLM Soundness Boundary Ledger v1\nsubject: core\nstatus: verified\nmax_trust: Axiom\n"));
    assert!(text.contains("global_inventory_fingerprint: <none>\nassumptions: 2\n- t1 kind=truth_lift source=PA"));
    assert_eq!(export_soundness_boundary_ledger(&ledger), text);

    let inventory = GlobalInventorySummary {
        subject: "inv".to_string(),
        status: InventoryStatus::Open,
        max_trust: TrustLevel::Oracle,
        has_axiom_taint: true,
        has_oracle_taint: true,
        has_unsafe_taint: false,
        inventory_fingerprint: "inv-fp".to_string(),
    };
    let ledger = soundness_boundary_ledger("core", vec![a.clone()], Some(&inventory), 1);
    assert_eq!(ledger.status, SoundnessBoundaryStatus::Open);
    assert_eq!(ledger.max_trust, TrustLevel::Oracle);
    assert_eq!(ledger.global_inventory_fingerprint.as_deref(), Some("inv-fp"));
    let err = require_verified_soundness_boundary_ledger(&ledger, 3).unwrap_err();
    assert_eq!(err.message, "soundness boundary ledger `core` is open");
    let p = soundness_boundary_ledger_passport("T", &ledger);
    assert_eq!(p.history.events()[1], "soundness_boundary:global_inventory:inv-fp");
    assert_eq!(p.validation, ValidationState::ConstraintChecked);

    let rejected = GlobalInventorySummary { status: InventoryStatus::Rejected, ..inventory };
    let ledger = soundness_boundary_ledger("core", vec![a.clone(), a.clone()], Some(&rejected), 1);
    assert_eq!(ledger.status, SoundnessBoundaryStatus::Rejected);
    let messages: Vec<&str> = ledger.diagnostics.iter().map(|d| d.message.as_str()).collect();
    assert_eq!(
        messages,
        vec![
            "duplicate boundary assumption id `t1`",
            &format!("duplicate boundary assumption fingerprint `{}`", a.fingerprint),
            "global metatheory inventory `inv` is rejected",
        ]
    );

    let ledger = soundness_boundary_ledger("", vec![], None, 1);
    let messages: Vec<&str> = ledger.diagnostics.iter().map(|d| d.message.as_str()).collect();
    assert_eq!(
        messages,
        vec![
            "soundness boundary ledger subject must not be empty",
            "soundness boundary ledger has no explicit assumptions",
        ]
    );
}
