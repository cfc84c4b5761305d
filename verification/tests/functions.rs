use lib::function::{
    application_term, application_term_passport, export_application_term, export_function_type, export_lambda_term,
    function_type, function_type_passport, lambda_term, lambda_term_passport, require_function_type, require_lambda_term,
    ApplicationStatus,
};
use lib::function_contract::{
    export_function_contract, function_contract, function_contract_passport, function_effect, require_verified_function_contract,
    FunctionContractStatus, FunctionEffectKind, FunctionPurity, FunctionTotality,
};
use lib::induction::{
    induction_base_case, induction_step_case, nat_base_case_proposition, nat_induction_conclusion, nat_induction_proof,
    nat_induction_scheme, nat_step_case_proposition, require_induction_base_case, require_induction_proof,
    require_nat_induction_scheme,
};
use lib::logic::bound_variable;
use lib::partiality::{
    export_option_type, export_option_value, export_partiality_report, export_result_value, option_none, option_some, option_type,
    partiality_report, result_err, result_ok, result_type, OptionValueKind, PartialityStatus, ResultValueKind,
};
use lib::{DiagnosticKind, Passport, Provenance, TrustLevel, TypeKind, ValidationState};

fn nat_to_nat() -> Passport {
    let report = function_type("Nat", "Nat", true, true, &[], 1).unwrap();
    function_type_passport("T", &report, &[])
}

#[test]
fn function_type_report_and_export() {
    let report = function_type("Nat", "Bool", true, false, &[], 1).unwrap();
    assert_eq!(report.max_trust, TrustLevel::Checked);
    let text = export_function_type(&report);
    assert!(text.starts_with("function_type_report: v1\ndomain: Nat\ncodomain: Bool\ntotal: true\npure: false\nmax_trust: Checked\n"));
    let err = function_type(" ", "Bool", true, true, &[], 4).unwrap_err();
    assert_eq!(err.kind, DiagnosticKind::FunctionTermError);
    assert_eq!(err.message, "function domain is empty");
    let err = function_type("Nat", "Bo\nol", true, true, &[], 4).unwrap_err();
    assert_eq!(err.message, "function codomain contains a newline");
}

#[test]
fn function_type_passport_is_builtin_floor() {
    let p = nat_to_nat();
    assert_eq!(p.trust, TrustLevel::Builtin);
    assert_eq!(p.provenance, Provenance::BuiltinKnown);
    assert_eq!(require_function_type(&p, 1).unwrap(), ("Nat".to_string(), "Nat".to_string()));
    assert!(require_lambda_term(&p, 1).is_err());
}

#[test]
fn lambda_captures_sorted_and_deduplicated() {
    let ft = function_type("Nat", "Nat", true, true, &[], 1).unwrap();
    let x = bound_variable("x", "Nat", 1).unwrap();
    let caps = vec!["z".to_string(), "a".to_string(), "z".to_string(), "B".to_string()];
    let l = lambda_term(x, "x + a", &ft, caps, &[], 1).unwrap();
    assert_eq!(l.captures, vec!["B".to_string(), "a".to_string(), "z".to_string()]);
    let text = export_lambda_term(&l);
    assert!(text.contains("captures: [\"B\", \"a\", \"z\"]\n"));
    let p = lambda_term_passport("T", &l, &[]);
    assert_eq!(require_lambda_term(&p, 1).unwrap(), ("x".to_string(), "Nat".to_string(), "x + a".to_string()));
}

#[test]
fn lambda_rejects_shadowing_and_bad_domain() {
    let ft = function_type("Nat", "Nat", true, true, &[], 1).unwrap();
    let x = bound_variable("x", "Nat", 1).unwrap();
    let err = lambda_term(x, "x", &ft, vec!["x".to_string()], &[], 2).unwrap_err();
    assert_eq!(err.message, "lambda capture `x` is shadowed by the parameter");
    let y = bound_variable("y", "Bool", 1).unwrap();
    let err = lambda_term(y, "y", &ft, vec![], &[], 2).unwrap_err();
    assert_eq!(err.message, "lambda parameter `y` has domain `Bool`, but declared function domain is `Nat`");
    let z = bound_variable("z", "Nat", 1).unwrap();
    let err = lambda_term(z, "z", &ft, vec!["1a".to_string(), "ok".to_string()], &[], 2).unwrap_err();
    assert_eq!(err.message, "invalid lambda capture `1a`");
}

#[test]
fn application_applies_on_matching_domain() {
    let f = nat_to_nat();
    let n = Passport::literal_nat("T");
    let a = application_term(&f, &n, "3", 1).unwrap();
    assert_eq!(a.status, ApplicationStatus::Applied);
    assert_eq!(a.result, "fn:Nat->Nat(3) : Nat");
    let b = Passport::axiom_bool("T");
    let r = application_term(&f, &b, "true", 1).unwrap();
    assert_eq!(r.status, ApplicationStatus::RejectedDomainMismatch);
    assert_eq!(r.result, "rejected(fn:Nat->Nat(true))");
    assert!(r.has_axiom_taint);
    let text = export_application_term(&r);
    assert!(text.contains("status: rejected_domain_mismatch\n"));
    let p = application_term_passport("T", &a, &[]);
    assert_eq!(p.history.events().len(), 1);
}

#[test]
fn application_rejects_proof_evidence() {
    let f = nat_to_nat();
    let n = Passport::literal_nat("T");
    let proof = Passport::static_proof("T", "P", &n);
    let err = application_term(&f, &proof, "p", 1).unwrap_err();
    assert!(err.message.ends_with("cannot be used as an ordinary function argument"));
    let err = application_term(&n, &n, "p", 1).unwrap_err();
    assert!(err.message.ends_with("is not a function passport"));
    let err = application_term(&f, &n, "", 1).unwrap_err();
    assert_eq!(err.message, "application argument is empty");
}

#[test]
fn effect_boundary_validation() {
    assert!(function_effect(FunctionEffectKind::Io, "disk", 1).is_ok());
    let err = function_effect(FunctionEffectKind::Io, "", 1).unwrap_err();
    assert_eq!(err.kind, DiagnosticKind::FunctionContractError);
    assert_eq!(err.message, "effect boundary is empty");
    let err = function_effect(FunctionEffectKind::Io, "a\nb", 1).unwrap_err();
    assert_eq!(err.message, "effect boundary contains a newline");
}

#[test]
fn effectful_contract_is_open_without_totality_evidence() {
    let f = nat_to_nat();
    let effect = function_effect(FunctionEffectKind::Io, "disk", 1).unwrap();
    let c = function_contract("inc", &f, FunctionPurity::Effectful, FunctionTotality::Total, vec![effect], &[], 1).unwrap();
    assert_eq!(c.status, FunctionContractStatus::Open);
    assert_eq!(
        c.open_obligations,
        vec![
            "function is explicitly effectful; pure-core optimizer must not treat it as deterministic pure code".to_string(),
            "totality is claimed but no StaticProof/Theorem evidence was supplied".to_string(),
        ]
    );
    // The effects enter the fingerprint in their quoted `Debug` form.
    assert_eq!(c.fingerprint, "fnv64:d426033ad6601d4b");
    let err = require_verified_function_contract(&c, 2).unwrap_err();
    assert_eq!(err.message, "function contract `inc` is open, not verified");
    let text = export_function_contract(&c);
    assert!(text.contains("effects:\n  - io@disk\nstatus: open\n"));
}

#[test]
fn pure_total_contract_with_evidence_is_verified() {
    let f = nat_to_nat();
    let n = Passport::literal_nat("T");
    let evidence = Passport::static_proof("T", "total(inc)", &n);
    let mut evidence = evidence;
    evidence.validation = ValidationState::StaticChecked;
    let c = function_contract("inc", &f, FunctionPurity::Pure, FunctionTotality::Total, vec![], &[&evidence], 1).unwrap();
    assert_eq!(c.status, FunctionContractStatus::Verified);
    assert!(c.open_obligations.is_empty());
    assert!(require_verified_function_contract(&c, 1).is_ok());
    let p = function_contract_passport("T", &c, &[&f]);
    assert_eq!(p.history.events().len(), f.history.events().len() + 1);
}

#[test]
fn pure_contract_with_effects_is_rejected() {
    let f = nat_to_nat();
    let e1 = function_effect(FunctionEffectKind::UnsafeExternal, "ffi", 1).unwrap();
    let e2 = function_effect(FunctionEffectKind::Oracle, "coin", 1).unwrap();
    let c = function_contract("g", &f, FunctionPurity::Pure, FunctionTotality::Partial, vec![e1, e2], &[], 1).unwrap();
    assert_eq!(c.status, FunctionContractStatus::Rejected);
    assert_eq!(c.max_trust, TrustLevel::Unsafe);
    assert!(c.has_oracle_taint && c.has_unsafe_taint);
    let obligations: Vec<&str> = c.open_obligations.iter().map(|s| s.as_str()).collect();
    assert_eq!(
        obligations,
        vec![
            "contract depends on Axiom/Oracle/Unsafe taint and is not a clean Checked contract",
            "function is explicitly partial; maximum total guarantee is downgraded",
            "oracle effect is visible in the contract and cannot be erased as Checked",
            "pure contract carries explicit effects; use FunctionPurity::Effectful or remove the effects",
            "unsafe external effect is visible in the contract and forces lower assurance",
        ]
    );
    let mut sorted = c.open_obligations.clone();
    sorted.sort();
    assert_eq!(sorted, c.open_obligations);
}

#[test]
fn contract_subject_must_be_a_function() {
    let n = Passport::literal_nat("T");
    let err = function_contract("g", &n, FunctionPurity::Pure, FunctionTotality::Total, vec![], &[], 1).unwrap_err();
    assert!(err.message.ends_with("is not a function subject"));
    let f = nat_to_nat();
    let err = function_contract("9g", &f, FunctionPurity::Pure, FunctionTotality::Total, vec![], &[], 1).unwrap_err();
    assert_eq!(err.message, "invalid function contract name `9g`");
}

#[test]
fn option_values_must_match_item_type() {
    let n = Passport::literal_nat("T");
    let nat_text = n.ty.to_text();
    let o = option_type(&nat_text, &[], 1).unwrap();
    let some = option_some(&o, &n, 1).unwrap();
    assert_eq!(some.kind, OptionValueKind::SomeValue);
    assert_eq!(some.value, Some(nat_text.clone()));
    let none = option_none(&o, 1).unwrap();
    assert_eq!(none.kind, OptionValueKind::NoneValue);
    assert!(export_option_value(&none).contains("value: <none>\n"));
    assert!(export_option_type(&o).starts_with("option_type_report: v1\nitem_type: "));
    let b = Passport::axiom_bool("T");
    let err = option_some(&o, &b, 2).unwrap_err();
    assert_eq!(err.kind, DiagnosticKind::PartialityTypeError);
    assert!(err.message.starts_with("Option::some type mismatch: expected `"));
    let err = option_type("  ", &[], 1).unwrap_err();
    assert_eq!(err.message, "option item type cannot be empty");
}

#[test]
fn result_values_follow_their_branch() {
    let n = Passport::literal_nat("T");
    let b = Passport::axiom_bool("T");
    let r = result_type(&n.ty.to_text(), &b.ty.to_text(), &[], 1).unwrap();
    let ok = result_ok(&r, &n, 1).unwrap();
    assert_eq!(ok.kind, ResultValueKind::OkValue);
    assert_eq!(ok.result_type, format!("{},{}", n.ty.to_text(), b.ty.to_text()));
    let err = result_err(&r, &b, 1).unwrap();
    assert_eq!(err.kind, ResultValueKind::ErrValue);
    assert_eq!(err.max_trust, TrustLevel::Axiom);
    assert!(export_result_value(&err).starts_with("result_value_report: v1\nkind: err\n"));
    let mismatch = result_ok(&r, &b, 3).unwrap_err();
    assert!(mismatch.message.starts_with("Result::ok type mismatch"));
}

#[test]
fn partiality_report_needs_explanation_and_ordinary_subject() {
    let n = Passport::literal_nat("T");
    let r = partiality_report(&n, PartialityStatus::Optional, "may be absent", &[], 1).unwrap();
    assert_eq!(r.status, PartialityStatus::Optional);
    assert!(export_partiality_report(&r).contains("status: optional\nexplanation: may be absent\n"));
    let err = partiality_report(&n, PartialityStatus::Open, " ", &[], 1).unwrap_err();
    assert_eq!(err.message, "partiality report requires an explanation");
    let proof = Passport::static_proof("T", "P", &n);
    let err = partiality_report(&proof, PartialityStatus::Open, "x", &[], 1).unwrap_err();
    assert!(err.message.ends_with("is proof/truth/runtime-like and cannot be reported as ordinary partial value"));
}

#[test]
fn induction_proof_from_base_and_step() {
    assert_eq!(nat_base_case_proposition("P"), "P(0)");
    assert_eq!(nat_step_case_proposition("P"), "forall n:Nat. P(n) -> P(succ(n))");
    assert_eq!(nat_induction_conclusion("P"), "forall n:Nat. P(n)");
    let scheme = nat_induction_scheme("PA", "P", 1).unwrap();
    assert_eq!(require_nat_induction_scheme(&scheme, 1).unwrap(), "P");
    let n = Passport::literal_nat("PA");
    let mut base_proof = Passport::static_proof("PA", "P(0)", &n);
    base_proof.ty = TypeKind::StaticProof("P(0)".to_string());
    let mut step_proof = Passport::static_proof("PA", "step", &n);
    step_proof.ty = TypeKind::StaticProof("forall n:Nat. P(n) -> P(succ(n))".to_string());
    let base = induction_base_case("PA", &scheme, &base_proof, 2).unwrap();
    let step = induction_step_case("PA", &scheme, &step_proof, 3).unwrap();
    assert_eq!(require_induction_base_case(&base, "P", 4).unwrap(), "P(0)");
    let proof = nat_induction_proof("PA", &scheme, &base, &step, 4).unwrap();
    assert_eq!(require_induction_proof(&proof, 5).unwrap(), "forall n:Nat. P(n)");
    assert_eq!(
        proof.history.events().last().unwrap(),
        "induction:nat:proof:forall n:Nat. P(n)"
    );
}

#[test]
fn induction_rejects_wrong_cases() {
    let scheme = nat_induction_scheme("PA", "P", 1).unwrap();
    let n = Passport::literal_nat("PA");
    let mut wrong = Passport::static_proof("PA", "Q(0)", &n);
    wrong.ty = TypeKind::StaticProof("Q(0)".to_string());
    let err = induction_base_case("PA", &scheme, &wrong, 2).unwrap_err();
    assert_eq!(err.kind, DiagnosticKind::InductionError);
    assert_eq!(err.message, "static proof proves `Q(0)`, but induction case requires `P(0)`");
    let err = nat_induction_scheme("PA", " ", 1).unwrap_err();
    assert_eq!(err.message, "proposition family cannot be empty in Nat induction context");
    let err = require_induction_proof(&n, 1).unwrap_err();
    assert_eq!(err.message, "expected an InductionProof passport");
    let err = require_nat_induction_scheme(&wrong, 1).unwrap_err();
    assert_eq!(err.message, "Nat induction requires an InductionScheme<Nat,P>, not a proof/theorem object");
}
