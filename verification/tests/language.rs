use lib::equality::{apply_rewrite_rule, axiom_eq_proof, reflexive_eq_proof, require_eq_proof, rewrite_rule_from_eq_proof, RewriteDirection};
use lib::logic::{bound_variable, export_logical_formula, logical_formula, quantified_formula, LogicalConnective, QuantifierKind};
use lib::parser::expr::parse_expr;
use lib::{parse_module, CheckPolicy, Checker, Diagnostic, DiagnosticKind, ExprKind, ModuleItem, Passport, TrustLevel};

const DEMO: &str = "module demo;\ntheory PA {\n  let x = 5;\n  let y = x + 2;\n}\n";

#[test]
fn parse_simple_module() {
    let module = parse_module(DEMO).unwrap();
    assert_eq!(module.name, "demo");
    assert_eq!(module.items.len(), 1);
    match &module.items[0] {
        ModuleItem::Theory(t) => {
            assert_eq!(t.name, "PA");
            assert_eq!(t.items.len(), 2);
        },
        _ => panic!("expected a theory"),
    }
}

#[test]
fn check_simple_module_is_clean() {
    let module = parse_module(DEMO).unwrap();
    let report = Checker::with_policy(CheckPolicy::trusted_only()).check_module(&module);
    assert!(report.ok());
    assert_eq!(report.module_name, "demo");
    assert_eq!(report.theory_count, 1);
    assert_eq!(report.value_count, 2);
    assert_eq!(report.inferred[0].0, "PA.x");
}

#[test]
fn value_outside_theory_is_rejected() {
    let errs = parse_module("module m;\nlet x = 1;\n").unwrap_err();
    assert_eq!(errs.len(), 1);
    assert_eq!(errs[0].kind, DiagnosticKind::NoAmbientTheoryError);
    assert_eq!(errs[0].line, Some(2));
}

#[test]
fn unclosed_theory_is_a_parse_error() {
    let errs = parse_module("theory T {\n  let x = 1;\n").unwrap_err();
    assert_eq!(errs.len(), 1);
    assert_eq!(errs[0].kind, DiagnosticKind::ParseError);
    assert_eq!(errs[0].message, "unclosed theory block 'T'; missing '}'");
}

#[test]
fn unknown_name_is_reported() {
    let module = parse_module("module m;\ntheory T {\n  let y = missing + 1;\n}\n").unwrap();
    let report = Checker::new().check_module(&module);
    assert!(!report.ok());
    assert_eq!(report.diagnostics[0].kind, DiagnosticKind::NameError);
}

#[test]
fn parse_expression_forms() {
    let e = parse_expr("f(1, x)", 3).unwrap();
    match e.kind {
        ExprKind::Call { name, args } => {
            assert_eq!(name, "f");
            assert_eq!(args.len(), 2);
        },
        _ => panic!("expected a call"),
    }
    let e = parse_expr("a + b", 1).unwrap();
    assert!(matches!(e.kind, ExprKind::Add { .. }));
    let e = parse_expr("PA.x", 1).unwrap();
    assert!(matches!(e.kind, ExprKind::QualifiedIdent { .. }));
}

#[test]
fn diagnostic_text_has_code_and_help() {
    let d = Diagnostic::error(DiagnosticKind::ParseError, Some(3), "bad").with_help("fix it");
    assert_eq!(d.to_text(), "error[E0001 ParseError] at line 3: bad\n  help: fix it\n");
    let d = Diagnostic::error(DiagnosticKind::LogicFormulaError, None, "x");
    assert_eq!(d.to_text(), "error[E0926 LogicFormulaError]: x\n");
}

#[test]
fn rewrite_round_trip_returns_start() {
    let refl = reflexive_eq_proof("T", "a", 1).unwrap();
    assert_eq!(require_eq_proof(&refl, 1).unwrap(), ("a".to_string(), "a".to_string()));
    let eq = axiom_eq_proof("T", "a", "b", "by definition", 1).unwrap();
    assert_eq!(eq.trust, TrustLevel::Axiom);
    let rule = rewrite_rule_from_eq_proof("T", "r", &eq, 1).unwrap();
    let fwd = apply_rewrite_rule(&rule, "a", RewriteDirection::Forward, 1).unwrap();
    assert_eq!(fwd.to, "b");
    let back = apply_rewrite_rule(&rule, &fwd.to, RewriteDirection::Reverse, 1).unwrap();
    assert_eq!(back.to, "a");
}

#[test]
fn logical_formula_builds_proposition() {
    let n = Passport::literal_nat("T");
    let f = logical_formula(LogicalConnective::And, vec!["p".to_string(), "q".to_string()], &[&n], 1).unwrap();
    assert_eq!(f.proposition, "and(p, q)");
    assert_eq!(f.max_trust, TrustLevel::Builtin);
    assert!(export_logical_formula(&f).contains("operands:\n- p\n- q\n"));
    let err = logical_formula(LogicalConnective::Not, vec!["p".to_string(), "q".to_string()], &[], 4).unwrap_err();
    assert_eq!(err.kind, DiagnosticKind::LogicFormulaError);
    assert_eq!(err.message, "logical connective `not` expects 1 operand(s), got 2");
}

#[test]
fn quantified_formula_needs_body() {
    let v = bound_variable("n", "Nat", 1).unwrap();
    let err = quantified_formula(QuantifierKind::Forall, v, "  ", &[], 2).unwrap_err();
    assert_eq!(err.message, "quantifier body is empty");
    assert!(bound_variable("1n", "Nat", 1).is_err());
}
