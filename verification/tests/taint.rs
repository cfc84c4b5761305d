use lib::ids::IdAllocator;
use lib::passport_rules::history_contains_ordered_subsequence;
use lib::{parse_module, CheckPolicy, Checker, Passport, TheoryContext, TrustLevel};

#[test]
fn axiom_lifts_never_lower_taint() {
    let unsafe_source = Passport::unsafe_nat("T");
    assert_eq!(unsafe_source.trust, TrustLevel::Unsafe);
    let lifted = Passport::axiom_truth_from_provable("T", "p", &unsafe_source);
    assert_eq!(lifted.trust, TrustLevel::Unsafe);
    assert_eq!(lifted.history.events().last().unwrap(), "truth:from_provable_axiom");
    assert_eq!(Passport::axiom_reflection_proof("T", "PA", "p", &unsafe_source).trust, TrustLevel::Unsafe);
    assert_eq!(Passport::axiom_self_reference_proof("T", "p", &unsafe_source).trust, TrustLevel::Unsafe);
    assert_eq!(Passport::axiom_consistency_proof("T", "PA", &unsafe_source).trust, TrustLevel::Unsafe);

    let checked = Passport::literal_nat("T");
    assert_eq!(Passport::axiom_truth_from_provable("T", "p", &checked).trust, TrustLevel::Axiom);
    assert_eq!(Passport::term_of("T", "S", "Nat", "q", &unsafe_source).trust, TrustLevel::Unsafe);
    assert_eq!(Passport::term_of("T", "S", "Nat", "q", &checked).trust, TrustLevel::Builtin);
    let u = Passport::universe("T", 0);
    assert_eq!(Passport::universe_succ(&u, "T").trust, TrustLevel::Builtin);
}

#[test]
fn power_keeps_operand_taint() {
    let module = parse_module("module m;\ntheory T {\n  let x = axiom_nat();\n  let y = x ^ 2;\n  let z = 3 ^ 2;\n}\n").unwrap();
    let report = Checker::with_policy(CheckPolicy::research()).check_module(&module);
    assert!(report.ok());
    assert_eq!(report.inferred[1].0, "T.y");
    assert_eq!(report.inferred[1].1.trust, TrustLevel::Axiom);
    assert_eq!(report.inferred[2].1.trust, TrustLevel::Checked);
}

#[test]
fn valid_in_lists_each_theory_once() {
    let mut ctx = TheoryContext::new("A");
    ctx.insert_valid_in("B");
    ctx.insert_valid_in("A");
    ctx.insert_valid_in("B");
    assert_eq!(ctx.valid_in, vec!["A".to_string(), "B".to_string()]);
}

#[test]
fn value_ids_are_consecutive() {
    let mut a = IdAllocator::new();
    assert_eq!(a.alloc_value().0, 0);
    assert_eq!(a.alloc_type().0, 0);
    assert_eq!(a.alloc_value().0, 1);
    assert_eq!(a.alloc_proof().0, 0);
    assert_eq!(a.alloc_value().0, 2);
}

#[test]
fn ordered_subsequence_of_history() {
    let source = Passport::literal_nat("T");
    let lifted = Passport::axiom_truth_from_provable("T", "p", &source);
    assert!(history_contains_ordered_subsequence(&lifted, &["literal", "truth"]));
    assert!(!history_contains_ordered_subsequence(&lifted, &["truth", "literal"]));
    assert!(history_contains_ordered_subsequence(&lifted, &[]));
}
