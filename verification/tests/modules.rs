use lib::module_interface::{
    audit_module_import, export_module_interface_text, module_import_audit_passport, module_interface, module_interface_passport,
    public_interface_symbols, render_module_import_audit_report, require_interface_symbol, require_verified_module_import_audit,
    ModuleImportAuditStatus,
};
use lib::module_system::{
    build_import_graph, import_decl, import_graph_passport, imported_public_symbols, module_export_passport, module_manifest,
    module_manifest_passport, private_export, public_export, require_public_export, validate_module_manifest, ExportVisibility,
    ImportGraph, ModuleManifest,
};
use lib::{DiagnosticKind, Passport, TrustLevel, TypeKind};

fn manifest(name: &str, imports: &[&str], exports: Vec<lib::module_system::ExportDecl>) -> ModuleManifest {
    let imports = imports.iter().map(|p| import_decl(p, None)).collect();
    module_manifest(name, imports, exports, 1).unwrap()
}

fn two_module_graph() -> ImportGraph {
    let a = manifest("a", &["b"], vec![public_export("main")]);
    let b = manifest("b", &[], vec![public_export("zero"), private_export("secret")]);
    build_import_graph("a", vec![a, b], 1).unwrap()
}

#[test]
fn declarations_keep_their_fields() {
    let i = import_decl("std", Some("s"));
    assert_eq!(i.path, "std");
    assert_eq!(i.alias.as_deref(), Some("s"));
    assert_eq!(public_export("x").visibility, ExportVisibility::Public);
    assert_eq!(private_export("y").visibility, ExportVisibility::Private);
    assert_eq!(ExportVisibility::Private.display_str(), "private");
}

#[test]
fn manifest_validation_reports_first_problem() {
    let err = module_manifest(" ", vec![], vec![], 3).unwrap_err();
    assert_eq!(err.kind, DiagnosticKind::ModuleImportError);
    assert_eq!(err.message, "module name must not be empty");
    assert_eq!(err.line, Some(3));

    let err = module_manifest("a", vec![import_decl("b", None), import_decl("b", None)], vec![], 2).unwrap_err();
    assert_eq!(err.message, "duplicate import `b` in module `a`");

    let err = module_manifest("a", vec![import_decl("b", Some("x")), import_decl("c", Some("x"))], vec![], 2).unwrap_err();
    assert_eq!(err.message, "duplicate import alias `x` in module `a`");

    let err = module_manifest("a", vec![import_decl("b", Some(" "))], vec![], 2).unwrap_err();
    assert_eq!(err.message, "import alias must not be empty");

    let err = module_manifest("a", vec![], vec![public_export("f"), private_export("f")], 2).unwrap_err();
    assert_eq!(err.message, "duplicate export `f` in module `a`");

    let ok = manifest("a", &["b"], vec![public_export("f")]);
    assert!(validate_module_manifest(&ok, 1).is_ok());
}

#[test]
fn import_graph_resolves_sorted_modules_and_edges() {
    let g = two_module_graph();
    assert_eq!(g.root, "a");
    let names: Vec<&str> = g.modules.iter().map(|m| m.name.as_str()).collect();
    assert_eq!(names, vec!["a", "b"]);
    assert_eq!(g.edges.len(), 1);
    assert_eq!(g.edges[0].from, "a");
    assert_eq!(g.edges[0].to, "b");

    let later_first = build_import_graph(
        "a",
        vec![manifest("b", &[], vec![]), manifest("a", &["b"], vec![])],
        1,
    )
    .unwrap();
    let names: Vec<&str> = later_first.modules.iter().map(|m| m.name.as_str()).collect();
    assert_eq!(names, vec!["a", "b"]);
}

#[test]
fn import_graph_errors() {
    let errs = build_import_graph("z", vec![manifest("a", &[], vec![])], 5).unwrap_err();
    assert_eq!(errs.len(), 1);
    assert_eq!(errs[0].message, "root module `z` is missing from the import graph");

    let errs = build_import_graph("a", vec![manifest("a", &["c"], vec![])], 5).unwrap_err();
    assert_eq!(errs[0].message, "module `a` imports missing module `c`");

    let errs = build_import_graph("a", vec![manifest("a", &[], vec![]), manifest("a", &[], vec![])], 5).unwrap_err();
    assert_eq!(errs[0].message, "duplicate module manifest `a`");

    let errs = build_import_graph(" ", vec![manifest("a", &[], vec![])], 5).unwrap_err();
    assert_eq!(errs[0].message, "root module must not be empty");
}

#[test]
fn import_cycle_is_reported_with_its_path() {
    let errs = build_import_graph("a", vec![manifest("a", &["b"], vec![]), manifest("b", &["a"], vec![])], 7).unwrap_err();
    assert_eq!(errs.len(), 1);
    assert_eq!(errs[0].message, "cyclic import graph detected: a -> b -> a");
    assert_eq!(errs[0].line, Some(7));
}

#[test]
fn public_exports_and_imported_symbols() {
    let g = two_module_graph();
    let e = require_public_export(&g, "b", "zero", 1).unwrap();
    assert_eq!(e.symbol, "zero");
    let err = require_public_export(&g, "b", "secret", 1).unwrap_err();
    assert_eq!(err.message, "module `b` has private symbol `secret`, not a public export");
    let err = require_public_export(&g, "b", "nope", 1).unwrap_err();
    assert_eq!(err.message, "module `b` does not export symbol `nope`");
    let err = require_public_export(&g, "q", "zero", 1).unwrap_err();
    assert_eq!(err.message, "unknown module `q` in import graph");

    let syms = imported_public_symbols(&g, "a", 1).unwrap();
    assert_eq!(syms, vec![("b".to_string(), "zero".to_string())]);
    assert!(imported_public_symbols(&g, "b", 1).unwrap().is_empty());
    let err = imported_public_symbols(&g, "q", 1).unwrap_err();
    assert_eq!(err.message, "unknown module `q` in import graph");
}

#[test]
fn module_passports_record_their_events() {
    let g = two_module_graph();
    let p = module_manifest_passport("T", &g.modules[0]);
    assert_eq!(p.history.events(), &vec!["module:manifest:a:imports=1:exports=1".to_string()]);
    assert_eq!(p.trust, TrustLevel::Builtin);
    let p = import_graph_passport("T", &g);
    assert_eq!(
        p.history.events(),
        &vec![
            "module:manifest:a:imports=1:exports=1".to_string(),
            "module:manifest:b:imports=0:exports=2".to_string(),
            "module:import_graph:a:edges=1".to_string(),
        ]
    );
    let src = Passport::literal_nat("T");
    let p = module_export_passport("T", "b", &public_export("zero"), &src);
    assert_eq!(p.trust, TrustLevel::Checked);
    assert_eq!(p.history.events().last().unwrap(), "module:export:b:zero:public");
}

fn nat_interface(module: &str) -> lib::module_interface::ModuleInterface {
    module_interface(module, vec![(public_export("zero"), Passport::literal_nat("T"))], 1).unwrap()
}

#[test]
fn interface_symbol_fingerprints_match_known_values() {
    let iface = nat_interface("b");
    assert_eq!(iface.symbols.len(), 1);
    let s = &iface.symbols[0];
    assert_eq!(s.ty, "Nat");
    assert_eq!(s.trust, TrustLevel::Checked);
    assert_eq!(s.capabilities[0], "can_add_as_nat");
    assert_eq!(s.source_fingerprint, "dc9d8140e59b8ece");
    assert_eq!(iface.fingerprint, "ce4268313f04b025");
}

#[test]
fn interface_is_sorted_and_order_independent() {
    let one = module_interface(
        "m",
        vec![
            (public_export("zeta"), Passport::literal_nat("T")),
            (private_export("alpha"), Passport::axiom_nat("T")),
        ],
        1,
    )
    .unwrap();
    let two = module_interface(
        "m",
        vec![
            (private_export("alpha"), Passport::axiom_nat("T")),
            (public_export("zeta"), Passport::literal_nat("T")),
        ],
        1,
    )
    .unwrap();
    assert_eq!(one.symbols[0].symbol, "alpha");
    assert_eq!(one.symbols[1].symbol, "zeta");
    assert_eq!(one, two);
    assert_eq!(public_interface_symbols(&one), vec!["zeta".to_string()]);
    assert_eq!(module_interface_passport("T", &one).trust, TrustLevel::Axiom);
    assert_eq!(module_interface_passport("T", &module_interface("e", vec![], 1).unwrap()).trust, TrustLevel::Builtin);
    assert_eq!(
        module_interface_passport("T", &nat_interface("b")).history.events()[0],
        format!("module:interface:b:symbols=1:fingerprint={}", nat_interface("b").fingerprint)
    );
    match module_interface_passport("T", &one).ty {
        TypeKind::ModuleInterface { module } => assert_eq!(module, "m"),
        _ => panic!("wrong type"),
    }
}

#[test]
fn interface_construction_errors() {
    let err = module_interface(" ", vec![], 4).unwrap_err();
    assert_eq!(err.kind, DiagnosticKind::ModuleInterfaceError);
    assert_eq!(err.message, "module must not be empty");
    let err = module_interface(
        "m",
        vec![(public_export("x"), Passport::literal_nat("T")), (private_export("x"), Passport::literal_nat("T"))],
        4,
    )
    .unwrap_err();
    assert_eq!(err.message, "duplicate interface symbol `x` for module `m`");
    let err = module_interface("m", vec![(public_export(""), Passport::literal_nat("T"))], 4).unwrap_err();
    assert_eq!(err.message, "export symbol must not be empty");
    let iface = nat_interface("b");
    let err = require_interface_symbol(&iface, "one", 2).unwrap_err();
    assert_eq!(err.message, "module interface `b` does not contain symbol `one`");
    assert_eq!(require_interface_symbol(&iface, "zero", 2).unwrap().symbol, "zero");
}

#[test]
fn interface_text_lists_symbols() {
    let iface = nat_interface("b");
    let text = export_module_interface_text(&iface);
    assert!(text.starts_with(&format!("DLM module interface\nmodule: b\nfingerprint: {}\nsymbols:\n", iface.fingerprint)));
    assert!(text.contains("  - zero [public] type=Nat trust=Checked caps={can_add_as_nat, can_print_decimal,"));
    assert!(text.ends_with(" source=dc9d8140e59b8ece\n"));
}

#[test]
fn verified_import_audit() {
    let g = two_module_graph();
    let iface = nat_interface("b");
    let report = audit_module_import(&g, "a", "b", vec!["zero".to_string()], &iface, 1);
    assert_eq!(report.status, ModuleImportAuditStatus::Verified);
    assert!(report.diagnostics.is_empty());
    assert_eq!(report.resolved_symbols.len(), 1);
    assert_eq!(report.resolved_symbols[0].symbol, "zero");
    assert_eq!(report.interface_fingerprint, iface.fingerprint);
    assert_eq!(report.audit_fingerprint.len(), 16);
    assert!(require_verified_module_import_audit(&report, 1).is_ok());
    let p = module_import_audit_passport("T", &report);
    assert_eq!(
        p.history.events()[0],
        format!("module:import_audit:a->b:verified:fingerprint={}", report.audit_fingerprint)
    );
    let text = render_module_import_audit_report(&report);
    assert!(text.starts_with("DLM module import audit\nimporter: a\nprovider: b\nstatus: verified\n"));
    assert!(text.contains("requested: zero\nresolved:\n  - zero [public] Nat\n"));
    assert!(!text.contains("diagnostics:"));
}

#[test]
fn rejected_import_audits() {
    let g = two_module_graph();
    let iface = nat_interface("b");
    let report = audit_module_import(&g, "b", "a", vec!["zero".to_string(), " ".to_string()], &iface, 1);
    assert_eq!(report.status, ModuleImportAuditStatus::Rejected);
    let messages: Vec<&str> = report.diagnostics.iter().map(|d| d.message.as_str()).collect();
    assert_eq!(
        messages,
        vec![
            "interface module `b` does not match provider `a`",
            "module `b` does not import provider `a`",
            "module `a` does not export symbol `zero`",
            "required import symbol must not be empty",
        ]
    );
    let err = require_verified_module_import_audit(&report, 9).unwrap_err();
    assert_eq!(err.message, "module import audit for `b` -> `a` is rejected");
    let text = render_module_import_audit_report(&report);
    assert!(text.contains("diagnostics:\n  - interface module `b` does not match provider `a`\n"));

    let report = audit_module_import(&g, "x", "b", vec!["secret".to_string()], &iface, 1);
    let messages: Vec<&str> = report.diagnostics.iter().map(|d| d.message.as_str()).collect();
    assert_eq!(
        messages,
        vec![
            "importer module `x` is missing from the import graph",
            "module `b` has private symbol `secret`, not a public export",
        ]
    );

    let private_iface =
        module_interface("b", vec![(private_export("zero"), Passport::literal_nat("T"))], 1).unwrap();
    let report = audit_module_import(&g, "a", "b", vec!["zero".to_string()], &private_iface, 1);
    assert_eq!(report.diagnostics[0].message, "interface symbol `zero` from module `b` is private, not public");
    assert!(report.resolved_symbols.is_empty());
}
