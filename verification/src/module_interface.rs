//! Frozen module interfaces: the symbols a module exposes, each with the type,
//! trust and capabilities of its source, and audits of one module's import of
//! another module's interface.

use vstd::prelude::*;
use vstd::string::*;

use crate::axiom_registry::{diagnostics_view, lemma_text_lt_irreflexive, lemma_text_lt_total, lemma_text_lt_transitive, name_lt, text_lt};
use crate::diagnostics::{error_with_help, Diagnostic, DiagnosticKind, DiagnosticV};
use crate::fingerprint::{fingerprint_text, stable_fingerprint, strings_view};
use crate::module_system::{
    find_module, find_module_index, require_public_export, require_public_export_spec, ExportDecl, ExportDeclV, ExportVisibility, ImportGraph,
    ImportGraphV,
};
use crate::passport::capability::names_of;
use crate::passport::record::home_context;
use crate::passport::type_kind::type_text;
use crate::passport::{
    Capability, CapabilitySet, ConstructionMode, CostClass, HistoryChain, LocationContext, Passport, PassportV, Provenance,
    TheoryContext, TrustLevel, TypeKind, TypeKindV, ValidationState,
};
use crate::text::{all_ws, dec_text, is_blank, join_strings, join_text, str_eq, usize_text};

verus! {

/// Whether an import audit found nothing wrong.
#[derive(Debug, Clone, Copy, PartialEq, Eq, Structural, PartialOrd, Ord)]
pub enum ModuleImportAuditStatus {
    Verified,
    Rejected,
}

impl ModuleImportAuditStatus {
    pub open spec fn display_text(self) -> Seq<char> {
        match self {
            ModuleImportAuditStatus::Verified => "verified"@,
            ModuleImportAuditStatus::Rejected => "rejected"@,
        }
    }

    pub fn display_str(self) -> (r: &'static str)
        ensures
            r@ == self.display_text(),
    {
        match self {
            ModuleImportAuditStatus::Verified => "verified",
            ModuleImportAuditStatus::Rejected => "rejected",
        }
    }
}

/// One symbol of a module interface.
#[derive(Debug, PartialEq, Eq)]
pub struct InterfaceSymbol {
    pub symbol: String,
    pub visibility: ExportVisibility,
    pub ty: String,
    pub trust: TrustLevel,
    pub capabilities: Vec<String>,
    pub source_fingerprint: String,
}

pub struct InterfaceSymbolV {
    pub symbol: Seq<char>,
    pub visibility: ExportVisibility,
    pub ty: Seq<char>,
    pub trust: TrustLevel,
    pub capabilities: Seq<Seq<char>>,
    pub source_fingerprint: Seq<char>,
}

impl View for InterfaceSymbol {
    type V = InterfaceSymbolV;

    open spec fn view(&self) -> InterfaceSymbolV {
        InterfaceSymbolV {
            symbol: self.symbol@,
            visibility: self.visibility,
            ty: self.ty@,
            trust: self.trust,
            capabilities: self.capabilities.deep_view(),
            source_fingerprint: self.source_fingerprint@,
        }
    }
}

impl Clone for InterfaceSymbol {
    fn clone(&self) -> (r: Self)
        ensures
            r@ == self@,
    {
        InterfaceSymbol {
            symbol: self.symbol.clone(),
            visibility: self.visibility,
            ty: self.ty.clone(),
            trust: self.trust,
            capabilities: crate::passport::record::copy_strings(&self.capabilities),
            source_fingerprint: self.source_fingerprint.clone(),
        }
    }
}

/// The models of a sequence of interface symbols.
pub open spec fn symbols_view(s: Seq<InterfaceSymbol>) -> Seq<InterfaceSymbolV> {
    s.map_values(|x: InterfaceSymbol| x@)
}

/// A module's interface: its symbols sorted by name, and a fingerprint of them.
#[derive(Debug, PartialEq, Eq)]
pub struct ModuleInterface {
    pub module: String,
    pub symbols: Vec<InterfaceSymbol>,
    pub fingerprint: String,
}

pub struct ModuleInterfaceV {
    pub module: Seq<char>,
    pub symbols: Seq<InterfaceSymbolV>,
    pub fingerprint: Seq<char>,
}

impl View for ModuleInterface {
    type V = ModuleInterfaceV;

    open spec fn view(&self) -> ModuleInterfaceV {
        ModuleInterfaceV { module: self.module@, symbols: symbols_view(self.symbols@), fingerprint: self.fingerprint@ }
    }
}

/// The outcome of auditing one module's import of another's interface.
#[derive(Debug)]
pub struct ModuleImportAuditReport {
    pub importer: String,
    pub provider: String,
    pub requested_symbols: Vec<String>,
    pub resolved_symbols: Vec<InterfaceSymbol>,
    pub diagnostics: Vec<Diagnostic>,
    pub status: ModuleImportAuditStatus,
    pub interface_fingerprint: String,
    pub audit_fingerprint: String,
}

pub struct ModuleImportAuditReportV {
    pub importer: Seq<char>,
    pub provider: Seq<char>,
    pub requested_symbols: Seq<Seq<char>>,
    pub resolved_symbols: Seq<InterfaceSymbolV>,
    pub diagnostics: Seq<DiagnosticV>,
    pub status: ModuleImportAuditStatus,
    pub interface_fingerprint: Seq<char>,
    pub audit_fingerprint: Seq<char>,
}

impl View for ModuleImportAuditReport {
    type V = ModuleImportAuditReportV;

    open spec fn view(&self) -> ModuleImportAuditReportV {
        ModuleImportAuditReportV {
            importer: self.importer@,
            provider: self.provider@,
            requested_symbols: self.requested_symbols.deep_view(),
            resolved_symbols: symbols_view(self.resolved_symbols@),
            diagnostics: diagnostics_view(self.diagnostics@),
            status: self.status,
            interface_fingerprint: self.interface_fingerprint@,
            audit_fingerprint: self.audit_fingerprint@,
        }
    }
}

/// An error of the interface layer.
pub open spec fn interface_error_model(line: usize, message: Seq<char>, help: Seq<char>) -> DiagnosticV {
    error_with_help(DiagnosticKind::ModuleInterfaceError, line, message, help)
}

fn interface_error(line: usize, message: &str, help: &str) -> (r: Diagnostic)
    ensures
        r@ == interface_error_model(line, message@, help@),
{
    Diagnostic::error(DiagnosticKind::ModuleInterfaceError, Some(line), message).with_help(help)
}

/// The error for a blank name, if `value` is blank.
pub open spec fn interface_blank_error(value: Seq<char>, label: Seq<char>, line: usize) -> Option<DiagnosticV> {
    if all_ws(value) {
        Some(interface_error_model(
            line,
            label + " must not be empty"@,
            "module interface names are semantic identifiers, not display-only labels"@,
        ))
    } else {
        None
    }
}

fn require_non_empty(value: &str, label: &str, line: usize) -> (r: Result<(), Diagnostic>)
    ensures
        interface_blank_error(value@, label@, line) == (match r {
            Ok(()) => None::<DiagnosticV>,
            Err(d) => Some(d@),
        }),
{
    if is_blank(value) {
        let mut msg = String::from_str(label);
        msg.append(" must not be empty");
        Err(interface_error(line, msg.as_str(), "module interface names are semantic identifiers, not display-only labels"))
    } else {
        Ok(())
    }
}

/// The capabilities of interface objects.
pub open spec fn interface_caps() -> Set<Capability> {
    set![Capability::CanSymbolicPrint, Capability::CanInspectAst, Capability::CanMetaLevelReason]
}

fn interface_capabilities() -> (r: CapabilitySet)
    ensures
        r@ == interface_caps(),
{
    CapabilitySet::empty().with(Capability::CanSymbolicPrint).with(Capability::CanInspectAst).with(Capability::CanMetaLevelReason)
}

/// The parts an interface symbol's source fingerprint is taken over.
pub open spec fn symbol_source_parts(e: ExportDeclV, p: PassportV) -> Seq<Seq<char>> {
    seq![
        "interface_symbol"@,
        e.symbol,
        e.visibility.display_text(),
        type_text(p.ty),
        "trust="@ + p.trust.debug_text(),
        "provenance="@ + p.provenance.debug_text(),
        "validation="@ + p.validation.debug_text(),
        "caps="@ + join_text(names_of(p.capabilities), ","@),
    ]
}

/// The interface entry of an export whose source has passport `p`.
pub open spec fn interface_symbol_spec(e: ExportDeclV, p: PassportV) -> InterfaceSymbolV {
    InterfaceSymbolV {
        symbol: e.symbol,
        visibility: e.visibility,
        ty: type_text(p.ty),
        trust: p.trust,
        capabilities: names_of(p.capabilities),
        source_fingerprint: fingerprint_text(""@, symbol_source_parts(e, p)),
    }
}

fn capability_names(caps: &CapabilitySet) -> (r: Vec<String>)
    ensures
        r.deep_view() == names_of(caps@),
{
    let names = caps.names();
    let ghost nv = names.deep_view();
    let mut out: Vec<String> = Vec::new();
    let mut i: usize = 0;
    while i < names.len()
        invariant
            nv == names.deep_view(),
            nv == names_of(caps@),
            i <= names.len(),
            out.deep_view() =~= nv.take(i as int),
        decreases names.len() - i,
    {
        let ghost before = out.deep_view();
        out.push(String::from_str(names[i]));
        assert(out.deep_view() =~= before.push(nv[i as int]));
        assert(nv.take(i + 1) =~= nv.take(i as int).push(nv[i as int]));
        i = i + 1;
    }
    assert(nv.take(i as int) =~= nv);
    out
}

fn labelled(label: &str, value: &str) -> (r: String)
    ensures
        r@ == label@ + value@,
{
    let mut s = String::from_str(label);
    s.append(value);
    s
}

fn interface_symbol(export: &ExportDecl, source: &Passport) -> (r: InterfaceSymbol)
    ensures
        r@ == interface_symbol_spec(export@, source@),
{
    let capabilities = capability_names(&source.capabilities);
    let ty = source.ty.to_text();
    let mut parts: Vec<String> = Vec::new();
    parts.push(String::from_str("interface_symbol"));
    parts.push(export.symbol.clone());
    parts.push(String::from_str(export.visibility.display_str()));
    parts.push(ty.clone());
    parts.push(labelled("trust=", source.trust.debug_str()));
    parts.push(labelled("provenance=", source.provenance.debug_str()));
    parts.push(labelled("validation=", source.validation.debug_str()));
    parts.push(labelled("caps=", join_strings(&capabilities, ",").as_str()));
    assert(strings_view(parts@) =~= symbol_source_parts(export@, source@));
    let source_fingerprint = stable_fingerprint("", &parts);
    InterfaceSymbol {
        symbol: export.symbol.clone(),
        visibility: export.visibility,
        ty,
        trust: source.trust,
        capabilities,
        source_fingerprint,
    }
}

/// The symbols of an interface that are public, in order.
pub open spec fn public_names(s: Seq<InterfaceSymbolV>) -> Seq<Seq<char>>
    decreases s.len(),
{
    if s.len() == 0 {
        Seq::empty()
    } else {
        public_names(s.drop_last()) + if s.last().visibility == ExportVisibility::Public {
            seq![s.last().symbol]
        } else {
            Seq::<Seq<char>>::empty()
        }
    }
}

pub fn public_interface_symbols(interface: &ModuleInterface) -> (r: Vec<String>)
    ensures
        r.deep_view() == public_names(interface@.symbols),
{
    let ghost sv = interface@.symbols;
    let mut out: Vec<String> = Vec::new();
    let mut i: usize = 0;
    while i < interface.symbols.len()
        invariant
            sv == interface@.symbols,
            i <= interface.symbols.len(),
            out.deep_view() == public_names(sv.take(i as int)),
        decreases interface.symbols.len() - i,
    {
        assert(sv.take(i + 1).drop_last() =~= sv.take(i as int));
        assert(sv[i as int] == interface.symbols@[i as int]@);
        let ghost before = out.deep_view();
        if interface.symbols[i].visibility == ExportVisibility::Public {
            out.push(interface.symbols[i].symbol.clone());
            assert(out.deep_view() =~= before + seq![sv[i as int].symbol]);
        } else {
            assert(out.deep_view() =~= before + Seq::<Seq<char>>::empty());
        }
        i = i + 1;
    }
    assert(sv.take(i as int) =~= sv);
    out
}

/// The index of the first symbol named `symbol`, searching from `k`.
pub open spec fn find_symbol(s: Seq<InterfaceSymbolV>, symbol: Seq<char>, k: int) -> Option<int>
    decreases s.len() - k,
{
    if k < 0 || k >= s.len() {
        None
    } else if s[k].symbol == symbol {
        Some(k)
    } else {
        find_symbol(s, symbol, k + 1)
    }
}

/// What `require_interface_symbol` gives.
pub open spec fn require_interface_symbol_spec(iv: ModuleInterfaceV, symbol: Seq<char>, line: usize) -> Result<InterfaceSymbolV, DiagnosticV> {
    match find_symbol(iv.symbols, symbol, 0) {
        Some(i) => Ok(iv.symbols[i]),
        None => Err(interface_error_model(
            line,
            "module interface `"@ + iv.module + "` does not contain symbol `"@ + symbol + "`"@,
            "interfaces are frozen public/private contracts; stale or incomplete interfaces must not satisfy imports"@,
        )),
    }
}

pub fn require_interface_symbol(interface: &ModuleInterface, symbol: &str, line: usize) -> (r: Result<InterfaceSymbol, Diagnostic>)
    ensures
        require_interface_symbol_spec(interface@, symbol@, line) == (match r {
            Ok(s) => Ok::<InterfaceSymbolV, DiagnosticV>(s@),
            Err(d) => Err::<InterfaceSymbolV, DiagnosticV>(d@),
        }),
{
    let ghost sv = interface@.symbols;
    let mut i: usize = interface.symbols.len();
    let mut found: Option<usize> = None;
    while i > 0
        invariant
            sv == interface@.symbols,
            i <= interface.symbols.len(),
            found matches Some(j) ==> i <= j < interface.symbols.len() && find_symbol(sv, symbol@, i as int) == Some(j as int),
            found is None ==> find_symbol(sv, symbol@, i as int) is None,
        decreases i,
    {
        i = i - 1;
        assert(sv[i as int] == interface.symbols@[i as int]@);
        if str_eq(interface.symbols[i].symbol.as_str(), symbol) {
            found = Some(i);
        }
    }
    match found {
        Some(j) => {
            assert(sv[j as int] == interface.symbols@[j as int]@);
            Ok(interface.symbols[j].clone())
        },
        None => {
            let mut msg = String::from_str("module interface `");
            msg.append(interface.module.as_str());
            msg.append("` does not contain symbol `");
            msg.append(symbol);
            msg.append("`");
            Err(interface_error(
                line,
                msg.as_str(),
                "interfaces are frozen public/private contracts; stale or incomplete interfaces must not satisfy imports",
            ))
        },
    }
}

/// What `require_verified_module_import_audit` gives.
pub open spec fn require_verified_audit_spec(report: ModuleImportAuditReportV, line: usize) -> Option<DiagnosticV> {
    if report.status == ModuleImportAuditStatus::Verified {
        None
    } else {
        Some(interface_error_model(
            line,
            "module import audit for `"@ + report.importer + "` -> `"@ + report.provider + "` is rejected"@,
            "only verified import audits may be used as public interface evidence"@,
        ))
    }
}

pub fn require_verified_module_import_audit(report: &ModuleImportAuditReport, line: usize) -> (r: Result<(), Diagnostic>)
    ensures
        require_verified_audit_spec(report@, line) == (match r {
            Ok(()) => None::<DiagnosticV>,
            Err(d) => Some(d@),
        }),
{
    if report.status == ModuleImportAuditStatus::Verified {
        Ok(())
    } else {
        let mut msg = String::from_str("module import audit for `");
        msg.append(report.importer.as_str());
        msg.append("` -> `");
        msg.append(report.provider.as_str());
        msg.append("` is rejected");
        Err(interface_error(line, msg.as_str(), "only verified import audits may be used as public interface evidence"))
    }
}

/// The least trusted of the symbols' trust levels, or `Builtin` for none.
pub open spec fn symbols_max_trust(s: Seq<InterfaceSymbolV>) -> TrustLevel
    decreases s.len(),
{
    if s.len() == 0 {
        TrustLevel::Builtin
    } else if s.len() == 1 {
        s[0].trust
    } else {
        symbols_max_trust(s.drop_last()).higher(s.last().trust)
    }
}

/// The history event of an interface.
pub open spec fn interface_event(iv: ModuleInterfaceV) -> Seq<char> {
    "module:interface:"@ + iv.module + ":symbols="@ + dec_text(iv.symbols.len()) + ":fingerprint="@ + iv.fingerprint
}

/// What `module_interface_passport` gives.
pub open spec fn interface_passport_spec(theory: Seq<char>, iv: ModuleInterfaceV) -> PassportV {
    PassportV {
        ty: TypeKindV::ModuleInterface { module: iv.module },
        construction: ConstructionMode::Definable,
        capabilities: interface_caps(),
        cost: CostClass::SmallFinite,
        trust: symbols_max_trust(iv.symbols),
        provenance: Provenance::BuiltinKnown,
        validation: ValidationState::StaticChecked,
        theory: home_context(theory),
        history: seq![interface_event(iv)],
        location: LocationContext::Local,
    }
}

pub fn module_interface_passport(theory: &str, interface: &ModuleInterface) -> (r: Passport)
    ensures
        r@ == interface_passport_spec(theory@, interface@),
{
    let ghost sv = interface@.symbols;
    let mut trust = TrustLevel::Builtin;
    let mut i: usize = 0;
    while i < interface.symbols.len()
        invariant
            sv == interface@.symbols,
            i <= interface.symbols.len(),
            trust == symbols_max_trust(sv.take(i as int)),
        decreases interface.symbols.len() - i,
    {
        assert(sv.take(i + 1).drop_last() =~= sv.take(i as int));
        assert(sv[i as int] == interface.symbols@[i as int]@);
        if i == 0 {
            trust = interface.symbols[i].trust;
        } else {
            trust = trust.higher(interface.symbols[i].trust);
        }
        i = i + 1;
    }
    assert(sv.take(i as int) =~= sv);
    let mut ev = String::from_str("module:interface:");
    ev.append(interface.module.as_str());
    ev.append(":symbols=");
    ev.append(usize_text(interface.symbols.len()).as_str());
    ev.append(":fingerprint=");
    ev.append(interface.fingerprint.as_str());
    Passport {
        ty: TypeKind::ModuleInterface { module: interface.module.clone() },
        construction: ConstructionMode::Definable,
        capabilities: interface_capabilities(),
        cost: CostClass::SmallFinite,
        trust,
        provenance: Provenance::BuiltinKnown,
        validation: ValidationState::StaticChecked,
        theory: TheoryContext::new(theory),
        history: HistoryChain::from_event(ev.as_str()),
        location: LocationContext::local(),
    }
}

/// What `module_import_audit_passport` gives.
pub open spec fn audit_passport_spec(theory: Seq<char>, rv: ModuleImportAuditReportV) -> PassportV {
    PassportV {
        ty: TypeKindV::ModuleImportAudit { importer: rv.importer, provider: rv.provider, status: rv.status.display_text() },
        construction: ConstructionMode::Definable,
        capabilities: interface_caps(),
        cost: CostClass::SmallFinite,
        trust: TrustLevel::Builtin,
        provenance: Provenance::BuiltinKnown,
        validation: ValidationState::StaticChecked,
        theory: home_context(theory),
        history: seq![
            "module:import_audit:"@ + rv.importer + "->"@ + rv.provider + ":"@ + rv.status.display_text() + ":fingerprint="@
                + rv.audit_fingerprint,
        ],
        location: LocationContext::Local,
    }
}

pub fn module_import_audit_passport(theory: &str, report: &ModuleImportAuditReport) -> (r: Passport)
    ensures
        r@ == audit_passport_spec(theory@, report@),
{
    let mut ev = String::from_str("module:import_audit:");
    ev.append(report.importer.as_str());
    ev.append("->");
    ev.append(report.provider.as_str());
    ev.append(":");
    ev.append(report.status.display_str());
    ev.append(":fingerprint=");
    ev.append(report.audit_fingerprint.as_str());
    Passport {
        ty: TypeKind::ModuleImportAudit {
            importer: report.importer.clone(),
            provider: report.provider.clone(),
            status: String::from_str(report.status.display_str()),
        },
        construction: ConstructionMode::Definable,
        capabilities: interface_capabilities(),
        cost: CostClass::SmallFinite,
        trust: TrustLevel::Builtin,
        provenance: Provenance::BuiltinKnown,
        validation: ValidationState::StaticChecked,
        theory: TheoryContext::new(theory),
        history: HistoryChain::from_event(ev.as_str()),
        location: LocationContext::local(),
    }
}

/// The models of (export, source passport) pairs.
pub open spec fn sourced_exports_view(v: Seq<(ExportDecl, Passport)>) -> Seq<(ExportDeclV, PassportV)> {
    v.map_values(|p: (ExportDecl, Passport)| (p.0@, p.1@))
}

/// The error for entry `k`: a blank symbol, or one that an earlier entry has.
pub open spec fn interface_entry_error(module: Seq<char>, es: Seq<(ExportDeclV, PassportV)>, line: usize, k: int) -> Option<
    DiagnosticV,
> {
    let sym = es[k].0.symbol;
    if interface_blank_error(sym, "export symbol"@, line) is Some {
        interface_blank_error(sym, "export symbol"@, line)
    } else if exists|j: int| 0 <= j < k && #[trigger] es[j].0.symbol == sym {
        Some(interface_error_model(
            line,
            "duplicate interface symbol `"@ + sym + "` for module `"@ + module + "`"@,
            "a module interface must contain one canonical entry per exported symbol"@,
        ))
    } else {
        None
    }
}

/// The first entry error among the first `n` entries.
pub open spec fn interface_entries_error(module: Seq<char>, es: Seq<(ExportDeclV, PassportV)>, line: usize, n: int) -> Option<
    DiagnosticV,
>
    decreases n,
{
    if n <= 0 {
        None
    } else {
        match interface_entries_error(module, es, line, n - 1) {
            Some(d) => Some(d),
            None => interface_entry_error(module, es, line, n - 1),
        }
    }
}

/// The first problem with an interface's inputs: a blank module name, then the
/// entries in order.
pub open spec fn module_interface_error(module: Seq<char>, es: Seq<(ExportDeclV, PassportV)>, line: usize) -> Option<DiagnosticV> {
    if interface_blank_error(module, "module"@, line) is Some {
        interface_blank_error(module, "module"@, line)
    } else {
        interface_entries_error(module, es, line, es.len() as int)
    }
}

proof fn lemma_entries_error_stays(module: Seq<char>, es: Seq<(ExportDeclV, PassportV)>, line: usize, m: int, n: int)
    requires
        0 <= m <= n,
        interface_entries_error(module, es, line, m) is Some,
    ensures
        interface_entries_error(module, es, line, n) == interface_entries_error(module, es, line, m),
    decreases n - m,
{
    if m < n {
        lemma_entries_error_stays(module, es, line, m, n - 1);
    }
}

/// Symbol names strictly increase along `s`.
pub open spec fn symbols_sorted(s: Seq<InterfaceSymbolV>) -> bool {
    forall|i: int, j: int| 0 <= i < j < s.len() ==> text_lt(#[trigger] s[i].symbol, #[trigger] s[j].symbol)
}

/// What each symbol contributes to its interface's fingerprint.
pub open spec fn symbol_parts(s: Seq<InterfaceSymbolV>) -> Seq<Seq<char>>
    decreases s.len(),
{
    if s.len() == 0 {
        Seq::empty()
    } else {
        let x = s.last();
        symbol_parts(s.drop_last()) + seq![
            x.symbol,
            x.visibility.display_text(),
            x.ty,
            x.trust.debug_text(),
            join_text(x.capabilities, ","@),
            x.source_fingerprint,
        ]
    }
}

/// The fingerprint of an interface of `module` with symbols `s`.
pub open spec fn interface_fingerprint_text(module: Seq<char>, s: Seq<InterfaceSymbolV>) -> Seq<char> {
    fingerprint_text(""@, seq!["module_interface"@, module] + symbol_parts(s))
}

/// `iv` is the interface of `module` over entries `es`: one symbol per entry,
/// sorted by name, with the fingerprint of that order.
pub open spec fn is_interface_of(iv: ModuleInterfaceV, module: Seq<char>, es: Seq<(ExportDeclV, PassportV)>) -> bool {
    &&& iv.module == module
    &&& iv.symbols.len() == es.len()
    &&& symbols_sorted(iv.symbols)
    &&& forall|k: int| 0 <= k < es.len() ==> iv.symbols.contains(#[trigger] interface_symbol_spec(es[k].0, es[k].1))
    &&& forall|x: InterfaceSymbolV|
        #![trigger iv.symbols.contains(x)]
        iv.symbols.contains(x) ==> exists|k: int| 0 <= k < es.len() && x == #[trigger] interface_symbol_spec(es[k].0, es[k].1)
    &&& iv.fingerprint == interface_fingerprint_text(module, iv.symbols)
}

fn check_interface_entry(module: &str, exports: &Vec<(ExportDecl, Passport)>, line: usize, k: usize) -> (r: Result<(), Diagnostic>)
    requires
        k < exports.len(),
    ensures
        interface_entry_error(module@, sourced_exports_view(exports@), line, k as int) == (match r {
            Ok(()) => None::<DiagnosticV>,
            Err(d) => Some(d@),
        }),
{
    let ghost ev = sourced_exports_view(exports@);
    assert(ev[k as int].0 == exports@[k as int].0@);
    let sym = exports[k].0.symbol.as_str();
    match require_non_empty(sym, "export symbol", line) {
        Err(d) => return Err(d),
        Ok(()) => {},
    }
    let mut j: usize = 0;
    while j < k
        invariant
            ev == sourced_exports_view(exports@),
            j <= k < exports.len(),
            ev[k as int].0.symbol == sym@,
            !all_ws(sym@),
            forall|m: int| 0 <= m < j ==> #[trigger] ev[m].0.symbol != sym@,
        decreases k - j,
    {
        assert(ev[j as int].0 == exports@[j as int].0@);
        if str_eq(exports[j].0.symbol.as_str(), sym) {
            assert(ev[j as int].0.symbol == sym@);
            let mut msg = String::from_str("duplicate interface symbol `");
            msg.append(sym);
            msg.append("` for module `");
            msg.append(module);
            msg.append("`");
            return Err(interface_error(line, msg.as_str(), "a module interface must contain one canonical entry per exported symbol"));
        }
        j = j + 1;
    }
    Ok(())
}

proof fn lemma_insert_symbol(s: Seq<InterfaceSymbolV>, p: int, xv: InterfaceSymbolV)
    requires
        symbols_sorted(s),
        0 <= p <= s.len(),
        forall|m: int| 0 <= m < s.len() ==> (#[trigger] s[m]).symbol != xv.symbol,
        forall|m: int| 0 <= m < p ==> !text_lt(xv.symbol, #[trigger] s[m].symbol),
        p < s.len() ==> text_lt(xv.symbol, s[p].symbol),
    ensures
        symbols_sorted(s.insert(p, xv)),
        forall|y: InterfaceSymbolV| #[trigger] s.insert(p, xv).contains(y) <==> (s.contains(y) || y == xv),
{
    let t = s.insert(p, xv);
    s.insert_ensures(p, xv);
    assert forall|m: int| 0 <= m < p implies text_lt(#[trigger] s[m].symbol, xv.symbol) by {
        lemma_text_lt_total(s[m].symbol, xv.symbol);
    }
    assert forall|m: int| p <= m < s.len() implies text_lt(xv.symbol, #[trigger] s[m].symbol) by {
        if m > p {
            lemma_text_lt_transitive(xv.symbol, s[p].symbol, s[m].symbol);
        }
    }
    assert forall|i: int, j: int| 0 <= i < j < t.len() implies text_lt(#[trigger] t[i].symbol, #[trigger] t[j].symbol) by {
        if j < p {
            assert(t[i] == s[i] && t[j] == s[j]);
        } else if j == p {
            assert(t[i] == s[i]);
        } else if i < p {
            assert(t[i] == s[i] && t[j] == s[j - 1]);
            lemma_text_lt_transitive(s[i].symbol, xv.symbol, s[j - 1].symbol);
        } else if i == p {
            assert(t[j] == s[j - 1]);
        } else {
            assert(t[i] == s[i - 1] && t[j] == s[j - 1]);
        }
    }
    assert forall|y: InterfaceSymbolV| #[trigger] t.contains(y) <==> (s.contains(y) || y == xv) by {
        if t.contains(y) {
            let k = choose|k: int| 0 <= k < t.len() && t[k] == y;
            if k < p {
                assert(s[k] == y);
            } else if k > p {
                assert(s[k - 1] == y);
            }
        }
        if s.contains(y) {
            let k = choose|k: int| 0 <= k < s.len() && s[k] == y;
            if k < p {
                assert(t[k] == y);
            } else {
                assert(t[k + 1] == y);
            }
        }
        if y == xv {
            assert(t[p] == y);
        }
    }
}

fn insert_sorted(out: &mut Vec<InterfaceSymbol>, x: InterfaceSymbol)
    requires
        symbols_sorted(symbols_view(old(out)@)),
        forall|m: int| 0 <= m < old(out).len() ==> (#[trigger] symbols_view(old(out)@)[m]).symbol != x@.symbol,
    ensures
        symbols_sorted(symbols_view(final(out)@)),
        symbols_view(final(out)@).len() == symbols_view(old(out)@).len() + 1,
        forall|y: InterfaceSymbolV| #[trigger]
            symbols_view(final(out)@).contains(y) <==> (symbols_view(old(out)@).contains(y) || y == x@),
{
    let ghost s = symbols_view(out@);
    let ghost xv = x@;
    let mut p: usize = 0;
    while p < out.len()
        invariant
            s == symbols_view(out@),
            xv == x@,
            p <= out.len(),
            forall|m: int| 0 <= m < p ==> !text_lt(xv.symbol, #[trigger] s[m].symbol),
        ensures
            p < out.len() ==> text_lt(xv.symbol, s[p as int].symbol),
        decreases out.len() - p,
    {
        assert(s[p as int] == out@[p as int]@);
        if name_lt(x.symbol.as_str(), out[p].symbol.as_str()) {
            break;
        }
        p = p + 1;
    }
    out.insert(p, x);
    assert(symbols_view(out@) =~= s.insert(p as int, xv));
    proof {
        lemma_insert_symbol(s, p as int, xv);
    }
}

fn push_symbol_parts(parts: &mut Vec<String>, symbols: &Vec<InterfaceSymbol>)
    ensures
        strings_view(final(parts)@) == strings_view(old(parts)@) + symbol_parts(symbols_view(symbols@)),
{
    let ghost head = strings_view(parts@);
    let ghost sv = symbols_view(symbols@);
    let mut k: usize = 0;
    assert(symbol_parts(sv.take(0)) =~= Seq::<Seq<char>>::empty());
    while k < symbols.len()
        invariant
            sv == symbols_view(symbols@),
            k <= symbols.len(),
            strings_view(parts@) =~= head + symbol_parts(sv.take(k as int)),
        decreases symbols.len() - k,
    {
        assert(sv.take(k + 1).drop_last() =~= sv.take(k as int));
        assert(sv[k as int] == symbols@[k as int]@);
        let x = &symbols[k];
        let ghost before = strings_view(parts@);
        parts.push(x.symbol.clone());
        parts.push(String::from_str(x.visibility.display_str()));
        parts.push(x.ty.clone());
        parts.push(String::from_str(x.trust.debug_str()));
        parts.push(join_strings(&x.capabilities, ","));
        parts.push(x.source_fingerprint.clone());
        assert(strings_view(parts@) =~= before + seq![
            sv[k as int].symbol,
            sv[k as int].visibility.display_text(),
            sv[k as int].ty,
            sv[k as int].trust.debug_text(),
            join_text(sv[k as int].capabilities, ","@),
            sv[k as int].source_fingerprint,
        ]);
        k = k + 1;
    }
    assert(sv.take(k as int) =~= sv);
}

fn interface_fingerprint(module: &str, symbols: &Vec<InterfaceSymbol>) -> (r: String)
    ensures
        r@ == interface_fingerprint_text(module@, symbols_view(symbols@)),
{
    let mut parts: Vec<String> = Vec::new();
    parts.push(String::from_str("module_interface"));
    parts.push(String::from_str(module));
    push_symbol_parts(&mut parts, symbols);
    assert(strings_view(parts@) =~= seq!["module_interface"@, module@] + symbol_parts(symbols_view(symbols@)));
    stable_fingerprint("", &parts)
}

pub fn module_interface(module: &str, exports: Vec<(ExportDecl, Passport)>, line: usize) -> (r: Result<ModuleInterface, Diagnostic>)
    ensures
        match r {
            Ok(iv) => module_interface_error(module@, sourced_exports_view(exports@), line) is None && is_interface_of(
                iv@,
                module@,
                sourced_exports_view(exports@),
            ),
            Err(d) => module_interface_error(module@, sourced_exports_view(exports@), line) == Some(d@),
        },
{
    match require_non_empty(module, "module", line) {
        Err(d) => return Err(d),
        Ok(()) => {},
    }
    let ghost es = sourced_exports_view(exports@);
    let mut out: Vec<InterfaceSymbol> = Vec::new();
    let mut k: usize = 0;
    while k < exports.len()
        invariant
            es == sourced_exports_view(exports@),
            k <= exports.len(),
            interface_blank_error(module@, "module"@, line) is None,
            interface_entries_error(module@, es, line, k as int) is None,
            symbols_sorted(symbols_view(out@)),
            symbols_view(out@).len() == k,
            forall|m: int| 0 <= m < k ==> symbols_view(out@).contains(#[trigger] interface_symbol_spec(es[m].0, es[m].1)),
            forall|y: InterfaceSymbolV|
                #![trigger symbols_view(out@).contains(y)]
                symbols_view(out@).contains(y) ==> exists|m: int| 0 <= m < k && y == #[trigger] interface_symbol_spec(es[m].0, es[m].1),
        decreases exports.len() - k,
    {
        match check_interface_entry(module, &exports, line, k) {
            Err(d) => {
                proof {
                    assert(interface_entries_error(module@, es, line, k + 1) == Some(d@));
                    lemma_entries_error_stays(module@, es, line, k + 1, es.len() as int);
                }
                return Err(d);
            },
            Ok(()) => {},
        }
        assert(es[k as int] == (exports@[k as int].0@, exports@[k as int].1@));
        let x = interface_symbol(&exports[k].0, &exports[k].1);
        let ghost s = symbols_view(out@);
        proof {
            assert forall|m: int| 0 <= m < out.len() implies (#[trigger] symbols_view(out@)[m]).symbol != x@.symbol by {
                assert(s.contains(s[m]));
                let j = choose|j: int| 0 <= j < k && s[m] == #[trigger] interface_symbol_spec(es[j].0, es[j].1);
                assert(es[j].0.symbol != es[k as int].0.symbol);
            }
        }
        insert_sorted(&mut out, x);
        proof {
            let t = symbols_view(out@);
            assert forall|m: int| 0 <= m < k + 1 implies t.contains(#[trigger] interface_symbol_spec(es[m].0, es[m].1)) by {
                if m < k {
                    assert(s.contains(interface_symbol_spec(es[m].0, es[m].1)));
                }
            }
            assert forall|y: InterfaceSymbolV| #![trigger t.contains(y)] t.contains(y) implies exists|m: int|
                0 <= m < k + 1 && y == #[trigger] interface_symbol_spec(es[m].0, es[m].1) by {
                if s.contains(y) {
                    let m = choose|m: int| 0 <= m < k && y == #[trigger] interface_symbol_spec(es[m].0, es[m].1);
                    assert(0 <= m < k + 1 && y == interface_symbol_spec(es[m].0, es[m].1));
                } else {
                    assert(y == interface_symbol_spec(es[k as int].0, es[k as int].1));
                }
            }
        }
        k = k + 1;
    }
    let fingerprint = interface_fingerprint(module, &out);
    Ok(ModuleInterface { module: String::from_str(module), symbols: out, fingerprint })
}

/// Whether the graph has an edge from `from` to `to`.
pub open spec fn has_edge(g: ImportGraphV, from: Seq<char>, to: Seq<char>) -> bool {
    exists|k: int| 0 <= k < g.edges.len() && #[trigger] g.edges[k].from == from && g.edges[k].to == to
}

/// The diagnostics about the audit's modules, before any symbol is checked:
/// an interface of another module, a missing importer or provider, and a
/// missing import edge between them.
pub open spec fn audit_head_diags(g: ImportGraphV, importer: Seq<char>, provider: Seq<char>, iv: ModuleInterfaceV, line: usize) -> Seq<
    DiagnosticV,
> {
    let has_importer = find_module(g.modules, importer, 0) is Some;
    let has_provider = find_module(g.modules, provider, 0) is Some;
    let d1 = if iv.module != provider {
        seq![interface_error_model(
            line,
            "interface module `"@ + iv.module + "` does not match provider `"@ + provider + "`"@,
            "an import audit must bind the exact provider interface, not a neighboring module contract"@,
        )]
    } else {
        Seq::empty()
    };
    let d2 = if !has_importer {
        seq![interface_error_model(
            line,
            "importer module `"@ + importer + "` is missing from the import graph"@,
            "import audits require a resolved import graph before interface checks"@,
        )]
    } else {
        Seq::empty()
    };
    let d3 = if !has_provider {
        seq![interface_error_model(
            line,
            "provider module `"@ + provider + "` is missing from the import graph"@,
            "import audits require a resolved provider manifest before interface checks"@,
        )]
    } else {
        Seq::empty()
    };
    let d4 = if has_importer && has_provider && !has_edge(g, importer, provider) {
        seq![interface_error_model(
            line,
            "module `"@ + importer + "` does not import provider `"@ + provider + "`"@,
            "public interface symbols cannot be used without an explicit import edge"@,
        )]
    } else {
        Seq::empty()
    };
    d1 + d2 + d3 + d4
}

/// What checking one requested symbol gives: its public interface entry, or
/// the diagnostic that rejects it.
pub open spec fn audit_symbol_spec(g: ImportGraphV, iv: ModuleInterfaceV, provider: Seq<char>, symbol: Seq<char>, line: usize) -> Result<
    InterfaceSymbolV,
    DiagnosticV,
> {
    if all_ws(symbol) {
        Err(interface_error_model(
            line,
            "required import symbol must not be empty"@,
            "import requirements are semantic names, not display placeholders"@,
        ))
    } else {
        match require_public_export_spec(g, provider, symbol, line) {
            Err(d) => Err(d),
            Ok(_) => match require_interface_symbol_spec(iv, symbol, line) {
                Err(d) => Err(d),
                Ok(x) => if x.visibility == ExportVisibility::Public {
                    Ok(x)
                } else {
                    Err(interface_error_model(
                        line,
                        "interface symbol `"@ + x.symbol + "` from module `"@ + provider + "` is "@ + x.visibility.display_text()
                            + ", not public"@,
                        "private interface entries are audit data only and must not cross module boundaries"@,
                    ))
                },
            },
        }
    }
}

/// The entries resolved for the first `n` requested symbols.
pub open spec fn audit_resolved(g: ImportGraphV, iv: ModuleInterfaceV, provider: Seq<char>, req: Seq<Seq<char>>, line: usize, n: int) -> Seq<
    InterfaceSymbolV,
>
    decreases n,
{
    if n <= 0 {
        Seq::empty()
    } else {
        audit_resolved(g, iv, provider, req, line, n - 1) + match audit_symbol_spec(g, iv, provider, req[n - 1], line) {
            Ok(x) => seq![x],
            Err(_) => Seq::<InterfaceSymbolV>::empty(),
        }
    }
}

/// The diagnostics for the first `n` requested symbols.
pub open spec fn audit_symbol_diags(g: ImportGraphV, iv: ModuleInterfaceV, provider: Seq<char>, req: Seq<Seq<char>>, line: usize, n: int) -> Seq<
    DiagnosticV,
>
    decreases n,
{
    if n <= 0 {
        Seq::empty()
    } else {
        audit_symbol_diags(g, iv, provider, req, line, n - 1) + match audit_symbol_spec(g, iv, provider, req[n - 1], line) {
            Ok(_) => Seq::<DiagnosticV>::empty(),
            Err(d) => seq![d],
        }
    }
}

/// What each resolved entry contributes to an audit fingerprint.
pub open spec fn resolved_parts(s: Seq<InterfaceSymbolV>) -> Seq<Seq<char>>
    decreases s.len(),
{
    if s.len() == 0 {
        Seq::empty()
    } else {
        resolved_parts(s.drop_last()) + seq![s.last().symbol, s.last().source_fingerprint]
    }
}

/// What each diagnostic contributes to an audit fingerprint.
pub open spec fn diag_parts(ds: Seq<DiagnosticV>) -> Seq<Seq<char>>
    decreases ds.len(),
{
    if ds.len() == 0 {
        Seq::empty()
    } else {
        diag_parts(ds.drop_last()) + seq![ds.last().kind.debug_text(), ds.last().message]
    }
}

/// The parts an audit fingerprint is taken over.
pub open spec fn audit_parts(
    importer: Seq<char>,
    provider: Seq<char>,
    status: ModuleImportAuditStatus,
    interface_fingerprint: Seq<char>,
    req: Seq<Seq<char>>,
    resolved: Seq<InterfaceSymbolV>,
    ds: Seq<DiagnosticV>,
) -> Seq<Seq<char>> {
    seq!["module_import_audit"@, importer, provider, status.display_text(), interface_fingerprint] + req + resolved_parts(resolved)
        + diag_parts(ds)
}

/// What `audit_module_import` gives: every diagnostic found, the entries that
/// resolved, and the audit verified exactly when there is no diagnostic.
pub open spec fn audit_module_import_spec(
    g: ImportGraphV,
    importer: Seq<char>,
    provider: Seq<char>,
    req: Seq<Seq<char>>,
    iv: ModuleInterfaceV,
    line: usize,
) -> ModuleImportAuditReportV {
    let resolved = audit_resolved(g, iv, provider, req, line, req.len() as int);
    let ds = audit_head_diags(g, importer, provider, iv, line) + audit_symbol_diags(g, iv, provider, req, line, req.len() as int);
    let status = if ds.len() == 0 {
        ModuleImportAuditStatus::Verified
    } else {
        ModuleImportAuditStatus::Rejected
    };
    ModuleImportAuditReportV {
        importer,
        provider,
        requested_symbols: req,
        resolved_symbols: resolved,
        diagnostics: ds,
        status,
        interface_fingerprint: iv.fingerprint,
        audit_fingerprint: fingerprint_text(""@, audit_parts(importer, provider, status, iv.fingerprint, req, resolved, ds)),
    }
}

fn check_audit_symbol(graph: &ImportGraph, interface: &ModuleInterface, provider: &str, symbol: &str, line: usize) -> (r: Result<
    InterfaceSymbol,
    Diagnostic,
>)
    ensures
        audit_symbol_spec(graph@, interface@, provider@, symbol@, line) == (match r {
            Ok(x) => Ok::<InterfaceSymbolV, DiagnosticV>(x@),
            Err(d) => Err::<InterfaceSymbolV, DiagnosticV>(d@),
        }),
{
    if is_blank(symbol) {
        return Err(interface_error(line, "required import symbol must not be empty", "import requirements are semantic names, not display placeholders"));
    }
    match require_public_export(graph, provider, symbol, line) {
        Err(d) => return Err(d),
        Ok(_) => {},
    }
    match require_interface_symbol(interface, symbol, line) {
        Err(d) => Err(d),
        Ok(x) => {
            if x.visibility == ExportVisibility::Public {
                Ok(x)
            } else {
                let mut msg = String::from_str("interface symbol `");
                msg.append(x.symbol.as_str());
                msg.append("` from module `");
                msg.append(provider);
                msg.append("` is ");
                msg.append(x.visibility.display_str());
                msg.append(", not public");
                Err(interface_error(line, msg.as_str(), "private interface entries are audit data only and must not cross module boundaries"))
            }
        },
    }
}

fn graph_has_edge(graph: &ImportGraph, from: &str, to: &str) -> (r: bool)
    ensures
        r == has_edge(graph@, from@, to@),
{
    let ghost gv = graph@;
    let mut k: usize = 0;
    while k < graph.edges.len()
        invariant
            gv == graph@,
            k <= graph.edges.len(),
            forall|m: int| 0 <= m < k ==> !(#[trigger] gv.edges[m].from == from@ && gv.edges[m].to == to@),
        decreases graph.edges.len() - k,
    {
        assert(gv.edges[k as int] == graph.edges@[k as int]@);
        if str_eq(graph.edges[k].from.as_str(), from) && str_eq(graph.edges[k].to.as_str(), to) {
            assert(gv.edges[k as int].from == from@ && gv.edges[k as int].to == to@);
            return true;
        }
        k = k + 1;
    }
    false
}

fn push_diag(ds: &mut Vec<Diagnostic>, d: Diagnostic)
    ensures
        diagnostics_view(final(ds)@) == diagnostics_view(old(ds)@).push(d@),
{
    ds.push(d);
    assert(diagnostics_view(ds@) =~= diagnostics_view(old(ds)@).push(d@));
}

fn audit_head(graph: &ImportGraph, importer: &str, provider: &str, interface: &ModuleInterface, line: usize) -> (r: Vec<Diagnostic>)
    ensures
        diagnostics_view(r@) == audit_head_diags(graph@, importer@, provider@, interface@, line),
{
    let mut ds: Vec<Diagnostic> = Vec::new();
    assert(diagnostics_view(ds@) =~= Seq::<DiagnosticV>::empty());
    if !str_eq(interface.module.as_str(), provider) {
        let mut msg = String::from_str("interface module `");
        msg.append(interface.module.as_str());
        msg.append("` does not match provider `");
        msg.append(provider);
        msg.append("`");
        push_diag(&mut ds, interface_error(line, msg.as_str(), "an import audit must bind the exact provider interface, not a neighboring module contract"));
    }
    let ghost d1 = diagnostics_view(ds@);
    let has_importer = find_module_index(&graph.modules, importer).is_some();
    let has_provider = find_module_index(&graph.modules, provider).is_some();
    if !has_importer {
        let mut msg = String::from_str("importer module `");
        msg.append(importer);
        msg.append("` is missing from the import graph");
        push_diag(&mut ds, interface_error(line, msg.as_str(), "import audits require a resolved import graph before interface checks"));
    }
    let ghost d2 = diagnostics_view(ds@);
    if !has_provider {
        let mut msg = String::from_str("provider module `");
        msg.append(provider);
        msg.append("` is missing from the import graph");
        push_diag(&mut ds, interface_error(line, msg.as_str(), "import audits require a resolved provider manifest before interface checks"));
    }
    let ghost d3 = diagnostics_view(ds@);
    if has_importer && has_provider && !graph_has_edge(graph, importer, provider) {
        let mut msg = String::from_str("module `");
        msg.append(importer);
        msg.append("` does not import provider `");
        msg.append(provider);
        msg.append("`");
        push_diag(&mut ds, interface_error(line, msg.as_str(), "public interface symbols cannot be used without an explicit import edge"));
    }
    assert(diagnostics_view(ds@) =~= audit_head_diags(graph@, importer@, provider@, interface@, line));
    ds
}

fn push_resolved_parts(parts: &mut Vec<String>, symbols: &Vec<InterfaceSymbol>)
    ensures
        strings_view(final(parts)@) == strings_view(old(parts)@) + resolved_parts(symbols_view(symbols@)),
{
    let ghost head = strings_view(parts@);
    let ghost sv = symbols_view(symbols@);
    let mut k: usize = 0;
    assert(resolved_parts(sv.take(0)) =~= Seq::<Seq<char>>::empty());
    while k < symbols.len()
        invariant
            sv == symbols_view(symbols@),
            k <= symbols.len(),
            strings_view(parts@) =~= head + resolved_parts(sv.take(k as int)),
        decreases symbols.len() - k,
    {
        assert(sv.take(k + 1).drop_last() =~= sv.take(k as int));
        assert(sv[k as int] == symbols@[k as int]@);
        let ghost before = strings_view(parts@);
        parts.push(symbols[k].symbol.clone());
        parts.push(symbols[k].source_fingerprint.clone());
        assert(strings_view(parts@) =~= before + seq![sv[k as int].symbol, sv[k as int].source_fingerprint]);
        k = k + 1;
    }
    assert(sv.take(k as int) =~= sv);
}

fn push_diag_parts(parts: &mut Vec<String>, diagnostics: &Vec<Diagnostic>)
    ensures
        strings_view(final(parts)@) == strings_view(old(parts)@) + diag_parts(diagnostics_view(diagnostics@)),
{
    let ghost head = strings_view(parts@);
    let ghost dv = diagnostics_view(diagnostics@);
    let mut k: usize = 0;
    assert(diag_parts(dv.take(0)) =~= Seq::<Seq<char>>::empty());
    while k < diagnostics.len()
        invariant
            dv == diagnostics_view(diagnostics@),
            k <= diagnostics.len(),
            strings_view(parts@) =~= head + diag_parts(dv.take(k as int)),
        decreases diagnostics.len() - k,
    {
        assert(dv.take(k + 1).drop_last() =~= dv.take(k as int));
        assert(dv[k as int] == diagnostics@[k as int]@);
        let ghost before = strings_view(parts@);
        parts.push(String::from_str(diagnostics[k].kind.debug_str()));
        parts.push(diagnostics[k].message.clone());
        assert(strings_view(parts@) =~= before + seq![dv[k as int].kind.debug_text(), dv[k as int].message]);
        k = k + 1;
    }
    assert(dv.take(k as int) =~= dv);
}

fn push_strings(parts: &mut Vec<String>, more: &Vec<String>)
    ensures
        strings_view(final(parts)@) == strings_view(old(parts)@) + more.deep_view(),
{
    let ghost head = strings_view(parts@);
    let ghost mv = more.deep_view();
    let mut k: usize = 0;
    while k < more.len()
        invariant
            mv == more.deep_view(),
            k <= more.len(),
            strings_view(parts@) =~= head + mv.take(k as int),
        decreases more.len() - k,
    {
        let ghost before = strings_view(parts@);
        parts.push(more[k].clone());
        assert(strings_view(parts@) =~= before.push(mv[k as int]));
        assert(mv.take(k + 1) =~= mv.take(k as int).push(mv[k as int]));
        k = k + 1;
    }
    assert(mv.take(k as int) =~= mv);
}

pub fn audit_module_import(
    graph: &ImportGraph,
    importer: &str,
    provider: &str,
    required_symbols: Vec<String>,
    interface: &ModuleInterface,
    line: usize,
) -> (r: ModuleImportAuditReport)
    ensures
        r@ == audit_module_import_spec(graph@, importer@, provider@, required_symbols.deep_view(), interface@, line),
{
    let ghost gv = graph@;
    let ghost iv = interface@;
    let ghost req = required_symbols.deep_view();
    let mut diagnostics = audit_head(graph, importer, provider, interface, line);
    let ghost head = diagnostics_view(diagnostics@);
    let mut resolved: Vec<InterfaceSymbol> = Vec::new();
    let mut k: usize = 0;
    assert(symbols_view(resolved@) =~= Seq::<InterfaceSymbolV>::empty());
    assert(diagnostics_view(diagnostics@) =~= head + Seq::<DiagnosticV>::empty());
    while k < required_symbols.len()
        invariant
            gv == graph@,
            iv == interface@,
            req == required_symbols.deep_view(),
            head == audit_head_diags(gv, importer@, provider@, iv, line),
            k <= required_symbols.len(),
            symbols_view(resolved@) == audit_resolved(gv, iv, provider@, req, line, k as int),
            diagnostics_view(diagnostics@) == head + audit_symbol_diags(gv, iv, provider@, req, line, k as int),
        decreases required_symbols.len() - k,
    {
        let ghost rb = symbols_view(resolved@);
        let ghost db = diagnostics_view(diagnostics@);
        match check_audit_symbol(graph, interface, provider, required_symbols[k].as_str(), line) {
            Ok(x) => {
                resolved.push(x);
                assert(symbols_view(resolved@) =~= rb + seq![x@]);
                assert(diagnostics_view(diagnostics@) =~= db + Seq::<DiagnosticV>::empty());
            },
            Err(d) => {
                push_diag(&mut diagnostics, d);
                assert(symbols_view(resolved@) =~= rb + Seq::<InterfaceSymbolV>::empty());
                assert(diagnostics_view(diagnostics@) =~= head + (audit_symbol_diags(gv, iv, provider@, req, line, k as int) + seq![d@]));
            },
        }
        k = k + 1;
    }
    let status = if diagnostics.len() == 0 {
        ModuleImportAuditStatus::Verified
    } else {
        ModuleImportAuditStatus::Rejected
    };
    let mut parts: Vec<String> = Vec::new();
    parts.push(String::from_str("module_import_audit"));
    parts.push(String::from_str(importer));
    parts.push(String::from_str(provider));
    parts.push(String::from_str(status.display_str()));
    parts.push(interface.fingerprint.clone());
    push_strings(&mut parts, &required_symbols);
    push_resolved_parts(&mut parts, &resolved);
    push_diag_parts(&mut parts, &diagnostics);
    assert(strings_view(parts@) =~= audit_parts(
        importer@,
        provider@,
        status,
        iv.fingerprint,
        req,
        symbols_view(resolved@),
        diagnostics_view(diagnostics@),
    ));
    let audit_fingerprint = stable_fingerprint("", &parts);
    ModuleImportAuditReport {
        importer: String::from_str(importer),
        provider: String::from_str(provider),
        requested_symbols: required_symbols,
        resolved_symbols: resolved,
        diagnostics,
        status,
        interface_fingerprint: interface.fingerprint.clone(),
        audit_fingerprint,
    }
}

/// The line of an interface listing for one symbol.
pub open spec fn interface_symbol_line(x: InterfaceSymbolV) -> Seq<char> {
    "  - "@ + x.symbol + " ["@ + x.visibility.display_text() + "] type="@ + x.ty + " trust="@ + x.trust.debug_text() + " caps={"@
        + join_text(x.capabilities, ", "@) + "} source="@ + x.source_fingerprint + "\n"@
}

/// The lines of an interface listing for its symbols.
pub open spec fn interface_symbol_lines(s: Seq<InterfaceSymbolV>) -> Seq<char>
    decreases s.len(),
{
    if s.len() == 0 {
        Seq::empty()
    } else {
        interface_symbol_lines(s.drop_last()) + interface_symbol_line(s.last())
    }
}

/// The text listing of an interface.
pub open spec fn interface_text(iv: ModuleInterfaceV) -> Seq<char> {
    "DLM module interface\n"@ + "module: "@ + iv.module + "\n"@ + "fingerprint: "@ + iv.fingerprint + "\n"@ + "symbols:\n"@
        + interface_symbol_lines(iv.symbols)
}

#[verifier::rlimit(40)]
pub fn export_module_interface_text(interface: &ModuleInterface) -> (r: String)
    ensures
        r@ == interface_text(interface@),
{
    let ghost sv = interface@.symbols;
    let mut out = String::from_str("DLM module interface\n");
    out.append("module: ");
    out.append(interface.module.as_str());
    out.append("\n");
    out.append("fingerprint: ");
    out.append(interface.fingerprint.as_str());
    out.append("\n");
    out.append("symbols:\n");
    let ghost head = out@;
    let mut k: usize = 0;
    assert(interface_symbol_lines(sv.take(0)) =~= Seq::<char>::empty());
    while k < interface.symbols.len()
        invariant
            sv == interface@.symbols,
            k <= interface.symbols.len(),
            out@ =~= head + interface_symbol_lines(sv.take(k as int)),
        decreases interface.symbols.len() - k,
    {
        assert(sv.take(k + 1).drop_last() =~= sv.take(k as int));
        assert(sv[k as int] == interface.symbols@[k as int]@);
        let x = &interface.symbols[k];
        out.append("  - ");
        out.append(x.symbol.as_str());
        out.append(" [");
        out.append(x.visibility.display_str());
        out.append("] type=");
        out.append(x.ty.as_str());
        out.append(" trust=");
        out.append(x.trust.debug_str());
        out.append(" caps={");
        out.append(join_strings(&x.capabilities, ", ").as_str());
        out.append("} source=");
        out.append(x.source_fingerprint.as_str());
        out.append("\n");
        k = k + 1;
    }
    assert(sv.take(k as int) =~= sv);
    out
}

/// The line of an audit report for one resolved symbol.
pub open spec fn resolved_line(x: InterfaceSymbolV) -> Seq<char> {
    "  - "@ + x.symbol + " ["@ + x.visibility.display_text() + "] "@ + x.ty + "\n"@
}

/// The lines of an audit report for its resolved symbols.
pub open spec fn resolved_lines(s: Seq<InterfaceSymbolV>) -> Seq<char>
    decreases s.len(),
{
    if s.len() == 0 {
        Seq::empty()
    } else {
        resolved_lines(s.drop_last()) + resolved_line(s.last())
    }
}

/// The lines of an audit report for its diagnostics.
pub open spec fn diagnostic_lines(ds: Seq<DiagnosticV>) -> Seq<char>
    decreases ds.len(),
{
    if ds.len() == 0 {
        Seq::empty()
    } else {
        diagnostic_lines(ds.drop_last()) + "  - "@ + ds.last().message + "\n"@
    }
}

/// The text of an audit report.
pub open spec fn audit_report_text(rv: ModuleImportAuditReportV) -> Seq<char> {
    "DLM module import audit\n"@ + "importer: "@ + rv.importer + "\n"@ + "provider: "@ + rv.provider + "\n"@ + "status: "@
        + rv.status.display_text() + "\n"@ + "interface_fingerprint: "@ + rv.interface_fingerprint + "\n"@ + "audit_fingerprint: "@
        + rv.audit_fingerprint + "\n"@ + "requested: "@ + join_text(rv.requested_symbols, ", "@) + "\n"@ + "resolved:\n"@
        + resolved_lines(rv.resolved_symbols) + if rv.diagnostics.len() == 0 {
        Seq::<char>::empty()
    } else {
        "diagnostics:\n"@ + diagnostic_lines(rv.diagnostics)
    }
}

pub fn render_module_import_audit_report(report: &ModuleImportAuditReport) -> (r: String)
    ensures
        r@ == audit_report_text(report@),
{
    let ghost rv = report@;
    let mut out = String::from_str("DLM module import audit\n");
    out.append("importer: ");
    out.append(report.importer.as_str());
    out.append("\n");
    out.append("provider: ");
    out.append(report.provider.as_str());
    out.append("\n");
    out.append("status: ");
    out.append(report.status.display_str());
    out.append("\n");
    out.append("interface_fingerprint: ");
    out.append(report.interface_fingerprint.as_str());
    out.append("\n");
    out.append("audit_fingerprint: ");
    out.append(report.audit_fingerprint.as_str());
    out.append("\n");
    out.append("requested: ");
    out.append(join_strings(&report.requested_symbols, ", ").as_str());
    out.append("\n");
    out.append("resolved:\n");
    let ghost head = out@;
    let mut k: usize = 0;
    assert(resolved_lines(rv.resolved_symbols.take(0)) =~= Seq::<char>::empty());
    while k < report.resolved_symbols.len()
        invariant
            rv == report@,
            k <= report.resolved_symbols.len(),
            out@ =~= head + resolved_lines(rv.resolved_symbols.take(k as int)),
        decreases report.resolved_symbols.len() - k,
    {
        assert(rv.resolved_symbols.take(k + 1).drop_last() =~= rv.resolved_symbols.take(k as int));
        assert(rv.resolved_symbols[k as int] == report.resolved_symbols@[k as int]@);
        let x = &report.resolved_symbols[k];
        out.append("  - ");
        out.append(x.symbol.as_str());
        out.append(" [");
        out.append(x.visibility.display_str());
        out.append("] ");
        out.append(x.ty.as_str());
        out.append("\n");
        k = k + 1;
    }
    assert(rv.resolved_symbols.take(k as int) =~= rv.resolved_symbols);
    if report.diagnostics.len() != 0 {
        out.append("diagnostics:\n");
        let ghost mid = out@;
        let mut j: usize = 0;
        assert(diagnostic_lines(rv.diagnostics.take(0)) =~= Seq::<char>::empty());
        while j < report.diagnostics.len()
            invariant
                rv == report@,
                j <= report.diagnostics.len(),
                out@ =~= mid + diagnostic_lines(rv.diagnostics.take(j as int)),
            decreases report.diagnostics.len() - j,
        {
            assert(rv.diagnostics.take(j + 1).drop_last() =~= rv.diagnostics.take(j as int));
            assert(rv.diagnostics[j as int] == report.diagnostics@[j as int]@);
            out.append("  - ");
            out.append(report.diagnostics[j].message.as_str());
            out.append("\n");
            j = j + 1;
        }
        assert(rv.diagnostics.take(j as int) =~= rv.diagnostics);
    }
    out
}

proof fn lemma_find_symbol(s: Seq<InterfaceSymbolV>, symbol: Seq<char>, k: int)
    ensures
        find_symbol(s, symbol, k) matches Some(i) ==> k <= i < s.len() && s[i].symbol == symbol,
    decreases s.len() - k,
{
    if 0 <= k < s.len() && s[k].symbol != symbol {
        lemma_find_symbol(s, symbol, k + 1);
    }
}

proof fn lemma_resolved_when_clean(g: ImportGraphV, iv: ModuleInterfaceV, provider: Seq<char>, req: Seq<Seq<char>>, line: usize, n: int)
    requires
        0 <= n <= req.len(),
        audit_symbol_diags(g, iv, provider, req, line, n).len() == 0,
    ensures
        audit_resolved(g, iv, provider, req, line, n).len() == n,
        forall|k: int| 0 <= k < n ==> audit_symbol_spec(g, iv, provider, req[k], line) is Ok,
        forall|k: int|
            0 <= k < n ==> (#[trigger] audit_resolved(g, iv, provider, req, line, n)[k]) == audit_symbol_spec(g, iv, provider, req[k], line)->Ok_0,
    decreases n,
{
    if n > 0 {
        lemma_resolved_when_clean(g, iv, provider, req, line, n - 1);
    }
}

/// A verified import audit resolves every requested symbol, in order, to a
/// public entry of that name in the provider's own interface; and the importer
/// really imports the provider in the graph.
pub proof fn lemma_verified_audit_resolves_all(
    g: ImportGraphV,
    importer: Seq<char>,
    provider: Seq<char>,
    req: Seq<Seq<char>>,
    iv: ModuleInterfaceV,
    line: usize,
)
    requires
        audit_module_import_spec(g, importer, provider, req, iv, line).status == ModuleImportAuditStatus::Verified,
    ensures
        ({
            let rv = audit_module_import_spec(g, importer, provider, req, iv, line);
            &&& rv.diagnostics.len() == 0
            &&& iv.module == provider
            &&& find_module(g.modules, importer, 0) is Some
            &&& find_module(g.modules, provider, 0) is Some
            &&& has_edge(g, importer, provider)
            &&& rv.resolved_symbols.len() == req.len()
            &&& forall|k: int|
                0 <= k < req.len() ==> (#[trigger] rv.resolved_symbols[k]).symbol == req[k] && rv.resolved_symbols[k].visibility
                    == ExportVisibility::Public && iv.symbols.contains(rv.resolved_symbols[k])
        }),
{
    let rv = audit_module_import_spec(g, importer, provider, req, iv, line);
    let head = audit_head_diags(g, importer, provider, iv, line);
    let tail = audit_symbol_diags(g, iv, provider, req, line, req.len() as int);
    assert(rv.diagnostics == head + tail);
    assert(head.len() == 0 && tail.len() == 0);
    lemma_resolved_when_clean(g, iv, provider, req, line, req.len() as int);
    assert forall|k: int| 0 <= k < req.len() implies (#[trigger] rv.resolved_symbols[k]).symbol == req[k]
        && rv.resolved_symbols[k].visibility == ExportVisibility::Public && iv.symbols.contains(rv.resolved_symbols[k]) by {
        assert(audit_symbol_spec(g, iv, provider, req[k], line) is Ok);
        lemma_find_symbol(iv.symbols, req[k], 0);
        let i = find_symbol(iv.symbols, req[k], 0)->Some_0;
        assert(iv.symbols[i] == rv.resolved_symbols[k]);
    }
}

proof fn lemma_sorted_symbols_unique(s1: Seq<InterfaceSymbolV>, s2: Seq<InterfaceSymbolV>)
    requires
        symbols_sorted(s1),
        symbols_sorted(s2),
        forall|x: InterfaceSymbolV| s1.contains(x) <==> s2.contains(x),
    ensures
        s1 == s2,
    decreases s1.len(),
{
    if s1.len() == 0 {
        if s2.len() > 0 {
            assert(s2.contains(s2[0]));
        }
        assert(s1 =~= s2);
    } else {
        assert(s1.contains(s1[0]));
        let j = choose|j: int| 0 <= j < s2.len() && s2[j] == s1[0];
        assert(s2.contains(s2[0]));
        let i = choose|i: int| 0 <= i < s1.len() && s1[i] == s2[0];
        if j > 0 {
            if i == 0 {
                assert(text_lt(s2[0].symbol, s2[j].symbol));
                lemma_text_lt_irreflexive(s2[0].symbol);
            } else {
                assert(text_lt(s2[0].symbol, s2[j].symbol));
                assert(text_lt(s1[0].symbol, s1[i].symbol));
                lemma_text_lt_transitive(s2[0].symbol, s1[0].symbol, s2[0].symbol);
                lemma_text_lt_irreflexive(s2[0].symbol);
            }
        }
        assert(s1[0] == s2[0]);
        let t1 = s1.drop_first();
        let t2 = s2.drop_first();
        assert(symbols_sorted(t1));
        assert(symbols_sorted(t2));
        assert forall|x: InterfaceSymbolV| t1.contains(x) <==> t2.contains(x) by {
            if t1.contains(x) {
                let a = choose|a: int| 0 <= a < t1.len() && t1[a] == x;
                assert(s1[a + 1] == x);
                assert(s1.contains(x));
                let b = choose|b: int| 0 <= b < s2.len() && s2[b] == x;
                if b == 0 {
                    assert(text_lt(s1[0].symbol, s1[a + 1].symbol));
                    lemma_text_lt_irreflexive(x.symbol);
                }
                assert(t2[b - 1] == x);
            }
            if t2.contains(x) {
                let a = choose|a: int| 0 <= a < t2.len() && t2[a] == x;
                assert(s2[a + 1] == x);
                assert(s2.contains(x));
                let b = choose|b: int| 0 <= b < s1.len() && s1[b] == x;
                if b == 0 {
                    assert(text_lt(s2[0].symbol, s2[a + 1].symbol));
                    lemma_text_lt_irreflexive(x.symbol);
                }
                assert(t1[b - 1] == x);
            }
        }
        lemma_sorted_symbols_unique(t1, t2);
        assert(s1 =~= seq![s1[0]] + t1);
        assert(s2 =~= seq![s2[0]] + t2);
    }
}

/// An interface does not depend on the order in which its exports are given:
/// two interfaces of one module over the same entries, in any order, are equal.
pub proof fn lemma_interface_order_independent(
    iv1: ModuleInterfaceV,
    iv2: ModuleInterfaceV,
    module: Seq<char>,
    es1: Seq<(ExportDeclV, PassportV)>,
    es2: Seq<(ExportDeclV, PassportV)>,
)
    requires
        is_interface_of(iv1, module, es1),
        is_interface_of(iv2, module, es2),
        es1.to_set() == es2.to_set(),
    ensures
        iv1 == iv2,
{
    assert forall|x: InterfaceSymbolV| iv1.symbols.contains(x) <==> iv2.symbols.contains(x) by {
        if iv1.symbols.contains(x) {
            let k = choose|k: int| 0 <= k < es1.len() && x == #[trigger] interface_symbol_spec(es1[k].0, es1[k].1);
            assert(es1.to_set().contains(es1[k]));
            assert(es2.to_set().contains(es1[k]));
            let m = choose|m: int| 0 <= m < es2.len() && es2[m] == es1[k];
            assert(iv2.symbols.contains(interface_symbol_spec(es2[m].0, es2[m].1)));
        }
        if iv2.symbols.contains(x) {
            let k = choose|k: int| 0 <= k < es2.len() && x == #[trigger] interface_symbol_spec(es2[k].0, es2[k].1);
            assert(es2.to_set().contains(es2[k]));
            assert(es1.to_set().contains(es2[k]));
            let m = choose|m: int| 0 <= m < es1.len() && es1[m] == es2[k];
            assert(iv1.symbols.contains(interface_symbol_spec(es1[m].0, es1[m].1)));
        }
    }
    lemma_sorted_symbols_unique(iv1.symbols, iv2.symbols);
}

} // verus!
