//! Module manifests, their public and private exports, and the import graph
//! between modules, which must resolve and be acyclic.

use vstd::prelude::*;
use vstd::string::*;

use crate::axiom_registry::{lemma_text_lt_total, lemma_text_lt_transitive, name_lt, text_lt};
use crate::diagnostics::{error_with_help, Diagnostic, DiagnosticKind, DiagnosticV};
use crate::passport::record::home_context;
use crate::passport::{
    Capability, CapabilitySet, ConstructionMode, CostClass, HistoryChain, LocationContext, Passport, PassportV, Provenance,
    TheoryContext, TrustLevel, TypeKind, TypeKindV, ValidationState,
};
use crate::fingerprint::strings_view;
use crate::text::{all_ws, dec_text, is_blank, join_strings, join_text, str_eq, usize_text};

verus! {

#[derive(Debug, Clone, Copy, PartialEq, Eq, Structural, PartialOrd, Ord)]
pub enum ExportVisibility {
    Public,
    Private,
}

impl ExportVisibility {
    pub open spec fn display_text(self) -> Seq<char> {
        match self {
            ExportVisibility::Public => "public"@,
            ExportVisibility::Private => "private"@,
        }
    }

    pub fn display_str(self) -> (r: &'static str)
        ensures
            r@ == self.display_text(),
    {
        match self {
            ExportVisibility::Public => "public",
            ExportVisibility::Private => "private",
        }
    }
}

/// An import of another module, optionally under an alias.
#[derive(Debug)]
pub struct ImportDecl {
    pub path: String,
    pub alias: Option<String>,
}

pub struct ImportDeclV {
    pub path: Seq<char>,
    pub alias: Option<Seq<char>>,
}

/// The model of an optional string.
pub open spec fn opt_view(s: Option<String>) -> Option<Seq<char>> {
    match s {
        Some(t) => Some(t@),
        None => None,
    }
}

impl View for ImportDecl {
    type V = ImportDeclV;

    open spec fn view(&self) -> ImportDeclV {
        ImportDeclV { path: self.path@, alias: opt_view(self.alias) }
    }
}

fn copy_opt(s: &Option<String>) -> (r: Option<String>)
    ensures
        opt_view(r) == opt_view(*s),
{
    match s {
        Some(t) => Some(t.clone()),
        None => None,
    }
}

impl Clone for ImportDecl {
    fn clone(&self) -> (r: Self)
        ensures
            r@ == self@,
    {
        ImportDecl { path: self.path.clone(), alias: copy_opt(&self.alias) }
    }
}

/// A symbol a module exports, publicly or privately.
#[derive(Debug)]
pub struct ExportDecl {
    pub symbol: String,
    pub visibility: ExportVisibility,
}

pub struct ExportDeclV {
    pub symbol: Seq<char>,
    pub visibility: ExportVisibility,
}

impl View for ExportDecl {
    type V = ExportDeclV;

    open spec fn view(&self) -> ExportDeclV {
        ExportDeclV { symbol: self.symbol@, visibility: self.visibility }
    }
}

impl Clone for ExportDecl {
    fn clone(&self) -> (r: Self)
        ensures
            r@ == self@,
    {
        ExportDecl { symbol: self.symbol.clone(), visibility: self.visibility }
    }
}

/// A module's name, imports and exports.
#[derive(Debug)]
pub struct ModuleManifest {
    pub name: String,
    pub imports: Vec<ImportDecl>,
    pub exports: Vec<ExportDecl>,
}

pub struct ModuleManifestV {
    pub name: Seq<char>,
    pub imports: Seq<ImportDeclV>,
    pub exports: Seq<ExportDeclV>,
}

/// The models of a sequence of imports.
pub open spec fn imports_view(s: Seq<ImportDecl>) -> Seq<ImportDeclV> {
    s.map_values(|i: ImportDecl| i@)
}

/// The models of a sequence of exports.
pub open spec fn exports_view(s: Seq<ExportDecl>) -> Seq<ExportDeclV> {
    s.map_values(|e: ExportDecl| e@)
}

impl View for ModuleManifest {
    type V = ModuleManifestV;

    open spec fn view(&self) -> ModuleManifestV {
        ModuleManifestV { name: self.name@, imports: imports_view(self.imports@), exports: exports_view(self.exports@) }
    }
}

impl Clone for ModuleManifest {
    fn clone(&self) -> (r: Self)
        ensures
            r@ == self@,
    {
        let mut imports: Vec<ImportDecl> = Vec::new();
        let mut i: usize = 0;
        while i < self.imports.len()
            invariant
                i <= self.imports.len(),
                imports_view(imports@) =~= imports_view(self.imports@).take(i as int),
            decreases self.imports.len() - i,
        {
            let ghost before = imports@;
            imports.push(self.imports[i].clone());
            assert(imports_view(imports@) =~= imports_view(before).push(imports_view(self.imports@)[i as int]));
            assert(imports_view(self.imports@).take(i + 1) =~= imports_view(self.imports@).take(i as int).push(
                imports_view(self.imports@)[i as int],
            ));
            i = i + 1;
        }
        assert(imports_view(self.imports@).take(i as int) =~= imports_view(self.imports@));
        let mut exports: Vec<ExportDecl> = Vec::new();
        let mut k: usize = 0;
        while k < self.exports.len()
            invariant
                k <= self.exports.len(),
                exports_view(exports@) =~= exports_view(self.exports@).take(k as int),
            decreases self.exports.len() - k,
        {
            let ghost before = exports@;
            exports.push(self.exports[k].clone());
            assert(exports_view(exports@) =~= exports_view(before).push(exports_view(self.exports@)[k as int]));
            assert(exports_view(self.exports@).take(k + 1) =~= exports_view(self.exports@).take(k as int).push(
                exports_view(self.exports@)[k as int],
            ));
            k = k + 1;
        }
        assert(exports_view(self.exports@).take(k as int) =~= exports_view(self.exports@));
        ModuleManifest { name: self.name.clone(), imports, exports }
    }
}

/// The models of a sequence of manifests.
pub open spec fn manifests_view(s: Seq<ModuleManifest>) -> Seq<ModuleManifestV> {
    s.map_values(|m: ModuleManifest| m@)
}

/// A resolved import between two modules.
#[derive(Debug)]
pub struct ImportEdge {
    pub from: String,
    pub to: String,
    pub alias: Option<String>,
}

pub struct ImportEdgeV {
    pub from: Seq<char>,
    pub to: Seq<char>,
    pub alias: Option<Seq<char>>,
}

impl View for ImportEdge {
    type V = ImportEdgeV;

    open spec fn view(&self) -> ImportEdgeV {
        ImportEdgeV { from: self.from@, to: self.to@, alias: opt_view(self.alias) }
    }
}

/// The models of a sequence of edges.
pub open spec fn edges_view(s: Seq<ImportEdge>) -> Seq<ImportEdgeV> {
    s.map_values(|e: ImportEdge| e@)
}

/// A resolved, acyclic import graph: the modules sorted by name, each once,
/// and one edge per import in that order.
#[derive(Debug)]
pub struct ImportGraph {
    pub root: String,
    pub modules: Vec<ModuleManifest>,
    pub edges: Vec<ImportEdge>,
}

pub struct ImportGraphV {
    pub root: Seq<char>,
    pub modules: Seq<ModuleManifestV>,
    pub edges: Seq<ImportEdgeV>,
}

impl View for ImportGraph {
    type V = ImportGraphV;

    open spec fn view(&self) -> ImportGraphV {
        ImportGraphV { root: self.root@, modules: manifests_view(self.modules@), edges: edges_view(self.edges@) }
    }
}

pub fn import_decl(path: &str, alias: Option<&str>) -> (r: ImportDecl)
    ensures
        r@.path == path@,
        r@.alias == (match alias {
            Some(a) => Some(a@),
            None => None::<Seq<char>>,
        }),
{
    ImportDecl {
        path: String::from_str(path),
        alias: match alias {
            Some(a) => Some(String::from_str(a)),
            None => None,
        },
    }
}

pub fn public_export(symbol: &str) -> (r: ExportDecl)
    ensures
        r@ == (ExportDeclV { symbol: symbol@, visibility: ExportVisibility::Public }),
{
    ExportDecl { symbol: String::from_str(symbol), visibility: ExportVisibility::Public }
}

pub fn private_export(symbol: &str) -> (r: ExportDecl)
    ensures
        r@ == (ExportDeclV { symbol: symbol@, visibility: ExportVisibility::Private }),
{
    ExportDecl { symbol: String::from_str(symbol), visibility: ExportVisibility::Private }
}

/// An error of the module layer.
pub open spec fn module_error_model(line: usize, message: Seq<char>, help: Seq<char>) -> DiagnosticV {
    error_with_help(DiagnosticKind::ModuleImportError, line, message, help)
}

fn module_error(line: usize, message: &str, help: &str) -> (r: Diagnostic)
    ensures
        r@ == module_error_model(line, message@, help@),
{
    Diagnostic::error(DiagnosticKind::ModuleImportError, Some(line), message).with_help(help)
}

/// The error for a blank identifier, if `value` is blank.
pub open spec fn blank_error(value: Seq<char>, label: Seq<char>, line: usize) -> Option<DiagnosticV> {
    if all_ws(value) {
        Some(module_error_model(
            line,
            label + " must not be empty"@,
            "module/import/export identifiers are semantic names, not display-only labels"@,
        ))
    } else {
        None
    }
}

fn require_non_empty(value: &str, label: &str, line: usize) -> (r: Result<(), Diagnostic>)
    ensures
        blank_error(value@, label@, line) == (match r {
            Ok(()) => None::<DiagnosticV>,
            Err(d) => Some(d@),
        }),
{
    if is_blank(value) {
        let mut msg = String::from_str(label);
        msg.append(" must not be empty");
        Err(module_error(line, msg.as_str(), "module/import/export identifiers are semantic names, not display-only labels"))
    } else {
        Ok(())
    }
}

/// The error for import `k` of module `name`: a blank or repeated path, or a
/// blank or repeated alias.
pub open spec fn import_error(name: Seq<char>, imports: Seq<ImportDeclV>, line: usize, k: int) -> Option<DiagnosticV> {
    let im = imports[k];
    if blank_error(im.path, "import path"@, line) is Some {
        blank_error(im.path, "import path"@, line)
    } else if exists|j: int| 0 <= j < k && #[trigger] imports[j].path == im.path {
        Some(module_error_model(
            line,
            "duplicate import `"@ + im.path + "` in module `"@ + name + "`"@,
            "imports are semantic dependencies and must be unique per module"@,
        ))
    } else {
        match im.alias {
            None => None,
            Some(a) => if blank_error(a, "import alias"@, line) is Some {
                blank_error(a, "import alias"@, line)
            } else if exists|j: int| 0 <= j < k && #[trigger] imports[j].alias == Some(a) {
                Some(module_error_model(
                    line,
                    "duplicate import alias `"@ + a + "` in module `"@ + name + "`"@,
                    "aliases must not shadow each other inside one module manifest"@,
                ))
            } else {
                None
            },
        }
    }
}

/// The first import error among the first `n` imports.
pub open spec fn imports_error(name: Seq<char>, imports: Seq<ImportDeclV>, line: usize, n: int) -> Option<DiagnosticV>
    decreases n,
{
    if n <= 0 {
        None
    } else {
        match imports_error(name, imports, line, n - 1) {
            Some(d) => Some(d),
            None => import_error(name, imports, line, n - 1),
        }
    }
}

/// The error for export `k` of module `name`: a blank or repeated symbol.
pub open spec fn export_error(name: Seq<char>, exports: Seq<ExportDeclV>, line: usize, k: int) -> Option<DiagnosticV> {
    let ex = exports[k];
    if blank_error(ex.symbol, "export symbol"@, line) is Some {
        blank_error(ex.symbol, "export symbol"@, line)
    } else if exists|j: int| 0 <= j < k && #[trigger] exports[j].symbol == ex.symbol {
        Some(module_error_model(
            line,
            "duplicate export `"@ + ex.symbol + "` in module `"@ + name + "`"@,
            "a symbol cannot be both public and private in the same manifest"@,
        ))
    } else {
        None
    }
}

/// The first export error among the first `n` exports.
pub open spec fn exports_error(name: Seq<char>, exports: Seq<ExportDeclV>, line: usize, n: int) -> Option<DiagnosticV>
    decreases n,
{
    if n <= 0 {
        None
    } else {
        match exports_error(name, exports, line, n - 1) {
            Some(d) => Some(d),
            None => export_error(name, exports, line, n - 1),
        }
    }
}

/// The first problem with a manifest, if any: a blank name, then the imports
/// in order, then the exports in order.
pub open spec fn manifest_error(m: ModuleManifestV, line: usize) -> Option<DiagnosticV> {
    if blank_error(m.name, "module name"@, line) is Some {
        blank_error(m.name, "module name"@, line)
    } else if imports_error(m.name, m.imports, line, m.imports.len() as int) is Some {
        imports_error(m.name, m.imports, line, m.imports.len() as int)
    } else {
        exports_error(m.name, m.exports, line, m.exports.len() as int)
    }
}

proof fn lemma_imports_error_stays(name: Seq<char>, imports: Seq<ImportDeclV>, line: usize, m: int, n: int)
    requires
        0 <= m <= n,
        imports_error(name, imports, line, m) is Some,
    ensures
        imports_error(name, imports, line, n) == imports_error(name, imports, line, m),
    decreases n - m,
{
    if m < n {
        lemma_imports_error_stays(name, imports, line, m, n - 1);
    }
}

proof fn lemma_exports_error_stays(name: Seq<char>, exports: Seq<ExportDeclV>, line: usize, m: int, n: int)
    requires
        0 <= m <= n,
        exports_error(name, exports, line, m) is Some,
    ensures
        exports_error(name, exports, line, n) == exports_error(name, exports, line, m),
    decreases n - m,
{
    if m < n {
        lemma_exports_error_stays(name, exports, line, m, n - 1);
    }
}

fn check_import(name: &str, imports: &Vec<ImportDecl>, line: usize, k: usize) -> (r: Result<(), Diagnostic>)
    requires
        k < imports.len(),
    ensures
        import_error(name@, imports_view(imports@), line, k as int) == (match r {
            Ok(()) => None::<DiagnosticV>,
            Err(d) => Some(d@),
        }),
{
    let ghost iv = imports_view(imports@);
    assert(iv[k as int] == imports@[k as int]@);
    let im = &imports[k];
    match require_non_empty(im.path.as_str(), "import path", line) {
        Err(d) => return Err(d),
        Ok(()) => {},
    }
    let mut j: usize = 0;
    while j < k
        invariant
            iv == imports_view(imports@),
            j <= k < imports.len(),
            iv[k as int].path == im.path@,
            !all_ws(iv[k as int].path),
            forall|m: int| 0 <= m < j ==> #[trigger] iv[m].path != iv[k as int].path,
        decreases k - j,
    {
        assert(iv[j as int] == imports@[j as int]@);
        if str_eq(imports[j].path.as_str(), im.path.as_str()) {
            assert(iv[j as int].path == iv[k as int].path);
            let mut msg = String::from_str("duplicate import `");
            msg.append(im.path.as_str());
            msg.append("` in module `");
            msg.append(name);
            msg.append("`");
            return Err(module_error(line, msg.as_str(), "imports are semantic dependencies and must be unique per module"));
        }
        j = j + 1;
    }
    match &im.alias {
        None => Ok(()),
        Some(a) => {
            match require_non_empty(a.as_str(), "import alias", line) {
                Err(d) => return Err(d),
                Ok(()) => {},
            }
            let mut j: usize = 0;
            while j < k
                invariant
                    iv == imports_view(imports@),
                    j <= k < imports.len(),
                    iv[k as int].alias == Some(a@),
                    !all_ws(a@),
                    !all_ws(iv[k as int].path),
                    forall|m: int| 0 <= m < k ==> #[trigger] iv[m].path != iv[k as int].path,
                    forall|m: int| 0 <= m < j ==> #[trigger] iv[m].alias != Some(a@),
                decreases k - j,
            {
                assert(iv[j as int] == imports@[j as int]@);
                let same = match &imports[j].alias {
                    Some(b) => str_eq(b.as_str(), a.as_str()),
                    None => false,
                };
                if same {
                    assert(iv[j as int].alias == Some(a@));
                    let mut msg = String::from_str("duplicate import alias `");
                    msg.append(a.as_str());
                    msg.append("` in module `");
                    msg.append(name);
                    msg.append("`");
                    return Err(module_error(line, msg.as_str(), "aliases must not shadow each other inside one module manifest"));
                }
                j = j + 1;
            }
            Ok(())
        },
    }
}

fn check_export(name: &str, exports: &Vec<ExportDecl>, line: usize, k: usize) -> (r: Result<(), Diagnostic>)
    requires
        k < exports.len(),
    ensures
        export_error(name@, exports_view(exports@), line, k as int) == (match r {
            Ok(()) => None::<DiagnosticV>,
            Err(d) => Some(d@),
        }),
{
    let ghost ev = exports_view(exports@);
    assert(ev[k as int] == exports@[k as int]@);
    let ex = &exports[k];
    match require_non_empty(ex.symbol.as_str(), "export symbol", line) {
        Err(d) => return Err(d),
        Ok(()) => {},
    }
    let mut j: usize = 0;
    while j < k
        invariant
            ev == exports_view(exports@),
            j <= k < exports.len(),
            ev[k as int].symbol == ex.symbol@,
            !all_ws(ev[k as int].symbol),
            forall|m: int| 0 <= m < j ==> #[trigger] ev[m].symbol != ev[k as int].symbol,
        decreases k - j,
    {
        assert(ev[j as int] == exports@[j as int]@);
        if str_eq(exports[j].symbol.as_str(), ex.symbol.as_str()) {
            assert(ev[j as int].symbol == ev[k as int].symbol);
            let mut msg = String::from_str("duplicate export `");
            msg.append(ex.symbol.as_str());
            msg.append("` in module `");
            msg.append(name);
            msg.append("`");
            return Err(module_error(line, msg.as_str(), "a symbol cannot be both public and private in the same manifest"));
        }
        j = j + 1;
    }
    Ok(())
}

pub fn validate_module_manifest(manifest: &ModuleManifest, line: usize) -> (r: Result<(), Diagnostic>)
    ensures
        manifest_error(manifest@, line) == (match r {
            Ok(()) => None::<DiagnosticV>,
            Err(d) => Some(d@),
        }),
{
    match require_non_empty(manifest.name.as_str(), "module name", line) {
        Err(d) => return Err(d),
        Ok(()) => {},
    }
    let ghost mv = manifest@;
    let mut i: usize = 0;
    while i < manifest.imports.len()
        invariant
            mv == manifest@,
            mv.imports.len() == manifest.imports.len(),
            i <= manifest.imports.len(),
            blank_error(mv.name, "module name"@, line) is None,
            imports_error(mv.name, mv.imports, line, i as int) is None,
        decreases manifest.imports.len() - i,
    {
        match check_import(manifest.name.as_str(), &manifest.imports, line, i) {
            Err(d) => {
                proof {
                    assert(imports_error(mv.name, mv.imports, line, i + 1) == Some(d@));
                    lemma_imports_error_stays(mv.name, mv.imports, line, i + 1, mv.imports.len() as int);
                }
                return Err(d);
            },
            Ok(()) => {},
        }
        i = i + 1;
    }
    let mut k: usize = 0;
    while k < manifest.exports.len()
        invariant
            mv == manifest@,
            mv.exports.len() == manifest.exports.len(),
            k <= manifest.exports.len(),
            blank_error(mv.name, "module name"@, line) is None,
            imports_error(mv.name, mv.imports, line, mv.imports.len() as int) is None,
            exports_error(mv.name, mv.exports, line, k as int) is None,
        decreases manifest.exports.len() - k,
    {
        match check_export(manifest.name.as_str(), &manifest.exports, line, k) {
            Err(d) => {
                proof {
                    assert(exports_error(mv.name, mv.exports, line, k + 1) == Some(d@));
                    lemma_exports_error_stays(mv.name, mv.exports, line, k + 1, mv.exports.len() as int);
                }
                return Err(d);
            },
            Ok(()) => {},
        }
        k = k + 1;
    }
    Ok(())
}

/// What `module_manifest` gives: the manifest, when it is valid.
pub open spec fn module_manifest_spec(name: Seq<char>, imports: Seq<ImportDeclV>, exports: Seq<ExportDeclV>, line: usize) -> Result<
    ModuleManifestV,
    DiagnosticV,
> {
    let m = ModuleManifestV { name, imports, exports };
    match manifest_error(m, line) {
        Some(d) => Err(d),
        None => Ok(m),
    }
}

pub fn module_manifest(name: &str, imports: Vec<ImportDecl>, exports: Vec<ExportDecl>, line: usize) -> (r: Result<
    ModuleManifest,
    Diagnostic,
>)
    ensures
        module_manifest_spec(name@, imports_view(imports@), exports_view(exports@), line) == (match r {
            Ok(m) => Ok::<ModuleManifestV, DiagnosticV>(m@),
            Err(d) => Err::<ModuleManifestV, DiagnosticV>(d@),
        }),
{
    let manifest = ModuleManifest { name: String::from_str(name), imports, exports };
    match validate_module_manifest(&manifest, line) {
        Err(d) => Err(d),
        Ok(()) => Ok(manifest),
    }
}

/// The capabilities of module objects.
pub open spec fn module_caps() -> Set<Capability> {
    set![Capability::CanSymbolicPrint, Capability::CanInspectAst, Capability::CanMetaLevelReason]
}

fn module_capabilities() -> (r: CapabilitySet)
    ensures
        r@ == module_caps(),
{
    CapabilitySet::empty().with(Capability::CanSymbolicPrint).with(Capability::CanInspectAst).with(Capability::CanMetaLevelReason)
}

/// The history event of a manifest.
pub open spec fn manifest_event(m: ModuleManifestV) -> Seq<char> {
    "module:manifest:"@ + m.name + ":imports="@ + dec_text(m.imports.len()) + ":exports="@ + dec_text(m.exports.len())
}

/// What `module_manifest_passport` gives.
pub open spec fn manifest_passport_spec(theory: Seq<char>, m: ModuleManifestV) -> PassportV {
    PassportV {
        ty: TypeKindV::ModuleManifest { module: m.name },
        construction: ConstructionMode::Definable,
        capabilities: module_caps(),
        cost: CostClass::SmallFinite,
        trust: TrustLevel::Builtin,
        provenance: Provenance::BuiltinKnown,
        validation: ValidationState::StaticChecked,
        theory: home_context(theory),
        history: seq![manifest_event(m)],
        location: LocationContext::Local,
    }
}

fn manifest_event_string(m: &ModuleManifest) -> (r: String)
    ensures
        r@ == manifest_event(m@),
{
    let mut ev = String::from_str("module:manifest:");
    ev.append(m.name.as_str());
    ev.append(":imports=");
    ev.append(usize_text(m.imports.len()).as_str());
    ev.append(":exports=");
    ev.append(usize_text(m.exports.len()).as_str());
    ev
}

pub fn module_manifest_passport(theory: &str, manifest: &ModuleManifest) -> (r: Passport)
    ensures
        r@ == manifest_passport_spec(theory@, manifest@),
{
    let ev = manifest_event_string(manifest);
    Passport {
        ty: TypeKind::ModuleManifest { module: manifest.name.clone() },
        construction: ConstructionMode::Definable,
        capabilities: module_capabilities(),
        cost: CostClass::SmallFinite,
        trust: TrustLevel::Builtin,
        provenance: Provenance::BuiltinKnown,
        validation: ValidationState::StaticChecked,
        theory: TheoryContext::new(theory),
        history: HistoryChain::from_event(ev.as_str()),
        location: LocationContext::local(),
    }
}

/// What `module_export_passport` gives: the source's shape, retyped as an
/// export of the module, with the export event added to its history.
pub open spec fn export_passport_spec(theory: Seq<char>, module: Seq<char>, e: ExportDeclV, source: PassportV) -> PassportV {
    PassportV {
        ty: TypeKindV::ModuleExport { module, symbol: e.symbol, visibility: e.visibility.display_text() },
        construction: source.construction,
        capabilities: source.capabilities,
        cost: source.cost,
        trust: source.trust,
        provenance: source.provenance,
        validation: source.validation,
        theory: home_context(theory),
        history: source.history.push("module:export:"@ + module + ":"@ + e.symbol + ":"@ + e.visibility.display_text()),
        location: LocationContext::Local,
    }
}

pub fn module_export_passport(theory: &str, module: &str, export: &ExportDecl, source: &Passport) -> (r: Passport)
    ensures
        r@ == export_passport_spec(theory@, module@, export@, source@),
{
    let mut ev = String::from_str("module:export:");
    ev.append(module);
    ev.append(":");
    ev.append(export.symbol.as_str());
    ev.append(":");
    ev.append(export.visibility.display_str());
    Passport {
        ty: TypeKind::ModuleExport {
            module: String::from_str(module),
            symbol: export.symbol.clone(),
            visibility: String::from_str(export.visibility.display_str()),
        },
        construction: source.construction,
        capabilities: source.capabilities,
        cost: source.cost,
        trust: source.trust,
        provenance: source.provenance,
        validation: source.validation,
        theory: TheoryContext::new(theory),
        history: HistoryChain::from_source(&source.history, ev.as_str()),
        location: LocationContext::local(),
    }
}

/// The index of the module named `name`, searching from `k`.
pub open spec fn find_module(ms: Seq<ModuleManifestV>, name: Seq<char>, k: int) -> Option<int>
    decreases ms.len() - k,
{
    if k < 0 || k >= ms.len() {
        None
    } else if ms[k].name == name {
        Some(k)
    } else {
        find_module(ms, name, k + 1)
    }
}

proof fn lemma_find_module(ms: Seq<ModuleManifestV>, name: Seq<char>, k: int)
    requires
        0 <= k <= ms.len(),
    ensures
        find_module(ms, name, k) matches Some(i) ==> k <= i < ms.len() && ms[i].name == name && forall|j: int|
            k <= j < i ==> #[trigger] ms[j].name != name,
        find_module(ms, name, k) is None ==> forall|j: int| k <= j < ms.len() ==> #[trigger] ms[j].name != name,
    decreases ms.len() - k,
{
    if k < ms.len() && ms[k].name != name {
        lemma_find_module(ms, name, k + 1);
    }
}

/// The names of the modules, in order.
pub open spec fn module_names(ms: Seq<ModuleManifestV>) -> Seq<Seq<char>> {
    ms.map_values(|m: ModuleManifestV| m.name)
}

pub(crate) fn find_module_index(ms: &Vec<ModuleManifest>, name: &str) -> (r: Option<usize>)
    ensures
        r matches Some(i) ==> i < ms.len(),
        find_module(manifests_view(ms@), name@, 0) == (match r {
            Some(i) => Some(i as int),
            None => None::<int>,
        }),
{
    let ghost mv = manifests_view(ms@);
    let mut i: usize = ms.len();
    let mut found: Option<usize> = None;
    while i > 0
        invariant
            mv == manifests_view(ms@),
            i <= ms.len(),
            found matches Some(j) ==> i <= j < ms.len() && find_module(mv, name@, i as int) == Some(j as int),
            found is None ==> find_module(mv, name@, i as int) is None,
        decreases i,
    {
        i = i - 1;
        assert(mv[i as int] == ms@[i as int]@);
        if str_eq(ms[i].name.as_str(), name) {
            found = Some(i);
        }
    }
    found
}

/// Where a module named `name` goes among modules sorted by name, from `k`.
pub open spec fn module_pos(ms: Seq<ModuleManifestV>, name: Seq<char>, k: int) -> int
    decreases ms.len() - k,
{
    if k < 0 || k >= ms.len() {
        ms.len() as int
    } else if text_lt(name, ms[k].name) {
        k
    } else {
        module_pos(ms, name, k + 1)
    }
}

/// `ms` with `m` stored under its name: it replaces a module of that name, or
/// goes in name order.
pub open spec fn put_module(ms: Seq<ModuleManifestV>, m: ModuleManifestV) -> Seq<ModuleManifestV> {
    match find_module(ms, m.name, 0) {
        Some(i) => ms.update(i, m),
        None => ms.insert(module_pos(ms, m.name, 0), m),
    }
}

fn put_module_exec(ms: &mut Vec<ModuleManifest>, m: ModuleManifest) -> (replaced: bool)
    ensures
        manifests_view(final(ms)@) == put_module(manifests_view(old(ms)@), m@),
        replaced == find_module(manifests_view(old(ms)@), m@.name, 0) is Some,
{
    let ghost mv = manifests_view(ms@);
    match find_module_index(ms, m.name.as_str()) {
        Some(i) => {
            ms.set(i, m);
            assert(manifests_view(ms@) =~= mv.update(i as int, m@));
            true
        },
        None => {
            let mut k: usize = 0;
            while k < ms.len() && !name_lt(m.name.as_str(), ms[k].name.as_str())
                invariant
                    mv == manifests_view(ms@),
                    k <= ms.len(),
                    module_pos(mv, m@.name, 0) == module_pos(mv, m@.name, k as int),
                decreases ms.len() - k,
            {
                assert(mv[k as int] == ms@[k as int]@);
                k = k + 1;
            }
            proof {
                if k < ms.len() {
                    assert(mv[k as int] == ms@[k as int]@);
                }
            }
            ms.insert(k, m);
            assert(manifests_view(ms@) =~= mv.insert(k as int, m@));
            false
        },
    }
}

/// The modules and diagnostics after the first `n` manifests: an invalid
/// manifest gives its error and is left out; a repeated name is reported and
/// the later manifest replaces the earlier one.
pub open spec fn collect_modules(mans: Seq<ModuleManifestV>, line: usize, n: int) -> (Seq<ModuleManifestV>, Seq<DiagnosticV>)
    decreases n,
{
    if n <= 0 {
        (Seq::empty(), Seq::empty())
    } else {
        let (ms, ds) = collect_modules(mans, line, n - 1);
        let m = mans[n - 1];
        match manifest_error(m, line) {
            Some(d) => (ms, ds.push(d)),
            None => if find_module(ms, m.name, 0) is Some {
                (
                    put_module(ms, m),
                    ds.push(module_error_model(
                        line,
                        "duplicate module manifest `"@ + m.name + "`"@,
                        "each module must have one manifest in the import graph"@,
                    )),
                )
            } else {
                (put_module(ms, m), ds)
            },
        }
    }
}

/// The edges and unresolved-import diagnostics of the first `k` imports of `m`.
pub open spec fn module_edges(ms: Seq<ModuleManifestV>, m: ModuleManifestV, line: usize, k: int) -> (Seq<ImportEdgeV>, Seq<DiagnosticV>)
    decreases k,
{
    if k <= 0 {
        (Seq::empty(), Seq::empty())
    } else {
        let (es, ds) = module_edges(ms, m, line, k - 1);
        let im = m.imports[k - 1];
        if find_module(ms, im.path, 0) is Some {
            (es.push(ImportEdgeV { from: m.name, to: im.path, alias: im.alias }), ds)
        } else {
            (
                es,
                ds.push(module_error_model(
                    line,
                    "module `"@ + m.name + "` imports missing module `"@ + im.path + "`"@,
                    "imports must resolve to known module manifests before public/private export checks"@,
                )),
            )
        }
    }
}

/// The edges and diagnostics of the first `n` modules, in name order.
pub open spec fn graph_edges(ms: Seq<ModuleManifestV>, line: usize, n: int) -> (Seq<ImportEdgeV>, Seq<DiagnosticV>)
    decreases n,
{
    if n <= 0 {
        (Seq::empty(), Seq::empty())
    } else {
        let (es, ds) = graph_edges(ms, line, n - 1);
        let (es2, ds2) = module_edges(ms, ms[n - 1], line, ms[n - 1].imports.len() as int);
        (es + es2, ds + ds2)
    }
}

/// The first position of `name` in `stack` (from `k`), or 0.
pub open spec fn stack_pos(stack: Seq<Seq<char>>, name: Seq<char>, k: int) -> int
    decreases stack.len() - k,
{
    if k < 0 || k >= stack.len() {
        0
    } else if stack[k] == name {
        k
    } else {
        stack_pos(stack, name, k + 1)
    }
}

/// The imports of the module named `name` (none for an unknown name).
pub open spec fn imports_of(ms: Seq<ModuleManifestV>, name: Seq<char>) -> Seq<ImportDeclV> {
    match find_module(ms, name, 0) {
        Some(i) => ms[i].imports,
        None => Seq::empty(),
    }
}

/// Depth-first visit of `name` with the modules on the current path in
/// `stack`: the cycle found (the path from the first occurrence of `name`,
/// then `name`), if any, and the modules finished so far.
pub open spec fn visit(ms: Seq<ModuleManifestV>, name: Seq<char>, visited: Seq<Seq<char>>, stack: Seq<Seq<char>>) -> (
    Option<Seq<Seq<char>>>,
    Seq<Seq<char>>,
)
    decreases ms.len() - stack.len(), 0int, 0int,
    when stack.len() < ms.len() || stack.contains(name)
{
    if stack.contains(name) {
        (Some(stack.skip(stack_pos(stack, name, 0)).push(name)), visited)
    } else if visited.contains(name) {
        (None, visited)
    } else {
        let st = stack.push(name);
        let r = visit_imports(ms, imports_of(ms, name), 0, visited, st);
        match r.0 {
            Some(c) => (Some(c), r.1),
            None => (None, r.1.push(name)),
        }
    }
}

/// Visits the resolvable imports from index `i` in order, stopping at the first cycle.
pub open spec fn visit_imports(
    ms: Seq<ModuleManifestV>,
    imports: Seq<ImportDeclV>,
    i: int,
    visited: Seq<Seq<char>>,
    st: Seq<Seq<char>>,
) -> (Option<Seq<Seq<char>>>, Seq<Seq<char>>)
    decreases ms.len() - st.len(), 1int, imports.len() - i,
    when st.len() <= ms.len() && 0 <= i
{
    if i >= imports.len() {
        (None, visited)
    } else {
        let path = imports[i].path;
        if find_module(ms, path, 0) is Some {
            let r = visit(ms, path, visited, st);
            match r.0 {
                Some(c) => (Some(c), r.1),
                None => visit_imports(ms, imports, i + 1, r.1, st),
            }
        } else {
            visit_imports(ms, imports, i + 1, visited, st)
        }
    }
}

/// The first cycle that a depth-first search finds, starting from each
/// not-yet-visited module in name order (from index `k`).
pub open spec fn find_cycle_from(ms: Seq<ModuleManifestV>, k: int, visited: Seq<Seq<char>>) -> Option<Seq<Seq<char>>>
    decreases ms.len() - k,
{
    if k < 0 || k >= ms.len() {
        None
    } else if visited.contains(ms[k].name) {
        find_cycle_from(ms, k + 1, visited)
    } else {
        let r = visit(ms, ms[k].name, visited, Seq::empty());
        match r.0 {
            Some(c) => Some(c),
            None => find_cycle_from(ms, k + 1, r.1),
        }
    }
}

proof fn lemma_path_shorter_than_modules(st: Seq<Seq<char>>, ms: Seq<ModuleManifestV>, path: Seq<char>)
    requires
        st.no_duplicates(),
        forall|x: Seq<char>| st.contains(x) ==> module_names(ms).contains(x),
        module_names(ms).contains(path),
        !st.contains(path),
    ensures
        st.len() < ms.len(),
{
    broadcast use vstd::seq_lib::seq_to_set_is_finite;
    let st2 = st.push(path);
    assert(st2.no_duplicates()) by {
        assert forall|i: int, j: int| 0 <= i < st2.len() && 0 <= j < st2.len() && i != j implies st2[i] != st2[j] by {
            if i < st.len() && j < st.len() {
            } else if i == st.len() {
                assert(st.contains(st2[j]));
            } else {
                assert(st.contains(st2[i]));
            }
        }
    }
    st2.unique_seq_to_set();
    let names = module_names(ms);
    names.lemma_cardinality_of_set();
    assert(st2.to_set().subset_of(names.to_set())) by {
        assert forall|x: Seq<char>| st2.to_set().contains(x) implies names.to_set().contains(x) by {
            assert(st2.contains(x));
            if x != path {
                let i = choose|i: int| 0 <= i < st2.len() && st2[i] == x;
                assert(st.contains(x)) by {
                    assert(st[i] == x);
                }
            }
        }
    }
    vstd::set_lib::lemma_len_subset(st2.to_set(), names.to_set());
}

fn contains_name(v: &Vec<String>, x: &str) -> (r: bool)
    ensures
        r == strings_view(v@).contains(x@),
{
    let ghost sv = strings_view(v@);
    let mut i: usize = 0;
    while i < v.len()
        invariant
            sv == strings_view(v@),
            i <= v.len(),
            forall|k: int| 0 <= k < i ==> sv[k] != x@,
        decreases v.len() - i,
    {
        if str_eq(v[i].as_str(), x) {
            assert(sv[i as int] == x@);
            return true;
        }
        i = i + 1;
    }
    false
}

fn position_of(v: &Vec<String>, x: &str) -> (r: usize)
    ensures
        r as int == stack_pos(strings_view(v@), x@, 0),
        r <= v.len(),
{
    let ghost sv = strings_view(v@);
    let mut i: usize = v.len();
    let mut found: usize = 0;
    while i > 0
        invariant
            sv == strings_view(v@),
            i <= v.len(),
            found <= v.len(),
            found as int == stack_pos(sv, x@, i as int),
        decreases i,
    {
        i = i - 1;
        if str_eq(v[i].as_str(), x) {
            found = i;
        }
    }
    found
}

fn cycle_from(stack: &Vec<String>, name: &str) -> (r: Vec<String>)
    ensures
        strings_view(r@) == strings_view(stack@).skip(stack_pos(strings_view(stack@), name@, 0)).push(name@),
{
    let start = position_of(stack, name);
    let ghost sv = strings_view(stack@);
    let mut out: Vec<String> = Vec::new();
    let mut i: usize = start;
    while i < stack.len()
        invariant
            sv == strings_view(stack@),
            start <= i <= stack.len(),
            strings_view(out@) =~= sv.subrange(start as int, i as int),
        decreases stack.len() - i,
    {
        let ghost before = out@;
        out.push(stack[i].clone());
        assert(strings_view(out@) =~= strings_view(before).push(sv[i as int]));
        i = i + 1;
    }
    out.push(String::from_str(name));
    assert(strings_view(out@) =~= sv.skip(start as int).push(name@));
    out
}

/// What the exec search may assume of a path: no module twice, each a module.
pub open spec fn good_path(ms: Seq<ModuleManifestV>, stack: Seq<Seq<char>>) -> bool {
    &&& stack.no_duplicates()
    &&& forall|x: Seq<char>| stack.contains(x) ==> module_names(ms).contains(x)
}

/// The model of an optional cycle.
pub open spec fn opt_cycle(r: Option<Vec<String>>) -> Option<Seq<Seq<char>>> {
    match r {
        Some(c) => Some(strings_view(c@)),
        None => None,
    }
}

fn visit_exec(ms: &Vec<ModuleManifest>, name: &str, visited: &mut Vec<String>, stack: &Vec<String>) -> (r: Option<Vec<String>>)
    requires
        good_path(manifests_view(ms@), strings_view(stack@)),
        module_names(manifests_view(ms@)).contains(name@),
    ensures
        (opt_cycle(r), strings_view(final(visited)@)) == visit(
            manifests_view(ms@),
            name@,
            strings_view(old(visited)@),
            strings_view(stack@),
        ),
    decreases ms.len() - stack.len(), 0int, 0int,
{
    let ghost mv = manifests_view(ms@);
    let ghost sv = strings_view(stack@);
    if contains_name(stack, name) {
        return Some(cycle_from(stack, name));
    }
    proof {
        lemma_path_shorter_than_modules(sv, mv, name@);
    }
    if contains_name(visited, name) {
        return None;
    }
    let mut st: Vec<String> = Vec::new();
    let mut i: usize = 0;
    while i < stack.len()
        invariant
            sv == strings_view(stack@),
            i <= stack.len(),
            strings_view(st@) =~= sv.take(i as int),
        decreases stack.len() - i,
    {
        let ghost before = st@;
        st.push(stack[i].clone());
        assert(strings_view(st@) =~= strings_view(before).push(sv[i as int]));
        i = i + 1;
    }
    st.push(String::from_str(name));
    assert(sv.take(stack.len() as int) =~= sv);
    assert(strings_view(st@) =~= sv.push(name@));
    proof {
        let st2 = sv.push(name@);
        assert(st2.no_duplicates()) by {
            assert forall|a: int, b: int| 0 <= a < st2.len() && 0 <= b < st2.len() && a != b implies st2[a] != st2[b] by {
                if a < sv.len() && b < sv.len() {
                } else if a == sv.len() {
                    assert(sv.contains(st2[b]));
                } else {
                    assert(sv.contains(st2[a]));
                }
            }
        }
        assert forall|x: Seq<char>| st2.contains(x) implies module_names(mv).contains(x) by {
            if x != name@ {
                let j = choose|j: int| 0 <= j < st2.len() && st2[j] == x;
                assert(sv[j] == x);
                assert(sv.contains(x));
            }
        }
    }
    let r = match find_module_index(ms, name) {
        Some(idx) => {
            assert(mv[idx as int] == ms@[idx as int]@);
            visit_imports_exec(ms, &ms[idx].imports, 0, visited, &st)
        },
        None => {
            let empty: Vec<ImportDecl> = Vec::new();
            assert(imports_view(empty@) =~= Seq::<ImportDeclV>::empty());
            visit_imports_exec(ms, &empty, 0, visited, &st)
        },
    };
    match r {
        Some(c) => Some(c),
        None => {
            let ghost before = visited@;
            visited.push(String::from_str(name));
            assert(strings_view(visited@) =~= strings_view(before).push(name@));
            None
        },
    }
}

fn visit_imports_exec(
    ms: &Vec<ModuleManifest>,
    imports: &Vec<ImportDecl>,
    i: usize,
    visited: &mut Vec<String>,
    st: &Vec<String>,
) -> (r: Option<Vec<String>>)
    requires
        good_path(manifests_view(ms@), strings_view(st@)),
        st.len() <= ms.len(),
        i <= imports.len(),
    ensures
        (opt_cycle(r), strings_view(final(visited)@)) == visit_imports(
            manifests_view(ms@),
            imports_view(imports@),
            i as int,
            strings_view(old(visited)@),
            strings_view(st@),
        ),
    decreases ms.len() - st.len(), 1int, imports.len() - i,
{
    let ghost mv = manifests_view(ms@);
    let ghost iv = imports_view(imports@);
    let ghost stv = strings_view(st@);
    let ghost v0 = strings_view(visited@);
    assert(mv.len() == ms.len() && stv.len() == st.len() && iv.len() == imports.len());
    if i >= imports.len() {
        return None;
    }
    assert(iv[i as int] == imports@[i as int]@);
    let path = imports[i].path.as_str();
    assert(path@ == iv[i as int].path);
    match find_module_index(ms, path) {
        Some(idx) => {
            proof {
                lemma_find_module(mv, path@, 0);
                assert(module_names(mv)[idx as int] == path@);
                assert(module_names(mv).contains(path@));
                if !stv.contains(path@) {
                    lemma_path_shorter_than_modules(stv, mv, path@);
                }
            }
            let r = visit_exec(ms, path, visited, st);
            let ghost v1 = strings_view(visited@);
            assert((opt_cycle(r), v1) == visit(mv, path@, v0, stv));
            match r {
                Some(c) => {
                    assert(visit_imports(mv, iv, i as int, v0, stv) == visit(mv, path@, v0, stv));
                    Some(c)
                },
                None => {
                    assert(visit_imports(mv, iv, i as int, v0, stv) == visit_imports(mv, iv, i + 1, v1, stv));
                    visit_imports_exec(ms, imports, i + 1, visited, st)
                },
            }
        },
        None => {
            assert(visit_imports(mv, iv, i as int, v0, stv) == visit_imports(mv, iv, i + 1, v0, stv));
            visit_imports_exec(ms, imports, i + 1, visited, st)
        },
    }
}

fn find_import_cycle(ms: &Vec<ModuleManifest>) -> (r: Option<Vec<String>>)
    ensures
        opt_cycle(r) == find_cycle_from(manifests_view(ms@), 0, Seq::empty()),
{
    let ghost mv = manifests_view(ms@);
    let mut visited: Vec<String> = Vec::new();
    let mut k: usize = 0;
    assert(strings_view(visited@) =~= Seq::<Seq<char>>::empty());
    while k < ms.len()
        invariant
            mv == manifests_view(ms@),
            k <= ms.len(),
            find_cycle_from(mv, 0, Seq::empty()) == find_cycle_from(mv, k as int, strings_view(visited@)),
        decreases ms.len() - k,
    {
        assert(mv[k as int] == ms@[k as int]@);
        if !contains_name(&visited, ms[k].name.as_str()) {
            let empty: Vec<String> = Vec::new();
            proof {
                assert(strings_view(empty@) =~= Seq::<Seq<char>>::empty());
                assert(module_names(mv)[k as int] == mv[k as int].name);
                assert(module_names(mv).contains(mv[k as int].name));
            }
            let r = visit_exec(ms, ms[k].name.as_str(), &mut visited, &empty);
            match r {
                Some(c) => return Some(c),
                None => {},
            }
        }
        k = k + 1;
    }
    None
}

/// The diagnostic for a cycle.
pub open spec fn cycle_error(c: Seq<Seq<char>>, line: usize) -> DiagnosticV {
    module_error_model(
        line,
        "cyclic import graph detected: "@ + join_text(c, " -> "@),
        "import graphs must be acyclic so trust and visibility flow in one direction"@,
    )
}

/// What `build_import_graph` gives: the graph, when every manifest is valid
/// and named once, the root is among them, every import resolves and no
/// import cycle exists; otherwise all the diagnostics found.
pub open spec fn build_import_graph_spec(root: Seq<char>, mans: Seq<ModuleManifestV>, line: usize) -> Result<
    ImportGraphV,
    Seq<DiagnosticV>,
> {
    match blank_error(root, "root module"@, line) {
        Some(d) => Err(seq![d]),
        None => {
            let (ms, d1) = collect_modules(mans, line, mans.len() as int);
            let d2 = if find_module(ms, root, 0) is None {
                seq![module_error_model(
                    line,
                    "root module `"@ + root + "` is missing from the import graph"@,
                    "the root module must be one of the supplied manifests"@,
                )]
            } else {
                Seq::empty()
            };
            let (es, d3) = graph_edges(ms, line, ms.len() as int);
            let ds = d1 + d2 + d3;
            let all = if ds.len() == 0 {
                match find_cycle_from(ms, 0, Seq::empty()) {
                    Some(c) => seq![cycle_error(c, line)],
                    None => Seq::empty(),
                }
            } else {
                ds
            };
            if all.len() == 0 {
                Ok(ImportGraphV { root, modules: ms, edges: es })
            } else {
                Err(all)
            }
        },
    }
}

fn collect_modules_exec(manifests: &Vec<ModuleManifest>, line: usize) -> (r: (Vec<ModuleManifest>, Vec<Diagnostic>))
    ensures
        (manifests_view(r.0@), crate::axiom_registry::diagnostics_view(r.1@)) == collect_modules(
            manifests_view(manifests@),
            line,
            manifests.len() as int,
        ),
{
    let ghost mans = manifests_view(manifests@);
    let mut modules: Vec<ModuleManifest> = Vec::new();
    let mut diagnostics: Vec<Diagnostic> = Vec::new();
    let mut i: usize = 0;
    assert(manifests_view(modules@) =~= Seq::<ModuleManifestV>::empty());
    assert(crate::axiom_registry::diagnostics_view(diagnostics@) =~= Seq::<DiagnosticV>::empty());
    while i < manifests.len()
        invariant
            mans == manifests_view(manifests@),
            i <= manifests.len(),
            (manifests_view(modules@), crate::axiom_registry::diagnostics_view(diagnostics@)) == collect_modules(mans, line, i as int),
        decreases manifests.len() - i,
    {
        assert(mans[i as int] == manifests@[i as int]@);
        let ghost ds0 = crate::axiom_registry::diagnostics_view(diagnostics@);
        match validate_module_manifest(&manifests[i], line) {
            Err(d) => {
                diagnostics.push(d);
                assert(crate::axiom_registry::diagnostics_view(diagnostics@) =~= ds0.push(d@));
            },
            Ok(()) => {
                let m = manifests[i].clone();
                let mut msg = String::from_str("duplicate module manifest `");
                msg.append(m.name.as_str());
                msg.append("`");
                let replaced = put_module_exec(&mut modules, m);
                if replaced {
                    let d = module_error(line, msg.as_str(), "each module must have one manifest in the import graph");
                    diagnostics.push(d);
                    assert(crate::axiom_registry::diagnostics_view(diagnostics@) =~= ds0.push(d@));
                }
            },
        }
        i = i + 1;
    }
    (modules, diagnostics)
}

fn module_edges_exec(modules: &Vec<ModuleManifest>, a: usize, line: usize, edges: &mut Vec<ImportEdge>, diagnostics: &mut Vec<Diagnostic>)
    requires
        a < modules.len(),
    ensures
        ({
            let ms = manifests_view(modules@);
            let (es, ds) = module_edges(ms, ms[a as int], line, ms[a as int].imports.len() as int);
            &&& edges_view(final(edges)@) == edges_view(old(edges)@) + es
            &&& crate::axiom_registry::diagnostics_view(final(diagnostics)@) == crate::axiom_registry::diagnostics_view(
                old(diagnostics)@,
            ) + ds
        }),
{
    let ghost ms = manifests_view(modules@);
    let ghost e0 = edges_view(edges@);
    let ghost d0 = crate::axiom_registry::diagnostics_view(diagnostics@);
    assert(ms[a as int] == modules@[a as int]@);
    let m = &modules[a];
    let ghost mv = m@;
    let mut k: usize = 0;
    while k < m.imports.len()
        invariant
            ms == manifests_view(modules@),
            mv == m@,
            mv == ms[a as int],
            k <= m.imports.len(),
            edges_view(edges@) == e0 + module_edges(ms, mv, line, k as int).0,
            crate::axiom_registry::diagnostics_view(diagnostics@) == d0 + module_edges(ms, mv, line, k as int).1,
        decreases m.imports.len() - k,
    {
        assert(mv.imports[k as int] == m.imports@[k as int]@);
        let im = &m.imports[k];
        let ghost eb = edges_view(edges@);
        let ghost db = crate::axiom_registry::diagnostics_view(diagnostics@);
        match find_module_index(modules, im.path.as_str()) {
            Some(_) => {
                let e = ImportEdge { from: m.name.clone(), to: im.path.clone(), alias: copy_opt(&im.alias) };
                edges.push(e);
                assert(edges_view(edges@) =~= eb.push(ImportEdgeV { from: mv.name, to: mv.imports[k as int].path, alias: mv.imports[k as int].alias }));
            },
            None => {
                let mut msg = String::from_str("module `");
                msg.append(m.name.as_str());
                msg.append("` imports missing module `");
                msg.append(im.path.as_str());
                msg.append("`");
                let d = module_error(line, msg.as_str(), "imports must resolve to known module manifests before public/private export checks");
                diagnostics.push(d);
                assert(crate::axiom_registry::diagnostics_view(diagnostics@) =~= db.push(d@));
            },
        }
        k = k + 1;
    }
}

fn graph_edges_exec(modules: &Vec<ModuleManifest>, line: usize) -> (r: (Vec<ImportEdge>, Vec<Diagnostic>))
    ensures
        (edges_view(r.0@), crate::axiom_registry::diagnostics_view(r.1@)) == graph_edges(
            manifests_view(modules@),
            line,
            modules.len() as int,
        ),
{
    let ghost ms = manifests_view(modules@);
    let mut edges: Vec<ImportEdge> = Vec::new();
    let mut diagnostics: Vec<Diagnostic> = Vec::new();
    assert(edges_view(edges@) =~= Seq::<ImportEdgeV>::empty());
    assert(crate::axiom_registry::diagnostics_view(diagnostics@) =~= Seq::<DiagnosticV>::empty());
    let mut a: usize = 0;
    while a < modules.len()
        invariant
            ms == manifests_view(modules@),
            a <= modules.len(),
            (edges_view(edges@), crate::axiom_registry::diagnostics_view(diagnostics@)) == graph_edges(ms, line, a as int),
        decreases modules.len() - a,
    {
        module_edges_exec(modules, a, line, &mut edges, &mut diagnostics);
        a = a + 1;
    }
    (edges, diagnostics)
}

pub fn build_import_graph(root: &str, manifests: Vec<ModuleManifest>, line: usize) -> (r: Result<ImportGraph, Vec<Diagnostic>>)
    ensures
        build_import_graph_spec(root@, manifests_view(manifests@), line) == (match r {
            Ok(g) => Ok::<ImportGraphV, Seq<DiagnosticV>>(g@),
            Err(ds) => Err::<ImportGraphV, Seq<DiagnosticV>>(crate::axiom_registry::diagnostics_view(ds@)),
        }),
{
    match require_non_empty(root, "root module", line) {
        Err(d) => {
            let mut v: Vec<Diagnostic> = Vec::new();
            v.push(d);
            assert(crate::axiom_registry::diagnostics_view(v@) =~= seq![d@]);
            return Err(v);
        },
        Ok(()) => {},
    }
    assert(manifests_view(manifests@).len() == manifests.len());
    let (modules, mut diagnostics) = collect_modules_exec(&manifests, line);
    let ghost d1 = crate::axiom_registry::diagnostics_view(diagnostics@);
    let ghost ms = manifests_view(modules@);
    let ghost d2s = if find_module(ms, root@, 0) is None {
        seq![module_error_model(
            line,
            "root module `"@ + root@ + "` is missing from the import graph"@,
            "the root module must be one of the supplied manifests"@,
        )]
    } else {
        Seq::<DiagnosticV>::empty()
    };
    if find_module_index(&modules, root).is_none() {
        let mut msg = String::from_str("root module `");
        msg.append(root);
        msg.append("` is missing from the import graph");
        diagnostics.push(module_error(line, msg.as_str(), "the root module must be one of the supplied manifests"));
    }
    assert(crate::axiom_registry::diagnostics_view(diagnostics@) =~= d1 + d2s);
    let (edges, more) = graph_edges_exec(&modules, line);
    let ghost d2 = crate::axiom_registry::diagnostics_view(diagnostics@);
    let mut k: usize = 0;
    while k < more.len()
        invariant
            k <= more.len(),
            crate::axiom_registry::diagnostics_view(diagnostics@) == d2 + crate::axiom_registry::diagnostics_view(more@).take(k as int),
        decreases more.len() - k,
    {
        let ghost before = crate::axiom_registry::diagnostics_view(diagnostics@);
        diagnostics.push(more[k].duplicate());
        assert(crate::axiom_registry::diagnostics_view(diagnostics@) =~= before.push(more@[k as int]@));
        assert(crate::axiom_registry::diagnostics_view(more@).take(k + 1) =~= crate::axiom_registry::diagnostics_view(more@).take(
            k as int,
        ).push(more@[k as int]@));
        k = k + 1;
    }
    assert(crate::axiom_registry::diagnostics_view(more@).take(k as int) =~= crate::axiom_registry::diagnostics_view(more@));
    let ghost ge = graph_edges(ms, line, ms.len() as int);
    assert(ms.len() == modules.len());
    assert(edges_view(edges@) == ge.0);
    assert(crate::axiom_registry::diagnostics_view(diagnostics@) == d1 + d2s + ge.1);
    let ghost dsv = crate::axiom_registry::diagnostics_view(diagnostics@);
    assert(dsv.len() == diagnostics.len());
    if diagnostics.len() == 0 {
        match find_import_cycle(&modules) {
            Some(c) => {
                assert(strings_view(c@) =~= c.deep_view());
                let mut msg = String::from_str("cyclic import graph detected: ");
                msg.append(join_strings(&c, " -> ").as_str());
                diagnostics.push(module_error(
                    line,
                    msg.as_str(),
                    "import graphs must be acyclic so trust and visibility flow in one direction",
                ));
            },
            None => {},
        }
    }
    assert(crate::axiom_registry::diagnostics_view(diagnostics@) == (if dsv.len() == 0 {
        match find_cycle_from(ms, 0, Seq::empty()) {
            Some(c) => seq![cycle_error(c, line)],
            None => Seq::empty(),
        }
    } else {
        dsv
    }));
    if diagnostics.len() == 0 {
        Ok(ImportGraph { root: String::from_str(root), modules, edges })
    } else {
        Err(diagnostics)
    }
}

/// The index of the first export with this symbol, from `k`.
pub open spec fn find_export(es: Seq<ExportDeclV>, symbol: Seq<char>, k: int) -> Option<int>
    decreases es.len() - k,
{
    if k < 0 || k >= es.len() {
        None
    } else if es[k].symbol == symbol {
        Some(k)
    } else {
        find_export(es, symbol, k + 1)
    }
}

/// What `require_public_export` gives: the module's first export of that
/// symbol, when it is public.
pub open spec fn require_public_export_spec(g: ImportGraphV, module: Seq<char>, symbol: Seq<char>, line: usize) -> Result<
    ExportDeclV,
    DiagnosticV,
> {
    match find_module(g.modules, module, 0) {
        None => Err(module_error_model(
            line,
            "unknown module `"@ + module + "` in import graph"@,
            "public export lookup must target a resolved module"@,
        )),
        Some(i) => match find_export(g.modules[i].exports, symbol, 0) {
            None => Err(module_error_model(
                line,
                "module `"@ + module + "` does not export symbol `"@ + symbol + "`"@,
                "only declared public exports may be imported by another module"@,
            )),
            Some(j) => {
                let e = g.modules[i].exports[j];
                match e.visibility {
                    ExportVisibility::Public => Ok(e),
                    ExportVisibility::Private => Err(module_error_model(
                        line,
                        "module `"@ + module + "` has private symbol `"@ + symbol + "`, not a public export"@,
                        "private declarations must not leak across module boundaries"@,
                    )),
                }
            },
        },
    }
}

fn find_export_index(es: &Vec<ExportDecl>, symbol: &str) -> (r: Option<usize>)
    ensures
        r matches Some(i) ==> i < es.len(),
        find_export(exports_view(es@), symbol@, 0) == (match r {
            Some(i) => Some(i as int),
            None => None::<int>,
        }),
{
    let ghost ev = exports_view(es@);
    let mut i: usize = es.len();
    let mut found: Option<usize> = None;
    while i > 0
        invariant
            ev == exports_view(es@),
            i <= es.len(),
            found matches Some(j) ==> i <= j < es.len() && find_export(ev, symbol@, i as int) == Some(j as int),
            found is None ==> find_export(ev, symbol@, i as int) is None,
        decreases i,
    {
        i = i - 1;
        assert(ev[i as int] == es@[i as int]@);
        if str_eq(es[i].symbol.as_str(), symbol) {
            found = Some(i);
        }
    }
    found
}

pub fn require_public_export(graph: &ImportGraph, module: &str, symbol: &str, line: usize) -> (r: Result<ExportDecl, Diagnostic>)
    ensures
        require_public_export_spec(graph@, module@, symbol@, line) == (match r {
            Ok(e) => Ok::<ExportDeclV, DiagnosticV>(e@),
            Err(d) => Err::<ExportDeclV, DiagnosticV>(d@),
        }),
{
    let i = match find_module_index(&graph.modules, module) {
        Some(i) => i,
        None => {
            let mut msg = String::from_str("unknown module `");
            msg.append(module);
            msg.append("` in import graph");
            return Err(module_error(line, msg.as_str(), "public export lookup must target a resolved module"));
        },
    };
    assert(graph@.modules[i as int] == graph.modules@[i as int]@);
    let m = &graph.modules[i];
    let j = match find_export_index(&m.exports, symbol) {
        Some(j) => j,
        None => {
            let mut msg = String::from_str("module `");
            msg.append(module);
            msg.append("` does not export symbol `");
            msg.append(symbol);
            msg.append("`");
            return Err(module_error(line, msg.as_str(), "only declared public exports may be imported by another module"));
        },
    };
    assert(m@.exports[j as int] == m.exports@[j as int]@);
    let e = &m.exports[j];
    match e.visibility {
        ExportVisibility::Public => Ok(e.clone()),
        ExportVisibility::Private => {
            let mut msg = String::from_str("module `");
            msg.append(module);
            msg.append("` has private symbol `");
            msg.append(symbol);
            msg.append("`, not a public export");
            Err(module_error(line, msg.as_str(), "private declarations must not leak across module boundaries"))
        },
    }
}

/// The public symbols of a module, as (module name, symbol) pairs in order.
pub open spec fn public_symbols(m: ModuleManifestV) -> Seq<(Seq<char>, Seq<char>)>
    decreases m.exports.len(),
{
    if m.exports.len() == 0 {
        Seq::empty()
    } else {
        let rest = ModuleManifestV { exports: m.exports.drop_last(), ..m };
        let e = m.exports.last();
        public_symbols(rest) + if e.visibility == ExportVisibility::Public {
            seq![(m.name, e.symbol)]
        } else {
            Seq::empty()
        }
    }
}

/// The symbols imported through the first `n` imports of `module`, or the
/// error for the first import that does not resolve.
pub open spec fn imported_symbols_upto(g: ImportGraphV, module: Seq<char>, imports: Seq<ImportDeclV>, line: usize, n: int) -> Result<
    Seq<(Seq<char>, Seq<char>)>,
    DiagnosticV,
>
    decreases n,
{
    if n <= 0 {
        Ok(Seq::empty())
    } else {
        match imported_symbols_upto(g, module, imports, line, n - 1) {
            Err(d) => Err(d),
            Ok(acc) => match find_module(g.modules, imports[n - 1].path, 0) {
                None => Err(module_error_model(
                    line,
                    "module `"@ + module + "` imports missing module `"@ + imports[n - 1].path + "`"@,
                    "the import graph must be resolved before imported symbols are listed"@,
                )),
                Some(t) => Ok(acc + public_symbols(g.modules[t])),
            },
        }
    }
}

/// What `imported_public_symbols` gives.
pub open spec fn imported_public_symbols_spec(g: ImportGraphV, module: Seq<char>, line: usize) -> Result<
    Seq<(Seq<char>, Seq<char>)>,
    DiagnosticV,
> {
    match find_module(g.modules, module, 0) {
        None => Err(module_error_model(
            line,
            "unknown module `"@ + module + "` in import graph"@,
            "cannot list imports for an unresolved module"@,
        )),
        Some(i) => imported_symbols_upto(g, module, g.modules[i].imports, line, g.modules[i].imports.len() as int),
    }
}

/// The models of (module, symbol) pairs.
pub open spec fn pairs_view(v: Seq<(String, String)>) -> Seq<(Seq<char>, Seq<char>)> {
    v.map_values(|p: (String, String)| (p.0@, p.1@))
}

fn push_public_symbols(out: &mut Vec<(String, String)>, m: &ModuleManifest)
    ensures
        pairs_view(final(out)@) == pairs_view(old(out)@) + public_symbols(m@),
{
    let ghost mv = m@;
    let ghost start = pairs_view(out@);
    let mut k: usize = 0;
    assert(public_symbols(ModuleManifestV { exports: mv.exports.take(0), ..mv }) =~= Seq::<(Seq<char>, Seq<char>)>::empty());
    while k < m.exports.len()
        invariant
            mv == m@,
            k <= m.exports.len(),
            pairs_view(out@) == start + public_symbols(ModuleManifestV { exports: mv.exports.take(k as int), ..mv }),
        decreases m.exports.len() - k,
    {
        assert(mv.exports[k as int] == m.exports@[k as int]@);
        assert(mv.exports.take(k + 1).drop_last() =~= mv.exports.take(k as int));
        let ghost before = pairs_view(out@);
        if m.exports[k].visibility == ExportVisibility::Public {
            out.push((m.name.clone(), m.exports[k].symbol.clone()));
            assert(pairs_view(out@) =~= before.push((mv.name, mv.exports[k as int].symbol)));
        }
        k = k + 1;
    }
    assert(mv.exports.take(k as int) =~= mv.exports);
}

pub fn imported_public_symbols(graph: &ImportGraph, module: &str, line: usize) -> (r: Result<Vec<(String, String)>, Diagnostic>)
    ensures
        imported_public_symbols_spec(graph@, module@, line) == (match r {
            Ok(v) => Ok::<Seq<(Seq<char>, Seq<char>)>, DiagnosticV>(pairs_view(v@)),
            Err(d) => Err::<Seq<(Seq<char>, Seq<char>)>, DiagnosticV>(d@),
        }),
{
    let ghost gv = graph@;
    let i = match find_module_index(&graph.modules, module) {
        Some(i) => i,
        None => {
            let mut msg = String::from_str("unknown module `");
            msg.append(module);
            msg.append("` in import graph");
            return Err(module_error(line, msg.as_str(), "cannot list imports for an unresolved module"));
        },
    };
    assert(gv.modules[i as int] == graph.modules@[i as int]@);
    let m = &graph.modules[i];
    let ghost ims = gv.modules[i as int].imports;
    let mut out: Vec<(String, String)> = Vec::new();
    assert(pairs_view(out@) =~= Seq::<(Seq<char>, Seq<char>)>::empty());
    let mut k: usize = 0;
    while k < m.imports.len()
        invariant
            gv == graph@,
            ims == m@.imports,
            ims == gv.modules[i as int].imports,
            find_module(gv.modules, module@, 0) == Some(i as int),
            k <= m.imports.len(),
            imported_symbols_upto(gv, module@, ims, line, k as int) == Ok::<Seq<(Seq<char>, Seq<char>)>, DiagnosticV>(pairs_view(out@)),
        decreases m.imports.len() - k,
    {
        assert(ims[k as int] == m.imports@[k as int]@);
        let t = match find_module_index(&graph.modules, m.imports[k].path.as_str()) {
            Some(t) => t,
            None => {
                let mut msg = String::from_str("module `");
                msg.append(module);
                msg.append("` imports missing module `");
                msg.append(m.imports[k].path.as_str());
                msg.append("`");
                let d = module_error(line, msg.as_str(), "the import graph must be resolved before imported symbols are listed");
                proof {
                    assert(imported_symbols_upto(gv, module@, ims, line, k + 1) == Err::<Seq<(Seq<char>, Seq<char>)>, DiagnosticV>(d@));
                    lemma_imported_error_stays(gv, module@, ims, line, k + 1, ims.len() as int);
                }
                return Err(d);
            },
        };
        assert(gv.modules[t as int] == graph.modules@[t as int]@);
        push_public_symbols(&mut out, &graph.modules[t]);
        k = k + 1;
    }
    Ok(out)
}

proof fn lemma_imported_error_stays(g: ImportGraphV, module: Seq<char>, imports: Seq<ImportDeclV>, line: usize, m: int, n: int)
    requires
        0 <= m <= n,
        imported_symbols_upto(g, module, imports, line, m) is Err,
    ensures
        imported_symbols_upto(g, module, imports, line, n) == imported_symbols_upto(g, module, imports, line, m),
    decreases n - m,
{
    if m < n {
        lemma_imported_error_stays(g, module, imports, line, m, n - 1);
    }
}

/// The manifest events of the modules, in name order.
pub open spec fn manifest_events(ms: Seq<ModuleManifestV>) -> Seq<Seq<char>> {
    ms.map_values(|m: ModuleManifestV| manifest_event(m))
}

/// What `import_graph_passport` gives: the manifests' histories, then the graph event.
pub open spec fn import_graph_passport_spec(theory: Seq<char>, g: ImportGraphV) -> PassportV {
    PassportV {
        ty: TypeKindV::ImportGraph { root: g.root },
        construction: ConstructionMode::Definable,
        capabilities: module_caps(),
        cost: CostClass::SmallFinite,
        trust: TrustLevel::Builtin,
        provenance: Provenance::BuiltinKnown,
        validation: ValidationState::StaticChecked,
        theory: home_context(theory),
        history: manifest_events(g.modules).push("module:import_graph:"@ + g.root + ":edges="@ + dec_text(g.edges.len())),
        location: LocationContext::Local,
    }
}

pub fn import_graph_passport(theory: &str, graph: &ImportGraph) -> (r: Passport)
    ensures
        r@ == import_graph_passport_spec(theory@, graph@),
{
    let ghost gv = graph@;
    let mut history = HistoryChain::empty();
    let mut i: usize = 0;
    while i < graph.modules.len()
        invariant
            gv == graph@,
            i <= graph.modules.len(),
            history@ == manifest_events(gv.modules).take(i as int),
        decreases graph.modules.len() - i,
    {
        assert(gv.modules[i as int] == graph.modules@[i as int]@);
        let ev = manifest_event_string(&graph.modules[i]);
        history.push(ev.as_str());
        assert(manifest_events(gv.modules).take(i + 1) =~= manifest_events(gv.modules).take(i as int).push(
            manifest_event(gv.modules[i as int]),
        ));
        i = i + 1;
    }
    assert(manifest_events(gv.modules).take(i as int) =~= manifest_events(gv.modules));
    let mut ev = String::from_str("module:import_graph:");
    ev.append(graph.root.as_str());
    ev.append(":edges=");
    ev.append(usize_text(graph.edges.len()).as_str());
    history.push(ev.as_str());
    Passport {
        ty: TypeKind::ImportGraph { root: graph.root.clone() },
        construction: ConstructionMode::Definable,
        capabilities: module_capabilities(),
        cost: CostClass::SmallFinite,
        trust: TrustLevel::Builtin,
        provenance: Provenance::BuiltinKnown,
        validation: ValidationState::StaticChecked,
        theory: TheoryContext::new(theory),
        history,
        location: LocationContext::local(),
    }
}

proof fn lemma_module_pos_bounds(ms: Seq<ModuleManifestV>, name: Seq<char>, k: int)
    requires
        0 <= k <= ms.len(),
    ensures
        k <= module_pos(ms, name, k) <= ms.len(),
    decreases ms.len() - k,
{
    if k < ms.len() && !text_lt(name, ms[k].name) {
        lemma_module_pos_bounds(ms, name, k + 1);
    }
}

proof fn lemma_collected_modules_valid(mans: Seq<ModuleManifestV>, line: usize, n: int)
    ensures
        forall|i: int|
            0 <= i < collect_modules(mans, line, n).0.len() ==> manifest_error(
                #[trigger] collect_modules(mans, line, n).0[i],
                line,
            ) is None,
    decreases n,
{
    if n > 0 {
        lemma_collected_modules_valid(mans, line, n - 1);
        let ms = collect_modules(mans, line, n - 1).0;
        let m = mans[n - 1];
        if manifest_error(m, line) is None {
            let t = put_module(ms, m);
            match find_module(ms, m.name, 0) {
                Some(i) => {
                    lemma_find_module(ms, m.name, 0);
                    assert forall|j: int| 0 <= j < t.len() implies manifest_error(#[trigger] t[j], line) is None by {
                        if j != i {
                            assert(t[j] == ms[j]);
                        }
                    }
                },
                None => {
                    let p = module_pos(ms, m.name, 0);
                    lemma_module_pos_bounds(ms, m.name, 0);
                    ms.insert_ensures(p, m);
                    assert forall|j: int| 0 <= j < t.len() implies manifest_error(#[trigger] t[j], line) is None by {
                        if j < p {
                            assert(t[j] == ms[j]);
                        } else if j > p {
                            assert(t[j] == ms[j - 1]);
                        }
                    }
                },
            }
        }
    }
}

proof fn lemma_collected_names_distinct(mans: Seq<ModuleManifestV>, line: usize, n: int)
    ensures
        forall|i: int, j: int|
            0 <= i < j < collect_modules(mans, line, n).0.len() ==> #[trigger] collect_modules(mans, line, n).0[i].name
                != #[trigger] collect_modules(mans, line, n).0[j].name,
    decreases n,
{
    if n > 0 {
        lemma_collected_names_distinct(mans, line, n - 1);
        let ms = collect_modules(mans, line, n - 1).0;
        let m = mans[n - 1];
        if manifest_error(m, line) is None {
            let t = put_module(ms, m);
            match find_module(ms, m.name, 0) {
                Some(k) => {
                    lemma_find_module(ms, m.name, 0);
                    assert forall|i: int, j: int| 0 <= i < j < t.len() implies #[trigger] t[i].name != #[trigger] t[j].name by {
                        assert(t[i].name == ms[i].name);
                        assert(t[j].name == ms[j].name);
                    }
                },
                None => {
                    lemma_find_module(ms, m.name, 0);
                    let p = module_pos(ms, m.name, 0);
                    lemma_module_pos_bounds(ms, m.name, 0);
                    ms.insert_ensures(p, m);
                    assert forall|i: int, j: int| 0 <= i < j < t.len() implies #[trigger] t[i].name != #[trigger] t[j].name by {
                        if i < p {
                            assert(t[i] == ms[i]);
                        } else if i > p {
                            assert(t[i] == ms[i - 1]);
                        }
                        if j < p {
                            assert(t[j] == ms[j]);
                        } else if j > p {
                            assert(t[j] == ms[j - 1]);
                        }
                    }
                },
            }
        }
    }
}

/// A graph that `build_import_graph` returns holds its root module, holds only
/// valid manifests, names each module once, and has no import cycle.
pub proof fn lemma_built_graph_is_sound(root: Seq<char>, mans: Seq<ModuleManifestV>, line: usize)
    requires
        build_import_graph_spec(root, mans, line) is Ok,
    ensures
        ({
            let g = build_import_graph_spec(root, mans, line)->Ok_0;
            &&& g.root == root
            &&& find_module(g.modules, root, 0) is Some
            &&& find_cycle_from(g.modules, 0, Seq::empty()) is None
            &&& forall|i: int| 0 <= i < g.modules.len() ==> manifest_error(#[trigger] g.modules[i], line) is None
            &&& forall|i: int, j: int| 0 <= i < j < g.modules.len() ==> #[trigger] g.modules[i].name != #[trigger] g.modules[j].name
        }),
{
    lemma_collected_modules_valid(mans, line, mans.len() as int);
    lemma_collected_names_distinct(mans, line, mans.len() as int);
}

/// Module `x` has an import whose path is `y`.
pub open spec fn imports_module(ms: Seq<ModuleManifestV>, x: Seq<char>, y: Seq<char>) -> bool {
    exists|j: int| 0 <= j < imports_of(ms, x).len() && #[trigger] imports_of(ms, x)[j].path == y
}

/// A cycle of imports among the modules `ms`: names `c[0], c[1], ..., c[k] == c[0]`
/// with `k >= 1`, each the name of one of the modules, where each imports the next.
pub open spec fn is_import_cycle(ms: Seq<ModuleManifestV>, c: Seq<Seq<char>>) -> bool {
    &&& c.len() >= 2
    &&& c[0] == c[c.len() - 1]
    &&& forall|i: int| 0 <= i < c.len() ==> module_names(ms).contains(#[trigger] c[i])
    &&& forall|i: int| #![trigger c[i]] 0 <= i < c.len() - 1 ==> imports_module(ms, c[i], c[i + 1])
}

/// Every finished module comes after each known module that it imports.
spec fn finished_in_order(ms: Seq<ModuleManifestV>, v: Seq<Seq<char>>) -> bool {
    forall|p: int, y: Seq<char>|
        0 <= p < v.len() && #[trigger] imports_module(ms, v[p], y) && find_module(ms, y, 0) is Some ==> exists|q: int|
            0 <= q < p && v[q] == y
}

/// `w` starts with `v`.
spec fn extends(v: Seq<Seq<char>>, w: Seq<Seq<char>>) -> bool {
    v.len() <= w.len() && forall|q: int| 0 <= q < v.len() ==> w[q] == v[q]
}

proof fn lemma_push_keeps_path(ms: Seq<ModuleManifestV>, stack: Seq<Seq<char>>, name: Seq<char>)
    requires
        good_path(ms, stack),
        module_names(ms).contains(name),
        !stack.contains(name),
    ensures
        good_path(ms, stack.push(name)),
{
    let st2 = stack.push(name);
    assert forall|a: int, b: int| 0 <= a < st2.len() && 0 <= b < st2.len() && a != b implies st2[a] != st2[b] by {
        if a < stack.len() && b < stack.len() {
        } else if a == stack.len() {
            assert(stack.contains(st2[b]));
        } else {
            assert(stack.contains(st2[a]));
        }
    }
    assert forall|x: Seq<char>| st2.contains(x) implies module_names(ms).contains(x) by {
        if x != name {
            let j = choose|j: int| 0 <= j < st2.len() && st2[j] == x;
            assert(stack[j] == x);
            assert(stack.contains(x));
        }
    }
}

proof fn lemma_visit_finishes(ms: Seq<ModuleManifestV>, name: Seq<char>, visited: Seq<Seq<char>>, stack: Seq<Seq<char>>)
    requires
        good_path(ms, stack),
        module_names(ms).contains(name),
        finished_in_order(ms, visited),
    ensures
        stack.len() < ms.len() || stack.contains(name),
        visit(ms, name, visited, stack).0 is None ==> {
            let w = visit(ms, name, visited, stack).1;
            &&& finished_in_order(ms, w)
            &&& extends(visited, w)
            &&& w.contains(name)
        },
    decreases ms.len() - stack.len(), 0int, 0int,
{
    if !stack.contains(name) {
        lemma_path_shorter_than_modules(stack, ms, name);
    }
    if stack.contains(name) {
    } else if visited.contains(name) {
    } else {
        let st = stack.push(name);
        lemma_push_keeps_path(ms, stack, name);
        let imports = imports_of(ms, name);
        lemma_visit_imports_finishes(ms, imports, 0, visited, st);
        let r = visit_imports(ms, imports, 0, visited, st);
        if r.0 is None {
            let w = r.1.push(name);
            assert(w.last() == name);
            assert forall|p: int, y: Seq<char>|
                0 <= p < w.len() && #[trigger] imports_module(ms, w[p], y) && find_module(ms, y, 0) is Some implies exists|q: int|
                0 <= q < p && w[q] == y by {
                if p < r.1.len() {
                    assert(w[p] == r.1[p]);
                    assert(imports_module(ms, r.1[p], y));
                    let q = choose|q: int| 0 <= q < p && r.1[q] == y;
                    assert(w[q] == y);
                } else {
                    assert(w[p] == name);
                    let j = choose|j: int| 0 <= j < imports_of(ms, name).len() && #[trigger] imports_of(ms, name)[j].path == y;
                    assert(r.1.contains(imports[j].path));
                    let q = choose|q: int| 0 <= q < r.1.len() && r.1[q] == y;
                    assert(w[q] == y);
                }
            }
            assert(w[r.1.len() as int] == name);
        }
    }
}

proof fn lemma_visit_imports_finishes(
    ms: Seq<ModuleManifestV>,
    imports: Seq<ImportDeclV>,
    i: int,
    visited: Seq<Seq<char>>,
    st: Seq<Seq<char>>,
)
    requires
        good_path(ms, st),
        st.len() <= ms.len(),
        0 <= i,
        finished_in_order(ms, visited),
    ensures
        visit_imports(ms, imports, i, visited, st).0 is None ==> {
            let w = visit_imports(ms, imports, i, visited, st).1;
            &&& finished_in_order(ms, w)
            &&& extends(visited, w)
            &&& forall|j: int| i <= j < imports.len() && find_module(ms, #[trigger] imports[j].path, 0) is Some ==> w.contains(imports[j].path)
        },
    decreases ms.len() - st.len(), 1int, imports.len() - i,
{
    if i < imports.len() {
        let path = imports[i].path;
        if find_module(ms, path, 0) is Some {
            lemma_find_module(ms, path, 0);
            let idx = find_module(ms, path, 0)->0;
            assert(module_names(ms)[idx] == path);
            lemma_visit_finishes(ms, path, visited, st);
            let r = visit(ms, path, visited, st);
            if r.0 is None {
                lemma_visit_imports_finishes(ms, imports, i + 1, r.1, st);
                let w = visit_imports(ms, imports, i + 1, r.1, st).1;
                if visit_imports(ms, imports, i + 1, r.1, st).0 is None {
                    let q = choose|q: int| 0 <= q < r.1.len() && r.1[q] == path;
                    assert(w[q] == path);
                    assert forall|j: int| i <= j < imports.len() && find_module(ms, #[trigger] imports[j].path, 0) is Some implies w.contains(
                        imports[j].path,
                    ) by {
                        if j == i {
                            assert(w[q] == path);
                        }
                    }
                }
            }
        } else {
            lemma_visit_imports_finishes(ms, imports, i + 1, visited, st);
        }
    }
}

proof fn lemma_search_finishes(ms: Seq<ModuleManifestV>, k: int, visited: Seq<Seq<char>>) -> (v: Seq<Seq<char>>)
    requires
        0 <= k,
        finished_in_order(ms, visited),
    ensures
        find_cycle_from(ms, k, visited) is None ==> {
            &&& finished_in_order(ms, v)
            &&& extends(visited, v)
            &&& forall|j: int| k <= j < ms.len() ==> v.contains(#[trigger] ms[j].name)
        },
    decreases ms.len() - k,
{
    if k >= ms.len() {
        visited
    } else if visited.contains(ms[k].name) {
        let v = lemma_search_finishes(ms, k + 1, visited);
        if find_cycle_from(ms, k, visited) is None {
            let q = choose|q: int| 0 <= q < visited.len() && visited[q] == ms[k].name;
            assert(v[q] == ms[k].name);
        }
        v
    } else {
        assert(module_names(ms)[k] == ms[k].name);
        assert(good_path(ms, Seq::<Seq<char>>::empty()));
        lemma_visit_finishes(ms, ms[k].name, visited, Seq::empty());
        let r = visit(ms, ms[k].name, visited, Seq::empty());
        if r.0 is None {
            let v = lemma_search_finishes(ms, k + 1, r.1);
            if find_cycle_from(ms, k, visited) is None {
                let q = choose|q: int| 0 <= q < r.1.len() && r.1[q] == ms[k].name;
                assert(v[q] == ms[k].name);
            }
            v
        } else {
            visited
        }
    }
}

proof fn lemma_cycle_walk(ms: Seq<ModuleManifestV>, v: Seq<Seq<char>>, c: Seq<Seq<char>>, p: int, i: int) -> (q: int)
    requires
        finished_in_order(ms, v),
        is_import_cycle(ms, c),
        0 <= p < v.len(),
        v[p] == c[0],
        0 <= i < c.len(),
    ensures
        0 <= q < v.len(),
        v[q] == c[i],
        i > 0 ==> q < p,
        q <= p,
    decreases i,
{
    if i == 0 {
        p
    } else {
        let q0 = lemma_cycle_walk(ms, v, c, p, i - 1);
        let y = c[i];
        assert(imports_module(ms, c[i - 1], c[i - 1 + 1]));
        assert(module_names(ms).contains(y));
        let t = choose|t: int| 0 <= t < module_names(ms).len() && module_names(ms)[t] == y;
        lemma_find_module(ms, y, 0);
        assert(ms[t].name == y);
        assert(find_module(ms, y, 0) is Some);
        assert(imports_module(ms, v[q0], y));
        let q = choose|q: int| 0 <= q < q0 && v[q] == y;
        q
    }
}

proof fn lemma_no_cycle_from(ms: Seq<ModuleManifestV>, v: Seq<Seq<char>>, c: Seq<Seq<char>>, p: int)
    requires
        finished_in_order(ms, v),
        0 <= p < v.len(),
    ensures
        is_import_cycle(ms, c) ==> v[p] != c[0],
    decreases p,
{
    if is_import_cycle(ms, c) && v[p] == c[0] {
        let q = lemma_cycle_walk(ms, v, c, p, c.len() - 1);
        lemma_no_cycle_from(ms, v, c, q);
    }
}

/// An import graph that `build_import_graph` accepts is acyclic: among its
/// modules there is no sequence m0, m1, ..., mk = m0 (k >= 1) in which each
/// module imports the next.
pub proof fn lemma_built_graph_is_acyclic(root: Seq<char>, mans: Seq<ModuleManifestV>, line: usize, cycle: Seq<Seq<char>>)
    requires
        build_import_graph_spec(root, mans, line) is Ok,
    ensures
        !is_import_cycle(build_import_graph_spec(root, mans, line)->Ok_0.modules, cycle),
{
    lemma_built_graph_is_sound(root, mans, line);
    let ms = build_import_graph_spec(root, mans, line)->Ok_0.modules;
    assert(finished_in_order(ms, Seq::<Seq<char>>::empty()));
    let v = lemma_search_finishes(ms, 0, Seq::empty());
    if is_import_cycle(ms, cycle) {
        assert(module_names(ms).contains(cycle[0]));
        let t = choose|t: int| 0 <= t < module_names(ms).len() && module_names(ms)[t] == cycle[0];
        assert(ms[t].name == cycle[0]);
        assert(v.contains(ms[t].name));
        let p = choose|p: int| 0 <= p < v.len() && v[p] == cycle[0];
        lemma_no_cycle_from(ms, v, cycle, p);
    }
}

/// A cycle of imports through the modules `ms`, by position: `ms[p[0]], ms[p[1]],
/// ..., ms[p[k]] == ms[p[0]]` with `k >= 1`, where each module has an import whose
/// path is the name of the next.
pub open spec fn is_module_cycle(ms: Seq<ModuleManifestV>, p: Seq<int>) -> bool {
    &&& p.len() >= 2
    &&& p[0] == p[p.len() - 1]
    &&& forall|i: int| 0 <= i < p.len() ==> 0 <= #[trigger] p[i] < ms.len()
    &&& forall|i: int| #![trigger p[i]] 0 <= i < p.len() - 1 ==> exists|j: int|
        0 <= j < ms[p[i]].imports.len() && ms[p[i]].imports[j].path == ms[p[i + 1]].name
}

/// The same law over the graph's modules by position: no module of an accepted
/// graph reaches itself again by following imports.
pub proof fn lemma_built_graph_has_no_module_cycle(root: Seq<char>, mans: Seq<ModuleManifestV>, line: usize, path: Seq<int>)
    requires
        build_import_graph_spec(root, mans, line) is Ok,
    ensures
        !is_module_cycle(build_import_graph_spec(root, mans, line)->Ok_0.modules, path),
{
    lemma_built_graph_is_sound(root, mans, line);
    let ms = build_import_graph_spec(root, mans, line)->Ok_0.modules;
    if is_module_cycle(ms, path) {
        let c = Seq::new(path.len(), |i: int| ms[path[i]].name);
        assert forall|i: int| 0 <= i < c.len() implies module_names(ms).contains(#[trigger] c[i]) by {
            assert(0 <= path[i] < ms.len());
            assert(module_names(ms)[path[i]] == c[i]);
        }
        assert forall|i: int| #![trigger c[i]] 0 <= i < c.len() - 1 implies imports_module(ms, c[i], c[i + 1]) by {
            let x = path[i];
            assert(0 <= x < ms.len());
            assert(0 <= path[i + 1] < ms.len());
            lemma_find_module(ms, ms[x].name, 0);
            assert(find_module(ms, ms[x].name, 0) == Some(x)) by {
                if find_module(ms, ms[x].name, 0) is None {
                    assert(ms[x].name != ms[x].name);
                } else {
                    let f = find_module(ms, ms[x].name, 0)->0;
                    if f < x {
                        assert(ms[f].name != ms[x].name);
                    } else if f > x {
                        assert(ms[x].name != ms[f].name);
                    }
                }
            }
            assert(imports_of(ms, c[i]) == ms[x].imports);
            let j = choose|j: int| 0 <= j < ms[path[i]].imports.len() && ms[path[i]].imports[j].path == ms[path[i + 1]].name;
            assert(imports_of(ms, c[i])[j].path == c[i + 1]);
        }
        assert(is_import_cycle(ms, c));
        lemma_built_graph_is_acyclic(root, mans, line, c);
    }
}

/// Each module of `st` imports the next one.
spec fn import_chain(ms: Seq<ModuleManifestV>, st: Seq<Seq<char>>) -> bool {
    forall|i: int| #![trigger st[i]] 0 <= i < st.len() - 1 ==> imports_module(ms, st[i], st[i + 1])
}

proof fn lemma_stack_pos(stack: Seq<Seq<char>>, name: Seq<char>, k: int)
    requires
        0 <= k,
        exists|j: int| k <= j < stack.len() && stack[j] == name,
    ensures
        k <= stack_pos(stack, name, k) < stack.len(),
        stack[stack_pos(stack, name, k)] == name,
    decreases stack.len() - k,
{
    if stack[k] != name {
        let j = choose|j: int| k <= j < stack.len() && stack[j] == name;
        assert(k + 1 <= j);
        lemma_stack_pos(stack, name, k + 1);
    }
}

proof fn lemma_visit_cycle(ms: Seq<ModuleManifestV>, name: Seq<char>, visited: Seq<Seq<char>>, stack: Seq<Seq<char>>)
    requires
        good_path(ms, stack),
        module_names(ms).contains(name),
        import_chain(ms, stack),
        stack.len() > 0 ==> imports_module(ms, stack.last(), name),
    ensures
        visit(ms, name, visited, stack).0 matches Some(c) ==> is_import_cycle(ms, c),
    decreases ms.len() - stack.len(), 0int, 0int,
{
    if !stack.contains(name) {
        lemma_path_shorter_than_modules(stack, ms, name);
    }
    if stack.contains(name) {
        let j0 = choose|j: int| 0 <= j < stack.len() && stack[j] == name;
        lemma_stack_pos(stack, name, 0);
        let p = stack_pos(stack, name, 0);
        let c = stack.skip(p).push(name);
        assert(c.len() == stack.len() - p + 1);
        assert(c[0] == name);
        assert forall|i: int| 0 <= i < c.len() implies module_names(ms).contains(#[trigger] c[i]) by {
            if i < c.len() - 1 {
                assert(c[i] == stack[p + i]);
                assert(stack.contains(stack[p + i]));
            }
        }
        assert forall|i: int| #![trigger c[i]] 0 <= i < c.len() - 1 implies imports_module(ms, c[i], c[i + 1]) by {
            assert(c[i] == stack[p + i]);
            if i < c.len() - 2 {
                assert(c[i + 1] == stack[p + i + 1]);
                assert(stack[p + i] == stack[p + i]);
            } else {
                assert(c[i + 1] == name);
                assert(stack.last() == stack[p + i]);
            }
        }
    } else if visited.contains(name) {
    } else {
        let st = stack.push(name);
        lemma_push_keeps_path(ms, stack, name);
        assert forall|i: int| #![trigger st[i]] 0 <= i < st.len() - 1 implies imports_module(ms, st[i], st[i + 1]) by {
            assert(st[i] == stack[i]);
            if i < stack.len() - 1 {
                assert(st[i + 1] == stack[i + 1]);
                assert(stack[i] == stack[i]);
            } else {
                assert(st[i + 1] == name);
            }
        }
        assert(st.last() == name);
        lemma_visit_imports_cycle(ms, imports_of(ms, name), 0, visited, st);
    }
}

proof fn lemma_visit_imports_cycle(ms: Seq<ModuleManifestV>, imports: Seq<ImportDeclV>, i: int, visited: Seq<Seq<char>>, st: Seq<Seq<char>>)
    requires
        good_path(ms, st),
        st.len() <= ms.len(),
        0 <= i,
        import_chain(ms, st),
        st.len() > 0,
        imports == imports_of(ms, st.last()),
    ensures
        visit_imports(ms, imports, i, visited, st).0 matches Some(c) ==> is_import_cycle(ms, c),
    decreases ms.len() - st.len(), 1int, imports.len() - i,
{
    if i < imports.len() {
        let path = imports[i].path;
        if find_module(ms, path, 0) is Some {
            lemma_find_module(ms, path, 0);
            let idx = find_module(ms, path, 0)->0;
            assert(module_names(ms)[idx] == path);
            if !st.contains(path) {
                lemma_path_shorter_than_modules(st, ms, path);
            }
            assert(imports_of(ms, st.last())[i].path == path);
            assert(imports_module(ms, st.last(), path));
            lemma_visit_cycle(ms, path, visited, st);
            let r = visit(ms, path, visited, st);
            if r.0 is None {
                lemma_visit_imports_cycle(ms, imports, i + 1, r.1, st);
            }
        } else {
            lemma_visit_imports_cycle(ms, imports, i + 1, visited, st);
        }
    }
}

proof fn lemma_search_cycle(ms: Seq<ModuleManifestV>, k: int, visited: Seq<Seq<char>>)
    requires
        0 <= k,
    ensures
        find_cycle_from(ms, k, visited) matches Some(c) ==> is_import_cycle(ms, c),
    decreases ms.len() - k,
{
    if k < ms.len() {
        if visited.contains(ms[k].name) {
            lemma_search_cycle(ms, k + 1, visited);
        } else {
            assert(module_names(ms)[k] == ms[k].name);
            assert(good_path(ms, Seq::<Seq<char>>::empty()));
            lemma_visit_cycle(ms, ms[k].name, visited, Seq::empty());
            let r = visit(ms, ms[k].name, visited, Seq::empty());
            if r.0 is None {
                lemma_search_cycle(ms, k + 1, r.1);
            }
        }
    }
}

/// A cycle that the import search reports is a real one: its names run through
/// modules that each import the next and it comes back to where it started. So
/// `build_import_graph` refuses for a cycle only a graph that has one.
pub proof fn lemma_reported_cycle_is_real(ms: Seq<ModuleManifestV>)
    ensures
        find_cycle_from(ms, 0, Seq::empty()) matches Some(c) ==> is_import_cycle(ms, c),
{
    lemma_search_cycle(ms, 0, Seq::empty());
}

} // verus!
