//! Axiom registries and metatheory dependency audits.
//!
//! An decl is a named, fingerprinted assumption of one theory; a registry
//! collects a theory's axioms under distinct names, sorted by name. A
//! dependency audit lists what a subject rests on and rejects it when an entry
//! is unlabelled, repeated, or an decl that no registry declares.

use vstd::prelude::*;
use vstd::string::*;

use crate::diagnostics::{error_with_help, Diagnostic, DiagnosticKind, DiagnosticV};
use crate::fingerprint::{fingerprint_text, stable_fingerprint, strings_view};
use crate::passport::record::{copy_strings, home_context};
use crate::passport::type_kind::type_text;
use crate::passport::{
    Capability, CapabilitySet, ConstructionMode, CostClass, HistoryChain, LocationContext, Passport, PassportV, Provenance,
    TheoryContext, TrustLevel, TypeKind, TypeKindV, ValidationState,
};
use crate::text::{all_ws, bool_str, bool_text, chars_of, dec_text, is_blank, str_eq, usize_text};

verus! {

#[derive(Debug, Clone, Copy, PartialEq, Eq, Structural, PartialOrd, Ord)]
pub enum AxiomKind {
    Logical,
    Mathematical,
    Soundness,
    Reflection,
    Consistency,
    Domain,
    UnsafeExternal,
}

impl AxiomKind {
    pub open spec fn display_text(self) -> Seq<char> {
        match self {
            AxiomKind::Logical => "logical"@,
            AxiomKind::Mathematical => "mathematical"@,
            AxiomKind::Soundness => "soundness"@,
            AxiomKind::Reflection => "reflection"@,
            AxiomKind::Consistency => "consistency"@,
            AxiomKind::Domain => "domain"@,
            AxiomKind::UnsafeExternal => "unsafe_external"@,
        }
    }

    pub fn display_str(self) -> (r: &'static str)
        ensures
            r@ == self.display_text(),
    {
        match self {
            AxiomKind::Logical => "logical",
            AxiomKind::Mathematical => "mathematical",
            AxiomKind::Soundness => "soundness",
            AxiomKind::Reflection => "reflection",
            AxiomKind::Consistency => "consistency",
            AxiomKind::Domain => "domain",
            AxiomKind::UnsafeExternal => "unsafe_external",
        }
    }
}

#[derive(Debug, Clone, Copy, PartialEq, Eq, Structural, PartialOrd, Ord)]
pub enum DependencyUseKind {
    Axiom,
    Theorem,
    ProofCertificate,
    RewriteRule,
    ModuleInterface,
    ImportAudit,
    RuntimeWitness,
    Unknown,
}

impl DependencyUseKind {
    pub open spec fn display_text(self) -> Seq<char> {
        match self {
            DependencyUseKind::Axiom => "axiom"@,
            DependencyUseKind::Theorem => "theorem"@,
            DependencyUseKind::ProofCertificate => "proof_certificate"@,
            DependencyUseKind::RewriteRule => "rewrite_rule"@,
            DependencyUseKind::ModuleInterface => "module_interface"@,
            DependencyUseKind::ImportAudit => "import_audit"@,
            DependencyUseKind::RuntimeWitness => "runtime_witness"@,
            DependencyUseKind::Unknown => "unknown"@,
        }
    }

    pub fn display_str(self) -> (r: &'static str)
        ensures
            r@ == self.display_text(),
    {
        match self {
            DependencyUseKind::Axiom => "axiom",
            DependencyUseKind::Theorem => "theorem",
            DependencyUseKind::ProofCertificate => "proof_certificate",
            DependencyUseKind::RewriteRule => "rewrite_rule",
            DependencyUseKind::ModuleInterface => "module_interface",
            DependencyUseKind::ImportAudit => "import_audit",
            DependencyUseKind::RuntimeWitness => "runtime_witness",
            DependencyUseKind::Unknown => "unknown",
        }
    }
}

#[derive(Debug, Clone, Copy, PartialEq, Eq, Structural, PartialOrd, Ord)]
pub enum DependencyAuditStatus {
    Verified,
    Rejected,
}

impl DependencyAuditStatus {
    pub open spec fn display_text(self) -> Seq<char> {
        match self {
            DependencyAuditStatus::Verified => "verified"@,
            DependencyAuditStatus::Rejected => "rejected"@,
        }
    }

    pub fn display_str(self) -> (r: &'static str)
        ensures
            r@ == self.display_text(),
    {
        match self {
            DependencyAuditStatus::Verified => "verified",
            DependencyAuditStatus::Rejected => "rejected",
        }
    }
}

/// A declared decl of one theory.
#[derive(Debug)]
pub struct AxiomDecl {
    pub theory: String,
    pub name: String,
    pub proposition: String,
    pub kind: AxiomKind,
    pub trust: TrustLevel,
    pub provenance: Provenance,
    pub reason: String,
    pub fingerprint: String,
}

pub struct AxiomDeclV {
    pub theory: Seq<char>,
    pub name: Seq<char>,
    pub proposition: Seq<char>,
    pub kind: AxiomKind,
    pub trust: TrustLevel,
    pub provenance: Provenance,
    pub reason: Seq<char>,
    pub fingerprint: Seq<char>,
}

impl View for AxiomDecl {
    type V = AxiomDeclV;

    open spec fn view(&self) -> AxiomDeclV {
        AxiomDeclV {
            theory: self.theory@,
            name: self.name@,
            proposition: self.proposition@,
            kind: self.kind,
            trust: self.trust,
            provenance: self.provenance,
            reason: self.reason@,
            fingerprint: self.fingerprint@,
        }
    }
}

impl Clone for AxiomDecl {
    fn clone(&self) -> (r: Self)
        ensures
            r@ == self@,
    {
        AxiomDecl {
            theory: self.theory.clone(),
            name: self.name.clone(),
            proposition: self.proposition.clone(),
            kind: self.kind,
            trust: self.trust,
            provenance: self.provenance,
            reason: self.reason.clone(),
            fingerprint: self.fingerprint.clone(),
        }
    }
}

/// A theory's axioms under distinct names, sorted by name.
#[derive(Debug)]
pub struct AxiomRegistry {
    pub theory: String,
    pub axioms: Vec<AxiomDecl>,
    pub fingerprint: String,
}

pub struct AxiomRegistryV {
    pub theory: Seq<char>,
    pub axioms: Seq<AxiomDeclV>,
    pub fingerprint: Seq<char>,
}

/// The models of a sequence of axioms.
pub open spec fn axioms_view(s: Seq<AxiomDecl>) -> Seq<AxiomDeclV> {
    s.map_values(|a: AxiomDecl| a@)
}

impl View for AxiomRegistry {
    type V = AxiomRegistryV;

    open spec fn view(&self) -> AxiomRegistryV {
        AxiomRegistryV { theory: self.theory@, axioms: axioms_view(self.axioms@), fingerprint: self.fingerprint@ }
    }
}

/// One thing an audited subject depends on.
#[derive(Debug)]
pub struct DependencyEntry {
    pub label: String,
    pub kind: DependencyUseKind,
    pub ty: String,
    pub trust: TrustLevel,
    pub provenance: Provenance,
    pub validation: ValidationState,
    pub history: Vec<String>,
    pub fingerprint: String,
}

pub struct DependencyEntryV {
    pub label: Seq<char>,
    pub kind: DependencyUseKind,
    pub ty: Seq<char>,
    pub trust: TrustLevel,
    pub provenance: Provenance,
    pub validation: ValidationState,
    pub history: Seq<Seq<char>>,
    pub fingerprint: Seq<char>,
}

impl View for DependencyEntry {
    type V = DependencyEntryV;

    open spec fn view(&self) -> DependencyEntryV {
        DependencyEntryV {
            label: self.label@,
            kind: self.kind,
            ty: self.ty@,
            trust: self.trust,
            provenance: self.provenance,
            validation: self.validation,
            history: self.history.deep_view(),
            fingerprint: self.fingerprint@,
        }
    }
}

impl Clone for DependencyEntry {
    fn clone(&self) -> (r: Self)
        ensures
            r@ == self@,
    {
        DependencyEntry {
            label: self.label.clone(),
            kind: self.kind,
            ty: self.ty.clone(),
            trust: self.trust,
            provenance: self.provenance,
            validation: self.validation,
            history: copy_strings(&self.history),
            fingerprint: self.fingerprint.clone(),
        }
    }
}

/// The models of a sequence of dependency entries.
pub open spec fn entries_view(s: Seq<DependencyEntry>) -> Seq<DependencyEntryV> {
    s.map_values(|e: DependencyEntry| e@)
}

/// What a dependency audit found.
#[derive(Debug)]
pub struct MetatheoryDependencyAuditReport {
    pub subject: String,
    pub entries: Vec<DependencyEntry>,
    pub diagnostics: Vec<Diagnostic>,
    pub status: DependencyAuditStatus,
    pub max_trust: TrustLevel,
    pub has_axiom_taint: bool,
    pub has_oracle_taint: bool,
    pub has_unsafe_taint: bool,
    pub registry_fingerprint: Option<String>,
    pub audit_fingerprint: String,
}

pub struct MetatheoryDependencyAuditReportV {
    pub subject: Seq<char>,
    pub entries: Seq<DependencyEntryV>,
    pub diagnostics: Seq<DiagnosticV>,
    pub status: DependencyAuditStatus,
    pub max_trust: TrustLevel,
    pub has_axiom_taint: bool,
    pub has_oracle_taint: bool,
    pub has_unsafe_taint: bool,
    pub registry_fingerprint: Option<Seq<char>>,
    pub audit_fingerprint: Seq<char>,
}

/// The models of a sequence of diagnostics.
pub open spec fn diagnostics_view(s: Seq<Diagnostic>) -> Seq<DiagnosticV> {
    s.map_values(|d: Diagnostic| d@)
}

/// The model of an optional string.
pub open spec fn opt_text(s: Option<String>) -> Option<Seq<char>> {
    match s {
        Some(t) => Some(t@),
        None => None,
    }
}

impl View for MetatheoryDependencyAuditReport {
    type V = MetatheoryDependencyAuditReportV;

    open spec fn view(&self) -> MetatheoryDependencyAuditReportV {
        MetatheoryDependencyAuditReportV {
            subject: self.subject@,
            entries: entries_view(self.entries@),
            diagnostics: diagnostics_view(self.diagnostics@),
            status: self.status,
            max_trust: self.max_trust,
            has_axiom_taint: self.has_axiom_taint,
            has_oracle_taint: self.has_oracle_taint,
            has_unsafe_taint: self.has_unsafe_taint,
            registry_fingerprint: opt_text(self.registry_fingerprint),
            audit_fingerprint: self.audit_fingerprint@,
        }
    }
}

/// The prefix of every fingerprint this module makes.
pub open spec fn meta_prefix() -> Seq<char> {
    "dlm-meta-dep-v1-"@
}

/// An error of the dependency layer.
pub open spec fn meta_dep_error_model(line: usize, message: Seq<char>, help: Seq<char>) -> DiagnosticV {
    error_with_help(DiagnosticKind::MetatheoryDependencyError, line, message, help)
}

fn meta_dep_error(line: usize, message: &str, help: &str) -> (r: Diagnostic)
    ensures
        r@ == meta_dep_error_model(line, message@, help@),
{
    Diagnostic::error(DiagnosticKind::MetatheoryDependencyError, Some(line), message).with_help(help)
}

/// The error for a blank identifier, if `value` is blank.
pub open spec fn non_empty_error(value: Seq<char>, label: Seq<char>, line: usize) -> Option<DiagnosticV> {
    if all_ws(value) {
        Some(meta_dep_error_model(
            line,
            label + " must not be empty"@,
            "metatheory dependency objects need stable semantic identifiers"@,
        ))
    } else {
        None
    }
}

fn require_non_empty(value: &str, label: &str, line: usize) -> (r: Result<(), Diagnostic>)
    ensures
        non_empty_error(value@, label@, line) == (match r {
            Ok(()) => None::<DiagnosticV>,
            Err(d) => Some(d@),
        }),
{
    if is_blank(value) {
        let mut msg = String::from_str(label);
        msg.append(" must not be empty");
        Err(meta_dep_error(line, msg.as_str(), "metatheory dependency objects need stable semantic identifiers"))
    } else {
        Ok(())
    }
}

/// The trust and provenance an decl of this kind carries.
pub open spec fn axiom_taint(kind: AxiomKind) -> (TrustLevel, Provenance) {
    match kind {
        AxiomKind::UnsafeExternal => (TrustLevel::Unsafe, Provenance::UnsafeExternal),
        _ => (TrustLevel::Axiom, Provenance::BuiltinKnown),
    }
}

/// What `axiom_decl` gives: the first blank field is an error; otherwise the
/// decl, fingerprinted over all its fields.
pub open spec fn axiom_decl_spec(
    theory: Seq<char>,
    name: Seq<char>,
    proposition: Seq<char>,
    kind: AxiomKind,
    reason: Seq<char>,
    line: usize,
) -> Result<AxiomDeclV, DiagnosticV> {
    if non_empty_error(theory, "axiom theory"@, line) is Some {
        Err(non_empty_error(theory, "axiom theory"@, line)->0)
    } else if non_empty_error(name, "axiom name"@, line) is Some {
        Err(non_empty_error(name, "axiom name"@, line)->0)
    } else if non_empty_error(proposition, "axiom proposition"@, line) is Some {
        Err(non_empty_error(proposition, "axiom proposition"@, line)->0)
    } else if non_empty_error(reason, "axiom reason"@, line) is Some {
        Err(non_empty_error(reason, "axiom reason"@, line)->0)
    } else {
        let (trust, provenance) = axiom_taint(kind);
        Ok(AxiomDeclV {
            theory,
            name,
            proposition,
            kind,
            trust,
            provenance,
            reason,
            fingerprint: fingerprint_text(
                meta_prefix(),
                seq![
                    "axiom:v1"@,
                    theory,
                    name,
                    proposition,
                    kind.display_text(),
                    trust.debug_text(),
                    provenance.debug_text(),
                    reason,
                ],
            ),
        })
    }
}

pub fn axiom_decl(theory: &str, name: &str, proposition: &str, kind: AxiomKind, reason: &str, line: usize) -> (r: Result<AxiomDecl, Diagnostic>)
    ensures
        axiom_decl_spec(theory@, name@, proposition@, kind, reason@, line) == (match r {
            Ok(a) => Ok::<AxiomDeclV, DiagnosticV>(a@),
            Err(d) => Err::<AxiomDeclV, DiagnosticV>(d@),
        }),
{
    match require_non_empty(theory, "axiom theory", line) {
        Err(d) => return Err(d),
        Ok(()) => {},
    }
    match require_non_empty(name, "axiom name", line) {
        Err(d) => return Err(d),
        Ok(()) => {},
    }
    match require_non_empty(proposition, "axiom proposition", line) {
        Err(d) => return Err(d),
        Ok(()) => {},
    }
    match require_non_empty(reason, "axiom reason", line) {
        Err(d) => return Err(d),
        Ok(()) => {},
    }
    let (trust, provenance) = match kind {
        AxiomKind::UnsafeExternal => (TrustLevel::Unsafe, Provenance::UnsafeExternal),
        _ => (TrustLevel::Axiom, Provenance::BuiltinKnown),
    };
    let mut parts: Vec<String> = Vec::new();
    parts.push(String::from_str("axiom:v1"));
    parts.push(String::from_str(theory));
    parts.push(String::from_str(name));
    parts.push(String::from_str(proposition));
    parts.push(String::from_str(kind.display_str()));
    parts.push(String::from_str(trust.debug_str()));
    parts.push(String::from_str(provenance.debug_str()));
    parts.push(String::from_str(reason));
    let fingerprint = stable_fingerprint("dlm-meta-dep-v1-", &parts);
    assert(strings_view(parts@) =~= seq![
        "axiom:v1"@,
        theory@,
        name@,
        proposition@,
        kind.display_text(),
        trust.debug_text(),
        provenance.debug_text(),
        reason@,
    ]);
    Ok(AxiomDecl {
        theory: String::from_str(theory),
        name: String::from_str(name),
        proposition: String::from_str(proposition),
        kind,
        trust,
        provenance,
        reason: String::from_str(reason),
        fingerprint,
    })
}

/// The first index at or after `k` whose decl has this name.
pub open spec fn find_axiom_named(axioms: Seq<AxiomDeclV>, name: Seq<char>, k: int) -> Option<int>
    decreases axioms.len() - k,
{
    if k < 0 || k >= axioms.len() {
        None
    } else if axioms[k].name == name {
        Some(k)
    } else {
        find_axiom_named(axioms, name, k + 1)
    }
}

/// What `require_declared_axiom` gives: the first decl of that name.
pub open spec fn require_declared_axiom_spec(registry: AxiomRegistryV, name: Seq<char>, line: usize) -> Result<AxiomDeclV, DiagnosticV> {
    match non_empty_error(name, "axiom name"@, line) {
        Some(d) => Err(d),
        None => match find_axiom_named(registry.axioms, name, 0) {
            Some(i) => Ok(registry.axioms[i]),
            None => Err(meta_dep_error_model(
                line,
                "axiom `"@ + name + "` is not declared in registry `"@ + registry.theory + "`"@,
                "metatheory audits must not use undeclared assumptions or display-only decl labels"@,
            )),
        },
    }
}

pub fn require_declared_axiom(registry: &AxiomRegistry, name: &str, line: usize) -> (r: Result<AxiomDecl, Diagnostic>)
    ensures
        require_declared_axiom_spec(registry@, name@, line) == (match r {
            Ok(a) => Ok::<AxiomDeclV, DiagnosticV>(a@),
            Err(d) => Err::<AxiomDeclV, DiagnosticV>(d@),
        }),
{
    match require_non_empty(name, "axiom name", line) {
        Err(d) => return Err(d),
        Ok(()) => {},
    }
    let ghost axs = registry@.axioms;
    let mut i: usize = registry.axioms.len();
    // Search from the back so that the loop carries what is left to search.
    let mut found: Option<usize> = None;
    while i > 0
        invariant
            axs == registry@.axioms,
            axs.len() == registry.axioms.len(),
            i <= registry.axioms.len(),
            found matches Some(j) ==> i <= j < axs.len() && find_axiom_named(axs, name@, i as int) == Some(j as int),
            found is None ==> find_axiom_named(axs, name@, i as int) is None,
        decreases i,
    {
        i = i - 1;
        if str_eq(registry.axioms[i].name.as_str(), name) {
            found = Some(i);
        }
    }
    match found {
        Some(j) => Ok(registry.axioms[j].clone()),
        None => {
            let mut msg = String::from_str("axiom `");
            msg.append(name);
            msg.append("` is not declared in registry `");
            msg.append(registry.theory.as_str());
            msg.append("`");
            Err(meta_dep_error(
                line,
                msg.as_str(),
                "metatheory audits must not use undeclared assumptions or display-only decl labels",
            ))
        },
    }
}

/// What `dependency_entry_from_passport` gives.
pub open spec fn dependency_entry_from_passport_spec(label: Seq<char>, kind: DependencyUseKind, p: PassportV, line: usize) -> Result<DependencyEntryV, DiagnosticV> {
    match non_empty_error(label, "dependency label"@, line) {
        Some(d) => Err(d),
        None => Ok(DependencyEntryV {
            label,
            kind,
            ty: type_text(p.ty),
            trust: p.trust,
            provenance: p.provenance,
            validation: p.validation,
            history: p.history,
            fingerprint: fingerprint_text(
                meta_prefix(),
                seq![
                    "dependency-entry:v1"@,
                    label,
                    kind.display_text(),
                    type_text(p.ty),
                    p.trust.debug_text(),
                    p.provenance.debug_text(),
                    p.validation.debug_text(),
                    p.theory.home,
                ] + p.history,
            ),
        }),
    }
}

pub fn dependency_entry_from_passport(label: &str, kind: DependencyUseKind, passport: &Passport, line: usize) -> (r: Result<DependencyEntry, Diagnostic>)
    ensures
        dependency_entry_from_passport_spec(label@, kind, passport@, line) == (match r {
            Ok(e) => Ok::<DependencyEntryV, DiagnosticV>(e@),
            Err(d) => Err::<DependencyEntryV, DiagnosticV>(d@),
        }),
{
    match require_non_empty(label, "dependency label", line) {
        Err(d) => return Err(d),
        Ok(()) => {},
    }
    let history = copy_strings(passport.history.events());
    let ty = passport.ty.to_text();
    let mut parts: Vec<String> = Vec::new();
    parts.push(String::from_str("dependency-entry:v1"));
    parts.push(String::from_str(label));
    parts.push(String::from_str(kind.display_str()));
    parts.push(ty.clone());
    parts.push(String::from_str(passport.trust.debug_str()));
    parts.push(String::from_str(passport.provenance.debug_str()));
    parts.push(String::from_str(passport.validation.debug_str()));
    parts.push(passport.theory.home.clone());
    let ghost head = strings_view(parts@);
    let mut k: usize = 0;
    while k < history.len()
        invariant
            history.deep_view() == passport@.history,
            k <= history.len(),
            strings_view(parts@) == head + history.deep_view().take(k as int),
        decreases history.len() - k,
    {
        let ghost before = parts@;
        parts.push(history[k].clone());
        assert(strings_view(parts@) =~= strings_view(before).push(history.deep_view()[k as int]));
        assert(history.deep_view().take(k + 1) =~= history.deep_view().take(k as int).push(history.deep_view()[k as int]));
        k = k + 1;
    }
    assert(history.deep_view().take(k as int) =~= history.deep_view());
    assert(head =~= seq![
        "dependency-entry:v1"@,
        label@,
        kind.display_text(),
        type_text(passport@.ty),
        passport@.trust.debug_text(),
        passport@.provenance.debug_text(),
        passport@.validation.debug_text(),
        passport@.theory.home,
    ]);
    let fingerprint = stable_fingerprint("dlm-meta-dep-v1-", &parts);
    Ok(DependencyEntry {
        label: String::from_str(label),
        kind,
        ty,
        trust: passport.trust,
        provenance: passport.provenance,
        validation: passport.validation,
        history,
        fingerprint,
    })
}

/// What `dependency_entry_from_axiom` gives.
pub open spec fn dependency_entry_from_axiom_spec(a: AxiomDeclV) -> DependencyEntryV {
    DependencyEntryV {
        label: a.name,
        kind: DependencyUseKind::Axiom,
        ty: "Axiom<"@ + a.theory + ":"@ + a.proposition + ">"@,
        trust: a.trust,
        provenance: a.provenance,
        validation: ValidationState::Assumed,
        history: seq!["axiom:declared:"@ + a.theory + ":"@ + a.name],
        fingerprint: a.fingerprint,
    }
}

pub fn dependency_entry_from_axiom(decl: &AxiomDecl) -> (r: DependencyEntry)
    ensures
        r@ == dependency_entry_from_axiom_spec(decl@),
{
    let mut ty = String::from_str("Axiom<");
    ty.append(decl.theory.as_str());
    ty.append(":");
    ty.append(decl.proposition.as_str());
    ty.append(">");
    let mut ev = String::from_str("axiom:declared:");
    ev.append(decl.theory.as_str());
    ev.append(":");
    ev.append(decl.name.as_str());
    let mut history: Vec<String> = Vec::new();
    history.push(ev);
    let r = DependencyEntry {
        label: decl.name.clone(),
        kind: DependencyUseKind::Axiom,
        ty,
        trust: decl.trust,
        provenance: decl.provenance,
        validation: ValidationState::Assumed,
        history,
        fingerprint: decl.fingerprint.clone(),
    };
    assert(r@.history =~= dependency_entry_from_axiom_spec(decl@).history);
    r
}

/// Lexicographic order of texts by code point, as Rust orders strings.
pub open spec fn text_lt(a: Seq<char>, b: Seq<char>) -> bool
    decreases a.len(),
{
    if a.len() == 0 {
        b.len() > 0
    } else if b.len() == 0 {
        false
    } else if a[0] == b[0] {
        text_lt(a.drop_first(), b.drop_first())
    } else {
        a[0] < b[0]
    }
}

pub proof fn lemma_text_lt_irreflexive(a: Seq<char>)
    ensures
        !text_lt(a, a),
    decreases a.len(),
{
    if a.len() > 0 {
        lemma_text_lt_irreflexive(a.drop_first());
    }
}

pub proof fn lemma_text_lt_transitive(a: Seq<char>, b: Seq<char>, c: Seq<char>)
    requires
        text_lt(a, b),
        text_lt(b, c),
    ensures
        text_lt(a, c),
    decreases a.len(),
{
    if a.len() > 0 && b.len() > 0 && c.len() > 0 {
        if a[0] == b[0] && b[0] == c[0] {
            lemma_text_lt_transitive(a.drop_first(), b.drop_first(), c.drop_first());
        }
    }
}

pub proof fn lemma_text_lt_total(a: Seq<char>, b: Seq<char>)
    requires
        a != b,
    ensures
        text_lt(a, b) || text_lt(b, a),
    decreases a.len(),
{
    if a.len() > 0 && b.len() > 0 {
        if a[0] == b[0] {
            if a.drop_first() == b.drop_first() {
                assert(a =~= seq![a[0]] + a.drop_first());
                assert(b =~= seq![b[0]] + b.drop_first());
            }
            lemma_text_lt_total(a.drop_first(), b.drop_first());
        }
    } else if a.len() == 0 && b.len() == 0 {
        assert(a =~= b);
    }
}

fn text_lt_from(a: &Vec<char>, b: &Vec<char>, i: usize) -> (r: bool)
    requires
        i <= a.len(),
        i <= b.len(),
    ensures
        r == text_lt(a@.skip(i as int), b@.skip(i as int)),
    decreases a.len() - i,
{
    if i == a.len() {
        return i < b.len();
    }
    if i == b.len() {
        return false;
    }
    if a[i] == b[i] {
        proof {
            assert(a@.skip(i as int).drop_first() =~= a@.skip(i + 1));
            assert(b@.skip(i as int).drop_first() =~= b@.skip(i + 1));
        }
        text_lt_from(a, b, i + 1)
    } else {
        a[i] < b[i]
    }
}

/// Whether `a` sorts before `b`.
pub fn name_lt(a: &str, b: &str) -> (r: bool)
    ensures
        r == text_lt(a@, b@),
{
    let ca = chars_of(a);
    let cb = chars_of(b);
    proof {
        assert(ca@.skip(0) =~= a@);
        assert(cb@.skip(0) =~= b@);
    }
    text_lt_from(&ca, &cb, 0)
}

/// Where an axiom named `name` goes among `s`: before the first axiom whose
/// name sorts after it, searching from `k`.
pub open spec fn insert_pos(s: Seq<AxiomDeclV>, name: Seq<char>, k: int) -> int
    decreases s.len() - k,
{
    if k < 0 || k >= s.len() {
        s.len() as int
    } else if text_lt(name, s[k].name) {
        k
    } else {
        insert_pos(s, name, k + 1)
    }
}

/// `s` with `x` inserted by name.
pub open spec fn insert_by_name(s: Seq<AxiomDeclV>, x: AxiomDeclV) -> Seq<AxiomDeclV> {
    s.insert(insert_pos(s, x.name, 0), x)
}

/// `s` sorted by name (insertion sort, so the order is stable).
pub open spec fn sort_by_name(s: Seq<AxiomDeclV>) -> Seq<AxiomDeclV>
    decreases s.len(),
{
    if s.len() == 0 {
        s
    } else {
        insert_by_name(sort_by_name(s.drop_last()), s.last())
    }
}

/// Names strictly increase along `s`.
pub open spec fn names_strictly_sorted(s: Seq<AxiomDeclV>) -> bool {
    forall|i: int, j: int| 0 <= i < j < s.len() ==> text_lt(#[trigger] s[i].name, #[trigger] s[j].name)
}

/// No two axioms of `s` share a name.
pub open spec fn names_distinct(s: Seq<AxiomDeclV>) -> bool {
    forall|i: int, j: int| 0 <= i < j < s.len() ==> #[trigger] s[i].name != #[trigger] s[j].name
}

proof fn lemma_insert_pos(s: Seq<AxiomDeclV>, name: Seq<char>, k: int)
    requires
        0 <= k <= s.len(),
    ensures
        k <= insert_pos(s, name, k) <= s.len(),
        forall|m: int| k <= m < insert_pos(s, name, k) ==> !text_lt(name, #[trigger] s[m].name),
        insert_pos(s, name, k) < s.len() ==> text_lt(name, s[insert_pos(s, name, k)].name),
    decreases s.len() - k,
{
    if k < s.len() && !text_lt(name, s[k].name) {
        lemma_insert_pos(s, name, k + 1);
    }
}

proof fn lemma_insert_sorted(s: Seq<AxiomDeclV>, x: AxiomDeclV)
    requires
        names_strictly_sorted(s),
        forall|m: int| 0 <= m < s.len() ==> #[trigger] s[m].name != x.name,
    ensures
        names_strictly_sorted(insert_by_name(s, x)),
{
    let p = insert_pos(s, x.name, 0);
    lemma_insert_pos(s, x.name, 0);
    let t = insert_by_name(s, x);
    s.insert_ensures(p, x);
    assert forall|m: int| 0 <= m < p implies text_lt(#[trigger] s[m].name, x.name) by {
        lemma_text_lt_total(s[m].name, x.name);
    }
    assert forall|m: int| p <= m < s.len() implies text_lt(x.name, #[trigger] s[m].name) by {
        if m > p {
            lemma_text_lt_transitive(x.name, s[p].name, s[m].name);
        }
    }
    assert forall|i: int, j: int| 0 <= i < j < t.len() implies text_lt(#[trigger] t[i].name, #[trigger] t[j].name) by {
        if j < p {
            assert(t[i] == s[i] && t[j] == s[j]);
        } else if j == p {
            assert(t[i] == s[i]);
        } else if i < p {
            assert(t[i] == s[i] && t[j] == s[j - 1]);
            lemma_text_lt_transitive(s[i].name, x.name, s[j - 1].name);
        } else if i == p {
            assert(t[j] == s[j - 1]);
        } else {
            assert(t[i] == s[i - 1] && t[j] == s[j - 1]);
        }
    }
}

proof fn lemma_sort_by_name(s: Seq<AxiomDeclV>)
    requires
        names_distinct(s),
    ensures
        names_strictly_sorted(sort_by_name(s)),
        sort_by_name(s).len() == s.len(),
        forall|y: AxiomDeclV| sort_by_name(s).contains(y) <==> s.contains(y),
    decreases s.len(),
{
    if s.len() > 0 {
        let r = s.drop_last();
        assert(names_distinct(r));
        lemma_sort_by_name(r);
        let t = sort_by_name(r);
        assert forall|m: int| 0 <= m < t.len() implies #[trigger] t[m].name != s.last().name by {
            assert(r.contains(t[m]));
            let k = choose|k: int| 0 <= k < r.len() && r[k] == t[m];
            assert(s[k] == t[m]);
        }
        lemma_insert_sorted(t, s.last());
        lemma_insert_pos(t, s.last().name, 0);
        let p = insert_pos(t, s.last().name, 0);
        t.insert_ensures(p, s.last());
        assert forall|y: AxiomDeclV| sort_by_name(s).contains(y) <==> s.contains(y) by {
            if sort_by_name(s).contains(y) {
                let k = choose|k: int| 0 <= k < t.len() + 1 && t.insert(p, s.last())[k] == y;
                if k < p {
                    assert(t[k] == y);
                    assert(t.contains(y));
                } else if k > p {
                    assert(t[k - 1] == y);
                    assert(t.contains(y));
                }
                if y != s.last() {
                    assert(r.contains(y));
                    let j = choose|j: int| 0 <= j < r.len() && r[j] == y;
                    assert(s[j] == y);
                } else {
                    assert(s[s.len() - 1] == y);
                }
            }
            if s.contains(y) {
                let j = choose|j: int| 0 <= j < s.len() && s[j] == y;
                if j < s.len() - 1 {
                    assert(r[j] == y);
                    assert(r.contains(y));
                    assert(t.contains(y));
                    let k = choose|k: int| 0 <= k < t.len() && t[k] == y;
                    if k < p {
                        assert(t.insert(p, s.last())[k] == y);
                    } else {
                        assert(t.insert(p, s.last())[k + 1] == y);
                    }
                } else {
                    assert(t.insert(p, s.last())[p] == y);
                }
            }
        }
    }
}

/// The error for the axiom at `k`: from another theory, or reusing an earlier name.
pub open spec fn registry_entry_error(theory: Seq<char>, s: Seq<AxiomDeclV>, line: usize, k: int) -> Option<DiagnosticV> {
    if s[k].theory != theory {
        Some(meta_dep_error_model(
            line,
            "axiom `"@ + s[k].name + "` belongs to theory `"@ + s[k].theory + "`, not registry theory `"@ + theory + "`"@,
            "axiom registries are per-theory contracts; cross-theory assumptions need explicit bridges/imports"@,
        ))
    } else if exists|j: int| 0 <= j < k && #[trigger] s[j].name == s[k].name {
        Some(meta_dep_error_model(
            line,
            "duplicate axiom `"@ + s[k].name + "` in registry `"@ + theory + "`"@,
            "each axiom name must resolve to one stable declaration and fingerprint"@,
        ))
    } else {
        None
    }
}

/// The first error among the first `n` axioms.
pub open spec fn registry_error(theory: Seq<char>, s: Seq<AxiomDeclV>, line: usize, n: int) -> Option<DiagnosticV>
    decreases n,
{
    if n <= 0 {
        None
    } else {
        match registry_error(theory, s, line, n - 1) {
            Some(d) => Some(d),
            None => registry_entry_error(theory, s, line, n - 1),
        }
    }
}

/// The fingerprints of a sequence of axioms.
pub open spec fn axiom_fingerprints(s: Seq<AxiomDeclV>) -> Seq<Seq<char>> {
    s.map_values(|a: AxiomDeclV| a.fingerprint)
}

/// What `axiom_registry` gives.
pub open spec fn axiom_registry_spec(theory: Seq<char>, axioms: Seq<AxiomDeclV>, line: usize) -> Result<AxiomRegistryV, DiagnosticV> {
    match non_empty_error(theory, "registry theory"@, line) {
        Some(d) => Err(d),
        None => match registry_error(theory, axioms, line, axioms.len() as int) {
            Some(d) => Err(d),
            None => {
                let sorted = sort_by_name(axioms);
                Ok(AxiomRegistryV {
                    theory,
                    axioms: sorted,
                    fingerprint: fingerprint_text(meta_prefix(), seq!["axiom-registry:v1"@, theory] + axiom_fingerprints(sorted)),
                })
            },
        },
    }
}

proof fn lemma_registry_error_stays(theory: Seq<char>, s: Seq<AxiomDeclV>, line: usize, m: int, n: int)
    requires
        0 <= m <= n,
        registry_error(theory, s, line, m) is Some,
    ensures
        registry_error(theory, s, line, n) == registry_error(theory, s, line, m),
    decreases n - m,
{
    if m < n {
        lemma_registry_error_stays(theory, s, line, m, n - 1);
    }
}

proof fn lemma_registry_clean_distinct(theory: Seq<char>, s: Seq<AxiomDeclV>, line: usize, n: int)
    requires
        0 <= n <= s.len(),
        registry_error(theory, s, line, n) is None,
    ensures
        forall|i: int, j: int| 0 <= i < j < n ==> #[trigger] s[i].name != #[trigger] s[j].name,
        forall|i: int| 0 <= i < n ==> #[trigger] s[i].theory == theory,
    decreases n,
{
    if n > 0 {
        lemma_registry_clean_distinct(theory, s, line, n - 1);
        assert forall|i: int, j: int| 0 <= i < j < n implies #[trigger] s[i].name != #[trigger] s[j].name by {
            if j == n - 1 && s[i].name == s[j].name {
                assert(exists|k: int| 0 <= k < n - 1 && #[trigger] s[k].name == s[n - 1].name);
            }
        }
    }
}

/// Every registry that `axiom_registry` accepts holds axioms of its own theory,
/// under distinct names, in strictly increasing name order.
pub proof fn lemma_registry_sorted_by_name(theory: Seq<char>, axioms: Seq<AxiomDeclV>, line: usize)
    ensures
        match axiom_registry_spec(theory, axioms, line) {
            Ok(g) => {
                &&& names_strictly_sorted(g.axioms)
                &&& forall|i: int| 0 <= i < g.axioms.len() ==> (#[trigger] g.axioms[i]).theory == theory
                &&& forall|y: AxiomDeclV| g.axioms.contains(y) <==> axioms.contains(y)
            },
            Err(_) => true,
        },
{
    if axiom_registry_spec(theory, axioms, line) is Ok {
        assert(registry_error(theory, axioms, line, axioms.len() as int) is None);
        lemma_registry_clean_distinct(theory, axioms, line, axioms.len() as int);
        lemma_sort_by_name(axioms);
        let t = sort_by_name(axioms);
        assert(axiom_registry_spec(theory, axioms, line)->Ok_0.axioms == t);
        assert forall|i: int| 0 <= i < t.len() implies (#[trigger] t[i]).theory == theory by {
            assert(t.contains(t[i]));
            assert(axioms.contains(t[i]));
            let k = choose|k: int| 0 <= k < axioms.len() && axioms[k] == t[i];
        }
    }
}

pub fn axiom_registry(theory: &str, axioms: Vec<AxiomDecl>, line: usize) -> (r: Result<AxiomRegistry, Diagnostic>)
    ensures
        axiom_registry_spec(theory@, axioms_view(axioms@), line) == (match r {
            Ok(g) => Ok::<AxiomRegistryV, DiagnosticV>(g@),
            Err(d) => Err::<AxiomRegistryV, DiagnosticV>(d@),
        }),
{
    match require_non_empty(theory, "registry theory", line) {
        Err(d) => return Err(d),
        Ok(()) => {},
    }
    let ghost s = axioms_view(axioms@);
    let mut i: usize = 0;
    while i < axioms.len()
        invariant
            s == axioms_view(axioms@),
            s.len() == axioms.len(),
            i <= axioms.len(),
            registry_error(theory@, s, line, i as int) is None,
            non_empty_error(theory@, "registry theory"@, line) is None,
        decreases axioms.len() - i,
    {
        assert(s[i as int] == axioms@[i as int]@);
        if !str_eq(axioms[i].theory.as_str(), theory) {
            let mut msg = String::from_str("axiom `");
            msg.append(axioms[i].name.as_str());
            msg.append("` belongs to theory `");
            msg.append(axioms[i].theory.as_str());
            msg.append("`, not registry theory `");
            msg.append(theory);
            msg.append("`");
            let d = meta_dep_error(
                line,
                msg.as_str(),
                "axiom registries are per-theory contracts; cross-theory assumptions need explicit bridges/imports",
            );
            proof {
                assert(registry_error(theory@, s, line, i + 1) == Some(d@));
                lemma_registry_error_stays(theory@, s, line, i + 1, s.len() as int);
            }
            return Err(d);
        }
        let mut j: usize = 0;
        let mut dup = false;
        while j < i
            invariant
                s == axioms_view(axioms@),
                s.len() == axioms.len(),
                j <= i < axioms.len(),
                dup == exists|k: int| 0 <= k < j && #[trigger] s[k].name == s[i as int].name,
            decreases i - j,
        {
            assert(s[j as int] == axioms@[j as int]@);
            assert(s[i as int] == axioms@[i as int]@);
            if str_eq(axioms[j].name.as_str(), axioms[i].name.as_str()) {
                assert(s[j as int].name == s[i as int].name);
                dup = true;
            }
            j = j + 1;
        }
        if dup {
            let mut msg = String::from_str("duplicate axiom `");
            msg.append(axioms[i].name.as_str());
            msg.append("` in registry `");
            msg.append(theory);
            msg.append("`");
            let d = meta_dep_error(line, msg.as_str(), "each axiom name must resolve to one stable declaration and fingerprint");
            proof {
                assert(registry_error(theory@, s, line, i + 1) == Some(d@));
                lemma_registry_error_stays(theory@, s, line, i + 1, s.len() as int);
            }
            return Err(d);
        }
        assert(registry_error(theory@, s, line, i + 1) is None);
        i = i + 1;
    }
    // Insertion sort by name.
    let mut sorted: Vec<AxiomDecl> = Vec::new();
    let mut i: usize = 0;
    assert(s.take(0) =~= Seq::<AxiomDeclV>::empty());
    while i < axioms.len()
        invariant
            s == axioms_view(axioms@),
            s.len() == axioms.len(),
            i <= axioms.len(),
            axioms_view(sorted@) == sort_by_name(s.take(i as int)),
        decreases axioms.len() - i,
    {
        let x = axioms[i].clone();
        let ghost sv = axioms_view(sorted@);
        let mut k: usize = 0;
        while k < sorted.len() && !name_lt(x.name.as_str(), sorted[k].name.as_str())
            invariant
                sv == axioms_view(sorted@),
                k <= sorted.len(),
                insert_pos(sv, x@.name, 0) == insert_pos(sv, x@.name, k as int),
            decreases sorted.len() - k,
        {
            assert(sv[k as int] == sorted@[k as int]@);
            k = k + 1;
        }
        proof {
            if k < sorted.len() {
                assert(sv[k as int] == sorted@[k as int]@);
            }
        }
        sorted.insert(k, x);
        proof {
            assert(s.take(i + 1).drop_last() =~= s.take(i as int));
            assert(s.take(i + 1).last() == s[i as int]);
            assert(axioms_view(sorted@) =~= sv.insert(k as int, s[i as int]));
        }
        i = i + 1;
    }
    assert(s.take(i as int) =~= s);
    let mut parts: Vec<String> = Vec::new();
    parts.push(String::from_str("axiom-registry:v1"));
    parts.push(String::from_str(theory));
    let ghost head = strings_view(parts@);
    let ghost sv = axioms_view(sorted@);
    let mut k: usize = 0;
    while k < sorted.len()
        invariant
            sv == axioms_view(sorted@),
            k <= sorted.len(),
            strings_view(parts@) == head + axiom_fingerprints(sv).take(k as int),
        decreases sorted.len() - k,
    {
        let ghost before = parts@;
        parts.push(sorted[k].fingerprint.clone());
        assert(strings_view(parts@) =~= strings_view(before).push(sorted@[k as int].fingerprint@));
        assert(axiom_fingerprints(sv).take(k + 1) =~= axiom_fingerprints(sv).take(k as int).push(sv[k as int].fingerprint));
        k = k + 1;
    }
    assert(axiom_fingerprints(sv).take(k as int) =~= axiom_fingerprints(sv));
    assert(head =~= seq!["axiom-registry:v1"@, theory@]);
    let fingerprint = stable_fingerprint("dlm-meta-dep-v1-", &parts);
    Ok(AxiomRegistry { theory: String::from_str(theory), axioms: sorted, fingerprint })
}

/// The model of an optional registry reference.
pub open spec fn opt_registry_view(r: Option<&AxiomRegistry>) -> Option<AxiomRegistryV> {
    match r {
        Some(g) => Some(g@),
        None => None,
    }
}

/// Whether some earlier entry (before `k`) has the fingerprint of entry `k`.
pub open spec fn repeats_fingerprint(es: Seq<DependencyEntryV>, k: int) -> bool {
    exists|j: int| 0 <= j < k && #[trigger] es[j].fingerprint == es[k].fingerprint
}

/// Whether the registry declares an axiom with this fingerprint.
pub open spec fn declares_fingerprint(g: AxiomRegistryV, fp: Seq<char>) -> bool {
    exists|i: int| 0 <= i < g.axioms.len() && #[trigger] g.axioms[i].fingerprint == fp
}

/// The diagnostics for one entry: a blank label, a repeated fingerprint, an
/// axiom that the registry does not back.
pub open spec fn entry_diags(es: Seq<DependencyEntryV>, registry: Option<AxiomRegistryV>, line: usize, k: int) -> Seq<DiagnosticV> {
    let e = es[k];
    let blank = if all_ws(e.label) {
        seq![meta_dep_error_model(
            line,
            "dependency entry label must not be empty"@,
            "dependency labels are semantic identifiers, not display placeholders"@,
        )]
    } else {
        Seq::empty()
    };
    let repeated = if repeats_fingerprint(es, k) {
        seq![meta_dep_error_model(
            line,
            "duplicate dependency fingerprint `"@ + e.fingerprint + "`"@,
            "dependency audits preserve multiplicity by label, but repeated identical fingerprints must be intentional and explicit in a later weighted audit layer"@,
        )]
    } else {
        Seq::empty()
    };
    let unbacked = if e.kind == DependencyUseKind::Axiom {
        match registry {
            Some(g) => if declares_fingerprint(g, e.fingerprint) {
                Seq::empty()
            } else {
                seq![meta_dep_error_model(
                    line,
                    "axiom dependency `"@ + e.label + "` is not present in registry `"@ + g.theory + "`"@,
                    "axiom-tainted dependencies must be backed by a declared registry entry"@,
                )]
            },
            None => seq![meta_dep_error_model(
                line,
                "axiom dependency `"@ + e.label + "` has no registry"@,
                "metatheory closure audits must carry an explicit axiom registry when axioms are used"@,
            )],
        }
    } else {
        Seq::empty()
    };
    blank + repeated + unbacked
}

/// The diagnostics for the first `n` entries.
pub open spec fn entries_diags(es: Seq<DependencyEntryV>, registry: Option<AxiomRegistryV>, line: usize, n: int) -> Seq<DiagnosticV>
    decreases n,
{
    if n <= 0 {
        Seq::empty()
    } else {
        entries_diags(es, registry, line, n - 1) + entry_diags(es, registry, line, n - 1)
    }
}

/// All the diagnostics of an audit, in the order they are reported.
pub open spec fn audit_diags(subject: Seq<char>, es: Seq<DependencyEntryV>, registry: Option<AxiomRegistryV>, line: usize) -> Seq<DiagnosticV> {
    let s1 = if all_ws(subject) {
        seq![meta_dep_error_model(
            line,
            "dependency audit subject must not be empty"@,
            "audits need stable subject identity before they can be exported or compared"@,
        )]
    } else {
        Seq::empty()
    };
    let s2 = if es.len() == 0 {
        seq![meta_dep_error_model(
            line,
            "dependency audit `"@ + subject + "` has no entries"@,
            "empty dependency audits are not useful as metatheory closure evidence"@,
        )]
    } else {
        Seq::empty()
    };
    s1 + s2 + entries_diags(es, registry, line, es.len() as int)
}

/// The most tainted trust of the entries (from `Checked`), and whether any
/// reaches axiom, oracle, or unsafe (an unsafe-external provenance counts as unsafe).
pub open spec fn audit_taint(es: Seq<DependencyEntryV>) -> (TrustLevel, bool, bool, bool)
    decreases es.len(),
{
    if es.len() == 0 {
        (TrustLevel::Checked, false, false, false)
    } else {
        let (t, a, o, u) = audit_taint(es.drop_last());
        let e = es.last();
        (
            t.higher(e.trust),
            a || e.trust.rank() >= TrustLevel::Axiom.rank(),
            o || e.trust.rank() >= TrustLevel::Oracle.rank(),
            u || e.trust.rank() >= TrustLevel::Unsafe.rank() || e.provenance == Provenance::UnsafeExternal,
        )
    }
}

/// The fingerprints of entries.
pub open spec fn entry_fingerprints(es: Seq<DependencyEntryV>) -> Seq<Seq<char>> {
    es.map_values(|e: DependencyEntryV| e.fingerprint)
}

/// The text each diagnostic contributes to an audit fingerprint.
pub open spec fn diag_keys(ds: Seq<DiagnosticV>) -> Seq<Seq<char>> {
    ds.map_values(|d: DiagnosticV| d.kind.debug_text() + ":"@ + d.message)
}

/// The parts an audit's fingerprint is taken over.
pub open spec fn audit_parts(
    subject: Seq<char>,
    status: DependencyAuditStatus,
    max_trust: TrustLevel,
    ax: bool,
    or: bool,
    un: bool,
    registry_fingerprint: Option<Seq<char>>,
    es: Seq<DependencyEntryV>,
    ds: Seq<DiagnosticV>,
) -> Seq<Seq<char>> {
    seq![
        "dependency-audit:v1"@,
        subject,
        status.display_text(),
        max_trust.debug_text(),
        bool_text(ax),
        bool_text(or),
        bool_text(un),
        match registry_fingerprint {
            Some(f) => f,
            None => "no-registry"@,
        },
    ] + entry_fingerprints(es) + diag_keys(ds)
}

/// The fingerprint of an audit's outcome.
pub open spec fn audit_fingerprint_text(
    subject: Seq<char>,
    status: DependencyAuditStatus,
    max_trust: TrustLevel,
    ax: bool,
    or: bool,
    un: bool,
    registry_fingerprint: Option<Seq<char>>,
    es: Seq<DependencyEntryV>,
    ds: Seq<DiagnosticV>,
) -> Seq<char> {
    fingerprint_text(meta_prefix(), audit_parts(subject, status, max_trust, ax, or, un, registry_fingerprint, es, ds))
}

/// What `audit_metatheory_dependencies` gives: every diagnostic found, and the
/// audit verified exactly when there is none.
pub open spec fn audit_spec(subject: Seq<char>, es: Seq<DependencyEntryV>, registry: Option<AxiomRegistryV>, line: usize) -> MetatheoryDependencyAuditReportV {
    let ds = audit_diags(subject, es, registry, line);
    let status = if ds.len() == 0 { DependencyAuditStatus::Verified } else { DependencyAuditStatus::Rejected };
    let (t, a, o, u) = audit_taint(es);
    let rf = match registry {
        Some(g) => Some(g.fingerprint),
        None => None,
    };
    MetatheoryDependencyAuditReportV {
        subject,
        entries: es,
        diagnostics: ds,
        status,
        max_trust: t,
        has_axiom_taint: a,
        has_oracle_taint: o,
        has_unsafe_taint: u,
        registry_fingerprint: rf,
        audit_fingerprint: audit_fingerprint_text(subject, status, t, a, o, u, rf, es, ds),
    }
}

fn registry_declares(g: &AxiomRegistry, fp: &str) -> (r: bool)
    ensures
        r == declares_fingerprint(g@, fp@),
{
    let mut i: usize = 0;
    while i < g.axioms.len()
        invariant
            i <= g.axioms.len(),
            g@.axioms.len() == g.axioms.len(),
            forall|k: int| 0 <= k < i ==> #[trigger] g@.axioms[k].fingerprint != fp@,
        decreases g.axioms.len() - i,
    {
        assert(g@.axioms[i as int] == g.axioms@[i as int]@);
        if str_eq(g.axioms[i].fingerprint.as_str(), fp) {
            assert(g@.axioms[i as int].fingerprint == fp@);
            return true;
        }
        i = i + 1;
    }
    false
}

fn repeats_earlier(entries: &Vec<DependencyEntry>, k: usize) -> (r: bool)
    requires
        k < entries.len(),
    ensures
        r == repeats_fingerprint(entries_view(entries@), k as int),
{
    let ghost es = entries_view(entries@);
    let mut j: usize = 0;
    while j < k
        invariant
            es == entries_view(entries@),
            j <= k < entries.len(),
            forall|m: int| 0 <= m < j ==> #[trigger] es[m].fingerprint != es[k as int].fingerprint,
        decreases k - j,
    {
        assert(es[j as int] == entries@[j as int]@);
        assert(es[k as int] == entries@[k as int]@);
        if str_eq(entries[j].fingerprint.as_str(), entries[k].fingerprint.as_str()) {
            assert(es[j as int].fingerprint == es[k as int].fingerprint);
            return true;
        }
        j = j + 1;
    }
    false
}

fn push_entry_diags(diagnostics: &mut Vec<Diagnostic>, entries: &Vec<DependencyEntry>, registry: Option<&AxiomRegistry>, line: usize, k: usize)
    requires
        k < entries.len(),
    ensures
        diagnostics_view(final(diagnostics)@) == diagnostics_view(old(diagnostics)@) + entry_diags(
            entries_view(entries@),
            opt_registry_view(registry),
            line,
            k as int,
        ),
{
    let ghost es = entries_view(entries@);
    let ghost start = diagnostics_view(diagnostics@);
    assert(es[k as int] == entries@[k as int]@);
    let entry = &entries[k];
    if is_blank(entry.label.as_str()) {
        diagnostics.push(meta_dep_error(
            line,
            "dependency entry label must not be empty",
            "dependency labels are semantic identifiers, not display placeholders",
        ));
    }
    let ghost after_blank = diagnostics_view(diagnostics@);
    if repeats_earlier(entries, k) {
        let mut msg = String::from_str("duplicate dependency fingerprint `");
        msg.append(entry.fingerprint.as_str());
        msg.append("`");
        diagnostics.push(meta_dep_error(
            line,
            msg.as_str(),
            "dependency audits preserve multiplicity by label, but repeated identical fingerprints must be intentional and explicit in a later weighted audit layer",
        ));
    }
    let ghost after_repeat = diagnostics_view(diagnostics@);
    if entry.kind == DependencyUseKind::Axiom {
        match registry {
            Some(g) => {
                if !registry_declares(g, entry.fingerprint.as_str()) {
                    let mut msg = String::from_str("axiom dependency `");
                    msg.append(entry.label.as_str());
                    msg.append("` is not present in registry `");
                    msg.append(g.theory.as_str());
                    msg.append("`");
                    diagnostics.push(meta_dep_error(
                        line,
                        msg.as_str(),
                        "axiom-tainted dependencies must be backed by a declared registry entry",
                    ));
                }
            },
            None => {
                let mut msg = String::from_str("axiom dependency `");
                msg.append(entry.label.as_str());
                msg.append("` has no registry");
                diagnostics.push(meta_dep_error(
                    line,
                    msg.as_str(),
                    "metatheory closure audits must carry an explicit axiom registry when axioms are used",
                ));
            },
        }
    }
    proof {
        let e = es[k as int];
        let blank = if all_ws(e.label) {
            seq![meta_dep_error_model(
                line,
                "dependency entry label must not be empty"@,
                "dependency labels are semantic identifiers, not display placeholders"@,
            )]
        } else {
            Seq::empty()
        };
        assert(after_blank =~= start + blank);
        let repeated = if repeats_fingerprint(es, k as int) {
            seq![meta_dep_error_model(
                line,
                "duplicate dependency fingerprint `"@ + e.fingerprint + "`"@,
                "dependency audits preserve multiplicity by label, but repeated identical fingerprints must be intentional and explicit in a later weighted audit layer"@,
            )]
        } else {
            Seq::empty()
        };
        assert(after_repeat =~= start + blank + repeated);
        assert(diagnostics_view(diagnostics@) =~= start + entry_diags(es, opt_registry_view(registry), line, k as int));
    }
}

pub(crate) fn push_entry_fingerprints(parts: &mut Vec<String>, entries: &Vec<DependencyEntry>)
    ensures
        strings_view(final(parts)@) == strings_view(old(parts)@) + entry_fingerprints(entries_view(entries@)),
{
    let ghost head = strings_view(parts@);
    let ghost es = entries_view(entries@);
    let mut k: usize = 0;
    while k < entries.len()
        invariant
            es == entries_view(entries@),
            k <= entries.len(),
            strings_view(parts@) == head + entry_fingerprints(es).take(k as int),
        decreases entries.len() - k,
    {
        let ghost before = parts@;
        parts.push(entries[k].fingerprint.clone());
        assert(strings_view(parts@) =~= strings_view(before).push(entries@[k as int].fingerprint@));
        assert(entry_fingerprints(es).take(k + 1) =~= entry_fingerprints(es).take(k as int).push(es[k as int].fingerprint));
        k = k + 1;
    }
    assert(entry_fingerprints(es).take(k as int) =~= entry_fingerprints(es));
}

pub(crate) fn push_diag_keys(parts: &mut Vec<String>, diagnostics: &Vec<Diagnostic>)
    ensures
        strings_view(final(parts)@) == strings_view(old(parts)@) + diag_keys(diagnostics_view(diagnostics@)),
{
    let ghost mid = strings_view(parts@);
    let ghost ds = diagnostics_view(diagnostics@);
    let mut k: usize = 0;
    while k < diagnostics.len()
        invariant
            ds == diagnostics_view(diagnostics@),
            k <= diagnostics.len(),
            strings_view(parts@) == mid + diag_keys(ds).take(k as int),
        decreases diagnostics.len() - k,
    {
        let ghost before = parts@;
        let mut key = String::from_str(diagnostics[k].kind.debug_str());
        key.append(":");
        key.append(diagnostics[k].message.as_str());
        parts.push(key);
        assert(strings_view(parts@) =~= strings_view(before).push(ds[k as int].kind.debug_text() + ":"@ + ds[k as int].message));
        assert(diag_keys(ds).take(k + 1) =~= diag_keys(ds).take(k as int).push(
            ds[k as int].kind.debug_text() + ":"@ + ds[k as int].message,
        ));
        k = k + 1;
    }
    assert(diag_keys(ds).take(k as int) =~= diag_keys(ds));
}

fn audit_fingerprint(
    subject: &str,
    status: DependencyAuditStatus,
    max_trust: TrustLevel,
    has_axiom_taint: bool,
    has_oracle_taint: bool,
    has_unsafe_taint: bool,
    registry_fingerprint: &Option<String>,
    entries: &Vec<DependencyEntry>,
    diagnostics: &Vec<Diagnostic>,
) -> (r: String)
    ensures
        r@ == audit_fingerprint_text(
            subject@,
            status,
            max_trust,
            has_axiom_taint,
            has_oracle_taint,
            has_unsafe_taint,
            opt_text(*registry_fingerprint),
            entries_view(entries@),
            diagnostics_view(diagnostics@),
        ),
{
    let reg = match registry_fingerprint {
        Some(f) => f.clone(),
        None => String::from_str("no-registry"),
    };
    let mut parts: Vec<String> = Vec::new();
    parts.push(String::from_str("dependency-audit:v1"));
    parts.push(String::from_str(subject));
    parts.push(String::from_str(status.display_str()));
    parts.push(String::from_str(max_trust.debug_str()));
    parts.push(String::from_str(bool_str(has_axiom_taint)));
    parts.push(String::from_str(bool_str(has_oracle_taint)));
    parts.push(String::from_str(bool_str(has_unsafe_taint)));
    parts.push(reg);
    assert(strings_view(parts@) =~= seq![
        "dependency-audit:v1"@,
        subject@,
        status.display_text(),
        max_trust.debug_text(),
        bool_text(has_axiom_taint),
        bool_text(has_oracle_taint),
        bool_text(has_unsafe_taint),
        match opt_text(*registry_fingerprint) {
            Some(f) => f,
            None => "no-registry"@,
        },
    ]);
    let ghost head = strings_view(parts@);
    push_entry_fingerprints(&mut parts, entries);
    push_diag_keys(&mut parts, diagnostics);
    assert(strings_view(parts@) =~= head + entry_fingerprints(entries_view(entries@)) + diag_keys(diagnostics_view(diagnostics@)));
    let r = stable_fingerprint("dlm-meta-dep-v1-", &parts);
    assert(strings_view(parts@) =~= audit_parts(
        subject@,
        status,
        max_trust,
        has_axiom_taint,
        has_oracle_taint,
        has_unsafe_taint,
        opt_text(*registry_fingerprint),
        entries_view(entries@),
        diagnostics_view(diagnostics@),
    ));
    r
}

pub fn audit_metatheory_dependencies(
    subject: &str,
    entries: Vec<DependencyEntry>,
    registry: Option<&AxiomRegistry>,
    line: usize,
) -> (r: MetatheoryDependencyAuditReport)
    ensures
        r@ == audit_spec(subject@, entries_view(entries@), opt_registry_view(registry), line),
{
    let ghost es = entries_view(entries@);
    let ghost reg = opt_registry_view(registry);
    let mut diagnostics: Vec<Diagnostic> = Vec::new();
    if is_blank(subject) {
        diagnostics.push(meta_dep_error(
            line,
            "dependency audit subject must not be empty",
            "audits need stable subject identity before they can be exported or compared",
        ));
    }
    if entries.len() == 0 {
        let mut msg = String::from_str("dependency audit `");
        msg.append(subject);
        msg.append("` has no entries");
        diagnostics.push(meta_dep_error(line, msg.as_str(), "empty dependency audits are not useful as metatheory closure evidence"));
    }
    let ghost head = diagnostics_view(diagnostics@);
    let mut max_trust = TrustLevel::Checked;
    let mut has_axiom_taint = false;
    let mut has_oracle_taint = false;
    let mut has_unsafe_taint = false;
    let mut i: usize = 0;
    assert(es.take(0) =~= Seq::<DependencyEntryV>::empty());
    while i < entries.len()
        invariant
            es == entries_view(entries@),
            reg == opt_registry_view(registry),
            i <= entries.len(),
            diagnostics_view(diagnostics@) == head + entries_diags(es, reg, line, i as int),
            (max_trust, has_axiom_taint, has_oracle_taint, has_unsafe_taint) == audit_taint(es.take(i as int)),
        decreases entries.len() - i,
    {
        push_entry_diags(&mut diagnostics, &entries, registry, line, i);
        assert(es[i as int] == entries@[i as int]@);
        assert(es.take(i + 1).drop_last() =~= es.take(i as int));
        let e = &entries[i];
        max_trust = max_trust.higher(e.trust);
        has_axiom_taint = has_axiom_taint || e.trust.rank() >= TrustLevel::Axiom.rank();
        has_oracle_taint = has_oracle_taint || e.trust.rank() >= TrustLevel::Oracle.rank();
        has_unsafe_taint = has_unsafe_taint || e.trust.rank() >= TrustLevel::Unsafe.rank() || e.provenance == Provenance::UnsafeExternal;
        i = i + 1;
    }
    assert(es.take(i as int) =~= es);
    assert(diagnostics_view(diagnostics@) =~= audit_diags(subject@, es, reg, line));
    let status = if diagnostics.len() == 0 {
        DependencyAuditStatus::Verified
    } else {
        DependencyAuditStatus::Rejected
    };
    let registry_fingerprint = match registry {
        Some(g) => Some(g.fingerprint.clone()),
        None => None,
    };
    let audit_fingerprint = audit_fingerprint(
        subject,
        status,
        max_trust,
        has_axiom_taint,
        has_oracle_taint,
        has_unsafe_taint,
        &registry_fingerprint,
        &entries,
        &diagnostics,
    );
    MetatheoryDependencyAuditReport {
        subject: String::from_str(subject),
        entries,
        diagnostics,
        status,
        max_trust,
        has_axiom_taint,
        has_oracle_taint,
        has_unsafe_taint,
        registry_fingerprint,
        audit_fingerprint,
    }
}

/// What `require_verified_metatheory_dependency_audit` gives.
pub open spec fn require_verified_audit_spec(report: MetatheoryDependencyAuditReportV, line: usize) -> Result<(), DiagnosticV> {
    if report.status == DependencyAuditStatus::Verified {
        Ok(())
    } else {
        Err(meta_dep_error_model(
            line,
            "metatheory dependency audit `"@ + report.subject + "` is "@ + report.status.display_text(),
            "only verified dependency audits may serve as closure evidence for later proof/kernel layers"@,
        ))
    }
}

pub fn require_verified_metatheory_dependency_audit(report: &MetatheoryDependencyAuditReport, line: usize) -> (r: Result<(), Diagnostic>)
    ensures
        require_verified_audit_spec(report@, line) == (match r {
            Ok(()) => Ok::<(), DiagnosticV>(()),
            Err(d) => Err::<(), DiagnosticV>(d@),
        }),
{
    if report.status == DependencyAuditStatus::Verified {
        Ok(())
    } else {
        let mut msg = String::from_str("metatheory dependency audit `");
        msg.append(report.subject.as_str());
        msg.append("` is ");
        msg.append(report.status.display_str());
        Err(meta_dep_error(
            line,
            msg.as_str(),
            "only verified dependency audits may serve as closure evidence for later proof/kernel layers",
        ))
    }
}

/// The capabilities of metatheory objects.
pub open spec fn metatheory_caps() -> Set<Capability> {
    set![
        Capability::CanSymbolicPrint,
        Capability::CanInspectAst,
        Capability::CanMetaLevelReason,
        Capability::CanPropositionReason,
        Capability::CanTruthBoundaryReason,
    ]
}

pub(crate) fn metatheory_capabilities() -> (r: CapabilitySet)
    ensures
        r@ == metatheory_caps(),
{
    CapabilitySet::empty().with(Capability::CanSymbolicPrint).with(Capability::CanInspectAst).with(
        Capability::CanMetaLevelReason,
    ).with(Capability::CanPropositionReason).with(Capability::CanTruthBoundaryReason)
}

/// The most tainted trust of the axioms, from `Checked`.
pub open spec fn axioms_trust(s: Seq<AxiomDeclV>) -> TrustLevel
    decreases s.len(),
{
    if s.len() == 0 {
        TrustLevel::Checked
    } else {
        axioms_trust(s.drop_last()).higher(s.last().trust)
    }
}

/// Whether some axiom comes from unsafe external code.
pub open spec fn any_unsafe_external(s: Seq<AxiomDeclV>) -> bool
    decreases s.len(),
{
    s.len() > 0 && (any_unsafe_external(s.drop_last()) || s.last().provenance == Provenance::UnsafeExternal)
}

/// What `axiom_registry_passport` gives.
pub open spec fn axiom_registry_passport_spec(theory: Seq<char>, g: AxiomRegistryV) -> PassportV {
    PassportV {
        ty: TypeKindV::AxiomRegistry { theory: g.theory },
        construction: ConstructionMode::ProofFinite,
        capabilities: metatheory_caps(),
        cost: CostClass::ProofRequired,
        trust: axioms_trust(g.axioms),
        provenance: if any_unsafe_external(g.axioms) { Provenance::UnsafeExternal } else { Provenance::BuiltinKnown },
        validation: ValidationState::StaticChecked,
        theory: home_context(theory),
        history: seq![
            "metatheory:axiom_registry:"@ + g.theory + ":axioms="@ + dec_text(g.axioms.len()) + ":fingerprint="@ + g.fingerprint,
        ],
        location: LocationContext::Local,
    }
}

pub fn axiom_registry_passport(theory: &str, registry: &AxiomRegistry) -> (r: Passport)
    ensures
        r@ == axiom_registry_passport_spec(theory@, registry@),
{
    let ghost axs = registry@.axioms;
    let mut trust = TrustLevel::Checked;
    let mut unsafe_external = false;
    let mut i: usize = 0;
    assert(axs.take(0) =~= Seq::<AxiomDeclV>::empty());
    while i < registry.axioms.len()
        invariant
            axs == registry@.axioms,
            axs.len() == registry.axioms.len(),
            i <= registry.axioms.len(),
            trust == axioms_trust(axs.take(i as int)),
            unsafe_external == any_unsafe_external(axs.take(i as int)),
        decreases registry.axioms.len() - i,
    {
        assert(axs[i as int] == registry.axioms@[i as int]@);
        assert(axs.take(i + 1).drop_last() =~= axs.take(i as int));
        trust = trust.higher(registry.axioms[i].trust);
        unsafe_external = unsafe_external || registry.axioms[i].provenance == Provenance::UnsafeExternal;
        i = i + 1;
    }
    assert(axs.take(i as int) =~= axs);
    let mut ev = String::from_str("metatheory:axiom_registry:");
    ev.append(registry.theory.as_str());
    ev.append(":axioms=");
    ev.append(usize_text(registry.axioms.len()).as_str());
    ev.append(":fingerprint=");
    ev.append(registry.fingerprint.as_str());
    Passport {
        ty: TypeKind::AxiomRegistry { theory: registry.theory.clone() },
        construction: ConstructionMode::ProofFinite,
        capabilities: metatheory_capabilities(),
        cost: CostClass::ProofRequired,
        trust,
        provenance: if unsafe_external { Provenance::UnsafeExternal } else { Provenance::BuiltinKnown },
        validation: ValidationState::StaticChecked,
        theory: TheoryContext::new(theory),
        history: HistoryChain::from_event(ev.as_str()),
        location: LocationContext::local(),
    }
}

/// The history event of one dependency.
pub open spec fn dependency_event(e: DependencyEntryV) -> Seq<char> {
    "dependency:"@ + e.kind.display_text() + ":"@ + e.fingerprint
}

/// The history events of the dependencies, in order.
pub open spec fn dependency_events(es: Seq<DependencyEntryV>) -> Seq<Seq<char>> {
    es.map_values(|e: DependencyEntryV| dependency_event(e))
}

/// What `metatheory_dependency_audit_passport` gives.
pub open spec fn dependency_audit_passport_spec(theory: Seq<char>, r: MetatheoryDependencyAuditReportV) -> PassportV {
    let h = dependency_events(r.entries).push(
        "metatheory:dependency_audit:"@ + r.subject + ":"@ + r.status.display_text() + ":fingerprint="@ + r.audit_fingerprint,
    );
    PassportV {
        ty: TypeKindV::MetatheoryDependencyAudit { subject: r.subject, status: r.status.display_text() },
        construction: ConstructionMode::ProofFinite,
        capabilities: metatheory_caps(),
        cost: CostClass::ProofRequired,
        trust: r.max_trust,
        provenance: if r.has_unsafe_taint {
            Provenance::UnsafeExternal
        } else if r.has_oracle_taint {
            Provenance::OracleInput
        } else if r.has_axiom_taint {
            Provenance::BuiltinKnown
        } else {
            Provenance::InternalDerived
        },
        validation: if r.status == DependencyAuditStatus::Verified {
            ValidationState::StaticChecked
        } else {
            ValidationState::Raw
        },
        theory: home_context(theory),
        history: match r.registry_fingerprint {
            Some(f) => h.push("metatheory:registry:fingerprint="@ + f),
            None => h,
        },
        location: LocationContext::Local,
    }
}

pub fn metatheory_dependency_audit_passport(theory: &str, report: &MetatheoryDependencyAuditReport) -> (r: Passport)
    ensures
        r@ == dependency_audit_passport_spec(theory@, report@),
{
    let ghost es = report@.entries;
    let mut history = HistoryChain::empty();
    let mut i: usize = 0;
    while i < report.entries.len()
        invariant
            es == report@.entries,
            es.len() == report.entries.len(),
            i <= report.entries.len(),
            history@ == dependency_events(es).take(i as int),
        decreases report.entries.len() - i,
    {
        assert(es[i as int] == report.entries@[i as int]@);
        let mut ev = String::from_str("dependency:");
        ev.append(report.entries[i].kind.display_str());
        ev.append(":");
        ev.append(report.entries[i].fingerprint.as_str());
        history.push(ev.as_str());
        assert(dependency_events(es).take(i + 1) =~= dependency_events(es).take(i as int).push(dependency_event(es[i as int])));
        i = i + 1;
    }
    assert(dependency_events(es).take(i as int) =~= dependency_events(es));
    let mut ev = String::from_str("metatheory:dependency_audit:");
    ev.append(report.subject.as_str());
    ev.append(":");
    ev.append(report.status.display_str());
    ev.append(":fingerprint=");
    ev.append(report.audit_fingerprint.as_str());
    history.push(ev.as_str());
    match &report.registry_fingerprint {
        Some(f) => {
            let mut ev = String::from_str("metatheory:registry:fingerprint=");
            ev.append(f.as_str());
            history.push(ev.as_str());
        },
        None => {},
    }
    Passport {
        ty: TypeKind::MetatheoryDependencyAudit {
            subject: report.subject.clone(),
            status: String::from_str(report.status.display_str()),
        },
        construction: ConstructionMode::ProofFinite,
        capabilities: metatheory_capabilities(),
        cost: CostClass::ProofRequired,
        trust: report.max_trust,
        provenance: if report.has_unsafe_taint {
            Provenance::UnsafeExternal
        } else if report.has_oracle_taint {
            Provenance::OracleInput
        } else if report.has_axiom_taint {
            Provenance::BuiltinKnown
        } else {
            Provenance::InternalDerived
        },
        validation: if report.status == DependencyAuditStatus::Verified {
            ValidationState::StaticChecked
        } else {
            ValidationState::Raw
        },
        theory: TheoryContext::new(theory),
        history,
        location: LocationContext::local(),
    }
}

/// The export line of one axiom.
pub open spec fn axiom_line(a: AxiomDeclV) -> Seq<char> {
    "- "@ + a.name + " ["@ + a.kind.display_text() + "] trust="@ + a.trust.debug_text() + " provenance="@
        + a.provenance.debug_text() + " proposition="@ + a.proposition + " fingerprint="@ + a.fingerprint + " reason="@
        + a.reason + "\n"@
}

/// The export lines of the axioms, in order.
pub open spec fn axiom_lines(s: Seq<AxiomDeclV>) -> Seq<char>
    decreases s.len(),
{
    if s.len() == 0 {
        Seq::empty()
    } else {
        axiom_lines(s.drop_last()) + axiom_line(s.last())
    }
}

/// The export text of a registry.
pub open spec fn axiom_registry_text(g: AxiomRegistryV) -> Seq<char> {
    "DLM Axiom Registry v1\n"@ + "theory: "@ + g.theory + "\n"@ + "fingerprint: "@ + g.fingerprint + "\n"@ + "axioms: "@
        + dec_text(g.axioms.len()) + "\n"@ + axiom_lines(g.axioms)
}

fn axiom_line_string(a: &AxiomDecl) -> (r: String)
    ensures
        r@ == axiom_line(a@),
{
    let mut out = String::from_str("- ");
    out.append(a.name.as_str());
    out.append(" [");
    out.append(a.kind.display_str());
    out.append("] trust=");
    out.append(a.trust.debug_str());
    out.append(" provenance=");
    out.append(a.provenance.debug_str());
    out.append(" proposition=");
    out.append(a.proposition.as_str());
    out.append(" fingerprint=");
    out.append(a.fingerprint.as_str());
    out.append(" reason=");
    out.append(a.reason.as_str());
    out.append("\n");
    out
}

pub fn export_axiom_registry_text(registry: &AxiomRegistry) -> (r: String)
    ensures
        r@ == axiom_registry_text(registry@),
{
    let mut out = String::from_str("DLM Axiom Registry v1\n");
    out.append("theory: ");
    out.append(registry.theory.as_str());
    out.append("\n");
    out.append("fingerprint: ");
    out.append(registry.fingerprint.as_str());
    out.append("\n");
    out.append("axioms: ");
    out.append(usize_text(registry.axioms.len()).as_str());
    out.append("\n");
    let ghost head = out@;
    let ghost axs = registry@.axioms;
    let mut i: usize = 0;
    assert(axs.take(0) =~= Seq::<AxiomDeclV>::empty());
    assert(head + axiom_lines(axs.take(0)) =~= head);
    while i < registry.axioms.len()
        invariant
            axs == registry@.axioms,
            axs.len() == registry.axioms.len(),
            i <= registry.axioms.len(),
            out@ == head + axiom_lines(axs.take(i as int)),
        decreases registry.axioms.len() - i,
    {
        assert(axs[i as int] == registry.axioms@[i as int]@);
        assert(axs.take(i + 1).drop_last() =~= axs.take(i as int));
        out.append(axiom_line_string(&registry.axioms[i]).as_str());
        i = i + 1;
    }
    assert(axs.take(i as int) =~= axs);
    out
}

/// The report line of one dependency entry.
pub open spec fn entry_line(e: DependencyEntryV) -> Seq<char> {
    "- "@ + e.label + " kind="@ + e.kind.display_text() + " type="@ + e.ty + " trust="@ + e.trust.debug_text() + " provenance="@
        + e.provenance.debug_text() + " validation="@ + e.validation.debug_text() + " fingerprint="@ + e.fingerprint + "\n"@
}

/// The report lines of the entries, in order.
pub open spec fn entry_lines(es: Seq<DependencyEntryV>) -> Seq<char>
    decreases es.len(),
{
    if es.len() == 0 {
        Seq::empty()
    } else {
        entry_lines(es.drop_last()) + entry_line(es.last())
    }
}

/// The report lines of diagnostics: kind and message.
pub open spec fn diagnostic_lines(ds: Seq<DiagnosticV>) -> Seq<char>
    decreases ds.len(),
{
    if ds.len() == 0 {
        Seq::empty()
    } else {
        diagnostic_lines(ds.drop_last()) + "- "@ + ds.last().kind.debug_text() + ": "@ + ds.last().message + "\n"@
    }
}

/// The rendered text of a dependency audit.
pub open spec fn dependency_audit_text(r: MetatheoryDependencyAuditReportV) -> Seq<char> {
    let head = "DLM Metatheory Dependency Audit v1\n"@ + "subject: "@ + r.subject + "\n"@ + "status: "@ + r.status.display_text()
        + "\n"@ + "max_trust: "@ + r.max_trust.debug_text() + "\n"@ + "has_axiom_taint: "@ + bool_text(r.has_axiom_taint) + "\n"@
        + "has_oracle_taint: "@ + bool_text(r.has_oracle_taint) + "\n"@ + "has_unsafe_taint: "@ + bool_text(r.has_unsafe_taint)
        + "\n"@;
    let with_registry = match r.registry_fingerprint {
        Some(f) => head + "registry_fingerprint: "@ + f + "\n"@,
        None => head,
    };
    let body = with_registry + "audit_fingerprint: "@ + r.audit_fingerprint + "\n"@ + "entries: "@ + dec_text(r.entries.len())
        + "\n"@ + entry_lines(r.entries);
    if r.diagnostics.len() == 0 {
        body
    } else {
        body + "diagnostics:\n"@ + diagnostic_lines(r.diagnostics)
    }
}

/// Appends the report lines of `ds` to `out`.
pub(crate) fn append_diagnostic_lines(out: &mut String, diagnostics: &Vec<Diagnostic>)
    ensures
        final(out)@ == old(out)@ + diagnostic_lines(diagnostics_view(diagnostics@)),
{
    let ghost head = out@;
    let ghost ds = diagnostics_view(diagnostics@);
    let mut i: usize = 0;
    assert(ds.take(0) =~= Seq::<DiagnosticV>::empty());
    assert(head + diagnostic_lines(ds.take(0)) =~= head);
    while i < diagnostics.len()
        invariant
            ds == diagnostics_view(diagnostics@),
            i <= diagnostics.len(),
            out@ == head + diagnostic_lines(ds.take(i as int)),
        decreases diagnostics.len() - i,
    {
        assert(ds.take(i + 1).drop_last() =~= ds.take(i as int));
        out.append("- ");
        out.append(diagnostics[i].kind.debug_str());
        out.append(": ");
        out.append(diagnostics[i].message.as_str());
        out.append("\n");
        i = i + 1;
    }
    assert(ds.take(i as int) =~= ds);
}

fn entry_line_string(e: &DependencyEntry) -> (r: String)
    ensures
        r@ == entry_line(e@),
{
    let mut out = String::from_str("- ");
    out.append(e.label.as_str());
    out.append(" kind=");
    out.append(e.kind.display_str());
    out.append(" type=");
    out.append(e.ty.as_str());
    out.append(" trust=");
    out.append(e.trust.debug_str());
    out.append(" provenance=");
    out.append(e.provenance.debug_str());
    out.append(" validation=");
    out.append(e.validation.debug_str());
    out.append(" fingerprint=");
    out.append(e.fingerprint.as_str());
    out.append("\n");
    out
}

pub fn render_metatheory_dependency_audit_report(report: &MetatheoryDependencyAuditReport) -> (r: String)
    ensures
        r@ == dependency_audit_text(report@),
{
    let mut out = String::from_str("DLM Metatheory Dependency Audit v1\n");
    out.append("subject: ");
    out.append(report.subject.as_str());
    out.append("\n");
    out.append("status: ");
    out.append(report.status.display_str());
    out.append("\n");
    out.append("max_trust: ");
    out.append(report.max_trust.debug_str());
    out.append("\n");
    out.append("has_axiom_taint: ");
    out.append(bool_str(report.has_axiom_taint));
    out.append("\n");
    out.append("has_oracle_taint: ");
    out.append(bool_str(report.has_oracle_taint));
    out.append("\n");
    out.append("has_unsafe_taint: ");
    out.append(bool_str(report.has_unsafe_taint));
    out.append("\n");
    match &report.registry_fingerprint {
        Some(f) => {
            out.append("registry_fingerprint: ");
            out.append(f.as_str());
            out.append("\n");
        },
        None => {},
    }
    out.append("audit_fingerprint: ");
    out.append(report.audit_fingerprint.as_str());
    out.append("\n");
    out.append("entries: ");
    out.append(usize_text(report.entries.len()).as_str());
    out.append("\n");
    let ghost head = out@;
    let ghost es = report@.entries;
    let mut i: usize = 0;
    assert(es.take(0) =~= Seq::<DependencyEntryV>::empty());
    assert(head + entry_lines(es.take(0)) =~= head);
    while i < report.entries.len()
        invariant
            es == report@.entries,
            es.len() == report.entries.len(),
            i <= report.entries.len(),
            out@ == head + entry_lines(es.take(i as int)),
        decreases report.entries.len() - i,
    {
        assert(es[i as int] == report.entries@[i as int]@);
        assert(es.take(i + 1).drop_last() =~= es.take(i as int));
        out.append(entry_line_string(&report.entries[i]).as_str());
        i = i + 1;
    }
    assert(es.take(i as int) =~= es);
    if report.diagnostics.len() > 0 {
        out.append("diagnostics:\n");
        append_diagnostic_lines(&mut out, &report.diagnostics);
    }
    out
}

proof fn lemma_entries_diags_none(es: Seq<DependencyEntryV>, registry: Option<AxiomRegistryV>, line: usize, n: int, k: int)
    requires
        0 <= k < n,
        entries_diags(es, registry, line, n).len() == 0,
    ensures
        entry_diags(es, registry, line, k).len() == 0,
    decreases n,
{
    if k < n - 1 {
        lemma_entries_diags_none(es, registry, line, n - 1, k);
    }
}

/// A verified dependency audit is backed by its registry: every axiom dependency
/// carries the fingerprint of an axiom that the registry declares. So an axiom
/// dependency that the registry does not declare makes the audit rejected, and so
/// does any axiom dependency when no registry is given.
pub proof fn lemma_verified_audit_backs_axioms(subject: Seq<char>, es: Seq<DependencyEntryV>, g: AxiomRegistryV, line: usize)
    ensures
        audit_spec(subject, es, Some(g), line).status == DependencyAuditStatus::Verified ==> forall|k: int|
            0 <= k < es.len() && (#[trigger] es[k]).kind == DependencyUseKind::Axiom ==> exists|i: int|
                0 <= i < g.axioms.len() && g.axioms[i].fingerprint == es[k].fingerprint,
        (exists|k: int|
            0 <= k < es.len() && (#[trigger] es[k]).kind == DependencyUseKind::Axiom && forall|i: int|
                0 <= i < g.axioms.len() ==> g.axioms[i].fingerprint != es[k].fingerprint)
            ==> audit_spec(subject, es, Some(g), line).status == DependencyAuditStatus::Rejected,
        audit_spec(subject, es, None, line).status == DependencyAuditStatus::Verified ==> forall|k: int|
            0 <= k < es.len() ==> (#[trigger] es[k]).kind != DependencyUseKind::Axiom,
{
    let n = es.len() as int;
    if audit_spec(subject, es, Some(g), line).status == DependencyAuditStatus::Verified {
        assert forall|k: int| 0 <= k < es.len() && (#[trigger] es[k]).kind == DependencyUseKind::Axiom implies exists|i: int|
            0 <= i < g.axioms.len() && g.axioms[i].fingerprint == es[k].fingerprint by {
            lemma_entries_diags_none(es, Some(g), line, n, k);
            assert(declares_fingerprint(g, es[k].fingerprint));
        }
    }
    if audit_spec(subject, es, None, line).status == DependencyAuditStatus::Verified {
        assert forall|k: int| 0 <= k < es.len() implies (#[trigger] es[k]).kind != DependencyUseKind::Axiom by {
            lemma_entries_diags_none(es, None, line, n, k);
        }
    }
}

proof fn lemma_entries_diags_all_none(es: Seq<DependencyEntryV>, registry: Option<AxiomRegistryV>, line: usize, n: int)
    requires
        forall|k: int| 0 <= k < n ==> (#[trigger] entry_diags(es, registry, line, k)).len() == 0,
    ensures
        entries_diags(es, registry, line, n).len() == 0,
    decreases n,
{
    if n > 0 {
        lemma_entries_diags_all_none(es, registry, line, n - 1);
        assert(entry_diags(es, registry, line, n - 1).len() == 0);
    }
}

/// What a verified audit means: the audit is verified exactly when its subject
/// is not blank, it has entries, no entry label is blank, no two entries share a
/// fingerprint, and every axiom entry is backed by a registry axiom with its
/// fingerprint (so that axioms are used only with a registry at all).
pub proof fn lemma_audit_verified_iff(subject: Seq<char>, es: Seq<DependencyEntryV>, registry: Option<AxiomRegistryV>, line: usize)
    ensures
        audit_spec(subject, es, registry, line).status == DependencyAuditStatus::Verified <==> {
            &&& !all_ws(subject)
            &&& es.len() > 0
            &&& forall|k: int| 0 <= k < es.len() ==> !all_ws(#[trigger] es[k].label)
            &&& forall|j: int, k: int| 0 <= j < k < es.len() ==> #[trigger] es[j].fingerprint != #[trigger] es[k].fingerprint
            &&& forall|k: int|
                0 <= k < es.len() && (#[trigger] es[k]).kind == DependencyUseKind::Axiom ==> (registry matches Some(g) && exists|i: int|
                    0 <= i < g.axioms.len() && g.axioms[i].fingerprint == es[k].fingerprint)
        },
{
    let n = es.len() as int;
    if audit_spec(subject, es, registry, line).status == DependencyAuditStatus::Verified {
        assert forall|k: int| 0 <= k < es.len() implies !all_ws(#[trigger] es[k].label) by {
            lemma_entries_diags_none(es, registry, line, n, k);
        }
        assert forall|j: int, k: int| 0 <= j < k < es.len() implies #[trigger] es[j].fingerprint != #[trigger] es[k].fingerprint by {
            lemma_entries_diags_none(es, registry, line, n, k);
            if es[j].fingerprint == es[k].fingerprint {
                assert(repeats_fingerprint(es, k));
            }
        }
        assert forall|k: int|
            0 <= k < es.len() && (#[trigger] es[k]).kind == DependencyUseKind::Axiom implies (registry matches Some(g) && exists|i: int|
                0 <= i < g.axioms.len() && g.axioms[i].fingerprint == es[k].fingerprint) by {
            lemma_entries_diags_none(es, registry, line, n, k);
        }
    } else {
        if !all_ws(subject) && es.len() > 0 && (forall|k: int| 0 <= k < es.len() ==> !all_ws(#[trigger] es[k].label)) && (forall|j: int, k: int|
            0 <= j < k < es.len() ==> #[trigger] es[j].fingerprint != #[trigger] es[k].fingerprint) && (forall|k: int|
            0 <= k < es.len() && (#[trigger] es[k]).kind == DependencyUseKind::Axiom ==> (registry matches Some(g) && exists|i: int|
                0 <= i < g.axioms.len() && g.axioms[i].fingerprint == es[k].fingerprint)) {
            assert forall|k: int| 0 <= k < n implies (#[trigger] entry_diags(es, registry, line, k)).len() == 0 by {
                assert(!all_ws(es[k].label));
                assert(!repeats_fingerprint(es, k)) by {
                    if repeats_fingerprint(es, k) {
                        let j = choose|j: int| 0 <= j < k && #[trigger] es[j].fingerprint == es[k].fingerprint;
                        assert(es[j].fingerprint != es[k].fingerprint);
                    }
                }
                if es[k].kind == DependencyUseKind::Axiom {
                    let g = registry->Some_0;
                    let i = choose|i: int| 0 <= i < g.axioms.len() && g.axioms[i].fingerprint == es[k].fingerprint;
                    assert(declares_fingerprint(g, es[k].fingerprint));
                }
            }
            lemma_entries_diags_all_none(es, registry, line, n);
        }
    }
}

} // verus!
