//! Function contracts: purity, totality and effects declared for a function
//! object, with the assurance they leave and the obligations still open.

use vstd::prelude::*;
use vstd::string::*;

use crate::diagnostics::{error_with_help, Diagnostic, DiagnosticKind, DiagnosticV};
use crate::fingerprint::{fingerprint_text, stable_fingerprint, strings_view};
use crate::logic::{has_line_break, refs_view};
use crate::parser::expr::{ident_range, is_ident};
use crate::passport::record::{concat_histories, home_context, ref_histories};
use crate::passport::type_kind::type_text;
use crate::passport::{
    Capability, CapabilitySet, ConstructionMode, CostClass, HistoryChain, LocationContext, Passport, PassportV, Provenance,
    TheoryContext, TrustLevel, TypeKind, TypeKindV, ValidationState,
};
use crate::text::{all_ws, bool_str, bool_text, chars_of, is_blank, join_text};

verus! {

#[derive(Debug, Clone, Copy, PartialEq, Eq, Structural, PartialOrd, Ord)]
pub enum FunctionPurity {
    Pure,
    Effectful,
}

impl FunctionPurity {
    pub open spec fn display_text(self) -> Seq<char> {
        match self {
            FunctionPurity::Pure => "pure"@,
            FunctionPurity::Effectful => "effectful"@,
        }
    }

    pub fn display_str(self) -> (r: &'static str)
        ensures
            r@ == self.display_text(),
    {
        match self {
            FunctionPurity::Pure => "pure",
            FunctionPurity::Effectful => "effectful",
        }
    }
}

#[derive(Debug, Clone, Copy, PartialEq, Eq, Structural, PartialOrd, Ord)]
pub enum FunctionTotality {
    Total,
    Partial,
    UnknownWithinBudget,
}

impl FunctionTotality {
    pub open spec fn display_text(self) -> Seq<char> {
        match self {
            FunctionTotality::Total => "total"@,
            FunctionTotality::Partial => "partial"@,
            FunctionTotality::UnknownWithinBudget => "unknown_within_budget"@,
        }
    }

    pub fn display_str(self) -> (r: &'static str)
        ensures
            r@ == self.display_text(),
    {
        match self {
            FunctionTotality::Total => "total",
            FunctionTotality::Partial => "partial",
            FunctionTotality::UnknownWithinBudget => "unknown_within_budget",
        }
    }
}

/// Outcome of a contract check, from best to worst.
#[derive(Debug, Clone, Copy, PartialEq, Eq, Structural, PartialOrd, Ord)]
pub enum FunctionContractStatus {
    Verified,
    Downgraded,
    Open,
    Rejected,
}

impl FunctionContractStatus {
    pub open spec fn rank(self) -> int {
        match self {
            FunctionContractStatus::Verified => 0,
            FunctionContractStatus::Downgraded => 1,
            FunctionContractStatus::Open => 2,
            FunctionContractStatus::Rejected => 3,
        }
    }

    /// The worse of the two (`Ord::max`).
    pub open spec fn worse(self, other: Self) -> Self {
        if other.rank() > self.rank() { other } else { self }
    }

    fn worse_of(self, other: Self) -> (r: Self)
        ensures
            r == self.worse(other),
    {
        let a: u8 = match self {
            FunctionContractStatus::Verified => 0,
            FunctionContractStatus::Downgraded => 1,
            FunctionContractStatus::Open => 2,
            FunctionContractStatus::Rejected => 3,
        };
        let b: u8 = match other {
            FunctionContractStatus::Verified => 0,
            FunctionContractStatus::Downgraded => 1,
            FunctionContractStatus::Open => 2,
            FunctionContractStatus::Rejected => 3,
        };
        if b > a { other } else { self }
    }

    pub open spec fn display_text(self) -> Seq<char> {
        match self {
            FunctionContractStatus::Verified => "verified"@,
            FunctionContractStatus::Open => "open"@,
            FunctionContractStatus::Downgraded => "downgraded"@,
            FunctionContractStatus::Rejected => "rejected"@,
        }
    }

    pub fn display_str(self) -> (r: &'static str)
        ensures
            r@ == self.display_text(),
    {
        match self {
            FunctionContractStatus::Verified => "verified",
            FunctionContractStatus::Open => "open",
            FunctionContractStatus::Downgraded => "downgraded",
            FunctionContractStatus::Rejected => "rejected",
        }
    }
}

#[derive(Debug, Clone, Copy, PartialEq, Eq, Structural, PartialOrd, Ord)]
pub enum FunctionEffectKind {
    Runtime,
    Io,
    Network,
    Filesystem,
    Clock,
    Randomness,
    Oracle,
    UnsafeExternal,
    GpuExecution,
    RemoteExecution,
}

impl FunctionEffectKind {
    pub open spec fn display_text(self) -> Seq<char> {
        match self {
            FunctionEffectKind::Runtime => "runtime"@,
            FunctionEffectKind::Io => "io"@,
            FunctionEffectKind::Network => "network"@,
            FunctionEffectKind::Filesystem => "filesystem"@,
            FunctionEffectKind::Clock => "clock"@,
            FunctionEffectKind::Randomness => "randomness"@,
            FunctionEffectKind::Oracle => "oracle"@,
            FunctionEffectKind::UnsafeExternal => "unsafe_external"@,
            FunctionEffectKind::GpuExecution => "gpu_execution"@,
            FunctionEffectKind::RemoteExecution => "remote_execution"@,
        }
    }

    pub fn display_str(self) -> (r: &'static str)
        ensures
            r@ == self.display_text(),
    {
        match self {
            FunctionEffectKind::Runtime => "runtime",
            FunctionEffectKind::Io => "io",
            FunctionEffectKind::Network => "network",
            FunctionEffectKind::Filesystem => "filesystem",
            FunctionEffectKind::Clock => "clock",
            FunctionEffectKind::Randomness => "randomness",
            FunctionEffectKind::Oracle => "oracle",
            FunctionEffectKind::UnsafeExternal => "unsafe_external",
            FunctionEffectKind::GpuExecution => "gpu_execution",
            FunctionEffectKind::RemoteExecution => "remote_execution",
        }
    }
}

/// An effect at a named boundary.
#[derive(Debug)]
pub struct FunctionEffect {
    pub kind: FunctionEffectKind,
    pub boundary: String,
}

pub struct FunctionEffectV {
    pub kind: FunctionEffectKind,
    pub boundary: Seq<char>,
}

impl View for FunctionEffect {
    type V = FunctionEffectV;

    open spec fn view(&self) -> FunctionEffectV {
        FunctionEffectV { kind: self.kind, boundary: self.boundary@ }
    }
}

impl Clone for FunctionEffect {
    fn clone(&self) -> (r: Self)
        ensures
            r@ == self@,
    {
        FunctionEffect { kind: self.kind, boundary: self.boundary.clone() }
    }
}

/// Display text of an effect: `kind@boundary`.
pub open spec fn effect_text(e: FunctionEffectV) -> Seq<char> {
    e.kind.display_text() + "@"@ + e.boundary
}

impl FunctionEffect {
    pub fn to_text(&self) -> (r: String)
        ensures
            r@ == effect_text(self@),
    {
        let mut s = String::from_str(self.kind.display_str());
        s.append("@");
        s.append(self.boundary.as_str());
        s
    }
}

/// The models of a sequence of effects.
pub open spec fn effects_view(s: Seq<FunctionEffect>) -> Seq<FunctionEffectV> {
    s.map_values(|e: FunctionEffect| e@)
}

/// What a contract check concluded.
#[derive(Debug)]
pub struct FunctionContractReport {
    pub name: String,
    pub function: String,
    pub domain: String,
    pub codomain: String,
    pub purity: FunctionPurity,
    pub totality: FunctionTotality,
    pub effects: Vec<FunctionEffect>,
    pub status: FunctionContractStatus,
    pub open_obligations: Vec<String>,
    pub max_trust: TrustLevel,
    pub max_provenance: Provenance,
    pub has_axiom_taint: bool,
    pub has_oracle_taint: bool,
    pub has_unsafe_taint: bool,
    pub fingerprint: String,
}

pub struct FunctionContractReportV {
    pub name: Seq<char>,
    pub function: Seq<char>,
    pub domain: Seq<char>,
    pub codomain: Seq<char>,
    pub purity: FunctionPurity,
    pub totality: FunctionTotality,
    pub effects: Seq<FunctionEffectV>,
    pub status: FunctionContractStatus,
    pub open_obligations: Seq<Seq<char>>,
    pub max_trust: TrustLevel,
    pub max_provenance: Provenance,
    pub has_axiom_taint: bool,
    pub has_oracle_taint: bool,
    pub has_unsafe_taint: bool,
    pub fingerprint: Seq<char>,
}

impl View for FunctionContractReport {
    type V = FunctionContractReportV;

    open spec fn view(&self) -> FunctionContractReportV {
        FunctionContractReportV {
            name: self.name@,
            function: self.function@,
            domain: self.domain@,
            codomain: self.codomain@,
            purity: self.purity,
            totality: self.totality,
            effects: effects_view(self.effects@),
            status: self.status,
            open_obligations: strings_view(self.open_obligations@),
            max_trust: self.max_trust,
            max_provenance: self.max_provenance,
            has_axiom_taint: self.has_axiom_taint,
            has_oracle_taint: self.has_oracle_taint,
            has_unsafe_taint: self.has_unsafe_taint,
            fingerprint: self.fingerprint@,
        }
    }
}

/// An error of the contract layer.
pub open spec fn contract_error_model(line: usize, message: Seq<char>, help: Seq<char>) -> DiagnosticV {
    error_with_help(DiagnosticKind::FunctionContractError, line, message, help)
}

fn contract_error(line: usize, message: &str, help: &str) -> (r: Diagnostic)
    ensures
        r@ == contract_error_model(line, message@, help@),
{
    Diagnostic::error(DiagnosticKind::FunctionContractError, Some(line), message).with_help(help)
}

/// What `function_effect` gives: the boundary must be a non-blank single line.
pub open spec fn function_effect_spec(kind: FunctionEffectKind, boundary: Seq<char>, line: usize) -> Result<FunctionEffectV, DiagnosticV> {
    if all_ws(boundary) {
        Err(contract_error_model(line, "effect boundary is empty"@, "effect boundaries must be explicit audit keys"@))
    } else if boundary.contains('\n') || boundary.contains('\r') {
        Err(contract_error_model(
            line,
            "effect boundary contains a newline"@,
            "effect boundary identities must remain stable single-line audit keys"@,
        ))
    } else {
        Ok(FunctionEffectV { kind, boundary })
    }
}

pub fn function_effect(kind: FunctionEffectKind, boundary: &str, line: usize) -> (r: Result<FunctionEffect, Diagnostic>)
    ensures
        function_effect_spec(kind, boundary@, line) == (match r {
            Ok(e) => Ok::<FunctionEffectV, DiagnosticV>(e@),
            Err(d) => Err::<FunctionEffectV, DiagnosticV>(d@),
        }),
{
    if is_blank(boundary) {
        return Err(contract_error(line, "effect boundary is empty", "effect boundaries must be explicit audit keys"));
    }
    if has_line_break(boundary) {
        return Err(contract_error(
            line,
            "effect boundary contains a newline",
            "effect boundary identities must remain stable single-line audit keys",
        ));
    }
    Ok(FunctionEffect { kind, boundary: String::from_str(boundary) })
}

/// The function a contract attaches to: its description, domain and codomain,
/// or the error for a passport that is no function.
pub open spec fn contract_subject(p: PassportV, line: usize) -> Result<(Seq<char>, Seq<char>, Seq<char>), DiagnosticV> {
    match p.ty {
        TypeKindV::FunctionType { domain, codomain } => Ok(("fn:"@ + domain + "->"@ + codomain, domain, codomain)),
        TypeKindV::LambdaTerm { parameter, domain, body } => Ok((
            "lambda:"@ + parameter + ":"@ + domain + ". "@ + body,
            domain,
            "Unknown"@,
        )),
        TypeKindV::ApplicationTerm { .. }
        | TypeKindV::FunctionContract { .. }
        | TypeKindV::Theorem { .. }
        | TypeKindV::Statement { .. }
        | TypeKindV::Goal { .. }
        | TypeKindV::Hypothesis { .. }
        | TypeKindV::StaticProof(_)
        | TypeKindV::ProofTerm { .. }
        | TypeKindV::RuntimeWitness(_)
        | TypeKindV::Provable { .. }
        | TypeKindV::TruthClaim { .. }
        | TypeKindV::ReflectionClaim { .. }
        | TypeKindV::SelfReferenceClaim { .. }
        | TypeKindV::ConsistencyClaim { .. } => Err(contract_error_model(
            line,
            type_text(p.ty) + " cannot be used as a function contract subject"@,
            "function contracts must attach to ordinary FunctionType/LambdaTerm objects, not theorem/proof/truth/runtime evidence"@,
        )),
        _ => Err(contract_error_model(
            line,
            type_text(p.ty) + " is not a function subject"@,
            "create FunctionType or LambdaTerm before attaching a function contract"@,
        )),
    }
}

fn contract_subject_from_passport(passport: &Passport, line: usize) -> (r: Result<(String, String, String), Diagnostic>)
    ensures
        contract_subject(passport@, line) == (match r {
            Ok((f, d, c)) => Ok::<(Seq<char>, Seq<char>, Seq<char>), DiagnosticV>((f@, d@, c@)),
            Err(e) => Err::<(Seq<char>, Seq<char>, Seq<char>), DiagnosticV>(e@),
        }),
{
    match &passport.ty {
        TypeKind::FunctionType { domain, codomain } => {
            let mut f = String::from_str("fn:");
            f.append(domain.as_str());
            f.append("->");
            f.append(codomain.as_str());
            Ok((f, domain.clone(), codomain.clone()))
        },
        TypeKind::LambdaTerm { parameter, domain, body } => {
            let mut f = String::from_str("lambda:");
            f.append(parameter.as_str());
            f.append(":");
            f.append(domain.as_str());
            f.append(". ");
            f.append(body.as_str());
            Ok((f, domain.clone(), String::from_str("Unknown")))
        },
        TypeKind::ApplicationTerm { .. }
        | TypeKind::FunctionContract { .. }
        | TypeKind::Theorem { .. }
        | TypeKind::Statement { .. }
        | TypeKind::Goal { .. }
        | TypeKind::Hypothesis { .. }
        | TypeKind::StaticProof(_)
        | TypeKind::ProofTerm { .. }
        | TypeKind::RuntimeWitness(_)
        | TypeKind::Provable { .. }
        | TypeKind::TruthClaim { .. }
        | TypeKind::ReflectionClaim { .. }
        | TypeKind::SelfReferenceClaim { .. }
        | TypeKind::ConsistencyClaim { .. } => {
            let mut msg = passport.ty.to_text();
            msg.append(" cannot be used as a function contract subject");
            Err(contract_error(
                line,
                msg.as_str(),
                "function contracts must attach to ordinary FunctionType/LambdaTerm objects, not theorem/proof/truth/runtime evidence",
            ))
        },
        _ => {
            let mut msg = passport.ty.to_text();
            msg.append(" is not a function subject");
            Err(contract_error(line, msg.as_str(), "create FunctionType or LambdaTerm before attaching a function contract"))
        },
    }
}

/// The error for a contract name, if it is not an identifier.
pub open spec fn contract_name_error(name: Seq<char>, line: usize) -> Option<DiagnosticV> {
    if name.len() == 0 {
        Some(contract_error_model(line, "function contract name is empty"@, "function contract names must be explicit identifiers"@))
    } else if !is_ident(name) {
        Some(contract_error_model(
            line,
            "invalid function contract name `"@ + name + "`"@,
            "identifiers must use MVP ASCII identifier syntax"@,
        ))
    } else {
        None
    }
}

fn validate_contract_name(name: &str, line: usize) -> (r: Result<(), Diagnostic>)
    ensures
        contract_name_error(name@, line) == (match r {
            Ok(()) => None::<DiagnosticV>,
            Err(d) => Some(d@),
        }),
{
    let cs = chars_of(name);
    proof {
        assert(cs@.subrange(0, cs@.len() as int) =~= name@);
    }
    if cs.len() == 0 {
        return Err(contract_error(line, "function contract name is empty", "function contract names must be explicit identifiers"));
    }
    if !ident_range(&cs, 0, cs.len()) {
        let mut msg = String::from_str("invalid function contract name `");
        msg.append(name);
        msg.append("`");
        return Err(contract_error(line, msg.as_str(), "identifiers must use MVP ASCII identifier syntax"));
    }
    Ok(())
}

/// Whether a passport is static evidence of totality: a checked static proof or theorem.
pub open spec fn is_totality_evidence(p: PassportV) -> bool {
    (p.ty is StaticProof || p.ty is Theorem) && p.validation == ValidationState::StaticChecked
}

/// The taint of the sources: joined trust (from `Checked`) and provenance (from
/// `InternalLiteral`), and whether any reaches axiom, oracle, or unsafe.
pub open spec fn sources_taint(s: Seq<PassportV>) -> (TrustLevel, Provenance, bool, bool, bool)
    decreases s.len(),
{
    if s.len() == 0 {
        (TrustLevel::Checked, Provenance::InternalLiteral, false, false, false)
    } else {
        let (t, p, a, o, u) = sources_taint(s.drop_last());
        let x = s.last();
        (
            t.higher(x.trust),
            p.higher(x.provenance),
            a || x.trust.rank() >= TrustLevel::Axiom.rank(),
            o || x.trust.rank() >= TrustLevel::Oracle.rank() || x.provenance == Provenance::OracleInput,
            u || x.trust.rank() >= TrustLevel::Unsafe.rank() || x.provenance == Provenance::UnsafeExternal,
        )
    }
}

/// The taint after the oracle and unsafe-external effects are added.
pub open spec fn effects_taint(init: (TrustLevel, Provenance, bool, bool, bool), es: Seq<FunctionEffectV>) -> (
    TrustLevel,
    Provenance,
    bool,
    bool,
    bool,
)
    decreases es.len(),
{
    if es.len() == 0 {
        init
    } else {
        let (t, p, a, o, u) = effects_taint(init, es.drop_last());
        match es.last().kind {
            FunctionEffectKind::Oracle => (t.higher(TrustLevel::Oracle), p.higher(Provenance::OracleInput), a, true, u),
            FunctionEffectKind::UnsafeExternal => (t.higher(TrustLevel::Unsafe), p.higher(Provenance::UnsafeExternal), a, o, true),
            _ => (t, p, a, o, u),
        }
    }
}

/// Whether some effect has this kind.
pub open spec fn has_effect(es: Seq<FunctionEffectV>, kind: FunctionEffectKind) -> bool {
    exists|i: int| 0 <= i < es.len() && (#[trigger] es[i]).kind == kind
}

/// The open obligations, each at most once, in byte order of their texts.
pub open spec fn contract_obligations(
    purity: FunctionPurity,
    totality: FunctionTotality,
    es: Seq<FunctionEffectV>,
    has_evidence: bool,
    tainted: bool,
) -> Seq<Seq<char>> {
    let h = if tainted {
        seq!["contract depends on Axiom/Oracle/Unsafe taint and is not a clean Checked contract"@]
    } else {
        Seq::empty()
    };
    let b = if purity == FunctionPurity::Effectful && es.len() == 0 {
        seq!["effectful contract must name at least one explicit effect boundary"@]
    } else {
        Seq::empty()
    };
    let e = if purity == FunctionPurity::Effectful {
        seq!["function is explicitly effectful; pure-core optimizer must not treat it as deterministic pure code"@]
    } else {
        Seq::empty()
    };
    let d = if totality != FunctionTotality::Total {
        seq!["function is explicitly "@ + totality.display_text() + "; maximum total guarantee is downgraded"@]
    } else {
        Seq::empty()
    };
    let f = if has_effect(es, FunctionEffectKind::Oracle) {
        seq!["oracle effect is visible in the contract and cannot be erased as Checked"@]
    } else {
        Seq::empty()
    };
    let a = if purity == FunctionPurity::Pure && es.len() > 0 {
        seq!["pure contract carries explicit effects; use FunctionPurity::Effectful or remove the effects"@]
    } else {
        Seq::empty()
    };
    let c = if totality == FunctionTotality::Total && !has_evidence {
        seq!["totality is claimed but no StaticProof/Theorem evidence was supplied"@]
    } else {
        Seq::empty()
    };
    let g = if has_effect(es, FunctionEffectKind::UnsafeExternal) {
        seq!["unsafe external effect is visible in the contract and forces lower assurance"@]
    } else {
        Seq::empty()
    };
    h + b + e + d + f + a + c + g
}

/// The status of a contract: rejected when a pure contract carries effects;
/// open when an effectful one names none or totality lacks evidence;
/// downgraded when it is effectful, not total, or tainted; else verified.
pub open spec fn contract_status(
    purity: FunctionPurity,
    totality: FunctionTotality,
    n_effects: nat,
    has_evidence: bool,
    tainted: bool,
) -> FunctionContractStatus {
    let s0 = if purity == FunctionPurity::Pure && n_effects > 0 {
        FunctionContractStatus::Rejected
    } else {
        FunctionContractStatus::Verified
    };
    let s1 = if purity == FunctionPurity::Effectful && n_effects == 0 { s0.worse(FunctionContractStatus::Open) } else { s0 };
    let s2 = if totality == FunctionTotality::Total && !has_evidence { s1.worse(FunctionContractStatus::Open) } else { s1 };
    if s2 != FunctionContractStatus::Rejected && (purity == FunctionPurity::Effectful || totality != FunctionTotality::Total
        || tainted) {
        s2.worse(FunctionContractStatus::Downgraded)
    } else {
        s2
    }
}

/// `format!("{:?}", s)` for a string: std's `Debug` text of `s`.
pub uninterp spec fn str_debug_text(s: Seq<char>) -> Seq<char>;

/// Calls std's `Debug` formatting of `str` (`format!("{:?}", s)`), which
/// writes the text between double quotes with quotes, backslashes and
/// non-printable characters escaped. The contract names the result and says
/// no more of it.
#[verifier::external_body]
pub(crate) fn debug_quoted(s: &str) -> (r: String)
    ensures
        r@ == str_debug_text(s@),
{
    format!("{:?}", s)
}

/// The `Debug` text of the effects' display texts, as a list: `["a", "b"]`.
pub open spec fn effects_debug_text(es: Seq<FunctionEffectV>) -> Seq<char> {
    "["@ + join_text(es.map_values(|e: FunctionEffectV| str_debug_text(effect_text(e))), ", "@) + "]"@
}

/// The parts a contract's fingerprint is taken over.
pub open spec fn contract_parts(
    name: Seq<char>,
    function: Seq<char>,
    domain: Seq<char>,
    codomain: Seq<char>,
    purity: FunctionPurity,
    totality: FunctionTotality,
    es: Seq<FunctionEffectV>,
    status: FunctionContractStatus,
    trust: TrustLevel,
) -> Seq<Seq<char>> {
    seq![
        "function-contract-v1"@,
        name,
        function,
        domain,
        codomain,
        purity.display_text(),
        totality.display_text(),
        "effects="@ + effects_debug_text(es),
        status.display_text(),
        "trust="@ + trust.debug_text(),
    ]
}

/// What `function_contract` gives.
pub open spec fn function_contract_spec(
    name: Seq<char>,
    function: PassportV,
    purity: FunctionPurity,
    totality: FunctionTotality,
    es: Seq<FunctionEffectV>,
    evidence: Seq<PassportV>,
    line: usize,
) -> Result<FunctionContractReportV, DiagnosticV> {
    if contract_name_error(name, line) is Some {
        Err(contract_name_error(name, line)->0)
    } else {
        match contract_subject(function, line) {
            Err(d) => Err(d),
            Ok((fdesc, domain, codomain)) => {
                let has_evidence = exists|i: int| 0 <= i < evidence.len() && is_totality_evidence(#[trigger] evidence[i]);
                let (t, p, a, o, u) = effects_taint(sources_taint(seq![function] + evidence), es);
                let tainted = a || o || u;
                let status = contract_status(purity, totality, es.len(), has_evidence, tainted);
                Ok(FunctionContractReportV {
                    name,
                    function: fdesc,
                    domain,
                    codomain,
                    purity,
                    totality,
                    effects: es,
                    status,
                    open_obligations: contract_obligations(purity, totality, es, has_evidence, tainted),
                    max_trust: t,
                    max_provenance: p,
                    has_axiom_taint: a,
                    has_oracle_taint: o,
                    has_unsafe_taint: u,
                    fingerprint: fingerprint_text(
                        "fnv64:"@,
                        contract_parts(name, fdesc, domain, codomain, purity, totality, es, status, t),
                    ),
                })
            },
        }
    }
}

fn has_totality_evidence(evidence: &[&Passport]) -> (r: bool)
    ensures
        r == exists|i: int| 0 <= i < evidence@.len() && is_totality_evidence(#[trigger] refs_view(evidence@)[i]),
{
    let ghost ev = refs_view(evidence@);
    let mut i: usize = 0;
    while i < evidence.len()
        invariant
            ev == refs_view(evidence@),
            i <= evidence.len(),
            forall|k: int| 0 <= k < i ==> !is_totality_evidence(#[trigger] ev[k]),
        decreases evidence.len() - i,
    {
        assert(ev[i as int] == evidence@[i as int]@);
        let p = evidence[i];
        let is_kind = match &p.ty {
            TypeKind::StaticProof(_) => true,
            TypeKind::Theorem { .. } => true,
            _ => false,
        };
        if is_kind && p.validation == ValidationState::StaticChecked {
            assert(is_totality_evidence(ev[i as int]));
            return true;
        }
        i = i + 1;
    }
    false
}

pub(crate) fn taint_step(acc: (TrustLevel, Provenance, bool, bool, bool), x: &Passport) -> (r: (TrustLevel, Provenance, bool, bool, bool))
    ensures
        r == (
            acc.0.higher(x@.trust),
            acc.1.higher(x@.provenance),
            acc.2 || x@.trust.rank() >= TrustLevel::Axiom.rank(),
            acc.3 || x@.trust.rank() >= TrustLevel::Oracle.rank() || x@.provenance == Provenance::OracleInput,
            acc.4 || x@.trust.rank() >= TrustLevel::Unsafe.rank() || x@.provenance == Provenance::UnsafeExternal,
        ),
{
    (
        acc.0.higher(x.trust),
        acc.1.higher(x.provenance),
        acc.2 || x.trust.rank() >= TrustLevel::Axiom.rank(),
        acc.3 || x.trust.rank() >= TrustLevel::Oracle.rank() || x.provenance == Provenance::OracleInput,
        acc.4 || x.trust.rank() >= TrustLevel::Unsafe.rank() || x.provenance == Provenance::UnsafeExternal,
    )
}

fn contract_taint(function: &Passport, evidence: &[&Passport], effects: &Vec<FunctionEffect>) -> (r: (
    TrustLevel,
    Provenance,
    bool,
    bool,
    bool,
))
    ensures
        r == effects_taint(sources_taint(seq![function@] + refs_view(evidence@)), effects_view(effects@)),
{
    let ghost all = seq![function@] + refs_view(evidence@);
    let init = (TrustLevel::Checked, Provenance::InternalLiteral, false, false, false);
    let mut acc = taint_step(init, function);
    assert(all.take(1).drop_last() =~= Seq::<PassportV>::empty());
    assert(all.take(1).last() == function@);
    assert(sources_taint(all.take(1).drop_last()) == init);
    assert(acc == sources_taint(all.take(1)));
    let mut i: usize = 0;
    while i < evidence.len()
        invariant
            all == seq![function@] + refs_view(evidence@),
            all.len() == evidence.len() + 1,
            i <= evidence.len(),
            acc == sources_taint(all.take(i + 1)),
        decreases evidence.len() - i,
    {
        assert(all.take(i + 2).drop_last() =~= all.take(i + 1));
        assert(all.take(i + 2).last() == evidence@[i as int]@);
        acc = taint_step(acc, evidence[i]);
        i = i + 1;
    }
    assert(all.take(i + 1) =~= all);
    let ghost es = effects_view(effects@);
    let ghost start = acc;
    let mut k: usize = 0;
    assert(es.take(0) =~= Seq::<FunctionEffectV>::empty());
    while k < effects.len()
        invariant
            es == effects_view(effects@),
            k <= effects.len(),
            acc == effects_taint(start, es.take(k as int)),
        decreases effects.len() - k,
    {
        assert(es[k as int] == effects@[k as int]@);
        assert(es.take(k + 1).drop_last() =~= es.take(k as int));
        let (t, p, a, o, u) = acc;
        acc = match effects[k].kind {
            FunctionEffectKind::Oracle => (t.higher(TrustLevel::Oracle), p.higher(Provenance::OracleInput), a, true, u),
            FunctionEffectKind::UnsafeExternal => (t.higher(TrustLevel::Unsafe), p.higher(Provenance::UnsafeExternal), a, o, true),
            _ => (t, p, a, o, u),
        };
        k = k + 1;
    }
    assert(es.take(k as int) =~= es);
    acc
}

fn has_effect_kind(effects: &Vec<FunctionEffect>, kind: FunctionEffectKind) -> (r: bool)
    ensures
        r == has_effect(effects_view(effects@), kind),
{
    let ghost es = effects_view(effects@);
    let mut i: usize = 0;
    while i < effects.len()
        invariant
            es == effects_view(effects@),
            i <= effects.len(),
            forall|k: int| 0 <= k < i ==> (#[trigger] es[k]).kind != kind,
        decreases effects.len() - i,
    {
        assert(es[i as int] == effects@[i as int]@);
        if effects[i].kind == kind {
            return true;
        }
        i = i + 1;
    }
    false
}

fn effects_debug(effects: &Vec<FunctionEffect>) -> (r: String)
    ensures
        r@ == effects_debug_text(effects_view(effects@)),
{
    let ghost es = effects_view(effects@);
    let ghost items = es.map_values(|e: FunctionEffectV| str_debug_text(effect_text(e)));
    let mut inner = String::new();
    let mut i: usize = 0;
    assert(items.take(0) =~= Seq::<Seq<char>>::empty());
    while i < effects.len()
        invariant
            es == effects_view(effects@),
            items == es.map_values(|e: FunctionEffectV| str_debug_text(effect_text(e))),
            i <= effects.len(),
            inner@ == join_text(items.take(i as int), ", "@),
        decreases effects.len() - i,
    {
        assert(es[i as int] == effects@[i as int]@);
        assert(items.take(i + 1).drop_last() =~= items.take(i as int));
        let q = debug_quoted(effects[i].to_text().as_str());
        if i > 0 {
            inner.append(", ");
        } else {
            assert(items.take(1).len() == 1);
        }
        inner.append(q.as_str());
        i = i + 1;
    }
    assert(items.take(i as int) =~= items);
    let mut out = String::from_str("[");
    out.append(inner.as_str());
    out.append("]");
    out
}

fn push_str(v: &mut Vec<String>, s: &str)
    ensures
        strings_view(final(v)@) == strings_view(old(v)@).push(s@),
{
    v.push(String::from_str(s));
    assert(strings_view(v@) =~= strings_view(old(v)@).push(s@));
}

fn compute_status(purity: FunctionPurity, totality: FunctionTotality, n: usize, has_evidence: bool, tainted: bool) -> (r:
    FunctionContractStatus)
    ensures
        r == contract_status(purity, totality, n as nat, has_evidence, tainted),
{
    let mut status = if purity == FunctionPurity::Pure && n > 0 {
        FunctionContractStatus::Rejected
    } else {
        FunctionContractStatus::Verified
    };
    if purity == FunctionPurity::Effectful && n == 0 {
        status = status.worse_of(FunctionContractStatus::Open);
    }
    if totality == FunctionTotality::Total && !has_evidence {
        status = status.worse_of(FunctionContractStatus::Open);
    }
    if status != FunctionContractStatus::Rejected && (purity == FunctionPurity::Effectful || totality != FunctionTotality::Total
        || tainted) {
        status = status.worse_of(FunctionContractStatus::Downgraded);
    }
    status
}

fn build_obligations(
    purity: FunctionPurity,
    totality: FunctionTotality,
    effects: &Vec<FunctionEffect>,
    has_evidence: bool,
    tainted: bool,
) -> (r: Vec<String>)
    ensures
        strings_view(r@) == contract_obligations(purity, totality, effects_view(effects@), has_evidence, tainted),
{
    let n = effects.len();
    let mut obligations: Vec<String> = Vec::new();
    if tainted {
        push_str(&mut obligations, "contract depends on Axiom/Oracle/Unsafe taint and is not a clean Checked contract");
    }
    if purity == FunctionPurity::Effectful && n == 0 {
        push_str(&mut obligations, "effectful contract must name at least one explicit effect boundary");
    }
    if purity == FunctionPurity::Effectful {
        push_str(
            &mut obligations,
            "function is explicitly effectful; pure-core optimizer must not treat it as deterministic pure code",
        );
    }
    if totality != FunctionTotality::Total {
        let mut s = String::from_str("function is explicitly ");
        s.append(totality.display_str());
        s.append("; maximum total guarantee is downgraded");
        push_str(&mut obligations, s.as_str());
    }
    if has_effect_kind(effects, FunctionEffectKind::Oracle) {
        push_str(&mut obligations, "oracle effect is visible in the contract and cannot be erased as Checked");
    }
    if purity == FunctionPurity::Pure && n > 0 {
        push_str(&mut obligations, "pure contract carries explicit effects; use FunctionPurity::Effectful or remove the effects");
    }
    if totality == FunctionTotality::Total && !has_evidence {
        push_str(&mut obligations, "totality is claimed but no StaticProof/Theorem evidence was supplied");
    }
    if has_effect_kind(effects, FunctionEffectKind::UnsafeExternal) {
        push_str(&mut obligations, "unsafe external effect is visible in the contract and forces lower assurance");
    }
    assert(strings_view(obligations@) =~= contract_obligations(purity, totality, effects_view(effects@), has_evidence, tainted));
    obligations
}

fn contract_fingerprint(
    name: &str,
    fdesc: &str,
    domain: &str,
    codomain: &str,
    purity: FunctionPurity,
    totality: FunctionTotality,
    effects: &Vec<FunctionEffect>,
    status: FunctionContractStatus,
    max_trust: TrustLevel,
) -> (r: String)
    ensures
        r@ == fingerprint_text(
            "fnv64:"@,
            contract_parts(name@, fdesc@, domain@, codomain@, purity, totality, effects_view(effects@), status, max_trust),
        ),
{
    let mut eff = String::from_str("effects=");
    eff.append(effects_debug(effects).as_str());
    let mut tr = String::from_str("trust=");
    tr.append(max_trust.debug_str());
    let mut parts: Vec<String> = Vec::new();
    parts.push(String::from_str("function-contract-v1"));
    parts.push(String::from_str(name));
    parts.push(String::from_str(fdesc));
    parts.push(String::from_str(domain));
    parts.push(String::from_str(codomain));
    parts.push(String::from_str(purity.display_str()));
    parts.push(String::from_str(totality.display_str()));
    parts.push(eff);
    parts.push(String::from_str(status.display_str()));
    parts.push(tr);
    assert(strings_view(parts@) =~= contract_parts(
        name@,
        fdesc@,
        domain@,
        codomain@,
        purity,
        totality,
        effects_view(effects@),
        status,
        max_trust,
    ));
    stable_fingerprint("fnv64:", &parts)
}

pub fn function_contract(
    name: &str,
    function: &Passport,
    purity: FunctionPurity,
    totality: FunctionTotality,
    effects: Vec<FunctionEffect>,
    evidence: &[&Passport],
    line: usize,
) -> (r: Result<FunctionContractReport, Diagnostic>)
    ensures
        function_contract_spec(name@, function@, purity, totality, effects_view(effects@), refs_view(evidence@), line) == (match r {
            Ok(c) => Ok::<FunctionContractReportV, DiagnosticV>(c@),
            Err(d) => Err::<FunctionContractReportV, DiagnosticV>(d@),
        }),
{
    match validate_contract_name(name, line) {
        Err(d) => return Err(d),
        Ok(()) => {},
    }
    let (fdesc, domain, codomain) = match contract_subject_from_passport(function, line) {
        Ok(x) => x,
        Err(d) => return Err(d),
    };
    let ghost es = effects_view(effects@);
    let has_evidence = has_totality_evidence(evidence);
    let (max_trust, max_provenance, has_axiom_taint, has_oracle_taint, has_unsafe_taint) = contract_taint(function, evidence, &effects);
    let tainted = has_axiom_taint || has_oracle_taint || has_unsafe_taint;
    let status = compute_status(purity, totality, effects.len(), has_evidence, tainted);
    let obligations = build_obligations(purity, totality, &effects, has_evidence, tainted);
    let fingerprint = contract_fingerprint(
        name,
        fdesc.as_str(),
        domain.as_str(),
        codomain.as_str(),
        purity,
        totality,
        &effects,
        status,
        max_trust,
    );
    Ok(FunctionContractReport {
        name: String::from_str(name),
        function: fdesc,
        domain,
        codomain,
        purity,
        totality,
        effects,
        status,
        open_obligations: obligations,
        max_trust,
        max_provenance,
        has_axiom_taint,
        has_oracle_taint,
        has_unsafe_taint,
        fingerprint,
    })
}

/// What `require_verified_function_contract` gives.
pub open spec fn require_verified_contract_spec(r: FunctionContractReportV, line: usize) -> Result<(), DiagnosticV> {
    if r.status == FunctionContractStatus::Verified {
        Ok(())
    } else {
        Err(contract_error_model(
            line,
            "function contract `"@ + r.name + "` is "@ + r.status.display_text() + ", not verified"@,
            "only verified pure/total contracts may feed verified optimization or certified build assumptions"@,
        ))
    }
}

pub fn require_verified_function_contract(report: &FunctionContractReport, line: usize) -> (r: Result<(), Diagnostic>)
    ensures
        require_verified_contract_spec(report@, line) == (match r {
            Ok(()) => Ok::<(), DiagnosticV>(()),
            Err(d) => Err::<(), DiagnosticV>(d@),
        }),
{
    if report.status == FunctionContractStatus::Verified {
        Ok(())
    } else {
        let mut msg = String::from_str("function contract `");
        msg.append(report.name.as_str());
        msg.append("` is ");
        msg.append(report.status.display_str());
        msg.append(", not verified");
        Err(contract_error(
            line,
            msg.as_str(),
            "only verified pure/total contracts may feed verified optimization or certified build assumptions",
        ))
    }
}

/// What `function_contract_passport` gives: the sources' histories, then the contract event.
pub open spec fn contract_passport_spec(theory: Seq<char>, r: FunctionContractReportV, sources: Seq<Seq<Seq<char>>>) -> PassportV {
    PassportV {
        ty: TypeKindV::FunctionContract { name: r.name, status: r.status.display_text() },
        construction: ConstructionMode::ProofFinite,
        capabilities: set![Capability::CanSymbolicPrint, Capability::CanPropositionReason, Capability::CanCompareByProof],
        cost: CostClass::ProofRequired,
        trust: r.max_trust.higher(TrustLevel::Builtin),
        provenance: r.max_provenance.higher(Provenance::BuiltinKnown),
        validation: ValidationState::StaticChecked,
        theory: home_context(theory),
        history: concat_histories(sources).push(
            "function:contract:"@ + r.name + ":"@ + r.status.display_text() + ":purity="@ + r.purity.display_text()
                + ":totality="@ + r.totality.display_text() + ":fingerprint="@ + r.fingerprint,
        ),
        location: LocationContext::Local,
    }
}

pub fn function_contract_passport(theory: &str, report: &FunctionContractReport, sources: &[&Passport]) -> (r: Passport)
    ensures
        r@ == contract_passport_spec(theory@, report@, ref_histories(sources@)),
{
    let mut ev = String::from_str("function:contract:");
    ev.append(report.name.as_str());
    ev.append(":");
    ev.append(report.status.display_str());
    ev.append(":purity=");
    ev.append(report.purity.display_str());
    ev.append(":totality=");
    ev.append(report.totality.display_str());
    ev.append(":fingerprint=");
    ev.append(report.fingerprint.as_str());
    let history = HistoryChain::merge_refs(sources, ev.as_str());
    Passport {
        ty: TypeKind::FunctionContract { name: report.name.clone(), status: String::from_str(report.status.display_str()) },
        construction: ConstructionMode::ProofFinite,
        capabilities: CapabilitySet::empty().with(Capability::CanSymbolicPrint).with(Capability::CanPropositionReason).with(
            Capability::CanCompareByProof,
        ),
        cost: CostClass::ProofRequired,
        trust: report.max_trust.higher(TrustLevel::Builtin),
        provenance: report.max_provenance.higher(Provenance::BuiltinKnown),
        validation: ValidationState::StaticChecked,
        theory: TheoryContext::new(theory),
        history,
        location: LocationContext::local(),
    }
}

/// Lines `  - item` for each item.
pub open spec fn item_lines(items: Seq<Seq<char>>) -> Seq<char>
    decreases items.len(),
{
    if items.len() == 0 {
        Seq::empty()
    } else {
        item_lines(items.drop_last()) + "  - "@ + items.last() + "\n"@
    }
}

/// The display texts of the effects.
pub open spec fn effect_texts(es: Seq<FunctionEffectV>) -> Seq<Seq<char>> {
    es.map_values(|e: FunctionEffectV| effect_text(e))
}

/// The export text of a contract.
pub open spec fn contract_report_text(r: FunctionContractReportV) -> Seq<char> {
    "function_contract_report: v1\n"@ + "name: "@ + r.name + "\n"@ + "function: "@ + r.function + "\n"@ + "domain: "@ + r.domain
        + "\n"@ + "codomain: "@ + r.codomain + "\n"@ + "purity: "@ + r.purity.display_text() + "\n"@ + "totality: "@
        + r.totality.display_text() + "\n"@ + "effects:\n"@ + item_lines(effect_texts(r.effects)) + "status: "@
        + r.status.display_text() + "\n"@ + "open_obligations:\n"@ + item_lines(r.open_obligations) + "max_trust: "@
        + r.max_trust.debug_text() + "\n"@ + "has_axiom_taint: "@ + bool_text(r.has_axiom_taint) + "\n"@ + "has_oracle_taint: "@
        + bool_text(r.has_oracle_taint) + "\n"@ + "has_unsafe_taint: "@ + bool_text(r.has_unsafe_taint) + "\n"@ + "fingerprint: "@
        + r.fingerprint + "\n"@
}

fn append_item_lines(out: &mut String, items: &Vec<String>)
    ensures
        final(out)@ == old(out)@ + item_lines(strings_view(items@)),
{
    let ghost head = out@;
    let ghost sv = strings_view(items@);
    let mut i: usize = 0;
    assert(sv.take(0) =~= Seq::<Seq<char>>::empty());
    assert(head + item_lines(sv.take(0)) =~= head);
    while i < items.len()
        invariant
            sv == strings_view(items@),
            i <= items.len(),
            out@ == head + item_lines(sv.take(i as int)),
        decreases items.len() - i,
    {
        assert(sv.take(i + 1).drop_last() =~= sv.take(i as int));
        out.append("  - ");
        out.append(items[i].as_str());
        out.append("\n");
        i = i + 1;
    }
    assert(sv.take(i as int) =~= sv);
}

fn effect_strings(effects: &Vec<FunctionEffect>) -> (r: Vec<String>)
    ensures
        strings_view(r@) == effect_texts(effects_view(effects@)),
{
    let ghost es = effects_view(effects@);
    let mut out: Vec<String> = Vec::new();
    let mut i: usize = 0;
    while i < effects.len()
        invariant
            es == effects_view(effects@),
            i <= effects.len(),
            strings_view(out@) =~= effect_texts(es).take(i as int),
        decreases effects.len() - i,
    {
        assert(es[i as int] == effects@[i as int]@);
        let ghost before = out@;
        out.push(effects[i].to_text());
        assert(strings_view(out@) =~= strings_view(before).push(effect_text(es[i as int])));
        assert(effect_texts(es).take(i + 1) =~= effect_texts(es).take(i as int).push(effect_text(es[i as int])));
        i = i + 1;
    }
    assert(effect_texts(es).take(i as int) =~= effect_texts(es));
    out
}

pub fn export_function_contract(report: &FunctionContractReport) -> (r: String)
    ensures
        r@ == contract_report_text(report@),
{
    let mut out = String::from_str("function_contract_report: v1\n");
    out.append("name: ");
    out.append(report.name.as_str());
    out.append("\n");
    out.append("function: ");
    out.append(report.function.as_str());
    out.append("\n");
    out.append("domain: ");
    out.append(report.domain.as_str());
    out.append("\n");
    out.append("codomain: ");
    out.append(report.codomain.as_str());
    out.append("\n");
    out.append("purity: ");
    out.append(report.purity.display_str());
    out.append("\n");
    out.append("totality: ");
    out.append(report.totality.display_str());
    out.append("\n");
    out.append("effects:\n");
    append_item_lines(&mut out, &effect_strings(&report.effects));
    out.append("status: ");
    out.append(report.status.display_str());
    out.append("\n");
    out.append("open_obligations:\n");
    append_item_lines(&mut out, &report.open_obligations);
    out.append("max_trust: ");
    out.append(report.max_trust.debug_str());
    out.append("\n");
    out.append("has_axiom_taint: ");
    out.append(bool_str(report.has_axiom_taint));
    out.append("\n");
    out.append("has_oracle_taint: ");
    out.append(bool_str(report.has_oracle_taint));
    out.append("\n");
    out.append("has_unsafe_taint: ");
    out.append(bool_str(report.has_unsafe_taint));
    out.append("\n");
    out.append("fingerprint: ");
    out.append(report.fingerprint.as_str());
    out.append("\n");
    out
}

/// A contract is verified only when it is pure, total, backed by static
/// evidence of totality, names no effect, and carries no axiom, oracle or unsafe taint.
pub proof fn lemma_verified_contract_is_clean(
    name: Seq<char>,
    function: PassportV,
    purity: FunctionPurity,
    totality: FunctionTotality,
    es: Seq<FunctionEffectV>,
    evidence: Seq<PassportV>,
    line: usize,
)
    requires
        function_contract_spec(name, function, purity, totality, es, evidence, line) is Ok,
        function_contract_spec(name, function, purity, totality, es, evidence, line)->Ok_0.status == FunctionContractStatus::Verified,
    ensures
        purity == FunctionPurity::Pure,
        totality == FunctionTotality::Total,
        es.len() == 0,
        exists|i: int| 0 <= i < evidence.len() && is_totality_evidence(#[trigger] evidence[i]),
        ({
            let c = function_contract_spec(name, function, purity, totality, es, evidence, line)->Ok_0;
            !c.has_axiom_taint && !c.has_oracle_taint && !c.has_unsafe_taint && c.open_obligations.len() == 0
        }),
{
}

} // verus!
