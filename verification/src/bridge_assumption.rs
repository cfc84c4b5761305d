//! The soundness boundary ledger: every assumption that crosses the boundary of
//! what is proved (axioms, reflection, truth lifts, oracle and unsafe inputs),
//! each with its own evidence and taint.

use vstd::prelude::*;
use vstd::string::*;

use crate::axiom_registry::diagnostics_view;
use crate::bridge::BridgeProfile;
use crate::diagnostics::{error_with_help, Diagnostic, DiagnosticKind, DiagnosticV};
use crate::fingerprint::{fingerprint_text, stable_fingerprint, strings_view};
use crate::metatheory_foundation::{
    axiom_tainted, concat_texts, diagnostic_entry_text, oracle_tainted, provenance_for, unsafe_tainted,
};
use crate::passport::record::{copy_strings, home_context};
use crate::passport::type_kind::type_text;
use crate::passport::{
    Capability, CapabilitySet, ConstructionMode, CostClass, HistoryChain, LocationContext, Passport, PassportV, Provenance,
    TheoryContext, TrustLevel, TypeKind, TypeKindV, ValidationState,
};
use crate::text::{
    all_ws, bool_str, bool_text, dec_text, is_blank, join_strings, join_text, starts_with_text, str_eq, text_starts_with, usize_text,
};

verus! {

/// What kind of boundary an assumption crosses.
#[derive(Debug, Clone, Copy, PartialEq, Eq, Structural, PartialOrd, Ord)]
pub enum BoundaryAssumptionKind {
    SoundnessBridge,
    ReflectionBridge,
    ConsistencyAssumption,
    TruthLift,
    ConservativeExtension,
    UnsafeBridge,
    OracleDependency,
    AxiomDependency,
    Unknown,
}

impl BoundaryAssumptionKind {
    pub open spec fn display_text(self) -> Seq<char> {
        match self {
            BoundaryAssumptionKind::SoundnessBridge => "soundness_bridge"@,
            BoundaryAssumptionKind::ReflectionBridge => "reflection_bridge"@,
            BoundaryAssumptionKind::ConsistencyAssumption => "consistency_assumption"@,
            BoundaryAssumptionKind::TruthLift => "truth_lift"@,
            BoundaryAssumptionKind::ConservativeExtension => "conservative_extension"@,
            BoundaryAssumptionKind::UnsafeBridge => "unsafe_bridge"@,
            BoundaryAssumptionKind::OracleDependency => "oracle_dependency"@,
            BoundaryAssumptionKind::AxiomDependency => "axiom_dependency"@,
            BoundaryAssumptionKind::Unknown => "unknown"@,
        }
    }

    pub fn display_str(self) -> (r: &'static str)
        ensures
            r@ == self.display_text(),
    {
        match self {
            BoundaryAssumptionKind::SoundnessBridge => "soundness_bridge",
            BoundaryAssumptionKind::ReflectionBridge => "reflection_bridge",
            BoundaryAssumptionKind::ConsistencyAssumption => "consistency_assumption",
            BoundaryAssumptionKind::TruthLift => "truth_lift",
            BoundaryAssumptionKind::ConservativeExtension => "conservative_extension",
            BoundaryAssumptionKind::UnsafeBridge => "unsafe_bridge",
            BoundaryAssumptionKind::OracleDependency => "oracle_dependency",
            BoundaryAssumptionKind::AxiomDependency => "axiom_dependency",
            BoundaryAssumptionKind::Unknown => "unknown",
        }
    }
}

/// The verdict of a ledger.
#[derive(Debug, Clone, Copy, PartialEq, Eq, Structural, PartialOrd, Ord)]
pub enum SoundnessBoundaryStatus {
    Verified,
    Open,
    Rejected,
}

impl SoundnessBoundaryStatus {
    pub open spec fn display_text(self) -> Seq<char> {
        match self {
            SoundnessBoundaryStatus::Verified => "verified"@,
            SoundnessBoundaryStatus::Open => "open"@,
            SoundnessBoundaryStatus::Rejected => "rejected"@,
        }
    }

    pub fn display_str(self) -> (r: &'static str)
        ensures
            r@ == self.display_text(),
    {
        match self {
            SoundnessBoundaryStatus::Verified => "verified",
            SoundnessBoundaryStatus::Open => "open",
            SoundnessBoundaryStatus::Rejected => "rejected",
        }
    }
}

/// One boundary assumption with its evidence.
#[derive(Debug, PartialEq, Eq)]
pub struct BoundaryAssumptionEntry {
    pub id: String,
    pub kind: BoundaryAssumptionKind,
    pub source: String,
    pub target: String,
    pub role: String,
    pub requires_axiom: bool,
    pub preserves_syntax: bool,
    pub preserves_value: bool,
    pub preserves_proof: bool,
    pub preserves_truth: bool,
    pub trust: TrustLevel,
    pub provenance: Provenance,
    pub validation: ValidationState,
    pub history: Vec<String>,
    pub fingerprint: String,
}

pub struct BoundaryAssumptionEntryV {
    pub id: Seq<char>,
    pub kind: BoundaryAssumptionKind,
    pub source: Seq<char>,
    pub target: Seq<char>,
    pub role: Seq<char>,
    pub requires_axiom: bool,
    pub preserves_syntax: bool,
    pub preserves_value: bool,
    pub preserves_proof: bool,
    pub preserves_truth: bool,
    pub trust: TrustLevel,
    pub provenance: Provenance,
    pub validation: ValidationState,
    pub history: Seq<Seq<char>>,
    pub fingerprint: Seq<char>,
}

impl View for BoundaryAssumptionEntry {
    type V = BoundaryAssumptionEntryV;

    open spec fn view(&self) -> BoundaryAssumptionEntryV {
        BoundaryAssumptionEntryV {
            id: self.id@,
            kind: self.kind,
            source: self.source@,
            target: self.target@,
            role: self.role@,
            requires_axiom: self.requires_axiom,
            preserves_syntax: self.preserves_syntax,
            preserves_value: self.preserves_value,
            preserves_proof: self.preserves_proof,
            preserves_truth: self.preserves_truth,
            trust: self.trust,
            provenance: self.provenance,
            validation: self.validation,
            history: self.history.deep_view(),
            fingerprint: self.fingerprint@,
        }
    }
}

impl Clone for BoundaryAssumptionEntry {
    fn clone(&self) -> (r: Self)
        ensures
            r@ == self@,
    {
        BoundaryAssumptionEntry {
            id: self.id.clone(),
            kind: self.kind,
            source: self.source.clone(),
            target: self.target.clone(),
            role: self.role.clone(),
            requires_axiom: self.requires_axiom,
            preserves_syntax: self.preserves_syntax,
            preserves_value: self.preserves_value,
            preserves_proof: self.preserves_proof,
            preserves_truth: self.preserves_truth,
            trust: self.trust,
            provenance: self.provenance,
            validation: self.validation,
            history: copy_strings(&self.history),
            fingerprint: self.fingerprint.clone(),
        }
    }
}

/// The models of a sequence of entries.
pub open spec fn entries_view(s: Seq<BoundaryAssumptionEntry>) -> Seq<BoundaryAssumptionEntryV> {
    s.map_values(|e: BoundaryAssumptionEntry| e@)
}

/// An error of the soundness boundary layer.
pub open spec fn boundary_error_model(line: usize, message: Seq<char>, help: Seq<char>) -> DiagnosticV {
    error_with_help(DiagnosticKind::SoundnessBoundaryError, line, message, help)
}

fn boundary_error(line: usize, message: &str, help: &str) -> (r: Diagnostic)
    ensures
        r@ == boundary_error_model(line, message@, help@),
{
    Diagnostic::error(DiagnosticKind::SoundnessBoundaryError, Some(line), message).with_help(help)
}

/// The error for a blank identifier, if `value` is blank.
pub open spec fn boundary_blank_error(value: Seq<char>, label: Seq<char>, line: usize) -> Option<DiagnosticV> {
    if all_ws(value) {
        Some(boundary_error_model(line, label + " must not be empty"@, "soundness boundary ledgers require stable non-empty identifiers"@))
    } else {
        None
    }
}

fn require_non_empty(value: &str, label: &str, line: usize) -> (r: Result<(), Diagnostic>)
    ensures
        boundary_blank_error(value@, label@, line) == (match r {
            Ok(()) => None::<DiagnosticV>,
            Err(d) => Some(d@),
        }),
{
    if is_blank(value) {
        let mut msg = String::from_str(label);
        msg.append(" must not be empty");
        Err(boundary_error(line, msg.as_str(), "soundness boundary ledgers require stable non-empty identifiers"))
    } else {
        Ok(())
    }
}

/// The provenance a bridge's taint implies.
pub open spec fn provenance_for_trust(trust: TrustLevel) -> Provenance {
    if trust.rank() >= TrustLevel::Unsafe.rank() {
        Provenance::UnsafeExternal
    } else if trust.rank() >= TrustLevel::Oracle.rank() {
        Provenance::OracleInput
    } else if trust.rank() >= TrustLevel::Axiom.rank() {
        Provenance::BuiltinKnown
    } else {
        Provenance::InternalDerived
    }
}

fn provenance_for_taint(trust: TrustLevel) -> (r: Provenance)
    ensures
        r == provenance_for_trust(trust),
{
    if trust.rank() >= TrustLevel::Unsafe.rank() {
        Provenance::UnsafeExternal
    } else if trust.rank() >= TrustLevel::Oracle.rank() {
        Provenance::OracleInput
    } else if trust.rank() >= TrustLevel::Axiom.rank() {
        Provenance::BuiltinKnown
    } else {
        Provenance::InternalDerived
    }
}

/// The boundary kind of a bridge profile.
pub open spec fn bridge_boundary_kind(p: BridgeProfile) -> BoundaryAssumptionKind {
    if p.kind@ == "soundness"@ {
        BoundaryAssumptionKind::SoundnessBridge
    } else if p.kind@ == "reflection"@ || p.is_reflective {
        BoundaryAssumptionKind::ReflectionBridge
    } else if p.kind@ == "unsafe"@ {
        BoundaryAssumptionKind::UnsafeBridge
    } else if p.taint.rank() >= TrustLevel::Unsafe.rank() {
        BoundaryAssumptionKind::UnsafeBridge
    } else if p.taint.rank() >= TrustLevel::Axiom.rank() {
        BoundaryAssumptionKind::AxiomDependency
    } else {
        BoundaryAssumptionKind::Unknown
    }
}

/// The history recorded for an assumption taken from a bridge profile.
pub open spec fn bridge_history(p: BridgeProfile) -> Seq<Seq<char>> {
    seq![
        "bridge:name:"@ + p.name@,
        "bridge:kind:"@ + p.kind@,
        "bridge:source:"@ + p.source@,
        "bridge:target:"@ + p.target@,
        "bridge:requires_axiom:"@ + bool_text(p.requires_axiom),
        "bridge:taint:"@ + p.taint.debug_text(),
        "bridge:role:"@ + p.role@,
    ]
}

/// The parts the fingerprint of an assumption from a bridge is taken over.
pub open spec fn bridge_entry_parts(id: Seq<char>, p: BridgeProfile) -> Seq<Seq<char>> {
    seq![
        "boundary-assumption:bridge:v1"@,
        id,
        bridge_boundary_kind(p).display_text(),
        p.name@,
        p.source@,
        p.target@,
        p.kind@,
        bool_text(p.requires_axiom),
        bool_text(p.preserves_syntax),
        bool_text(p.preserves_value),
        bool_text(p.preserves_proof),
        bool_text(p.preserves_truth),
        p.taint.debug_text(),
        p.role@,
    ]
}

/// The prefix of ledger fingerprints.
pub open spec fn ledger_prefix() -> Seq<char> {
    "dlm-soundness-boundary-ledger-v1-"@
}

/// What `boundary_assumption_from_bridge_profile` gives: an entry for a
/// bridge that needs an axiom, is tainted to Axiom or beyond, or reflects;
/// an error for a blank name or for a safe bridge.
pub open spec fn entry_from_bridge_spec(id: Seq<char>, p: BridgeProfile, line: usize) -> Result<BoundaryAssumptionEntryV, DiagnosticV> {
    if boundary_blank_error(id, "boundary assumption id"@, line) is Some {
        Err(boundary_blank_error(id, "boundary assumption id"@, line)->Some_0)
    } else if boundary_blank_error(p.name@, "bridge profile name"@, line) is Some {
        Err(boundary_blank_error(p.name@, "bridge profile name"@, line)->Some_0)
    } else if boundary_blank_error(p.source@, "bridge profile source"@, line) is Some {
        Err(boundary_blank_error(p.source@, "bridge profile source"@, line)->Some_0)
    } else if boundary_blank_error(p.target@, "bridge profile target"@, line) is Some {
        Err(boundary_blank_error(p.target@, "bridge profile target"@, line)->Some_0)
    } else if !p.requires_axiom && p.taint.rank() < TrustLevel::Axiom.rank() && !p.is_reflective {
        Err(boundary_error_model(
            line,
            "bridge profile `"@ + p.name@ + "` is not a soundness-boundary assumption"@,
            "safe builtin bridges should stay in BridgeProfile; the soundness boundary ledger records axiom, reflection, oracle, and unsafe assumptions only"@,
        ))
    } else {
        Ok(BoundaryAssumptionEntryV {
            id,
            kind: bridge_boundary_kind(p),
            source: p.source@,
            target: p.target@,
            role: p.role@,
            requires_axiom: p.requires_axiom,
            preserves_syntax: p.preserves_syntax,
            preserves_value: p.preserves_value,
            preserves_proof: p.preserves_proof,
            preserves_truth: p.preserves_truth,
            trust: p.taint,
            provenance: provenance_for_trust(p.taint),
            validation: ValidationState::StaticChecked,
            history: bridge_history(p),
            fingerprint: fingerprint_text(ledger_prefix(), bridge_entry_parts(id, p)),
        })
    }
}

fn prefixed(prefix: &str, value: &str) -> (r: String)
    ensures
        r@ == prefix@ + value@,
{
    let mut s = String::from_str(prefix);
    s.append(value);
    s
}

pub fn boundary_assumption_from_bridge_profile(id: &str, profile: &BridgeProfile, line: usize) -> (r: Result<
    BoundaryAssumptionEntry,
    Diagnostic,
>)
    ensures
        entry_from_bridge_spec(id@, *profile, line) == (match r {
            Ok(e) => Ok::<BoundaryAssumptionEntryV, DiagnosticV>(e@),
            Err(d) => Err::<BoundaryAssumptionEntryV, DiagnosticV>(d@),
        }),
{
    match require_non_empty(id, "boundary assumption id", line) {
        Err(d) => return Err(d),
        Ok(()) => {},
    }
    match require_non_empty(profile.name.as_str(), "bridge profile name", line) {
        Err(d) => return Err(d),
        Ok(()) => {},
    }
    match require_non_empty(profile.source.as_str(), "bridge profile source", line) {
        Err(d) => return Err(d),
        Ok(()) => {},
    }
    match require_non_empty(profile.target.as_str(), "bridge profile target", line) {
        Err(d) => return Err(d),
        Ok(()) => {},
    }
    if !profile.requires_axiom && profile.taint.rank() < TrustLevel::Axiom.rank() && !profile.is_reflective {
        let mut msg = String::from_str("bridge profile `");
        msg.append(profile.name.as_str());
        msg.append("` is not a soundness-boundary assumption");
        return Err(boundary_error(
            line,
            msg.as_str(),
            "safe builtin bridges should stay in BridgeProfile; the soundness boundary ledger records axiom, reflection, oracle, and unsafe assumptions only",
        ));
    }
    let kind = if str_eq(profile.kind.as_str(), "soundness") {
        BoundaryAssumptionKind::SoundnessBridge
    } else if str_eq(profile.kind.as_str(), "reflection") || profile.is_reflective {
        BoundaryAssumptionKind::ReflectionBridge
    } else if str_eq(profile.kind.as_str(), "unsafe") {
        BoundaryAssumptionKind::UnsafeBridge
    } else if profile.taint.rank() >= TrustLevel::Unsafe.rank() {
        BoundaryAssumptionKind::UnsafeBridge
    } else if profile.taint.rank() >= TrustLevel::Axiom.rank() {
        BoundaryAssumptionKind::AxiomDependency
    } else {
        BoundaryAssumptionKind::Unknown
    };
    let mut history: Vec<String> = Vec::new();
    history.push(prefixed("bridge:name:", profile.name.as_str()));
    history.push(prefixed("bridge:kind:", profile.kind.as_str()));
    history.push(prefixed("bridge:source:", profile.source.as_str()));
    history.push(prefixed("bridge:target:", profile.target.as_str()));
    history.push(prefixed("bridge:requires_axiom:", bool_str(profile.requires_axiom)));
    history.push(prefixed("bridge:taint:", profile.taint.debug_str()));
    history.push(prefixed("bridge:role:", profile.role));
    assert(history.deep_view() =~= bridge_history(*profile));
    let mut parts: Vec<String> = Vec::new();
    parts.push(String::from_str("boundary-assumption:bridge:v1"));
    parts.push(String::from_str(id));
    parts.push(String::from_str(kind.display_str()));
    parts.push(profile.name.clone());
    parts.push(profile.source.clone());
    parts.push(profile.target.clone());
    parts.push(profile.kind.clone());
    parts.push(String::from_str(bool_str(profile.requires_axiom)));
    parts.push(String::from_str(bool_str(profile.preserves_syntax)));
    parts.push(String::from_str(bool_str(profile.preserves_value)));
    parts.push(String::from_str(bool_str(profile.preserves_proof)));
    parts.push(String::from_str(bool_str(profile.preserves_truth)));
    parts.push(String::from_str(profile.taint.debug_str()));
    parts.push(String::from_str(profile.role));
    assert(strings_view(parts@) =~= bridge_entry_parts(id@, *profile));
    let fingerprint = stable_fingerprint("dlm-soundness-boundary-ledger-v1-", &parts);
    Ok(BoundaryAssumptionEntry {
        id: String::from_str(id),
        kind,
        source: profile.source.clone(),
        target: profile.target.clone(),
        role: String::from_str(profile.role),
        requires_axiom: profile.requires_axiom,
        preserves_syntax: profile.preserves_syntax,
        preserves_value: profile.preserves_value,
        preserves_proof: profile.preserves_proof,
        preserves_truth: profile.preserves_truth,
        trust: profile.taint,
        provenance: provenance_for_taint(profile.taint),
        validation: ValidationState::StaticChecked,
        history,
        fingerprint,
    })
}

/// Whether a passport may stand as evidence for an assumption of `kind`;
/// the error says why not.
pub open spec fn passport_boundary_error(kind: BoundaryAssumptionKind, p: PassportV, line: usize) -> Option<DiagnosticV> {
    let ty = type_text(p.ty);
    match kind {
        BoundaryAssumptionKind::ConsistencyAssumption => match p.ty {
            TypeKindV::StaticProof(pred) if starts_with_text(pred, "consistency_axiom:"@) => None,
            _ => Some(boundary_error_model(
                line,
                "passport `"@ + ty + "` is not a consistency axiom proof"@,
                "consistency boundary entries must come from explicit consistency_axiom evidence"@,
            )),
        },
        BoundaryAssumptionKind::TruthLift => match p.ty {
            TypeKindV::StaticProof(pred) if starts_with_text(pred, "truth_from_provable:"@) => None,
            _ => Some(boundary_error_model(
                line,
                "passport `"@ + ty + "` is not a truth lift proof"@,
                "truth boundary entries must come from explicit truth_from_provable axiom evidence"@,
            )),
        },
        BoundaryAssumptionKind::ReflectionBridge => match p.ty {
            TypeKindV::StaticProof(pred) if starts_with_text(pred, "reflection_axiom:"@) || starts_with_text(
                pred,
                "self_reference_axiom:"@,
            ) => None,
            _ => Some(boundary_error_model(
                line,
                "passport `"@ + ty + "` is not a reflection/self-reference axiom proof"@,
                "reflection boundary entries must come from explicit axiom_reflection or axiom_self_reference evidence"@,
            )),
        },
        BoundaryAssumptionKind::ConservativeExtension => match p.ty {
            TypeKindV::ConservativeExtensionAudit { .. } => None,
            _ => Some(boundary_error_model(
                line,
                "passport `"@ + ty + "` is not a conservative extension audit"@,
                "conservative extension boundary entries must point at explicit conservative-extension audit passports"@,
            )),
        },
        BoundaryAssumptionKind::OracleDependency => if oracle_tainted(p.trust, p.provenance) {
            None
        } else {
            Some(boundary_error_model(
                line,
                "passport `"@ + ty + "` is not oracle-tainted"@,
                "oracle dependency entries must preserve Oracle trust/provenance taint"@,
            ))
        },
        BoundaryAssumptionKind::UnsafeBridge => if unsafe_tainted(p.trust, p.provenance) {
            None
        } else {
            Some(boundary_error_model(
                line,
                "passport `"@ + ty + "` is not unsafe-tainted"@,
                "unsafe boundary entries must preserve Unsafe trust/provenance taint"@,
            ))
        },
        BoundaryAssumptionKind::AxiomDependency | BoundaryAssumptionKind::Unknown => if axiom_tainted(p.trust) {
            None
        } else {
            Some(boundary_error_model(
                line,
                "passport `"@ + ty + "` has trust "@ + p.trust.debug_text() + ", below Axiom"@,
                "generic boundary entries must be explicitly axiom/oracle/unsafe-tainted"@,
            ))
        },
        BoundaryAssumptionKind::SoundnessBridge => match p.ty {
            TypeKindV::StaticProof(pred) if starts_with_text(pred, "truth_from_provable:"@) => None,
            _ => Some(boundary_error_model(
                line,
                "passport `"@ + ty + "` is not a soundness/truth bridge proof"@,
                "soundness boundary entries from passports must be explicit axiom truth lifts"@,
            )),
        },
    }
}

fn static_proof_starts_with(passport: &Passport, prefix: &str) -> (r: bool)
    ensures
        r == (match passport@.ty {
            TypeKindV::StaticProof(pred) => starts_with_text(pred, prefix@),
            _ => false,
        }),
{
    match &passport.ty {
        TypeKind::StaticProof(pred) => text_starts_with(pred.as_str(), prefix),
        _ => false,
    }
}

fn passport_message(passport: &Passport, tail: &str) -> (r: String)
    ensures
        r@ == "passport `"@ + type_text(passport@.ty) + tail@,
{
    let mut msg = String::from_str("passport `");
    msg.append(passport.ty.to_text().as_str());
    msg.append(tail);
    msg
}

fn validate_passport_boundary(kind: BoundaryAssumptionKind, passport: &Passport, line: usize) -> (r: Result<(), Diagnostic>)
    ensures
        passport_boundary_error(kind, passport@, line) == (match r {
            Ok(()) => None::<DiagnosticV>,
            Err(d) => Some(d@),
        }),
{
    match kind {
        BoundaryAssumptionKind::ConsistencyAssumption => if static_proof_starts_with(passport, "consistency_axiom:") {
            Ok(())
        } else {
            let msg = passport_message(passport, "` is not a consistency axiom proof");
            Err(boundary_error(line, msg.as_str(), "consistency boundary entries must come from explicit consistency_axiom evidence"))
        },
        BoundaryAssumptionKind::TruthLift => if static_proof_starts_with(passport, "truth_from_provable:") {
            Ok(())
        } else {
            let msg = passport_message(passport, "` is not a truth lift proof");
            Err(boundary_error(line, msg.as_str(), "truth boundary entries must come from explicit truth_from_provable axiom evidence"))
        },
        BoundaryAssumptionKind::ReflectionBridge => if static_proof_starts_with(passport, "reflection_axiom:") || static_proof_starts_with(
            passport,
            "self_reference_axiom:",
        ) {
            Ok(())
        } else {
            let msg = passport_message(passport, "` is not a reflection/self-reference axiom proof");
            Err(boundary_error(
                line,
                msg.as_str(),
                "reflection boundary entries must come from explicit axiom_reflection or axiom_self_reference evidence",
            ))
        },
        BoundaryAssumptionKind::ConservativeExtension => match &passport.ty {
            TypeKind::ConservativeExtensionAudit { .. } => Ok(()),
            _ => {
                let msg = passport_message(passport, "` is not a conservative extension audit");
                Err(boundary_error(
                    line,
                    msg.as_str(),
                    "conservative extension boundary entries must point at explicit conservative-extension audit passports",
                ))
            },
        },
        BoundaryAssumptionKind::OracleDependency => {
            if passport.trust.rank() >= TrustLevel::Oracle.rank() || passport.provenance == Provenance::OracleInput {
                Ok(())
            } else {
                let msg = passport_message(passport, "` is not oracle-tainted");
                Err(boundary_error(line, msg.as_str(), "oracle dependency entries must preserve Oracle trust/provenance taint"))
            }
        },
        BoundaryAssumptionKind::UnsafeBridge => {
            if passport.trust.rank() >= TrustLevel::Unsafe.rank() || passport.provenance == Provenance::UnsafeExternal {
                Ok(())
            } else {
                let msg = passport_message(passport, "` is not unsafe-tainted");
                Err(boundary_error(line, msg.as_str(), "unsafe boundary entries must preserve Unsafe trust/provenance taint"))
            }
        },
        BoundaryAssumptionKind::AxiomDependency | BoundaryAssumptionKind::Unknown => {
            if passport.trust.rank() >= TrustLevel::Axiom.rank() {
                Ok(())
            } else {
                let mut msg = passport_message(passport, "` has trust ");
                msg.append(passport.trust.debug_str());
                msg.append(", below Axiom");
                Err(boundary_error(line, msg.as_str(), "generic boundary entries must be explicitly axiom/oracle/unsafe-tainted"))
            }
        },
        BoundaryAssumptionKind::SoundnessBridge => if static_proof_starts_with(passport, "truth_from_provable:") {
            Ok(())
        } else {
            let msg = passport_message(passport, "` is not a soundness/truth bridge proof");
            Err(boundary_error(line, msg.as_str(), "soundness boundary entries from passports must be explicit axiom truth lifts"))
        },
    }
}

/// The kinds of assumption that need an axiom whatever their evidence.
pub open spec fn kind_requires_axiom(kind: BoundaryAssumptionKind) -> bool {
    !(kind == BoundaryAssumptionKind::ConservativeExtension || kind == BoundaryAssumptionKind::OracleDependency)
}

/// The target that a passport's type names.
pub open spec fn passport_target(t: TypeKindV) -> Seq<char> {
    match t {
        TypeKindV::StaticProof(pred) => pred,
        TypeKindV::ConservativeExtensionAudit { base, extension, .. } => base + "->"@ + extension,
        TypeKindV::MetatheoryDependencyAudit { subject, .. } => subject,
        TypeKindV::MetatheoryClosureReport { subject, .. } => subject,
        TypeKindV::GlobalMetatheoryInventory { subject, .. } => subject,
        TypeKindV::SoundnessBoundaryLedger { subject, .. } => subject,
        _ => type_text(t),
    }
}

/// The parts the fingerprint of an assumption from a passport is taken over.
pub open spec fn passport_entry_parts(id: Seq<char>, kind: BoundaryAssumptionKind, p: PassportV) -> Seq<Seq<char>> {
    seq![
        "boundary-assumption:passport:v1"@,
        id,
        kind.display_text(),
        type_text(p.ty),
        p.trust.debug_text(),
        p.provenance.debug_text(),
        p.validation.debug_text(),
        p.theory.home,
        join_text(p.history, " -> "@),
    ]
}

/// What `boundary_assumption_from_passport` gives.
pub open spec fn entry_from_passport_spec(id: Seq<char>, kind: BoundaryAssumptionKind, p: PassportV, line: usize) -> Result<
    BoundaryAssumptionEntryV,
    DiagnosticV,
> {
    if boundary_blank_error(id, "boundary assumption id"@, line) is Some {
        Err(boundary_blank_error(id, "boundary assumption id"@, line)->Some_0)
    } else if passport_boundary_error(kind, p, line) is Some {
        Err(passport_boundary_error(kind, p, line)->Some_0)
    } else {
        Ok(BoundaryAssumptionEntryV {
            id,
            kind,
            source: p.theory.home,
            target: passport_target(p.ty),
            role: "passport boundary evidence: "@ + type_text(p.ty),
            requires_axiom: kind_requires_axiom(kind) || axiom_tainted(p.trust),
            preserves_syntax: false,
            preserves_value: false,
            preserves_proof: kind == BoundaryAssumptionKind::ReflectionBridge,
            preserves_truth: kind == BoundaryAssumptionKind::SoundnessBridge || kind == BoundaryAssumptionKind::TruthLift,
            trust: p.trust,
            provenance: p.provenance,
            validation: p.validation,
            history: p.history,
            fingerprint: fingerprint_text(ledger_prefix(), passport_entry_parts(id, kind, p)),
        })
    }
}

fn kind_needs_axiom(kind: BoundaryAssumptionKind) -> (r: bool)
    ensures
        r == kind_requires_axiom(kind),
{
    !(kind == BoundaryAssumptionKind::ConservativeExtension || kind == BoundaryAssumptionKind::OracleDependency)
}

pub fn boundary_assumption_from_passport(id: &str, kind: BoundaryAssumptionKind, passport: &Passport, line: usize) -> (r: Result<
    BoundaryAssumptionEntry,
    Diagnostic,
>)
    ensures
        entry_from_passport_spec(id@, kind, passport@, line) == (match r {
            Ok(e) => Ok::<BoundaryAssumptionEntryV, DiagnosticV>(e@),
            Err(d) => Err::<BoundaryAssumptionEntryV, DiagnosticV>(d@),
        }),
{
    match require_non_empty(id, "boundary assumption id", line) {
        Err(d) => return Err(d),
        Ok(()) => {},
    }
    match validate_passport_boundary(kind, passport, line) {
        Err(d) => return Err(d),
        Ok(()) => {},
    }
    let ty = passport.ty.to_text();
    let target = match &passport.ty {
        TypeKind::StaticProof(pred) => pred.clone(),
        TypeKind::ConservativeExtensionAudit { base, extension, .. } => {
            let mut s = base.clone();
            s.append("->");
            s.append(extension.as_str());
            s
        },
        TypeKind::MetatheoryDependencyAudit { subject, .. } => subject.clone(),
        TypeKind::MetatheoryClosureReport { subject, .. } => subject.clone(),
        TypeKind::GlobalMetatheoryInventory { subject, .. } => subject.clone(),
        TypeKind::SoundnessBoundaryLedger { subject, .. } => subject.clone(),
        _ => ty.clone(),
    };
    assert(target@ == passport_target(passport@.ty));
    let history = copy_strings(passport.history.events());
    let requires_axiom = kind_needs_axiom(kind) || passport.trust.rank() >= TrustLevel::Axiom.rank();
    let mut parts: Vec<String> = Vec::new();
    parts.push(String::from_str("boundary-assumption:passport:v1"));
    parts.push(String::from_str(id));
    parts.push(String::from_str(kind.display_str()));
    parts.push(ty.clone());
    parts.push(String::from_str(passport.trust.debug_str()));
    parts.push(String::from_str(passport.provenance.debug_str()));
    parts.push(String::from_str(passport.validation.debug_str()));
    parts.push(passport.theory.home.clone());
    parts.push(join_strings(&history, " -> "));
    assert(strings_view(parts@) =~= passport_entry_parts(id@, kind, passport@));
    let fingerprint = stable_fingerprint("dlm-soundness-boundary-ledger-v1-", &parts);
    Ok(BoundaryAssumptionEntry {
        id: String::from_str(id),
        kind,
        source: passport.theory.home.clone(),
        target,
        role: prefixed("passport boundary evidence: ", ty.as_str()),
        requires_axiom,
        preserves_syntax: false,
        preserves_value: false,
        preserves_proof: kind == BoundaryAssumptionKind::ReflectionBridge,
        preserves_truth: kind == BoundaryAssumptionKind::SoundnessBridge || kind == BoundaryAssumptionKind::TruthLift,
        trust: passport.trust,
        provenance: passport.provenance,
        validation: passport.validation,
        history,
        fingerprint,
    })
}

/// The verdict of a global theorem-dependency inventory.
#[derive(Debug, Clone, Copy, PartialEq, Eq, Structural, PartialOrd, Ord)]
pub enum InventoryStatus {
    Verified,
    Open,
    Rejected,
}

/// What a ledger reads of a global theorem-dependency inventory: its
/// subject, verdict, taint and fingerprint.
#[derive(Debug)]
pub struct GlobalInventorySummary {
    pub subject: String,
    pub status: InventoryStatus,
    pub max_trust: TrustLevel,
    pub has_axiom_taint: bool,
    pub has_oracle_taint: bool,
    pub has_unsafe_taint: bool,
    pub inventory_fingerprint: String,
}

pub struct GlobalInventorySummaryV {
    pub subject: Seq<char>,
    pub status: InventoryStatus,
    pub max_trust: TrustLevel,
    pub has_axiom_taint: bool,
    pub has_oracle_taint: bool,
    pub has_unsafe_taint: bool,
    pub inventory_fingerprint: Seq<char>,
}

impl View for GlobalInventorySummary {
    type V = GlobalInventorySummaryV;

    open spec fn view(&self) -> GlobalInventorySummaryV {
        GlobalInventorySummaryV {
            subject: self.subject@,
            status: self.status,
            max_trust: self.max_trust,
            has_axiom_taint: self.has_axiom_taint,
            has_oracle_taint: self.has_oracle_taint,
            has_unsafe_taint: self.has_unsafe_taint,
            inventory_fingerprint: self.inventory_fingerprint@,
        }
    }
}

/// The model of an optional inventory.
pub open spec fn inventory_view(g: Option<&GlobalInventorySummary>) -> Option<GlobalInventorySummaryV> {
    match g {
        Some(x) => Some(x@),
        None => None,
    }
}

/// The ledger of a subject's boundary assumptions.
#[derive(Debug)]
pub struct SoundnessBoundaryLedgerReport {
    pub subject: String,
    pub status: SoundnessBoundaryStatus,
    pub assumptions: Vec<BoundaryAssumptionEntry>,
    pub global_inventory_fingerprint: Option<String>,
    pub diagnostics: Vec<Diagnostic>,
    pub max_trust: TrustLevel,
    pub has_axiom_taint: bool,
    pub has_oracle_taint: bool,
    pub has_unsafe_taint: bool,
    pub ledger_fingerprint: String,
}

pub struct SoundnessBoundaryLedgerReportV {
    pub subject: Seq<char>,
    pub status: SoundnessBoundaryStatus,
    pub assumptions: Seq<BoundaryAssumptionEntryV>,
    pub global_inventory_fingerprint: Option<Seq<char>>,
    pub diagnostics: Seq<DiagnosticV>,
    pub max_trust: TrustLevel,
    pub has_axiom_taint: bool,
    pub has_oracle_taint: bool,
    pub has_unsafe_taint: bool,
    pub ledger_fingerprint: Seq<char>,
}

impl View for SoundnessBoundaryLedgerReport {
    type V = SoundnessBoundaryLedgerReportV;

    open spec fn view(&self) -> SoundnessBoundaryLedgerReportV {
        SoundnessBoundaryLedgerReportV {
            subject: self.subject@,
            status: self.status,
            assumptions: entries_view(self.assumptions@),
            global_inventory_fingerprint: match self.global_inventory_fingerprint {
                Some(f) => Some(f@),
                None => None,
            },
            diagnostics: diagnostics_view(self.diagnostics@),
            max_trust: self.max_trust,
            has_axiom_taint: self.has_axiom_taint,
            has_oracle_taint: self.has_oracle_taint,
            has_unsafe_taint: self.has_unsafe_taint,
            ledger_fingerprint: self.ledger_fingerprint@,
        }
    }
}

/// The diagnostics for entry `k`: an id or fingerprint an earlier entry has,
/// and an axiom requirement without axiom taint.
pub open spec fn entry_diags(es: Seq<BoundaryAssumptionEntryV>, line: usize, k: int) -> Seq<DiagnosticV> {
    let e = es[k];
    (if exists|j: int| 0 <= j < k && #[trigger] es[j].id == e.id {
        seq![boundary_error_model(
            line,
            "duplicate boundary assumption id `"@ + e.id + "`"@,
            "boundary assumptions must have unique stable ids so each soundness boundary is auditable"@,
        )]
    } else {
        Seq::empty()
    }) + (if exists|j: int| 0 <= j < k && #[trigger] es[j].fingerprint == e.fingerprint {
        seq![boundary_error_model(
            line,
            "duplicate boundary assumption fingerprint `"@ + e.fingerprint + "`"@,
            "duplicate evidence must be recorded once or made explicit with a distinct boundary role"@,
        )]
    } else {
        Seq::empty()
    }) + (if e.requires_axiom && !axiom_tainted(e.trust) {
        seq![boundary_error_model(
            line,
            "boundary assumption `"@ + e.id + "` requires an axiom but has trust "@ + e.trust.debug_text(),
            "axiom-requiring boundaries must remain Axiom/Oracle/Unsafe-tainted"@,
        )]
    } else {
        Seq::empty()
    })
}

/// The diagnostics for the first `n` entries.
pub open spec fn entries_diags(es: Seq<BoundaryAssumptionEntryV>, line: usize, n: int) -> Seq<DiagnosticV>
    decreases n,
{
    if n <= 0 {
        Seq::empty()
    } else {
        entries_diags(es, line, n - 1) + entry_diags(es, line, n - 1)
    }
}

/// The diagnostic for a rejected inventory.
pub open spec fn inventory_diags(inv: Option<GlobalInventorySummaryV>, line: usize) -> Seq<DiagnosticV> {
    match inv {
        Some(g) => if g.status == InventoryStatus::Rejected {
            seq![boundary_error_model(
                line,
                "global metatheory inventory `"@ + g.subject + "` is rejected"@,
                "a rejected theorem dependency inventory cannot be used as a soundness boundary basis"@,
            )]
        } else {
            Seq::empty()
        },
        None => Seq::empty(),
    }
}

/// All the diagnostics of a ledger, in the order they are reported.
pub open spec fn ledger_diags(subject: Seq<char>, es: Seq<BoundaryAssumptionEntryV>, inv: Option<GlobalInventorySummaryV>, line: usize) -> Seq<
    DiagnosticV,
> {
    (if all_ws(subject) {
        seq![boundary_error_model(
            line,
            "soundness boundary ledger subject must not be empty"@,
            "boundary ledgers need a stable subject name for reproducible audit fingerprints"@,
        )]
    } else {
        Seq::empty()
    }) + (if es.len() == 0 {
        seq![boundary_error_model(
            line,
            "soundness boundary ledger has no explicit assumptions"@,
            "a ledger without boundary entries would not account for soundness, reflection, consistency, oracle, or unsafe assumptions"@,
        )]
    } else {
        Seq::empty()
    }) + entries_diags(es, line, es.len() as int) + inventory_diags(inv, line)
}

/// The least trusted level of the entries (from `Checked`) and their taints.
pub open spec fn entries_taint(es: Seq<BoundaryAssumptionEntryV>) -> (TrustLevel, bool, bool, bool)
    decreases es.len(),
{
    if es.len() == 0 {
        (TrustLevel::Checked, false, false, false)
    } else {
        let (t, a, o, u) = entries_taint(es.drop_last());
        let e = es.last();
        (
            t.higher(e.trust),
            a || axiom_tainted(e.trust),
            o || oracle_tainted(e.trust, e.provenance),
            u || unsafe_tainted(e.trust, e.provenance),
        )
    }
}

/// The ledger's taint: the entries', joined with the inventory's.
pub open spec fn ledger_taint(es: Seq<BoundaryAssumptionEntryV>, inv: Option<GlobalInventorySummaryV>) -> (TrustLevel, bool, bool, bool) {
    let (t, a, o, u) = entries_taint(es);
    match inv {
        Some(g) => (t.higher(g.max_trust), a || g.has_axiom_taint, o || g.has_oracle_taint, u || g.has_unsafe_taint),
        None => (t, a, o, u),
    }
}

/// Some boundary is still open: an entry of unknown kind, or an open inventory.
pub open spec fn ledger_open(es: Seq<BoundaryAssumptionEntryV>, inv: Option<GlobalInventorySummaryV>) -> bool {
    (exists|k: int| 0 <= k < es.len() && #[trigger] es[k].kind == BoundaryAssumptionKind::Unknown) || (match inv {
        Some(g) => g.status == InventoryStatus::Open,
        None => false,
    })
}

/// What each entry contributes to the ledger fingerprint.
pub open spec fn ledger_entry_text(e: BoundaryAssumptionEntryV) -> Seq<char> {
    "assumption:"@ + e.id + ":"@ + e.kind.display_text() + ":"@ + e.fingerprint + ":"@ + e.trust.debug_text()
}

/// The parts the ledger fingerprint is taken over.
pub open spec fn ledger_parts(
    subject: Seq<char>,
    status: SoundnessBoundaryStatus,
    es: Seq<BoundaryAssumptionEntryV>,
    inventory_fingerprint: Option<Seq<char>>,
    ds: Seq<DiagnosticV>,
    t: TrustLevel,
    a: bool,
    o: bool,
    u: bool,
) -> Seq<Seq<char>> {
    seq!["soundness-boundary-ledger:v1"@, subject, status.display_text(), t.debug_text(), bool_text(a), bool_text(o), bool_text(u)]
        + (match inventory_fingerprint {
        Some(f) => seq!["global-inventory:"@ + f],
        None => Seq::empty(),
    }) + es.map_values(|e: BoundaryAssumptionEntryV| ledger_entry_text(e)) + ds.map_values(|d: DiagnosticV| diagnostic_entry_text(d))
}

/// What `soundness_boundary_ledger` gives: every diagnostic found, rejected
/// when there is one, open when a boundary is open, else verified.
pub open spec fn ledger_spec(subject: Seq<char>, es: Seq<BoundaryAssumptionEntryV>, inv: Option<GlobalInventorySummaryV>, line: usize) -> SoundnessBoundaryLedgerReportV {
    let ds = ledger_diags(subject, es, inv, line);
    let status = if ds.len() > 0 {
        SoundnessBoundaryStatus::Rejected
    } else if ledger_open(es, inv) {
        SoundnessBoundaryStatus::Open
    } else {
        SoundnessBoundaryStatus::Verified
    };
    let (t, a, o, u) = ledger_taint(es, inv);
    let gf = match inv {
        Some(g) => Some(g.inventory_fingerprint),
        None => None,
    };
    SoundnessBoundaryLedgerReportV {
        subject,
        status,
        assumptions: es,
        global_inventory_fingerprint: gf,
        diagnostics: ds,
        max_trust: t,
        has_axiom_taint: a,
        has_oracle_taint: o,
        has_unsafe_taint: u,
        ledger_fingerprint: fingerprint_text(ledger_prefix(), ledger_parts(subject, status, es, gf, ds, t, a, o, u)),
    }
}

fn push_diag(ds: &mut Vec<Diagnostic>, d: Diagnostic)
    ensures
        diagnostics_view(final(ds)@) == diagnostics_view(old(ds)@).push(d@),
{
    ds.push(d);
    assert(diagnostics_view(ds@) =~= diagnostics_view(old(ds)@).push(d@));
}

fn check_entry(entries: &Vec<BoundaryAssumptionEntry>, k: usize, line: usize, ds: &mut Vec<Diagnostic>)
    requires
        k < entries.len(),
    ensures
        diagnostics_view(final(ds)@) == diagnostics_view(old(ds)@) + entry_diags(entries_view(entries@), line, k as int),
{
    let ghost es = entries_view(entries@);
    let ghost start = diagnostics_view(ds@);
    assert(es[k as int] == entries@[k as int]@);
    let e = &entries[k];
    let mut dup_id = false;
    let mut dup_fp = false;
    let mut j: usize = 0;
    while j < k
        invariant
            es == entries_view(entries@),
            j <= k < entries.len(),
            es[k as int] == e@,
            dup_id == exists|m: int| 0 <= m < j && #[trigger] es[m].id == e@.id,
            dup_fp == exists|m: int| 0 <= m < j && #[trigger] es[m].fingerprint == e@.fingerprint,
        decreases k - j,
    {
        assert(es[j as int] == entries@[j as int]@);
        assert(es[j as int].id == entries@[j as int].id@ && es[j as int].fingerprint == entries@[j as int].fingerprint@);
        if str_eq(entries[j].id.as_str(), e.id.as_str()) {
            dup_id = true;
        }
        if str_eq(entries[j].fingerprint.as_str(), e.fingerprint.as_str()) {
            dup_fp = true;
        }
        j = j + 1;
    }
    if dup_id {
        let mut msg = String::from_str("duplicate boundary assumption id `");
        msg.append(e.id.as_str());
        msg.append("`");
        push_diag(ds, boundary_error(line, msg.as_str(), "boundary assumptions must have unique stable ids so each soundness boundary is auditable"));
    }
    let ghost d1 = diagnostics_view(ds@);
    if dup_fp {
        let mut msg = String::from_str("duplicate boundary assumption fingerprint `");
        msg.append(e.fingerprint.as_str());
        msg.append("`");
        push_diag(ds, boundary_error(line, msg.as_str(), "duplicate evidence must be recorded once or made explicit with a distinct boundary role"));
    }
    let ghost d2 = diagnostics_view(ds@);
    if e.requires_axiom && e.trust.rank() < TrustLevel::Axiom.rank() {
        let mut msg = String::from_str("boundary assumption `");
        msg.append(e.id.as_str());
        msg.append("` requires an axiom but has trust ");
        msg.append(e.trust.debug_str());
        push_diag(ds, boundary_error(line, msg.as_str(), "axiom-requiring boundaries must remain Axiom/Oracle/Unsafe-tainted"));
    }
    assert(diagnostics_view(ds@) =~= start + entry_diags(es, line, k as int));
}

fn ledger_entry(e: &BoundaryAssumptionEntry) -> (r: String)
    ensures
        r@ == ledger_entry_text(e@),
{
    let mut s = String::from_str("assumption:");
    s.append(e.id.as_str());
    s.append(":");
    s.append(e.kind.display_str());
    s.append(":");
    s.append(e.fingerprint.as_str());
    s.append(":");
    s.append(e.trust.debug_str());
    s
}

fn diagnostic_entry(d: &Diagnostic) -> (r: String)
    ensures
        r@ == diagnostic_entry_text(d@),
{
    let mut s = String::from_str("diagnostic:");
    s.append(d.kind.debug_str());
    s.append(":");
    s.append(d.message.as_str());
    s
}

fn ledger_fingerprint(
    subject: &str,
    status: SoundnessBoundaryStatus,
    entries: &Vec<BoundaryAssumptionEntry>,
    inventory_fingerprint: &Option<String>,
    diagnostics: &Vec<Diagnostic>,
    t: TrustLevel,
    a: bool,
    o: bool,
    u: bool,
) -> (r: String)
    ensures
        r@ == fingerprint_text(
            ledger_prefix(),
            ledger_parts(
                subject@,
                status,
                entries_view(entries@),
                match inventory_fingerprint {
                    Some(f) => Some(f@),
                    None => None,
                },
                diagnostics_view(diagnostics@),
                t,
                a,
                o,
                u,
            ),
        ),
{
    let ghost es = entries_view(entries@);
    let ghost ds = diagnostics_view(diagnostics@);
    let mut parts: Vec<String> = Vec::new();
    parts.push(String::from_str("soundness-boundary-ledger:v1"));
    parts.push(String::from_str(subject));
    parts.push(String::from_str(status.display_str()));
    parts.push(String::from_str(t.debug_str()));
    parts.push(String::from_str(bool_str(a)));
    parts.push(String::from_str(bool_str(o)));
    parts.push(String::from_str(bool_str(u)));
    match inventory_fingerprint {
        Some(f) => parts.push(prefixed("global-inventory:", f.as_str())),
        None => {},
    }
    let ghost head = strings_view(parts@);
    let ghost eentries = es.map_values(|e: BoundaryAssumptionEntryV| ledger_entry_text(e));
    let ghost dentries = ds.map_values(|d: DiagnosticV| diagnostic_entry_text(d));
    let mut k: usize = 0;
    while k < entries.len()
        invariant
            es == entries_view(entries@),
            eentries == es.map_values(|e: BoundaryAssumptionEntryV| ledger_entry_text(e)),
            k <= entries.len(),
            strings_view(parts@) =~= head + eentries.take(k as int),
        decreases entries.len() - k,
    {
        assert(es[k as int] == entries@[k as int]@);
        let ghost before = strings_view(parts@);
        parts.push(ledger_entry(&entries[k]));
        assert(strings_view(parts@) =~= before.push(eentries[k as int]));
        assert(eentries.take(k + 1) =~= eentries.take(k as int).push(eentries[k as int]));
        k = k + 1;
    }
    assert(eentries.take(k as int) =~= eentries);
    let ghost mid = strings_view(parts@);
    let mut i: usize = 0;
    while i < diagnostics.len()
        invariant
            ds == diagnostics_view(diagnostics@),
            dentries == ds.map_values(|d: DiagnosticV| diagnostic_entry_text(d)),
            i <= diagnostics.len(),
            strings_view(parts@) =~= mid + dentries.take(i as int),
        decreases diagnostics.len() - i,
    {
        assert(ds[i as int] == diagnostics@[i as int]@);
        let ghost before = strings_view(parts@);
        parts.push(diagnostic_entry(&diagnostics[i]));
        assert(strings_view(parts@) =~= before.push(dentries[i as int]));
        assert(dentries.take(i + 1) =~= dentries.take(i as int).push(dentries[i as int]));
        i = i + 1;
    }
    assert(dentries.take(i as int) =~= dentries);
    let ghost gf = match inventory_fingerprint {
        Some(f) => Some(f@),
        None => None::<Seq<char>>,
    };
    assert(strings_view(parts@) =~= ledger_parts(subject@, status, es, gf, ds, t, a, o, u));
    stable_fingerprint("dlm-soundness-boundary-ledger-v1-", &parts)
}

#[verifier::rlimit(40)]
pub fn soundness_boundary_ledger(
    subject: &str,
    assumptions: Vec<BoundaryAssumptionEntry>,
    global_inventory: Option<&GlobalInventorySummary>,
    line: usize,
) -> (r: SoundnessBoundaryLedgerReport)
    ensures
        r@ == ledger_spec(subject@, entries_view(assumptions@), inventory_view(global_inventory), line),
{
    let ghost es = entries_view(assumptions@);
    let ghost inv = inventory_view(global_inventory);
    let mut diagnostics: Vec<Diagnostic> = Vec::new();
    assert(diagnostics_view(diagnostics@) =~= Seq::<DiagnosticV>::empty());
    if is_blank(subject) {
        push_diag(
            &mut diagnostics,
            boundary_error(
                line,
                "soundness boundary ledger subject must not be empty",
                "boundary ledgers need a stable subject name for reproducible audit fingerprints",
            ),
        );
    }
    if assumptions.len() == 0 {
        push_diag(
            &mut diagnostics,
            boundary_error(
                line,
                "soundness boundary ledger has no explicit assumptions",
                "a ledger without boundary entries would not account for soundness, reflection, consistency, oracle, or unsafe assumptions",
            ),
        );
    }
    let ghost head = diagnostics_view(diagnostics@);
    let mut has_unknown = false;
    let mut t = TrustLevel::Checked;
    let mut a = false;
    let mut o = false;
    let mut u = false;
    let mut k: usize = 0;
    while k < assumptions.len()
        invariant
            es == entries_view(assumptions@),
            k <= assumptions.len(),
            diagnostics_view(diagnostics@) == head + entries_diags(es, line, k as int),
            (t, a, o, u) == entries_taint(es.take(k as int)),
            has_unknown == exists|m: int| 0 <= m < k && #[trigger] es[m].kind == BoundaryAssumptionKind::Unknown,
        decreases assumptions.len() - k,
    {
        assert(es[k as int] == assumptions@[k as int]@);
        check_entry(&assumptions, k, line, &mut diagnostics);
        let e = &assumptions[k];
        assert(es[k as int].kind == e.kind);
        if e.kind == BoundaryAssumptionKind::Unknown {
            has_unknown = true;
        }
        assert(es.take(k + 1).drop_last() =~= es.take(k as int));
        t = t.higher(e.trust);
        a = a || e.trust.rank() >= TrustLevel::Axiom.rank();
        o = o || e.trust.rank() >= TrustLevel::Oracle.rank() || e.provenance == Provenance::OracleInput;
        u = u || e.trust.rank() >= TrustLevel::Unsafe.rank() || e.provenance == Provenance::UnsafeExternal;
        k = k + 1;
    }
    assert(es.take(k as int) =~= es);
    let mut open = has_unknown;
    let mut inventory_fingerprint: Option<String> = None;
    let ghost mid = diagnostics_view(diagnostics@);
    match global_inventory {
        Some(g) => {
            inventory_fingerprint = Some(g.inventory_fingerprint.clone());
            t = t.higher(g.max_trust);
            a = a || g.has_axiom_taint;
            o = o || g.has_oracle_taint;
            u = u || g.has_unsafe_taint;
            match g.status {
                InventoryStatus::Verified => {},
                InventoryStatus::Open => {
                    open = true;
                },
                InventoryStatus::Rejected => {
                    let mut msg = String::from_str("global metatheory inventory `");
                    msg.append(g.subject.as_str());
                    msg.append("` is rejected");
                    push_diag(
                        &mut diagnostics,
                        boundary_error(line, msg.as_str(), "a rejected theorem dependency inventory cannot be used as a soundness boundary basis"),
                    );
                },
            }
        },
        None => {},
    }
    assert(diagnostics_view(diagnostics@) =~= mid + inventory_diags(inv, line));
    assert(diagnostics_view(diagnostics@) =~= ledger_diags(subject@, es, inv, line));
    let status = if diagnostics.len() > 0 {
        SoundnessBoundaryStatus::Rejected
    } else if open {
        SoundnessBoundaryStatus::Open
    } else {
        SoundnessBoundaryStatus::Verified
    };
    let ledger_fingerprint = ledger_fingerprint(subject, status, &assumptions, &inventory_fingerprint, &diagnostics, t, a, o, u);
    SoundnessBoundaryLedgerReport {
        subject: String::from_str(subject),
        status,
        assumptions,
        global_inventory_fingerprint: inventory_fingerprint,
        diagnostics,
        max_trust: t,
        has_axiom_taint: a,
        has_oracle_taint: o,
        has_unsafe_taint: u,
        ledger_fingerprint,
    }
}

/// What `require_verified_soundness_boundary_ledger` gives.
pub open spec fn require_verified_ledger_spec(rv: SoundnessBoundaryLedgerReportV, line: usize) -> Option<DiagnosticV> {
    if rv.status == SoundnessBoundaryStatus::Verified {
        None
    } else {
        Some(boundary_error_model(
            line,
            "soundness boundary ledger `"@ + rv.subject + "` is "@ + rv.status.display_text(),
            "only verified soundness boundary ledgers may serve as a closed global metatheory boundary account"@,
        ))
    }
}

pub fn require_verified_soundness_boundary_ledger(report: &SoundnessBoundaryLedgerReport, line: usize) -> (r: Result<(), Diagnostic>)
    ensures
        require_verified_ledger_spec(report@, line) == (match r {
            Ok(()) => None::<DiagnosticV>,
            Err(d) => Some(d@),
        }),
{
    if report.status == SoundnessBoundaryStatus::Verified {
        Ok(())
    } else {
        let mut msg = String::from_str("soundness boundary ledger `");
        msg.append(report.subject.as_str());
        msg.append("` is ");
        msg.append(report.status.display_str());
        Err(boundary_error(
            line,
            msg.as_str(),
            "only verified soundness boundary ledgers may serve as a closed global metatheory boundary account",
        ))
    }
}

/// The capabilities of a ledger passport.
pub open spec fn ledger_caps() -> Set<Capability> {
    set![
        Capability::CanSymbolicPrint,
        Capability::CanInspectAst,
        Capability::CanMetaLevelReason,
        Capability::CanPropositionReason,
        Capability::CanTruthBoundaryReason,
        Capability::CanConsistencyReason,
    ]
}

fn ledger_capabilities() -> (r: CapabilitySet)
    ensures
        r@ == ledger_caps(),
{
    let r = CapabilitySet::empty().with(Capability::CanSymbolicPrint).with(Capability::CanInspectAst).with(Capability::CanMetaLevelReason).with(
        Capability::CanPropositionReason,
    ).with(Capability::CanTruthBoundaryReason).with(Capability::CanConsistencyReason);
    assert(r@ =~= ledger_caps());
    r
}

/// The validation a ledger verdict carries.
pub open spec fn ledger_validation(status: SoundnessBoundaryStatus) -> ValidationState {
    match status {
        SoundnessBoundaryStatus::Verified => ValidationState::StaticChecked,
        SoundnessBoundaryStatus::Open => ValidationState::ConstraintChecked,
        SoundnessBoundaryStatus::Rejected => ValidationState::Raw,
    }
}

/// The history event of one assumption in a ledger passport.
pub open spec fn assumption_event(e: BoundaryAssumptionEntryV) -> Seq<char> {
    "soundness_boundary:assumption:"@ + e.kind.display_text() + ":"@ + e.id + ":"@ + e.fingerprint
}

/// What `soundness_boundary_ledger_passport` gives.
pub open spec fn ledger_passport_spec(theory: Seq<char>, rv: SoundnessBoundaryLedgerReportV) -> PassportV {
    PassportV {
        ty: TypeKindV::SoundnessBoundaryLedger { subject: rv.subject, status: rv.status.display_text() },
        construction: ConstructionMode::ProofFinite,
        capabilities: ledger_caps(),
        cost: CostClass::ProofRequired,
        trust: rv.max_trust,
        provenance: provenance_for(rv.has_axiom_taint, rv.has_oracle_taint, rv.has_unsafe_taint),
        validation: ledger_validation(rv.status),
        theory: home_context(theory),
        history: (rv.assumptions.map_values(|e: BoundaryAssumptionEntryV| assumption_event(e)) + match rv.global_inventory_fingerprint {
            Some(f) => seq!["soundness_boundary:global_inventory:"@ + f],
            None => Seq::empty(),
        }).push("soundness_boundary:ledger:"@ + rv.subject + ":"@ + rv.status.display_text() + ":fingerprint="@ + rv.ledger_fingerprint),
        location: LocationContext::Local,
    }
}

pub fn soundness_boundary_ledger_passport(theory: &str, report: &SoundnessBoundaryLedgerReport) -> (r: Passport)
    ensures
        r@ == ledger_passport_spec(theory@, report@),
{
    let ghost rv = report@;
    let ghost evs = rv.assumptions.map_values(|e: BoundaryAssumptionEntryV| assumption_event(e));
    let mut history = HistoryChain::empty();
    let mut k: usize = 0;
    while k < report.assumptions.len()
        invariant
            rv == report@,
            evs == rv.assumptions.map_values(|e: BoundaryAssumptionEntryV| assumption_event(e)),
            k <= report.assumptions.len(),
            history@ =~= evs.take(k as int),
        decreases report.assumptions.len() - k,
    {
        assert(rv.assumptions[k as int] == report.assumptions@[k as int]@);
        let e = &report.assumptions[k];
        let mut ev = String::from_str("soundness_boundary:assumption:");
        ev.append(e.kind.display_str());
        ev.append(":");
        ev.append(e.id.as_str());
        ev.append(":");
        ev.append(e.fingerprint.as_str());
        history.push(ev.as_str());
        assert(evs.take(k + 1) =~= evs.take(k as int).push(evs[k as int]));
        k = k + 1;
    }
    assert(evs.take(k as int) =~= evs);
    match &report.global_inventory_fingerprint {
        Some(f) => {
            history.push(prefixed("soundness_boundary:global_inventory:", f.as_str()).as_str());
            assert(history@ =~= evs + seq!["soundness_boundary:global_inventory:"@ + f@]);
        },
        None => {
            assert(history@ =~= evs + Seq::<Seq<char>>::empty());
        },
    }
    let mut ev = String::from_str("soundness_boundary:ledger:");
    ev.append(report.subject.as_str());
    ev.append(":");
    ev.append(report.status.display_str());
    ev.append(":fingerprint=");
    ev.append(report.ledger_fingerprint.as_str());
    history.push(ev.as_str());
    let provenance = if report.has_unsafe_taint {
        Provenance::UnsafeExternal
    } else if report.has_oracle_taint {
        Provenance::OracleInput
    } else if report.has_axiom_taint {
        Provenance::BuiltinKnown
    } else {
        Provenance::InternalDerived
    };
    let validation = if report.status == SoundnessBoundaryStatus::Verified {
        ValidationState::StaticChecked
    } else if report.status == SoundnessBoundaryStatus::Open {
        ValidationState::ConstraintChecked
    } else {
        ValidationState::Raw
    };
    Passport {
        ty: TypeKind::SoundnessBoundaryLedger { subject: report.subject.clone(), status: String::from_str(report.status.display_str()) },
        construction: ConstructionMode::ProofFinite,
        capabilities: ledger_capabilities(),
        cost: CostClass::ProofRequired,
        trust: report.max_trust,
        provenance,
        validation,
        theory: TheoryContext::new(theory),
        history,
        location: LocationContext::local(),
    }
}

/// The report line of one assumption.
pub open spec fn assumption_line(e: BoundaryAssumptionEntryV) -> Seq<char> {
    "- "@ + e.id + " kind="@ + e.kind.display_text() + " source="@ + e.source + " target="@ + e.target + " trust="@ + e.trust.debug_text()
        + " requires_axiom="@ + bool_text(e.requires_axiom) + " fingerprint="@ + e.fingerprint + "\n"@
}

/// The report line of one diagnostic.
pub open spec fn ledger_diagnostic_line(d: DiagnosticV) -> Seq<char> {
    "- "@ + d.kind.debug_text() + ": "@ + d.message + "\n"@
}

/// The head of a ledger's text, up to the number of assumptions.
pub open spec fn ledger_head_text(rv: SoundnessBoundaryLedgerReportV) -> Seq<char> {
    "DLM Soundness Boundary Ledger v1\n"@ + "subject: "@ + rv.subject + "\n"@ + "status: "@ + rv.status.display_text() + "\n"@
        + "max_trust: "@ + rv.max_trust.debug_text() + "\n"@ + "has_axiom_taint: "@ + bool_text(rv.has_axiom_taint) + "\n"@
        + "has_oracle_taint: "@ + bool_text(rv.has_oracle_taint) + "\n"@ + "has_unsafe_taint: "@ + bool_text(rv.has_unsafe_taint)
        + "\n"@ + (match rv.global_inventory_fingerprint {
        Some(f) => "global_inventory_fingerprint: "@ + f + "\n"@,
        None => "global_inventory_fingerprint: <none>\n"@,
    }) + "assumptions: "@ + dec_text(rv.assumptions.len()) + "\n"@
}

/// The text of a ledger.
pub open spec fn ledger_text(rv: SoundnessBoundaryLedgerReportV) -> Seq<char> {
    ledger_head_text(rv) + concat_texts(rv.assumptions.map_values(|e: BoundaryAssumptionEntryV| assumption_line(e))) + (if rv.diagnostics.len()
        == 0 {
        Seq::<char>::empty()
    } else {
        "diagnostics:\n"@ + concat_texts(rv.diagnostics.map_values(|d: DiagnosticV| ledger_diagnostic_line(d)))
    }) + "ledger_fingerprint: "@ + rv.ledger_fingerprint + "\n"@
}

fn ledger_head(report: &SoundnessBoundaryLedgerReport) -> (r: String)
    ensures
        r@ == ledger_head_text(report@),
{
    let mut out = String::from_str("DLM Soundness Boundary Ledger v1\n");
    out.append("subject: ");
    out.append(report.subject.as_str());
    out.append("\n");
    out.append("status: ");
    out.append(report.status.display_str());
    out.append("\n");
    out.append("max_trust: ");
    out.append(report.max_trust.debug_str());
    out.append("\n");
    out.append("has_axiom_taint: ");
    out.append(bool_str(report.has_axiom_taint));
    out.append("\n");
    out.append("has_oracle_taint: ");
    out.append(bool_str(report.has_oracle_taint));
    out.append("\n");
    out.append("has_unsafe_taint: ");
    out.append(bool_str(report.has_unsafe_taint));
    out.append("\n");
    match &report.global_inventory_fingerprint {
        Some(f) => {
            out.append("global_inventory_fingerprint: ");
            out.append(f.as_str());
            out.append("\n");
        },
        None => {
            out.append("global_inventory_fingerprint: <none>\n");
        },
    }
    out.append("assumptions: ");
    out.append(usize_text(report.assumptions.len()).as_str());
    out.append("\n");
    out
}

fn assumption_line_string(e: &BoundaryAssumptionEntry) -> (r: String)
    ensures
        r@ == assumption_line(e@),
{
    let mut out = String::from_str("- ");
    out.append(e.id.as_str());
    out.append(" kind=");
    out.append(e.kind.display_str());
    out.append(" source=");
    out.append(e.source.as_str());
    out.append(" target=");
    out.append(e.target.as_str());
    out.append(" trust=");
    out.append(e.trust.debug_str());
    out.append(" requires_axiom=");
    out.append(bool_str(e.requires_axiom));
    out.append(" fingerprint=");
    out.append(e.fingerprint.as_str());
    out.append("\n");
    out
}

pub fn render_soundness_boundary_ledger(report: &SoundnessBoundaryLedgerReport) -> (r: String)
    ensures
        r@ == ledger_text(report@),
{
    let ghost rv = report@;
    let mut out = ledger_head(report);
    let ghost head = out@;
    let ghost lines = rv.assumptions.map_values(|e: BoundaryAssumptionEntryV| assumption_line(e));
    let mut k: usize = 0;
    while k < report.assumptions.len()
        invariant
            rv == report@,
            lines == rv.assumptions.map_values(|e: BoundaryAssumptionEntryV| assumption_line(e)),
            k <= report.assumptions.len(),
            out@ =~= head + concat_texts(lines.take(k as int)),
        decreases report.assumptions.len() - k,
    {
        assert(lines.take(k + 1).drop_last() =~= lines.take(k as int));
        assert(rv.assumptions[k as int] == report.assumptions@[k as int]@);
        out.append(assumption_line_string(&report.assumptions[k]).as_str());
        k = k + 1;
    }
    assert(lines.take(k as int) =~= lines);
    if report.diagnostics.len() != 0 {
        out.append("diagnostics:\n");
        let ghost mid = out@;
        let ghost dlines = rv.diagnostics.map_values(|d: DiagnosticV| ledger_diagnostic_line(d));
        let mut i: usize = 0;
        while i < report.diagnostics.len()
            invariant
                rv == report@,
                dlines == rv.diagnostics.map_values(|d: DiagnosticV| ledger_diagnostic_line(d)),
                i <= report.diagnostics.len(),
                out@ =~= mid + concat_texts(dlines.take(i as int)),
            decreases report.diagnostics.len() - i,
        {
            assert(dlines.take(i + 1).drop_last() =~= dlines.take(i as int));
            assert(rv.diagnostics[i as int] == report.diagnostics@[i as int]@);
            out.append("- ");
            out.append(report.diagnostics[i].kind.debug_str());
            out.append(": ");
            out.append(report.diagnostics[i].message.as_str());
            out.append("\n");
            i = i + 1;
        }
        assert(dlines.take(i as int) =~= dlines);
    }
    out.append("ledger_fingerprint: ");
    out.append(report.ledger_fingerprint.as_str());
    out.append("\n");
    out
}

pub fn export_soundness_boundary_ledger(report: &SoundnessBoundaryLedgerReport) -> (r: String)
    ensures
        r@ == ledger_text(report@),
{
    render_soundness_boundary_ledger(report)
}

proof fn lemma_entries_diags_empty(es: Seq<BoundaryAssumptionEntryV>, line: usize, n: int)
    requires
        0 <= n <= es.len(),
        entries_diags(es, line, n).len() == 0,
    ensures
        forall|k: int| 0 <= k < n ==> (#[trigger] entry_diags(es, line, k)).len() == 0,
    decreases n,
{
    if n > 0 {
        lemma_entries_diags_empty(es, line, n - 1);
    }
}

/// A verified ledger carries no diagnostic, names its subject, records at
/// least one assumption, gives every assumption a distinct id and
/// fingerprint and a known kind, keeps every axiom-requiring assumption
/// axiom-tainted, and rests on no open or rejected inventory.
pub proof fn lemma_verified_ledger_accounts_every_assumption(
    subject: Seq<char>,
    es: Seq<BoundaryAssumptionEntryV>,
    inv: Option<GlobalInventorySummaryV>,
    line: usize,
)
    requires
        ledger_spec(subject, es, inv, line).status == SoundnessBoundaryStatus::Verified,
    ensures
        ledger_spec(subject, es, inv, line).diagnostics.len() == 0,
        !all_ws(subject),
        es.len() > 0,
        forall|i: int, j: int| 0 <= i < j < es.len() ==> #[trigger] es[i].id != #[trigger] es[j].id,
        forall|i: int, j: int| 0 <= i < j < es.len() ==> #[trigger] es[i].fingerprint != #[trigger] es[j].fingerprint,
        forall|k: int| 0 <= k < es.len() ==> (#[trigger] es[k]).kind != BoundaryAssumptionKind::Unknown,
        forall|k: int| 0 <= k < es.len() ==> (#[trigger] es[k]).requires_axiom ==> axiom_tainted(es[k].trust),
        inv matches Some(g) ==> g.status == InventoryStatus::Verified,
{
    let ds = ledger_diags(subject, es, inv, line);
    assert(ds.len() == 0);
    lemma_entries_diags_empty(es, line, es.len() as int);
    assert forall|i: int, j: int| 0 <= i < j < es.len() implies #[trigger] es[i].id != #[trigger] es[j].id by {
        assert(entry_diags(es, line, j).len() == 0);
        if es[i].id == es[j].id {
            assert(exists|m: int| 0 <= m < j && #[trigger] es[m].id == es[j].id);
        }
    }
    assert forall|i: int, j: int| 0 <= i < j < es.len() implies #[trigger] es[i].fingerprint != #[trigger] es[j].fingerprint by {
        assert(entry_diags(es, line, j).len() == 0);
        if es[i].fingerprint == es[j].fingerprint {
            assert(exists|m: int| 0 <= m < j && #[trigger] es[m].fingerprint == es[j].fingerprint);
        }
    }
    assert forall|k: int| 0 <= k < es.len() && (#[trigger] es[k]).requires_axiom implies axiom_tainted(es[k].trust) by {
        assert(entry_diags(es, line, k).len() == 0);
    }
}

} // verus!
