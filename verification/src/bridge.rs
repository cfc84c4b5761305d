//! Bridge preservation laws: one profile per bridge kind, read by every consumer.

use vstd::prelude::*;
use vstd::string::*;

use crate::ast::{bridge_kind_text, BridgeDecl, BridgeDeclV, BridgeKind, BridgeKindV};
use crate::passport::TrustLevel;
use crate::text::bool_str;
use crate::text::bool_text;

verus! {

/// What a bridge of some kind preserves, and what it costs in trust.
#[derive(Debug, Clone, Copy, PartialEq, Eq)]
pub struct BridgeLaw {
    pub preserves_syntax: bool,
    pub preserves_value: bool,
    pub preserves_proof: bool,
    pub preserves_truth: bool,
    pub requires_axiom: bool,
    pub is_conservative: bool,
    pub is_reflective: bool,
    pub is_reversible: bool,
    pub taint: TrustLevel,
    pub role: &'static str,
}

/// Model of a `BridgeLaw`.
pub struct BridgeLawV {
    pub preserves_syntax: bool,
    pub preserves_value: bool,
    pub preserves_proof: bool,
    pub preserves_truth: bool,
    pub requires_axiom: bool,
    pub is_conservative: bool,
    pub is_reflective: bool,
    pub is_reversible: bool,
    pub taint: TrustLevel,
    pub role: Seq<char>,
}

impl View for BridgeLaw {
    type V = BridgeLawV;

    open spec fn view(&self) -> BridgeLawV {
        BridgeLawV {
            preserves_syntax: self.preserves_syntax,
            preserves_value: self.preserves_value,
            preserves_proof: self.preserves_proof,
            preserves_truth: self.preserves_truth,
            requires_axiom: self.requires_axiom,
            is_conservative: self.is_conservative,
            is_reflective: self.is_reflective,
            is_reversible: self.is_reversible,
            taint: self.taint,
            role: self.role@,
        }
    }
}

/// The preservation law of each bridge kind.
pub open spec fn law_of(kind: BridgeKindV) -> BridgeLawV {
    match kind {
        BridgeKindV::Definitional => BridgeLawV {
            preserves_syntax: true,
            preserves_value: true,
            preserves_proof: true,
            preserves_truth: true,
            requires_axiom: false,
            is_conservative: true,
            is_reflective: false,
            is_reversible: true,
            taint: TrustLevel::Builtin,
            role: "definitional conservative extension: syntax/value/proof/truth are preserved by definition"@,
        },
        BridgeKindV::Conservative => BridgeLawV {
            preserves_syntax: false,
            preserves_value: true,
            preserves_proof: true,
            preserves_truth: true,
            requires_axiom: false,
            is_conservative: true,
            is_reflective: false,
            is_reversible: false,
            taint: TrustLevel::Builtin,
            role: "conservative extension: old-theory truth is preserved without adding old-language theorems"@,
        },
        BridgeKindV::Quote => BridgeLawV {
            preserves_syntax: true,
            preserves_value: false,
            preserves_proof: false,
            preserves_truth: false,
            requires_axiom: false,
            is_conservative: false,
            is_reflective: false,
            is_reversible: false,
            taint: TrustLevel::Builtin,
            role: "syntax-only bridge: object becomes Term; value/proof/truth are not transported"@,
        },
        BridgeKindV::Transport => BridgeLawV {
            preserves_syntax: false,
            preserves_value: true,
            preserves_proof: false,
            preserves_truth: false,
            requires_axiom: false,
            is_conservative: false,
            is_reflective: false,
            is_reversible: false,
            taint: TrustLevel::Builtin,
            role: "value transport bridge: value role is moved, but proof/truth are not implicitly preserved"@,
        },
        BridgeKindV::Soundness => BridgeLawV {
            preserves_syntax: false,
            preserves_value: false,
            preserves_proof: true,
            preserves_truth: true,
            requires_axiom: true,
            is_conservative: false,
            is_reflective: false,
            is_reversible: false,
            taint: TrustLevel::Axiom,
            role: "axiom-tainted truth bridge: provability/trusted proof is lifted toward truth via soundness assumption"@,
        },
        BridgeKindV::Reflection => BridgeLawV {
            preserves_syntax: true,
            preserves_value: false,
            preserves_proof: true,
            preserves_truth: false,
            requires_axiom: true,
            is_conservative: false,
            is_reflective: true,
            is_reversible: false,
            taint: TrustLevel::Axiom,
            role: "reflective bridge: metatheoretic self-reference; requires explicit reflective/soundness controls"@,
        },
        BridgeKindV::Migration => BridgeLawV {
            preserves_syntax: false,
            preserves_value: true,
            preserves_proof: false,
            preserves_truth: false,
            requires_axiom: false,
            is_conservative: false,
            is_reflective: false,
            is_reversible: false,
            taint: TrustLevel::Builtin,
            role: "runtime migration bridge: moves passported value/state across location/architecture boundaries"@,
        },
        BridgeKindV::Materialize => BridgeLawV {
            preserves_syntax: false,
            preserves_value: true,
            preserves_proof: false,
            preserves_truth: false,
            requires_axiom: false,
            is_conservative: false,
            is_reflective: false,
            is_reversible: false,
            taint: TrustLevel::Builtin,
            role: "materialization bridge: remote value is explicitly re-entered into local value space"@,
        },
        BridgeKindV::Unsafe => BridgeLawV {
            preserves_syntax: false,
            preserves_value: true,
            preserves_proof: false,
            preserves_truth: false,
            requires_axiom: true,
            is_conservative: false,
            is_reflective: false,
            is_reversible: false,
            taint: TrustLevel::Unsafe,
            role: "unsafe bridge: may change meaning/capabilities; result must remain Unsafe-tainted"@,
        },
        BridgeKindV::Unknown(_) => BridgeLawV {
            preserves_syntax: false,
            preserves_value: false,
            preserves_proof: false,
            preserves_truth: false,
            requires_axiom: true,
            is_conservative: false,
            is_reflective: false,
            is_reversible: false,
            taint: TrustLevel::Unsafe,
            role: "unknown bridge kind: no preservation law is known; treated as unsafe for metatheory"@,
        },
    }
}

pub fn bridge_law(kind: &BridgeKind) -> (r: BridgeLaw)
    ensures
        r@ == law_of(kind@),
{
    match kind {
        BridgeKind::Definitional => BridgeLaw {
            preserves_syntax: true,
            preserves_value: true,
            preserves_proof: true,
            preserves_truth: true,
            requires_axiom: false,
            is_conservative: true,
            is_reflective: false,
            is_reversible: true,
            taint: TrustLevel::Builtin,
            role: "definitional conservative extension: syntax/value/proof/truth are preserved by definition",
        },
        BridgeKind::Conservative => BridgeLaw {
            preserves_syntax: false,
            preserves_value: true,
            preserves_proof: true,
            preserves_truth: true,
            requires_axiom: false,
            is_conservative: true,
            is_reflective: false,
            is_reversible: false,
            taint: TrustLevel::Builtin,
            role: "conservative extension: old-theory truth is preserved without adding old-language theorems",
        },
        BridgeKind::Quote => BridgeLaw {
            preserves_syntax: true,
            preserves_value: false,
            preserves_proof: false,
            preserves_truth: false,
            requires_axiom: false,
            is_conservative: false,
            is_reflective: false,
            is_reversible: false,
            taint: TrustLevel::Builtin,
            role: "syntax-only bridge: object becomes Term; value/proof/truth are not transported",
        },
        BridgeKind::Transport => BridgeLaw {
            preserves_syntax: false,
            preserves_value: true,
            preserves_proof: false,
            preserves_truth: false,
            requires_axiom: false,
            is_conservative: false,
            is_reflective: false,
            is_reversible: false,
            taint: TrustLevel::Builtin,
            role: "value transport bridge: value role is moved, but proof/truth are not implicitly preserved",
        },
        BridgeKind::Soundness => BridgeLaw {
            preserves_syntax: false,
            preserves_value: false,
            preserves_proof: true,
            preserves_truth: true,
            requires_axiom: true,
            is_conservative: false,
            is_reflective: false,
            is_reversible: false,
            taint: TrustLevel::Axiom,
            role: "axiom-tainted truth bridge: provability/trusted proof is lifted toward truth via soundness assumption",
        },
        BridgeKind::Reflection => BridgeLaw {
            preserves_syntax: true,
            preserves_value: false,
            preserves_proof: true,
            preserves_truth: false,
            requires_axiom: true,
            is_conservative: false,
            is_reflective: true,
            is_reversible: false,
            taint: TrustLevel::Axiom,
            role: "reflective bridge: metatheoretic self-reference; requires explicit reflective/soundness controls",
        },
        BridgeKind::Migration => BridgeLaw {
            preserves_syntax: false,
            preserves_value: true,
            preserves_proof: false,
            preserves_truth: false,
            requires_axiom: false,
            is_conservative: false,
            is_reflective: false,
            is_reversible: false,
            taint: TrustLevel::Builtin,
            role: "runtime migration bridge: moves passported value/state across location/architecture boundaries",
        },
        BridgeKind::Materialize => BridgeLaw {
            preserves_syntax: false,
            preserves_value: true,
            preserves_proof: false,
            preserves_truth: false,
            requires_axiom: false,
            is_conservative: false,
            is_reflective: false,
            is_reversible: false,
            taint: TrustLevel::Builtin,
            role: "materialization bridge: remote value is explicitly re-entered into local value space",
        },
        BridgeKind::Unsafe => BridgeLaw {
            preserves_syntax: false,
            preserves_value: true,
            preserves_proof: false,
            preserves_truth: false,
            requires_axiom: true,
            is_conservative: false,
            is_reflective: false,
            is_reversible: false,
            taint: TrustLevel::Unsafe,
            role: "unsafe bridge: may change meaning/capabilities; result must remain Unsafe-tainted",
        },
        BridgeKind::Unknown(_) => BridgeLaw {
            preserves_syntax: false,
            preserves_value: false,
            preserves_proof: false,
            preserves_truth: false,
            requires_axiom: true,
            is_conservative: false,
            is_reflective: false,
            is_reversible: false,
            taint: TrustLevel::Unsafe,
            role: "unknown bridge kind: no preservation law is known; treated as unsafe for metatheory",
        },
    }
}

/// A bridge declaration together with the law of its kind.
#[derive(Debug)]
pub struct BridgeProfile {
    pub name: String,
    pub source: String,
    pub target: String,
    pub kind: String,
    pub preserves_syntax: bool,
    pub preserves_value: bool,
    pub preserves_proof: bool,
    pub preserves_truth: bool,
    pub requires_axiom: bool,
    pub is_conservative: bool,
    pub is_reflective: bool,
    pub is_reversible: bool,
    pub taint: TrustLevel,
    pub role: &'static str,
}

/// The profile holds the law of the declaration's kind and its names.
pub open spec fn profile_matches(p: BridgeProfile, b: BridgeDeclV) -> bool {
    let law = law_of(b.kind);
    &&& p.name@ == b.name
    &&& p.source@ == b.source
    &&& p.target@ == b.target
    &&& p.kind@ == bridge_kind_text(b.kind)
    &&& p.preserves_syntax == law.preserves_syntax
    &&& p.preserves_value == law.preserves_value
    &&& p.preserves_proof == law.preserves_proof
    &&& p.preserves_truth == law.preserves_truth
    &&& p.requires_axiom == law.requires_axiom
    &&& p.is_conservative == law.is_conservative
    &&& p.is_reflective == law.is_reflective
    &&& p.is_reversible == law.is_reversible
    &&& p.taint == law.taint
    &&& p.role@ == law.role
}

/// The flag summary of a profile (`render_flags`).
pub open spec fn flags_text(p: BridgeProfile) -> Seq<char> {
    "preserves=[syntax:"@ + bool_text(p.preserves_syntax) + ", value:"@ + bool_text(p.preserves_value)
        + ", proof:"@ + bool_text(p.preserves_proof) + ", truth:"@ + bool_text(p.preserves_truth)
        + "], conservative="@ + bool_text(p.is_conservative) + ", reflective="@ + bool_text(
        p.is_reflective,
    ) + ", reversible="@ + bool_text(p.is_reversible) + ", requires_axiom="@ + bool_text(
        p.requires_axiom,
    ) + ", taint="@ + p.taint.debug_text()
}

impl BridgeProfile {
    pub fn from_decl(bridge: &BridgeDecl) -> (r: Self)
        ensures
            profile_matches(r, bridge@),
    {
        let law = bridge_law(&bridge.kind);
        BridgeProfile {
            name: bridge.name.clone(),
            source: bridge.source.clone(),
            target: bridge.target.clone(),
            kind: String::from_str(bridge.kind.as_str()),
            preserves_syntax: law.preserves_syntax,
            preserves_value: law.preserves_value,
            preserves_proof: law.preserves_proof,
            preserves_truth: law.preserves_truth,
            requires_axiom: law.requires_axiom,
            is_conservative: law.is_conservative,
            is_reflective: law.is_reflective,
            is_reversible: law.is_reversible,
            taint: law.taint,
            role: law.role,
        }
    }

    pub fn render_flags(&self) -> (r: String)
        ensures
            r@ == flags_text(*self),
    {
        let mut s = String::from_str("preserves=[syntax:");
        s.append(bool_str(self.preserves_syntax));
        s.append(", value:");
        s.append(bool_str(self.preserves_value));
        s.append(", proof:");
        s.append(bool_str(self.preserves_proof));
        s.append(", truth:");
        s.append(bool_str(self.preserves_truth));
        s.append("], conservative=");
        s.append(bool_str(self.is_conservative));
        s.append(", reflective=");
        s.append(bool_str(self.is_reflective));
        s.append(", reversible=");
        s.append(bool_str(self.is_reversible));
        s.append(", requires_axiom=");
        s.append(bool_str(self.requires_axiom));
        s.append(", taint=");
        s.append(self.taint.debug_str());
        s
    }
}

/// The bridge connects `source` to `target` with kind `kind`.
pub open spec fn bridge_fits(b: BridgeDeclV, source: Seq<char>, target: Seq<char>, kind: BridgeKindV) -> bool {
    b.source == source && b.target == target && b.kind == kind
}

/// The first bridge from `source` to `target` of kind `kind`.
pub fn find_bridge<'a>(bridges: &'a [BridgeDecl], source: &str, target: &str, kind: &BridgeKind) -> (r: Option<&'a BridgeDecl>)
    ensures
        r is None <==> forall|i: int| 0 <= i < bridges@.len() ==> !bridge_fits(#[trigger] bridges@[i]@, source@, target@, kind@),
        r matches Some(b) ==> exists|i: int| 0 <= i < bridges@.len() && *b == bridges@[i] && bridge_fits(bridges@[i]@, source@, target@, kind@)
            && forall|j: int| 0 <= j < i ==> !bridge_fits(#[trigger] bridges@[j]@, source@, target@, kind@),
{
    let mut i: usize = 0;
    while i < bridges.len()
        invariant
            i <= bridges.len(),
            forall|j: int| 0 <= j < i ==> !bridge_fits(#[trigger] bridges@[j]@, source@, target@, kind@),
        decreases bridges.len() - i,
    {
        let b = &bridges[i];
        if crate::text::str_eq(b.source.as_str(), source) && crate::text::str_eq(b.target.as_str(), target)
            && b.kind.same_as(kind) {
            assert(bridge_fits(bridges@[i as int]@, source@, target@, kind@));
            return Some(b);
        }
        i = i + 1;
    }
    None
}

pub fn has_bridge(bridges: &[BridgeDecl], source: &str, target: &str, kind: &BridgeKind) -> (r: bool)
    ensures
        r == exists|i: int| 0 <= i < bridges@.len() && bridge_fits(#[trigger] bridges@[i]@, source@, target@, kind@),
{
    find_bridge(bridges, source, target, kind).is_some()
}

pub fn profile_for_decl(bridge: &BridgeDecl) -> (r: BridgeProfile)
    ensures
        profile_matches(r, bridge@),
{
    BridgeProfile::from_decl(bridge)
}

} // verus!
