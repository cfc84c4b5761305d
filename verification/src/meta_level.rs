//! Explicit meta levels: M0 is the object level, M1 the first meta level, and so on.
//! Observing the syntax, provability or truth of level N requires a strict lift above N.

use vstd::prelude::*;
use vstd::string::*;

use crate::diagnostics::{error_with_help, Diagnostic, DiagnosticKind, DiagnosticV};
use crate::passport::record::{home_context, PassportV};
use crate::passport::type_kind::type_text;
use crate::passport::{
    Capability, CapabilitySet, ConstructionMode, CostClass, HistoryChain, LocationContext, Passport,
    Provenance, TheoryContext, TrustLevel, TypeKind, TypeKindV, ValidationState,
};
use crate::text::{dec_text, u8_text};

verus! {

/// A meta level.
#[derive(Debug, Clone, Copy, PartialEq, Eq, Structural, PartialOrd, Ord)]
pub struct MetaLevelIndex(pub u8);

/// Display text of a meta level: `M` followed by the level.
pub open spec fn level_text(l: MetaLevelIndex) -> Seq<char> {
    "M"@ + dec_text(l.0 as nat)
}

impl MetaLevelIndex {
    pub fn new(level: u8) -> (r: Self)
        ensures
            r.0 == level,
    {
        MetaLevelIndex(level)
    }

    pub fn object() -> (r: Self)
        ensures
            r.0 == 0,
    {
        MetaLevelIndex(0)
    }

    pub fn meta() -> (r: Self)
        ensures
            r.0 == 1,
    {
        MetaLevelIndex(1)
    }

    pub fn meta_meta() -> (r: Self)
        ensures
            r.0 == 2,
    {
        MetaLevelIndex(2)
    }

    pub fn level(self) -> (r: u8)
        ensures
            r == self.0,
    {
        self.0
    }

    /// The next level up, if there is one.
    pub fn next(self) -> (r: Option<Self>)
        ensures
            r == (if self.0 < 255 { Some(MetaLevelIndex((self.0 + 1) as u8)) } else { None::<MetaLevelIndex> }),
    {
        if self.0 < 255 {
            Some(MetaLevelIndex(self.0 + 1))
        } else {
            None
        }
    }

    pub fn stage(self) -> (r: MetaStage)
        ensures
            r == (if self.0 == 0 {
                MetaStage::Object
            } else if self.0 == 1 {
                MetaStage::Meta
            } else if self.0 == 2 {
                MetaStage::MetaMeta
            } else {
                MetaStage::Higher(self.0)
            }),
    {
        if self.0 == 0 {
            MetaStage::Object
        } else if self.0 == 1 {
            MetaStage::Meta
        } else if self.0 == 2 {
            MetaStage::MetaMeta
        } else {
            MetaStage::Higher(self.0)
        }
    }

    pub fn is_strictly_above(self, object_level: Self) -> (r: bool)
        ensures
            r == (self.0 > object_level.0),
    {
        self.0 > object_level.0
    }

    pub fn to_text(self) -> (r: String)
        ensures
            r@ == level_text(self),
    {
        let mut s = String::from_str("M");
        s.append(u8_text(self.0).as_str());
        s
    }
}

#[derive(Debug, Clone, Copy, PartialEq, Eq, Structural)]
pub enum MetaStage {
    Object,
    Meta,
    MetaMeta,
    Higher(u8),
}

impl MetaStage {
    pub open spec fn display_text(self) -> Seq<char> {
        match self {
            MetaStage::Object => "object"@,
            MetaStage::Meta => "meta"@,
            MetaStage::MetaMeta => "meta-meta"@,
            MetaStage::Higher(level) => "higher-meta<M"@ + dec_text(level as nat) + ">"@,
        }
    }

    pub fn to_text(self) -> (r: String)
        ensures
            r@ == self.display_text(),
    {
        match self {
            MetaStage::Object => String::from_str("object"),
            MetaStage::Meta => String::from_str("meta"),
            MetaStage::MetaMeta => String::from_str("meta-meta"),
            MetaStage::Higher(level) => {
                let mut s = String::from_str("higher-meta<M");
                s.append(u8_text(level).as_str());
                s.append(">");
                s
            },
        }
    }
}

/// What an observer wants to inspect about an object.
#[derive(Debug, Clone, Copy, PartialEq, Eq, Structural)]
pub enum MetaAccess {
    Syntax,
    Value,
    Provability,
    Truth,
    SelfReference,
}

impl MetaAccess {
    pub open spec fn display_text(self) -> Seq<char> {
        match self {
            MetaAccess::Syntax => "syntax"@,
            MetaAccess::Value => "value"@,
            MetaAccess::Provability => "provability"@,
            MetaAccess::Truth => "truth"@,
            MetaAccess::SelfReference => "self-reference"@,
        }
    }

    pub fn display_str(self) -> (r: &'static str)
        ensures
            r@ == self.display_text(),
    {
        match self {
            MetaAccess::Syntax => "syntax",
            MetaAccess::Value => "value",
            MetaAccess::Provability => "provability",
            MetaAccess::Truth => "truth",
            MetaAccess::SelfReference => "self-reference",
        }
    }
}

/// An object theory at one level observed from another.
#[derive(Debug, Clone)]
pub struct MetaLevelContext {
    pub object_theory: String,
    pub object_level: MetaLevelIndex,
    pub observer_level: MetaLevelIndex,
}

impl MetaLevelContext {
    pub fn new(object_theory: &str, object_level: MetaLevelIndex, observer_level: MetaLevelIndex) -> (r: Self)
        ensures
            r.object_theory@ == object_theory@,
            r.object_level == object_level,
            r.observer_level == observer_level,
    {
        MetaLevelContext { object_theory: String::from_str(object_theory), object_level, observer_level }
    }

    /// The object level observed from the first meta level.
    pub fn object_to_meta(object_theory: &str) -> (r: Self)
        ensures
            r.object_theory@ == object_theory@,
            r.object_level.0 == 0,
            r.observer_level.0 == 1,
    {
        Self::new(object_theory, MetaLevelIndex::object(), MetaLevelIndex::meta())
    }

    pub fn is_strict_lift(&self) -> (r: bool)
        ensures
            r == (self.observer_level.0 > self.object_level.0),
    {
        self.observer_level.is_strictly_above(self.object_level)
    }

    pub fn require_strict_lift(&self, access: MetaAccess, line: usize) -> (r: Result<(), Diagnostic>)
        ensures
            r is Ok <==> self.observer_level.0 > self.object_level.0,
            r matches Err(d) ==> d@ == lift_error(self.observer_level, self.object_level, access, line),
    {
        validate_meta_observer(self.observer_level, self.object_level, access, line)
    }
}

/// The lowest level that may observe `object_level`.
pub fn required_observer_level(object_level: MetaLevelIndex) -> (r: Option<MetaLevelIndex>)
    ensures
        r == (if object_level.0 < 255 { Some(MetaLevelIndex((object_level.0 + 1) as u8)) } else { None::<MetaLevelIndex> }),
{
    object_level.next()
}

/// The diagnostic for an observation without a strict lift.
pub open spec fn lift_error(observer_level: MetaLevelIndex, object_level: MetaLevelIndex, access: MetaAccess, line: usize) -> DiagnosticV {
    error_with_help(
        DiagnosticKind::MetaLevelError,
        line,
        access.display_text() + " access to "@ + level_text(object_level)
            + " requires a strict meta-level lift, but observer is "@ + level_text(observer_level),
        "move the operation to at least "@ + (if object_level.0 < 255 {
            level_text(MetaLevelIndex((object_level.0 + 1) as u8))
        } else {
            "a higher meta level"@
        }) + " before inspecting "@ + access.display_text()
            + "; object-level code cannot inspect its own syntax/provability/truth directly"@,
    )
}

pub fn validate_meta_observer(
    observer_level: MetaLevelIndex,
    object_level: MetaLevelIndex,
    access: MetaAccess,
    line: usize,
) -> (r: Result<(), Diagnostic>)
    ensures
        r is Ok <==> observer_level.0 > object_level.0,
        r matches Err(d) ==> d@ == lift_error(observer_level, object_level, access, line),
{
    if observer_level.is_strictly_above(object_level) {
        return Ok(());
    }
    let mut message = String::from_str(access.display_str());
    message.append(" access to ");
    message.append(object_level.to_text().as_str());
    message.append(" requires a strict meta-level lift, but observer is ");
    message.append(observer_level.to_text().as_str());
    let mut help = String::from_str("move the operation to at least ");
    match required_observer_level(object_level) {
        Some(level) => help.append(level.to_text().as_str()),
        None => help.append("a higher meta level"),
    }
    help.append(" before inspecting ");
    help.append(access.display_str());
    help.append("; object-level code cannot inspect its own syntax/provability/truth directly");
    Err(Diagnostic::error(DiagnosticKind::MetaLevelError, Some(line), message.as_str()).with_help(help.as_str()))
}

/// Model of `meta_level_passport`.
pub open spec fn meta_level_model(theory: Seq<char>, level: MetaLevelIndex) -> PassportV {
    PassportV {
        ty: TypeKindV::MetaLevel { level: level.0 },
        construction: ConstructionMode::Literal,
        capabilities: set![Capability::CanSymbolicPrint, Capability::CanMetaLevelReason, Capability::CanExtractDefinabilityMeta],
        cost: CostClass::Trivial,
        trust: TrustLevel::Builtin,
        provenance: Provenance::BuiltinKnown,
        validation: ValidationState::StaticChecked,
        theory: home_context(theory),
        history: seq!["meta_level:create:"@ + level_text(level)],
        location: LocationContext::Local,
    }
}

pub fn meta_level_passport(theory: &str, level: MetaLevelIndex) -> (r: Passport)
    ensures
        r@ == meta_level_model(theory@, level),
{
    let mut ev = String::from_str("meta_level:create:");
    ev.append(level.to_text().as_str());
    Passport {
        ty: TypeKind::MetaLevel { level: level.level() },
        construction: ConstructionMode::Literal,
        capabilities: CapabilitySet::empty().with(Capability::CanSymbolicPrint).with(Capability::CanMetaLevelReason).with(
            Capability::CanExtractDefinabilityMeta,
        ),
        cost: CostClass::Trivial,
        trust: TrustLevel::Builtin,
        provenance: Provenance::BuiltinKnown,
        validation: ValidationState::StaticChecked,
        theory: TheoryContext::new(theory),
        history: HistoryChain::from_event(ev.as_str()),
        location: LocationContext::local(),
    }
}

pub fn object_level_passport(theory: &str) -> (r: Passport)
    ensures
        r@ == meta_level_model(theory@, MetaLevelIndex(0)),
{
    meta_level_passport(theory, MetaLevelIndex::object())
}

/// `source` quoted as a syntax term observed from `observer_level`; the observer must
/// be strictly above the object level.
pub fn meta_quote_passport(source: &Passport, target_theory: &str, observer_level: MetaLevelIndex, line: usize) -> (r: Result<Passport, Diagnostic>)
    ensures
        r is Ok <==> observer_level.0 > 0,
        r matches Err(d) ==> d@ == lift_error(observer_level, MetaLevelIndex(0), MetaAccess::Syntax, line),
        r matches Ok(p) ==> p@ == (PassportV {
            ty: TypeKindV::Term { of_theory: source@.theory.home, of_type: type_text(source@.ty) },
            construction: source@.construction.higher(ConstructionMode::Definable),
            capabilities: set![
                Capability::CanSymbolicPrint,
                Capability::CanInspectAst,
                Capability::CanCompareSyntax,
                Capability::CanMetaLevelReason
            ],
            cost: source@.cost.higher(CostClass::SmallFinite),
            trust: source@.trust,
            provenance: source@.provenance.higher(Provenance::InternalDerived),
            validation: source@.validation,
            theory: home_context(target_theory@),
            history: source@.history.push("meta:quote:"@ + source@.theory.home + ":to:"@ + level_text(observer_level)),
            location: LocationContext::Local,
        }),
{
    match validate_meta_observer(observer_level, MetaLevelIndex::object(), MetaAccess::Syntax, line) {
        Ok(()) => {},
        Err(d) => return Err(d),
    }
    let mut ev = String::from_str("meta:quote:");
    ev.append(source.theory.home.as_str());
    ev.append(":to:");
    ev.append(observer_level.to_text().as_str());
    Ok(Passport {
        ty: TypeKind::Term { of_theory: source.theory.home.clone(), of_type: source.ty.to_text() },
        construction: source.construction.higher(ConstructionMode::Definable),
        capabilities: CapabilitySet::empty().with(Capability::CanSymbolicPrint).with(Capability::CanInspectAst).with(
            Capability::CanCompareSyntax,
        ).with(Capability::CanMetaLevelReason),
        cost: source.cost.higher(CostClass::SmallFinite),
        trust: source.trust,
        provenance: source.provenance.higher(Provenance::InternalDerived),
        validation: source.validation,
        theory: TheoryContext::new(target_theory),
        history: HistoryChain::from_source(&source.history, ev.as_str()),
        location: LocationContext::local(),
    })
}

} // verus!
