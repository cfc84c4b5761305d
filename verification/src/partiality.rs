//! Option and Result types and values, and reports on computations that are
//! not total, each carrying the taint of what they were built from.

use vstd::prelude::*;
use vstd::string::*;

use crate::diagnostics::{error_with_help, Diagnostic, DiagnosticKind, DiagnosticV};
use crate::fingerprint::{fingerprint_text, stable_fingerprint, strings_view};
use crate::logic::refs_view;
use crate::passport::record::{concat_histories, home_context, ref_histories};
use crate::passport::type_kind::type_text;
use crate::passport::{
    Capability, CapabilitySet, ConstructionMode, CostClass, HistoryChain, LocationContext, Passport, PassportV, Provenance,
    TheoryContext, TrustLevel, TypeKind, TypeKindV, ValidationState,
};
use crate::text::{all_ws, bool_str, bool_text, is_blank, str_eq};

verus! {

#[derive(Debug, Clone, Copy, PartialEq, Eq, Structural, PartialOrd, Ord)]
pub enum OptionValueKind {
    SomeValue,
    NoneValue,
}

impl OptionValueKind {
    pub open spec fn display_text(self) -> Seq<char> {
        match self {
            OptionValueKind::SomeValue => "some"@,
            OptionValueKind::NoneValue => "none"@,
        }
    }

    pub fn display_str(self) -> (r: &'static str)
        ensures
            r@ == self.display_text(),
    {
        match self {
            OptionValueKind::SomeValue => "some",
            OptionValueKind::NoneValue => "none",
        }
    }
}

#[derive(Debug, Clone, Copy, PartialEq, Eq, Structural, PartialOrd, Ord)]
pub enum ResultValueKind {
    OkValue,
    ErrValue,
}

impl ResultValueKind {
    pub open spec fn display_text(self) -> Seq<char> {
        match self {
            ResultValueKind::OkValue => "ok"@,
            ResultValueKind::ErrValue => "err"@,
        }
    }

    pub fn display_str(self) -> (r: &'static str)
        ensures
            r@ == self.display_text(),
    {
        match self {
            ResultValueKind::OkValue => "ok",
            ResultValueKind::ErrValue => "err",
        }
    }
}

#[derive(Debug, Clone, Copy, PartialEq, Eq, Structural, PartialOrd, Ord)]
pub enum PartialityStatus {
    Total,
    Optional,
    ErrorCarrying,
    Open,
    Rejected,
}

impl PartialityStatus {
    pub open spec fn display_text(self) -> Seq<char> {
        match self {
            PartialityStatus::Total => "total"@,
            PartialityStatus::Optional => "optional"@,
            PartialityStatus::ErrorCarrying => "error_carrying"@,
            PartialityStatus::Open => "open"@,
            PartialityStatus::Rejected => "rejected"@,
        }
    }

    pub fn display_str(self) -> (r: &'static str)
        ensures
            r@ == self.display_text(),
    {
        match self {
            PartialityStatus::Total => "total",
            PartialityStatus::Optional => "optional",
            PartialityStatus::ErrorCarrying => "error_carrying",
            PartialityStatus::Open => "open",
            PartialityStatus::Rejected => "rejected",
        }
    }
}

/// The joined trust and provenance of some sources, and their taint flags.
#[derive(Debug, Clone, Copy, PartialEq, Eq, Structural)]
pub struct Taint {
    pub trust: TrustLevel,
    pub provenance: Provenance,
    pub axiom_taint: bool,
    pub oracle: bool,
    pub unsafe_taint: bool,
}

/// An `Option` type over an item type.
#[derive(Debug)]
pub struct OptionTypeReport {
    pub item_type: String,
    pub max_trust: TrustLevel,
    pub max_provenance: Provenance,
    pub has_axiom_taint: bool,
    pub has_oracle_taint: bool,
    pub has_unsafe_taint: bool,
    pub fingerprint: String,
}

pub struct OptionTypeReportV {
    pub item_type: Seq<char>,
    pub taint: Taint,
    pub fingerprint: Seq<char>,
}

impl View for OptionTypeReport {
    type V = OptionTypeReportV;

    open spec fn view(&self) -> OptionTypeReportV {
        OptionTypeReportV {
            item_type: self.item_type@,
            taint: Taint {
                trust: self.max_trust,
                provenance: self.max_provenance,
                axiom_taint: self.has_axiom_taint,
                oracle: self.has_oracle_taint,
                unsafe_taint: self.has_unsafe_taint,
            },
            fingerprint: self.fingerprint@,
        }
    }
}

/// A `some` or `none` of an option type.
#[derive(Debug)]
pub struct OptionValueReport {
    pub kind: OptionValueKind,
    pub item_type: String,
    pub value: Option<String>,
    pub max_trust: TrustLevel,
    pub max_provenance: Provenance,
    pub has_axiom_taint: bool,
    pub has_oracle_taint: bool,
    pub has_unsafe_taint: bool,
    pub fingerprint: String,
}

pub struct OptionValueReportV {
    pub kind: OptionValueKind,
    pub item_type: Seq<char>,
    pub value: Option<Seq<char>>,
    pub taint: Taint,
    pub fingerprint: Seq<char>,
}

impl View for OptionValueReport {
    type V = OptionValueReportV;

    open spec fn view(&self) -> OptionValueReportV {
        OptionValueReportV {
            kind: self.kind,
            item_type: self.item_type@,
            value: match self.value {
                Some(v) => Some(v@),
                None => None,
            },
            taint: Taint {
                trust: self.max_trust,
                provenance: self.max_provenance,
                axiom_taint: self.has_axiom_taint,
                oracle: self.has_oracle_taint,
                unsafe_taint: self.has_unsafe_taint,
            },
            fingerprint: self.fingerprint@,
        }
    }
}

/// A `Result` type over an ok type and an err type.
#[derive(Debug)]
pub struct ResultTypeReport {
    pub ok_type: String,
    pub err_type: String,
    pub max_trust: TrustLevel,
    pub max_provenance: Provenance,
    pub has_axiom_taint: bool,
    pub has_oracle_taint: bool,
    pub has_unsafe_taint: bool,
    pub fingerprint: String,
}

pub struct ResultTypeReportV {
    pub ok_type: Seq<char>,
    pub err_type: Seq<char>,
    pub taint: Taint,
    pub fingerprint: Seq<char>,
}

impl View for ResultTypeReport {
    type V = ResultTypeReportV;

    open spec fn view(&self) -> ResultTypeReportV {
        ResultTypeReportV {
            ok_type: self.ok_type@,
            err_type: self.err_type@,
            taint: Taint {
                trust: self.max_trust,
                provenance: self.max_provenance,
                axiom_taint: self.has_axiom_taint,
                oracle: self.has_oracle_taint,
                unsafe_taint: self.has_unsafe_taint,
            },
            fingerprint: self.fingerprint@,
        }
    }
}

/// An `ok` or `err` value of a result type.
#[derive(Debug)]
pub struct ResultValueReport {
    pub kind: ResultValueKind,
    pub value_type: String,
    pub value: String,
    pub result_type: String,
    pub max_trust: TrustLevel,
    pub max_provenance: Provenance,
    pub has_axiom_taint: bool,
    pub has_oracle_taint: bool,
    pub has_unsafe_taint: bool,
    pub fingerprint: String,
}

pub struct ResultValueReportV {
    pub kind: ResultValueKind,
    pub value_type: Seq<char>,
    pub value: Seq<char>,
    pub result_type: Seq<char>,
    pub taint: Taint,
    pub fingerprint: Seq<char>,
}

impl View for ResultValueReport {
    type V = ResultValueReportV;

    open spec fn view(&self) -> ResultValueReportV {
        ResultValueReportV {
            kind: self.kind,
            value_type: self.value_type@,
            value: self.value@,
            result_type: self.result_type@,
            taint: Taint {
                trust: self.max_trust,
                provenance: self.max_provenance,
                axiom_taint: self.has_axiom_taint,
                oracle: self.has_oracle_taint,
                unsafe_taint: self.has_unsafe_taint,
            },
            fingerprint: self.fingerprint@,
        }
    }
}

/// Why a computation is optional, error-carrying, open or rejected.
#[derive(Debug)]
pub struct PartialityReport {
    pub subject: String,
    pub status: PartialityStatus,
    pub explanation: String,
    pub max_trust: TrustLevel,
    pub max_provenance: Provenance,
    pub has_axiom_taint: bool,
    pub has_oracle_taint: bool,
    pub has_unsafe_taint: bool,
    pub fingerprint: String,
}

pub struct PartialityReportV {
    pub subject: Seq<char>,
    pub status: PartialityStatus,
    pub explanation: Seq<char>,
    pub taint: Taint,
    pub fingerprint: Seq<char>,
}

impl View for PartialityReport {
    type V = PartialityReportV;

    open spec fn view(&self) -> PartialityReportV {
        PartialityReportV {
            subject: self.subject@,
            status: self.status,
            explanation: self.explanation@,
            taint: Taint {
                trust: self.max_trust,
                provenance: self.max_provenance,
                axiom_taint: self.has_axiom_taint,
                oracle: self.has_oracle_taint,
                unsafe_taint: self.has_unsafe_taint,
            },
            fingerprint: self.fingerprint@,
        }
    }
}

/// The prefix of every fingerprint this module makes.
pub open spec fn partiality_prefix() -> Seq<char> {
    "partiality-"@
}

/// An error of the partiality layer.
pub open spec fn partiality_error_model(line: usize, message: Seq<char>, help: Seq<char>) -> DiagnosticV {
    error_with_help(DiagnosticKind::PartialityTypeError, line, message, help)
}

fn partiality_error(line: usize, message: &str, help: &str) -> (r: Diagnostic)
    ensures
        r@ == partiality_error_model(line, message@, help@),
{
    Diagnostic::error(DiagnosticKind::PartialityTypeError, Some(line), message).with_help(help)
}

/// The taint of the sources: joined trust (from `Checked`) and provenance
/// (from `InternalDerived`), and whether any reaches axiom_taint, oracle or unsafe.
pub open spec fn taint_of_sources(s: Seq<PassportV>) -> Taint
    decreases s.len(),
{
    if s.len() == 0 {
        Taint {
            trust: TrustLevel::Checked,
            provenance: Provenance::InternalDerived,
            axiom_taint: false,
            oracle: false,
            unsafe_taint: false,
        }
    } else {
        let t = taint_of_sources(s.drop_last());
        let x = s.last();
        Taint {
            trust: t.trust.higher(x.trust),
            provenance: t.provenance.higher(x.provenance),
            axiom_taint: t.axiom_taint || x.trust.rank() >= TrustLevel::Axiom.rank(),
            oracle: t.oracle || x.trust.rank() >= TrustLevel::Oracle.rank() || x.provenance == Provenance::OracleInput,
            unsafe_taint: t.unsafe_taint || x.trust.rank() >= TrustLevel::Unsafe.rank() || x.provenance == Provenance::UnsafeExternal,
        }
    }
}

/// The taint of a report joined with that of more sources.
pub open spec fn join_taint(a: Taint, b: Taint) -> Taint {
    Taint {
        trust: a.trust.higher(b.trust),
        provenance: a.provenance.higher(b.provenance),
        axiom_taint: a.axiom_taint || b.axiom_taint,
        oracle: a.oracle || b.oracle,
        unsafe_taint: a.unsafe_taint || b.unsafe_taint,
    }
}

fn taint_summary(sources: &[&Passport]) -> (r: Taint)
    ensures
        r == taint_of_sources(refs_view(sources@)),
{
    let ghost sv = refs_view(sources@);
    let mut t = Taint {
        trust: TrustLevel::Checked,
        provenance: Provenance::InternalDerived,
        axiom_taint: false,
        oracle: false,
        unsafe_taint: false,
    };
    let mut i: usize = 0;
    assert(sv.take(0) =~= Seq::<PassportV>::empty());
    while i < sources.len()
        invariant
            sv == refs_view(sources@),
            i <= sources.len(),
            t == taint_of_sources(sv.take(i as int)),
        decreases sources.len() - i,
    {
        assert(sv.take(i + 1).drop_last() =~= sv.take(i as int));
        assert(sv[i as int] == sources@[i as int]@);
        let x = sources[i];
        t = Taint {
            trust: t.trust.higher(x.trust),
            provenance: t.provenance.higher(x.provenance),
            axiom_taint: t.axiom_taint || x.trust.rank() >= TrustLevel::Axiom.rank(),
            oracle: t.oracle || x.trust.rank() >= TrustLevel::Oracle.rank() || x.provenance == Provenance::OracleInput,
            unsafe_taint: t.unsafe_taint || x.trust.rank() >= TrustLevel::Unsafe.rank() || x.provenance == Provenance::UnsafeExternal,
        };
        i = i + 1;
    }
    assert(sv.take(i as int) =~= sv);
    t
}

/// The error for a blank type descriptor, if it is blank.
pub open spec fn type_text_error(value: Seq<char>, what: Seq<char>, line: usize) -> Option<DiagnosticV> {
    if all_ws(value) {
        Some(partiality_error_model(
            line,
            what + " cannot be empty"@,
            "Option/Result type descriptors must be explicit; no implicit Any/Unknown partiality type is inserted"@,
        ))
    } else {
        None
    }
}

fn validate_type_text(value: &str, what: &str, line: usize) -> (r: Result<(), Diagnostic>)
    ensures
        type_text_error(value@, what@, line) == (match r {
            Ok(()) => None::<DiagnosticV>,
            Err(d) => Some(d@),
        }),
{
    if is_blank(value) {
        let mut msg = String::from_str(what);
        msg.append(" cannot be empty");
        Err(partiality_error(
            line,
            msg.as_str(),
            "Option/Result type descriptors must be explicit; no implicit Any/Unknown partiality type is inserted",
        ))
    } else {
        Ok(())
    }
}

/// Whether a type is proof-, truth- or runtime-like evidence.
pub open spec fn is_proof_like(t: TypeKindV) -> bool {
    match t {
        TypeKindV::Theorem { .. }
        | TypeKindV::StaticProof(_)
        | TypeKindV::ProofTerm { .. }
        | TypeKindV::RuntimeWitness(_)
        | TypeKindV::Provable { .. }
        | TypeKindV::TruthClaim { .. }
        | TypeKindV::ReflectionClaim { .. }
        | TypeKindV::SelfReferenceClaim { .. }
        | TypeKindV::ConsistencyClaim { .. }
        | TypeKindV::EqProof { .. }
        | TypeKindV::RewriteRule { .. }
        | TypeKindV::RewriteCertificate { .. } => true,
        _ => false,
    }
}

/// Whether a type is accepted as an ordinary Option/Result value.
pub open spec fn is_ordinary_value(t: TypeKindV) -> bool {
    match t {
        TypeKindV::Nat
        | TypeKindV::Bool
        | TypeKindV::Bytes
        | TypeKindV::Text
        | TypeKindV::Infinity { .. }
        | TypeKindV::Universe { .. }
        | TypeKindV::SetType { .. }
        | TypeKindV::Class { .. }
        | TypeKindV::Language { .. }
        | TypeKindV::Encoding { .. }
        | TypeKindV::MetaLevel { .. }
        | TypeKindV::BigNat { .. }
        | TypeKindV::FunctionType { .. }
        | TypeKindV::LambdaTerm { .. }
        | TypeKindV::ApplicationTerm { .. }
        | TypeKindV::ProductTerm { .. }
        | TypeKindV::SumInjection { .. }
        | TypeKindV::RecordTerm { .. }
        | TypeKindV::RecordProjection { .. }
        | TypeKindV::ProductElimination { .. }
        | TypeKindV::SumElimination { .. }
        | TypeKindV::RecordPattern { .. }
        | TypeKindV::OptionValue { .. }
        | TypeKindV::ResultValue { .. } => true,
        _ => false,
    }
}

/// The value type of an ordinary Option/Result value, or the error.
pub open spec fn value_type_spec(p: PassportV, line: usize) -> Result<Seq<char>, DiagnosticV> {
    if is_ordinary_value(p.ty) {
        Ok(type_text(p.ty))
    } else if is_proof_like(p.ty) {
        Err(partiality_error_model(
            line,
            type_text(p.ty) + " is not an ordinary Option/Result value"@,
            "partiality values must not silently consume proof, theorem, truth, runtime witness, equality proof or certificate objects"@,
        ))
    } else {
        Err(partiality_error_model(
            line,
            type_text(p.ty) + " is not accepted as an ordinary Option/Result value in this MVP"@,
            "extend the partiality whitelist explicitly when a new value class becomes safe for Option/Result"@,
        ))
    }
}

fn ordinary_partiality_value_type(passport: &Passport, line: usize) -> (r: Result<String, Diagnostic>)
    ensures
        value_type_spec(passport@, line) == (match r {
            Ok(s) => Ok::<Seq<char>, DiagnosticV>(s@),
            Err(d) => Err::<Seq<char>, DiagnosticV>(d@),
        }),
{
    let ordinary = match &passport.ty {
        TypeKind::Nat
        | TypeKind::Bool
        | TypeKind::Bytes
        | TypeKind::Text
        | TypeKind::Infinity { .. }
        | TypeKind::Universe { .. }
        | TypeKind::SetType { .. }
        | TypeKind::Class { .. }
        | TypeKind::Language { .. }
        | TypeKind::Encoding { .. }
        | TypeKind::MetaLevel { .. }
        | TypeKind::BigNat { .. }
        | TypeKind::FunctionType { .. }
        | TypeKind::LambdaTerm { .. }
        | TypeKind::ApplicationTerm { .. }
        | TypeKind::ProductTerm { .. }
        | TypeKind::SumInjection { .. }
        | TypeKind::RecordTerm { .. }
        | TypeKind::RecordProjection { .. }
        | TypeKind::ProductElimination { .. }
        | TypeKind::SumElimination { .. }
        | TypeKind::RecordPattern { .. }
        | TypeKind::OptionValue { .. }
        | TypeKind::ResultValue { .. } => true,
        _ => false,
    };
    if ordinary {
        return Ok(passport.ty.to_text());
    }
    let mut msg = passport.ty.to_text();
    if proof_like(&passport.ty) {
        msg.append(" is not an ordinary Option/Result value");
        Err(partiality_error(
            line,
            msg.as_str(),
            "partiality values must not silently consume proof, theorem, truth, runtime witness, equality proof or certificate objects",
        ))
    } else {
        msg.append(" is not accepted as an ordinary Option/Result value in this MVP");
        Err(partiality_error(
            line,
            msg.as_str(),
            "extend the partiality whitelist explicitly when a new value class becomes safe for Option/Result",
        ))
    }
}

fn proof_like(t: &TypeKind) -> (r: bool)
    ensures
        r == is_proof_like(t@),
{
    match t {
        TypeKind::Theorem { .. }
        | TypeKind::StaticProof(_)
        | TypeKind::ProofTerm { .. }
        | TypeKind::RuntimeWitness(_)
        | TypeKind::Provable { .. }
        | TypeKind::TruthClaim { .. }
        | TypeKind::ReflectionClaim { .. }
        | TypeKind::SelfReferenceClaim { .. }
        | TypeKind::ConsistencyClaim { .. }
        | TypeKind::EqProof { .. }
        | TypeKind::RewriteRule { .. }
        | TypeKind::RewriteCertificate { .. } => true,
        _ => false,
    }
}

fn taint_of_one(p: &Passport) -> (r: Taint)
    ensures
        r == taint_of_sources(seq![p@]),
{
    assert(seq![p@].drop_last() =~= Seq::<PassportV>::empty());
    assert(seq![p@].last() == p@);
    assert(taint_of_sources(Seq::<PassportV>::empty()) == Taint {
        trust: TrustLevel::Checked,
        provenance: Provenance::InternalDerived,
        axiom_taint: false,
        oracle: false,
        unsafe_taint: false,
    });
    Taint {
        trust: TrustLevel::Checked.higher(p.trust),
        provenance: Provenance::InternalDerived.higher(p.provenance),
        axiom_taint: p.trust.rank() >= TrustLevel::Axiom.rank(),
        oracle: p.trust.rank() >= TrustLevel::Oracle.rank() || p.provenance == Provenance::OracleInput,
        unsafe_taint: p.trust.rank() >= TrustLevel::Unsafe.rank() || p.provenance == Provenance::UnsafeExternal,
    }
}

fn join(a: Taint, b: Taint) -> (r: Taint)
    ensures
        r == join_taint(a, b),
{
    Taint {
        trust: a.trust.higher(b.trust),
        provenance: a.provenance.higher(b.provenance),
        axiom_taint: a.axiom_taint || b.axiom_taint,
        oracle: a.oracle || b.oracle,
        unsafe_taint: a.unsafe_taint || b.unsafe_taint,
    }
}

fn trust_part(t: TrustLevel) -> (r: String)
    ensures
        r@ == "trust="@ + t.debug_text(),
{
    let mut s = String::from_str("trust=");
    s.append(t.debug_str());
    s
}

/// What `option_type` gives.
pub open spec fn option_type_spec(item: Seq<char>, sources: Seq<PassportV>, line: usize) -> Result<OptionTypeReportV, DiagnosticV> {
    match type_text_error(item, "option item type"@, line) {
        Some(d) => Err(d),
        None => {
            let t = taint_of_sources(sources);
            Ok(OptionTypeReportV {
                item_type: item,
                taint: t,
                fingerprint: fingerprint_text(partiality_prefix(), seq!["option-type-v1"@, item, "trust="@ + t.trust.debug_text()]),
            })
        },
    }
}

pub fn option_type(item_type: &str, sources: &[&Passport], line: usize) -> (r: Result<OptionTypeReport, Diagnostic>)
    ensures
        option_type_spec(item_type@, refs_view(sources@), line) == (match r {
            Ok(o) => Ok::<OptionTypeReportV, DiagnosticV>(o@),
            Err(d) => Err::<OptionTypeReportV, DiagnosticV>(d@),
        }),
{
    match validate_type_text(item_type, "option item type", line) {
        Err(d) => return Err(d),
        Ok(()) => {},
    }
    let t = taint_summary(sources);
    let mut parts: Vec<String> = Vec::new();
    parts.push(String::from_str("option-type-v1"));
    parts.push(String::from_str(item_type));
    parts.push(trust_part(t.trust));
    assert(strings_view(parts@) =~= seq!["option-type-v1"@, item_type@, "trust="@ + t.trust.debug_text()]);
    let fingerprint = stable_fingerprint("partiality-", &parts);
    Ok(OptionTypeReport {
        item_type: String::from_str(item_type),
        max_trust: t.trust,
        max_provenance: t.provenance,
        has_axiom_taint: t.axiom_taint,
        has_oracle_taint: t.oracle,
        has_unsafe_taint: t.unsafe_taint,
        fingerprint,
    })
}

/// What `option_some` gives: the value must be ordinary and of the item type.
pub open spec fn option_some_spec(o: OptionTypeReportV, value: PassportV, line: usize) -> Result<OptionValueReportV, DiagnosticV> {
    match value_type_spec(value, line) {
        Err(d) => Err(d),
        Ok(vt) => if vt != o.item_type {
            Err(partiality_error_model(
                line,
                "Option::some type mismatch: expected `"@ + o.item_type + "`, got `"@ + vt + "`"@,
                "some(value) must carry a value of exactly the declared option item type"@,
            ))
        } else {
            let t = join_taint(o.taint, taint_of_sources(seq![value]));
            Ok(OptionValueReportV {
                kind: OptionValueKind::SomeValue,
                item_type: o.item_type,
                value: Some(type_text(value.ty)),
                taint: t,
                fingerprint: fingerprint_text(
                    partiality_prefix(),
                    seq!["option-some-v1"@, o.item_type, type_text(value.ty), "trust="@ + t.trust.debug_text()],
                ),
            })
        },
    }
}

pub fn option_some(option: &OptionTypeReport, value: &Passport, line: usize) -> (r: Result<OptionValueReport, Diagnostic>)
    ensures
        option_some_spec(option@, value@, line) == (match r {
            Ok(v) => Ok::<OptionValueReportV, DiagnosticV>(v@),
            Err(d) => Err::<OptionValueReportV, DiagnosticV>(d@),
        }),
{
    let value_type = match ordinary_partiality_value_type(value, line) {
        Ok(v) => v,
        Err(d) => return Err(d),
    };
    if !str_eq(value_type.as_str(), option.item_type.as_str()) {
        let mut msg = String::from_str("Option::some type mismatch: expected `");
        msg.append(option.item_type.as_str());
        msg.append("`, got `");
        msg.append(value_type.as_str());
        msg.append("`");
        return Err(partiality_error(line, msg.as_str(), "some(value) must carry a value of exactly the declared option item type"));
    }
    let own = Taint {
        trust: option.max_trust,
        provenance: option.max_provenance,
        axiom_taint: option.has_axiom_taint,
        oracle: option.has_oracle_taint,
        unsafe_taint: option.has_unsafe_taint,
    };
    let t = join(own, taint_of_one(value));
    let mut parts: Vec<String> = Vec::new();
    parts.push(String::from_str("option-some-v1"));
    parts.push(option.item_type.clone());
    parts.push(value.ty.to_text());
    parts.push(trust_part(t.trust));
    assert(strings_view(parts@) =~= seq!["option-some-v1"@, option@.item_type, type_text(value@.ty), "trust="@ + t.trust.debug_text()]);
    let fingerprint = stable_fingerprint("partiality-", &parts);
    Ok(OptionValueReport {
        kind: OptionValueKind::SomeValue,
        item_type: option.item_type.clone(),
        value: Some(value.ty.to_text()),
        max_trust: t.trust,
        max_provenance: t.provenance,
        has_axiom_taint: t.axiom_taint,
        has_oracle_taint: t.oracle,
        has_unsafe_taint: t.unsafe_taint,
        fingerprint,
    })
}

/// What `option_none` gives.
pub open spec fn option_none_spec(o: OptionTypeReportV, line: usize) -> Result<OptionValueReportV, DiagnosticV> {
    match type_text_error(o.item_type, "option none item type"@, line) {
        Some(d) => Err(d),
        None => Ok(OptionValueReportV {
            kind: OptionValueKind::NoneValue,
            item_type: o.item_type,
            value: None,
            taint: o.taint,
            fingerprint: fingerprint_text(
                partiality_prefix(),
                seq!["option-none-v1"@, o.item_type, "trust="@ + o.taint.trust.debug_text()],
            ),
        }),
    }
}

pub fn option_none(option: &OptionTypeReport, line: usize) -> (r: Result<OptionValueReport, Diagnostic>)
    ensures
        option_none_spec(option@, line) == (match r {
            Ok(v) => Ok::<OptionValueReportV, DiagnosticV>(v@),
            Err(d) => Err::<OptionValueReportV, DiagnosticV>(d@),
        }),
{
    match validate_type_text(option.item_type.as_str(), "option none item type", line) {
        Err(d) => return Err(d),
        Ok(()) => {},
    }
    let mut parts: Vec<String> = Vec::new();
    parts.push(String::from_str("option-none-v1"));
    parts.push(option.item_type.clone());
    parts.push(trust_part(option.max_trust));
    assert(strings_view(parts@) =~= seq!["option-none-v1"@, option@.item_type, "trust="@ + option.max_trust.debug_text()]);
    let fingerprint = stable_fingerprint("partiality-", &parts);
    Ok(OptionValueReport {
        kind: OptionValueKind::NoneValue,
        item_type: option.item_type.clone(),
        value: None,
        max_trust: option.max_trust,
        max_provenance: option.max_provenance,
        has_axiom_taint: option.has_axiom_taint,
        has_oracle_taint: option.has_oracle_taint,
        has_unsafe_taint: option.has_unsafe_taint,
        fingerprint,
    })
}

/// What `result_type` gives.
pub open spec fn result_type_spec(ok: Seq<char>, err: Seq<char>, sources: Seq<PassportV>, line: usize) -> Result<ResultTypeReportV, DiagnosticV> {
    if type_text_error(ok, "result ok type"@, line) is Some {
        Err(type_text_error(ok, "result ok type"@, line)->0)
    } else if type_text_error(err, "result err type"@, line) is Some {
        Err(type_text_error(err, "result err type"@, line)->0)
    } else {
        let t = taint_of_sources(sources);
        Ok(ResultTypeReportV {
            ok_type: ok,
            err_type: err,
            taint: t,
            fingerprint: fingerprint_text(partiality_prefix(), seq!["result-type-v1"@, ok, err, "trust="@ + t.trust.debug_text()]),
        })
    }
}

pub fn result_type(ok_type: &str, err_type: &str, sources: &[&Passport], line: usize) -> (r: Result<ResultTypeReport, Diagnostic>)
    ensures
        result_type_spec(ok_type@, err_type@, refs_view(sources@), line) == (match r {
            Ok(t) => Ok::<ResultTypeReportV, DiagnosticV>(t@),
            Err(d) => Err::<ResultTypeReportV, DiagnosticV>(d@),
        }),
{
    match validate_type_text(ok_type, "result ok type", line) {
        Err(d) => return Err(d),
        Ok(()) => {},
    }
    match validate_type_text(err_type, "result err type", line) {
        Err(d) => return Err(d),
        Ok(()) => {},
    }
    let t = taint_summary(sources);
    let mut parts: Vec<String> = Vec::new();
    parts.push(String::from_str("result-type-v1"));
    parts.push(String::from_str(ok_type));
    parts.push(String::from_str(err_type));
    parts.push(trust_part(t.trust));
    assert(strings_view(parts@) =~= seq!["result-type-v1"@, ok_type@, err_type@, "trust="@ + t.trust.debug_text()]);
    let fingerprint = stable_fingerprint("partiality-", &parts);
    Ok(ResultTypeReport {
        ok_type: String::from_str(ok_type),
        err_type: String::from_str(err_type),
        max_trust: t.trust,
        max_provenance: t.provenance,
        has_axiom_taint: t.axiom_taint,
        has_oracle_taint: t.oracle,
        has_unsafe_taint: t.unsafe_taint,
        fingerprint,
    })
}

/// What `result_ok` (`kind` ok) and `result_err` (`kind` err) give: the value
/// must be ordinary and of that branch's type.
pub open spec fn result_value_spec(r: ResultTypeReportV, kind: ResultValueKind, value: PassportV, line: usize) -> Result<ResultValueReportV, DiagnosticV> {
    match value_type_spec(value, line) {
        Err(d) => Err(d),
        Ok(vt) => {
            let expected = match kind {
                ResultValueKind::OkValue => r.ok_type,
                ResultValueKind::ErrValue => r.err_type,
            };
            if vt != expected {
                Err(partiality_error_model(
                    line,
                    "Result::"@ + kind.display_text() + " type mismatch: expected `"@ + expected + "`, got `"@ + vt + "`"@,
                    "result branch values must match exactly the declared ok/err type"@,
                ))
            } else {
                let t = join_taint(r.taint, taint_of_sources(seq![value]));
                let rt = r.ok_type + ","@ + r.err_type;
                Ok(ResultValueReportV {
                    kind,
                    value_type: vt,
                    value: type_text(value.ty),
                    result_type: rt,
                    taint: t,
                    fingerprint: fingerprint_text(
                        partiality_prefix(),
                        seq!["result-value-v1"@, kind.display_text(), vt, type_text(value.ty), rt, "trust="@ + t.trust.debug_text()],
                    ),
                })
            }
        },
    }
}

fn result_value(result: &ResultTypeReport, kind: ResultValueKind, value: &Passport, line: usize) -> (r: Result<ResultValueReport, Diagnostic>)
    ensures
        result_value_spec(result@, kind, value@, line) == (match r {
            Ok(v) => Ok::<ResultValueReportV, DiagnosticV>(v@),
            Err(d) => Err::<ResultValueReportV, DiagnosticV>(d@),
        }),
{
    let value_type = match ordinary_partiality_value_type(value, line) {
        Ok(v) => v,
        Err(d) => return Err(d),
    };
    let expected = match kind {
        ResultValueKind::OkValue => &result.ok_type,
        ResultValueKind::ErrValue => &result.err_type,
    };
    if !str_eq(value_type.as_str(), expected.as_str()) {
        let mut msg = String::from_str("Result::");
        msg.append(kind.display_str());
        msg.append(" type mismatch: expected `");
        msg.append(expected.as_str());
        msg.append("`, got `");
        msg.append(value_type.as_str());
        msg.append("`");
        return Err(partiality_error(line, msg.as_str(), "result branch values must match exactly the declared ok/err type"));
    }
    let own = Taint {
        trust: result.max_trust,
        provenance: result.max_provenance,
        axiom_taint: result.has_axiom_taint,
        oracle: result.has_oracle_taint,
        unsafe_taint: result.has_unsafe_taint,
    };
    let t = join(own, taint_of_one(value));
    let mut rt = result.ok_type.clone();
    rt.append(",");
    rt.append(result.err_type.as_str());
    let mut parts: Vec<String> = Vec::new();
    parts.push(String::from_str("result-value-v1"));
    parts.push(String::from_str(kind.display_str()));
    parts.push(value_type.clone());
    parts.push(value.ty.to_text());
    parts.push(rt.clone());
    parts.push(trust_part(t.trust));
    assert(strings_view(parts@) =~= seq![
        "result-value-v1"@,
        kind.display_text(),
        value_type@,
        type_text(value@.ty),
        rt@,
        "trust="@ + t.trust.debug_text(),
    ]);
    let fingerprint = stable_fingerprint("partiality-", &parts);
    Ok(ResultValueReport {
        kind,
        value_type,
        value: value.ty.to_text(),
        result_type: rt,
        max_trust: t.trust,
        max_provenance: t.provenance,
        has_axiom_taint: t.axiom_taint,
        has_oracle_taint: t.oracle,
        has_unsafe_taint: t.unsafe_taint,
        fingerprint,
    })
}

pub fn result_ok(result: &ResultTypeReport, value: &Passport, line: usize) -> (r: Result<ResultValueReport, Diagnostic>)
    ensures
        result_value_spec(result@, ResultValueKind::OkValue, value@, line) == (match r {
            Ok(v) => Ok::<ResultValueReportV, DiagnosticV>(v@),
            Err(d) => Err::<ResultValueReportV, DiagnosticV>(d@),
        }),
{
    result_value(result, ResultValueKind::OkValue, value, line)
}

pub fn result_err(result: &ResultTypeReport, value: &Passport, line: usize) -> (r: Result<ResultValueReport, Diagnostic>)
    ensures
        result_value_spec(result@, ResultValueKind::ErrValue, value@, line) == (match r {
            Ok(v) => Ok::<ResultValueReportV, DiagnosticV>(v@),
            Err(d) => Err::<ResultValueReportV, DiagnosticV>(d@),
        }),
{
    result_value(result, ResultValueKind::ErrValue, value, line)
}

/// What `partiality_report` gives: an explanation is required and the subject
/// must not be proof-like evidence.
pub open spec fn partiality_report_spec(
    subject: PassportV,
    status: PartialityStatus,
    explanation: Seq<char>,
    sources: Seq<PassportV>,
    line: usize,
) -> Result<PartialityReportV, DiagnosticV> {
    if all_ws(explanation) {
        Err(partiality_error_model(
            line,
            "partiality report requires an explanation"@,
            "partial/open/error-carrying computation must explain why it is not represented as a total value"@,
        ))
    } else if is_proof_like(subject.ty) {
        Err(partiality_error_model(
            line,
            "partiality subject `"@ + type_text(subject.ty) + "` is proof/truth/runtime-like and cannot be reported as ordinary partial value"@,
            "partiality reports classify ordinary computation boundaries, not proof/truth evidence"@,
        ))
    } else {
        let t = taint_of_sources(seq![subject] + sources);
        Ok(PartialityReportV {
            subject: type_text(subject.ty),
            status,
            explanation,
            taint: t,
            fingerprint: fingerprint_text(
                partiality_prefix(),
                seq!["partiality-report-v1"@, type_text(subject.ty), status.display_text(), explanation, "trust="@ + t.trust.debug_text()],
            ),
        })
    }
}

fn taint_with_subject(subject: &Passport, sources: &[&Passport]) -> (r: Taint)
    ensures
        r == taint_of_sources(seq![subject@] + refs_view(sources@)),
{
    let ghost all = seq![subject@] + refs_view(sources@);
    let mut t = taint_of_one(subject);
    assert(all.take(1) =~= seq![subject@]);
    let mut i: usize = 0;
    while i < sources.len()
        invariant
            all == seq![subject@] + refs_view(sources@),
            all.len() == sources.len() + 1,
            i <= sources.len(),
            t == taint_of_sources(all.take(i + 1)),
        decreases sources.len() - i,
    {
        assert(all.take(i + 2).drop_last() =~= all.take(i + 1));
        assert(all.take(i + 2).last() == sources@[i as int]@);
        let x = sources[i];
        t = Taint {
            trust: t.trust.higher(x.trust),
            provenance: t.provenance.higher(x.provenance),
            axiom_taint: t.axiom_taint || x.trust.rank() >= TrustLevel::Axiom.rank(),
            oracle: t.oracle || x.trust.rank() >= TrustLevel::Oracle.rank() || x.provenance == Provenance::OracleInput,
            unsafe_taint: t.unsafe_taint || x.trust.rank() >= TrustLevel::Unsafe.rank() || x.provenance == Provenance::UnsafeExternal,
        };
        i = i + 1;
    }
    assert(all.take(i + 1) =~= all);
    t
}

pub fn partiality_report(
    subject: &Passport,
    status: PartialityStatus,
    explanation: &str,
    sources: &[&Passport],
    line: usize,
) -> (r: Result<PartialityReport, Diagnostic>)
    ensures
        partiality_report_spec(subject@, status, explanation@, refs_view(sources@), line) == (match r {
            Ok(p) => Ok::<PartialityReportV, DiagnosticV>(p@),
            Err(d) => Err::<PartialityReportV, DiagnosticV>(d@),
        }),
{
    if is_blank(explanation) {
        return Err(partiality_error(
            line,
            "partiality report requires an explanation",
            "partial/open/error-carrying computation must explain why it is not represented as a total value",
        ));
    }
    if proof_like(&subject.ty) {
        let mut msg = String::from_str("partiality subject `");
        msg.append(subject.ty.to_text().as_str());
        msg.append("` is proof/truth/runtime-like and cannot be reported as ordinary partial value");
        return Err(partiality_error(
            line,
            msg.as_str(),
            "partiality reports classify ordinary computation boundaries, not proof/truth evidence",
        ));
    }
    let t = taint_with_subject(subject, sources);
    let mut parts: Vec<String> = Vec::new();
    parts.push(String::from_str("partiality-report-v1"));
    parts.push(subject.ty.to_text());
    parts.push(String::from_str(status.display_str()));
    parts.push(String::from_str(explanation));
    parts.push(trust_part(t.trust));
    assert(strings_view(parts@) =~= seq![
        "partiality-report-v1"@,
        type_text(subject@.ty),
        status.display_text(),
        explanation@,
        "trust="@ + t.trust.debug_text(),
    ]);
    let fingerprint = stable_fingerprint("partiality-", &parts);
    Ok(PartialityReport {
        subject: subject.ty.to_text(),
        status,
        explanation: String::from_str(explanation),
        max_trust: t.trust,
        max_provenance: t.provenance,
        has_axiom_taint: t.axiom_taint,
        has_oracle_taint: t.oracle,
        has_unsafe_taint: t.unsafe_taint,
        fingerprint,
    })
}

/// The capabilities of partiality objects.
pub open spec fn partiality_caps() -> Set<Capability> {
    set![Capability::CanSymbolicPrint, Capability::CanSerializeForMigration, Capability::CanCompilePortableCode]
}

/// A partiality passport: definable, small, statically checked, with the
/// sources' histories followed by `event`.
pub open spec fn partiality_passport_model(theory: Seq<char>, ty: TypeKindV, t: Taint, sources: Seq<&Passport>, event: Seq<char>) -> PassportV {
    PassportV {
        ty,
        construction: ConstructionMode::Definable,
        capabilities: partiality_caps(),
        cost: CostClass::SmallFinite,
        trust: t.trust,
        provenance: t.provenance,
        validation: ValidationState::StaticChecked,
        theory: home_context(theory),
        history: concat_histories(ref_histories(sources)).push(event),
        location: LocationContext::Local,
    }
}

fn partiality_passport(theory: &str, ty: TypeKind, t: Taint, sources: &[&Passport], event: &str) -> (r: Passport)
    ensures
        r@ == partiality_passport_model(theory@, ty@, t, sources@, event@),
{
    Passport {
        ty,
        construction: ConstructionMode::Definable,
        capabilities: CapabilitySet::empty().with(Capability::CanSymbolicPrint).with(Capability::CanSerializeForMigration).with(
            Capability::CanCompilePortableCode,
        ),
        cost: CostClass::SmallFinite,
        trust: t.trust,
        provenance: t.provenance,
        validation: ValidationState::StaticChecked,
        theory: TheoryContext::new(theory),
        history: HistoryChain::merge_refs(sources, event),
        location: LocationContext::local(),
    }
}

pub fn option_type_passport(theory: &str, report: &OptionTypeReport, sources: &[&Passport]) -> (r: Passport)
    ensures
        r@ == partiality_passport_model(
            theory@,
            TypeKindV::OptionType { item: report@.item_type },
            report@.taint,
            sources@,
            "partiality:option_type"@,
        ),
{
    let t = Taint {
        trust: report.max_trust,
        provenance: report.max_provenance,
        axiom_taint: report.has_axiom_taint,
        oracle: report.has_oracle_taint,
        unsafe_taint: report.has_unsafe_taint,
    };
    partiality_passport(theory, TypeKind::OptionType { item: report.item_type.clone() }, t, sources, "partiality:option_type")
}

pub fn option_value_passport(theory: &str, report: &OptionValueReport, sources: &[&Passport]) -> (r: Passport)
    ensures
        r@ == partiality_passport_model(
            theory@,
            TypeKindV::OptionValue { kind: report@.kind.display_text(), item: report@.item_type },
            report@.taint,
            sources@,
            "partiality:option_value"@,
        ),
{
    let t = Taint {
        trust: report.max_trust,
        provenance: report.max_provenance,
        axiom_taint: report.has_axiom_taint,
        oracle: report.has_oracle_taint,
        unsafe_taint: report.has_unsafe_taint,
    };
    partiality_passport(
        theory,
        TypeKind::OptionValue { kind: String::from_str(report.kind.display_str()), item: report.item_type.clone() },
        t,
        sources,
        "partiality:option_value",
    )
}

pub fn result_type_passport(theory: &str, report: &ResultTypeReport, sources: &[&Passport]) -> (r: Passport)
    ensures
        r@ == partiality_passport_model(
            theory@,
            TypeKindV::ResultType { ok: report@.ok_type, err: report@.err_type },
            report@.taint,
            sources@,
            "partiality:result_type"@,
        ),
{
    let t = Taint {
        trust: report.max_trust,
        provenance: report.max_provenance,
        axiom_taint: report.has_axiom_taint,
        oracle: report.has_oracle_taint,
        unsafe_taint: report.has_unsafe_taint,
    };
    partiality_passport(
        theory,
        TypeKind::ResultType { ok: report.ok_type.clone(), err: report.err_type.clone() },
        t,
        sources,
        "partiality:result_type",
    )
}

pub fn result_value_passport(theory: &str, report: &ResultValueReport, sources: &[&Passport]) -> (r: Passport)
    ensures
        r@ == partiality_passport_model(
            theory@,
            TypeKindV::ResultValue { kind: report@.kind.display_text(), value: report@.value, result_type: report@.result_type },
            report@.taint,
            sources@,
            "partiality:result_value"@,
        ),
{
    let t = Taint {
        trust: report.max_trust,
        provenance: report.max_provenance,
        axiom_taint: report.has_axiom_taint,
        oracle: report.has_oracle_taint,
        unsafe_taint: report.has_unsafe_taint,
    };
    partiality_passport(
        theory,
        TypeKind::ResultValue {
            kind: String::from_str(report.kind.display_str()),
            value: report.value.clone(),
            result_type: report.result_type.clone(),
        },
        t,
        sources,
        "partiality:result_value",
    )
}

pub fn partiality_report_passport(theory: &str, report: &PartialityReport, sources: &[&Passport]) -> (r: Passport)
    ensures
        r@ == partiality_passport_model(
            theory@,
            TypeKindV::PartialityReport { subject: report@.subject, status: report@.status.display_text() },
            report@.taint,
            sources@,
            "partiality:report"@,
        ),
{
    let t = Taint {
        trust: report.max_trust,
        provenance: report.max_provenance,
        axiom_taint: report.has_axiom_taint,
        oracle: report.has_oracle_taint,
        unsafe_taint: report.has_unsafe_taint,
    };
    partiality_passport(
        theory,
        TypeKind::PartialityReport { subject: report.subject.clone(), status: String::from_str(report.status.display_str()) },
        t,
        sources,
        "partiality:report",
    )
}

/// The export text of an option type.
pub open spec fn option_type_text(r: OptionTypeReportV) -> Seq<char> {
    "option_type_report: v1\nitem_type: "@ + r.item_type + "\ntrust: "@ + r.taint.trust.debug_text() + "\naxiom_taint: "@
        + bool_text(r.taint.axiom_taint) + "\noracle_taint: "@ + bool_text(r.taint.oracle) + "\nunsafe_taint: "@ + bool_text(
        r.taint.unsafe_taint,
    ) + "\nfingerprint: "@ + r.fingerprint + "\n"@
}

pub fn export_option_type(report: &OptionTypeReport) -> (r: String)
    ensures
        r@ == option_type_text(report@),
{
    let mut out = String::from_str("option_type_report: v1\nitem_type: ");
    out.append(report.item_type.as_str());
    out.append("\ntrust: ");
    out.append(report.max_trust.debug_str());
    out.append("\naxiom_taint: ");
    out.append(bool_str(report.has_axiom_taint));
    out.append("\noracle_taint: ");
    out.append(bool_str(report.has_oracle_taint));
    out.append("\nunsafe_taint: ");
    out.append(bool_str(report.has_unsafe_taint));
    out.append("\nfingerprint: ");
    out.append(report.fingerprint.as_str());
    out.append("\n");
    out
}

/// The export text of an option value.
pub open spec fn option_value_text(r: OptionValueReportV) -> Seq<char> {
    "option_value_report: v1\nkind: "@ + r.kind.display_text() + "\nitem_type: "@ + r.item_type + "\nvalue: "@ + match r.value {
        Some(v) => v,
        None => "<none>"@,
    } + "\ntrust: "@ + r.taint.trust.debug_text() + "\nfingerprint: "@ + r.fingerprint + "\n"@
}

pub fn export_option_value(report: &OptionValueReport) -> (r: String)
    ensures
        r@ == option_value_text(report@),
{
    let mut out = String::from_str("option_value_report: v1\nkind: ");
    out.append(report.kind.display_str());
    out.append("\nitem_type: ");
    out.append(report.item_type.as_str());
    out.append("\nvalue: ");
    match &report.value {
        Some(v) => out.append(v.as_str()),
        None => out.append("<none>"),
    }
    out.append("\ntrust: ");
    out.append(report.max_trust.debug_str());
    out.append("\nfingerprint: ");
    out.append(report.fingerprint.as_str());
    out.append("\n");
    out
}

/// The export text of a result type.
pub open spec fn result_type_text(r: ResultTypeReportV) -> Seq<char> {
    "result_type_report: v1\nok_type: "@ + r.ok_type + "\nerr_type: "@ + r.err_type + "\ntrust: "@ + r.taint.trust.debug_text()
        + "\nfingerprint: "@ + r.fingerprint + "\n"@
}

pub fn export_result_type(report: &ResultTypeReport) -> (r: String)
    ensures
        r@ == result_type_text(report@),
{
    let mut out = String::from_str("result_type_report: v1\nok_type: ");
    out.append(report.ok_type.as_str());
    out.append("\nerr_type: ");
    out.append(report.err_type.as_str());
    out.append("\ntrust: ");
    out.append(report.max_trust.debug_str());
    out.append("\nfingerprint: ");
    out.append(report.fingerprint.as_str());
    out.append("\n");
    out
}

/// The export text of a result value.
pub open spec fn result_value_text(r: ResultValueReportV) -> Seq<char> {
    "result_value_report: v1\nkind: "@ + r.kind.display_text() + "\nvalue_type: "@ + r.value_type + "\nvalue: "@ + r.value
        + "\nresult_type: "@ + r.result_type + "\ntrust: "@ + r.taint.trust.debug_text() + "\nfingerprint: "@ + r.fingerprint
        + "\n"@
}

pub fn export_result_value(report: &ResultValueReport) -> (r: String)
    ensures
        r@ == result_value_text(report@),
{
    let mut out = String::from_str("result_value_report: v1\nkind: ");
    out.append(report.kind.display_str());
    out.append("\nvalue_type: ");
    out.append(report.value_type.as_str());
    out.append("\nvalue: ");
    out.append(report.value.as_str());
    out.append("\nresult_type: ");
    out.append(report.result_type.as_str());
    out.append("\ntrust: ");
    out.append(report.max_trust.debug_str());
    out.append("\nfingerprint: ");
    out.append(report.fingerprint.as_str());
    out.append("\n");
    out
}

/// The export text of a partiality report.
pub open spec fn partiality_report_text(r: PartialityReportV) -> Seq<char> {
    "partiality_report: v1\nsubject: "@ + r.subject + "\nstatus: "@ + r.status.display_text() + "\nexplanation: "@ + r.explanation
        + "\ntrust: "@ + r.taint.trust.debug_text() + "\naxiom_taint: "@ + bool_text(r.taint.axiom_taint) + "\noracle_taint: "@
        + bool_text(r.taint.oracle) + "\nunsafe_taint: "@ + bool_text(r.taint.unsafe_taint) + "\nfingerprint: "@ + r.fingerprint
        + "\n"@
}

pub fn export_partiality_report(report: &PartialityReport) -> (r: String)
    ensures
        r@ == partiality_report_text(report@),
{
    let mut out = String::from_str("partiality_report: v1\nsubject: ");
    out.append(report.subject.as_str());
    out.append("\nstatus: ");
    out.append(report.status.display_str());
    out.append("\nexplanation: ");
    out.append(report.explanation.as_str());
    out.append("\ntrust: ");
    out.append(report.max_trust.debug_str());
    out.append("\naxiom_taint: ");
    out.append(bool_str(report.has_axiom_taint));
    out.append("\noracle_taint: ");
    out.append(bool_str(report.has_oracle_taint));
    out.append("\nunsafe_taint: ");
    out.append(bool_str(report.has_unsafe_taint));
    out.append("\nfingerprint: ");
    out.append(report.fingerprint.as_str());
    out.append("\n");
    out
}

/// Wrapping a value in `some` never makes it look more trusted than either the
/// option type or the value: the trust and taint of both are kept.
pub proof fn lemma_some_keeps_taint(o: OptionTypeReportV, value: PassportV, line: usize)
    requires
        option_some_spec(o, value, line) is Ok,
    ensures
        ({
            let v = option_some_spec(o, value, line)->Ok_0;
            &&& v.taint.trust.rank() >= o.taint.trust.rank()
            &&& v.taint.trust.rank() >= value.trust.rank()
            &&& o.taint.axiom_taint ==> v.taint.axiom_taint
            &&& o.taint.oracle ==> v.taint.oracle
            &&& o.taint.unsafe_taint ==> v.taint.unsafe_taint
            &&& v.item_type == o.item_type
        }),
{
    assert(seq![value].drop_last() =~= Seq::<PassportV>::empty());
}

} // verus!
