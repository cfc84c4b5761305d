//! Logical formulas and quantified formulas as explicit, fingerprinted objects.

use vstd::prelude::*;
use vstd::string::*;

use crate::diagnostics::{error_with_help, Diagnostic, DiagnosticKind, DiagnosticV};
use crate::fingerprint::{fingerprint_text, stable_fingerprint, strings_view};
use crate::parser::expr::{ident_range, is_ident};
use crate::passport::record::{concat_histories, home_context, ref_histories};
use crate::passport::type_kind::type_text;
use crate::passport::{
    Capability, CapabilitySet, ConstructionMode, CostClass, HistoryChain, LocationContext, Passport, PassportV, Provenance,
    TheoryContext, TrustLevel, TypeKind, TypeKindV, ValidationState,
};
use crate::text::{all_ws, bool_str, bool_text, chars_of, dec_text, is_blank, usize_text};

verus! {

#[derive(Debug, Clone, Copy, PartialEq, Eq, Structural)]
pub enum LogicalConnective {
    And,
    Or,
    Implies,
    Iff,
    Not,
}

impl LogicalConnective {
    pub open spec fn spec_arity(self) -> usize {
        match self {
            LogicalConnective::Not => 1,
            _ => 2,
        }
    }

    /// Number of operands.
    #[verifier::when_used_as_spec(spec_arity)]
    pub fn arity(self) -> (r: usize)
        ensures
            r == self.spec_arity(),
    {
        match self {
            LogicalConnective::Not => 1,
            LogicalConnective::And | LogicalConnective::Or | LogicalConnective::Implies | LogicalConnective::Iff => 2,
        }
    }

    pub open spec fn display_text(self) -> Seq<char> {
        match self {
            LogicalConnective::And => "and"@,
            LogicalConnective::Or => "or"@,
            LogicalConnective::Implies => "implies"@,
            LogicalConnective::Iff => "iff"@,
            LogicalConnective::Not => "not"@,
        }
    }

    pub fn display_str(self) -> (r: &'static str)
        ensures
            r@ == self.display_text(),
    {
        match self {
            LogicalConnective::And => "and",
            LogicalConnective::Or => "or",
            LogicalConnective::Implies => "implies",
            LogicalConnective::Iff => "iff",
            LogicalConnective::Not => "not",
        }
    }
}

#[derive(Debug, Clone, Copy, PartialEq, Eq, Structural)]
pub enum QuantifierKind {
    Forall,
    Exists,
}

impl QuantifierKind {
    pub open spec fn display_text(self) -> Seq<char> {
        match self {
            QuantifierKind::Forall => "forall"@,
            QuantifierKind::Exists => "exists"@,
        }
    }

    pub fn display_str(self) -> (r: &'static str)
        ensures
            r@ == self.display_text(),
    {
        match self {
            QuantifierKind::Forall => "forall",
            QuantifierKind::Exists => "exists",
        }
    }
}

/// A variable bound by a quantifier, with its domain.
#[derive(Debug, Clone)]
pub struct BoundVariable {
    pub name: String,
    pub domain: String,
}

pub struct BoundVariableV {
    pub name: Seq<char>,
    pub domain: Seq<char>,
}

impl View for BoundVariable {
    type V = BoundVariableV;

    open spec fn view(&self) -> BoundVariableV {
        BoundVariableV { name: self.name@, domain: self.domain@ }
    }
}

/// A formula built with a connective from textual operands.
#[derive(Debug, Clone)]
pub struct LogicalFormula {
    pub connective: LogicalConnective,
    pub operands: Vec<String>,
    pub proposition: String,
    pub max_trust: TrustLevel,
    pub max_provenance: Provenance,
    pub has_axiom_taint: bool,
    pub has_oracle_taint: bool,
    pub has_unsafe_taint: bool,
    pub fingerprint: String,
}

pub struct LogicalFormulaV {
    pub connective: LogicalConnective,
    pub operands: Seq<Seq<char>>,
    pub proposition: Seq<char>,
    pub max_trust: TrustLevel,
    pub max_provenance: Provenance,
    pub has_axiom_taint: bool,
    pub has_oracle_taint: bool,
    pub has_unsafe_taint: bool,
    pub fingerprint: Seq<char>,
}

impl View for LogicalFormula {
    type V = LogicalFormulaV;

    open spec fn view(&self) -> LogicalFormulaV {
        LogicalFormulaV {
            connective: self.connective,
            operands: strings_view(self.operands@),
            proposition: self.proposition@,
            max_trust: self.max_trust,
            max_provenance: self.max_provenance,
            has_axiom_taint: self.has_axiom_taint,
            has_oracle_taint: self.has_oracle_taint,
            has_unsafe_taint: self.has_unsafe_taint,
            fingerprint: self.fingerprint@,
        }
    }
}

/// A quantified formula over one bound variable.
#[derive(Debug, Clone)]
pub struct QuantifiedFormula {
    pub quantifier: QuantifierKind,
    pub variable: BoundVariable,
    pub body: String,
    pub proposition: String,
    pub max_trust: TrustLevel,
    pub max_provenance: Provenance,
    pub has_axiom_taint: bool,
    pub has_oracle_taint: bool,
    pub has_unsafe_taint: bool,
    pub fingerprint: String,
}

pub struct QuantifiedFormulaV {
    pub quantifier: QuantifierKind,
    pub variable: BoundVariableV,
    pub body: Seq<char>,
    pub proposition: Seq<char>,
    pub max_trust: TrustLevel,
    pub max_provenance: Provenance,
    pub has_axiom_taint: bool,
    pub has_oracle_taint: bool,
    pub has_unsafe_taint: bool,
    pub fingerprint: Seq<char>,
}

impl View for QuantifiedFormula {
    type V = QuantifiedFormulaV;

    open spec fn view(&self) -> QuantifiedFormulaV {
        QuantifiedFormulaV {
            quantifier: self.quantifier,
            variable: self.variable@,
            body: self.body@,
            proposition: self.proposition@,
            max_trust: self.max_trust,
            max_provenance: self.max_provenance,
            has_axiom_taint: self.has_axiom_taint,
            has_oracle_taint: self.has_oracle_taint,
            has_unsafe_taint: self.has_unsafe_taint,
            fingerprint: self.fingerprint@,
        }
    }
}

/// An error of the logic layer.
pub open spec fn logic_error_model(line: usize, message: Seq<char>, help: Seq<char>) -> DiagnosticV {
    error_with_help(DiagnosticKind::LogicFormulaError, line, message, help)
}

fn logic_error(line: usize, message: &str, help: &str) -> (r: Diagnostic)
    ensures
        r@ == logic_error_model(line, message@, help@),
{
    Diagnostic::error(DiagnosticKind::LogicFormulaError, Some(line), message).with_help(help)
}

pub open spec fn bound_variable_spec(name: Seq<char>, domain: Seq<char>, line: usize) -> Result<BoundVariableV, DiagnosticV> {
    if !is_ident(name) {
        Err(logic_error_model(
            line,
            "invalid bound variable name `"@ + name + "`"@,
            "bound variables must be explicit identifiers; substitution and alpha-renaming will rely on this invariant"@,
        ))
    } else if all_ws(domain) {
        Err(logic_error_model(
            line,
            "bound variable `"@ + name + "` has an empty domain"@,
            "quantifier objects require an explicit domain even before full dependent typing is implemented"@,
        ))
    } else {
        Ok(BoundVariableV { name, domain })
    }
}

pub fn bound_variable(name: &str, domain: &str, line: usize) -> (r: Result<BoundVariable, Diagnostic>)
    ensures
        bound_variable_spec(name@, domain@, line) == (match r {
            Ok(v) => Ok::<BoundVariableV, DiagnosticV>(v@),
            Err(d) => Err::<BoundVariableV, DiagnosticV>(d@),
        }),
{
    let cs = chars_of(name);
    if !ident_range(&cs, 0, cs.len()) {
        proof {
            assert(cs@.subrange(0, cs@.len() as int) =~= name@);
        }
        let mut msg = String::from_str("invalid bound variable name `");
        msg.append(name);
        msg.append("`");
        return Err(logic_error(
            line,
            msg.as_str(),
            "bound variables must be explicit identifiers; substitution and alpha-renaming will rely on this invariant",
        ));
    }
    proof {
        assert(cs@.subrange(0, cs@.len() as int) =~= name@);
    }
    if is_blank(domain) {
        let mut msg = String::from_str("bound variable `");
        msg.append(name);
        msg.append("` has an empty domain");
        return Err(logic_error(
            line,
            msg.as_str(),
            "quantifier objects require an explicit domain even before full dependent typing is implemented",
        ));
    }
    Ok(BoundVariable { name: String::from_str(name), domain: String::from_str(domain) })
}

/// The error a formula text gives, if any: blank, or spread over several lines.
pub open spec fn formula_text_error(text: Seq<char>, label: Seq<char>, line: usize) -> Option<DiagnosticV> {
    if all_ws(text) {
        Some(logic_error_model(
            line,
            label + " is empty"@,
            "formula objects must carry explicit textual proposition identity until full term binding is implemented"@,
        ))
    } else if text.contains('\n') || text.contains('\r') {
        Some(logic_error_model(
            line,
            label + " contains a newline"@,
            "single-line proposition identity keeps audit exports and fingerprints stable in this MVP layer"@,
        ))
    } else {
        None
    }
}

pub(crate) fn has_line_break(text: &str) -> (r: bool)
    ensures
        r == (text@.contains('\n') || text@.contains('\r')),
{
    let cs = chars_of(text);
    let mut i: usize = 0;
    while i < cs.len()
        invariant
            cs@ == text@,
            i <= cs.len(),
            forall|j: int| 0 <= j < i ==> cs@[j] != '\n' && cs@[j] != '\r',
        decreases cs.len() - i,
    {
        if cs[i] == '\n' || cs[i] == '\r' {
            assert(text@[i as int] == cs@[i as int]);
            return true;
        }
        i = i + 1;
    }
    false
}

fn validate_formula_text(text: &str, label: &str, line: usize) -> (r: Result<(), Diagnostic>)
    ensures
        formula_text_error(text@, label@, line) == (match r {
            Ok(()) => None::<DiagnosticV>,
            Err(d) => Some(d@),
        }),
{
    if is_blank(text) {
        let mut msg = String::from_str(label);
        msg.append(" is empty");
        return Err(logic_error(
            line,
            msg.as_str(),
            "formula objects must carry explicit textual proposition identity until full term binding is implemented",
        ));
    }
    if has_line_break(text) {
        let mut msg = String::from_str(label);
        msg.append(" contains a newline");
        return Err(logic_error(
            line,
            msg.as_str(),
            "single-line proposition identity keeps audit exports and fingerprints stable in this MVP layer",
        ));
    }
    Ok(())
}

pub fn formula_atom(atom: &str, line: usize) -> (r: Result<String, Diagnostic>)
    ensures
        match r {
            Ok(s) => s@ == atom@ && formula_text_error(atom@, "atomic formula"@, line) is None,
            Err(d) => formula_text_error(atom@, "atomic formula"@, line) == Some(d@),
        },
{
    match validate_formula_text(atom, "atomic formula", line) {
        Err(d) => Err(d),
        Ok(()) => Ok(String::from_str(atom)),
    }
}

/// The text `quantifier variable:domain. body`.
pub open spec fn quantified_text(quantifier: Seq<char>, variable: Seq<char>, domain: Seq<char>, body: Seq<char>) -> Seq<char> {
    quantifier + " "@ + variable + ":"@ + domain + ". "@ + body
}

fn quantified_string(quantifier: &str, variable: &str, domain: &str, body: &str) -> (r: String)
    ensures
        r@ == quantified_text(quantifier@, variable@, domain@, body@),
{
    let mut s = String::from_str(quantifier);
    s.append(" ");
    s.append(variable);
    s.append(":");
    s.append(domain);
    s.append(". ");
    s.append(body);
    s
}

/// The proposition a passport offers as a formula operand.
pub open spec fn formula_of_spec(p: PassportV, line: usize) -> Result<Seq<char>, DiagnosticV> {
    match p.ty {
        TypeKindV::Prop { name } => Ok(name),
        TypeKindV::Statement { proposition } => Ok(proposition),
        TypeKindV::Goal { proposition } => Ok(proposition),
        TypeKindV::Hypothesis { proposition } => Ok(proposition),
        TypeKindV::LogicalFormula { form } => Ok(form),
        TypeKindV::QuantifiedFormula { quantifier, variable, domain, body } => Ok(quantified_text(quantifier, variable, domain, body)),
        TypeKindV::Theorem { .. } => Err(logic_error_model(
            line,
            "Theorem cannot be used as a formula operand without explicitly extracting its proposition"@,
            "theorem status is evidence; logical formula construction works on propositions, statements, goals or hypotheses"@,
        )),
        TypeKindV::StaticProof(_) | TypeKindV::ProofTerm { .. } | TypeKindV::RuntimeWitness(_) | TypeKindV::Provable { .. }
        | TypeKindV::TruthClaim { .. } | TypeKindV::ReflectionClaim { .. } | TypeKindV::SelfReferenceClaim { .. }
        | TypeKindV::ConsistencyClaim { .. } => Err(logic_error_model(
            line,
            type_text(p.ty) + " is not a formula operand"@,
            "ordinary logical formulas must not silently consume proof, truth, provability, runtime witness, consistency or reflection objects"@,
        )),
        _ => Err(logic_error_model(
            line,
            type_text(p.ty) + " is not a proposition-like passport"@,
            "use Prop, Statement, Goal, Hypothesis, LogicalFormula or QuantifiedFormula as formula operands"@,
        )),
    }
}

pub fn formula_from_passport(passport: &Passport, line: usize) -> (r: Result<String, Diagnostic>)
    ensures
        formula_of_spec(passport@, line) == (match r {
            Ok(s) => Ok::<Seq<char>, DiagnosticV>(s@),
            Err(d) => Err::<Seq<char>, DiagnosticV>(d@),
        }),
{
    match &passport.ty {
        TypeKind::Prop { name } => Ok(name.clone()),
        TypeKind::Statement { proposition } => Ok(proposition.clone()),
        TypeKind::Goal { proposition } => Ok(proposition.clone()),
        TypeKind::Hypothesis { proposition } => Ok(proposition.clone()),
        TypeKind::LogicalFormula { form } => Ok(form.clone()),
        TypeKind::QuantifiedFormula { quantifier, variable, domain, body } => Ok(
            quantified_string(quantifier.as_str(), variable.as_str(), domain.as_str(), body.as_str()),
        ),
        TypeKind::Theorem { .. } => Err(logic_error(
            line,
            "Theorem cannot be used as a formula operand without explicitly extracting its proposition",
            "theorem status is evidence; logical formula construction works on propositions, statements, goals or hypotheses",
        )),
        TypeKind::StaticProof(_) | TypeKind::ProofTerm { .. } | TypeKind::RuntimeWitness(_) | TypeKind::Provable { .. }
        | TypeKind::TruthClaim { .. } | TypeKind::ReflectionClaim { .. } | TypeKind::SelfReferenceClaim { .. }
        | TypeKind::ConsistencyClaim { .. } => {
            let mut msg = passport.ty.to_text();
            msg.append(" is not a formula operand");
            Err(logic_error(
                line,
                msg.as_str(),
                "ordinary logical formulas must not silently consume proof, truth, provability, runtime witness, consistency or reflection objects",
            ))
        },
        _ => {
            let mut msg = passport.ty.to_text();
            msg.append(" is not a proposition-like passport");
            Err(logic_error(
                line,
                msg.as_str(),
                "use Prop, Statement, Goal, Hypothesis, LogicalFormula or QuantifiedFormula as formula operands",
            ))
        },
    }
}

/// The models of a slice of passport references.
pub open spec fn refs_view(s: Seq<&Passport>) -> Seq<PassportV> {
    s.map_values(|p: &Passport| p@)
}

/// The most tainted trust among the sources, from `Checked`.
pub open spec fn trust_fold(s: Seq<PassportV>) -> TrustLevel
    decreases s.len(),
{
    if s.len() == 0 {
        TrustLevel::Checked
    } else {
        trust_fold(s.drop_last()).higher(s.last().trust)
    }
}

/// The least trusted provenance among the sources, from `BuiltinKnown`.
pub open spec fn provenance_fold(s: Seq<PassportV>) -> Provenance
    decreases s.len(),
{
    if s.len() == 0 {
        Provenance::BuiltinKnown
    } else {
        provenance_fold(s.drop_last()).higher(s.last().provenance)
    }
}

/// The taint summary of the sources: the joined trust (at least builtin), the
/// joined provenance, and whether the trust reaches axiom, oracle, unsafe.
pub open spec fn taint_of(s: Seq<PassportV>) -> (TrustLevel, Provenance, bool, bool, bool) {
    let t = trust_fold(s).higher(TrustLevel::Builtin);
    (
        t,
        provenance_fold(s),
        t.rank() >= TrustLevel::Axiom.rank(),
        t.rank() >= TrustLevel::Oracle.rank(),
        t.rank() >= TrustLevel::Unsafe.rank(),
    )
}

fn taint_summary(sources: &[&Passport]) -> (r: (TrustLevel, Provenance, bool, bool, bool))
    ensures
        r == taint_of(refs_view(sources@)),
{
    let ghost sv = refs_view(sources@);
    let mut max_trust = TrustLevel::Checked;
    let mut max_provenance = Provenance::BuiltinKnown;
    let mut i: usize = 0;
    assert(sv.take(0) =~= Seq::<PassportV>::empty());
    while i < sources.len()
        invariant
            sv == refs_view(sources@),
            i <= sources.len(),
            max_trust == trust_fold(sv.take(i as int)),
            max_provenance == provenance_fold(sv.take(i as int)),
        decreases sources.len() - i,
    {
        assert(sv.take(i + 1).drop_last() =~= sv.take(i as int));
        max_trust = max_trust.higher(sources[i].trust);
        max_provenance = max_provenance.higher(sources[i].provenance);
        i = i + 1;
    }
    assert(sv.take(i as int) =~= sv);
    let t = max_trust.higher(TrustLevel::Builtin);
    (t, max_provenance, t.rank() >= TrustLevel::Axiom.rank(), t.rank() >= TrustLevel::Oracle.rank(), t.rank() >= TrustLevel::Unsafe.rank())
}

/// The proposition a connective builds from its operands.
pub open spec fn connective_text(c: LogicalConnective, ops: Seq<Seq<char>>) -> Seq<char> {
    match c {
        LogicalConnective::Not => "not("@ + ops[0] + ")"@,
        _ => c.display_text() + "("@ + ops[0] + ", "@ + ops[1] + ")"@,
    }
}

/// The first operand error among the first `n` operands.
pub open spec fn operands_error(ops: Seq<Seq<char>>, line: usize, n: int) -> Option<DiagnosticV>
    decreases n,
{
    if n <= 0 {
        None
    } else {
        match operands_error(ops, line, n - 1) {
            Some(d) => Some(d),
            None => formula_text_error(ops[n - 1], "logical operand"@, line),
        }
    }
}

/// What `logical_formula` gives.
pub open spec fn logical_formula_spec(c: LogicalConnective, ops: Seq<Seq<char>>, sources: Seq<PassportV>, line: usize) -> Result<LogicalFormulaV, DiagnosticV> {
    if ops.len() != c.spec_arity() {
        Err(logic_error_model(
            line,
            "logical connective `"@ + c.display_text() + "` expects "@ + dec_text(c.spec_arity() as nat) + " operand(s), got "@
                + dec_text(ops.len()),
            "logical connective arity is part of the formula fingerprint and cannot be repaired implicitly"@,
        ))
    } else {
        match operands_error(ops, line, ops.len() as int) {
            Some(d) => Err(d),
            None => {
                let prop = connective_text(c, ops);
                let (t, p, ax, or, un) = taint_of(sources);
                Ok(LogicalFormulaV {
                    connective: c,
                    operands: ops,
                    proposition: prop,
                    max_trust: t,
                    max_provenance: p,
                    has_axiom_taint: ax,
                    has_oracle_taint: or,
                    has_unsafe_taint: un,
                    fingerprint: fingerprint_text(
                        "dlm-logic-v1-"@,
                        seq!["logic-formula-v1"@, c.display_text(), prop, "trust="@ + t.debug_text()] + ops,
                    ),
                })
            },
        }
    }
}

pub fn logical_formula(connective: LogicalConnective, operands: Vec<String>, source_passports: &[&Passport], line: usize) -> (r: Result<LogicalFormula, Diagnostic>)
    ensures
        logical_formula_spec(connective, strings_view(operands@), refs_view(source_passports@), line) == (match r {
            Ok(f) => Ok::<LogicalFormulaV, DiagnosticV>(f@),
            Err(d) => Err::<LogicalFormulaV, DiagnosticV>(d@),
        }),
{
    let ghost ops = strings_view(operands@);
    if operands.len() != connective.arity() {
        let mut msg = String::from_str("logical connective `");
        msg.append(connective.display_str());
        msg.append("` expects ");
        msg.append(usize_text(connective.arity()).as_str());
        msg.append(" operand(s), got ");
        msg.append(usize_text(operands.len()).as_str());
        return Err(logic_error(
            line,
            msg.as_str(),
            "logical connective arity is part of the formula fingerprint and cannot be repaired implicitly",
        ));
    }
    let mut i: usize = 0;
    while i < operands.len()
        invariant
            ops == strings_view(operands@),
            ops.len() == operands.len(),
            operands.len() == connective.spec_arity(),
            i <= operands.len(),
            operands_error(ops, line, i as int) is None,
        decreases operands.len() - i,
    {
        proof {
            assert(ops[i as int] == operands@[i as int]@);
        }
        match validate_formula_text(operands[i].as_str(), "logical operand", line) {
            Ok(()) => {},
            Err(d) => {
                proof {
                    assert(operands_error(ops, line, i + 1) == Some(d@));
                    lemma_operands_error_stays(ops, line, i + 1, ops.len() as int);
                }
                return Err(d);
            },
        }
        i = i + 1;
    }
    let proposition = match connective {
        LogicalConnective::Not => {
            let mut s = String::from_str("not(");
            s.append(operands[0].as_str());
            s.append(")");
            s
        },
        _ => {
            let mut s = String::from_str(connective.display_str());
            s.append("(");
            s.append(operands[0].as_str());
            s.append(", ");
            s.append(operands[1].as_str());
            s.append(")");
            s
        },
    };
    let (max_trust, max_provenance, has_axiom_taint, has_oracle_taint, has_unsafe_taint) = taint_summary(source_passports);
    let mut parts: Vec<String> = Vec::new();
    parts.push(String::from_str("logic-formula-v1"));
    parts.push(String::from_str(connective.display_str()));
    parts.push(proposition.clone());
    let mut tr = String::from_str("trust=");
    tr.append(max_trust.debug_str());
    parts.push(tr);
    let ghost head = strings_view(parts@);
    let mut k: usize = 0;
    while k < operands.len()
        invariant
            ops == strings_view(operands@),
            k <= operands.len(),
            strings_view(parts@) == head + ops.take(k as int),
        decreases operands.len() - k,
    {
        let ghost before = parts@;
        parts.push(operands[k].clone());
        assert(strings_view(parts@) =~= strings_view(before).push(ops[k as int]));
        assert(ops.take(k + 1) =~= ops.take(k as int).push(ops[k as int]));
        k = k + 1;
    }
    assert(ops.take(k as int) =~= ops);
    assert(head =~= seq!["logic-formula-v1"@, connective.display_text(), proposition@, "trust="@ + max_trust.debug_text()]);
    let fingerprint = stable_fingerprint("dlm-logic-v1-", &parts);
    Ok(LogicalFormula {
        connective,
        operands,
        proposition,
        max_trust,
        max_provenance,
        has_axiom_taint,
        has_oracle_taint,
        has_unsafe_taint,
        fingerprint,
    })
}

proof fn lemma_operands_error_stays(ops: Seq<Seq<char>>, line: usize, m: int, n: int)
    requires
        0 <= m <= n,
        operands_error(ops, line, m) is Some,
    ensures
        operands_error(ops, line, n) == operands_error(ops, line, m),
    decreases n - m,
{
    if m < n {
        lemma_operands_error_stays(ops, line, m, n - 1);
    }
}

/// What `quantified_formula` gives.
pub open spec fn quantified_formula_spec(q: QuantifierKind, v: BoundVariableV, body: Seq<char>, sources: Seq<PassportV>, line: usize) -> Result<QuantifiedFormulaV, DiagnosticV> {
    match formula_text_error(body, "quantifier body"@, line) {
        Some(d) => Err(d),
        None => {
            let (t, p, ax, or, un) = taint_of(sources);
            Ok(QuantifiedFormulaV {
                quantifier: q,
                variable: v,
                body,
                proposition: quantified_text(q.display_text(), v.name, v.domain, body),
                max_trust: t,
                max_provenance: p,
                has_axiom_taint: ax,
                has_oracle_taint: or,
                has_unsafe_taint: un,
                fingerprint: fingerprint_text(
                    "dlm-logic-v1-"@,
                    seq!["quantified-formula-v1"@, q.display_text(), v.name, v.domain, body, "trust="@ + t.debug_text()],
                ),
            })
        },
    }
}

pub fn quantified_formula(quantifier: QuantifierKind, variable: BoundVariable, body: &str, source_passports: &[&Passport], line: usize) -> (r: Result<QuantifiedFormula, Diagnostic>)
    ensures
        quantified_formula_spec(quantifier, variable@, body@, refs_view(source_passports@), line) == (match r {
            Ok(f) => Ok::<QuantifiedFormulaV, DiagnosticV>(f@),
            Err(d) => Err::<QuantifiedFormulaV, DiagnosticV>(d@),
        }),
{
    match validate_formula_text(body, "quantifier body", line) {
        Err(d) => return Err(d),
        Ok(()) => {},
    }
    let proposition = quantified_string(quantifier.display_str(), variable.name.as_str(), variable.domain.as_str(), body);
    let (max_trust, max_provenance, has_axiom_taint, has_oracle_taint, has_unsafe_taint) = taint_summary(source_passports);
    let mut parts: Vec<String> = Vec::new();
    parts.push(String::from_str("quantified-formula-v1"));
    parts.push(String::from_str(quantifier.display_str()));
    parts.push(variable.name.clone());
    parts.push(variable.domain.clone());
    parts.push(String::from_str(body));
    let mut tr = String::from_str("trust=");
    tr.append(max_trust.debug_str());
    parts.push(tr);
    let fingerprint = stable_fingerprint("dlm-logic-v1-", &parts);
    assert(strings_view(parts@) =~= seq![
        "quantified-formula-v1"@,
        quantifier.display_text(),
        variable@.name,
        variable@.domain,
        body@,
        "trust="@ + max_trust.debug_text(),
    ]);
    Ok(QuantifiedFormula {
        quantifier,
        variable,
        body: String::from_str(body),
        proposition,
        max_trust,
        max_provenance,
        has_axiom_taint,
        has_oracle_taint,
        has_unsafe_taint,
        fingerprint,
    })
}

pub fn require_logical_formula(passport: &Passport, line: usize) -> (r: Result<String, Diagnostic>)
    ensures
        (match passport@.ty {
            TypeKindV::LogicalFormula { form } => Ok::<Seq<char>, DiagnosticV>(form),
            _ => Err::<Seq<char>, DiagnosticV>(logic_error_model(
                line,
                "expected LogicalFormula, got "@ + type_text(passport@.ty),
                "logical formula reports are ordinary proposition objects, not proof or theorem evidence"@,
            )),
        }) == (match r {
            Ok(s) => Ok::<Seq<char>, DiagnosticV>(s@),
            Err(d) => Err::<Seq<char>, DiagnosticV>(d@),
        }),
{
    match &passport.ty {
        TypeKind::LogicalFormula { form } => Ok(form.clone()),
        _ => {
            let mut msg = String::from_str("expected LogicalFormula, got ");
            msg.append(passport.ty.to_text().as_str());
            Err(logic_error(line, msg.as_str(), "logical formula reports are ordinary proposition objects, not proof or theorem evidence"))
        },
    }
}

pub fn require_quantified_formula(passport: &Passport, line: usize) -> (r: Result<String, Diagnostic>)
    ensures
        (match passport@.ty {
            TypeKindV::QuantifiedFormula { quantifier, variable, domain, body } => Ok::<Seq<char>, DiagnosticV>(
                quantified_text(quantifier, variable, domain, body),
            ),
            _ => Err::<Seq<char>, DiagnosticV>(logic_error_model(
                line,
                "expected QuantifiedFormula, got "@ + type_text(passport@.ty),
                "quantified formula reports are formula objects; introduction/elimination proofs will be separate proof-kernel rules"@,
            )),
        }) == (match r {
            Ok(s) => Ok::<Seq<char>, DiagnosticV>(s@),
            Err(d) => Err::<Seq<char>, DiagnosticV>(d@),
        }),
{
    match &passport.ty {
        TypeKind::QuantifiedFormula { quantifier, variable, domain, body } => Ok(
            quantified_string(quantifier.as_str(), variable.as_str(), domain.as_str(), body.as_str()),
        ),
        _ => {
            let mut msg = String::from_str("expected QuantifiedFormula, got ");
            msg.append(passport.ty.to_text().as_str());
            Err(logic_error(
                line,
                msg.as_str(),
                "quantified formula reports are formula objects; introduction/elimination proofs will be separate proof-kernel rules",
            ))
        },
    }
}

/// A formula object: proof-finite, at least builtin taint.
pub open spec fn formula_passport_model(theory: Seq<char>, ty: TypeKindV, trust: TrustLevel, provenance: Provenance, history: Seq<Seq<char>>) -> PassportV {
    PassportV {
        ty,
        construction: ConstructionMode::ProofFinite,
        capabilities: set![Capability::CanSymbolicPrint, Capability::CanCompareByProof, Capability::CanPropositionReason],
        cost: CostClass::ProofRequired,
        trust: trust.higher(TrustLevel::Builtin),
        provenance: provenance.higher(Provenance::BuiltinKnown),
        validation: ValidationState::StaticChecked,
        theory: home_context(theory),
        history,
        location: LocationContext::Local,
    }
}

pub(crate) fn formula_passport(theory: &str, ty: TypeKind, max_trust: TrustLevel, max_provenance: Provenance, history: HistoryChain) -> (r: Passport)
    ensures
        r@ == formula_passport_model(theory@, ty@, max_trust, max_provenance, history@),
{
    Passport {
        ty,
        construction: ConstructionMode::ProofFinite,
        capabilities: CapabilitySet::empty().with(Capability::CanSymbolicPrint).with(Capability::CanCompareByProof).with(
            Capability::CanPropositionReason,
        ),
        cost: CostClass::ProofRequired,
        trust: max_trust.higher(TrustLevel::Builtin),
        provenance: max_provenance.higher(Provenance::BuiltinKnown),
        validation: ValidationState::StaticChecked,
        theory: TheoryContext::new(theory),
        history,
        location: LocationContext::local(),
    }
}

pub fn logical_formula_passport(theory: &str, formula: &LogicalFormula, sources: &[&Passport]) -> (r: Passport)
    ensures
        r@ == formula_passport_model(
            theory@,
            TypeKindV::LogicalFormula { form: formula@.proposition },
            formula@.max_trust,
            formula@.max_provenance,
            concat_histories(ref_histories(sources@)).push(
                "logic:formula:"@ + formula@.connective.display_text() + ":fingerprint="@ + formula@.fingerprint,
            ),
        ),
{
    let mut ev = String::from_str("logic:formula:");
    ev.append(formula.connective.display_str());
    ev.append(":fingerprint=");
    ev.append(formula.fingerprint.as_str());
    let history = HistoryChain::merge_refs(sources, ev.as_str());
    formula_passport(theory, TypeKind::LogicalFormula { form: formula.proposition.clone() }, formula.max_trust, formula.max_provenance, history)
}

pub fn quantified_formula_passport(theory: &str, formula: &QuantifiedFormula, sources: &[&Passport]) -> (r: Passport)
    ensures
        r@ == formula_passport_model(
            theory@,
            TypeKindV::QuantifiedFormula {
                quantifier: formula@.quantifier.display_text(),
                variable: formula@.variable.name,
                domain: formula@.variable.domain,
                body: formula@.body,
            },
            formula@.max_trust,
            formula@.max_provenance,
            concat_histories(ref_histories(sources@)).push(
                "logic:quantifier:"@ + formula@.quantifier.display_text() + ":"@ + formula@.variable.name + ":"@
                    + formula@.variable.domain + ":fingerprint="@ + formula@.fingerprint,
            ),
        ),
{
    let mut ev = String::from_str("logic:quantifier:");
    ev.append(formula.quantifier.display_str());
    ev.append(":");
    ev.append(formula.variable.name.as_str());
    ev.append(":");
    ev.append(formula.variable.domain.as_str());
    ev.append(":fingerprint=");
    ev.append(formula.fingerprint.as_str());
    let history = HistoryChain::merge_refs(sources, ev.as_str());
    formula_passport(
        theory,
        TypeKind::QuantifiedFormula {
            quantifier: String::from_str(formula.quantifier.display_str()),
            variable: formula.variable.name.clone(),
            domain: formula.variable.domain.clone(),
            body: formula.body.clone(),
        },
        formula.max_trust,
        formula.max_provenance,
        history,
    )
}

/// The report text of a logical formula.
pub open spec fn logical_formula_report(f: LogicalFormulaV) -> Seq<char> {
    "logical_formula_report: v1\n"@ + "connective: "@ + f.connective.display_text() + "\n"@ + "proposition: "@ + f.proposition
        + "\n"@ + "max_trust: "@ + f.max_trust.debug_text() + "\n"@ + "has_axiom_taint: "@ + bool_text(f.has_axiom_taint) + "\n"@
        + "has_oracle_taint: "@ + bool_text(f.has_oracle_taint) + "\n"@ + "has_unsafe_taint: "@ + bool_text(f.has_unsafe_taint)
        + "\n"@ + "fingerprint: "@ + f.fingerprint + "\n"@ + "operands:\n"@ + operand_lines(f.operands)
}

/// One `- operand` line per operand.
pub open spec fn operand_lines(ops: Seq<Seq<char>>) -> Seq<char>
    decreases ops.len(),
{
    if ops.len() == 0 {
        Seq::empty()
    } else {
        operand_lines(ops.drop_last()) + "- "@ + ops.last() + "\n"@
    }
}

pub fn export_logical_formula(formula: &LogicalFormula) -> (r: String)
    ensures
        r@ == logical_formula_report(formula@),
{
    let mut out = String::from_str("logical_formula_report: v1\n");
    out.append("connective: ");
    out.append(formula.connective.display_str());
    out.append("\n");
    out.append("proposition: ");
    out.append(formula.proposition.as_str());
    out.append("\n");
    out.append("max_trust: ");
    out.append(formula.max_trust.debug_str());
    out.append("\n");
    out.append("has_axiom_taint: ");
    out.append(bool_str(formula.has_axiom_taint));
    out.append("\n");
    out.append("has_oracle_taint: ");
    out.append(bool_str(formula.has_oracle_taint));
    out.append("\n");
    out.append("has_unsafe_taint: ");
    out.append(bool_str(formula.has_unsafe_taint));
    out.append("\n");
    out.append("fingerprint: ");
    out.append(formula.fingerprint.as_str());
    out.append("\n");
    out.append("operands:\n");
    let ghost head = out@;
    let ghost ops = formula@.operands;
    let mut i: usize = 0;
    assert(ops.take(0) =~= Seq::<Seq<char>>::empty());
    assert(head + operand_lines(ops.take(0)) =~= head);
    while i < formula.operands.len()
        invariant
            ops == formula@.operands,
            i <= formula.operands.len(),
            out@ == head + operand_lines(ops.take(i as int)),
        decreases formula.operands.len() - i,
    {
        assert(ops.take(i + 1).drop_last() =~= ops.take(i as int));
        out.append("- ");
        out.append(formula.operands[i].as_str());
        out.append("\n");
        i = i + 1;
    }
    assert(ops.take(i as int) =~= ops);
    out
}

/// The report text of a quantified formula.
pub open spec fn quantified_formula_report(f: QuantifiedFormulaV) -> Seq<char> {
    "quantified_formula_report: v1\n"@ + "quantifier: "@ + f.quantifier.display_text() + "\n"@ + "variable: "@ + f.variable.name
        + "\n"@ + "domain: "@ + f.variable.domain + "\n"@ + "body: "@ + f.body + "\n"@ + "proposition: "@ + f.proposition + "\n"@
        + "max_trust: "@ + f.max_trust.debug_text() + "\n"@ + "has_axiom_taint: "@ + bool_text(f.has_axiom_taint) + "\n"@
        + "has_oracle_taint: "@ + bool_text(f.has_oracle_taint) + "\n"@ + "has_unsafe_taint: "@ + bool_text(f.has_unsafe_taint)
        + "\n"@ + "fingerprint: "@ + f.fingerprint + "\n"@
}

pub fn export_quantified_formula(formula: &QuantifiedFormula) -> (r: String)
    ensures
        r@ == quantified_formula_report(formula@),
{
    let mut out = String::from_str("quantified_formula_report: v1\n");
    out.append("quantifier: ");
    out.append(formula.quantifier.display_str());
    out.append("\n");
    out.append("variable: ");
    out.append(formula.variable.name.as_str());
    out.append("\n");
    out.append("domain: ");
    out.append(formula.variable.domain.as_str());
    out.append("\n");
    out.append("body: ");
    out.append(formula.body.as_str());
    out.append("\n");
    out.append("proposition: ");
    out.append(formula.proposition.as_str());
    out.append("\n");
    out.append("max_trust: ");
    out.append(formula.max_trust.debug_str());
    out.append("\n");
    out.append("has_axiom_taint: ");
    out.append(bool_str(formula.has_axiom_taint));
    out.append("\n");
    out.append("has_oracle_taint: ");
    out.append(bool_str(formula.has_oracle_taint));
    out.append("\n");
    out.append("has_unsafe_taint: ");
    out.append(bool_str(formula.has_unsafe_taint));
    out.append("\n");
    out.append("fingerprint: ");
    out.append(formula.fingerprint.as_str());
    out.append("\n");
    out
}

/// A formula is never less tainted than its sources: its trust is at least builtin
/// and at least each source's, and the taint flags follow the trust.
pub proof fn lemma_formula_taint_dominates(sources: Seq<PassportV>)
    ensures
        TrustLevel::Builtin.rank() <= taint_of(sources).0.rank(),
        forall|i: int| 0 <= i < sources.len() ==> (#[trigger] sources[i]).trust.rank() <= taint_of(sources).0.rank(),
        taint_of(sources).2 <==> taint_of(sources).0.rank() >= TrustLevel::Axiom.rank(),
    decreases sources.len(),
{
    lemma_trust_fold_dominates(sources);
}

proof fn lemma_trust_fold_dominates(s: Seq<PassportV>)
    ensures
        forall|i: int| 0 <= i < s.len() ==> (#[trigger] s[i]).trust.rank() <= trust_fold(s).rank(),
    decreases s.len(),
{
    if s.len() > 0 {
        lemma_trust_fold_dominates(s.drop_last());
        assert forall|i: int| 0 <= i < s.len() implies (#[trigger] s[i]).trust.rank() <= trust_fold(s).rank() by {
            if i < s.len() - 1 {
                assert(s.drop_last()[i] == s[i]);
            }
        }
    }
}

} // verus!
