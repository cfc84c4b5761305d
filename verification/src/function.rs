//! Ordinary function types, lambda terms and applications, kept apart from
//! proof and truth evidence.

use vstd::prelude::*;
use vstd::string::*;

use crate::axiom_registry::{lemma_text_lt_irreflexive, lemma_text_lt_total, lemma_text_lt_transitive, name_lt, text_lt};
use crate::diagnostics::{error_with_help, Diagnostic, DiagnosticKind, DiagnosticV};
use crate::fingerprint::{fingerprint_text, stable_fingerprint, strings_view};
use crate::function_contract::{debug_quoted, sources_taint, str_debug_text, taint_step};
use crate::logic::{formula_passport, formula_passport_model, has_line_break, refs_view, BoundVariable, BoundVariableV};
use crate::parser::expr::{ident_range, is_ident};
use crate::passport::record::{concat_histories, home_context, ref_histories};
use crate::passport::type_kind::type_text;
use crate::passport::{
    Capability, CapabilitySet, ConstructionMode, CostClass, HistoryChain, LocationContext, Passport, PassportV, Provenance,
    TheoryContext, TrustLevel, TypeKind, TypeKindV, ValidationState,
};
use crate::text::{all_ws, bool_str, bool_text, chars_of, is_blank, join_text, str_eq};

verus! {

#[derive(Debug, Clone, Copy, PartialEq, Eq, Structural, PartialOrd, Ord)]
pub enum ApplicationStatus {
    Applied,
    RejectedDomainMismatch,
}

impl ApplicationStatus {
    pub open spec fn display_text(self) -> Seq<char> {
        match self {
            ApplicationStatus::Applied => "applied"@,
            ApplicationStatus::RejectedDomainMismatch => "rejected_domain_mismatch"@,
        }
    }

    pub fn display_str(self) -> (r: &'static str)
        ensures
            r@ == self.display_text(),
    {
        match self {
            ApplicationStatus::Applied => "applied",
            ApplicationStatus::RejectedDomainMismatch => "rejected_domain_mismatch",
        }
    }
}

/// The taint tuple: joined trust and provenance, then the axiom, oracle and unsafe flags.
pub type TaintTuple = (TrustLevel, Provenance, bool, bool, bool);

/// A function type from a domain to a codomain.
#[derive(Debug)]
pub struct FunctionTypeReport {
    pub domain: String,
    pub codomain: String,
    pub is_total: bool,
    pub is_pure: bool,
    pub max_trust: TrustLevel,
    pub max_provenance: Provenance,
    pub has_axiom_taint: bool,
    pub has_oracle_taint: bool,
    pub has_unsafe_taint: bool,
    pub fingerprint: String,
}

pub struct FunctionTypeReportV {
    pub domain: Seq<char>,
    pub codomain: Seq<char>,
    pub is_total: bool,
    pub is_pure: bool,
    pub taint: TaintTuple,
    pub fingerprint: Seq<char>,
}

impl View for FunctionTypeReport {
    type V = FunctionTypeReportV;

    open spec fn view(&self) -> FunctionTypeReportV {
        FunctionTypeReportV {
            domain: self.domain@,
            codomain: self.codomain@,
            is_total: self.is_total,
            is_pure: self.is_pure,
            taint: (self.max_trust, self.max_provenance, self.has_axiom_taint, self.has_oracle_taint, self.has_unsafe_taint),
            fingerprint: self.fingerprint@,
        }
    }
}

/// A lambda term of a declared function type.
#[derive(Debug)]
pub struct LambdaTermReport {
    pub parameter: BoundVariable,
    pub body: String,
    pub domain: String,
    pub codomain: String,
    pub captures: Vec<String>,
    pub is_total: bool,
    pub is_pure: bool,
    pub max_trust: TrustLevel,
    pub max_provenance: Provenance,
    pub has_axiom_taint: bool,
    pub has_oracle_taint: bool,
    pub has_unsafe_taint: bool,
    pub fingerprint: String,
}

pub struct LambdaTermReportV {
    pub parameter: BoundVariableV,
    pub body: Seq<char>,
    pub domain: Seq<char>,
    pub codomain: Seq<char>,
    pub captures: Seq<Seq<char>>,
    pub is_total: bool,
    pub is_pure: bool,
    pub taint: TaintTuple,
    pub fingerprint: Seq<char>,
}

impl View for LambdaTermReport {
    type V = LambdaTermReportV;

    open spec fn view(&self) -> LambdaTermReportV {
        LambdaTermReportV {
            parameter: self.parameter@,
            body: self.body@,
            domain: self.domain@,
            codomain: self.codomain@,
            captures: strings_view(self.captures@),
            is_total: self.is_total,
            is_pure: self.is_pure,
            taint: (self.max_trust, self.max_provenance, self.has_axiom_taint, self.has_oracle_taint, self.has_unsafe_taint),
            fingerprint: self.fingerprint@,
        }
    }
}

/// A function applied to an argument, or the record of a domain mismatch.
#[derive(Debug)]
pub struct ApplicationTermReport {
    pub function: String,
    pub argument: String,
    pub expected_domain: String,
    pub argument_domain: String,
    pub result: String,
    pub status: ApplicationStatus,
    pub max_trust: TrustLevel,
    pub max_provenance: Provenance,
    pub has_axiom_taint: bool,
    pub has_oracle_taint: bool,
    pub has_unsafe_taint: bool,
    pub fingerprint: String,
}

pub struct ApplicationTermReportV {
    pub function: Seq<char>,
    pub argument: Seq<char>,
    pub expected_domain: Seq<char>,
    pub argument_domain: Seq<char>,
    pub result: Seq<char>,
    pub status: ApplicationStatus,
    pub taint: TaintTuple,
    pub fingerprint: Seq<char>,
}

impl View for ApplicationTermReport {
    type V = ApplicationTermReportV;

    open spec fn view(&self) -> ApplicationTermReportV {
        ApplicationTermReportV {
            function: self.function@,
            argument: self.argument@,
            expected_domain: self.expected_domain@,
            argument_domain: self.argument_domain@,
            result: self.result@,
            status: self.status,
            taint: (self.max_trust, self.max_provenance, self.has_axiom_taint, self.has_oracle_taint, self.has_unsafe_taint),
            fingerprint: self.fingerprint@,
        }
    }
}

/// An error of the function layer.
pub open spec fn function_error_model(line: usize, message: Seq<char>, help: Seq<char>) -> DiagnosticV {
    error_with_help(DiagnosticKind::FunctionTermError, line, message, help)
}

fn function_error(line: usize, message: &str, help: &str) -> (r: Diagnostic)
    ensures
        r@ == function_error_model(line, message@, help@),
{
    Diagnostic::error(DiagnosticKind::FunctionTermError, Some(line), message).with_help(help)
}

/// The error for a text field: blank (with `blank_help`), or spread over lines (with `line_help`).
pub open spec fn text_error(text: Seq<char>, label: Seq<char>, blank_help: Seq<char>, line_help: Seq<char>, line: usize) -> Option<
    DiagnosticV,
> {
    if all_ws(text) {
        Some(function_error_model(line, label + " is empty"@, blank_help))
    } else if text.contains('\n') || text.contains('\r') {
        Some(function_error_model(line, label + " contains a newline"@, line_help))
    } else {
        None
    }
}

fn validate_text(text: &str, label: &str, blank_help: &str, line_help: &str, line: usize) -> (r: Result<(), Diagnostic>)
    ensures
        text_error(text@, label@, blank_help@, line_help@, line) == (match r {
            Ok(()) => None::<DiagnosticV>,
            Err(d) => Some(d@),
        }),
{
    if is_blank(text) {
        let mut msg = String::from_str(label);
        msg.append(" is empty");
        return Err(function_error(line, msg.as_str(), blank_help));
    }
    if has_line_break(text) {
        let mut msg = String::from_str(label);
        msg.append(" contains a newline");
        return Err(function_error(line, msg.as_str(), line_help));
    }
    Ok(())
}

fn taint_summary(sources: &[&Passport]) -> (r: TaintTuple)
    ensures
        r == sources_taint(refs_view(sources@)),
{
    let ghost sv = refs_view(sources@);
    let mut acc = (TrustLevel::Checked, Provenance::InternalLiteral, false, false, false);
    let mut i: usize = 0;
    assert(sv.take(0) =~= Seq::<PassportV>::empty());
    while i < sources.len()
        invariant
            sv == refs_view(sources@),
            i <= sources.len(),
            acc == sources_taint(sv.take(i as int)),
        decreases sources.len() - i,
    {
        assert(sv.take(i + 1).drop_last() =~= sv.take(i as int));
        assert(sv[i as int] == sources@[i as int]@);
        acc = taint_step(acc, sources[i]);
        i = i + 1;
    }
    assert(sv.take(i as int) =~= sv);
    acc
}

fn trust_part(t: TrustLevel) -> (r: String)
    ensures
        r@ == "trust="@ + t.debug_text(),
{
    let mut s = String::from_str("trust=");
    s.append(t.debug_str());
    s
}

fn flag_part(label: &str, b: bool) -> (r: String)
    ensures
        r@ == label@ + bool_text(b),
{
    let mut s = String::from_str(label);
    s.append(bool_str(b));
    s
}

/// What `function_type` gives.
pub open spec fn function_type_spec(
    domain: Seq<char>,
    codomain: Seq<char>,
    is_total: bool,
    is_pure: bool,
    sources: Seq<PassportV>,
    line: usize,
) -> Result<FunctionTypeReportV, DiagnosticV> {
    let blank_help = "function types require explicit domain and codomain"@;
    let line_help = "function type identities must remain single-line audit keys"@;
    if text_error(domain, "function domain"@, blank_help, line_help, line) is Some {
        Err(text_error(domain, "function domain"@, blank_help, line_help, line)->0)
    } else if text_error(codomain, "function codomain"@, blank_help, line_help, line) is Some {
        Err(text_error(codomain, "function codomain"@, blank_help, line_help, line)->0)
    } else {
        let t = sources_taint(sources);
        Ok(FunctionTypeReportV {
            domain,
            codomain,
            is_total,
            is_pure,
            taint: t,
            fingerprint: fingerprint_text(
                "fnv64:"@,
                seq![
                    "function-type-v1"@,
                    domain,
                    codomain,
                    "total="@ + bool_text(is_total),
                    "pure="@ + bool_text(is_pure),
                    "trust="@ + t.0.debug_text(),
                ],
            ),
        })
    }
}

pub fn function_type(domain: &str, codomain: &str, is_total: bool, is_pure: bool, sources: &[&Passport], line: usize) -> (r:
    Result<FunctionTypeReport, Diagnostic>)
    ensures
        function_type_spec(domain@, codomain@, is_total, is_pure, refs_view(sources@), line) == (match r {
            Ok(f) => Ok::<FunctionTypeReportV, DiagnosticV>(f@),
            Err(d) => Err::<FunctionTypeReportV, DiagnosticV>(d@),
        }),
{
    let blank_help = "function types require explicit domain and codomain";
    let line_help = "function type identities must remain single-line audit keys";
    match validate_text(domain, "function domain", blank_help, line_help, line) {
        Err(d) => return Err(d),
        Ok(()) => {},
    }
    match validate_text(codomain, "function codomain", blank_help, line_help, line) {
        Err(d) => return Err(d),
        Ok(()) => {},
    }
    let (max_trust, max_provenance, has_axiom_taint, has_oracle_taint, has_unsafe_taint) = taint_summary(sources);
    let mut parts: Vec<String> = Vec::new();
    parts.push(String::from_str("function-type-v1"));
    parts.push(String::from_str(domain));
    parts.push(String::from_str(codomain));
    parts.push(flag_part("total=", is_total));
    parts.push(flag_part("pure=", is_pure));
    parts.push(trust_part(max_trust));
    assert(strings_view(parts@) =~= seq![
        "function-type-v1"@,
        domain@,
        codomain@,
        "total="@ + bool_text(is_total),
        "pure="@ + bool_text(is_pure),
        "trust="@ + max_trust.debug_text(),
    ]);
    let fingerprint = stable_fingerprint("fnv64:", &parts);
    Ok(FunctionTypeReport {
        domain: String::from_str(domain),
        codomain: String::from_str(codomain),
        is_total,
        is_pure,
        max_trust,
        max_provenance,
        has_axiom_taint,
        has_oracle_taint,
        has_unsafe_taint,
        fingerprint,
    })
}

/// Where `x` goes among `s` (searching from `k`): before the first text that sorts after it.
pub open spec fn text_pos(s: Seq<Seq<char>>, x: Seq<char>, k: int) -> int
    decreases s.len() - k,
{
    if k < 0 || k >= s.len() {
        s.len() as int
    } else if text_lt(x, s[k]) {
        k
    } else {
        text_pos(s, x, k + 1)
    }
}

/// `s` with `x` inserted in order, unless it is already there.
pub open spec fn insert_text(s: Seq<Seq<char>>, x: Seq<char>) -> Seq<Seq<char>> {
    if s.contains(x) {
        s
    } else {
        s.insert(text_pos(s, x, 0), x)
    }
}

/// The distinct texts of `s`, sorted (what `sort` then `dedup` leave).
pub open spec fn sort_dedup(s: Seq<Seq<char>>) -> Seq<Seq<char>>
    decreases s.len(),
{
    if s.len() == 0 {
        s
    } else {
        insert_text(sort_dedup(s.drop_last()), s.last())
    }
}

/// Texts strictly increase along `s`.
pub open spec fn texts_strictly_sorted(s: Seq<Seq<char>>) -> bool {
    forall|i: int, j: int| 0 <= i < j < s.len() ==> text_lt(#[trigger] s[i], #[trigger] s[j])
}

proof fn lemma_text_pos(s: Seq<Seq<char>>, x: Seq<char>, k: int)
    requires
        0 <= k <= s.len(),
    ensures
        k <= text_pos(s, x, k) <= s.len(),
        forall|m: int| k <= m < text_pos(s, x, k) ==> !text_lt(x, #[trigger] s[m]),
        text_pos(s, x, k) < s.len() ==> text_lt(x, s[text_pos(s, x, k)]),
    decreases s.len() - k,
{
    if k < s.len() && !text_lt(x, s[k]) {
        lemma_text_pos(s, x, k + 1);
    }
}

proof fn lemma_insert_text(s: Seq<Seq<char>>, x: Seq<char>)
    requires
        texts_strictly_sorted(s),
    ensures
        texts_strictly_sorted(insert_text(s, x)),
        forall|y: Seq<char>| insert_text(s, x).contains(y) <==> (s.contains(y) || y == x),
{
    if !s.contains(x) {
        let p = text_pos(s, x, 0);
        lemma_text_pos(s, x, 0);
        let t = s.insert(p, x);
        s.insert_ensures(p, x);
        assert forall|m: int| 0 <= m < p implies text_lt(#[trigger] s[m], x) by {
            assert(s.contains(s[m]));
            lemma_text_lt_total(s[m], x);
        }
        assert forall|m: int| p <= m < s.len() implies text_lt(x, #[trigger] s[m]) by {
            if m > p {
                lemma_text_lt_transitive(x, s[p], s[m]);
            }
        }
        assert forall|i: int, j: int| 0 <= i < j < t.len() implies text_lt(#[trigger] t[i], #[trigger] t[j]) by {
            if j < p {
                assert(t[i] == s[i] && t[j] == s[j]);
            } else if j == p {
                assert(t[i] == s[i]);
            } else if i < p {
                assert(t[i] == s[i] && t[j] == s[j - 1]);
                lemma_text_lt_transitive(s[i], x, s[j - 1]);
            } else if i == p {
                assert(t[j] == s[j - 1]);
            } else {
                assert(t[i] == s[i - 1] && t[j] == s[j - 1]);
            }
        }
        assert forall|y: Seq<char>| t.contains(y) <==> (s.contains(y) || y == x) by {
            if t.contains(y) {
                let k = choose|k: int| 0 <= k < t.len() && t[k] == y;
                if k < p {
                    assert(s[k] == y);
                } else if k > p {
                    assert(s[k - 1] == y);
                }
            }
            if s.contains(y) {
                let j = choose|j: int| 0 <= j < s.len() && s[j] == y;
                if j < p {
                    assert(t[j] == y);
                } else {
                    assert(t[j + 1] == y);
                }
            }
            if y == x {
                assert(t[p] == y);
            }
        }
    }
}

/// The texts that `sort` then `dedup` leave are strictly sorted and are the
/// texts of the input, each once.
pub proof fn lemma_sort_dedup(s: Seq<Seq<char>>)
    ensures
        texts_strictly_sorted(sort_dedup(s)),
        forall|y: Seq<char>| sort_dedup(s).contains(y) <==> s.contains(y),
    decreases s.len(),
{
    if s.len() > 0 {
        lemma_sort_dedup(s.drop_last());
        lemma_insert_text(sort_dedup(s.drop_last()), s.last());
        assert forall|y: Seq<char>| sort_dedup(s).contains(y) <==> s.contains(y) by {
            if s.drop_last().contains(y) {
                let j = choose|j: int| 0 <= j < s.drop_last().len() && s.drop_last()[j] == y;
                assert(s[j] == y);
            }
            if s.contains(y) && y != s.last() {
                let j = choose|j: int| 0 <= j < s.len() && s[j] == y;
                assert(s.drop_last()[j] == y);
            }
            if y == s.last() {
                assert(s[s.len() - 1] == y);
            }
        }
    }
}

fn contains_text_at(v: &Vec<String>, x: &str) -> (r: bool)
    ensures
        r == strings_view(v@).contains(x@),
{
    let ghost sv = strings_view(v@);
    let mut i: usize = 0;
    while i < v.len()
        invariant
            sv == strings_view(v@),
            i <= v.len(),
            forall|k: int| 0 <= k < i ==> sv[k] != x@,
        decreases v.len() - i,
    {
        if str_eq(v[i].as_str(), x) {
            assert(sv[i as int] == x@);
            return true;
        }
        i = i + 1;
    }
    false
}

fn sort_dedup_strings(v: &Vec<String>) -> (r: Vec<String>)
    ensures
        strings_view(r@) == sort_dedup(strings_view(v@)),
{
    let ghost s = strings_view(v@);
    let mut out: Vec<String> = Vec::new();
    let mut i: usize = 0;
    assert(s.take(0) =~= Seq::<Seq<char>>::empty());
    while i < v.len()
        invariant
            s == strings_view(v@),
            i <= v.len(),
            strings_view(out@) == sort_dedup(s.take(i as int)),
        decreases v.len() - i,
    {
        assert(s.take(i + 1).drop_last() =~= s.take(i as int));
        assert(s.take(i + 1).last() == v@[i as int]@);
        let ghost ov = strings_view(out@);
        if !contains_text_at(&out, v[i].as_str()) {
            let mut k: usize = 0;
            while k < out.len() && !name_lt(v[i].as_str(), out[k].as_str())
                invariant
                    ov == strings_view(out@),
                    k <= out.len(),
                    i < v.len(),
                    text_pos(ov, v@[i as int]@, 0) == text_pos(ov, v@[i as int]@, k as int),
                decreases out.len() - k,
            {
                k = k + 1;
            }
            out.insert(k, v[i].clone());
            assert(strings_view(out@) =~= ov.insert(k as int, v@[i as int]@));
        }
        i = i + 1;
    }
    assert(s.take(i as int) =~= s);
    out
}

/// The `Debug` text of a list of strings: `["a", "b"]`.
pub open spec fn texts_debug_text(s: Seq<Seq<char>>) -> Seq<char> {
    "["@ + join_text(s.map_values(|t: Seq<char>| str_debug_text(t)), ", "@) + "]"@
}

fn strings_debug(v: &Vec<String>) -> (r: String)
    ensures
        r@ == texts_debug_text(strings_view(v@)),
{
    let ghost items = strings_view(v@).map_values(|t: Seq<char>| str_debug_text(t));
    let mut inner = String::new();
    let mut i: usize = 0;
    assert(items.take(0) =~= Seq::<Seq<char>>::empty());
    while i < v.len()
        invariant
            items == strings_view(v@).map_values(|t: Seq<char>| str_debug_text(t)),
            i <= v.len(),
            inner@ == join_text(items.take(i as int), ", "@),
        decreases v.len() - i,
    {
        assert(items.take(i + 1).drop_last() =~= items.take(i as int));
        let q = debug_quoted(v[i].as_str());
        if i > 0 {
            inner.append(", ");
        }
        inner.append(q.as_str());
        i = i + 1;
    }
    assert(items.take(i as int) =~= items);
    let mut out = String::from_str("[");
    out.append(inner.as_str());
    out.append("]");
    out
}

/// The error for a capture: not an identifier, or the parameter's own name.
pub open spec fn capture_error(c: Seq<char>, parameter: Seq<char>, line: usize) -> Option<DiagnosticV> {
    if c.len() == 0 {
        Some(function_error_model(line, "lambda capture is empty"@, "identifiers must be explicit"@))
    } else if !is_ident(c) {
        Some(function_error_model(line, "invalid lambda capture `"@ + c + "`"@, "identifiers must use MVP ASCII identifier syntax"@))
    } else if c == parameter {
        Some(function_error_model(
            line,
            "lambda capture `"@ + c + "` is shadowed by the parameter"@,
            "captured variables and bound parameters must remain separate; otherwise substitution/application would be ambiguous"@,
        ))
    } else {
        None
    }
}

/// The first capture error among the first `n` captures.
pub open spec fn captures_error(cs: Seq<Seq<char>>, parameter: Seq<char>, line: usize, n: int) -> Option<DiagnosticV>
    decreases n,
{
    if n <= 0 {
        None
    } else {
        match captures_error(cs, parameter, line, n - 1) {
            Some(d) => Some(d),
            None => capture_error(cs[n - 1], parameter, line),
        }
    }
}

proof fn lemma_captures_error_stays(cs: Seq<Seq<char>>, parameter: Seq<char>, line: usize, m: int, n: int)
    requires
        0 <= m <= n,
        captures_error(cs, parameter, line, m) is Some,
    ensures
        captures_error(cs, parameter, line, n) == captures_error(cs, parameter, line, m),
    decreases n - m,
{
    if m < n {
        lemma_captures_error_stays(cs, parameter, line, m, n - 1);
    }
}

fn check_capture(c: &str, parameter: &str, line: usize) -> (r: Result<(), Diagnostic>)
    ensures
        capture_error(c@, parameter@, line) == (match r {
            Ok(()) => None::<DiagnosticV>,
            Err(d) => Some(d@),
        }),
{
    let cs = chars_of(c);
    proof {
        assert(cs@.subrange(0, cs@.len() as int) =~= c@);
    }
    if cs.len() == 0 {
        return Err(function_error(line, "lambda capture is empty", "identifiers must be explicit"));
    }
    if !ident_range(&cs, 0, cs.len()) {
        let mut msg = String::from_str("invalid lambda capture `");
        msg.append(c);
        msg.append("`");
        return Err(function_error(line, msg.as_str(), "identifiers must use MVP ASCII identifier syntax"));
    }
    if str_eq(c, parameter) {
        let mut msg = String::from_str("lambda capture `");
        msg.append(c);
        msg.append("` is shadowed by the parameter");
        return Err(function_error(
            line,
            msg.as_str(),
            "captured variables and bound parameters must remain separate; otherwise substitution/application would be ambiguous",
        ));
    }
    Ok(())
}

/// The parts a lambda's fingerprint is taken over.
pub open spec fn lambda_parts(p: BoundVariableV, codomain: Seq<char>, body: Seq<char>, caps: Seq<Seq<char>>, is_total: bool, is_pure: bool, t: TrustLevel) -> Seq<
    Seq<char>,
> {
    seq![
        "lambda-term-v1"@,
        p.name,
        p.domain,
        codomain,
        body,
        "captures="@ + texts_debug_text(caps),
        "total="@ + bool_text(is_total),
        "pure="@ + bool_text(is_pure),
        "trust="@ + t.debug_text(),
    ]
}

/// The taint of the sources joined with that of the declared type.
pub open spec fn join_tuple(a: TaintTuple, b: TaintTuple) -> TaintTuple {
    (a.0.higher(b.0), a.1.higher(b.1), a.2 || b.2, a.3 || b.3, a.4 || b.4)
}

/// What `lambda_term` gives: the body must be one non-blank line, the parameter
/// must live in the declared domain, and every capture (sorted, each once) must be
/// an identifier other than the parameter.
pub open spec fn lambda_term_spec(
    p: BoundVariableV,
    body: Seq<char>,
    ft: FunctionTypeReportV,
    captures: Seq<Seq<char>>,
    sources: Seq<PassportV>,
    line: usize,
) -> Result<LambdaTermReportV, DiagnosticV> {
    let blank_help = "function/lambda formulas must have explicit textual identity"@;
    let line_help = "formula identities must remain stable single-line audit keys in this MVP"@;
    let caps = sort_dedup(captures);
    if text_error(body, "lambda body"@, blank_help, line_help, line) is Some {
        Err(text_error(body, "lambda body"@, blank_help, line_help, line)->0)
    } else if p.domain != ft.domain {
        Err(function_error_model(
            line,
            "lambda parameter `"@ + p.name + "` has domain `"@ + p.domain + "`, but declared function domain is `"@ + ft.domain + "`"@,
            "lambda terms must expose their domain/codomain contract before application can be checked"@,
        ))
    } else if captures_error(caps, p.name, line, caps.len() as int) is Some {
        Err(captures_error(caps, p.name, line, caps.len() as int)->0)
    } else {
        let t = join_tuple(sources_taint(sources), ft.taint);
        Ok(LambdaTermReportV {
            parameter: p,
            body,
            domain: ft.domain,
            codomain: ft.codomain,
            captures: caps,
            is_total: ft.is_total,
            is_pure: ft.is_pure,
            taint: t,
            fingerprint: fingerprint_text("fnv64:"@, lambda_parts(p, ft.codomain, body, caps, ft.is_total, ft.is_pure, t.0)),
        })
    }
}

pub fn lambda_term(
    parameter: BoundVariable,
    body: &str,
    declared_type: &FunctionTypeReport,
    captures: Vec<String>,
    sources: &[&Passport],
    line: usize,
) -> (r: Result<LambdaTermReport, Diagnostic>)
    ensures
        lambda_term_spec(parameter@, body@, declared_type@, strings_view(captures@), refs_view(sources@), line) == (match r {
            Ok(l) => Ok::<LambdaTermReportV, DiagnosticV>(l@),
            Err(d) => Err::<LambdaTermReportV, DiagnosticV>(d@),
        }),
{
    match validate_text(
        body,
        "lambda body",
        "function/lambda formulas must have explicit textual identity",
        "formula identities must remain stable single-line audit keys in this MVP",
        line,
    ) {
        Err(d) => return Err(d),
        Ok(()) => {},
    }
    if !str_eq(parameter.domain.as_str(), declared_type.domain.as_str()) {
        let mut msg = String::from_str("lambda parameter `");
        msg.append(parameter.name.as_str());
        msg.append("` has domain `");
        msg.append(parameter.domain.as_str());
        msg.append("`, but declared function domain is `");
        msg.append(declared_type.domain.as_str());
        msg.append("`");
        return Err(function_error(
            line,
            msg.as_str(),
            "lambda terms must expose their domain/codomain contract before application can be checked",
        ));
    }
    let caps = sort_dedup_strings(&captures);
    let ghost cv = strings_view(caps@);
    let mut i: usize = 0;
    while i < caps.len()
        invariant
            cv == strings_view(caps@),
            cv == sort_dedup(strings_view(captures@)),
            i <= caps.len(),
            captures_error(cv, parameter@.name, line, i as int) is None,
            text_error(
                body@,
                "lambda body"@,
                "function/lambda formulas must have explicit textual identity"@,
                "formula identities must remain stable single-line audit keys in this MVP"@,
                line,
            ) is None,
            parameter@.domain == declared_type@.domain,
        decreases caps.len() - i,
    {
        match check_capture(caps[i].as_str(), parameter.name.as_str(), line) {
            Err(d) => {
                proof {
                    assert(captures_error(cv, parameter@.name, line, i + 1) == Some(d@));
                    lemma_captures_error_stays(cv, parameter@.name, line, i + 1, cv.len() as int);
                }
                return Err(d);
            },
            Ok(()) => {},
        }
        i = i + 1;
    }
    let (t0, p0, a0, o0, u0) = taint_summary(sources);
    let max_trust = t0.higher(declared_type.max_trust);
    let max_provenance = p0.higher(declared_type.max_provenance);
    let has_axiom_taint = a0 || declared_type.has_axiom_taint;
    let has_oracle_taint = o0 || declared_type.has_oracle_taint;
    let has_unsafe_taint = u0 || declared_type.has_unsafe_taint;
    let mut parts: Vec<String> = Vec::new();
    parts.push(String::from_str("lambda-term-v1"));
    parts.push(parameter.name.clone());
    parts.push(parameter.domain.clone());
    parts.push(declared_type.codomain.clone());
    parts.push(String::from_str(body));
    let mut cp = String::from_str("captures=");
    cp.append(strings_debug(&caps).as_str());
    parts.push(cp);
    parts.push(flag_part("total=", declared_type.is_total));
    parts.push(flag_part("pure=", declared_type.is_pure));
    parts.push(trust_part(max_trust));
    assert(strings_view(parts@) =~= lambda_parts(
        parameter@,
        declared_type@.codomain,
        body@,
        cv,
        declared_type.is_total,
        declared_type.is_pure,
        max_trust,
    ));
    let fingerprint = stable_fingerprint("fnv64:", &parts);
    Ok(LambdaTermReport {
        parameter,
        body: String::from_str(body),
        domain: declared_type.domain.clone(),
        codomain: declared_type.codomain.clone(),
        captures: caps,
        is_total: declared_type.is_total,
        is_pure: declared_type.is_pure,
        max_trust,
        max_provenance,
        has_axiom_taint,
        has_oracle_taint,
        has_unsafe_taint,
        fingerprint,
    })
}

/// The function an application applies: its name, domain and codomain, or the
/// error for a passport that is no ordinary function.
pub open spec fn function_descriptor(p: PassportV, line: usize) -> Result<(Seq<char>, Seq<char>, Seq<char>), DiagnosticV> {
    match p.ty {
        TypeKindV::FunctionType { domain, codomain } => Ok(("fn:"@ + domain + "->"@ + codomain, domain, codomain)),
        TypeKindV::LambdaTerm { parameter, domain, body } => Ok((
            "lambda:"@ + parameter + ":"@ + domain + ". "@ + body,
            domain,
            "Unknown"@,
        )),
        TypeKindV::Theorem { .. }
        | TypeKindV::Statement { .. }
        | TypeKindV::Goal { .. }
        | TypeKindV::Hypothesis { .. }
        | TypeKindV::StaticProof(_)
        | TypeKindV::ProofTerm { .. }
        | TypeKindV::RuntimeWitness(_)
        | TypeKindV::Provable { .. }
        | TypeKindV::TruthClaim { .. }
        | TypeKindV::ReflectionClaim { .. }
        | TypeKindV::SelfReferenceClaim { .. }
        | TypeKindV::ConsistencyClaim { .. } => Err(function_error_model(
            line,
            type_text(p.ty) + " cannot be used as an ordinary function"@,
            "function application must not silently consume theorem/proof/truth/provability/runtime/reflection evidence"@,
        )),
        _ => Err(function_error_model(
            line,
            type_text(p.ty) + " is not a function passport"@,
            "use FunctionType or LambdaTerm as the ordinary function/application source"@,
        )),
    }
}

fn function_descriptor_from_passport(passport: &Passport, line: usize) -> (r: Result<(String, String, String), Diagnostic>)
    ensures
        function_descriptor(passport@, line) == (match r {
            Ok((n, d, c)) => Ok::<(Seq<char>, Seq<char>, Seq<char>), DiagnosticV>((n@, d@, c@)),
            Err(e) => Err::<(Seq<char>, Seq<char>, Seq<char>), DiagnosticV>(e@),
        }),
{
    match &passport.ty {
        TypeKind::FunctionType { domain, codomain } => {
            let mut f = String::from_str("fn:");
            f.append(domain.as_str());
            f.append("->");
            f.append(codomain.as_str());
            Ok((f, domain.clone(), codomain.clone()))
        },
        TypeKind::LambdaTerm { parameter, domain, body } => {
            let mut f = String::from_str("lambda:");
            f.append(parameter.as_str());
            f.append(":");
            f.append(domain.as_str());
            f.append(". ");
            f.append(body.as_str());
            Ok((f, domain.clone(), String::from_str("Unknown")))
        },
        TypeKind::Theorem { .. }
        | TypeKind::Statement { .. }
        | TypeKind::Goal { .. }
        | TypeKind::Hypothesis { .. }
        | TypeKind::StaticProof(_)
        | TypeKind::ProofTerm { .. }
        | TypeKind::RuntimeWitness(_)
        | TypeKind::Provable { .. }
        | TypeKind::TruthClaim { .. }
        | TypeKind::ReflectionClaim { .. }
        | TypeKind::SelfReferenceClaim { .. }
        | TypeKind::ConsistencyClaim { .. } => {
            let mut msg = passport.ty.to_text();
            msg.append(" cannot be used as an ordinary function");
            Err(function_error(
                line,
                msg.as_str(),
                "function application must not silently consume theorem/proof/truth/provability/runtime/reflection evidence",
            ))
        },
        _ => {
            let mut msg = passport.ty.to_text();
            msg.append(" is not a function passport");
            Err(function_error(line, msg.as_str(), "use FunctionType or LambdaTerm as the ordinary function/application source"))
        },
    }
}

/// Whether a passport is proof- or truth-like evidence that no function may take.
pub open spec fn is_forbidden_argument(t: TypeKindV) -> bool {
    match t {
        TypeKindV::StaticProof(_)
        | TypeKindV::ProofTerm { .. }
        | TypeKindV::RuntimeWitness(_)
        | TypeKindV::Provable { .. }
        | TypeKindV::TruthClaim { .. }
        | TypeKindV::ReflectionClaim { .. }
        | TypeKindV::SelfReferenceClaim { .. }
        | TypeKindV::ConsistencyClaim { .. }
        | TypeKindV::Theorem { .. } => true,
        _ => false,
    }
}

fn forbidden_argument(t: &TypeKind) -> (r: bool)
    ensures
        r == is_forbidden_argument(t@),
{
    match t {
        TypeKind::StaticProof(_)
        | TypeKind::ProofTerm { .. }
        | TypeKind::RuntimeWitness(_)
        | TypeKind::Provable { .. }
        | TypeKind::TruthClaim { .. }
        | TypeKind::ReflectionClaim { .. }
        | TypeKind::SelfReferenceClaim { .. }
        | TypeKind::ConsistencyClaim { .. }
        | TypeKind::Theorem { .. } => true,
        _ => false,
    }
}

/// The domain an argument belongs to.
pub open spec fn value_domain(t: TypeKindV) -> Seq<char> {
    match t {
        TypeKindV::Nat => "Nat"@,
        TypeKindV::Bool => "Bool"@,
        TypeKindV::Bytes => "Bytes"@,
        TypeKindV::Text => "Text"@,
        TypeKindV::Prop { .. } => "Prop"@,
        TypeKindV::LogicalFormula { .. } | TypeKindV::QuantifiedFormula { .. } => "Prop"@,
        TypeKindV::FunctionType { domain, codomain } => "FunctionType<"@ + domain + "->"@ + codomain + ">"@,
        TypeKindV::LambdaTerm { domain, .. } => "LambdaTerm<"@ + domain + ">"@,
        _ => type_text(t),
    }
}

fn value_domain_from_passport(passport: &Passport) -> (r: String)
    ensures
        r@ == value_domain(passport@.ty),
{
    match &passport.ty {
        TypeKind::Nat => String::from_str("Nat"),
        TypeKind::Bool => String::from_str("Bool"),
        TypeKind::Bytes => String::from_str("Bytes"),
        TypeKind::Text => String::from_str("Text"),
        TypeKind::Prop { .. } => String::from_str("Prop"),
        TypeKind::LogicalFormula { .. } | TypeKind::QuantifiedFormula { .. } => String::from_str("Prop"),
        TypeKind::FunctionType { domain, codomain } => {
            let mut s = String::from_str("FunctionType<");
            s.append(domain.as_str());
            s.append("->");
            s.append(codomain.as_str());
            s.append(">");
            s
        },
        TypeKind::LambdaTerm { domain, .. } => {
            let mut s = String::from_str("LambdaTerm<");
            s.append(domain.as_str());
            s.append(">");
            s
        },
        _ => passport.ty.to_text(),
    }
}

/// The parts an application's fingerprint is taken over.
pub open spec fn application_parts(
    name: Seq<char>,
    argument: Seq<char>,
    domain: Seq<char>,
    argument_domain: Seq<char>,
    codomain: Seq<char>,
    status: ApplicationStatus,
    t: TrustLevel,
) -> Seq<Seq<char>> {
    seq![
        "application-term-v1"@,
        name,
        argument,
        domain,
        argument_domain,
        codomain,
        status.display_text(),
        "trust="@ + t.debug_text(),
    ]
}

/// What `application_term` gives: applied when the argument's domain is the
/// function's domain, a rejected application otherwise.
pub open spec fn application_term_spec(f: PassportV, a: PassportV, argument: Seq<char>, line: usize) -> Result<
    ApplicationTermReportV,
    DiagnosticV,
> {
    let blank_help = "application terms require explicit argument identity"@;
    let line_help = "application identities must remain stable single-line audit keys"@;
    if text_error(argument, "application argument"@, blank_help, line_help, line) is Some {
        Err(text_error(argument, "application argument"@, blank_help, line_help, line)->0)
    } else if function_descriptor(f, line) is Err {
        Err(function_descriptor(f, line)->Err_0)
    } else if is_forbidden_argument(a.ty) {
        Err(function_error_model(
            line,
            type_text(a.ty) + " cannot be used as an ordinary function argument"@,
            "proof/theorem/truth-like evidence must enter ordinary mathematics through explicit proof-kernel or extraction rules"@,
        ))
    } else {
        let (name, domain, codomain) = function_descriptor(f, line)->Ok_0;
        let ad = value_domain(a.ty);
        let status = if domain == ad { ApplicationStatus::Applied } else { ApplicationStatus::RejectedDomainMismatch };
        let t = sources_taint(seq![f, a]);
        Ok(ApplicationTermReportV {
            function: name,
            argument,
            expected_domain: domain,
            argument_domain: ad,
            result: if status == ApplicationStatus::Applied {
                name + "("@ + argument + ") : "@ + codomain
            } else {
                "rejected("@ + name + "("@ + argument + "))"@
            },
            status,
            taint: t,
            fingerprint: fingerprint_text("fnv64:"@, application_parts(name, argument, domain, ad, codomain, status, t.0)),
        })
    }
}

pub fn application_term(function: &Passport, argument: &Passport, argument_repr: &str, line: usize) -> (r: Result<
    ApplicationTermReport,
    Diagnostic,
>)
    ensures
        application_term_spec(function@, argument@, argument_repr@, line) == (match r {
            Ok(a) => Ok::<ApplicationTermReportV, DiagnosticV>(a@),
            Err(d) => Err::<ApplicationTermReportV, DiagnosticV>(d@),
        }),
{
    match validate_text(
        argument_repr,
        "application argument",
        "application terms require explicit argument identity",
        "application identities must remain stable single-line audit keys",
        line,
    ) {
        Err(d) => return Err(d),
        Ok(()) => {},
    }
    let (name, domain, codomain) = match function_descriptor_from_passport(function, line) {
        Ok(x) => x,
        Err(d) => return Err(d),
    };
    let argument_domain = value_domain_from_passport(argument);
    if forbidden_argument(&argument.ty) {
        let mut msg = argument.ty.to_text();
        msg.append(" cannot be used as an ordinary function argument");
        return Err(function_error(
            line,
            msg.as_str(),
            "proof/theorem/truth-like evidence must enter ordinary mathematics through explicit proof-kernel or extraction rules",
        ));
    }
    let status = if str_eq(domain.as_str(), argument_domain.as_str()) {
        ApplicationStatus::Applied
    } else {
        ApplicationStatus::RejectedDomainMismatch
    };
    let result = if str_eq(domain.as_str(), argument_domain.as_str()) {
        let mut s = name.clone();
        s.append("(");
        s.append(argument_repr);
        s.append(") : ");
        s.append(codomain.as_str());
        s
    } else {
        let mut s = String::from_str("rejected(");
        s.append(name.as_str());
        s.append("(");
        s.append(argument_repr);
        s.append("))");
        s
    };
    let init = (TrustLevel::Checked, Provenance::InternalLiteral, false, false, false);
    let t1 = taint_step(init, function);
    let (max_trust, max_provenance, has_axiom_taint, has_oracle_taint, has_unsafe_taint) = taint_step(t1, argument);
    proof {
        let two = seq![function@, argument@];
        assert(two.drop_last() =~= seq![function@]);
        assert(seq![function@].drop_last() =~= Seq::<PassportV>::empty());
        assert(seq![function@].last() == function@);
        assert(two.last() == argument@);
        assert(sources_taint(Seq::<PassportV>::empty()) == init);
        assert(sources_taint(seq![function@]) == t1);
    }
    let mut parts: Vec<String> = Vec::new();
    parts.push(String::from_str("application-term-v1"));
    parts.push(name.clone());
    parts.push(String::from_str(argument_repr));
    parts.push(domain.clone());
    parts.push(argument_domain.clone());
    parts.push(codomain.clone());
    parts.push(String::from_str(status.display_str()));
    parts.push(trust_part(max_trust));
    assert(strings_view(parts@) =~= application_parts(name@, argument_repr@, domain@, argument_domain@, codomain@, status, max_trust));
    let fingerprint = stable_fingerprint("fnv64:", &parts);
    Ok(ApplicationTermReport {
        function: name,
        argument: String::from_str(argument_repr),
        expected_domain: domain,
        argument_domain,
        result,
        status,
        max_trust,
        max_provenance,
        has_axiom_taint,
        has_oracle_taint,
        has_unsafe_taint,
        fingerprint,
    })
}

pub fn require_function_type(passport: &Passport, line: usize) -> (r: Result<(String, String), Diagnostic>)
    ensures
        (match passport@.ty {
            TypeKindV::FunctionType { domain, codomain } => Ok::<(Seq<char>, Seq<char>), DiagnosticV>((domain, codomain)),
            _ => Err::<(Seq<char>, Seq<char>), DiagnosticV>(function_error_model(
                line,
                "expected FunctionType, got "@ + type_text(passport@.ty),
                "ordinary function type objects are not theorems, proofs or runtime witnesses"@,
            )),
        }) == (match r {
            Ok((d, c)) => Ok::<(Seq<char>, Seq<char>), DiagnosticV>((d@, c@)),
            Err(e) => Err::<(Seq<char>, Seq<char>), DiagnosticV>(e@),
        }),
{
    match &passport.ty {
        TypeKind::FunctionType { domain, codomain } => Ok((domain.clone(), codomain.clone())),
        _ => {
            let mut msg = String::from_str("expected FunctionType, got ");
            msg.append(passport.ty.to_text().as_str());
            Err(function_error(line, msg.as_str(), "ordinary function type objects are not theorems, proofs or runtime witnesses"))
        },
    }
}

pub fn require_lambda_term(passport: &Passport, line: usize) -> (r: Result<(String, String, String), Diagnostic>)
    ensures
        (match passport@.ty {
            TypeKindV::LambdaTerm { parameter, domain, body } => Ok::<(Seq<char>, Seq<char>, Seq<char>), DiagnosticV>(
                (parameter, domain, body),
            ),
            _ => Err::<(Seq<char>, Seq<char>, Seq<char>), DiagnosticV>(function_error_model(
                line,
                "expected LambdaTerm, got "@ + type_text(passport@.ty),
                "lambda terms are function terms; applying proof/theorem/truth objects requires explicit proof-kernel rules, not function application"@,
            )),
        }) == (match r {
            Ok((p, d, b)) => Ok::<(Seq<char>, Seq<char>, Seq<char>), DiagnosticV>((p@, d@, b@)),
            Err(e) => Err::<(Seq<char>, Seq<char>, Seq<char>), DiagnosticV>(e@),
        }),
{
    match &passport.ty {
        TypeKind::LambdaTerm { parameter, domain, body } => Ok((parameter.clone(), domain.clone(), body.clone())),
        _ => {
            let mut msg = String::from_str("expected LambdaTerm, got ");
            msg.append(passport.ty.to_text().as_str());
            Err(function_error(
                line,
                msg.as_str(),
                "lambda terms are function terms; applying proof/theorem/truth objects requires explicit proof-kernel rules, not function application",
            ))
        },
    }
}

pub fn function_type_passport(theory: &str, report: &FunctionTypeReport, sources: &[&Passport]) -> (r: Passport)
    ensures
        r@ == formula_passport_model(
            theory@,
            TypeKindV::FunctionType { domain: report@.domain, codomain: report@.codomain },
            report.max_trust,
            report.max_provenance,
            concat_histories(ref_histories(sources@)).push(
                "function:type:"@ + report@.domain + "->"@ + report@.codomain + ":fingerprint="@ + report@.fingerprint,
            ),
        ),
{
    let mut ev = String::from_str("function:type:");
    ev.append(report.domain.as_str());
    ev.append("->");
    ev.append(report.codomain.as_str());
    ev.append(":fingerprint=");
    ev.append(report.fingerprint.as_str());
    let history = HistoryChain::merge_refs(sources, ev.as_str());
    formula_passport(
        theory,
        TypeKind::FunctionType { domain: report.domain.clone(), codomain: report.codomain.clone() },
        report.max_trust,
        report.max_provenance,
        history,
    )
}

pub fn lambda_term_passport(theory: &str, report: &LambdaTermReport, sources: &[&Passport]) -> (r: Passport)
    ensures
        r@ == formula_passport_model(
            theory@,
            TypeKindV::LambdaTerm { parameter: report@.parameter.name, domain: report@.domain, body: report@.body },
            report.max_trust,
            report.max_provenance,
            concat_histories(ref_histories(sources@)).push(
                "function:lambda:"@ + report@.parameter.name + ":"@ + report@.domain + "->"@ + report@.codomain + ":fingerprint="@
                    + report@.fingerprint,
            ),
        ),
{
    let mut ev = String::from_str("function:lambda:");
    ev.append(report.parameter.name.as_str());
    ev.append(":");
    ev.append(report.domain.as_str());
    ev.append("->");
    ev.append(report.codomain.as_str());
    ev.append(":fingerprint=");
    ev.append(report.fingerprint.as_str());
    let history = HistoryChain::merge_refs(sources, ev.as_str());
    formula_passport(
        theory,
        TypeKind::LambdaTerm {
            parameter: report.parameter.name.clone(),
            domain: report.domain.clone(),
            body: report.body.clone(),
        },
        report.max_trust,
        report.max_provenance,
        history,
    )
}

pub fn application_term_passport(theory: &str, report: &ApplicationTermReport, sources: &[&Passport]) -> (r: Passport)
    ensures
        r@ == formula_passport_model(
            theory@,
            TypeKindV::ApplicationTerm {
                function: report@.function,
                argument: report@.argument,
                result: report@.result,
                status: report@.status.display_text(),
            },
            report.max_trust,
            report.max_provenance,
            concat_histories(ref_histories(sources@)).push(
                "function:application:"@ + report@.status.display_text() + ":fingerprint="@ + report@.fingerprint,
            ),
        ),
{
    let mut ev = String::from_str("function:application:");
    ev.append(report.status.display_str());
    ev.append(":fingerprint=");
    ev.append(report.fingerprint.as_str());
    let history = HistoryChain::merge_refs(sources, ev.as_str());
    formula_passport(
        theory,
        TypeKind::ApplicationTerm {
            function: report.function.clone(),
            argument: report.argument.clone(),
            result: report.result.clone(),
            status: String::from_str(report.status.display_str()),
        },
        report.max_trust,
        report.max_provenance,
        history,
    )
}

/// The taint lines shared by the exports.
pub open spec fn taint_lines(t: TaintTuple, fingerprint: Seq<char>) -> Seq<char> {
    "max_trust: "@ + t.0.debug_text() + "\n"@ + "has_axiom_taint: "@ + bool_text(t.2) + "\n"@ + "has_oracle_taint: "@ + bool_text(t.3)
        + "\n"@ + "has_unsafe_taint: "@ + bool_text(t.4) + "\n"@ + "fingerprint: "@ + fingerprint + "\n"@
}

fn append_taint_lines(out: &mut String, t: TaintTuple, fingerprint: &str)
    ensures
        final(out)@ == old(out)@ + taint_lines(t, fingerprint@),
{
    let mut s = String::from_str("max_trust: ");
    s.append(t.0.debug_str());
    s.append("\n");
    s.append("has_axiom_taint: ");
    s.append(bool_str(t.2));
    s.append("\n");
    s.append("has_oracle_taint: ");
    s.append(bool_str(t.3));
    s.append("\n");
    s.append("has_unsafe_taint: ");
    s.append(bool_str(t.4));
    s.append("\n");
    s.append("fingerprint: ");
    s.append(fingerprint);
    s.append("\n");
    out.append(s.as_str());
}

/// The export text of a function type.
pub open spec fn function_type_text(r: FunctionTypeReportV) -> Seq<char> {
    "function_type_report: v1\n"@ + "domain: "@ + r.domain + "\n"@ + "codomain: "@ + r.codomain + "\n"@ + "total: "@ + bool_text(
        r.is_total,
    ) + "\n"@ + "pure: "@ + bool_text(r.is_pure) + "\n"@ + taint_lines(r.taint, r.fingerprint)
}

pub fn export_function_type(report: &FunctionTypeReport) -> (r: String)
    ensures
        r@ == function_type_text(report@),
{
    let mut out = String::from_str("function_type_report: v1\n");
    out.append("domain: ");
    out.append(report.domain.as_str());
    out.append("\n");
    out.append("codomain: ");
    out.append(report.codomain.as_str());
    out.append("\n");
    out.append("total: ");
    out.append(bool_str(report.is_total));
    out.append("\n");
    out.append("pure: ");
    out.append(bool_str(report.is_pure));
    out.append("\n");
    append_taint_lines(
        &mut out,
        (report.max_trust, report.max_provenance, report.has_axiom_taint, report.has_oracle_taint, report.has_unsafe_taint),
        report.fingerprint.as_str(),
    );
    out
}

/// The export text of a lambda term.
pub open spec fn lambda_term_text(r: LambdaTermReportV) -> Seq<char> {
    "lambda_term_report: v1\n"@ + "parameter: "@ + r.parameter.name + "\n"@ + "domain: "@ + r.domain + "\n"@ + "codomain: "@
        + r.codomain + "\n"@ + "body: "@ + r.body + "\n"@ + "captures: "@ + texts_debug_text(r.captures) + "\n"@ + "total: "@
        + bool_text(r.is_total) + "\n"@ + "pure: "@ + bool_text(r.is_pure) + "\n"@ + taint_lines(r.taint, r.fingerprint)
}

pub fn export_lambda_term(report: &LambdaTermReport) -> (r: String)
    ensures
        r@ == lambda_term_text(report@),
{
    let mut out = String::from_str("lambda_term_report: v1\n");
    out.append("parameter: ");
    out.append(report.parameter.name.as_str());
    out.append("\n");
    out.append("domain: ");
    out.append(report.domain.as_str());
    out.append("\n");
    out.append("codomain: ");
    out.append(report.codomain.as_str());
    out.append("\n");
    out.append("body: ");
    out.append(report.body.as_str());
    out.append("\n");
    out.append("captures: ");
    out.append(strings_debug(&report.captures).as_str());
    out.append("\n");
    out.append("total: ");
    out.append(bool_str(report.is_total));
    out.append("\n");
    out.append("pure: ");
    out.append(bool_str(report.is_pure));
    out.append("\n");
    append_taint_lines(
        &mut out,
        (report.max_trust, report.max_provenance, report.has_axiom_taint, report.has_oracle_taint, report.has_unsafe_taint),
        report.fingerprint.as_str(),
    );
    out
}

/// The export text of an application.
pub open spec fn application_term_text(r: ApplicationTermReportV) -> Seq<char> {
    "application_term_report: v1\n"@ + "function: "@ + r.function + "\n"@ + "argument: "@ + r.argument + "\n"@
        + "expected_domain: "@ + r.expected_domain + "\n"@ + "argument_domain: "@ + r.argument_domain + "\n"@ + "status: "@
        + r.status.display_text() + "\n"@ + "result: "@ + r.result + "\n"@ + taint_lines(r.taint, r.fingerprint)
}

pub fn export_application_term(report: &ApplicationTermReport) -> (r: String)
    ensures
        r@ == application_term_text(report@),
{
    let mut out = String::from_str("application_term_report: v1\n");
    out.append("function: ");
    out.append(report.function.as_str());
    out.append("\n");
    out.append("argument: ");
    out.append(report.argument.as_str());
    out.append("\n");
    out.append("expected_domain: ");
    out.append(report.expected_domain.as_str());
    out.append("\n");
    out.append("argument_domain: ");
    out.append(report.argument_domain.as_str());
    out.append("\n");
    out.append("status: ");
    out.append(report.status.display_str());
    out.append("\n");
    out.append("result: ");
    out.append(report.result.as_str());
    out.append("\n");
    append_taint_lines(
        &mut out,
        (report.max_trust, report.max_provenance, report.has_axiom_taint, report.has_oracle_taint, report.has_unsafe_taint),
        report.fingerprint.as_str(),
    );
    out
}

/// An application is applied exactly when the argument's domain is the
/// function's domain; a domain mismatch is recorded, never silently applied.
pub proof fn lemma_applied_iff_domains_match(f: PassportV, a: PassportV, argument: Seq<char>, line: usize)
    requires
        application_term_spec(f, a, argument, line) is Ok,
    ensures
        (application_term_spec(f, a, argument, line)->Ok_0.status == ApplicationStatus::Applied) <==> (
        application_term_spec(f, a, argument, line)->Ok_0.expected_domain == value_domain(a.ty)),
        application_term_spec(f, a, argument, line)->Ok_0.argument_domain == value_domain(a.ty),
{
}

proof fn lemma_captures_clean(cs: Seq<Seq<char>>, parameter: Seq<char>, line: usize, n: int)
    requires
        0 <= n <= cs.len(),
        captures_error(cs, parameter, line, n) is None,
    ensures
        forall|i: int| 0 <= i < n ==> is_ident(#[trigger] cs[i]) && cs[i] != parameter,
    decreases n,
{
    if n > 0 {
        lemma_captures_clean(cs, parameter, line, n - 1);
    }
}

/// A lambda term keeps its captures sorted, each once, exactly the captures it
/// was given; each is an identifier other than the bound parameter.
pub proof fn lemma_lambda_captures(
    p: BoundVariableV,
    body: Seq<char>,
    ft: FunctionTypeReportV,
    captures: Seq<Seq<char>>,
    sources: Seq<PassportV>,
    line: usize,
)
    requires
        lambda_term_spec(p, body, ft, captures, sources, line) is Ok,
    ensures
        ({
            let l = lambda_term_spec(p, body, ft, captures, sources, line)->Ok_0;
            &&& texts_strictly_sorted(l.captures)
            &&& forall|y: Seq<char>| l.captures.contains(y) <==> captures.contains(y)
            &&& forall|i: int| 0 <= i < l.captures.len() ==> is_ident(#[trigger] l.captures[i]) && l.captures[i] != p.name
        }),
{
    lemma_sort_dedup(captures);
    let caps = sort_dedup(captures);
    lemma_captures_clean(caps, p.name, line, caps.len() as int);
}

} // verus!
