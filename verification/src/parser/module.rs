//! The module reader: one declaration per line.
//!
//! A module file is read line by line. `//` starts a comment. Outside any block a
//! line declares the module, an import, a theory block or a bridge; inside a theory
//! block each line is a `let` binding or a statement; inside a bridge block only the
//! `kind` line and the closing `}` are read.

use vstd::prelude::*;
use vstd::string::*;

use crate::ast::{
    BridgeDecl, BridgeDeclV, BridgeKind, BridgeKindV, ImportDecl, LetDecl, LetDeclV, Module, ModuleItem,
    ModuleItemV, ModuleV, TheoryDecl, TheoryDeclV, TheoryItem, TheoryItemV,
};
use crate::diagnostics::{error_model, Diagnostic, DiagnosticKind, DiagnosticV, SourceSpan};
use crate::parser::expr::{
    byte_len, byte_offsets, byte_pos, char_back, char_fwd, expr_result, find_char, find_char_in, fits_source,
    lemma_byte_len_bound, lemma_byte_len_subrange, lemma_byte_pos_mono, lemma_find_char_bounds, lemma_skip_bounds,
    parse_error_at, parse_expr_in, parse_expr_spec, skip_char_back, skip_char_fwd, skip_ws_back, skip_ws_fwd, span_at,
    text_range, ws_back, ws_fwd,
};
use crate::text::{chars_of, ends_with_text, find_text, find_text_str, lemma_find_text_bounds, starts_with_text, str_eq, text_ends_with, text_starts_with};

verus! {

/// `str::trim`.
pub open spec fn trim_seq(t: Seq<char>) -> Seq<char> {
    let f = skip_ws_fwd(t, 0, t.len() as int);
    t.subrange(f, skip_ws_back(t, f, t.len() as int))
}

/// `str::trim_end_matches` with one character.
pub open spec fn trim_end_char(t: Seq<char>, c: char) -> Seq<char> {
    t.subrange(0, skip_char_back(t, 0, t.len() as int, c))
}

/// `str::trim_matches` with one character.
pub open spec fn trim_char_both(t: Seq<char>, c: char) -> Seq<char> {
    let f = skip_char_fwd(t, 0, t.len() as int, c);
    t.subrange(f, skip_char_back(t, f, t.len() as int, c))
}

/// 1-based byte column of the first occurrence of `needle` in `raw`, or 1.
pub open spec fn find_column(raw: Seq<char>, needle: Seq<char>) -> int {
    match find_text(raw, needle, 0) {
        Some(i) => byte_pos(raw, i) + 1,
        None => 1,
    }
}

/// The declaration text of a raw line: the part before `//`, trimmed.
pub open spec fn line_text(raw: Seq<char>) -> Seq<char> {
    let end = match find_text(raw, "//"@, 0) {
        Some(i) => i,
        None => raw.len() as int,
    };
    trim_seq(raw.subrange(0, end))
}

/// The bridge kind a `kind = ...` value names.
pub open spec fn bridge_kind_of(text: Seq<char>) -> BridgeKindV {
    let t = trim_char_both(trim_seq(text), '"');
    if t == "definitional"@ || t == "definition"@ || t == "definitional_extension"@ {
        BridgeKindV::Definitional
    } else if t == "conservative"@ || t == "conservative_extension"@ {
        BridgeKindV::Conservative
    } else if t == "quote"@ {
        BridgeKindV::Quote
    } else if t == "transport"@ {
        BridgeKindV::Transport
    } else if t == "soundness"@ {
        BridgeKindV::Soundness
    } else if t == "reflection"@ || t == "reflective"@ {
        BridgeKindV::Reflection
    } else if t == "migration"@ {
        BridgeKindV::Migration
    } else if t == "materialize"@ || t == "materialization"@ {
        BridgeKindV::Materialize
    } else if t == "unsafe"@ || t == "unsafe_cast"@ {
        BridgeKindV::Unsafe
    } else {
        BridgeKindV::Unknown(t)
    }
}

/// The kind a `kind ... = value` line inside a bridge block sets, if it has an `=`:
/// the text between the first `=` and the next one, trimmed, without trailing `;`.
pub open spec fn kind_line_value(t: Seq<char>) -> Option<BridgeKindV> {
    match find_char(t, 0, t.len() as int, '=') {
        None => None,
        Some(i) => {
            let end = match find_char(t, i + 1, t.len() as int, '=') {
                Some(j) => j,
                None => t.len() as int,
            };
            Some(bridge_kind_of(trim_end_char(trim_seq(t.subrange(i + 1, end)), ';')))
        },
    }
}

/// The bridge a header `Name : Source -> Target {` declares.
pub open spec fn bridge_header_spec(rest: Seq<char>, line: usize) -> Result<BridgeDeclV, DiagnosticV> {
    let h = trim_seq(trim_end_char(trim_seq(rest), '{'));
    match find_char(h, 0, h.len() as int, ':') {
        None => Err(error_model(DiagnosticKind::ParseError, Some(line), "expected bridge Name : Source -> Target"@)),
        Some(i) => {
            let rhs = h.subrange(i + 1, h.len() as int);
            match find_text(rhs, "->"@, 0) {
                None => Err(error_model(DiagnosticKind::ParseError, Some(line), "expected bridge source -> target"@)),
                Some(j) => Ok(BridgeDeclV {
                    name: trim_seq(h.subrange(0, i)),
                    source: trim_seq(rhs.subrange(0, j)),
                    target: trim_seq(rhs.subrange(j + 2, rhs.len() as int)),
                    kind: BridgeKindV::Unknown("unspecified"@),
                    line,
                }),
            }
        },
    }
}

/// The binding `name = expression` that follows `let ` (which ends at column `rest_col`).
pub open spec fn let_spec(rest: Seq<char>, line: usize, rest_col: int) -> Result<LetDeclV, DiagnosticV> {
    let trimmed = trim_end_char(trim_seq(rest), ';');
    let tcol = rest_col + match find_text(rest, trimmed, 0) {
        Some(i) => byte_pos(rest, i),
        None => 0,
    };
    match find_char(trimmed, 0, trimmed.len() as int, '=') {
        None => Err(parse_error_at(span_at(line, tcol, byte_len(trimmed) as int), "expected let name = expression"@)),
        Some(q) => {
            let name = trim_seq(trimmed.subrange(0, q));
            if name.len() == 0 {
                Err(parse_error_at(span_at(line, tcol, 1), "missing let binding name"@))
            } else {
                let et = trimmed.subrange(q + 1, trimmed.len() as int);
                match parse_expr_spec(et, 0, et.len() as int, line, tcol + byte_pos(trimmed, q) + 1) {
                    Err(d) => Err(d),
                    Ok(e) => Ok(LetDeclV { name, expr: e, line }),
                }
            }
        },
    }
}

/// What the reader has gathered after some lines.
pub struct ReadStateV {
    pub module_name: Option<Seq<char>>,
    pub imports: Seq<Seq<char>>,
    pub items: Seq<ModuleItemV>,
    pub theory: Option<TheoryDeclV>,
    pub bridge: Option<BridgeDeclV>,
    pub diags: Seq<DiagnosticV>,
}

pub open spec fn initial_read_state() -> ReadStateV {
    ReadStateV {
        module_name: None,
        imports: Seq::empty(),
        items: Seq::empty(),
        theory: None,
        bridge: None,
        diags: Seq::empty(),
    }
}

/// A line inside an open bridge block.
pub open spec fn bridge_line(st: ReadStateV, b: BridgeDeclV, t: Seq<char>) -> ReadStateV {
    if starts_with_text(t, "kind"@) {
        match kind_line_value(t) {
            Some(k) => ReadStateV { bridge: Some(BridgeDeclV { kind: k, ..b }), ..st },
            None => st,
        }
    } else if t == "}"@ {
        ReadStateV { items: st.items.push(ModuleItemV::Bridge(b)), bridge: None, ..st }
    } else {
        st
    }
}

/// A line inside an open theory block.
pub open spec fn theory_line(st: ReadStateV, th: TheoryDeclV, raw: Seq<char>, t: Seq<char>, line_no: usize) -> ReadStateV {
    if t == "}"@ {
        ReadStateV { items: st.items.push(ModuleItemV::Theory(th)), theory: None, ..st }
    } else if starts_with_text(t, "let "@) {
        match let_spec(t.subrange(4, t.len() as int), line_no, find_column(raw, "let"@) + 4) {
            Ok(d) => ReadStateV { theory: Some(TheoryDeclV { items: th.items.push(TheoryItemV::Let(d)), ..th }), ..st },
            Err(d) => ReadStateV { diags: st.diags.push(d), ..st },
        }
    } else if starts_with_text(t, "type "@) || starts_with_text(t, "axiom "@) || starts_with_text(t, "fn "@) {
        st
    } else {
        match parse_expr_spec(t, 0, t.len() as int, line_no, find_column(raw, t)) {
            Ok(e) => ReadStateV { theory: Some(TheoryDeclV { items: th.items.push(TheoryItemV::Expr(e)), ..th }), ..st },
            Err(d) => ReadStateV { diags: st.diags.push(d), ..st },
        }
    }
}

/// A line outside any block.
pub open spec fn top_line(st: ReadStateV, raw: Seq<char>, t: Seq<char>, line_no: usize) -> ReadStateV {
    let rest = t.subrange(7, t.len() as int);
    if starts_with_text(t, "module "@) {
        ReadStateV { module_name: Some(trim_end_char(trim_seq(rest), ';')), ..st }
    } else if starts_with_text(t, "import "@) {
        ReadStateV { imports: st.imports.push(trim_end_char(trim_seq(rest), ';')), ..st }
    } else if starts_with_text(t, "theory "@) {
        let name = trim_seq(trim_end_char(trim_seq(rest), '{'));
        if name.len() == 0 {
            ReadStateV {
                diags: st.diags.push(parse_error_at(
                    span_at(line_no, find_column(raw, "theory"@), byte_len(t) as int),
                    "missing theory name"@,
                )),
                ..st
            }
        } else {
            ReadStateV { theory: Some(TheoryDeclV { name, items: Seq::empty() }), ..st }
        }
    } else if starts_with_text(t, "bridge "@) {
        match bridge_header_spec(rest, line_no) {
            Ok(b) => if ends_with_text(t, "}"@) {
                ReadStateV { items: st.items.push(ModuleItemV::Bridge(b)), ..st }
            } else {
                ReadStateV { bridge: Some(b), ..st }
            },
            Err(d) => ReadStateV { diags: st.diags.push(d), ..st },
        }
    } else {
        ReadStateV {
            diags: st.diags.push(error_model(
                DiagnosticKind::NoAmbientTheoryError,
                Some(line_no),
                "value-level declaration outside theory context is not allowed in MVP"@,
            )),
            ..st
        }
    }
}

/// The reader's state after line `line_no`, whose text is `raw`.
pub open spec fn read_line(st: ReadStateV, raw: Seq<char>, line_no: usize) -> ReadStateV {
    let t = line_text(raw);
    if t.len() == 0 {
        st
    } else {
        match st.bridge {
            Some(b) => bridge_line(st, b, t),
            None => match st.theory {
                Some(th) => theory_line(st, th, raw, t, line_no),
                None => top_line(st, raw, t, line_no),
            },
        }
    }
}

/// Line ranges of `s` (`str::lines`): split at `\n`, a `\r` before it dropped,
/// no empty line after a final `\n`.
pub open spec fn line_ranges(s: Seq<char>, k: int, start: int) -> Seq<(int, int)>
    decreases s.len() - k,
{
    if k >= s.len() {
        if start < s.len() {
            seq![(start, s.len() as int)]
        } else {
            Seq::empty()
        }
    } else if s[k] == '\n' {
        let end = if k > start && s[k - 1] == '\r' { k - 1 } else { k };
        seq![(start, end)] + line_ranges(s, k + 1, k + 1)
    } else {
        line_ranges(s, k + 1, start)
    }
}

/// The lines of a source text.
pub open spec fn source_lines(s: Seq<char>) -> Seq<Seq<char>> {
    line_ranges(s, 0, 0).map_values(|p: (int, int)| s.subrange(p.0, p.1))
}

/// The reader's state after the first `n` lines.
pub open spec fn read_lines(lines: Seq<Seq<char>>, n: int) -> ReadStateV
    decreases n,
{
    if n <= 0 {
        initial_read_state()
    } else {
        read_line(read_lines(lines, n - 1), lines[n - 1], n as usize)
    }
}

/// The result once every line is read: blocks left open are errors.
pub open spec fn finish_read(st: ReadStateV) -> Result<ModuleV, Seq<DiagnosticV>> {
    let d1 = match st.theory {
        Some(th) => st.diags.push(
            error_model(DiagnosticKind::ParseError, None, "unclosed theory block '"@ + th.name + "'; missing '}'"@),
        ),
        None => st.diags,
    };
    let d2 = match st.bridge {
        Some(b) => d1.push(
            error_model(DiagnosticKind::ParseError, None, "unclosed bridge block '"@ + b.name + "'; missing '}'"@),
        ),
        None => d1,
    };
    if d2.len() > 0 {
        Err(d2)
    } else {
        Ok(ModuleV {
            name: match st.module_name {
                Some(n) => n,
                None => "anonymous"@,
            },
            imports: st.imports,
            items: st.items,
        })
    }
}

/// What `parse_module` gives for a source text.
pub open spec fn parse_module_spec(src: Seq<char>) -> Result<ModuleV, Seq<DiagnosticV>> {
    let lines = source_lines(src);
    finish_read(read_lines(lines, lines.len() as int))
}

/// `str::trim`.
fn trim_str(x: &str) -> (r: String)
    ensures
        r@ == trim_seq(x@),
{
    let v = chars_of(x);
    let f = ws_fwd(&v, 0, v.len());
    let b = ws_back(&v, f, v.len());
    text_range(x, f, b)
}

/// `str::trim_end_matches` with one character.
fn trim_end_char_str(x: &str, c: char) -> (r: String)
    ensures
        r@ == trim_end_char(x@, c),
{
    let v = chars_of(x);
    let e = char_back(&v, 0, v.len(), c);
    text_range(x, 0, e)
}

/// `str::trim_matches` with one character.
fn trim_char_both_str(x: &str, c: char) -> (r: String)
    ensures
        r@ == trim_char_both(x@, c),
{
    let v = chars_of(x);
    let f = char_fwd(&v, 0, v.len(), c);
    let e = char_back(&v, f, v.len(), c);
    text_range(x, f, e)
}

/// Position of the first `c` at or after `from`.
fn find_char_from(x: &str, from: usize, c: char) -> (r: Option<usize>)
    requires
        from <= x@.len(),
    ensures
        find_char(x@, from as int, x@.len() as int, c) == (match r {
            Some(i) => Some(i as int),
            None => None::<int>,
        }),
        r matches Some(i) ==> from <= i < x@.len() && x@[i as int] == c,
{
    let v = chars_of(x);
    proof {
        lemma_find_char_bounds(x@, from as int, x@.len() as int, c);
    }
    find_char_in(&v, from, v.len(), c)
}

/// Byte offset of character position `k`.
fn byte_pos_str(x: &str, k: usize) -> (r: usize)
    requires
        k <= x@.len(),
        fits_source(x@),
    ensures
        r == byte_pos(x@, k as int),
        r <= byte_len(x@),
{
    let v = chars_of(x);
    let offs = byte_offsets(&v);
    proof {
        lemma_byte_pos_mono(x@, k as int, x@.len() as int);
        assert(x@.take(x@.len() as int) =~= x@);
    }
    offs[k]
}

/// `find_column`: 1-based byte column of the first occurrence of `needle`, or 1.
fn find_column_str(raw: &str, needle: &str) -> (r: usize)
    requires
        fits_source(raw@),
    ensures
        r == find_column(raw@, needle@),
        r <= byte_len(raw@) + 1,
{
    proof {
        lemma_find_text_bounds(raw@, needle@, 0);
    }
    match find_text_str(raw, needle) {
        Some(i) => byte_pos_str(raw, i) + 1,
        None => 1,
    }
}

/// A part of a text that fits fits too.
proof fn lemma_fits_subrange(s: Seq<char>, i: int, j: int)
    requires
        0 <= i <= j <= s.len(),
        fits_source(s),
    ensures
        fits_source(s.subrange(i, j)),
        byte_len(s.subrange(i, j)) <= byte_len(s),
{
    lemma_byte_len_subrange(s, i, j);
}

/// Parses a whole text as an expression whose first character is at column `col`.
fn parse_expr_text(text: &str, line: usize, col: usize) -> (r: Result<crate::ast::Expr, Diagnostic>)
    requires
        fits_source(text@),
        col + byte_len(text@) + 2 <= usize::MAX,
    ensures
        expr_result(r) == parse_expr_spec(text@, 0, text@.len() as int, line, col as int),
{
    let s = chars_of(text);
    let offs = byte_offsets(&s);
    proof {
        assert(s@.take(0) =~= Seq::<char>::empty());
    }
    parse_expr_in(text, &s, &offs, 0, s.len(), line, col)
}

/// `line_text`: the part of a raw line before `//`, trimmed.
fn line_text_str(raw: &str) -> (r: String)
    ensures
        r@ == line_text(raw@),
{
    proof {
        lemma_find_text_bounds(raw@, "//"@, 0);
    }
    let end = match find_text_str(raw, "//") {
        Some(i) => i,
        None => raw.unicode_len(),
    };
    let pre = text_range(raw, 0, end);
    trim_str(pre.as_str())
}

fn bridge_kind_exec(text: &str) -> (r: BridgeKind)
    ensures
        r@ == bridge_kind_of(text@),
{
    let t1 = trim_str(text);
    let t = trim_char_both_str(t1.as_str(), '"');
    let x = t.as_str();
    if str_eq(x, "definitional") || str_eq(x, "definition") || str_eq(x, "definitional_extension") {
        BridgeKind::Definitional
    } else if str_eq(x, "conservative") || str_eq(x, "conservative_extension") {
        BridgeKind::Conservative
    } else if str_eq(x, "quote") {
        BridgeKind::Quote
    } else if str_eq(x, "transport") {
        BridgeKind::Transport
    } else if str_eq(x, "soundness") {
        BridgeKind::Soundness
    } else if str_eq(x, "reflection") || str_eq(x, "reflective") {
        BridgeKind::Reflection
    } else if str_eq(x, "migration") {
        BridgeKind::Migration
    } else if str_eq(x, "materialize") || str_eq(x, "materialization") {
        BridgeKind::Materialize
    } else if str_eq(x, "unsafe") || str_eq(x, "unsafe_cast") {
        BridgeKind::Unsafe
    } else {
        BridgeKind::Unknown(t)
    }
}

fn kind_line_exec(t: &str) -> (r: Option<BridgeKind>)
    ensures
        kind_line_value(t@) == (match r {
            Some(k) => Some(k@),
            None => None::<BridgeKindV>,
        }),
{
    match find_char_from(t, 0, '=') {
        None => None,
        Some(i) => {
            let n = t.unicode_len();
            let end = match find_char_from(t, i + 1, '=') {
                Some(j) => j,
                None => n,
            };
            let piece = text_range(t, i + 1, end);
            let trimmed = trim_str(piece.as_str());
            let value = trim_end_char_str(trimmed.as_str(), ';');
            Some(bridge_kind_exec(value.as_str()))
        },
    }
}

fn bridge_header_exec(rest: &str, line: usize) -> (r: Result<BridgeDecl, Diagnostic>)
    ensures
        bridge_header_spec(rest@, line) == (match r {
            Ok(b) => Ok::<BridgeDeclV, DiagnosticV>(b@),
            Err(d) => Err::<BridgeDeclV, DiagnosticV>(d@),
        }),
{
    let t1 = trim_str(rest);
    let t2 = trim_end_char_str(t1.as_str(), '{');
    let h = trim_str(t2.as_str());
    let hs = h.as_str();
    let n = hs.unicode_len();
    match find_char_from(hs, 0, ':') {
        None => Err(Diagnostic::error(DiagnosticKind::ParseError, Some(line), "expected bridge Name : Source -> Target")),
        Some(i) => {
            let rhs = text_range(hs, i + 1, n);
            let rs = rhs.as_str();
            proof {
                lemma_find_text_bounds(rs@, "->"@, 0);
                reveal_strlit("->");
            }
            match find_text_str(rs, "->") {
                None => Err(Diagnostic::error(DiagnosticKind::ParseError, Some(line), "expected bridge source -> target")),
                Some(j) => {
                    let name_part = text_range(hs, 0, i);
                    let source_part = text_range(rs, 0, j);
                    let target_part = text_range(rs, j + 2, rs.unicode_len());
                    Ok(BridgeDecl {
                        name: trim_str(name_part.as_str()),
                        source: trim_str(source_part.as_str()),
                        target: trim_str(target_part.as_str()),
                        kind: BridgeKind::Unknown(String::from_str("unspecified")),
                        line,
                    })
                },
            }
        },
    }
}

fn let_exec(rest: &str, line: usize, rest_col: usize) -> (r: Result<LetDecl, Diagnostic>)
    requires
        fits_source(rest@),
        rest_col + 3 * byte_len(rest@) + 8 <= usize::MAX,
    ensures
        let_spec(rest@, line, rest_col as int) == (match r {
            Ok(d) => Ok::<LetDeclV, DiagnosticV>(d@),
            Err(d) => Err::<LetDeclV, DiagnosticV>(d@),
        }),
{
    let t1 = trim_str(rest);
    let trimmed = trim_end_char_str(t1.as_str(), ';');
    let ts = trimmed.as_str();
    let n = ts.unicode_len();
    proof {
        lemma_find_text_bounds(rest@, ts@, 0);
        let f = skip_ws_fwd(rest@, 0, rest@.len() as int);
        lemma_skip_bounds(rest@, 0, rest@.len() as int, ';');
        lemma_skip_bounds(rest@, f, rest@.len() as int, ';');
        let t1v = t1@;
        lemma_skip_bounds(t1v, 0, t1v.len() as int, ';');
        lemma_fits_subrange(rest@, f, skip_ws_back(rest@, f, rest@.len() as int));
        lemma_fits_subrange(t1v, 0, skip_char_back(t1v, 0, t1v.len() as int, ';'));
    }
    let tpos = match find_text_str(rest, ts) {
        Some(i) => byte_pos_str(rest, i),
        None => 0,
    };
    let tcol = rest_col + tpos;
    match find_char_from(ts, 0, '=') {
        None => {
            let blen = byte_pos_str(ts, n);
            proof {
                assert(ts@.take(n as int) =~= ts@);
            }
            Err(Diagnostic::error_at(
                DiagnosticKind::ParseError,
                SourceSpan::line_col(line, tcol, blen),
                "expected let name = expression",
            ))
        },
        Some(q) => {
            let name_part = text_range(ts, 0, q);
            let name = trim_str(name_part.as_str());
            if name.unicode_len() == 0 {
                return Err(Diagnostic::error_at(
                    DiagnosticKind::ParseError,
                    SourceSpan::line_col(line, tcol, 1),
                    "missing let binding name",
                ));
            }
            let qpos = byte_pos_str(ts, q);
            let et = text_range(ts, q + 1, n);
            proof {
                lemma_fits_subrange(ts@, q + 1, n as int);
            }
            match parse_expr_text(et.as_str(), line, tcol + qpos + 1) {
                Err(d) => Err(d),
                Ok(e) => Ok(LetDecl { name, expr: e, line }),
            }
        },
    }
}

/// What the reader has gathered; its model is a `ReadStateV`.
struct ReadState {
    module_name: Option<String>,
    imports: Vec<ImportDecl>,
    items: Vec<ModuleItem>,
    theory: Option<TheoryDecl>,
    bridge: Option<BridgeDecl>,
    diags: Vec<Diagnostic>,
}

impl View for ReadState {
    type V = ReadStateV;

    closed spec fn view(&self) -> ReadStateV {
        ReadStateV {
            module_name: match self.module_name {
                Some(n) => Some(n@),
                None => None,
            },
            imports: self.imports@.map_values(|i: ImportDecl| i.path@),
            items: self.items@.map_values(|i: ModuleItem| i@),
            theory: match self.theory {
                Some(t) => Some(t@),
                None => None,
            },
            bridge: match self.bridge {
                Some(b) => Some(b@),
                None => None,
            },
            diags: self.diags@.map_values(|d: Diagnostic| d@),
        }
    }
}

fn push_diag(st: ReadState, d: Diagnostic) -> (r: ReadState)
    ensures
        r@ == (ReadStateV { diags: st@.diags.push(d@), ..st@ }),
{
    let ReadState { module_name, imports, items, theory, bridge, mut diags } = st;
    let ghost old_diags = diags@;
    diags.push(d);
    assert(diags@.map_values(|x: Diagnostic| x@) =~= old_diags.map_values(|x: Diagnostic| x@).push(d@));
    ReadState { module_name, imports, items, theory, bridge, diags }
}

fn push_item(st: ReadState, item: ModuleItem) -> (r: ReadState)
    ensures
        r@ == (ReadStateV { items: st@.items.push(item@), ..st@ }),
{
    let ReadState { module_name, imports, mut items, theory, bridge, diags } = st;
    let ghost old_items = items@;
    let ghost iv = item@;
    items.push(item);
    assert(items@.map_values(|x: ModuleItem| x@) =~= old_items.map_values(|x: ModuleItem| x@).push(iv));
    ReadState { module_name, imports, items, theory, bridge, diags }
}

fn push_theory_item(th: TheoryDecl, item: TheoryItem) -> (r: TheoryDecl)
    ensures
        r@ == (TheoryDeclV { items: th@.items.push(item@), ..th@ }),
{
    let TheoryDecl { name, mut items } = th;
    let ghost old_items = items@;
    let ghost iv = item@;
    items.push(item);
    assert(items@.map_values(|x: TheoryItem| x@) =~= old_items.map_values(|x: TheoryItem| x@).push(iv));
    TheoryDecl { name, items }
}

/// A line inside an open bridge block.
fn bridge_line_exec(st: ReadState, t: &str) -> (r: ReadState)
    requires
        st@.bridge is Some,
    ensures
        r@ == bridge_line(st@, st@.bridge->0, t@),
{
    proof {
        reveal_strlit("kind");
        reveal_strlit("}");
    }
    let ReadState { module_name, imports, items, theory, bridge, diags } = st;
    let mut b = match bridge {
        Some(b) => b,
        None => {
            assert(false);
            BridgeDecl {
                name: String::new(),
                source: String::new(),
                target: String::new(),
                kind: BridgeKind::Quote,
                line: 0,
            }
        },
    };
    if text_starts_with(t, "kind") {
        match kind_line_exec(t) {
            Some(k) => {
                b.kind = k;
            },
            None => {},
        }
        ReadState { module_name, imports, items, theory, bridge: Some(b), diags }
    } else if str_eq(t, "}") {
        let st2 = ReadState { module_name, imports, items, theory, bridge: None, diags };
        push_item(st2, ModuleItem::Bridge(b))
    } else {
        ReadState { module_name, imports, items, theory, bridge: Some(b), diags }
    }
}

/// A line inside an open theory block.
fn theory_line_exec(st: ReadState, raw: &str, t: &str, line_no: usize) -> (r: ReadState)
    requires
        st@.bridge is None,
        st@.theory is Some,
        fits_source(raw@),
        byte_len(t@) <= byte_len(raw@),
        fits_source(t@),
    ensures
        r@ == theory_line(st@, st@.theory->0, raw@, t@, line_no),
{
    proof {
        reveal_strlit("}");
        reveal_strlit("let ");
    }
    let ReadState { module_name, imports, items, theory, bridge, diags } = st;
    let th = match theory {
        Some(th) => th,
        None => {
            assert(false);
            TheoryDecl { name: String::new(), items: Vec::new() }
        },
    };
    if str_eq(t, "}") {
        let st2 = ReadState { module_name, imports, items, theory: None, bridge, diags };
        return push_item(st2, ModuleItem::Theory(th));
    }
    if text_starts_with(t, "let ") {
        let n = t.unicode_len();
        let rest = text_range(t, 4, n);
        let col = find_column_str(raw, "let") + 4;
        proof {
            lemma_fits_subrange(t@, 4, n as int);
        }
        match let_exec(rest.as_str(), line_no, col) {
            Ok(d) => {
                let th2 = push_theory_item(th, TheoryItem::Let(d));
                return ReadState { module_name, imports, items, theory: Some(th2), bridge, diags };
            },
            Err(d) => {
                let st2 = ReadState { module_name, imports, items, theory: Some(th), bridge, diags };
                return push_diag(st2, d);
            },
        }
    }
    if text_starts_with(t, "type ") || text_starts_with(t, "axiom ") || text_starts_with(t, "fn ") {
        return ReadState { module_name, imports, items, theory: Some(th), bridge, diags };
    }
    let col = find_column_str(raw, t);
    match parse_expr_text(t, line_no, col) {
        Ok(e) => {
            let th2 = push_theory_item(th, TheoryItem::Expr(e));
            ReadState { module_name, imports, items, theory: Some(th2), bridge, diags }
        },
        Err(d) => {
            let st2 = ReadState { module_name, imports, items, theory: Some(th), bridge, diags };
            push_diag(st2, d)
        },
    }
}

/// A line outside any block.
fn top_line_exec(st: ReadState, raw: &str, t: &str, line_no: usize) -> (r: ReadState)
    requires
        st@.bridge is None,
        st@.theory is None,
        fits_source(raw@),
        byte_len(t@) <= byte_len(raw@),
        fits_source(t@),
    ensures
        r@ == top_line(st@, raw@, t@, line_no),
{
    proof {
        reveal_strlit("module ");
        reveal_strlit("import ");
        reveal_strlit("theory ");
        reveal_strlit("bridge ");
    }
    let n = t.unicode_len();
    let is_module = text_starts_with(t, "module ");
    let is_import = text_starts_with(t, "import ");
    let is_theory = text_starts_with(t, "theory ");
    let is_bridge = text_starts_with(t, "bridge ");
    if !(is_module || is_import || is_theory || is_bridge) {
        let d = Diagnostic::error(
            DiagnosticKind::NoAmbientTheoryError,
            Some(line_no),
            "value-level declaration outside theory context is not allowed in MVP",
        );
        return push_diag(st, d);
    }
    let rest = text_range(t, 7, n);
    let rest_trim = trim_str(rest.as_str());
    let ReadState { module_name, mut imports, items, theory, bridge, diags } = st;
    if is_module {
        let name = trim_end_char_str(rest_trim.as_str(), ';');
        return ReadState { module_name: Some(name), imports, items, theory, bridge, diags };
    }
    if is_import {
        let path = trim_end_char_str(rest_trim.as_str(), ';');
        let ghost old_imports = imports@;
        let ghost pv = path@;
        imports.push(ImportDecl { path });
        assert(imports@.map_values(|x: ImportDecl| x.path@) =~= old_imports.map_values(|x: ImportDecl| x.path@).push(pv));
        return ReadState { module_name, imports, items, theory, bridge, diags };
    }
    let st2 = ReadState { module_name, imports, items, theory, bridge, diags };
    if is_theory {
        let t2 = trim_end_char_str(rest_trim.as_str(), '{');
        let name = trim_str(t2.as_str());
        if name.unicode_len() == 0 {
            let col = find_column_str(raw, "theory");
            let blen = byte_pos_str(t, n);
            proof {
                assert(t@.take(n as int) =~= t@);
            }
            let d = Diagnostic::error_at(
                DiagnosticKind::ParseError,
                SourceSpan::line_col(line_no, col, blen),
                "missing theory name",
            );
            return push_diag(st2, d);
        }
        let items0: Vec<TheoryItem> = Vec::new();
        let th = TheoryDecl { name, items: items0 };
        assert(th@.items =~= Seq::<TheoryItemV>::empty());
        let ReadState { module_name, imports, items, theory, bridge, diags } = st2;
        return ReadState { module_name, imports, items, theory: Some(th), bridge, diags };
    }
    match bridge_header_exec(rest.as_str(), line_no) {
        Ok(b) => if text_ends_with(t, "}") {
            push_item(st2, ModuleItem::Bridge(b))
        } else {
            let ReadState { module_name, imports, items, theory, bridge, diags } = st2;
            ReadState { module_name, imports, items, theory, bridge: Some(b), diags }
        },
        Err(d) => push_diag(st2, d),
    }
}

/// Reads one raw line.
fn read_line_exec(st: ReadState, raw: &str, line_no: usize) -> (r: ReadState)
    requires
        fits_source(raw@),
    ensures
        r@ == read_line(st@, raw@, line_no),
{
    let t = line_text_str(raw);
    proof {
        lemma_find_text_bounds(raw@, "//"@, 0);
        let end = match find_text(raw@, "//"@, 0) {
            Some(i) => i,
            None => raw@.len() as int,
        };
        let pre = raw@.subrange(0, end);
        lemma_fits_subrange(raw@, 0, end);
        let f = skip_ws_fwd(pre, 0, pre.len() as int);
        lemma_skip_bounds(pre, 0, pre.len() as int, ';');
        lemma_skip_bounds(pre, f, pre.len() as int, ';');
        lemma_fits_subrange(pre, f, skip_ws_back(pre, f, pre.len() as int));
    }
    if t.unicode_len() == 0 {
        return st;
    }
    let has_bridge = match &st.bridge {
        Some(_) => true,
        None => false,
    };
    if has_bridge {
        return bridge_line_exec(st, t.as_str());
    }
    let has_theory = match &st.theory {
        Some(_) => true,
        None => false,
    };
    if has_theory {
        theory_line_exec(st, raw, t.as_str(), line_no)
    } else {
        top_line_exec(st, raw, t.as_str(), line_no)
    }
}

proof fn lemma_line_ranges_bounds(s: Seq<char>, k: int, start: int)
    requires
        0 <= start <= k <= s.len(),
    ensures
        forall|i: int| 0 <= i < line_ranges(s, k, start).len() ==> {
            let p = #[trigger] line_ranges(s, k, start)[i];
            start <= p.0 <= p.1 <= s.len()
        },
    decreases s.len() - k,
{
    if k < s.len() {
        if s[k] == '\n' {
            lemma_line_ranges_bounds(s, k + 1, k + 1);
            let end = if k > start && s[k - 1] == '\r' { k - 1 } else { k };
            let rest = line_ranges(s, k + 1, k + 1);
            assert(line_ranges(s, k, start) == seq![(start, end)] + rest);
            assert forall|i: int| 0 <= i < line_ranges(s, k, start).len() implies {
                let p = #[trigger] line_ranges(s, k, start)[i];
                start <= p.0 <= p.1 <= s.len()
            } by {
                if i > 0 {
                    assert(line_ranges(s, k, start)[i] == rest[i - 1]);
                } else {
                    assert(line_ranges(s, k, start)[i] == (start, end));
                }
            }
        } else {
            lemma_line_ranges_bounds(s, k + 1, start);
            assert(line_ranges(s, k, start) == line_ranges(s, k + 1, start));
        }
    } else if start < s.len() {
        assert(line_ranges(s, k, start) == seq![(start, s.len() as int)]);
    } else {
        assert(line_ranges(s, k, start) == Seq::<(int, int)>::empty());
    }
}

/// The line ranges of a source text, in order.
fn source_line_ranges(s: &Vec<char>) -> (r: Vec<(usize, usize)>)
    ensures
        r@.len() == line_ranges(s@, 0, 0).len(),
        forall|i: int| 0 <= i < r@.len() ==> (#[trigger] r@[i]).0 as int == line_ranges(s@, 0, 0)[i].0
            && r@[i].1 as int == line_ranges(s@, 0, 0)[i].1,
{
    let ghost whole = line_ranges(s@, 0, 0);
    let mut out: Vec<(usize, usize)> = Vec::new();
    let mut start: usize = 0;
    let mut k: usize = 0;
    while k < s.len()
        invariant
            start <= k <= s.len(),
            whole == line_ranges(s@, 0, 0),
            whole.len() == out@.len() + line_ranges(s@, k as int, start as int).len(),
            forall|i: int| 0 <= i < out@.len() ==> (#[trigger] out@[i]).0 as int == whole[i].0 && out@[i].1 as int == whole[i].1,
            forall|i: int| 0 <= i < line_ranges(s@, k as int, start as int).len() ==>
                whole[out@.len() + i] == #[trigger] line_ranges(s@, k as int, start as int)[i],
        decreases s.len() - k,
    {
        if s[k] == '\n' {
            let ghost before = line_ranges(s@, k as int, start as int);
            let ghost rest = line_ranges(s@, k + 1, k + 1);
            let ghost n = out@.len();
            let end = if k > start && s[k - 1] == '\r' { k - 1 } else { k };
            assert(before == seq![(start as int, end as int)] + rest);
            assert(whole[n as int] == before[0]);
            out.push((start, end));
            assert forall|i: int| 0 <= i < rest.len() implies whole[out@.len() + i] == #[trigger] rest[i] by {
                assert(before[i + 1] == rest[i]);
            }
            start = k + 1;
        }
        k = k + 1;
    }
    if start < s.len() {
        let ghost tail = line_ranges(s@, k as int, start as int);
        assert(tail == seq![(start as int, s.len() as int)]);
        assert(whole[out@.len() + 0int] == tail[0]);
        out.push((start, s.len()));
    }
    out
}

/// The model of `parse_module`'s result.
pub open spec fn module_result(r: Result<Module, Vec<Diagnostic>>) -> Result<ModuleV, Seq<DiagnosticV>> {
    match r {
        Ok(m) => Ok(m@),
        Err(ds) => Err(ds@.map_values(|d: Diagnostic| d@)),
    }
}

fn finish_exec(st: ReadState) -> (r: Result<Module, Vec<Diagnostic>>)
    ensures
        module_result(r) == finish_read(st@),
{
    let ReadState { module_name, imports, items, theory, bridge, mut diags } = st;
    let ghost d0 = diags@.map_values(|d: Diagnostic| d@);
    match theory {
        Some(th) => {
            let mut msg = String::from_str("unclosed theory block '");
            msg.append(th.name.as_str());
            msg.append("'; missing '}'");
            let d = Diagnostic::error(DiagnosticKind::ParseError, None, msg.as_str());
            let ghost old = diags@;
            diags.push(d);
            assert(diags@.map_values(|x: Diagnostic| x@) =~= old.map_values(|x: Diagnostic| x@).push(d@));
        },
        None => {},
    }
    match bridge {
        Some(b) => {
            let mut msg = String::from_str("unclosed bridge block '");
            msg.append(b.name.as_str());
            msg.append("'; missing '}'");
            let d = Diagnostic::error(DiagnosticKind::ParseError, None, msg.as_str());
            let ghost old = diags@;
            diags.push(d);
            assert(diags@.map_values(|x: Diagnostic| x@) =~= old.map_values(|x: Diagnostic| x@).push(d@));
        },
        None => {},
    }
    if diags.len() > 0 {
        return Err(diags);
    }
    let name = match module_name {
        Some(n) => n,
        None => String::from_str("anonymous"),
    };
    Ok(Module { name, imports, items })
}

/// Reads a module file: its name, imports, theory blocks and bridges, or every
/// diagnostic found, in line order.
pub fn parse_module(source: &str) -> (r: Result<Module, Vec<Diagnostic>>)
    requires
        fits_source(source@),
    ensures
        module_result(r) == parse_module_spec(source@),
{
    let s = chars_of(source);
    let ranges = source_line_ranges(&s);
    let ghost lines = source_lines(source@);
    proof {
        lemma_line_ranges_bounds(s@, 0, 0);
    }
    let mut st = ReadState {
        module_name: None,
        imports: Vec::new(),
        items: Vec::new(),
        theory: None,
        bridge: None,
        diags: Vec::new(),
    };
    assert(st@.imports =~= Seq::<Seq<char>>::empty());
    assert(st@.items =~= Seq::<ModuleItemV>::empty());
    assert(st@.diags =~= Seq::<DiagnosticV>::empty());
    let mut i: usize = 0;
    while i < ranges.len()
        invariant
            s@ == source@,
            fits_source(source@),
            lines == source_lines(source@),
            ranges@.len() == lines.len(),
            forall|j: int| 0 <= j < ranges@.len() ==> (#[trigger] ranges@[j]).0 as int == line_ranges(s@, 0, 0)[j].0
                && ranges@[j].1 as int == line_ranges(s@, 0, 0)[j].1,
            forall|j: int| 0 <= j < line_ranges(s@, 0, 0).len() ==> {
                let p = #[trigger] line_ranges(s@, 0, 0)[j];
                0 <= p.0 <= p.1 <= s@.len()
            },
            i <= ranges.len(),
            st@ == read_lines(lines, i as int),
        decreases ranges.len() - i,
    {
        let (a, b) = ranges[i];
        assert(line_ranges(s@, 0, 0)[i as int].0 == a && line_ranges(s@, 0, 0)[i as int].1 == b);
        let raw = text_range(source, a, b);
        proof {
            lemma_fits_subrange(source@, a as int, b as int);
            assert(lines[i as int] == raw@);
        }
        st = read_line_exec(st, raw.as_str(), i + 1);
        i = i + 1;
    }
    finish_exec(st)
}

} // verus!
