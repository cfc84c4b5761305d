//! The expression parser.
//!
//! Columns are 1-based byte offsets into the source line, as in UTF-8 text.

use vstd::prelude::*;
use vstd::string::*;

use crate::ast::{args_model, ExprKindV, ExprV, Expr, ExprKind};
use crate::diagnostics::{Diagnostic, DiagnosticKind, DiagnosticV, Severity, SourceSpan};
use crate::text::{chars_of, is_ws};

verus! {

/// Bytes taken by one character in UTF-8.
pub open spec fn char_width(c: char) -> nat {
    if (c as u32) < 0x80 {
        1
    } else if (c as u32) < 0x800 {
        2
    } else if (c as u32) < 0x10000 {
        3
    } else {
        4
    }
}

/// Bytes taken by a character sequence in UTF-8.
pub open spec fn byte_len(s: Seq<char>) -> nat
    decreases s.len(),
{
    if s.len() == 0 {
        0
    } else {
        byte_len(s.drop_last()) + char_width(s.last())
    }
}

/// Byte offset of character position `k`.
pub open spec fn byte_pos(s: Seq<char>, k: int) -> int {
    byte_len(s.take(k)) as int
}

pub proof fn lemma_byte_len_bound(s: Seq<char>)
    ensures
        s.len() <= byte_len(s) <= 4 * s.len(),
    decreases s.len(),
{
    if s.len() > 0 {
        lemma_byte_len_bound(s.drop_last());
    }
}

pub proof fn lemma_byte_pos_mono(s: Seq<char>, j: int, k: int)
    requires
        0 <= j <= k <= s.len(),
    ensures
        byte_pos(s, j) + (k - j) <= byte_pos(s, k) <= byte_pos(s, j) + 4 * (k - j),
    decreases k - j,
{
    if j < k {
        lemma_byte_pos_mono(s, j, k - 1);
        assert(s.take(k).drop_last() =~= s.take(k - 1));
    }
}

pub(crate) fn char_width_of(c: char) -> (r: usize)
    ensures
        r == char_width(c),
{
    let v = c as u32;
    if v < 0x80 {
        1
    } else if v < 0x800 {
        2
    } else if v < 0x10000 {
        3
    } else {
        4
    }
}

/// `offs` holds the byte offset of every character position of `s`, the end included.
pub open spec fn offsets_of(s: Seq<char>, offs: Seq<usize>) -> bool {
    &&& offs.len() == s.len() + 1
    &&& forall|k: int| 0 <= k <= s.len() ==> #[trigger] offs[k] == byte_pos(s, k)
}

/// Byte offsets of every character position, the end included.
pub(crate) fn byte_offsets(s: &Vec<char>) -> (r: Vec<usize>)
    requires
        byte_len(s@) <= usize::MAX,
    ensures
        offsets_of(s@, r@),
{
    let mut r: Vec<usize> = Vec::new();
    r.push(0);
    assert(s@.take(0) =~= Seq::<char>::empty());
    assert(s@.take(s@.len() as int) =~= s@);
    let mut acc: usize = 0;
    let mut i: usize = 0;
    while i < s.len()
        invariant
            byte_len(s@) <= usize::MAX,
            byte_pos(s@, s@.len() as int) == byte_len(s@),
            i <= s.len(),
            r.len() == i + 1,
            acc == byte_pos(s@, i as int),
            forall|k: int| 0 <= k <= i ==> #[trigger] r@[k] == byte_pos(s@, k),
        decreases s.len() - i,
    {
        proof {
            lemma_byte_pos_mono(s@, i + 1, s@.len() as int);
            assert(s@.take(i + 1).drop_last() =~= s@.take(i as int));
        }
        acc = acc + char_width_of(s[i]);
        r.push(acc);
        i = i + 1;
    }
    r
}

pub open spec fn is_ident_start(c: char) -> bool {
    ('a' <= c && c <= 'z') || ('A' <= c && c <= 'Z') || c == '_'
}

pub open spec fn is_ident_char(c: char) -> bool {
    is_ident_start(c) || ('0' <= c && c <= '9')
}

/// An identifier: a letter or `_`, then letters, digits or `_` (ASCII).
pub open spec fn is_ident(t: Seq<char>) -> bool {
    t.len() > 0 && is_ident_start(t[0]) && forall|i: int| 1 <= i < t.len() ==> is_ident_char(#[trigger] t[i])
}

pub(crate) fn ident_range(s: &Vec<char>, a: usize, b: usize) -> (r: bool)
    requires
        a <= b <= s.len(),
    ensures
        r == is_ident(s@.subrange(a as int, b as int)),
{
    if a == b {
        return false;
    }
    let c = s[a];
    if !(('a' <= c && c <= 'z') || ('A' <= c && c <= 'Z') || c == '_') {
        return false;
    }
    let mut i = a + 1;
    while i < b
        invariant
            a < i <= b <= s.len(),
            forall|j: int| 1 <= j < i - a ==> is_ident_char(#[trigger] s@.subrange(a as int, b as int)[j]),
        decreases b - i,
    {
        let c = s[i];
        if !(('a' <= c && c <= 'z') || ('A' <= c && c <= 'Z') || c == '_' || ('0' <= c && c <= '9')) {
            assert(!is_ident_char(s@.subrange(a as int, b as int)[i - a]));
            return false;
        }
        i = i + 1;
    }
    true
}

/// All characters of `t` are ASCII digits.
pub open spec fn all_ascii_digits(t: Seq<char>) -> bool {
    forall|i: int| 0 <= i < t.len() ==> '0' <= #[trigger] t[i] && t[i] <= '9'
}

fn digits_range(s: &Vec<char>, a: usize, b: usize) -> (r: bool)
    requires
        a <= b <= s.len(),
    ensures
        r == all_ascii_digits(s@.subrange(a as int, b as int)),
{
    let mut i = a;
    while i < b
        invariant
            a <= i <= b <= s.len(),
            forall|j: int| 0 <= j < i - a ==> '0' <= #[trigger] s@.subrange(a as int, b as int)[j] && s@.subrange(a as int, b as int)[j] <= '9',
        decreases b - i,
    {
        let c = s[i];
        if !('0' <= c && c <= '9') {
            assert(s@.subrange(a as int, b as int)[i - a] == c);
            return false;
        }
        i = i + 1;
    }
    true
}

/// First position at or after `a` (before `b`) that is not whitespace.
pub open spec fn skip_ws_fwd(s: Seq<char>, a: int, b: int) -> int
    decreases b - a,
{
    if a < b && is_ws(s[a]) {
        skip_ws_fwd(s, a + 1, b)
    } else {
        a
    }
}

/// End of `s[a..b]` with trailing whitespace removed.
pub open spec fn skip_ws_back(s: Seq<char>, a: int, b: int) -> int
    decreases b - a,
{
    if a < b && is_ws(s[b - 1]) {
        skip_ws_back(s, a, b - 1)
    } else {
        b
    }
}

/// End of `s[a..b]` with trailing `c` characters removed.
pub open spec fn skip_char_back(s: Seq<char>, a: int, b: int, c: char) -> int
    decreases b - a,
{
    if a < b && s[b - 1] == c {
        skip_char_back(s, a, b - 1, c)
    } else {
        b
    }
}

/// Start of `s[a..b]` with leading `c` characters removed.
pub open spec fn skip_char_fwd(s: Seq<char>, a: int, b: int, c: char) -> int
    decreases b - a,
{
    if a < b && s[a] == c {
        skip_char_fwd(s, a + 1, b, c)
    } else {
        a
    }
}

pub(crate) fn ws_fwd(s: &Vec<char>, a: usize, b: usize) -> (r: usize)
    requires
        a <= b <= s.len(),
    ensures
        r == skip_ws_fwd(s@, a as int, b as int),
        a <= r <= b,
    decreases b - a,
{
    if a < b && crate::text::char_is_ws(s[a]) {
        ws_fwd(s, a + 1, b)
    } else {
        a
    }
}

pub(crate) fn ws_back(s: &Vec<char>, a: usize, b: usize) -> (r: usize)
    requires
        a <= b <= s.len(),
    ensures
        r == skip_ws_back(s@, a as int, b as int),
        a <= r <= b,
    decreases b - a,
{
    if a < b && crate::text::char_is_ws(s[b - 1]) {
        ws_back(s, a, b - 1)
    } else {
        b
    }
}

pub(crate) fn char_back(s: &Vec<char>, a: usize, b: usize, c: char) -> (r: usize)
    requires
        a <= b <= s.len(),
    ensures
        r == skip_char_back(s@, a as int, b as int, c),
        a <= r <= b,
    decreases b - a,
{
    if a < b && s[b - 1] == c {
        char_back(s, a, b - 1, c)
    } else {
        b
    }
}

pub(crate) fn char_fwd(s: &Vec<char>, a: usize, b: usize, c: char) -> (r: usize)
    requires
        a <= b <= s.len(),
    ensures
        r == skip_char_fwd(s@, a as int, b as int, c),
        a <= r <= b,
    decreases b - a,
{
    if a < b && s[a] == c {
        char_fwd(s, a + 1, b, c)
    } else {
        a
    }
}

pub proof fn lemma_skip_bounds(s: Seq<char>, a: int, b: int, c: char)
    requires
        a <= b,
    ensures
        a <= skip_ws_fwd(s, a, b) <= b,
        a <= skip_ws_back(s, a, b) <= b,
        a <= skip_char_back(s, a, b, c) <= b,
        a <= skip_char_fwd(s, a, b, c) <= b,
    decreases b - a,
{
    if a < b {
        lemma_skip_bounds(s, a + 1, b, c);
        lemma_skip_bounds(s, a, b - 1, c);
    }
}

/// The rightmost position in `s[a..k]` holding `needle` at parenthesis depth zero,
/// scanning right to left with `depth` counting `)` up and `(` down.
pub open spec fn rscan(s: Seq<char>, a: int, k: int, depth: int, needle: char) -> Option<int>
    decreases k - a,
{
    if k <= a {
        None
    } else {
        let c = s[k - 1];
        let d = if c == ')' { depth + 1 } else if c == '(' { depth - 1 } else { depth };
        if d == 0 && c == needle {
            Some(k - 1)
        } else {
            rscan(s, a, k - 1, d, needle)
        }
    }
}

pub proof fn lemma_rscan_bounds(s: Seq<char>, a: int, k: int, depth: int, needle: char)
    ensures
        rscan(s, a, k, depth, needle) matches Some(i) ==> a <= i < k && s[i] == needle,
    decreases k - a,
{
    if k > a {
        let c = s[k - 1];
        let d = if c == ')' { depth + 1 } else if c == '(' { depth - 1 } else { depth };
        lemma_rscan_bounds(s, a, k - 1, d, needle);
    }
}

pub(crate) fn split_top_level(s: &Vec<char>, a: usize, b: usize, needle: char) -> (r: Option<usize>)
    requires
        a <= b <= s.len(),
        b <= i64::MAX,
    ensures
        rscan(s@, a as int, b as int, 0, needle) == (match r {
            Some(i) => Some(i as int),
            None => None::<int>,
        }),
{
    let mut depth: i64 = 0;
    let mut k = b;
    while k > a
        invariant
            a <= k <= b <= s.len(),
            b <= i64::MAX,
            -(b - k) <= depth <= b - k,
            rscan(s@, a as int, b as int, 0, needle) == rscan(s@, a as int, k as int, depth as int, needle),
        decreases k - a,
    {
        let c = s[k - 1];
        if c == ')' {
            depth = depth + 1;
        } else if c == '(' {
            depth = depth - 1;
        }
        if depth == 0 && c == needle {
            return Some(k - 1);
        }
        k = k - 1;
    }
    None
}

/// First position of `c` in `s[a..b]`.
pub open spec fn find_char(s: Seq<char>, a: int, b: int, c: char) -> Option<int>
    decreases b - a,
{
    if a >= b {
        None
    } else if s[a] == c {
        Some(a)
    } else {
        find_char(s, a + 1, b, c)
    }
}

pub proof fn lemma_find_char_bounds(s: Seq<char>, a: int, b: int, c: char)
    ensures
        find_char(s, a, b, c) matches Some(i) ==> a <= i < b && s[i] == c,
    decreases b - a,
{
    if a < b {
        lemma_find_char_bounds(s, a + 1, b, c);
    }
}

pub(crate) fn find_char_in(s: &Vec<char>, a: usize, b: usize, c: char) -> (r: Option<usize>)
    requires
        a <= b <= s.len(),
    ensures
        find_char(s@, a as int, b as int, c) == (match r {
            Some(i) => Some(i as int),
            None => None::<int>,
        }),
    decreases b - a,
{
    if a >= b {
        None
    } else if s[a] == c {
        Some(a)
    } else {
        find_char_in(s, a + 1, b, c)
    }
}

/// Raw argument ranges of `s[a..b]`: split at `,` where the parenthesis depth,
/// counted from the start of the arguments, is zero.
pub open spec fn arg_ranges(s: Seq<char>, k: int, b: int, depth: int, start: int) -> Seq<(int, int)>
    decreases b - k,
{
    if k >= b {
        seq![(start, b)]
    } else {
        let c = s[k];
        if c == '(' {
            arg_ranges(s, k + 1, b, depth + 1, start)
        } else if c == ')' {
            arg_ranges(s, k + 1, b, depth - 1, start)
        } else if c == ',' && depth == 0 {
            seq![(start, k)] + arg_ranges(s, k + 1, b, depth, k + 1)
        } else {
            arg_ranges(s, k + 1, b, depth, start)
        }
    }
}

pub proof fn lemma_arg_ranges_bounds(s: Seq<char>, k: int, b: int, depth: int, start: int)
    requires
        start <= k <= b,
    ensures
        arg_ranges(s, k, b, depth, start).len() >= 1,
        forall|i: int| 0 <= i < arg_ranges(s, k, b, depth, start).len() ==> {
            let p = #[trigger] arg_ranges(s, k, b, depth, start)[i];
            start <= p.0 <= p.1 <= b
        },
    decreases b - k,
{
    if k < b {
        let c = s[k];
        if c == '(' {
            lemma_arg_ranges_bounds(s, k + 1, b, depth + 1, start);
        } else if c == ')' {
            lemma_arg_ranges_bounds(s, k + 1, b, depth - 1, start);
        } else if c == ',' && depth == 0 {
            lemma_arg_ranges_bounds(s, k + 1, b, depth, k + 1);
            let rest = arg_ranges(s, k + 1, b, depth, k + 1);
            assert forall|i: int| 0 <= i < arg_ranges(s, k, b, depth, start).len() implies {
                let p = #[trigger] arg_ranges(s, k, b, depth, start)[i];
                start <= p.0 <= p.1 <= b
            } by {
                if i > 0 {
                    assert(arg_ranges(s, k, b, depth, start)[i] == rest[i - 1]);
                }
            }
        } else {
            lemma_arg_ranges_bounds(s, k + 1, b, depth, start);
        }
    }
}

fn split_arg_ranges(s: &Vec<char>, a: usize, b: usize) -> (r: Vec<(usize, usize)>)
    requires
        a <= b <= s.len(),
        b <= i64::MAX,
    ensures
        r@.len() == arg_ranges(s@, a as int, b as int, 0, a as int).len(),
        forall|i: int| 0 <= i < r@.len() ==> (#[trigger] r@[i]).0 as int == arg_ranges(s@, a as int, b as int, 0, a as int)[i].0
            && r@[i].1 as int == arg_ranges(s@, a as int, b as int, 0, a as int)[i].1,
{
    let ghost whole = arg_ranges(s@, a as int, b as int, 0, a as int);
    let mut out: Vec<(usize, usize)> = Vec::new();
    let mut depth: i64 = 0;
    let mut start = a;
    let mut k = a;
    while k < b
        invariant
            a <= start <= k <= b <= s.len(),
            b <= i64::MAX,
            -(k - a) <= depth <= k - a,
            whole == arg_ranges(s@, a as int, b as int, 0, a as int),
            whole.len() == out@.len() + arg_ranges(s@, k as int, b as int, depth as int, start as int).len(),
            forall|i: int| 0 <= i < out@.len() ==> (#[trigger] out@[i]).0 as int == whole[i].0 && out@[i].1 as int == whole[i].1,
            forall|i: int| 0 <= i < arg_ranges(s@, k as int, b as int, depth as int, start as int).len() ==>
                whole[out@.len() + i] == #[trigger] arg_ranges(s@, k as int, b as int, depth as int, start as int)[i],
        decreases b - k,
    {
        let c = s[k];
        let ghost before = arg_ranges(s@, k as int, b as int, depth as int, start as int);
        let ghost n = out@.len();
        if c == '(' {
            depth = depth + 1;
        } else if c == ')' {
            depth = depth - 1;
        } else if c == ',' && depth == 0 {
            let ghost rest = arg_ranges(s@, k + 1, b as int, depth as int, k + 1);
            assert(before == seq![(start as int, k as int)] + rest);
            assert(whole[n as int] == before[0]);
            out.push((start, k));
            assert forall|i: int| 0 <= i < rest.len() implies whole[out@.len() + i] == #[trigger] rest[i] by {
                assert(before[i + 1] == rest[i]);
            }
            start = k + 1;
        }
        k = k + 1;
    }
    let ghost tail = arg_ranges(s@, k as int, b as int, depth as int, start as int);
    assert(tail == seq![(start as int, b as int)]);
    assert(tail[0] == (start as int, b as int));
    assert(whole[out@.len() + 0int] == tail[0]);
    out.push((start, b));
    out
}

/// The span of `len` columns at `col` on `line` (both at least 1).
pub open spec fn span_at(line: usize, col: int, len: int) -> SourceSpan {
    let c = if col >= 1 { col } else { 1 };
    let w = if len >= 1 { len } else { 1 };
    SourceSpan { start_line: line, start_col: c as usize, end_line: line, end_col: (c + w) as usize }
}

/// A parse error at a span.
pub open spec fn parse_error_at(span: SourceSpan, message: Seq<char>) -> DiagnosticV {
    DiagnosticV {
        severity: Severity::Error,
        kind: DiagnosticKind::ParseError,
        line: Some(span.start_line),
        span: Some(span),
        message,
        help: None,
    }
}

/// The expression text of `s[a..b]`: leading whitespace, then trailing whitespace,
/// semicolons and whitespace removed. Returns its range and its column.
pub open spec fn expr_bounds(s: Seq<char>, a: int, b: int, col: int) -> (int, int, int) {
    let a1 = skip_ws_fwd(s, a, b);
    let b1 = skip_ws_back(s, a1, b);
    let b2 = skip_char_back(s, a1, b1, ';');
    let b3 = skip_ws_back(s, a1, b2);
    (a1, b3, col + byte_pos(s, a1) - byte_pos(s, a))
}

/// The call shape `name(args)` of `s[a..b]`: the name range, and the range and
/// column of the text between the first `(` and the final `)`.
pub open spec fn call_parts(s: Seq<char>, a: int, b: int, col: int) -> Option<(int, int, int, int, int)> {
    match find_char(s, a, b, '(') {
        None => None,
        Some(open) => if b > a && s[b - 1] == ')' {
            let n0 = skip_ws_fwd(s, a, open);
            let n1 = skip_ws_back(s, n0, open);
            if is_ident(s.subrange(n0, n1)) {
                Some((n0, n1, open + 1, b - 1, col + byte_pos(s, open) - byte_pos(s, a) + 1))
            } else {
                None
            }
        } else {
            None
        },
    }
}

/// Result of parsing `s[a..b]` as an expression on `line` starting at column `col`.
pub open spec fn parse_expr_spec(s: Seq<char>, a: int, b: int, line: usize, col: int) -> Result<ExprV, DiagnosticV>
    decreases b - a, 2nat, 0int,
    when a <= b
{
    let (a1, e, c1) = expr_bounds(s, a, b, col);
    proof {
        lemma_expr_bounds(s, a, b, col);
    }
    if a1 >= e {
        Err(parse_error_at(span_at(line, c1, 1), "empty expression"@))
    } else {
        match binary_split(s, a1, e) {
            Some((op, k)) => {
                proof {
                    lemma_binary_split(s, a1, e);
                }
                match parse_expr_spec(s, a1, k, line, c1) {
                    Err(d) => Err(d),
                    Ok(lhs) => match parse_expr_spec(s, k + 1, e, line, c1 + byte_pos(s, k) - byte_pos(s, a1) + 1) {
                        Err(d) => Err(d),
                        Ok(rhs) => Ok(ExprV { kind: binary_kind(op, lhs, rhs), line }),
                    },
                }
            },
            None => parse_atom_spec(s, a1, e, line, c1),
        }
    }
}

/// Result of parsing the trimmed text `s[a..e]`, which holds no operator at depth zero:
/// a literal, a call, a qualified name or a name.
pub open spec fn parse_atom_spec(s: Seq<char>, a: int, e: int, line: usize, col: int) -> Result<ExprV, DiagnosticV>
    decreases e - a, 1nat, 0int,
    when a <= e
{
    if all_ascii_digits(s.subrange(a, e)) {
        Ok(ExprV { kind: ExprKindV::IntLiteral(s.subrange(a, e)), line })
    } else {
        match call_parts(s, a, e, col) {
            Some((n0, n1, p0, p1, pc)) => if skip_ws_fwd(s, p0, p1) == p1 {
                Ok(ExprV { kind: ExprKindV::Call { name: s.subrange(n0, n1), args: Seq::empty() }, line })
            } else {
                match parse_args_spec(s, p0, p1, pc, line, e - a, arg_ranges(s, p0, p1, 0, p0).len() as int) {
                    Err(d) => Err(d),
                    Ok(args) => Ok(ExprV { kind: ExprKindV::Call { name: s.subrange(n0, n1), args }, line }),
                }
            },
            None => match find_char(s, a, e, '.') {
                Some(dot) if is_ident(s.subrange(a, dot)) && is_ident(s.subrange(dot + 1, e)) => Ok(ExprV {
                    kind: ExprKindV::QualifiedIdent { theory: s.subrange(a, dot), name: s.subrange(dot + 1, e) },
                    line,
                }),
                _ => if is_ident(s.subrange(a, e)) {
                    Ok(ExprV { kind: ExprKindV::Ident(s.subrange(a, e)), line })
                } else {
                    Err(parse_error_at(
                        span_at(line, col, byte_pos(s, e) - byte_pos(s, a)),
                        "could not parse expression '"@ + s.subrange(a, e) + "'"@,
                    ))
                },
            },
        }
    }
}

/// The node a binary operator builds.
pub open spec fn binary_kind(op: char, lhs: ExprV, rhs: ExprV) -> ExprKindV {
    if op == '>' {
        ExprKindV::CompareGt { lhs: Box::new(lhs), rhs: Box::new(rhs) }
    } else if op == '+' {
        ExprKindV::Add { lhs: Box::new(lhs), rhs: Box::new(rhs) }
    } else {
        ExprKindV::Power { base: Box::new(lhs), exp: Box::new(rhs) }
    }
}

pub proof fn lemma_expr_bounds(s: Seq<char>, a: int, b: int, col: int)
    requires
        a <= b,
    ensures
        a <= expr_bounds(s, a, b, col).0 <= b,
        expr_bounds(s, a, b, col).0 <= expr_bounds(s, a, b, col).1 <= b,
{
    let a1 = skip_ws_fwd(s, a, b);
    lemma_skip_bounds(s, a, b, ';');
    let b1 = skip_ws_back(s, a1, b);
    lemma_skip_bounds(s, a1, b, ';');
    let b2 = skip_char_back(s, a1, b1, ';');
    lemma_skip_bounds(s, a1, b1, ';');
    lemma_skip_bounds(s, a1, b2, ';');
}

pub proof fn lemma_binary_split(s: Seq<char>, a: int, e: int)
    ensures
        binary_split(s, a, e) matches Some((op, k)) ==> a <= k < e && s[k] == op,
{
    lemma_rscan_bounds(s, a, e, 0, '>');
    lemma_rscan_bounds(s, a, e, 0, '+');
    lemma_rscan_bounds(s, a, e, 0, '^');
}

/// The operator an expression splits at, tried in order `>`, `+`, `^`, and its position.
pub open spec fn binary_split(s: Seq<char>, a: int, e: int) -> Option<(char, int)> {
    match rscan(s, a, e, 0, '>') {
        Some(k) => Some(('>', k)),
        None => match rscan(s, a, e, 0, '+') {
            Some(k) => Some(('+', k)),
            None => match rscan(s, a, e, 0, '^') {
                Some(k) => Some(('^', k)),
                None => None,
            },
        },
    }
}

/// Result of parsing the first `n` arguments of the call whose arguments are `s[p0..p1]`
/// at column `pc`; `bound` is the length of the whole call text.
pub open spec fn parse_args_spec(s: Seq<char>, p0: int, p1: int, pc: int, line: usize, bound: int, n: int) -> Result<Seq<ExprV>, DiagnosticV>
    decreases bound, 0nat, n,
{
    if n <= 0 {
        Ok(Seq::empty())
    } else {
        match parse_args_spec(s, p0, p1, pc, line, bound, n - 1) {
            Err(d) => Err(d),
            Ok(prev) => {
                let ranges = arg_ranges(s, p0, p1, 0, p0);
                if n - 1 < ranges.len() {
                    let (st, en) = ranges[n - 1];
                    let ts = skip_ws_fwd(s, st, en);
                    let te = skip_ws_back(s, ts, en);
                    let acol = pc + byte_pos(s, ts) - byte_pos(s, p0);
                    if ts <= te && te - ts < bound {
                        match parse_expr_spec(s, ts, te, line, acol) {
                            Err(d) => Err(d),
                            Ok(arg) => Ok(prev.push(arg)),
                        }
                    } else {
                        Ok(prev)
                    }
                } else {
                    Ok(prev)
                }
            },
        }
    }
}


/// The model of a parse result.
pub open spec fn expr_result(r: Result<Expr, Diagnostic>) -> Result<ExprV, DiagnosticV> {
    match r {
        Ok(e) => Ok(e@),
        Err(d) => Err(d@),
    }
}

/// What the expression parser needs to know of the line it works in.
pub open spec fn line_ok(text: Seq<char>, s: Seq<char>, offs: Seq<usize>) -> bool {
    &&& text == s
    &&& offsets_of(s, offs)
    &&& fits_source(s)
}

/// The text is small enough that every column computed in it fits in a `usize`
/// (a string holds at most `isize::MAX` bytes).
pub open spec fn fits_source(s: Seq<char>) -> bool {
    4 * byte_len(s) + 64 <= usize::MAX
}

pub proof fn lemma_line_ok(s: Seq<char>, offs: Seq<usize>)
    requires
        offsets_of(s, offs),
        fits_source(s),
    ensures
        s.len() <= byte_len(s),
        byte_pos(s, s.len() as int) == byte_len(s),
        s.len() <= i64::MAX,
{
    lemma_byte_len_bound(s);
    assert(s.take(s.len() as int) =~= s);
}

fn binary_split_in(s: &Vec<char>, a: usize, e: usize) -> (r: Option<(char, usize)>)
    requires
        a <= e <= s.len(),
        e <= i64::MAX,
    ensures
        binary_split(s@, a as int, e as int) == (match r {
            Some((op, k)) => Some((op, k as int)),
            None => None::<(char, int)>,
        }),
        r matches Some((op, k)) ==> a <= k < e,
{
    proof {
        lemma_binary_split(s@, a as int, e as int);
    }
    match split_top_level(s, a, e, '>') {
        Some(k) => Some(('>', k)),
        None => match split_top_level(s, a, e, '+') {
            Some(k) => Some(('+', k)),
            None => match split_top_level(s, a, e, '^') {
                Some(k) => Some(('^', k)),
                None => None,
            },
        },
    }
}

/// The text of `s[a..b]` as a string.
pub(crate) fn text_range(text: &str, a: usize, b: usize) -> (r: String)
    requires
        a <= b <= text@.len(),
    ensures
        r@ == text@.subrange(a as int, b as int),
{
    String::from_str(text.substring_char(a, b))
}

/// Once an argument fails, the result for every longer prefix is that failure.
proof fn lemma_args_err_stable(s: Seq<char>, p0: int, p1: int, pc: int, line: usize, bound: int, m: int, n: int)
    requires
        0 <= m <= n,
        parse_args_spec(s, p0, p1, pc, line, bound, m) is Err,
    ensures
        parse_args_spec(s, p0, p1, pc, line, bound, n) == parse_args_spec(s, p0, p1, pc, line, bound, m),
    decreases n - m,
{
    if m < n {
        lemma_args_err_stable(s, p0, p1, pc, line, bound, m, n - 1);
    }
}

/// Parses `s[a..b]`, which starts at column `col`, as an expression on `line`.
pub(crate) fn parse_expr_in(text: &str, s: &Vec<char>, offs: &Vec<usize>, a: usize, b: usize, line: usize, col: usize)
    -> (r: Result<Expr, Diagnostic>)
    requires
        line_ok(text@, s@, offs@),
        a <= b <= s.len(),
        col - byte_pos(s@, a as int) + byte_len(s@) + 2 <= usize::MAX,
    ensures
        expr_result(r) == parse_expr_spec(s@, a as int, b as int, line, col as int),
    decreases b - a, 2nat,
{
    proof {
        lemma_line_ok(s@, offs@);
    }
    let a1 = ws_fwd(s, a, b);
    let b1 = ws_back(s, a1, b);
    let b2 = char_back(s, a1, b1, ';');
    let e = ws_back(s, a1, b2);
    proof {
        lemma_byte_pos_mono(s@, a as int, a1 as int);
        lemma_byte_pos_mono(s@, a1 as int, e as int);
        lemma_byte_pos_mono(s@, e as int, s@.len() as int);
        lemma_expr_bounds(s@, a as int, b as int, col as int);
    }
    let c1 = col + (offs[a1] - offs[a]);
    assert(expr_bounds(s@, a as int, b as int, col as int) == (a1 as int, e as int, c1 as int));
    if a1 >= e {
        return Err(Diagnostic::error_at(DiagnosticKind::ParseError, SourceSpan::line_col(line, c1, 1), "empty expression"));
    }
    match binary_split_in(s, a1, e) {
        Some((op, k)) => {
            proof {
                lemma_byte_pos_mono(s@, a1 as int, k as int);
                lemma_byte_pos_mono(s@, k as int, k + 1);
                lemma_byte_pos_mono(s@, k + 1, e as int);
            }
            let lhs = match parse_expr_in(text, s, offs, a1, k, line, c1) {
                Ok(x) => x,
                Err(d) => return Err(d),
            };
            let c2 = c1 + (offs[k] - offs[a1]) + 1;
            let rhs = match parse_expr_in(text, s, offs, k + 1, e, line, c2) {
                Ok(x) => x,
                Err(d) => return Err(d),
            };
            let ghost lv = lhs@;
            let ghost rv = rhs@;
            let kind = if op == '>' {
                ExprKind::CompareGt { lhs: Box::new(lhs), rhs: Box::new(rhs) }
            } else if op == '+' {
                ExprKind::Add { lhs: Box::new(lhs), rhs: Box::new(rhs) }
            } else {
                ExprKind::Power { base: Box::new(lhs), exp: Box::new(rhs) }
            };
            let r = Expr { kind, line };
            assert(r@ == (ExprV { kind: binary_kind(op, lv, rv), line }));
            Ok(r)
        },
        None => parse_atom_in(text, s, offs, a1, e, line, c1),
    }
}

/// Parses the trimmed, operator-free text `s[a..e]` at column `col`.
fn parse_atom_in(text: &str, s: &Vec<char>, offs: &Vec<usize>, a: usize, e: usize, line: usize, col: usize)
    -> (r: Result<Expr, Diagnostic>)
    requires
        line_ok(text@, s@, offs@),
        a < e <= s.len(),
        col - byte_pos(s@, a as int) + byte_len(s@) + 2 <= usize::MAX,
    ensures
        expr_result(r) == parse_atom_spec(s@, a as int, e as int, line, col as int),
    decreases e - a, 1nat,
{
    proof {
        lemma_line_ok(s@, offs@);
        lemma_byte_pos_mono(s@, a as int, e as int);
        lemma_byte_pos_mono(s@, e as int, s@.len() as int);
    }
    if digits_range(s, a, e) {
        return Ok(Expr { kind: ExprKind::IntLiteral(text_range(text, a, e)), line });
    }
    match find_char_in(s, a, e, '(') {
        Some(open) => {
            proof {
                lemma_find_char_bounds(s@, a as int, e as int, '(');
            }
            if s[e - 1] == ')' {
                let n0 = ws_fwd(s, a, open);
                let n1 = ws_back(s, n0, open);
                if ident_range(s, n0, n1) {
                    let p0 = open + 1;
                    let p1 = e - 1;
                    proof {
                        lemma_byte_pos_mono(s@, a as int, open as int);
                        lemma_byte_pos_mono(s@, open as int, p0 as int);
                        lemma_byte_pos_mono(s@, p0 as int, e as int);
                    }
                    let pc = col + (offs[open] - offs[a]) + 1;
                    let name = text_range(text, n0, n1);
                    assert(call_parts(s@, a as int, e as int, col as int) == Some((n0 as int, n1 as int, p0 as int, p1 as int, pc as int)));
                    if ws_fwd(s, p0, p1) == p1 {
                        let args: Vec<Expr> = Vec::new();
                        assert(args@ =~= Seq::<Expr>::empty());
                        let ghost nv = name@;
                        let r = Expr { kind: ExprKind::Call { name, args }, line };
                        assert(args_model(Seq::<Expr>::empty()) =~= Seq::<ExprV>::empty());
                        assert(r@ == (ExprV { kind: ExprKindV::Call { name: nv, args: Seq::empty() }, line }));
                        return Ok(r);
                    }
                    let ranges = split_arg_ranges(s, p0, p1);
                    let args = match parse_args_in(text, s, offs, &ranges, p0, p1, pc, line, e - a) {
                        Ok(x) => x,
                        Err(d) => return Err(d),
                    };
                    return Ok(Expr { kind: ExprKind::Call { name, args }, line });
                }
            }
        },
        None => {},
    }
    match find_char_in(s, a, e, '.') {
        Some(dot) => {
            proof {
                lemma_find_char_bounds(s@, a as int, e as int, '.');
            }
            if ident_range(s, a, dot) && ident_range(s, dot + 1, e) {
                return Ok(Expr {
                    kind: ExprKind::QualifiedIdent { theory: text_range(text, a, dot), name: text_range(text, dot + 1, e) },
                    line,
                });
            }
        },
        None => {},
    }
    if ident_range(s, a, e) {
        return Ok(Expr { kind: ExprKind::Ident(text_range(text, a, e)), line });
    }
    let mut msg = String::from_str("could not parse expression '");
    msg.append(text.substring_char(a, e));
    msg.append("'");
    let span = SourceSpan::line_col(line, col, offs[e] - offs[a]);
    Err(Diagnostic::error_at(DiagnosticKind::ParseError, span, msg.as_str()))
}

/// Parses each argument range of a call, in order; the first failure is returned.
fn parse_args_in(
    text: &str,
    s: &Vec<char>,
    offs: &Vec<usize>,
    ranges: &Vec<(usize, usize)>,
    p0: usize,
    p1: usize,
    pc: usize,
    line: usize,
    bound: usize,
) -> (r: Result<Vec<Expr>, Diagnostic>)
    requires
        line_ok(text@, s@, offs@),
        p0 <= p1 <= s.len(),
        p1 - p0 < bound,
        pc - byte_pos(s@, p0 as int) + byte_len(s@) + 2 <= usize::MAX,
        ranges@.len() == arg_ranges(s@, p0 as int, p1 as int, 0, p0 as int).len(),
        forall|j: int| 0 <= j < ranges@.len() ==> (#[trigger] ranges@[j]).0 as int
            == arg_ranges(s@, p0 as int, p1 as int, 0, p0 as int)[j].0
            && ranges@[j].1 as int == arg_ranges(s@, p0 as int, p1 as int, 0, p0 as int)[j].1,
    ensures
        match r {
            Ok(args) => parse_args_spec(s@, p0 as int, p1 as int, pc as int, line, bound as int, ranges@.len() as int)
                == Ok::<Seq<ExprV>, DiagnosticV>(args_model(args@)),
            Err(d) => parse_args_spec(s@, p0 as int, p1 as int, pc as int, line, bound as int, ranges@.len() as int)
                == Err::<Seq<ExprV>, DiagnosticV>(d@),
        },
    decreases bound, 0nat,
{
    let ghost all = arg_ranges(s@, p0 as int, p1 as int, 0, p0 as int);
    proof {
        lemma_arg_ranges_bounds(s@, p0 as int, p1 as int, 0, p0 as int);
        lemma_line_ok(s@, offs@);
    }
    let mut args: Vec<Expr> = Vec::new();
    assert(args@ =~= Seq::<Expr>::empty());
    let mut i: usize = 0;
    while i < ranges.len()
        invariant
            line_ok(text@, s@, offs@),
            s.len() <= byte_len(s@),
            byte_pos(s@, s@.len() as int) == byte_len(s@),
            p0 <= p1 <= s.len(),
            p1 - p0 < bound,
            pc - byte_pos(s@, p0 as int) + byte_len(s@) + 2 <= usize::MAX,
            all == arg_ranges(s@, p0 as int, p1 as int, 0, p0 as int),
            ranges@.len() == all.len(),
            forall|j: int| 0 <= j < ranges@.len() ==> (#[trigger] ranges@[j]).0 as int == all[j].0
                && ranges@[j].1 as int == all[j].1,
            forall|j: int| 0 <= j < all.len() ==> {
                let p = #[trigger] all[j];
                p0 <= p.0 <= p.1 <= p1
            },
            i <= ranges.len(),
            parse_args_spec(s@, p0 as int, p1 as int, pc as int, line, bound as int, i as int)
                == Ok::<Seq<ExprV>, DiagnosticV>(args_model(args@)),
        decreases ranges.len() - i,
    {
        let (st, en) = ranges[i];
        assert(all[i as int].0 == st && all[i as int].1 == en);
        let ts = ws_fwd(s, st, en);
        let te = ws_back(s, ts, en);
        proof {
            lemma_byte_pos_mono(s@, p0 as int, ts as int);
            lemma_byte_pos_mono(s@, ts as int, s@.len() as int);
        }
        let acol = pc + (offs[ts] - offs[p0]);
        let ghost prev = args_model(args@);
        let ghost old_args = args@;
        match parse_expr_in(text, s, offs, ts, te, line, acol) {
            Ok(arg) => {
                let ghost av = arg@;
                args.push(arg);
                assert(args@.drop_last() =~= old_args);
                assert(args_model(args@) == prev.push(av));
            },
            Err(d) => {
                proof {
                    lemma_args_err_stable(s@, p0 as int, p1 as int, pc as int, line, bound as int, i + 1, ranges@.len() as int);
                }
                return Err(d);
            },
        }
        i = i + 1;
    }
    Ok(args)
}


/// Byte length of a concatenation.
pub proof fn lemma_byte_len_concat(x: Seq<char>, y: Seq<char>)
    ensures
        byte_len(x + y) == byte_len(x) + byte_len(y),
    decreases y.len(),
{
    if y.len() > 0 {
        lemma_byte_len_concat(x, y.drop_last());
        assert((x + y).drop_last() =~= x + y.drop_last());
    } else {
        assert(x + y =~= x);
    }
}

/// A part of a text takes no more bytes than the text.
pub proof fn lemma_byte_len_subrange(s: Seq<char>, i: int, j: int)
    requires
        0 <= i <= j <= s.len(),
    ensures
        byte_len(s.subrange(i, j)) + byte_pos(s, i) == byte_pos(s, j),
        byte_len(s.subrange(i, j)) <= byte_len(s),
{
    lemma_byte_len_concat(s.take(i), s.subrange(i, j));
    assert(s.take(i) + s.subrange(i, j) =~= s.take(j));
    lemma_byte_len_concat(s.take(j), s.subrange(j, s.len() as int));
    assert(s.take(j) + s.subrange(j, s.len() as int) =~= s);
}

/// Parses `text` as an expression on `line`; its first character is in column 1.
pub fn parse_expr(text: &str, line: usize) -> (r: Result<Expr, Diagnostic>)
    requires
        fits_source(text@),
    ensures
        expr_result(r) == parse_expr_spec(text@, 0, text@.len() as int, line, 1),
{
    let s = chars_of(text);
    let offs = byte_offsets(&s);
    proof {
        assert(s@.take(0) =~= Seq::<char>::empty());
    }
    parse_expr_in(text, &s, &offs, 0, s.len(), line, 1)
}

/// How a character changes the parenthesis depth, counted right to left.
pub open spec fn paren_step(c: char) -> int {
    if c == ')' {
        1
    } else if c == '(' {
        -1
    } else {
        0
    }
}

/// The closing parentheses in `s[j..e]` minus the opening ones: a character at
/// `j` stands outside every parenthesis of `s[..e]` when this is zero.
pub open spec fn paren_depth(s: Seq<char>, j: int, e: int) -> int
    decreases e - j,
{
    if j >= e {
        0
    } else {
        paren_step(s[j]) + paren_depth(s, j + 1, e)
    }
}

/// Position `j` of `s[..e]` holds a character that no parenthesis encloses.
pub open spec fn top_level(s: Seq<char>, j: int, e: int) -> bool {
    paren_depth(s, j, e) == 0
}

proof fn lemma_paren_depth_last(s: Seq<char>, j: int, k: int)
    requires
        j < k,
    ensures
        paren_depth(s, j, k) == paren_depth(s, j, k - 1) + paren_step(s[k - 1]),
    decreases k - j,
{
    if j < k - 1 {
        lemma_paren_depth_last(s, j + 1, k);
    } else {
        assert(paren_depth(s, k, k) == 0);
        assert(paren_depth(s, k - 1, k - 1) == 0);
    }
}

proof fn lemma_rscan_finds_last(s: Seq<char>, a: int, k: int, depth: int, needle: char)
    ensures
        rscan(s, a, k, depth, needle) matches Some(i) ==> a <= i < k && s[i] == needle && depth + paren_depth(s, i, k) == 0
            && forall|j: int| i < j < k && s[j] == needle ==> depth + paren_depth(s, j, k) != 0,
        rscan(s, a, k, depth, needle) is None ==> forall|j: int|
            a <= j < k && s[j] == needle ==> depth + paren_depth(s, j, k) != 0,
    decreases k - a,
{
    if k > a {
        let c = s[k - 1];
        let d = depth + paren_step(c);
        assert(paren_depth(s, k, k) == 0);
        assert(paren_depth(s, k - 1, k) == paren_step(c));
        lemma_rscan_finds_last(s, a, k - 1, d, needle);
        assert forall|j: int| a <= j < k - 1 implies depth + paren_depth(s, j, k) == d + paren_depth(s, j, k - 1) by {
            lemma_paren_depth_last(s, j, k);
        }
    }
}

/// `s[a..e]` holds `c` at some position outside every parenthesis.
pub open spec fn has_top_level(s: Seq<char>, a: int, e: int, c: char) -> bool {
    exists|j: int| a <= j < e && s[j] == c && top_level(s, j, e)
}

/// `k` is the last position of `s[a..e]` holding `c` outside every parenthesis.
pub open spec fn last_top_level(s: Seq<char>, a: int, e: int, k: int, c: char) -> bool {
    &&& a <= k < e
    &&& s[k] == c
    &&& top_level(s, k, e)
    &&& forall|j: int| k < j < e && s[j] == c ==> !top_level(s, j, e)
}

/// The parses of `s[a..k]` and `s[k+1..e]`, or the first error among them.
pub open spec fn parse_sides(s: Seq<char>, a: int, k: int, e: int, line: usize, col: int) -> Result<(ExprV, ExprV), DiagnosticV> {
    match parse_expr_spec(s, a, k, line, col) {
        Err(d) => Err(d),
        Ok(lhs) => match parse_expr_spec(s, k + 1, e, line, col + byte_pos(s, k) - byte_pos(s, a) + 1) {
            Err(d) => Err(d),
            Ok(rhs) => Ok((lhs, rhs)),
        },
    }
}

proof fn lemma_split_finds_last(s: Seq<char>, a: int, e: int)
    ensures
        has_top_level(s, a, e, '>') ==> exists|k: int| last_top_level(s, a, e, k, '>') && binary_split(s, a, e) == Some(('>', k)),
        !has_top_level(s, a, e, '>') && has_top_level(s, a, e, '+') ==> exists|k: int|
            last_top_level(s, a, e, k, '+') && binary_split(s, a, e) == Some(('+', k)),
        !has_top_level(s, a, e, '>') && !has_top_level(s, a, e, '+') && has_top_level(s, a, e, '^') ==> exists|k: int|
            last_top_level(s, a, e, k, '^') && binary_split(s, a, e) == Some(('^', k)),
{
    lemma_rscan_finds_last(s, a, e, 0, '>');
    lemma_rscan_finds_last(s, a, e, 0, '+');
    lemma_rscan_finds_last(s, a, e, 0, '^');
    if has_top_level(s, a, e, '>') {
        let j = choose|j: int| a <= j < e && s[j] == '>' && top_level(s, j, e);
        assert(0 + paren_depth(s, j, e) == 0);
        let k = rscan(s, a, e, 0, '>')->0;
        assert(last_top_level(s, a, e, k, '>'));
    } else {
        assert(rscan(s, a, e, 0, '>') is None) by {
            if rscan(s, a, e, 0, '>') is Some {
                let i = rscan(s, a, e, 0, '>')->0;
                assert(top_level(s, i, e));
            }
        }
        if has_top_level(s, a, e, '+') {
            let j = choose|j: int| a <= j < e && s[j] == '+' && top_level(s, j, e);
            assert(0 + paren_depth(s, j, e) == 0);
            let k = rscan(s, a, e, 0, '+')->0;
            assert(last_top_level(s, a, e, k, '+'));
        } else {
            assert(rscan(s, a, e, 0, '+') is None) by {
                if rscan(s, a, e, 0, '+') is Some {
                    let i = rscan(s, a, e, 0, '+')->0;
                    assert(top_level(s, i, e));
                }
            }
            if has_top_level(s, a, e, '^') {
                let j = choose|j: int| a <= j < e && s[j] == '^' && top_level(s, j, e);
                assert(0 + paren_depth(s, j, e) == 0);
                let k = rscan(s, a, e, 0, '^')->0;
                assert(last_top_level(s, a, e, k, '^'));
            }
        }
    }
}

/// Precedence and grouping of the binary operators: `>` binds loosest, then
/// `+`, then `^`, and each groups to the left. Of the trimmed text of an
/// expression, outside parentheses: if it holds a `>`, the expression is a
/// comparison of the text before and after the last `>`; else if it holds a
/// `+`, it is the sum of the text before and after the last `+`, whatever `^`
/// it holds (so `2 ^ 3 + 1` is `(2 ^ 3) + 1`); else if it holds a `^`, it is a
/// power of the text before and after the last `^`. A failure of either side is
/// the failure of the whole.
pub proof fn lemma_operator_precedence(s: Seq<char>, a: int, b: int, line: usize, col: int)
    requires
        a <= b,
    ensures
        ({
            let (a1, e, c1) = expr_bounds(s, a, b, col);
            let parsed = parse_expr_spec(s, a, b, line, col);
            &&& has_top_level(s, a1, e, '>') ==> exists|k: int|
                {
                    &&& last_top_level(s, a1, e, k, '>')
                    &&& parsed == match parse_sides(s, a1, k, e, line, c1) {
                        Err(d) => Err(d),
                        Ok((l, r)) => Ok(ExprV { kind: ExprKindV::CompareGt { lhs: Box::new(l), rhs: Box::new(r) }, line }),
                    }
                }
            &&& !has_top_level(s, a1, e, '>') && has_top_level(s, a1, e, '+') ==> exists|k: int|
                {
                    &&& last_top_level(s, a1, e, k, '+')
                    &&& parsed == match parse_sides(s, a1, k, e, line, c1) {
                        Err(d) => Err(d),
                        Ok((l, r)) => Ok(ExprV { kind: ExprKindV::Add { lhs: Box::new(l), rhs: Box::new(r) }, line }),
                    }
                }
            &&& !has_top_level(s, a1, e, '>') && !has_top_level(s, a1, e, '+') && has_top_level(s, a1, e, '^') ==> exists|k: int|
                {
                    &&& last_top_level(s, a1, e, k, '^')
                    &&& parsed == match parse_sides(s, a1, k, e, line, c1) {
                        Err(d) => Err(d),
                        Ok((l, r)) => Ok(ExprV { kind: ExprKindV::Power { base: Box::new(l), exp: Box::new(r) }, line }),
                    }
                }
        }),
{
    let (a1, e, c1) = expr_bounds(s, a, b, col);
    lemma_expr_bounds(s, a, b, col);
    lemma_split_finds_last(s, a1, e);
    lemma_binary_split(s, a1, e);
}

} // verus!
