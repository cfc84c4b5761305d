//! Text building blocks: decimal and hexadecimal rendering, comparison,
//! trimming and joining, each specified over the `Seq<char>` view of a string.

use vstd::prelude::*;
use vstd::string::*;

verus! {

/// The text of one decimal digit.
pub open spec fn digit_text(d: nat) -> Seq<char> {
    if d == 0 {
        "0"@
    } else if d == 1 {
        "1"@
    } else if d == 2 {
        "2"@
    } else if d == 3 {
        "3"@
    } else if d == 4 {
        "4"@
    } else if d == 5 {
        "5"@
    } else if d == 6 {
        "6"@
    } else if d == 7 {
        "7"@
    } else if d == 8 {
        "8"@
    } else {
        "9"@
    }
}

/// Decimal rendering of a natural number, most significant digit first.
pub open spec fn dec_text(n: nat) -> Seq<char>
    decreases n,
{
    if n < 10 {
        digit_text(n)
    } else {
        dec_text(n / 10) + digit_text(n % 10)
    }
}

/// The text of one lower-case hexadecimal digit.
pub open spec fn hex_digit_text(d: nat) -> Seq<char> {
    if d < 10 {
        digit_text(d)
    } else if d == 10 {
        "a"@
    } else if d == 11 {
        "b"@
    } else if d == 12 {
        "c"@
    } else if d == 13 {
        "d"@
    } else if d == 14 {
        "e"@
    } else {
        "f"@
    }
}

/// The lowest `width` hexadecimal digits of `n`, zero padded.
pub open spec fn hex_text(n: nat, width: nat) -> Seq<char>
    decreases width,
{
    if width == 0 {
        Seq::empty()
    } else {
        hex_text(n / 16, (width - 1) as nat) + hex_digit_text(n % 16)
    }
}

pub open spec fn bool_text(b: bool) -> Seq<char> {
    if b {
        "true"@
    } else {
        "false"@
    }
}

fn digit_str(d: u128) -> (r: &'static str)
    requires
        d < 10,
    ensures
        r@ == digit_text(d as nat),
{
    if d == 0 {
        "0"
    } else if d == 1 {
        "1"
    } else if d == 2 {
        "2"
    } else if d == 3 {
        "3"
    } else if d == 4 {
        "4"
    } else if d == 5 {
        "5"
    } else if d == 6 {
        "6"
    } else if d == 7 {
        "7"
    } else if d == 8 {
        "8"
    } else {
        "9"
    }
}

fn hex_digit_str(d: u64) -> (r: &'static str)
    requires
        d < 16,
    ensures
        r@ == hex_digit_text(d as nat),
{
    if d < 10 {
        digit_str(d as u128)
    } else if d == 10 {
        "a"
    } else if d == 11 {
        "b"
    } else if d == 12 {
        "c"
    } else if d == 13 {
        "d"
    } else if d == 14 {
        "e"
    } else {
        "f"
    }
}

/// Decimal rendering of an unsigned integer.
pub fn u128_text(n: u128) -> (r: String)
    ensures
        r@ == dec_text(n as nat),
    decreases n,
{
    if n < 10 {
        String::from_str(digit_str(n))
    } else {
        let mut s = u128_text(n / 10);
        s.append(digit_str(n % 10));
        s
    }
}

pub fn usize_text(n: usize) -> (r: String)
    ensures
        r@ == dec_text(n as nat),
{
    u128_text(n as u128)
}

pub fn u8_text(n: u8) -> (r: String)
    ensures
        r@ == dec_text(n as nat),
{
    u128_text(n as u128)
}

/// The lowest `width` hexadecimal digits of `n`.
pub fn u64_hex_text(n: u64, width: usize) -> (r: String)
    ensures
        r@ == hex_text(n as nat, width as nat),
    decreases width,
{
    if width == 0 {
        String::new()
    } else {
        let mut s = u64_hex_text(n / 16, width - 1);
        s.append(hex_digit_str(n % 16));
        s
    }
}

pub fn bool_str(b: bool) -> (r: &'static str)
    ensures
        r@ == bool_text(b),
{
    if b {
        "true"
    } else {
        "false"
    }
}

/// An owned copy of a string slice.
pub fn owned(s: &str) -> (r: String)
    ensures
        r@ == s@,
{
    String::from_str(s)
}

/// Equality of two string slices by their characters.
pub fn str_eq(a: &str, b: &str) -> (r: bool)
    ensures
        r == (a@ == b@),
{
    String::from_str(a) == String::from_str(b)
}

/// The characters of a string slice, in order.
pub fn chars_of(s: &str) -> (r: Vec<char>)
    ensures
        r@ == s@,
{
    let n = s.unicode_len();
    let mut out: Vec<char> = Vec::new();
    let mut i: usize = 0;
    while i < n
        invariant
            n == s@.len(),
            i <= n,
            out@ == s@.subrange(0, i as int),
        decreases n - i,
    {
        out.push(s.get_char(i));
        i = i + 1;
    }
    assert(out@ =~= s@);
    out
}

/// Whitespace as `char::is_whitespace` defines it (the Unicode `White_Space` property).
pub open spec fn is_ws(c: char) -> bool {
    ||| c == ' '
    ||| ('\t' <= c && c <= '\r')
    ||| c == '\u{85}'
    ||| c == '\u{a0}'
    ||| c == '\u{1680}'
    ||| ('\u{2000}' <= c && c <= '\u{200a}')
    ||| c == '\u{2028}'
    ||| c == '\u{2029}'
    ||| c == '\u{202f}'
    ||| c == '\u{205f}'
    ||| c == '\u{3000}'
}

pub fn char_is_ws(c: char) -> (r: bool)
    ensures
        r == is_ws(c),
{
    c == ' ' || ('\t' <= c && c <= '\r') || c == '\u{85}' || c == '\u{a0}' || c == '\u{1680}'
        || ('\u{2000}' <= c && c <= '\u{200a}') || c == '\u{2028}' || c == '\u{2029}'
        || c == '\u{202f}' || c == '\u{205f}' || c == '\u{3000}'
}

/// Every character of `s` is whitespace (so `s.trim()` is empty).
pub open spec fn all_ws(s: Seq<char>) -> bool {
    forall|i: int| 0 <= i < s.len() ==> is_ws(#[trigger] s[i])
}

pub fn is_blank(s: &str) -> (r: bool)
    ensures
        r == all_ws(s@),
{
    let cs = chars_of(s);
    let mut i: usize = 0;
    while i < cs.len()
        invariant
            cs@ == s@,
            i <= cs.len(),
            forall|j: int| 0 <= j < i ==> is_ws(#[trigger] s@[j]),
        decreases cs.len() - i,
    {
        if !char_is_ws(cs[i]) {
            return false;
        }
        i = i + 1;
    }
    true
}

/// Concatenation of the texts in `parts`, with `sep` between neighbours.
pub open spec fn join_text(parts: Seq<Seq<char>>, sep: Seq<char>) -> Seq<char>
    decreases parts.len(),
{
    if parts.len() == 0 {
        Seq::empty()
    } else if parts.len() == 1 {
        parts[0]
    } else {
        join_text(parts.drop_last(), sep) + sep + parts.last()
    }
}

/// `join_text` over owned strings.
pub fn join_strings(parts: &Vec<String>, sep: &str) -> (r: String)
    ensures
        r@ == join_text(parts.deep_view(), sep@),
{
    let ghost dv = parts.deep_view();
    let mut out = String::new();
    let mut i: usize = 0;
    while i < parts.len()
        invariant
            dv == parts.deep_view(),
            dv.len() == parts.len(),
            i <= parts.len(),
            out@ == join_text(dv.take(i as int), sep@),
        decreases parts.len() - i,
    {
        assert(dv.take(i + 1).drop_last() =~= dv.take(i as int));
        if i != 0 {
            out.append(sep);
        }
        out.append(parts[i].as_str());
        assert(dv[i as int] == parts[i as int]@);
        i = i + 1;
    }
    assert(dv.take(parts.len() as int) =~= dv);
    out
}

/// `join_text` over string slices.
pub fn join_strs(parts: &Vec<&str>, sep: &str) -> (r: String)
    ensures
        r@ == join_text(parts.deep_view(), sep@),
{
    let ghost dv = parts.deep_view();
    let mut out = String::new();
    let mut i: usize = 0;
    while i < parts.len()
        invariant
            dv == parts.deep_view(),
            dv.len() == parts.len(),
            i <= parts.len(),
            out@ == join_text(dv.take(i as int), sep@),
        decreases parts.len() - i,
    {
        assert(dv.take(i + 1).drop_last() =~= dv.take(i as int));
        if i != 0 {
            out.append(sep);
        }
        out.append(parts[i]);
        assert(dv[i as int] == parts[i as int]@);
        i = i + 1;
    }
    assert(dv.take(parts.len() as int) =~= dv);
    out
}


/// `needle` occurs in `hay` at position `k`.
pub open spec fn occurs_at(hay: Seq<char>, needle: Seq<char>, k: int) -> bool {
    0 <= k && k + needle.len() <= hay.len() && hay.subrange(k, k + needle.len()) == needle
}

/// `needle` occurs somewhere in `hay` (`str::contains`).
pub open spec fn contains_text(hay: Seq<char>, needle: Seq<char>) -> bool {
    exists|k: int| occurs_at(hay, needle, k)
}

/// `hay` begins with `prefix` (`str::starts_with`).
pub open spec fn starts_with_text(hay: Seq<char>, prefix: Seq<char>) -> bool {
    prefix.len() <= hay.len() && hay.subrange(0, prefix.len() as int) == prefix
}

/// `hay` ends with `suffix` (`str::ends_with`).
pub open spec fn ends_with_text(hay: Seq<char>, suffix: Seq<char>) -> bool {
    suffix.len() <= hay.len() && hay.subrange(hay.len() - suffix.len(), hay.len() as int) == suffix
}

pub(crate) fn matches_at(hay: &Vec<char>, needle: &Vec<char>, k: usize) -> (r: bool)
    requires
        k + needle.len() <= hay.len(),
    ensures
        r == (hay@.subrange(k as int, k + needle.len()) == needle@),
{
    let mut j: usize = 0;
    while j < needle.len()
        invariant
            k + needle.len() <= hay.len(),
            j <= needle.len(),
            forall|t: int| 0 <= t < j ==> hay@[k + t] == needle@[t],
        decreases needle.len() - j,
    {
        if hay[k + j] != needle[j] {
            assert(hay@.subrange(k as int, k + needle.len())[j as int] != needle@[j as int]);
            return false;
        }
        j = j + 1;
    }
    assert(hay@.subrange(k as int, k + needle.len()) =~= needle@);
    true
}

/// `str::contains` for a string needle.
pub fn text_contains(hay: &str, needle: &str) -> (r: bool)
    ensures
        r == contains_text(hay@, needle@),
{
    let h = chars_of(hay);
    let n = chars_of(needle);
    if n.len() > h.len() {
        assert forall|k: int| !occurs_at(hay@, needle@, k) by {}
        return false;
    }
    let last = h.len() - n.len();
    let mut k: usize = 0;
    loop
        invariant
            h@ == hay@,
            n@ == needle@,
            last == h.len() - n.len(),
            n.len() <= h.len(),
            k <= last,
            forall|t: int| 0 <= t < k ==> !occurs_at(hay@, needle@, t),
        decreases last - k,
    {
        if matches_at(&h, &n, k) {
            assert(occurs_at(hay@, needle@, k as int));
            return true;
        }
        if k == last {
            assert forall|t: int| !occurs_at(hay@, needle@, t) by {
                if 0 <= t && t < k {
                }
            }
            return false;
        }
        k = k + 1;
    }
}

/// `str::starts_with` for a string prefix.
pub fn text_starts_with(hay: &str, prefix: &str) -> (r: bool)
    ensures
        r == starts_with_text(hay@, prefix@),
{
    let h = chars_of(hay);
    let p = chars_of(prefix);
    if p.len() > h.len() {
        return false;
    }
    matches_at(&h, &p, 0)
}

/// `str::ends_with` for a string suffix.
pub fn text_ends_with(hay: &str, suffix: &str) -> (r: bool)
    ensures
        r == ends_with_text(hay@, suffix@),
{
    let h = chars_of(hay);
    let p = chars_of(suffix);
    if p.len() > h.len() {
        return false;
    }
    matches_at(&h, &p, h.len() - p.len())
}

/// `str::strip_prefix`: the rest of `hay` after `prefix`, if it begins with it.
pub fn strip_prefix_text(hay: &str, prefix: &str) -> (r: Option<String>)
    ensures
        r is Some <==> starts_with_text(hay@, prefix@),
        r matches Some(rest) ==> rest@ == hay@.subrange(prefix@.len() as int, hay@.len() as int),
{
    if text_starts_with(hay, prefix) {
        let n = hay.unicode_len();
        let m = prefix.unicode_len();
        Some(String::from_str(hay.substring_char(m, n)))
    } else {
        None
    }
}

/// Value of a sequence of decimal digit characters.
pub open spec fn digits_value(s: Seq<char>) -> int
    decreases s.len(),
{
    if s.len() == 0 {
        0
    } else {
        digits_value(s.drop_last()) * 10 + (s.last() as int - '0' as int)
    }
}

pub open spec fn is_digit(c: char) -> bool {
    '0' <= c && c <= '9'
}

pub open spec fn all_digits(s: Seq<char>) -> bool {
    forall|i: int| 0 <= i < s.len() ==> is_digit(#[trigger] s[i])
}

/// The text after an optional leading `+`.
pub open spec fn unsigned_part(s: Seq<char>) -> Seq<char> {
    if s.len() > 0 && s[0] == '+' {
        s.drop_first()
    } else {
        s
    }
}

/// `str::parse::<u128>`: an optional `+`, then one or more decimal digits, in range.
pub open spec fn parse_u128_text(s: Seq<char>) -> Option<u128> {
    let body = unsigned_part(s);
    if body.len() > 0 && all_digits(body) && digits_value(body) <= u128::MAX {
        Some(digits_value(body) as u128)
    } else {
        None
    }
}

proof fn lemma_digits_value_nonneg(s: Seq<char>)
    requires
        all_digits(s),
    ensures
        digits_value(s) >= 0,
    decreases s.len(),
{
    if s.len() > 0 {
        assert(all_digits(s.drop_last())) by {
            assert forall|i: int| 0 <= i < s.drop_last().len() implies is_digit(#[trigger] s.drop_last()[i]) by {
                assert(s.drop_last()[i] == s[i]);
            }
        }
        lemma_digits_value_nonneg(s.drop_last());
        assert(is_digit(s[s.len() - 1]));
    }
}

proof fn lemma_digits_value_grows(s: Seq<char>, k: int)
    requires
        all_digits(s),
        0 <= k <= s.len(),
    ensures
        digits_value(s.take(k)) <= digits_value(s),
    decreases s.len(),
{
    if k < s.len() {
        let d = s.drop_last();
        assert(all_digits(d)) by {
            assert forall|i: int| 0 <= i < d.len() implies is_digit(#[trigger] d[i]) by {
                assert(d[i] == s[i]);
            }
        }
        lemma_digits_value_grows(d, k);
        assert(d.take(k) =~= s.take(k));
        lemma_digits_value_nonneg(d);
        assert(is_digit(s[s.len() - 1]));
    } else {
        assert(s.take(k) =~= s);
    }
}

/// `str::parse::<u128>().ok()`.
pub fn parse_u128(s: &str) -> (r: Option<u128>)
    ensures
        r == parse_u128_text(s@),
{
    let cs = chars_of(s);
    let start: usize = if cs.len() > 0 && cs[0] == '+' { 1 } else { 0 };
    let ghost body = unsigned_part(s@);
    assert(body =~= s@.subrange(start as int, s@.len() as int));
    if start >= cs.len() {
        return None;
    }
    let mut value: u128 = 0;
    let mut i: usize = start;
    while i < cs.len()
        invariant
            cs@ == s@,
            start <= i <= cs.len(),
            body == unsigned_part(s@),
            body =~= s@.subrange(start as int, s@.len() as int),
            all_digits(body.take(i - start)),
            value as int == digits_value(body.take(i - start)),
        decreases cs.len() - i,
    {
        let c = cs[i];
        let ghost k = i - start;
        assert(body.take(k + 1).drop_last() =~= body.take(k));
        assert(body.take(k + 1).last() == c);
        if !('0' <= c && c <= '9') {
            assert(!all_digits(body)) by {
                assert(body[k] == c);
                assert(!is_digit(body[k]));
            }
            return None;
        }
        let d: u32 = (c as u32) - ('0' as u32);
        assert(all_digits(body.take(k + 1))) by {
            assert forall|t: int| 0 <= t < k + 1 implies is_digit(#[trigger] body.take(k + 1)[t]) by {
                if t < k {
                    assert(body.take(k + 1)[t] == body.take(k)[t]);
                }
            }
        }
        if value > (u128::MAX - (d as u128)) / 10 {
            proof {
                assert(digits_value(body.take(k + 1)) > u128::MAX) by (nonlinear_arith)
                    requires
                        value > (u128::MAX - (d as u128)) / 10,
                        digits_value(body.take(k + 1)) == value * 10 + d,
                        d <= 9,
                ;
                if all_digits(body) {
                    lemma_digits_value_grows(body, k + 1);
                }
            }
            return None;
        }
        assert(value * 10 + d <= u128::MAX) by (nonlinear_arith)
            requires
                value <= (u128::MAX - (d as u128)) / 10,
                d <= 9,
        ;
        value = value * 10 + (d as u128);
        i = i + 1;
    }
    assert(body.take(cs.len() - start) =~= body);
    Some(value)
}


/// First position at or after `k` where `needle` occurs in `hay` (`str::find`).
pub open spec fn find_text(hay: Seq<char>, needle: Seq<char>, k: int) -> Option<int>
    decreases hay.len() + 1 - k,
    when 0 <= k
{
    if k + needle.len() > hay.len() {
        None
    } else if hay.subrange(k, k + needle.len()) == needle {
        Some(k)
    } else {
        find_text(hay, needle, k + 1)
    }
}

pub proof fn lemma_find_text_bounds(hay: Seq<char>, needle: Seq<char>, k: int)
    requires
        0 <= k,
    ensures
        find_text(hay, needle, k) matches Some(i) ==> k <= i && i + needle.len() <= hay.len()
            && hay.subrange(i, i + needle.len()) == needle,
    decreases hay.len() + 1 - k,
{
    if k + needle.len() <= hay.len() && hay.subrange(k, k + needle.len()) != needle {
        lemma_find_text_bounds(hay, needle, k + 1);
    }
}

/// Character position of the first occurrence of `needle` in `hay`.
pub fn find_text_str(hay: &str, needle: &str) -> (r: Option<usize>)
    ensures
        find_text(hay@, needle@, 0) == (match r {
            Some(i) => Some(i as int),
            None => None::<int>,
        }),
{
    let h = chars_of(hay);
    let p = chars_of(needle);
    if p.len() > h.len() {
        return None;
    }
    let last = h.len() - p.len();
    let mut k: usize = 0;
    while k <= last
        invariant
            h@ == hay@,
            p@ == needle@,
            last + p.len() == h.len(),
            find_text(hay@, needle@, 0) == find_text(hay@, needle@, k as int),
        decreases last + 1 - k,
    {
        if matches_at(&h, &p, k) {
            return Some(k);
        }
        if k == last {
            assert(find_text(hay@, needle@, k + 1) == None::<int>);
            return None;
        }
        k = k + 1;
    }
    None
}

} // verus!
