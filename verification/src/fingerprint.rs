//! Stable fingerprints of reports: 64-bit FNV-1a over the UTF-8 bytes of each
//! part, each part closed by an `0xff` byte, written as 16 lower-case hex digits.

use vstd::prelude::*;
use vstd::string::*;
use vstd::utf8::encode_utf8;

use crate::text::{hex_text, u64_hex_text};

verus! {

pub const FNV_OFFSET: u64 = 0xcbf29ce484222325u64;

pub const FNV_PRIME: u64 = 0x100000001b3u64;

/// One FNV-1a step: xor the byte in, then multiply by the prime (mod 2^64).
pub open spec fn fnv_step(h: u64, b: u8) -> u64 {
    (((h ^ (b as u64)) as nat * FNV_PRIME as nat) % 0x10000000000000000nat) as u64
}

/// FNV-1a over a byte sequence, from state `h`.
pub open spec fn fnv_bytes(h: u64, bytes: Seq<u8>) -> u64
    decreases bytes.len(),
{
    if bytes.len() == 0 {
        h
    } else {
        fnv_step(fnv_bytes(h, bytes.drop_last()), bytes.last())
    }
}

/// The hash of a sequence of parts: each part's UTF-8 bytes, then `0xff`.
pub open spec fn fnv_parts(parts: Seq<Seq<char>>) -> u64
    decreases parts.len(),
{
    if parts.len() == 0 {
        FNV_OFFSET
    } else {
        fnv_step(fnv_bytes(fnv_parts(parts.drop_last()), encode_utf8(parts.last())), 0xff)
    }
}

/// `prefix` followed by the hash of `parts` in 16 hex digits.
#[verifier::opaque]
pub open spec fn fingerprint_text(prefix: Seq<char>, parts: Seq<Seq<char>>) -> Seq<char> {
    prefix + hex_text(fnv_parts(parts) as nat, 16)
}

/// The texts of a vector of strings.
pub open spec fn strings_view(v: Seq<String>) -> Seq<Seq<char>> {
    v.map_values(|s: String| s@)
}

fn step(h: u64, b: u8) -> (r: u64)
    ensures
        r == fnv_step(h, b),
{
    (h ^ (b as u64)).wrapping_mul(FNV_PRIME)
}

/// The fingerprint `prefix` + hash of `parts`.
pub fn stable_fingerprint(prefix: &str, parts: &Vec<String>) -> (r: String)
    ensures
        r@ == fingerprint_text(prefix@, strings_view(parts@)),
{
    let ghost ps = strings_view(parts@);
    let mut h: u64 = FNV_OFFSET;
    let mut i: usize = 0;
    assert(ps.take(0) =~= Seq::<Seq<char>>::empty());
    while i < parts.len()
        invariant
            ps == strings_view(parts@),
            i <= parts.len(),
            h == fnv_parts(ps.take(i as int)),
        decreases parts.len() - i,
    {
        let bytes = parts[i].as_str().as_bytes();
        let ghost start = h;
        let mut j: usize = 0;
        assert(bytes@.take(0) =~= Seq::<u8>::empty());
        while j < bytes.len()
            invariant
                bytes@ == encode_utf8(ps[i as int]),
                j <= bytes.len(),
                h == fnv_bytes(start, bytes@.take(j as int)),
            decreases bytes.len() - j,
        {
            assert(bytes@.take(j + 1).drop_last() =~= bytes@.take(j as int));
            h = step(h, bytes[j]);
            j = j + 1;
        }
        assert(bytes@.take(j as int) =~= bytes@);
        h = step(h, 0xff);
        assert(ps.take(i + 1).drop_last() =~= ps.take(i as int));
        i = i + 1;
    }
    assert(ps.take(i as int) =~= ps);
    let mut out = String::from_str(prefix);
    out.append(u64_hex_text(h, 16).as_str());
    proof {
        reveal(fingerprint_text);
    }
    out
}

} // verus!
