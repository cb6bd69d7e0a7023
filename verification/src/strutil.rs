//! Byte- and string-level helpers shared by the parser, the header view and
//! the router: verified equality, ASCII case folding, decimal parsing, and
//! UTF-8 decoding.

use vstd::prelude::*;

verus! {

use vstd::slice::slice_index_get;
use vstd::utf8::{valid_utf8, decode_utf8, encode_utf8, encode_utf8_decode_utf8};
use vstd::string::StringSliceAdditionalSpecFns;

/// Byte-wise equality of two slices.
pub fn bytes_eq(a: &[u8], b: &[u8]) -> (r: bool)
    ensures
        r == (a@ == b@),
{
    if a.len() != b.len() {
        return false;
    }
    let mut i: usize = 0;
    while i < a.len()
        invariant
            0 <= i <= a@.len(),
            a@.len() == b@.len(),
            forall|j: int| 0 <= j < i ==> a@[j] == b@[j],
        decreases a@.len() - i,
    {
        if *slice_index_get(a, i) != *slice_index_get(b, i) {
            return false;
        }
        i += 1;
    }
    proof {
        assert(a@ =~= b@);
    }
    true
}

/// Two strings are equal exactly when their views are equal; decided by
/// comparing the UTF-8 bytes.
pub fn str_eq(a: &str, b: &str) -> (r: bool)
    ensures
        r == (a@ == b@),
{
    let r = bytes_eq(a.as_bytes(), b.as_bytes());
    proof {
        if a.spec_bytes() == b.spec_bytes() {
            encode_utf8_decode_utf8(a@);
            encode_utf8_decode_utf8(b@);
        }
    }
    r
}

/// ASCII lower-casing of one byte.
pub open spec fn lower(b: u8) -> u8 {
    if 65 <= b <= 90 {
        (b + 32) as u8
    } else {
        b
    }
}

/// ASCII lower-casing of a byte sequence.
pub open spec fn lower_seq(s: Seq<u8>) -> Seq<u8> {
    s.map_values(|b: u8| lower(b))
}

fn lower_byte(b: u8) -> (r: u8)
    ensures
        r == lower(b),
{
    if b >= 65 && b <= 90 {
        b + 32
    } else {
        b
    }
}

/// ASCII case-insensitive equality of two byte slices.
pub fn bytes_eq_ignore_case(a: &[u8], b: &[u8]) -> (r: bool)
    ensures
        r == (lower_seq(a@) == lower_seq(b@)),
{
    if a.len() != b.len() {
        return false;
    }
    let mut i: usize = 0;
    while i < a.len()
        invariant
            0 <= i <= a@.len(),
            a@.len() == b@.len(),
            forall|j: int| 0 <= j < i ==> lower(a@[j]) == lower(b@[j]),
        decreases a@.len() - i,
    {
        if lower_byte(*slice_index_get(a, i)) != lower_byte(*slice_index_get(b, i)) {
            assert(lower_seq(a@)[i as int] != lower_seq(b@)[i as int]);
            return false;
        }
        i += 1;
    }
    proof {
        assert(lower_seq(a@) =~= lower_seq(b@));
    }
    true
}

/// Relies on `core::str::from_utf8`: it succeeds exactly on valid UTF-8
/// input and returns a string slice over the same bytes.
#[verifier::external_body]
pub(crate) fn bytes_as_str(b: &[u8]) -> (r: Option<&str>)
    ensures
        (match r {
            Some(s) => valid_utf8(b@) && s.spec_bytes() == b@,
            None => !valid_utf8(b@),
        }),
{
    core::str::from_utf8(b).ok()
}

/// A string slice whose bytes are `b` has the view `decode_utf8(b)`.
pub proof fn lemma_encode_decode(s: Seq<char>, b: Seq<u8>)
    requires
        encode_utf8(s) == b,
    ensures
        decode_utf8(b) == s,
        valid_utf8(b),
{
    encode_utf8_decode_utf8(s);
    vstd::utf8::encode_utf8_valid_utf8(s);
}

/// Decodes bytes into an owned string; succeeds exactly on valid UTF-8.
pub fn bytes_to_string(b: &[u8]) -> (r: Option<String>)
    ensures
        (match r {
            Some(s) => valid_utf8(b@) && s@ == decode_utf8(b@),
            None => !valid_utf8(b@),
        }),
{
    match bytes_as_str(b) {
        Some(s) => {
            proof {
                lemma_encode_decode(s@, b@);
            }
            Some(s.to_owned())
        },
        None => None,
    }
}

/// The characters denoted one-for-one by a byte sequence; meaningful when
/// every byte is ASCII.
pub open spec fn as_chars(s: Seq<u8>) -> Seq<char> {
    s.map_values(|b: u8| b as char)
}

/// A sequence of ASCII bytes is valid UTF-8 and decodes to itself,
/// character for character.
pub proof fn lemma_ascii_bytes_decode(b: Seq<u8>)
    requires
        forall|i: int| 0 <= i < b.len() ==> b[i] < 128,
    ensures
        valid_utf8(b),
        decode_utf8(b) == as_chars(b),
        encode_utf8(as_chars(b)) == b,
{
    let chars = as_chars(b);
    assert forall|i: int| 0 <= i < chars.len() implies '\0' <= #[trigger] chars[i] <= '\u{7f}' by {
        assert(chars[i] == b[i] as char);
    }
    assert(vstd::utf8::is_ascii_chars(chars));
    vstd::utf8::is_ascii_chars_encode_utf8(chars);
    assert(encode_utf8(chars) =~= b);
    vstd::utf8::encode_utf8_valid_utf8(chars);
    encode_utf8_decode_utf8(chars);
}

/// True when `b` is an ASCII decimal digit.
pub open spec fn is_digit(b: u8) -> bool {
    48 <= b <= 57
}

/// True when the sequence is made of decimal digits only.
pub open spec fn all_digits(s: Seq<u8>) -> bool {
    forall|i: int| 0 <= i < s.len() ==> is_digit(#[trigger] s[i])
}

/// The number denoted by a sequence of decimal digits.
pub open spec fn dec_value(s: Seq<u8>) -> int
    decreases s.len(),
{
    if s.len() == 0 {
        0
    } else {
        dec_value(s.drop_last()) * 10 + (s.last() - 48)
    }
}

/// A digit string denotes at least as much as any of its prefixes.
proof fn lemma_dec_prefix_le(s: Seq<u8>, i: int)
    requires
        0 <= i <= s.len(),
        all_digits(s),
    ensures
        dec_value(s.subrange(0, i)) <= dec_value(s),
    decreases s.len() - i,
{
    if i == s.len() {
        assert(s.subrange(0, i) =~= s);
    } else {
        let p = s.subrange(0, i);
        let q = s.subrange(0, i + 1);
        assert(q.drop_last() =~= p);
        assert(q.last() == s[i]);
        assert(dec_value(q) == dec_value(p) * 10 + (s[i] - 48));
        assert(dec_value(p) <= dec_value(p) * 10) by {
            assert(all_digits(p));
            lemma_dec_nonneg(p);
        }
        lemma_dec_prefix_le(s, i + 1);
    }
}

/// A digit string denotes a non-negative number.
proof fn lemma_dec_nonneg(s: Seq<u8>)
    requires
        all_digits(s),
    ensures
        dec_value(s) >= 0,
    decreases s.len(),
{
    if s.len() > 0 {
        assert(all_digits(s.drop_last()));
        lemma_dec_nonneg(s.drop_last());
    }
}

/// Parses an unsigned decimal number; succeeds exactly when the input is a
/// non-empty, all-digit string whose value fits in `usize`.
pub fn parse_usize_dec(b: &[u8]) -> (r: Option<usize>)
    ensures
        (match r {
            Some(v) => b@.len() > 0 && all_digits(b@) && v == dec_value(b@),
            None => b@.len() == 0 || !all_digits(b@) || dec_value(b@) > usize::MAX,
        }),
{
    if b.len() == 0 {
        return None;
    }
    let mut acc: usize = 0;
    let mut i: usize = 0;
    while i < b.len()
        invariant
            0 <= i <= b@.len(),
            b@.len() > 0,
            forall|j: int| 0 <= j < i ==> is_digit(#[trigger] b@[j]),
            acc == dec_value(b@.subrange(0, i as int)),
        decreases b@.len() - i,
    {
        let c = *slice_index_get(b, i);
        if c < 48 || c > 57 {
            return None;
        }
        let d = (c - 48) as usize;
        if acc > (usize::MAX - d) / 10 {
            proof {
                let p = b@.subrange(0, i as int);
                let q = b@.subrange(0, i as int + 1);
                assert(q.drop_last() =~= p);
                assert(dec_value(q) == acc * 10 + d);
                assert(acc * 10 + d > usize::MAX) by (nonlinear_arith)
                    requires
                        acc > (usize::MAX - d) / 10,
                        0 <= d <= 9,
                ;
                assert(forall|j: int| 0 <= j < q.len() ==> is_digit(#[trigger] q[j]));
                if all_digits(b@) {
                    lemma_dec_prefix_le(b@, i as int + 1);
                }
            }
            return None;
        }
        proof {
            assert(acc * 10 + d <= usize::MAX) by (nonlinear_arith)
                requires
                    acc <= (usize::MAX - d) / 10,
                    0 <= d,
                    d <= usize::MAX,
            ;
            let p = b@.subrange(0, i as int);
            let q = b@.subrange(0, i as int + 1);
            assert(q.drop_last() =~= p);
        }
        acc = acc * 10 + d;
        i += 1;
    }
    proof {
        assert(b@.subrange(0, b@.len() as int) =~= b@);
    }
    Some(acc)
}

} // verus!
