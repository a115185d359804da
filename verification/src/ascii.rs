//! Byte-level helpers shared by the header and request-line code: ASCII case
//! folding, the whitespace class of header values, and comparisons of byte
//! strings and string slices.
use vstd::prelude::*;
use vstd::string::StringSliceAdditionalSpecFns;

verus! {

/// The bytes that header values may be padded with: CR, LF, SP and HTAB.
pub open spec fn is_ws(b: u8) -> bool {
    b == 13u8 || b == 10u8 || b == 32u8 || b == 9u8
}

/// ASCII lower-casing of a single byte; other bytes are left as they are.
pub open spec fn ascii_lower(b: u8) -> u8 {
    if 65u8 <= b && b <= 90u8 {
        (b + 32) as u8
    } else {
        b
    }
}

/// Two byte strings are equal when ASCII letters are compared without case.
pub open spec fn eq_ci(a: Seq<u8>, b: Seq<u8>) -> bool {
    a.len() == b.len() && forall|i: int| 0 <= i < a.len() ==> ascii_lower(a[i]) == ascii_lower(b[i])
}

pub fn is_ws_byte(b: u8) -> (r: bool)
    ensures
        r == is_ws(b),
{
    b == 13u8 || b == 10u8 || b == 32u8 || b == 9u8
}

pub fn to_ascii_lower(b: u8) -> (r: u8)
    ensures
        r == ascii_lower(b),
{
    if 65u8 <= b && b <= 90u8 {
        b + 32
    } else {
        b
    }
}

/// Compares two byte strings ignoring the case of ASCII letters.
pub fn bytes_eq_ignore_ascii_case(a: &[u8], b: &[u8]) -> (r: bool)
    ensures
        r == eq_ci(a@, b@),
{
    if a.len() != b.len() {
        return false;
    }
    let mut i: usize = 0;
    while i < a.len()
        invariant
            a@.len() == b@.len(),
            i <= a@.len(),
            forall|j: int| 0 <= j < i ==> ascii_lower(a@[j]) == ascii_lower(b@[j]),
        decreases a@.len() - i,
    {
        if to_ascii_lower(a[i]) != to_ascii_lower(b[i]) {
            return false;
        }
        i += 1;
    }
    true
}

/// Compares two byte strings exactly.
pub fn bytes_eq(a: &[u8], b: &[u8]) -> (r: bool)
    ensures
        r == (a@ == b@),
{
    if a.len() != b.len() {
        return false;
    }
    let mut i: usize = 0;
    while i < a.len()
        invariant
            a@.len() == b@.len(),
            i <= a@.len(),
            forall|j: int| 0 <= j < i ==> a@[j] == b@[j],
        decreases a@.len() - i,
    {
        if a[i] != b[i] {
            return false;
        }
        i += 1;
    }
    assert(a@ =~= b@);
    true
}

/// Two strings are equal exactly when their UTF-8 encodings are.
pub proof fn lemma_str_bytes_eq(a: &str, b: &str)
    ensures
        (a.spec_bytes() == b.spec_bytes()) == (a@ == b@),
{
    broadcast use vstd::utf8::encode_utf8_decode_utf8;

    if a.spec_bytes() == b.spec_bytes() {
        assert(vstd::utf8::decode_utf8(vstd::utf8::encode_utf8(a@)) == a@);
        assert(vstd::utf8::decode_utf8(vstd::utf8::encode_utf8(b@)) == b@);
    }
}

/// Exact comparison of two string slices.
pub fn str_eq(a: &str, b: &str) -> (r: bool)
    ensures
        r == (a@ == b@),
{
    proof {
        lemma_str_bytes_eq(a, b);
    }
    bytes_eq(a.as_bytes(), b.as_bytes())
}

/// Comparison of two string slices ignoring the case of ASCII letters.
pub fn str_eq_ignore_ascii_case(a: &str, b: &str) -> (r: bool)
    ensures
        r == eq_ci(a.spec_bytes(), b.spec_bytes()),
{
    bytes_eq_ignore_ascii_case(a.as_bytes(), b.as_bytes())
}

/// The byte string begins with `prefix`.
pub open spec fn starts_with(b: Seq<u8>, prefix: Seq<u8>) -> bool {
    b.len() >= prefix.len() && b.subrange(0, prefix.len() as int) == prefix
}

/// Checks whether `b` begins with `prefix`.
pub fn bytes_starts_with(b: &[u8], prefix: &[u8]) -> (r: bool)
    ensures
        r == starts_with(b@, prefix@),
{
    if b.len() < prefix.len() {
        return false;
    }
    bytes_eq(&b[0..prefix.len()], prefix)
}

/// In valid UTF-8, a position preceded only by ASCII bytes starts a
/// character.
pub proof fn lemma_ascii_prefix_boundary(bytes: Seq<u8>, k: int)
    requires
        vstd::utf8::valid_utf8(bytes),
        0 <= k <= bytes.len(),
        forall|i: int| 0 <= i < k ==> bytes[i] <= 0x7f,
    ensures
        vstd::utf8::is_char_boundary(bytes, k),
    decreases k,
{
    if k > 0 {
        let rest = vstd::utf8::pop_first_scalar(bytes);
        assert(rest =~= bytes.subrange(1, bytes.len() as int));
        lemma_ascii_prefix_boundary(rest, k - 1);
    }
}

/// In valid UTF-8, an ASCII byte, and the end, are character boundaries.
pub proof fn lemma_ascii_byte_boundary(bytes: Seq<u8>, k: int)
    requires
        vstd::utf8::valid_utf8(bytes),
        0 <= k <= bytes.len(),
        k < bytes.len() ==> bytes[k] <= 0x7f,
    ensures
        vstd::utf8::is_char_boundary(bytes, k),
{
    if k == bytes.len() {
        vstd::utf8::is_char_boundary_start_end_of_seq(bytes);
    } else {
        vstd::utf8::is_char_boundary_iff_not_is_continuation_byte(bytes, k);
    }
}

/// The bytes of an ASCII string literal are its characters.
pub proof fn lemma_ascii_str_bytes(s: &str)
    requires
        vstd::string::is_ascii(s),
    ensures
        s.spec_bytes().len() == s@.len(),
        forall|i: int| 0 <= i < s@.len() ==> s.spec_bytes()[i] == s@[i] as u8 && s.spec_bytes()[i] <= 0x7f,
{
    broadcast use vstd::string::is_ascii_spec_bytes;

    assert forall|i: int| 0 <= i < s@.len() implies s.spec_bytes()[i] <= 0x7f by {
        assert(vstd::utf8::is_ascii_chars(s@));
    }
}

/// In valid UTF-8, the position after an ASCII byte that starts a
/// character starts a character too.
pub proof fn lemma_boundary_after_ascii(bytes: Seq<u8>, j: int)
    requires
        vstd::utf8::valid_utf8(bytes),
        0 <= j < bytes.len(),
        vstd::utf8::is_char_boundary(bytes, j),
        bytes[j] <= 0x7f,
    ensures
        vstd::utf8::is_char_boundary(bytes, j + 1),
    decreases bytes.len(),
{
    let rest = vstd::utf8::pop_first_scalar(bytes);
    let l = vstd::utf8::length_of_first_scalar(bytes);
    reveal_with_fuel(vstd::utf8::is_char_boundary, 2);
    if j == 0 {
        assert(l == 1);
        assert(vstd::utf8::is_char_boundary(rest, 0));
    } else {
        assert(1 <= l <= 4);
        assert(rest.len() == bytes.len() - l);
        lemma_boundary_after_ascii(rest, j - l);
        assert(rest[j - l] == bytes[j]);
    }
}

/// A copy of the bytes in a vector of their own.
pub fn bytes_to_vec(s: &[u8]) -> (v: Vec<u8>)
    ensures
        v@ == s@,
{
    let mut v: Vec<u8> = Vec::new();
    v.extend_from_slice(s);
    v
}

} // verus!
