//! Text handling of header values: UTF-8 decoding, trimming of white space,
//! decimal numbers and comma separated lists.
use vstd::prelude::*;
use vstd::string::StringSliceAdditionalSpecFns;

verus! {

/// Unicode `White_Space` characters (the set that `str::trim` strips).
pub open spec fn is_unicode_ws(c: char) -> bool {
    let u = c as u32;
    (0x09 <= u && u <= 0x0d) || u == 0x20 || u == 0x85 || u == 0xa0 || u == 0x1680 || (0x2000 <= u
        && u <= 0x200a) || u == 0x2028 || u == 0x2029 || u == 0x202f || u == 0x205f || u == 0x3000
}

/// The characters with leading and trailing white space removed.
pub open spec fn trim_chars(cs: Seq<char>) -> Seq<char>
    decreases cs.len(),
{
    if cs.len() == 0 {
        cs
    } else if is_unicode_ws(cs[0]) {
        trim_chars(cs.drop_first())
    } else if is_unicode_ws(cs.last()) {
        trim_chars(cs.drop_last())
    } else {
        cs
    }
}

/// `std::str::from_utf8`: the bytes as text when they are valid UTF-8.
#[verifier::external_body]
pub(crate) fn utf8_text(v: &[u8]) -> (r: Option<&str>)
    ensures
        r is Some <==> vstd::utf8::valid_utf8(v@),
        r matches Some(s) ==> s.spec_bytes() == v@,
{
    std::str::from_utf8(v).ok()
}

/// `str::trim`: the text without leading and trailing white space.
#[verifier::external_body]
pub(crate) fn trim(s: &str) -> (r: &str)
    ensures
        r@ == trim_chars(s@),
{
    s.trim()
}

/// The text of `n` decimal digits (ASCII `0`-`9`) as a number.
pub open spec fn digits_value(b: Seq<u8>) -> nat
    decreases b.len(),
{
    if b.len() == 0 {
        0
    } else {
        digits_value(b.drop_last()) * 10 + (b.last() - 48) as nat
    }
}

pub open spec fn is_digit(b: u8) -> bool {
    48 <= b && b <= 57
}

/// The digits of a number's text: the text without a leading `+`.
pub open spec fn number_digits(b: Seq<u8>) -> Seq<u8> {
    if b.len() > 0 && b[0] == 43u8 {
        b.drop_first()
    } else {
        b
    }
}

/// All bytes are decimal digits.
pub open spec fn all_digits(d: Seq<u8>) -> bool {
    forall|i: int| 0 <= i < d.len() ==> is_digit(#[trigger] d[i])
}

/// What `u64::from_str` makes of the text: an optional `+` followed by at
/// least one decimal digit and nothing else, with a value that fits.
pub open spec fn decimal_u64(b: Seq<u8>) -> Option<u64> {
    let d = number_digits(b);
    if d.len() > 0 && all_digits(d) && digits_value(d) <= u64::MAX {
        Some(digits_value(d) as u64)
    } else {
        None
    }
}

/// Parses an unsigned decimal number the way `u64::from_str` does.
pub fn parse_u64(b: &[u8]) -> (r: Option<u64>)
    ensures
        r == decimal_u64(b@),
{
    let mut start: usize = 0;
    if b.len() > 0 && b[0] == 43u8 {
        start = 1;
    }
    let ghost digits = number_digits(b@);
    assert(digits =~= b@.subrange(start as int, b@.len() as int));
    if start == b.len() {
        return None;
    }
    let mut value: u64 = 0;
    let mut i: usize = start;
    while i < b.len()
        invariant
            start <= i <= b@.len(),
            digits == number_digits(b@),
            digits =~= b@.subrange(start as int, b@.len() as int),
            forall|j: int| start <= j < i ==> is_digit(#[trigger] b@[j]),
            value as nat == digits_value(b@.subrange(start as int, i as int)),
        decreases b@.len() - i,
    {
        let c = b[i];
        if !(48u8 <= c && c <= 57u8) {
            assert(!is_digit(digits[i - start]));
            assert(!all_digits(digits));
            return None;
        }
        let d = (c - 48u8) as u64;
        assert(b@.subrange(start as int, i + 1).drop_last() =~= b@.subrange(start as int, i as int));
        if value > (u64::MAX - d) / 10 {
            proof {
                assert(value * 10 + d > u64::MAX) by (nonlinear_arith)
                    requires
                        value > (u64::MAX - d) / 10,
                        d <= 9,
                ;
                assert(digits.subrange(0, (i + 1 - start) as int) =~= b@.subrange(start as int, i + 1));
                assert(b@.subrange(start as int, i + 1).last() == c);
                assert(digits_value(b@.subrange(start as int, i + 1)) == value * 10 + d);
                if all_digits(digits) {
                    lemma_digits_prefix_bound(digits, (i + 1 - start) as int);
                }
            }
            return None;
        }
        assert(value * 10 + d <= u64::MAX) by (nonlinear_arith)
            requires
                value <= (u64::MAX - d) / 10,
                d <= 9,
        ;
        value = value * 10 + d;
        i += 1;
    }
    assert(b@.subrange(start as int, b@.len() as int) =~= digits);
    Some(value)
}

/// A longer run of digits is worth at least as much as its prefix.
pub proof fn lemma_digits_prefix_bound(b: Seq<u8>, k: int)
    requires
        0 <= k <= b.len(),
        forall|i: int| 0 <= i < b.len() ==> is_digit(#[trigger] b[i]),
    ensures
        digits_value(b.subrange(0, k)) <= digits_value(b),
    decreases b.len() - k,
{
    if k < b.len() {
        lemma_digits_prefix_bound(b, k + 1);
        assert(b.subrange(0, k + 1).drop_last() =~= b.subrange(0, k));
        assert(digits_value(b.subrange(0, k)) <= digits_value(b.subrange(0, k + 1))) by (nonlinear_arith)
            requires
                digits_value(b.subrange(0, k + 1)) == digits_value(b.subrange(0, k)) * 10 + (
                b.subrange(0, k + 1).last() - 48) as nat,
        ;
    } else {
        assert(b.subrange(0, k) =~= b);
    }
}

} // verus!
