//! Decimal and hexadecimal renderings of numbers, as written into status
//! lines, `Content-Length` headers and chunk-size lines.
use vstd::prelude::*;

verus! {

/// The ASCII digit for `d` (`0`-`9`, then lower case `a`-`f`).
pub open spec fn digit_byte(d: nat) -> u8 {
    if d < 10 {
        (48 + d) as u8
    } else {
        (87 + d) as u8
    }
}

/// The digits of `n` in base `radix`, most significant first, without
/// leading zeros (`0` is written as a single digit).
pub open spec fn digits(n: nat, radix: nat) -> Seq<u8>
    recommends
        2 <= radix <= 16,
    decreases n,
{
    if n < radix || radix < 2 {
        seq![digit_byte(n)]
    } else {
        proof {
            lemma_div_smaller(n, radix);
        }
        digits(n / radix, radix).push(digit_byte(n % radix))
    }
}

/// Dividing by a radix of at least two makes a positive number smaller.
pub proof fn lemma_div_smaller(n: nat, radix: nat)
    requires
        2 <= radix <= n,
    ensures
        n / radix < n,
{
    assert(n / radix < n) by (nonlinear_arith)
        requires
            2 <= radix <= n,
    ;
}

/// Decimal rendering of `n`.
pub open spec fn decimal(n: nat) -> Seq<u8> {
    digits(n, 10)
}

/// Lower case hexadecimal rendering of `n`.
pub open spec fn hex_lower(n: nat) -> Seq<u8> {
    digits(n, 16)
}

/// Every digit that `digits` writes is an ASCII letter or digit.
pub proof fn lemma_digits_alnum(n: nat, radix: nat)
    requires
        2 <= radix <= 16,
    ensures
        forall|i: int|
            0 <= i < digits(n, radix).len() ==> {
                let b = #[trigger] digits(n, radix)[i];
                (48 <= b <= 57) || (97 <= b <= 102)
            },
        digits(n, radix).len() >= 1,
    decreases n,
{
    if n >= radix {
        lemma_div_smaller(n, radix);
        lemma_digits_alnum(n / radix, radix);
    }
}

fn digit(d: u64) -> (b: u8)
    requires
        d < 16,
    ensures
        b == digit_byte(d as nat),
{
    if d < 10 {
        (48 + d) as u8
    } else {
        (87 + d) as u8
    }
}

/// The digits of `n` in base `radix`.
pub fn digits_of(n: u64, radix: u64) -> (v: Vec<u8>)
    requires
        2 <= radix <= 16,
    ensures
        v@ == digits(n as nat, radix as nat),
    decreases n,
{
    if n < radix {
        let mut v: Vec<u8> = Vec::new();
        v.push(digit(n));
        v
    } else {
        proof {
            lemma_div_smaller(n as nat, radix as nat);
        }
        let mut v = digits_of(n / radix, radix);
        v.push(digit(n % radix));
        v
    }
}

/// Decimal rendering of `n`.
pub fn decimal_of(n: u64) -> (v: Vec<u8>)
    ensures
        v@ == decimal(n as nat),
{
    digits_of(n, 10)
}

/// Lower case hexadecimal rendering of `n`.
pub fn hex_of(n: u64) -> (v: Vec<u8>)
    ensures
        v@ == hex_lower(n as nat),
{
    digits_of(n, 16)
}

} // verus!
