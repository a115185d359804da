//! Classification of header values: `Connection: close`,
//! `Transfer-Encoding: chunked` and `Expect: 100-continue`.
//!
//! A header value is a byte sequence; the token is compared without regard
//! to ASCII case and may be surrounded by CR, LF, SP and HTAB.
use vstd::prelude::*;
use vstd::string::StringSliceAdditionalSpecFns;

use crate::ascii::{ascii_lower, is_ws, is_ws_byte, to_ascii_lower};

verus! {

/// All bytes of `s` in `[lo, hi)` are header whitespace.
pub open spec fn ws_between(s: Seq<u8>, lo: int, hi: int) -> bool {
    forall|i: int| lo <= i < hi ==> is_ws(#[trigger] s[i])
}

/// At position `p` of `s` stands `word`, with ASCII letters of `s` folded to
/// lower case.
pub open spec fn lower_word_at(s: Seq<u8>, p: int, word: Seq<u8>) -> bool {
    forall|k: int| 0 <= k < word.len() ==> ascii_lower(#[trigger] s[p + k]) == word[k]
}

/// A header value that is the (lower case) token `word`, in any ASCII case,
/// padded with whitespace on either side.
pub open spec fn is_token_value(val: Seq<u8>, word: Seq<u8>) -> bool {
    exists|p: int|
        #![trigger val[p]]
        0 <= p && p + word.len() <= val.len() && ws_between(val, 0, p) && !is_ws(val[p])
            && lower_word_at(val, p, word) && ws_between(val, p + word.len(), val.len() as int)
}

/// Checks that `val` is the token `word` padded with whitespace.
fn token_value(val: &[u8], word: &[u8]) -> (r: bool)
    requires
        word@.len() > 0,
    ensures
        r == is_token_value(val@, word@),
{
    let n = val.len();
    if n < word.len() {
        return false;
    }
    let mut i: usize = 0;
    while i < n && is_ws_byte(val[i])
        invariant
            n == val@.len(),
            i <= n,
            ws_between(val@, 0, i as int),
        decreases n - i,
    {
        i += 1;
    }
    if i == n {
        assert forall|p: int| 0 <= p < n implies is_ws(#[trigger] val@[p]) by {}
        return false;
    }
    assert(!is_ws(val@[i as int]));
    if word.len() > n - i {
        assert(!ws_between(val@, 0, n as int));
        return false;
    }
    let mut k: usize = 0;
    while k < word.len()
        invariant
            n == val@.len(),
            i < n,
            i + word@.len() <= n,
            k <= word@.len(),
            word@.len() > 0,
            ws_between(val@, 0, i as int),
            !is_ws(val@[i as int]),
            forall|q: int| 0 <= q < k ==> ascii_lower(#[trigger] val@[i + q]) == word@[q],
        decreases word@.len() - k,
    {
        if to_ascii_lower(val[i + k]) != word[k] {
            assert forall|p: int|
                0 <= p && p + word@.len() <= n && ws_between(val@, 0, p) && !is_ws(
                    val@[p],
                ) implies !lower_word_at(val@, p, word@) by {
                assert(p == i);
                assert(ascii_lower(val@[p + k]) != word@[k as int]);
            }
            return false;
        }
        k += 1;
    }
    let mut j: usize = i + word.len();
    while j < n
        invariant
            n == val@.len(),
            i + word@.len() <= j <= n,
            word@.len() > 0,
            ws_between(val@, 0, i as int),
            !is_ws(val@[i as int]),
            ws_between(val@, (i + word@.len()) as int, j as int),
        decreases n - j,
    {
        if !is_ws_byte(val[j]) {
            assert forall|p: int|
                0 <= p && p + word@.len() <= n && ws_between(val@, 0, p) && !is_ws(
                    val@[p],
                ) implies !ws_between(val@, p + word@.len(), n as int) by {
                assert(p == i);
                assert(!is_ws(val@[j as int]));
            }
            return false;
        }
        j += 1;
    }
    assert(lower_word_at(val@, i as int, word@));
    assert(val@[i as int] == val@[i as int]);
    true
}

/// `Connection` header value is `close` (case-insensitive, whitespace-padded)
pub fn is_close(val: &[u8]) -> (r: bool)
    ensures
        r == is_token_value(val@, "close".spec_bytes()),
{
    proof {
        reveal_strlit("close");
    }
    token_value(val, "close".as_bytes())
}

/// `Transfer-Encoding` value is `chunked` (case-insensitive, whitespace-padded)
pub fn is_chunked(val: &[u8]) -> (r: bool)
    ensures
        r == is_token_value(val@, "chunked".spec_bytes()),
{
    proof {
        reveal_strlit("chunked");
    }
    token_value(val, "chunked".as_bytes())
}

/// `Expect` value is `100-continue` (case-insensitive, whitespace-padded)
pub fn is_continue(val: &[u8]) -> (r: bool)
    ensures
        r == is_token_value(val@, "100-continue".spec_bytes()),
{
    proof {
        reveal_strlit("100-continue");
    }
    token_value(val, "100-continue".as_bytes())
}

/// The comma separated segment of `v` that spans `[a, b)`.
pub open spec fn is_segment(v: Seq<u8>, a: int, b: int) -> bool {
    &&& 0 <= a <= b <= v.len()
    &&& (a == 0 || v[a - 1] == 44u8)
    &&& (b == v.len() || v[b] == 44u8)
    &&& forall|i: int| a <= i < b ==> #[trigger] v[i] != 44u8
}

/// The last comma separated segment of a header value.
pub open spec fn last_segment(v: Seq<u8>) -> Seq<u8>
    decreases v.len(),
{
    if v.len() == 0 {
        v
    } else if v.last() == 44u8 {
        Seq::empty()
    } else {
        last_segment(v.drop_last()).push(v.last())
    }
}

/// One of the comma separated segments of a header value is `close`.
pub open spec fn lists_close(v: Seq<u8>) -> bool {
    exists|a: int, b: int|
        is_segment(v, a, b) && #[trigger] is_token_value(v.subrange(a, b), "close".spec_bytes())
}

/// The last comma separated segment of a header value.
pub fn last_comma_segment(v: &[u8]) -> (r: &[u8])
    ensures
        r@ == last_segment(v@),
{
    let mut i = v.len();
    assert(v@.subrange(0, i as int) =~= v@);
    assert(v@.subrange(i as int, v@.len() as int) =~= Seq::<u8>::empty());
    while i > 0 && v[i - 1] != 44u8
        invariant
            i <= v@.len(),
            last_segment(v@) == last_segment(v@.subrange(0, i as int)) + v@.subrange(
                i as int,
                v@.len() as int,
            ),
        decreases i,
    {
        let ghost pre = v@.subrange(0, i as int);
        assert(pre.drop_last() =~= v@.subrange(0, i - 1));
        assert(v@.subrange(i - 1, v@.len() as int) =~= seq![v@[i - 1]] + v@.subrange(
            i as int,
            v@.len() as int,
        ));
        assert(last_segment(pre) =~= last_segment(v@.subrange(0, i - 1)).push(v@[i - 1]));
        i -= 1;
        assert(last_segment(v@) =~= last_segment(v@.subrange(0, i as int)) + v@.subrange(
            i as int,
            v@.len() as int,
        ));
    }
    assert(last_segment(v@.subrange(0, i as int)) =~= Seq::<u8>::empty());
    &v[i..v.len()]
}

/// One of the comma separated segments of the value is `close`.
pub fn any_segment_is_close(v: &[u8]) -> (r: bool)
    ensures
        r == lists_close(v@),
{
    let mut start: usize = 0;
    let mut i: usize = 0;
    while i < v.len()
        invariant
            start <= i <= v@.len(),
            start == 0 || v@[start - 1] == 44u8,
            forall|k: int| start <= k < i ==> #[trigger] v@[k] != 44u8,
            forall|a: int, b: int|
                is_segment(v@, a, b) && a < start ==> !#[trigger] is_token_value(
                    v@.subrange(a, b),
                    "close".spec_bytes(),
                ),
        decreases v@.len() - i,
    {
        if v[i] == 44u8 {
            if is_close(&v[start..i]) {
                assert(is_segment(v@, start as int, i as int));
                return true;
            }
            assert forall|a: int, b: int|
                is_segment(v@, a, b) && a < i + 1 implies !#[trigger] is_token_value(
                    v@.subrange(a, b),
                    "close".spec_bytes(),
                ) by {
                if a >= start {
                    if a > start {
                        assert(v@[a - 1] != 44u8);
                    }
                    if b > i {
                        assert(v@[i as int] != 44u8);
                    }
                    if b < i {
                        assert(v@[b] != 44u8);
                    }
                    assert(a == start && b == i);
                }
            }
            start = i + 1;
        }
        i += 1;
    }
    if is_close(&v[start..v.len()]) {
        assert(is_segment(v@, start as int, v@.len() as int));
        return true;
    }
    assert forall|a: int, b: int|
        is_segment(v@, a, b) implies !#[trigger] is_token_value(
            v@.subrange(a, b),
            "close".spec_bytes(),
        ) by {
        if a >= start {
            if a > start {
                assert(v@[a - 1] != 44u8);
            }
            if b < v@.len() {
                assert(v@[b] != 44u8);
            }
        }
    }
    false
}

} // verus!
