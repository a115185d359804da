//! The byte buffer of `netbuf` that messages are written into and read
//! from, with the contract of each of its methods that the protocol uses.
use vstd::prelude::*;

use netbuf::Buf;

verus! {

#[verifier::external_type_specification]
#[verifier::external_body]
pub struct ExBuf(netbuf::Buf);

/// The bytes that a buffer holds, first to last.
pub uninterp spec fn buf_contents(b: Buf) -> Seq<u8>;

/// A buffer of `len` bytes can take `extra` more bytes without its
/// allocation size overflowing (`Buf::extend` reserves at most twice the
/// bytes it is given in addition to those it holds).
pub open spec fn can_grow(len: int, extra: int) -> bool {
    len + 2 * extra <= isize::MAX
}

/// `Buf::len`: the number of bytes held.
#[verifier::external_body]
pub(crate) fn buf_len(b: &Buf) -> (n: usize)
    ensures
        n == buf_contents(*b).len(),
{
    b.len()
}

/// `Buf` indexed by the full range: the bytes held, as a slice.
#[verifier::external_body]
pub(crate) fn buf_bytes(b: &Buf) -> (s: &[u8])
    ensures
        s@ == buf_contents(*b),
{
    &b[..]
}

/// `Buf::extend`: appends `data` after the bytes held.
#[verifier::external_body]
pub(crate) fn buf_extend(b: &mut Buf, data: &[u8])
    requires
        can_grow(buf_contents(*old(b)).len() as int, data@.len() as int),
    ensures
        buf_contents(*final(b)) == buf_contents(*old(b)) + data@,
{
    b.extend(data)
}

/// `Buf::remove_range(start..end)`: drops the bytes in `[start, end)` and
/// keeps those before and after them in order.
#[verifier::external_body]
pub(crate) fn buf_remove_range(b: &mut Buf, start: usize, end: usize)
    requires
        start <= end <= buf_contents(*old(b)).len(),
    ensures
        buf_contents(*final(b)) == buf_contents(*old(b)).subrange(0, start as int)
            + buf_contents(*old(b)).subrange(end as int, buf_contents(*old(b)).len() as int),
{
    b.remove_range(start..end)
}

/// `Buf::consume`: drops the first `n` bytes.
#[verifier::external_body]
pub(crate) fn buf_consume(b: &mut Buf, n: usize)
    requires
        n <= buf_contents(*old(b)).len(),
    ensures
        buf_contents(*final(b)) == buf_contents(*old(b)).subrange(
            n as int,
            buf_contents(*old(b)).len() as int,
        ),
{
    b.consume(n)
}

} // verus!
