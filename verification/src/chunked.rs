//! Incremental decoder of a chunked message body.
//!
//! The decoded body is kept at the start of the input buffer: the first
//! `buffered` bytes are body data, the rest is still encoded. Chunk-size
//! lines and the line breaks after chunk data are removed from the buffer as
//! they are passed.
use vstd::prelude::*;

use netbuf::Buf;

use crate::buf::{buf_bytes, buf_contents, buf_len, buf_remove_range};
use crate::raw_parse::{chunk_size_line, parse_chunk_size};

verus! {

#[derive(Debug, Clone, Copy, PartialEq, Eq, Structural)]
pub struct State {
    /// Decoded body bytes at the start of the buffer.
    pub buffered: usize,
    /// Bytes of the current chunk that have not arrived yet.
    pub pending: usize,
    /// The last (empty) chunk has been seen.
    pub done: bool,
}

/// The decoder loop, run on a buffer until it needs more bytes: the outcome
/// (`true` unless a chunk-size line is invalid), the decoder fields after it
/// and the buffer after it.
///
/// When the data of a chunk has arrived with only the CR of the line break
/// after it, the decoder waits for the LF (counting the CR as chunk data
/// would make the count of pending bytes negative).
pub open spec fn decode(buffered: nat, pending: nat, done: bool, b: Seq<u8>) -> (bool, nat, nat, bool, Seq<u8>)
    decreases b.len() - buffered,
{
    if b.len() <= buffered {
        (true, buffered, pending, done, b)
    } else if pending == 0 {
        match chunk_size_line(b.subrange(buffered as int, b.len() as int)) {
            Err(_) => (false, buffered, pending, done, b),
            Ok(None) => (true, buffered, pending, done, b),
            Ok(Some((n, size))) => if 2 <= n <= b.len() - buffered {
                let rest = b.subrange(0, buffered as int) + b.subrange(
                    buffered + n,
                    b.len() as int,
                );
                if size == 0 {
                    decode(buffered, pending, true, rest)
                } else {
                    decode(buffered, (size as usize) as nat, done, rest)
                }
            } else {
                (true, buffered, pending, done, b)
            },
        }
    } else if buffered + pending + 2 <= b.len() {
        let end = buffered + pending;
        decode(end, 0, done, b.subrange(0, end as int) + b.subrange(end + 2int, b.len() as int))
    } else if buffered + pending + 1 == b.len() {
        (true, buffered, pending, done, b)
    } else {
        (true, b.len(), (pending - (b.len() - buffered)) as nat, done, b)
    }
}

/// The effect of `State::parse`: nothing once the last chunk has been seen,
/// the decoder loop otherwise.
pub open spec fn parse_effect(s: State, b: Seq<u8>) -> (bool, nat, nat, bool, Seq<u8>) {
    if s.done {
        (true, s.buffered as nat, s.pending as nat, s.done, b)
    } else {
        decode(s.buffered as nat, s.pending as nat, s.done, b)
    }
}

impl State {
    pub fn new() -> (s: State)
        ensures
            s == (State { buffered: 0, pending: 0, done: false }),
    {
        State { buffered: 0, pending: 0, done: false }
    }

    /// Decodes as much of the buffer as has arrived.
    ///
    /// Errors when a chunk-size line is invalid; the buffer and the fields
    /// then hold what was decoded before it.
    pub fn parse(&mut self, buf: &mut Buf) -> (r: Result<(), httparse::InvalidChunkSize>)
        ensures
            ({
                let (ok, buffered, pending, done, bytes) = parse_effect(
                    *old(self),
                    buf_contents(*old(buf)),
                );
                &&& (r is Ok) == ok
                &&& final(self).buffered == buffered
                &&& final(self).pending == pending
                &&& final(self).done == done
                &&& buf_contents(*final(buf)) == bytes
            }),
    {
        if self.done {
            return Ok(());
        }
        let ghost goal = decode(
            self.buffered as nat,
            self.pending as nat,
            self.done,
            buf_contents(*buf),
        );
        while self.buffered < buf_len(buf)
            invariant
                goal == parse_effect(*old(self), buf_contents(*old(buf))),
                decode(self.buffered as nat, self.pending as nat, self.done, buf_contents(*buf))
                    == goal,
            decreases buf_contents(*buf).len() - self.buffered,
        {
            let len = buf_len(buf);
            if self.pending == 0 {
                let head = parse_chunk_size(&buf_bytes(buf)[self.buffered..len]);
                match head {
                    Err(e) => {
                        return Err(e);
                    },
                    Ok(None) => {
                        return Ok(());
                    },
                    Ok(Some((bytes, size))) => {
                        buf_remove_range(buf, self.buffered, self.buffered + bytes);
                        if size == 0 {
                            self.done = true;
                        } else {
                            self.pending = #[verifier::truncate] (size as usize);
                        }
                    },
                }
            } else {
                if self.pending <= len - self.buffered && len - self.buffered - self.pending >= 2 {
                    self.buffered = self.buffered + self.pending;
                    self.pending = 0;
                    buf_remove_range(buf, self.buffered, self.buffered + 2);
                } else if self.pending < len - self.buffered {
                    return Ok(());
                } else {
                    self.pending = self.pending - (len - self.buffered);
                    self.buffered = len;
                }
            }
        }
        Ok(())
    }

    pub fn buffered(&self) -> (n: usize)
        ensures
            n == self.buffered,
    {
        self.buffered
    }

    pub fn is_done(&self) -> (d: bool)
        ensures
            d == self.done,
    {
        self.done
    }

    /// Marks `n` decoded bytes as taken from the start of the buffer.
    pub fn consume(&mut self, n: usize)
        requires
            n <= old(self).buffered,
        ensures
            *final(self) == (State { buffered: (old(self).buffered - n) as usize, ..*old(self) }),
    {
        self.buffered = self.buffered - n;
    }
}

/// Decoding never touches body bytes that were already decoded: they stay
/// at the start of the buffer, and the count of decoded bytes only grows.
pub proof fn lemma_decode_keeps_decoded(buffered: nat, pending: nat, done: bool, b: Seq<u8>)
    requires
        buffered <= b.len(),
    ensures
        buffered <= decode(buffered, pending, done, b).1 <= decode(buffered, pending, done, b).4.len(),
        decode(buffered, pending, done, b).4.subrange(0, buffered as int) == b.subrange(0, buffered as int),
    decreases b.len() - buffered,
{
    if b.len() <= buffered {
    } else if pending == 0 {
        match chunk_size_line(b.subrange(buffered as int, b.len() as int)) {
            Err(_) => {},
            Ok(None) => {},
            Ok(Some((n, size))) => if 2 <= n <= b.len() - buffered {
                let rest = b.subrange(0, buffered as int) + b.subrange(buffered + n, b.len() as int);
                assert(rest.subrange(0, buffered as int) =~= b.subrange(0, buffered as int));
                if size == 0 {
                    lemma_decode_keeps_decoded(buffered, pending, true, rest);
                } else {
                    lemma_decode_keeps_decoded(buffered, (size as usize) as nat, done, rest);
                }
            },
        }
    } else if buffered + pending + 2 <= b.len() {
        let end = buffered + pending;
        let rest = b.subrange(0, end as int) + b.subrange(end + 2int, b.len() as int);
        lemma_decode_keeps_decoded(end, 0, done, rest);
        let r = decode(end, 0, done, rest);
        assert(r.4.subrange(0, buffered as int) =~= r.4.subrange(0, end as int).subrange(0, buffered as int));
        assert(rest.subrange(0, end as int).subrange(0, buffered as int) =~= b.subrange(0, buffered as int));
    } else {
    }
}

} // verus!
