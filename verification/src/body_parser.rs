//! Progress of reading a message body out of the input buffer.
//!
//! The stream that the buffer is read from is handed in as the input buffer
//! and whether the peer has finished sending (end of stream).
use vstd::prelude::*;

use netbuf::Buf;

use crate::buf::{buf_consume, buf_contents, buf_len};
use crate::chunked;

verus! {

#[derive(Debug, Clone, Copy, PartialEq, Eq, Structural)]
pub enum BodyProgress {
    /// A body of fixed size: the bytes still to come.
    Fixed(usize),
    /// A body that lasts until the end of the stream (client side only).
    Eof,
    /// A chunked body.
    Chunked(chunked::State),
}

/// The useful bytes at the start of the buffer and whether the body ends
/// with them.
pub open spec fn body_available(p: BodyProgress, in_len: nat, io_done: bool) -> (usize, bool) {
    match p {
        BodyProgress::Fixed(x) => if x <= in_len {
            (x, true)
        } else {
            (in_len as usize, false)
        },
        BodyProgress::Chunked(s) => (s.buffered, s.done),
        BodyProgress::Eof => (in_len as usize, io_done),
    }
}

/// `n` bytes can be taken from the body: they are in the buffer and not
/// beyond the body.
pub open spec fn can_consume(p: BodyProgress, in_len: nat, n: nat) -> bool {
    &&& n <= in_len
    &&& match p {
        BodyProgress::Fixed(x) => n <= x,
        BodyProgress::Chunked(s) => n <= s.buffered,
        BodyProgress::Eof => true,
    }
}

/// The progress after `n` bytes of the body are taken.
pub open spec fn after_consume(p: BodyProgress, n: nat) -> BodyProgress {
    match p {
        BodyProgress::Fixed(x) => BodyProgress::Fixed((x - n) as usize),
        BodyProgress::Chunked(s) => BodyProgress::Chunked(
            chunked::State { buffered: (s.buffered - n) as usize, ..s },
        ),
        BodyProgress::Eof => BodyProgress::Eof,
    }
}

impl BodyProgress {
    /// Returns useful number of bytes in buffer and "end" ("done") flag
    pub fn check_buf(&self, in_buf: &Buf, io_done: bool) -> (r: (usize, bool))
        ensures
            r == body_available(*self, buf_contents(*in_buf).len(), io_done),
    {
        let len = buf_len(in_buf);
        match *self {
            BodyProgress::Fixed(x) => if x <= len {
                (x, true)
            } else {
                (len, false)
            },
            BodyProgress::Chunked(ref s) => (s.buffered(), s.is_done()),
            BodyProgress::Eof => (len, io_done),
        }
    }

    /// Decodes what has arrived of a chunked body; fixed and until-EOF
    /// bodies need no decoding.
    pub fn parse(&mut self, in_buf: &mut Buf) -> (r: Result<(), httparse::InvalidChunkSize>)
        ensures
            match *old(self) {
                BodyProgress::Chunked(s) => {
                    let (ok, buffered, pending, done, bytes) = chunked::parse_effect(
                        s,
                        buf_contents(*old(in_buf)),
                    );
                    &&& (r is Ok) == ok
                    &&& *final(self) == BodyProgress::Chunked(
                        chunked::State {
                            buffered: buffered as usize,
                            pending: pending as usize,
                            done,
                        },
                    )
                    &&& buf_contents(*final(in_buf)) == bytes
                },
                _ => {
                    &&& r is Ok
                    &&& *final(self) == *old(self)
                    &&& buf_contents(*final(in_buf)) == buf_contents(*old(in_buf))
                },
            },
    {
        match self {
            BodyProgress::Chunked(s) => s.parse(in_buf),
            _ => Ok(()),
        }
    }

    /// Takes `n` bytes of the body out of the buffer.
    pub fn consume(&mut self, in_buf: &mut Buf, n: usize)
        requires
            can_consume(*old(self), buf_contents(*old(in_buf)).len(), n as nat),
        ensures
            buf_contents(*final(in_buf)) == buf_contents(*old(in_buf)).subrange(
                n as int,
                buf_contents(*old(in_buf)).len() as int,
            ),
            *final(self) == after_consume(*old(self), n as nat),
    {
        buf_consume(in_buf, n);
        match self {
            BodyProgress::Fixed(x) => {
                *x = *x - n;
            },
            BodyProgress::Chunked(s) => s.consume(n),
            BodyProgress::Eof => {},
        }
    }
}

/// What to do with the body bytes that are in the buffer.
#[derive(Debug, Clone, Copy, PartialEq, Eq, Structural)]
pub enum BodyCall {
    /// Hand the available bytes to the handler; `true` when they end the
    /// body.
    Deliver(bool),
    /// The peer closed the connection before the body ended.
    Reset,
    /// Wait for more bytes.
    Wait,
}

/// Where a body read stands after a step.
#[derive(Debug, Clone, Copy, PartialEq, Eq, Structural)]
pub enum BodyNext {
    /// The whole body has been handed over and taken.
    Complete,
    /// Go on reading.
    Again,
    /// Wait until the handler or the peer makes progress.
    Pause,
}

/// The decision of `body_call`: `bytes` are available, `done` tells that
/// they end the body, `io_done` that the peer has finished sending, and
/// `progressive` holds the least number of bytes worth handing over where
/// the body is read chunk by chunk.
pub open spec fn body_call_of(progressive: Option<usize>, bytes: usize, done: bool, io_done: bool) -> BodyCall {
    if done {
        BodyCall::Deliver(true)
    } else if io_done {
        BodyCall::Reset
    } else if progressive matches Some(x) && x <= bytes {
        BodyCall::Deliver(false)
    } else {
        BodyCall::Wait
    }
}

/// The decision of `body_next`: `reply` is what the handler answered to
/// the bytes it was handed (`Some(n)` when it took `n` of them, `None` when
/// it was not ready).
pub open spec fn body_next_of(progressive: Option<usize>, bytes: usize, done: bool, reply: Option<usize>) -> BodyNext {
    match reply {
        Some(consumed) => if done && consumed == bytes {
            BodyNext::Complete
        } else {
            BodyNext::Again
        },
        None => if progressive matches Some(x) && x > bytes {
            BodyNext::Pause
        } else {
            BodyNext::Again
        },
    }
}

/// Decides whether the available body bytes are handed to the handler.
pub fn body_call(progressive: Option<usize>, bytes: usize, done: bool, io_done: bool) -> (r: BodyCall)
    ensures
        r == body_call_of(progressive, bytes, done, io_done),
{
    if done {
        BodyCall::Deliver(true)
    } else if io_done {
        BodyCall::Reset
    } else {
        match progressive {
            Some(x) => if x <= bytes {
                BodyCall::Deliver(false)
            } else {
                BodyCall::Wait
            },
            None => BodyCall::Wait,
        }
    }
}

/// Decides how reading goes on once the handler has answered to the
/// `bytes` it was handed.
pub fn body_next(progressive: Option<usize>, bytes: usize, done: bool, reply: Option<usize>) -> (r: BodyNext)
    ensures
        r == body_next_of(progressive, bytes, done, reply),
        r == BodyNext::Complete ==> done && reply == Some(bytes),
{
    match reply {
        Some(consumed) => if done && consumed == bytes {
            BodyNext::Complete
        } else {
            BodyNext::Again
        },
        None => match progressive {
            Some(x) => if x > bytes {
                BodyNext::Pause
            } else {
                BodyNext::Again
            },
            None => BodyNext::Again,
        },
    }
}

/// A fixed size body with `x` bytes still to come is complete exactly
/// when the buffer holds at least `x` bytes; the bytes offered are the
/// smaller of the two counts.
pub proof fn lemma_fixed_available(x: usize, in_len: nat, io_done: bool)
    requires
        in_len <= usize::MAX,
    ensures
        body_available(BodyProgress::Fixed(x), in_len, io_done).1 <==> x <= in_len,
        body_available(BodyProgress::Fixed(x), in_len, io_done).0 <= x,
        body_available(BodyProgress::Fixed(x), in_len, io_done).0 <= in_len,
        body_available(BodyProgress::Fixed(x), in_len, io_done).0 == x
            || body_available(BodyProgress::Fixed(x), in_len, io_done).0 == in_len,
{
}

/// A body read until the end of the stream offers every byte in the
/// buffer and is complete exactly when the peer has finished sending; a
/// chunked body offers the bytes decoded so far and is complete once the
/// last chunk was seen.
pub proof fn lemma_other_available(s: chunked::State, in_len: nat, io_done: bool)
    requires
        in_len <= usize::MAX,
    ensures
        body_available(BodyProgress::Eof, in_len, io_done).0 == in_len,
        body_available(BodyProgress::Eof, in_len, io_done).1 == io_done,
        body_available(BodyProgress::Chunked(s), in_len, io_done).0 == s.buffered,
        body_available(BodyProgress::Chunked(s), in_len, io_done).1 == s.done,
{
}

} // verus!
