use vstd::prelude::*;
use vstd::string::StringSliceAdditionalSpecFns;

use netbuf::Buf;

use crate::base_serializer::{
    accepts_headers, after_add_chunked, after_add_length, after_done_headers, after_status,
    after_write_body, body_bytes, can_close_headers, can_finish, can_write_body, chunked_line,
    content_length_line, continue_line, done_bytes, done_headers_bytes, header_line,
    header_outcome, is_body_length_name, status_line, wants_close, Body, HeaderError,
    MessageState,
};
use crate::buf::{buf_contents, buf_extend, can_grow};
use crate::enums::version::Version;

verus! {

/// Written when a response is dropped before its status line: in any real
/// scenario this page must never appear (it means that the handler
/// returned without creating a real response).
pub const NOT_IMPLEMENTED: &'static str = "HTTP/1.0 501 Not Implemented\r\nContent-Type: text/plain\r\nContent-Length: 21\r\n\r\n501 Not Implemented\r\n";

/// The same for a response to a `HEAD` request (no body).
pub const NOT_IMPLEMENTED_HEAD: &'static str = "HTTP/1.0 501 Not Implemented\r\nContent-Type: text/plain\r\nContent-Length: 21\r\n\r\n";

/// A response being written: the message state and the output buffer.
pub struct ResponseWriter {
    state: MessageState,
    buf: Buf,
}

/// The state of a response that has not been started, as a request with
/// the given version and method asks for it (an HTTP/1.0 connection is
/// always closed after the response).
pub open spec fn response_start(version: Version, is_head: bool, do_close: bool) -> MessageState {
    MessageState::ResponseStart {
        body: if is_head {
            Body::Head
        } else {
            Body::Normal
        },
        version,
        close: do_close || version == Version::Http10,
    }
}

/// The text that `finish` writes for a response that was never started.
pub open spec fn unfinished_page(s: MessageState) -> Seq<u8> {
    match s {
        MessageState::ResponseStart { body, .. } => if body == Body::Normal {
            NOT_IMPLEMENTED.spec_bytes()
        } else {
            NOT_IMPLEMENTED_HEAD.spec_bytes()
        },
        _ => Seq::empty(),
    }
}

impl View for ResponseWriter {
    /// The state of the message and the bytes in the output buffer.
    type V = (MessageState, Seq<u8>);

    closed spec fn view(&self) -> (MessageState, Seq<u8>) {
        (self.state, buf_contents(self.buf))
    }
}

impl ResponseWriter {
    /// Creates new response message by extracting needed fields from Head.
    pub fn new(out_buf: Buf, version: Version, is_head: bool, do_close: bool) -> (r: ResponseWriter)
        ensures
            r@ == (response_start(version, is_head, do_close), buf_contents(out_buf)),
    {
        ResponseWriter {
            state: MessageState::ResponseStart {
                body: if is_head {
                    Body::Head
                } else {
                    Body::Normal
                },
                version: version,
                close: do_close || version == Version::Http10,
            },
            buf: out_buf,
        }
    }

    /// Returns true if it's okay to proceed with keep-alive connection,
    /// and the output buffer.
    ///
    /// If the response is not even started yet, a `501 Not Implemented`
    /// response is written to make debugging easier.
    pub fn finish(self) -> (r: (bool, Buf))
        requires
            can_grow(self@.1.len() as int, 200),
        ensures
            r.0 == (self@.0 is Done),
            buf_contents(r.1) == self@.1 + if r.0 {
                Seq::empty()
            } else {
                unfinished_page(self@.0)
            },
    {
        let mut buf = self.buf;
        match self.state {
            MessageState::Done => {
                return (true, buf);
            },
            MessageState::ResponseStart { body, .. } => {
                proof {
                    reveal_strlit("HTTP/1.0 501 Not Implemented\r\nContent-Type: text/plain\r\nContent-Length: 21\r\n\r\n501 Not Implemented\r\n");
                    reveal_strlit("HTTP/1.0 501 Not Implemented\r\nContent-Type: text/plain\r\nContent-Length: 21\r\n\r\n");
                    crate::ascii::lemma_ascii_str_bytes(NOT_IMPLEMENTED);
                    crate::ascii::lemma_ascii_str_bytes(NOT_IMPLEMENTED_HEAD);
                }
                if body == Body::Normal {
                    buf_extend(&mut buf, NOT_IMPLEMENTED.as_bytes());
                } else {
                    buf_extend(&mut buf, NOT_IMPLEMENTED_HEAD.as_bytes());
                }
            },
            _ => {},
        }
        (false, buf)
    }

    /// Write a 100 (Continue) response.
    ///
    /// A server should respond with the 100 status code if it receives a
    /// 100-continue expectation. Only before the status line, and once.
    pub fn response_continue(&mut self)
        requires
            old(self)@.0 is ResponseStart,
            can_grow(old(self)@.1.len() as int, continue_line(Version::Http10).len() as int),
        ensures
            match old(self)@.0 {
                MessageState::ResponseStart { version, body, close } => {
                    &&& final(self)@.0 == (MessageState::FinalResponseStart { version, body, close })
                    &&& final(self)@.1 == old(self)@.1 + continue_line(version)
                },
                _ => false,
            },
    {
        self.state.response_continue(&mut self.buf)
    }

    /// Write status line.
    ///
    /// This puts status line into a buffer immediately. Only once, before
    /// anything but a `100 Continue` line, and never with code 100.
    pub fn status(&mut self, code: u16, reason: &str)
        requires
            old(self)@.0 is ResponseStart || old(self)@.0 is FinalResponseStart,
            code != 100,
            can_grow(
                old(self)@.1.len() as int,
                status_line(Version::Http10, code, reason.spec_bytes()).len() as int,
            ),
        ensures
            final(self)@.0 == after_status(old(self)@.0, code),
            final(self)@.1 == old(self)@.1 + status_line(
                match old(self)@.0 {
                    MessageState::ResponseStart { version, .. } => version,
                    MessageState::FinalResponseStart { version, .. } => version,
                    _ => Version::Http10,
                },
                code,
                reason.spec_bytes(),
            ),
    {
        self.state.response_status(&mut self.buf, code, reason)
    }

    /// Add a header to the message.
    ///
    /// The header is written into the output buffer immediately.
    /// `Content-Length` must be set with `add_length` and
    /// `Transfer-Encoding: chunked` with `add_chunked`.
    pub fn add_header(&mut self, name: &str, value: &[u8]) -> (r: Result<(), HeaderError>)
        requires
            is_body_length_name(name.spec_bytes()) || accepts_headers(old(self)@.0),
            can_grow(old(self)@.1.len() as int, header_line(name.spec_bytes(), value@).len() as int),
        ensures
            final(self)@.0 == old(self)@.0,
            r == header_outcome(name.spec_bytes(), value@),
            final(self)@.1 == if r is Ok {
                old(self)@.1 + header_line(name.spec_bytes(), value@)
            } else {
                old(self)@.1
            },
    {
        self.state.add_header(&mut self.buf, name, value)
    }

    /// Same as `add_header` but takes the value as text.
    pub fn format_header(&mut self, name: &str, value: &str) -> (r: Result<(), HeaderError>)
        requires
            is_body_length_name(name.spec_bytes()) || accepts_headers(old(self)@.0),
            can_grow(
                old(self)@.1.len() as int,
                header_line(name.spec_bytes(), value.spec_bytes()).len() as int,
            ),
        ensures
            final(self)@.0 == old(self)@.0,
            r == header_outcome(name.spec_bytes(), value.spec_bytes()),
            final(self)@.1 == if r is Ok {
                old(self)@.1 + header_line(name.spec_bytes(), value.spec_bytes())
            } else {
                old(self)@.1
            },
    {
        self.state.format_header(&mut self.buf, name, value)
    }

    /// Add a content length to the message.
    ///
    /// Written immediately; refused where another body length header
    /// was already given or the status forbids a body.
    pub fn add_length(&mut self, n: u64) -> (r: Result<(), HeaderError>)
        requires
            accepts_headers(old(self)@.0),
            can_grow(old(self)@.1.len() as int, content_length_line(n).len() as int),
        ensures
            r == after_add_length(old(self)@.0, n).0,
            final(self)@.0 == after_add_length(old(self)@.0, n).1,
            final(self)@.1 == if r is Ok {
                old(self)@.1 + content_length_line(n)
            } else {
                old(self)@.1
            },
    {
        self.state.add_length(&mut self.buf, n)
    }

    /// Sets the transfer encoding to chunked.
    pub fn add_chunked(&mut self) -> (r: Result<(), HeaderError>)
        requires
            accepts_headers(old(self)@.0),
            can_grow(old(self)@.1.len() as int, chunked_line().len() as int),
        ensures
            r == after_add_chunked(old(self)@.0).0,
            final(self)@.0 == after_add_chunked(old(self)@.0).1,
            final(self)@.1 == if r is Ok {
                old(self)@.1 + chunked_line()
            } else {
                old(self)@.1
            },
    {
        self.state.add_chunked(&mut self.buf)
    }

    /// Returns true if at least `status()` method has been called
    ///
    /// This is mostly useful to find out whether we can build an error page
    /// or it's already too late.
    pub fn is_started(&self) -> (r: bool)
        ensures
            r == !(self@.0 is RequestStart || self@.0 is ResponseStart
                || self@.0 is FinalResponseStart),
    {
        self.state.is_started()
    }

    /// Closes the HTTP header and returns `true` if entity body is expected.
    ///
    /// Specifically `false` is returned when status is 1xx, 204, 304 or in
    /// the response to a `HEAD` request but not if the body has zero-length.
    pub fn done_headers(&mut self) -> (r: Result<bool, HeaderError>)
        requires
            can_close_headers(old(self)@.0),
            can_grow(old(self)@.1.len() as int, done_headers_bytes(old(self)@.0).len() as int),
        ensures
            r == after_done_headers(old(self)@.0).0,
            final(self)@.0 == after_done_headers(old(self)@.0).1,
            final(self)@.1 == old(self)@.1 + done_headers_bytes(old(self)@.0),
    {
        self.state.done_headers(&mut self.buf)
    }

    /// Write a chunk of the message body.
    ///
    /// Works both for fixed-size body and chunked body; empty chunks are
    /// ignored, and nothing is written in the response to a `HEAD` request.
    pub fn write_body(&mut self, data: &[u8])
        requires
            can_write_body(old(self)@.0, data@.len()),
            can_grow(old(self)@.1.len() as int, body_bytes(old(self)@.0, data@).len() as int),
        ensures
            final(self)@.0 == after_write_body(old(self)@.0, data@.len()),
            final(self)@.1 == old(self)@.1 + body_bytes(old(self)@.0, data@),
    {
        self.state.write_body(&mut self.buf, data)
    }

    /// Returns true if `done()` method is already called and everything
    /// was okay.
    pub fn is_complete(&self) -> (r: bool)
        ensures
            r == (self@.0 is Done),
    {
        self.state.is_complete()
    }

    /// Returns true when the header block is closed (the socket may then be
    /// taken over, with the buffer flushed first).
    pub fn is_after_headers(&self) -> (r: bool)
        ensures
            r == (self@.0 is Bodyless || self@.0 is Done || self@.0 is FixedBody
                || self@.0 is ChunkedBody),
    {
        self.state.is_after_headers()
    }

    /// Writes needed finalization data into the buffer and hands the
    /// buffer back, to be flushed to the socket.
    pub fn done(self) -> (r: Buf)
        requires
            can_finish(self@.0),
            done_bytes(self@.0).len() > 0 ==> can_grow(
                self@.1.len() as int,
                done_bytes(self@.0).len() as int,
            ),
        ensures
            buf_contents(r) == self@.1 + done_bytes(self@.0),
    {
        let mut me = self;
        me.state.done(&mut me.buf);
        me.buf
    }
}

/// A response to an HTTP/1.0 request, or to one that asked for it, closes
/// the connection: whatever its status, its header block is to announce
/// `Connection: close`.
pub proof fn lemma_close_when_asked(version: Version, is_head: bool, do_close: bool, code: u16)
    requires
        version == Version::Http10 || do_close,
    ensures
        wants_close(after_status(response_start(version, is_head, do_close), code)),
{
}

} // verus!
