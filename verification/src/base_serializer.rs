//! This contains common part of serializer between client and server
//! implementation
use vstd::prelude::*;
use vstd::string::StringSliceAdditionalSpecFns;

use netbuf::Buf;

use crate::ascii::{eq_ci, str_eq_ignore_ascii_case};
use crate::buf::{buf_contents, buf_extend, can_grow};
use crate::enums::status::code_forbids_body;
use crate::enums::version::{version_text, Version};
use crate::numfmt::{decimal, decimal_of, hex_lower, hex_of};

verus! {

/// Errors of adding headers to a message or of closing its header block.
#[derive(Debug, PartialEq, Eq, Structural, Clone, Copy)]
pub enum HeaderError {
    /// Content-Length is added twice
    DuplicateContentLength,
    /// Transfer-Encoding is added twice
    DuplicateTransferEncoding,
    /// Header name contains invalid characters
    InvalidHeaderName,
    /// Header value contains invalid characters
    InvalidHeaderValue,
    /// Transfer encoding added when Content-Length is already specified
    TransferEncodingAfterContentLength,
    /// Content-Length added after Transfer-Encoding
    ContentLengthAfterTransferEncoding,
    /// Neither Content-Length nor Transfer-Encoding is present in the headers
    CantDetermineBodySize,
    /// Content-Length and Transfer-Encoding must be set using the
    /// specialized methods
    BodyLengthHeader,
    /// This message must not contain body length fields.
    RequireBodyless,
}

/// This is a state of message that is fine both for requests and responses
///
/// Note: while we pass buffer to each method, we expect that the same buffer
/// is passed each time
#[derive(Debug, PartialEq, Eq, Structural)]
pub enum MessageState {
    /// Nothing has been sent.
    ResponseStart { version: Version, body: Body, close: bool },
    /// A continuation line has been sent.
    FinalResponseStart { version: Version, body: Body, close: bool },
    /// Nothing has been sent.
    RequestStart,
    /// Status line is already in the buffer.
    Headers { body: Body, close: bool },
    /// The message contains a fixed size body.
    FixedHeaders { is_head: bool, close: bool, content_length: u64 },
    /// The message contains a chunked body.
    ChunkedHeaders { is_head: bool, close: bool },
    /// The message contains no body.
    ///
    /// A request without a `Content-Length` or `Transfer-Encoding`
    /// header field contains no body.
    ///
    /// All 1xx (Informational), 204 (No Content),
    /// and 304 (Not Modified) responses do not include a message body.
    Bodyless,
    /// The message contains a body with the given length.
    FixedBody { is_head: bool, content_length: u64 },
    /// The message contains a chunked body.
    ChunkedBody { is_head: bool },
    /// A message in final state.
    Done,
}

#[derive(Debug, Copy, Clone, PartialEq, Eq, Structural)]
pub enum Body {
    /// Message contains a body.
    Normal,
    /// Message body is ignored: responses to HEAD requests.
    Head,
    /// Message must not have a body: all 1xx (Informational),
    /// 204 (No Content), and 304 (Not Modified) responses
    Denied,
    /// The message is a request and always contains a body (maybe empty).
    Request,
}

pub open spec fn crlf() -> Seq<u8> {
    seq![13u8, 10u8]
}

pub open spec fn space() -> Seq<u8> {
    seq![32u8]
}

pub open spec fn colon_space() -> Seq<u8> {
    seq![58u8, 32u8]
}

/// The bytes contain a carriage return or a line feed.
pub open spec fn has_cr_or_lf(s: Seq<u8>) -> bool {
    exists|i: int| 0 <= i < s.len() && (s[i] == 13u8 || s[i] == 10u8)
}

/// `<version> <code> <reason>\r\n`
pub open spec fn status_line(version: Version, code: u16, reason: Seq<u8>) -> Seq<u8> {
    version_text(version).spec_bytes() + space() + decimal(code as nat) + space() + reason + crlf()
}

/// `<method> <path> <version>\r\n`
pub open spec fn request_line_bytes(method: Seq<u8>, path: Seq<u8>, version: Version) -> Seq<u8> {
    method + space() + path + space() + version_text(version).spec_bytes() + crlf()
}

/// `<version> 100 Continue\r\n\r\n`
pub open spec fn continue_line(version: Version) -> Seq<u8> {
    version_text(version).spec_bytes() + " 100 Continue\r\n\r\n".spec_bytes()
}

/// `<name>: <value>\r\n`
pub open spec fn header_line(name: Seq<u8>, value: Seq<u8>) -> Seq<u8> {
    name + colon_space() + value + crlf()
}

/// `Content-Length: <n>\r\n`
pub open spec fn content_length_line(n: u64) -> Seq<u8> {
    header_line("Content-Length".spec_bytes(), decimal(n as nat))
}

/// `Transfer-Encoding: chunked\r\n`
pub open spec fn chunked_line() -> Seq<u8> {
    header_line("Transfer-Encoding".spec_bytes(), "chunked".spec_bytes())
}

/// `Connection: close\r\n`
pub open spec fn close_line() -> Seq<u8> {
    header_line("Connection".spec_bytes(), "close".spec_bytes())
}

/// `<hex size>\r\n<data>\r\n`
pub open spec fn chunk_bytes(data: Seq<u8>) -> Seq<u8> {
    hex_lower(data.len()) + crlf() + data + crlf()
}

/// `0\r\n\r\n`, the last chunk of a chunked body.
pub open spec fn last_chunk() -> Seq<u8> {
    seq![48u8, 13u8, 10u8, 13u8, 10u8]
}

/// Names that only the specialized methods may add.
pub open spec fn is_body_length_name(name: Seq<u8>) -> bool {
    eq_ci(name, "Content-Length".spec_bytes()) || eq_ci(name, "Transfer-Encoding".spec_bytes())
}

/// The states in which a status or request line has been written and the
/// header block is still open.
pub open spec fn accepts_headers(s: MessageState) -> bool {
    s is Headers || s is FixedHeaders || s is ChunkedHeaders
}

/// The outcome of adding the header `name: value` in a state that accepts
/// headers.
pub open spec fn header_outcome(name: Seq<u8>, value: Seq<u8>) -> Result<(), HeaderError> {
    if is_body_length_name(name) {
        Err(HeaderError::BodyLengthHeader)
    } else if has_cr_or_lf(name) {
        Err(HeaderError::InvalidHeaderName)
    } else if has_cr_or_lf(value) {
        Err(HeaderError::InvalidHeaderValue)
    } else {
        Ok(())
    }
}

/// The state after the final status line with `code` is written.
pub open spec fn after_status(s: MessageState, code: u16) -> MessageState {
    match s {
        MessageState::ResponseStart { body, close, .. } | MessageState::FinalResponseStart {
            body,
            close,
            ..
        } => MessageState::Headers {
            body: if code_forbids_body(code) {
                Body::Denied
            } else {
                body
            },
            close,
        },
        _ => s,
    }
}

/// Result and next state of `add_length(n)` in a state that accepts headers.
pub open spec fn after_add_length(s: MessageState, n: u64) -> (Result<(), HeaderError>, MessageState) {
    match s {
        MessageState::FixedHeaders { .. } => (Err(HeaderError::DuplicateContentLength), s),
        MessageState::ChunkedHeaders { .. } => (
            Err(HeaderError::ContentLengthAfterTransferEncoding),
            s,
        ),
        MessageState::Headers { body, close } => if body == Body::Denied {
            (Err(HeaderError::RequireBodyless), s)
        } else {
            (Ok(()), MessageState::FixedHeaders { is_head: body == Body::Head, close, content_length: n })
        },
        _ => (Ok(()), s),
    }
}

/// Result and next state of `add_chunked()` in a state that accepts headers.
pub open spec fn after_add_chunked(s: MessageState) -> (Result<(), HeaderError>, MessageState) {
    match s {
        MessageState::FixedHeaders { .. } => (
            Err(HeaderError::TransferEncodingAfterContentLength),
            s,
        ),
        MessageState::ChunkedHeaders { .. } => (Err(HeaderError::DuplicateTransferEncoding), s),
        MessageState::Headers { body, close } => if body == Body::Denied {
            (Err(HeaderError::RequireBodyless), s)
        } else {
            (Ok(()), MessageState::ChunkedHeaders { is_head: body == Body::Head, close })
        },
        _ => (Ok(()), s),
    }
}

/// The message asks for the connection to be closed after it.
pub open spec fn wants_close(s: MessageState) -> bool {
    match s {
        MessageState::Headers { close, .. } => close,
        MessageState::FixedHeaders { close, .. } => close,
        MessageState::ChunkedHeaders { close, .. } => close,
        _ => false,
    }
}

/// The states in which the header block can be closed without a panic.
pub open spec fn can_close_headers(s: MessageState) -> bool {
    match s {
        MessageState::Headers { body, .. } => body != Body::Head,
        MessageState::FixedHeaders { .. } => true,
        MessageState::ChunkedHeaders { .. } => true,
        _ => false,
    }
}

/// Result and next state of `done_headers()`.
pub open spec fn after_done_headers(s: MessageState) -> (Result<bool, HeaderError>, MessageState) {
    match s {
        MessageState::Headers { body, .. } => match body {
            Body::Denied => (Ok(false), MessageState::Bodyless),
            Body::Request => (Ok(true), MessageState::FixedBody { is_head: false, content_length: 0 }),
            _ => (Err(HeaderError::CantDetermineBodySize), s),
        },
        MessageState::FixedHeaders { is_head, content_length, .. } => (
            Ok(!is_head),
            MessageState::FixedBody { is_head, content_length },
        ),
        MessageState::ChunkedHeaders { is_head, .. } => (
            Ok(!is_head),
            MessageState::ChunkedBody { is_head },
        ),
        _ => (Ok(false), s),
    }
}

/// The bytes that `done_headers()` writes.
pub open spec fn done_headers_bytes(s: MessageState) -> Seq<u8> {
    (if wants_close(s) {
        close_line()
    } else {
        Seq::empty()
    }) + (if after_done_headers(s).0 is Ok {
        crlf()
    } else {
        Seq::empty()
    })
}

/// A chunk of `len` bytes may be written in this state.
pub open spec fn can_write_body(s: MessageState, len: nat) -> bool {
    match s {
        MessageState::FixedBody { content_length, .. } => len <= content_length,
        MessageState::ChunkedBody { .. } => true,
        _ => false,
    }
}

/// The state after a chunk of `len` bytes of the body is written.
pub open spec fn after_write_body(s: MessageState, len: nat) -> MessageState {
    match s {
        MessageState::FixedBody { is_head, content_length } => MessageState::FixedBody {
            is_head,
            content_length: (content_length - len) as u64,
        },
        _ => s,
    }
}

/// The bytes written for a chunk `data` of the body.
pub open spec fn body_bytes(s: MessageState, data: Seq<u8>) -> Seq<u8> {
    match s {
        MessageState::FixedBody { is_head, .. } => if is_head {
            Seq::empty()
        } else {
            data
        },
        MessageState::ChunkedBody { is_head } => if !is_head && data.len() > 0 {
            chunk_bytes(data)
        } else {
            Seq::empty()
        },
        _ => Seq::empty(),
    }
}

/// The states in which the message can be finished without a panic.
pub open spec fn can_finish(s: MessageState) -> bool {
    match s {
        MessageState::Bodyless => true,
        MessageState::FixedBody { is_head, content_length } => is_head || content_length == 0,
        MessageState::ChunkedBody { .. } => true,
        MessageState::Done => true,
        _ => false,
    }
}

/// The bytes that `done()` writes.
pub open spec fn done_bytes(s: MessageState) -> Seq<u8> {
    match s {
        MessageState::ChunkedBody { is_head } => if is_head {
            Seq::empty()
        } else {
            last_chunk()
        },
        _ => Seq::empty(),
    }
}

/// Returns true if the value contains a carriage return or a line feed.
pub fn invalid_header(value: &[u8]) -> (r: bool)
    ensures
        r == has_cr_or_lf(value@),
{
    let mut i: usize = 0;
    while i < value.len()
        invariant
            i <= value@.len(),
            forall|j: int| 0 <= j < i ==> value@[j] != 13u8 && value@[j] != 10u8,
        decreases value@.len() - i,
    {
        if value[i] == 13u8 || value[i] == 10u8 {
            return true;
        }
        i += 1;
    }
    false
}

fn is_body_length_header(name: &str) -> (r: bool)
    ensures
        r == is_body_length_name(name.spec_bytes()),
{
    str_eq_ignore_ascii_case(name, "Content-Length") || str_eq_ignore_ascii_case(
        name,
        "Transfer-Encoding",
    )
}

/// The bytes of `\r\n`.
fn crlf_bytes() -> (s: &'static [u8])
    ensures
        s@ == crlf(),
{
    proof {
        reveal_strlit("\r\n");
        broadcast use vstd::string::is_ascii_spec_bytes;

        assert(vstd::string::is_ascii("\r\n"));
        assert("\r\n".spec_bytes() =~= crlf());
    }
    "\r\n".as_bytes()
}

/// The bytes of `: `.
fn colon_space_bytes() -> (s: &'static [u8])
    ensures
        s@ == colon_space(),
{
    proof {
        reveal_strlit(": ");
        broadcast use vstd::string::is_ascii_spec_bytes;

        assert(vstd::string::is_ascii(": "));
        assert(": ".spec_bytes() =~= colon_space());
    }
    ": ".as_bytes()
}

/// The bytes of a single space.
fn space_bytes() -> (s: &'static [u8])
    ensures
        s@ == space(),
{
    proof {
        reveal_strlit(" ");
        broadcast use vstd::string::is_ascii_spec_bytes;

        assert(vstd::string::is_ascii(" "));
        assert(" ".spec_bytes() =~= space());
    }
    " ".as_bytes()
}

/// The two versions are written with the same number of bytes.
pub proof fn lemma_version_text_len(v: Version)
    ensures
        version_text(v).spec_bytes().len() == 8,
{
    reveal_strlit("HTTP/1.0");
    reveal_strlit("HTTP/1.1");
    broadcast use vstd::string::is_ascii_spec_bytes;

    assert(vstd::string::is_ascii("HTTP/1.0"));
    assert(vstd::string::is_ascii("HTTP/1.1"));
}

/// The bytes of ` 100 Continue\r\n\r\n`.
fn continue_tail_bytes() -> (s: &'static [u8])
    ensures
        s@ == " 100 Continue\r\n\r\n".spec_bytes(),
        s@.len() == 17,
{
    proof {
        reveal_strlit(" 100 Continue\r\n\r\n");
        broadcast use vstd::string::is_ascii_spec_bytes;

        assert(vstd::string::is_ascii(" 100 Continue\r\n\r\n"));
    }
    " 100 Continue\r\n\r\n".as_bytes()
}

/// The bytes of `0\r\n\r\n`.
fn last_chunk_bytes() -> (s: &'static [u8])
    ensures
        s@ == last_chunk(),
{
    proof {
        reveal_strlit("0\r\n\r\n");
        broadcast use vstd::string::is_ascii_spec_bytes;

        assert(vstd::string::is_ascii("0\r\n\r\n"));
        assert("0\r\n\r\n".spec_bytes() =~= last_chunk());
    }
    "0\r\n\r\n".as_bytes()
}

/// Appends `<name>: <value>\r\n`, where the name and value have been checked.
fn put_header_line(buf: &mut Buf, name: &[u8], value: &[u8])
    requires
        can_grow(
            buf_contents(*old(buf)).len() as int,
            header_line(name@, value@).len() as int,
        ),
    ensures
        buf_contents(*final(buf)) == buf_contents(*old(buf)) + header_line(name@, value@),
{
    buf_extend(buf, name);
    buf_extend(buf, colon_space_bytes());
    buf_extend(buf, value);
    buf_extend(buf, crlf_bytes());
    assert(buf_contents(*buf) =~= buf_contents(*old(buf)) + header_line(name@, value@));
}

impl MessageState {
    /// Write status line.
    ///
    /// This puts status line into a buffer immediately. If you don't
    /// continue with request it will be sent to the network shortly.
    ///
    /// The status line can only be written once, before anything else
    /// (but after a `100 Continue` line), and 100 is not allowed as a
    /// final status code.
    pub fn response_status(&mut self, buf: &mut Buf, code: u16, reason: &str)
        requires
            *old(self) is ResponseStart || *old(self) is FinalResponseStart,
            code != 100,
            can_grow(
                buf_contents(*old(buf)).len() as int,
                status_line(Version::Http10, code, reason.spec_bytes()).len() as int,
            ),
        ensures
            *final(self) == after_status(*old(self), code),
            buf_contents(*final(buf)) == buf_contents(*old(buf)) + status_line(
                match *old(self) {
                    MessageState::ResponseStart { version, .. } => version,
                    MessageState::FinalResponseStart { version, .. } => version,
                    _ => Version::Http10,
                },
                code,
                reason.spec_bytes(),
            ),
    {
        let (version, body, close) = match *self {
            MessageState::ResponseStart { version, body, close } => (version, body, close),
            MessageState::FinalResponseStart { version, body, close } => (version, body, close),
            _ => {
                proof {
                    assert(false);
                }
                (Version::Http10, Body::Normal, false)
            },
        };
        proof {
            lemma_version_text_len(version);
            lemma_version_text_len(Version::Http10);
        }
        let vtext = version.as_str().as_bytes();
        let digits = decimal_of(code as u64);
        buf_extend(buf, vtext);
        buf_extend(buf, space_bytes());
        buf_extend(buf, digits.as_slice());
        buf_extend(buf, space_bytes());
        buf_extend(buf, reason.as_bytes());
        buf_extend(buf, crlf_bytes());
        assert(buf_contents(*buf) =~= buf_contents(*old(buf)) + status_line(
            version,
            code,
            reason.spec_bytes(),
        ));
        let forbid = (100 <= code && code <= 199) || code == 204 || code == 304;
        *self = MessageState::Headers {
            body: if forbid {
                Body::Denied
            } else {
                body
            },
            close: close,
        };
    }

    /// Write request line.
    ///
    /// This puts request line into a buffer immediately. If you don't
    /// continue with request it will be sent to the network shortly.
    ///
    /// The request line can only be written once, as the first line.
    pub fn request_line(&mut self, buf: &mut Buf, method: &str, path: &str, version: Version)
        requires
            *old(self) == MessageState::RequestStart,
            can_grow(
                buf_contents(*old(buf)).len() as int,
                request_line_bytes(method.spec_bytes(), path.spec_bytes(), Version::Http10).len() as int,
            ),
        ensures
            *final(self) == (MessageState::Headers { body: Body::Request, close: false }),
            buf_contents(*final(buf)) == buf_contents(*old(buf)) + request_line_bytes(
                method.spec_bytes(),
                path.spec_bytes(),
                version,
            ),
    {
        proof {
            lemma_version_text_len(version);
            lemma_version_text_len(Version::Http10);
        }
        buf_extend(buf, method.as_bytes());
        buf_extend(buf, space_bytes());
        buf_extend(buf, path.as_bytes());
        buf_extend(buf, space_bytes());
        buf_extend(buf, version.as_str().as_bytes());
        buf_extend(buf, crlf_bytes());
        assert(buf_contents(*buf) =~= buf_contents(*old(buf)) + request_line_bytes(
            method.spec_bytes(),
            path.spec_bytes(),
            version,
        ));
        *self = MessageState::Headers { body: Body::Request, close: false };
    }

    /// Write a 100 (Continue) response.
    ///
    /// A server should respond with the 100 status code if it receives a
    /// 100-continue expectation. It can only be written before the status
    /// line, and only once.
    pub fn response_continue(&mut self, buf: &mut Buf)
        requires
            *old(self) is ResponseStart,
            can_grow(buf_contents(*old(buf)).len() as int, continue_line(Version::Http10).len() as int),
        ensures
            match *old(self) {
                MessageState::ResponseStart { version, body, close } => {
                    &&& *final(self) == (MessageState::FinalResponseStart { version, body, close })
                    &&& buf_contents(*final(buf)) == buf_contents(*old(buf)) + continue_line(
                        version,
                    )
                },
                _ => false,
            },
    {
        proof {
            lemma_version_text_len(Version::Http10);
        }
        match *self {
            MessageState::ResponseStart { version, body, close } => {
                proof {
                    lemma_version_text_len(version);
                }
                let tail = continue_tail_bytes();
                buf_extend(buf, version.as_str().as_bytes());
                buf_extend(buf, tail);
                *self = MessageState::FinalResponseStart { version, body, close };
            },
            _ => {
                proof {
                    assert(false);
                }
            },
        }
    }

    /// Writes a checked header line (the part common to `add_header` and
    /// `format_header`).
    fn write_header(&mut self, buf: &mut Buf, name: &str, value: &[u8]) -> (r: Result<(), HeaderError>)
        requires
            can_grow(
                buf_contents(*old(buf)).len() as int,
                header_line(name.spec_bytes(), value@).len() as int,
            ),
        ensures
            *final(self) == *old(self),
            r == (if has_cr_or_lf(name.spec_bytes()) {
                Err(HeaderError::InvalidHeaderName)
            } else if has_cr_or_lf(value@) {
                Err(HeaderError::InvalidHeaderValue)
            } else {
                Ok(())
            }),
            buf_contents(*final(buf)) == if r is Ok {
                buf_contents(*old(buf)) + header_line(name.spec_bytes(), value@)
            } else {
                buf_contents(*old(buf))
            },
    {
        if invalid_header(name.as_bytes()) {
            return Err(HeaderError::InvalidHeaderName);
        }
        if invalid_header(value) {
            return Err(HeaderError::InvalidHeaderValue);
        }
        put_header_line(buf, name.as_bytes(), value);
        Ok(())
    }

    /// Add a header to the message.
    ///
    /// Header is written into the output buffer immediately. And is sent
    /// as soon as the next loop iteration
    ///
    /// `Content-Length` header must be send using the `add_length` method
    /// and `Transfer-Encoding: chunked` must be set with the `add_chunked`
    /// method. These two headers are important for the security of HTTP.
    ///
    /// Note that there is currently no way to use a transfer encoding other
    /// than chunked.
    ///
    /// We return Result here to make implementing proxies easier. In the
    /// application handler it's okay to unwrap the result and to get
    /// a meaningful panic (that is basically an assertion).
    ///
    /// Headers can be added only while the header block is open.
    pub fn add_header(&mut self, buf: &mut Buf, name: &str, value: &[u8]) -> (r: Result<(), HeaderError>)
        requires
            is_body_length_name(name.spec_bytes()) || accepts_headers(*old(self)),
            can_grow(
                buf_contents(*old(buf)).len() as int,
                header_line(name.spec_bytes(), value@).len() as int,
            ),
        ensures
            *final(self) == *old(self),
            r == header_outcome(name.spec_bytes(), value@),
            buf_contents(*final(buf)) == if r is Ok {
                buf_contents(*old(buf)) + header_line(name.spec_bytes(), value@)
            } else {
                buf_contents(*old(buf))
            },
    {
        if is_body_length_header(name) {
            return Err(HeaderError::BodyLengthHeader);
        }
        self.write_header(buf, name, value)
    }

    /// Same as `add_header` but takes the value already formatted as text
    ///
    /// Useful for dates and numeric headers, as well as some strongly typed
    /// wrappers
    pub fn format_header(&mut self, buf: &mut Buf, name: &str, value: &str) -> (r: Result<(), HeaderError>)
        requires
            is_body_length_name(name.spec_bytes()) || accepts_headers(*old(self)),
            can_grow(
                buf_contents(*old(buf)).len() as int,
                header_line(name.spec_bytes(), value.spec_bytes()).len() as int,
            ),
        ensures
            *final(self) == *old(self),
            r == header_outcome(name.spec_bytes(), value.spec_bytes()),
            buf_contents(*final(buf)) == if r is Ok {
                buf_contents(*old(buf)) + header_line(name.spec_bytes(), value.spec_bytes())
            } else {
                buf_contents(*old(buf))
            },
    {
        if is_body_length_header(name) {
            return Err(HeaderError::BodyLengthHeader);
        }
        self.write_header(buf, name, value.as_bytes())
    }

    /// Add a content length to the message.
    ///
    /// The `Content-Length` header is written to the output buffer immediately.
    /// It is checked that there are no other body length headers present in the
    /// message. When the body is send the length is validated.
    ///
    /// Only while the header block is open.
    pub fn add_length(&mut self, buf: &mut Buf, n: u64) -> (r: Result<(), HeaderError>)
        requires
            accepts_headers(*old(self)),
            can_grow(buf_contents(*old(buf)).len() as int, content_length_line(n).len() as int),
        ensures
            r == after_add_length(*old(self), n).0,
            *final(self) == after_add_length(*old(self), n).1,
            buf_contents(*final(buf)) == if r is Ok {
                buf_contents(*old(buf)) + content_length_line(n)
            } else {
                buf_contents(*old(buf))
            },
    {
        match *self {
            MessageState::FixedHeaders { .. } => Err(HeaderError::DuplicateContentLength),
            MessageState::ChunkedHeaders { .. } => Err(
                HeaderError::ContentLengthAfterTransferEncoding,
            ),
            MessageState::Headers { body, close } => {
                if body == Body::Denied {
                    return Err(HeaderError::RequireBodyless);
                }
                let digits = decimal_of(n);
                put_header_line(buf, "Content-Length".as_bytes(), digits.as_slice());
                *self = MessageState::FixedHeaders {
                    is_head: body == Body::Head,
                    close: close,
                    content_length: n,
                };
                Ok(())
            },
            _ => {
                proof {
                    assert(false);
                }
                Ok(())
            },
        }
    }

    /// Sets the transfer encoding to chunked.
    ///
    /// Writes `Transfer-Encoding: chunked` to the output buffer immediately.
    /// It is assured that there is only one body length header is present
    /// and the body is written in chunked encoding.
    ///
    /// Only while the header block is open.
    pub fn add_chunked(&mut self, buf: &mut Buf) -> (r: Result<(), HeaderError>)
        requires
            accepts_headers(*old(self)),
            can_grow(buf_contents(*old(buf)).len() as int, chunked_line().len() as int),
        ensures
            r == after_add_chunked(*old(self)).0,
            *final(self) == after_add_chunked(*old(self)).1,
            buf_contents(*final(buf)) == if r is Ok {
                buf_contents(*old(buf)) + chunked_line()
            } else {
                buf_contents(*old(buf))
            },
    {
        match *self {
            MessageState::FixedHeaders { .. } => Err(
                HeaderError::TransferEncodingAfterContentLength,
            ),
            MessageState::ChunkedHeaders { .. } => Err(HeaderError::DuplicateTransferEncoding),
            MessageState::Headers { body, close } => {
                if body == Body::Denied {
                    return Err(HeaderError::RequireBodyless);
                }
                put_header_line(buf, "Transfer-Encoding".as_bytes(), "chunked".as_bytes());
                *self = MessageState::ChunkedHeaders { is_head: body == Body::Head, close: close };
                Ok(())
            },
            _ => {
                proof {
                    assert(false);
                }
                Ok(())
            },
        }
    }

    /// Returns true if at least `status()` method has been called
    ///
    /// This is mostly useful to find out whether we can build an error page
    /// or it's already too late.
    pub fn is_started(&self) -> (r: bool)
        ensures
            r == !(*self is RequestStart || *self is ResponseStart || *self is FinalResponseStart),
    {
        match *self {
            MessageState::RequestStart => false,
            MessageState::ResponseStart { .. } => false,
            MessageState::FinalResponseStart { .. } => false,
            _ => true,
        }
    }

    /// Closes the HTTP header and returns `true` if entity body is expected.
    ///
    /// Specifically `false` is returned when status is 1xx, 204, 304 or in
    /// the response to a `HEAD` request but not if the body has zero-length.
    ///
    /// Similarly to `add_header()` it's fine to `unwrap()` here, unless you're
    /// doing some proxying.
    ///
    /// Only while the header block is open (and not for a response to
    /// a `HEAD` request whose body length is still unset).
    pub fn done_headers(&mut self, buf: &mut Buf) -> (r: Result<bool, HeaderError>)
        requires
            can_close_headers(*old(self)),
            can_grow(buf_contents(*old(buf)).len() as int, done_headers_bytes(*old(self)).len() as int),
        ensures
            r == after_done_headers(*old(self)).0,
            *final(self) == after_done_headers(*old(self)).1,
            buf_contents(*final(buf)) == buf_contents(*old(buf)) + done_headers_bytes(*old(self)),
    {
        let close = match *self {
            MessageState::Headers { close, .. } => close,
            MessageState::FixedHeaders { close, .. } => close,
            MessageState::ChunkedHeaders { close, .. } => close,
            _ => false,
        };
        if close {
            put_header_line(buf, "Connection".as_bytes(), "close".as_bytes());
        }
        let ghost mid = buf_contents(*buf);
        let expect_body = match *self {
            MessageState::Headers { body, .. } => {
                match body {
                    Body::Denied => {
                        *self = MessageState::Bodyless;
                        false
                    },
                    Body::Request => {
                        *self = MessageState::FixedBody { is_head: false, content_length: 0 };
                        true
                    },
                    _ => {
                        assert(buf_contents(*buf) =~= buf_contents(*old(buf)) + done_headers_bytes(*old(self)));
                        return Err(HeaderError::CantDetermineBodySize);
                    },
                }
            },
            MessageState::FixedHeaders { is_head, content_length, .. } => {
                *self = MessageState::FixedBody { is_head: is_head, content_length: content_length };
                !is_head
            },
            MessageState::ChunkedHeaders { is_head, .. } => {
                *self = MessageState::ChunkedBody { is_head: is_head };
                !is_head
            },
            _ => {
                proof {
                    assert(false);
                }
                false
            },
        };
        buf_extend(buf, crlf_bytes());
        assert(buf_contents(*buf) =~= buf_contents(*old(buf)) + done_headers_bytes(*old(self)));
        Ok(expect_body)
    }

    /// Write a chunk of the message body.
    ///
    /// Works both for fixed-size body and chunked body.
    ///
    /// For the chunked body each chunk is put into the buffer immediately
    /// prefixed by chunk size. Empty chunks are ignored.
    ///
    /// For both modes chunk is put into the buffer, but is only sent when
    /// rotor-stream state machine is reached. So you may put multiple chunks
    /// into the buffer quite efficiently.
    ///
    /// You may write a body in responses to HEAD requests just like in real
    /// requests but the data is not sent to the network. Of course it is
    /// more efficient to not construct the message body at all.
    ///
    /// Only after the header block is closed with a body length, and never
    /// more bytes than the announced `Content-Length`.
    pub fn write_body(&mut self, buf: &mut Buf, data: &[u8])
        requires
            can_write_body(*old(self), data@.len()),
            can_grow(buf_contents(*old(buf)).len() as int, body_bytes(*old(self), data@).len() as int),
        ensures
            *final(self) == after_write_body(*old(self), data@.len()),
            buf_contents(*final(buf)) == buf_contents(*old(buf)) + body_bytes(*old(self), data@),
    {
        match *self {
            MessageState::FixedBody { is_head, content_length } => {
                if !is_head {
                    buf_extend(buf, data);
                }
                *self = MessageState::FixedBody {
                    is_head: is_head,
                    content_length: content_length - data.len() as u64,
                };
            },
            MessageState::ChunkedBody { is_head } => {
                if !is_head && data.len() > 0 {
                    let size = hex_of(data.len() as u64);
                    buf_extend(buf, size.as_slice());
                    buf_extend(buf, crlf_bytes());
                    buf_extend(buf, data);
                    buf_extend(buf, crlf_bytes());
                }
            },
            _ => {
                proof {
                    assert(false);
                }
            },
        }
        assert(buf_contents(*buf) =~= buf_contents(*old(buf)) + body_bytes(*old(self), data@));
    }

    /// Returns true if headers are already sent (buffered)
    pub fn is_after_headers(&self) -> (r: bool)
        ensures
            r == (*self is Bodyless || *self is Done || *self is FixedBody || *self is ChunkedBody),
    {
        match *self {
            MessageState::Bodyless => true,
            MessageState::Done => true,
            MessageState::FixedBody { .. } => true,
            MessageState::ChunkedBody { .. } => true,
            _ => false,
        }
    }

    /// Returns true if `done()` method is already called-
    pub fn is_complete(&self) -> (r: bool)
        ensures
            r == (*self is Done),
    {
        match *self {
            MessageState::Done => true,
            _ => false,
        }
    }

    /// Writes needed finalization data into the buffer and asserts
    /// that response is in the appropriate state for that.
    ///
    /// The method may be called multiple times. Only after the header block
    /// is closed and, for a fixed size body, the whole body is written.
    pub fn done(&mut self, buf: &mut Buf)
        requires
            can_finish(*old(self)),
            done_bytes(*old(self)).len() > 0 ==> can_grow(
                buf_contents(*old(buf)).len() as int,
                done_bytes(*old(self)).len() as int,
            ),
        ensures
            *final(self) == MessageState::Done,
            buf_contents(*final(buf)) == buf_contents(*old(buf)) + done_bytes(*old(self)),
    {
        match *self {
            MessageState::ChunkedBody { is_head } => {
                if !is_head {
                    buf_extend(buf, last_chunk_bytes());
                }
            },
            _ => {},
        }
        assert(buf_contents(*buf) =~= buf_contents(*old(buf)) + done_bytes(*old(self)));
        *self = MessageState::Done;
    }
}

/// A response with status 1xx, 204 or 304 never gets a body length: both
/// `add_length` and `add_chunked` are refused, and closing its headers
/// yields a bodyless message.
pub proof fn lemma_bodiless_status(s: MessageState, code: u16, n: u64)
    requires
        s is ResponseStart || s is FinalResponseStart,
        code_forbids_body(code),
    ensures
        after_add_length(after_status(s, code), n).0 == Err::<(), HeaderError>(
            HeaderError::RequireBodyless,
        ),
        after_add_chunked(after_status(s, code)).0 == Err::<(), HeaderError>(
            HeaderError::RequireBodyless,
        ),
        after_done_headers(after_status(s, code)) == (
            Ok::<bool, HeaderError>(false),
            MessageState::Bodyless,
        ),
{
}

/// Once a body length is set, neither `add_length` nor `add_chunked`
/// succeeds again: a message carries at most one body length header.
pub proof fn lemma_single_body_length(s: MessageState, n: u64, m: u64)
    requires
        accepts_headers(s),
    ensures
        after_add_length(s, n).0 is Ok ==> {
            &&& after_add_length(after_add_length(s, n).1, m).0 is Err
            &&& after_add_chunked(after_add_length(s, n).1).0 is Err
        },
        after_add_chunked(s).0 is Ok ==> {
            &&& after_add_length(after_add_chunked(s).1, m).0 is Err
            &&& after_add_chunked(after_add_chunked(s).1).0 is Err
        },
{
}

/// A fixed size body can be finished exactly when all announced bytes have
/// been written.
pub proof fn lemma_fixed_body_complete(n: u64, written: nat)
    requires
        written <= n,
    ensures
        can_finish(after_write_body(MessageState::FixedBody { is_head: false, content_length: n }, written))
            <==> written == n,
{
}

/// The body of a response to a `HEAD` request is never written out, and
/// finishing it writes nothing either.
pub proof fn lemma_head_body_silent(s: MessageState, data: Seq<u8>)
    requires
        s == (MessageState::FixedBody { is_head: true, content_length: (s->FixedBody_content_length) })
            || s == (MessageState::ChunkedBody { is_head: true }),
    ensures
        body_bytes(s, data) == Seq::<u8>::empty(),
        done_bytes(s) == Seq::<u8>::empty(),
{
}

/// Finishing a message leaves it `Done`, after which finishing it again
/// is allowed and writes nothing; a chunked body that is sent is ended
/// with the last chunk `0\r\n\r\n`, any other message gets no bytes.
pub proof fn lemma_done_idempotent(s: MessageState)
    requires
        can_finish(s),
    ensures
        can_finish(MessageState::Done),
        done_bytes(MessageState::Done) == Seq::<u8>::empty(),
        done_bytes(s) == if s == (MessageState::ChunkedBody { is_head: false }) {
            seq![48u8, 13u8, 10u8, 13u8, 10u8]
        } else {
            Seq::<u8>::empty()
        },
{
}

/// A header that is accepted is written as a single line: the only CR and LF
/// bytes of what is appended are its final line break.
pub proof fn lemma_header_line_single(name: Seq<u8>, value: Seq<u8>)
    requires
        header_outcome(name, value) is Ok,
    ensures
        !is_body_length_name(name),
        forall|i: int|
            0 <= i < header_line(name, value).len() - 2 ==> {
                let b = #[trigger] header_line(name, value)[i];
                b != 13u8 && b != 10u8
            },
        header_line(name, value).subrange(
            header_line(name, value).len() - 2,
            header_line(name, value).len() as int,
        ) == crlf(),
{
    let line = header_line(name, value);
    assert forall|i: int| 0 <= i < line.len() - 2 implies line[i] != 13u8 && line[i] != 10u8 by {
        if i < name.len() {
            assert(line[i] == name[i]);
        } else if i < name.len() + 2 {
        } else {
            assert(line[i] == value[i - name.len() - 2]);
        }
    }
    assert(line.subrange(line.len() - 2, line.len() as int) =~= crlf());
}

/// A message that asks for the connection to be closed announces it with
/// `Connection: close` as the last header.
pub proof fn lemma_close_announced(s: MessageState)
    requires
        can_close_headers(s),
        wants_close(s),
    ensures
        done_headers_bytes(s).subrange(0, close_line().len() as int) == close_line(),
{
    assert(done_headers_bytes(s).subrange(0, close_line().len() as int) =~= close_line());
}

/// Closing the headers of a response that may have a body, once its body
/// length is set, tells whether a body follows: it does unless the request
/// was `HEAD`, also where the length is zero.
pub proof fn lemma_body_expected(s: MessageState, code: u16, n: u64)
    requires
        s matches MessageState::ResponseStart { body, .. } && (body == Body::Normal || body == Body::Head),
        !code_forbids_body(code),
    ensures
        ({
            let h = after_status(s, code);
            let head = s->ResponseStart_body == Body::Head;
            &&& after_add_length(h, n).0 is Ok
            &&& after_done_headers(after_add_length(h, n).1).0 == Ok::<bool, HeaderError>(!head)
            &&& after_add_chunked(h).0 is Ok
            &&& after_done_headers(after_add_chunked(h).1).0 == Ok::<bool, HeaderError>(!head)
        }),
{
}

/// An empty chunk of a chunked body writes nothing (it would end the body).
pub proof fn lemma_empty_chunk_ignored(is_head: bool)
    ensures
        body_bytes(MessageState::ChunkedBody { is_head }, Seq::empty()) == Seq::<u8>::empty(),
        after_write_body(MessageState::ChunkedBody { is_head }, 0) == (MessageState::ChunkedBody { is_head }),
{
}

/// A header is accepted exactly when its name is not one of the two body
/// length headers and neither its name nor its value holds a CR or LF
/// byte; every other byte (spaces, tabs, `;`, non-ASCII) is accepted.
pub proof fn lemma_header_accepted(name: Seq<u8>, value: Seq<u8>)
    ensures
        header_outcome(name, value) is Ok <==> {
            &&& !eq_ci(name, "Content-Length".spec_bytes())
            &&& !eq_ci(name, "Transfer-Encoding".spec_bytes())
            &&& forall|i: int| 0 <= i < name.len() ==> #[trigger] name[i] != 13u8 && name[i] != 10u8
            &&& forall|i: int| 0 <= i < value.len() ==> #[trigger] value[i] != 13u8 && value[i] != 10u8
        },
        header_outcome(name, value) is Err ==> (header_outcome(name, value) == Err::<(), HeaderError>(
            HeaderError::BodyLengthHeader,
        ) || header_outcome(name, value) == Err::<(), HeaderError>(HeaderError::InvalidHeaderName)
            || header_outcome(name, value) == Err::<(), HeaderError>(
            HeaderError::InvalidHeaderValue,
        )),
{
}

/// A header is written as its name, a colon and a space, its value, and
/// CR LF; nothing else is added.
pub proof fn lemma_header_line_bytes(name: Seq<u8>, value: Seq<u8>)
    ensures
        ({
            let l = header_line(name, value);
            let n = name.len() as int;
            let m = value.len() as int;
            &&& l.len() == n + m + 4
            &&& l.subrange(0, n) == name
            &&& l[n] == 58u8
            &&& l[n + 1] == 32u8
            &&& l.subrange(n + 2, n + 2 + m) == value
            &&& l[n + 2 + m] == 13u8
            &&& l[n + 3 + m] == 10u8
        }),
{
    let l = header_line(name, value);
    let n = name.len() as int;
    let m = value.len() as int;
    assert(l.subrange(0, n) =~= name);
    assert(l.subrange(n + 2, n + 2 + m) =~= value);
}

} // verus!
