//! Simple to use wrappers for dealing with fully buffered requests
//!
//! By "fully buffered" I mean two things:
//!
//! * No request or response streaming
//! * All headers and body are allocated on the heap
//!
//! The response is handed to the caller once its body has arrived; the
//! caller forwards it to whoever waits for it.
use vstd::prelude::*;
use vstd::string::StringSliceAdditionalSpecFns;
use vstd::utf8::encode_utf8;

use netbuf::Buf;
use url::Url;

use crate::base_serializer::{
    crlf, has_cr_or_lf, header_line, request_line_bytes, Body, MessageState,
};
use crate::ascii::{bytes_to_vec, eq_ci};
use crate::buf::{buf_contents, can_grow};
use crate::enums::status::{status_of_code, Status};
use crate::enums::version::Version;

use super::errors::{Error, ErrorEnum};
use super::head::{is_hop_by_hop, next_visible, Head, HeadView};
use super::recv_mode::{Mode, RecvMode};

verus! {

/// What `Url::parse` makes of a text: `None` when it is not a URL, else
/// the path and the host (where there is one) of the URL, as `Url::path`
/// and `Url::host_str` give them.
pub uninterp spec fn url_parts_of(text: Seq<char>) -> Option<(Seq<char>, Option<Seq<char>>)>;

/// Calls `Url::parse` and reads the path and the host of the URL. The
/// result is a function of the text alone; its grammar is left to the name.
#[verifier::external_body]
fn url_parts(text: &str) -> (r: Option<(String, Option<String>)>)
    ensures
        match (r, url_parts_of(text@)) {
            (None, None) => true,
            (Some((p, h)), Some((vp, vh))) => p@ == vp && match (h, vh) {
                (Some(x), Some(y)) => x@ == y,
                (None, None) => true,
                _ => false,
            },
            _ => false,
        },
{
    Url::parse(text).ok().map(|u| (u.path().to_string(), u.host_str().map(|h| h.to_string())))
}

/// The header fields of a head from index `from` on, without the
/// hop-by-hop ones, in their order.
pub open spec fn visible_from(hs: Seq<(Seq<char>, Seq<u8>)>, conn: Option<Seq<char>>, from: int) -> Seq<(Seq<char>, Seq<u8>)>
    decreases hs.len() - from,
{
    if from < 0 || from >= hs.len() {
        Seq::empty()
    } else if is_hop_by_hop(hs[from].0, conn) {
        visible_from(hs, conn, from + 1)
    } else {
        seq![hs[from]] + visible_from(hs, conn, from + 1)
    }
}

/// The header fields of a response head that `Head::headers` yields.
pub open spec fn visible_headers(h: HeadView) -> Seq<(Seq<char>, Seq<u8>)> {
    visible_from(h.headers, h.connection_header, 0)
}

/// Skipping hop-by-hop fields does not change what is visible.
proof fn lemma_visible_skip(hs: Seq<(Seq<char>, Seq<u8>)>, conn: Option<Seq<char>>, from: int)
    requires
        0 <= from <= hs.len(),
    ensures
        visible_from(hs, conn, from) == visible_from(hs, conn, next_visible(hs, conn, from)),
        next_visible(hs, conn, from) < hs.len() ==> visible_from(hs, conn, from) == seq![
            hs[next_visible(hs, conn, from)],
        ] + visible_from(hs, conn, next_visible(hs, conn, from) + 1),
        from <= next_visible(hs, conn, from) <= hs.len(),
    decreases hs.len() - from,
{
    if from < hs.len() && is_hop_by_hop(hs[from].0, conn) {
        lemma_visible_skip(hs, conn, from + 1);
    }
}

/// A buffered response holds contains a body as contiguous chunk of data
#[derive(Debug)]
pub struct Response {
    status: Status,
    headers: Vec<(String, Vec<u8>)>,
    body: Vec<u8>,
}

/// The contents of a buffered response.
pub struct ResponseView {
    pub status: Status,
    pub headers: Seq<(Seq<char>, Seq<u8>)>,
    pub body: Seq<u8>,
}

/// The plain contents of a list of header fields.
pub open spec fn header_list(v: Seq<(String, Vec<u8>)>) -> Seq<(Seq<char>, Seq<u8>)> {
    v.map_values(|h: (String, Vec<u8>)| (h.0@, h.1@))
}

impl View for Response {
    type V = ResponseView;

    closed spec fn view(&self) -> ResponseView {
        ResponseView { status: self.status, headers: header_list(self.headers@), body: self.body@ }
    }
}

impl Response {
    /// Get response status
    pub fn status(&self) -> (r: Status)
        ensures
            r == self@.status,
    {
        self.status
    }

    /// Get response headers
    pub fn headers(&self) -> (r: &[(String, Vec<u8>)])
        ensures
            header_list(r@) == self@.headers,
    {
        self.headers.as_slice()
    }

    /// Get response body
    pub fn body(&self) -> (r: &[u8])
        ensures
            r@ == self@.body,
    {
        self.body.as_slice()
    }
}

/// Fully buffered (in-memory) writing request and reading response
///
/// This coded should be used when you don't have any special needs
pub struct Buffered {
    method: &'static str,
    path: String,
    host: Option<String>,
    response: Option<Response>,
    max_response_length: usize,
}

/// The state of a buffered request.
pub struct BufferedView {
    pub method: Seq<char>,
    pub path: Seq<char>,
    pub host: Option<Seq<char>>,
    pub response: Option<ResponseView>,
    pub max_response_length: usize,
}

impl View for Buffered {
    type V = BufferedView;

    closed spec fn view(&self) -> BufferedView {
        BufferedView {
            method: self.method@,
            path: self.path@,
            host: match self.host {
                Some(h) => Some(h@),
                None => None,
            },
            response: match self.response {
                Some(r) => Some(r@),
                None => None,
            },
            max_response_length: self.max_response_length,
        }
    }
}

/// The bytes of the request that a buffered request writes: the request
/// line, the `Host` header where the URL has a host, and the end of the
/// header block (the request has an empty body).
pub open spec fn request_bytes(b: BufferedView) -> Seq<u8> {
    request_line_bytes(encode_utf8(b.method), encode_utf8(b.path), Version::Http11) + (match b.host {
        Some(h) => header_line("Host".spec_bytes(), encode_utf8(h)),
        None => Seq::empty(),
    }) + crlf()
}

/// A fresh `GET` request for a path and host, with the default limit on
/// the response length.
pub open spec fn get_view(path: Seq<char>, host: Option<Seq<char>>) -> BufferedView {
    BufferedView {
        method: "GET"@,
        path: path,
        host: host,
        response: None,
        max_response_length: 10485760,
    }
}

impl Buffered {
    /// Fetch data from url using GET method, fully buffered: `None` when
    /// the text is not a URL.
    pub fn get(url: &str) -> (r: Option<Buffered>)
        ensures
            match url_parts_of(url@) {
                None => r is None,
                Some((path, host)) => r matches Some(b) && b@ == get_view(path, host),
            },
    {
        match url_parts(url) {
            Some((path, host)) => Some(Buffered::from_url_parts(path, host)),
            None => None,
        }
    }

    /// A `GET` request for the URL with the given path and host.
    pub fn from_url_parts(path: String, host: Option<String>) -> (r: Buffered)
        ensures
            r@ == get_view(
                path@,
                match host {
                    Some(h) => Some(h@),
                    None => None,
                },
            ),
    {
        Buffered {
            method: "GET",
            path: path,
            host: host,
            response: None,
            max_response_length: 10_485_760,
        }
    }

    /// The host the request is sent to, where the URL has one.
    pub fn host(&self) -> (r: Option<&str>)
        ensures
            match r {
                Some(h) => self@.host == Some(h@),
                None => self@.host is None,
            },
    {
        match &self.host {
            Some(h) => Some(h.as_str()),
            None => None,
        }
    }

    /// A response head has been received and its body is awaited.
    pub fn response_pending(&self) -> (r: bool)
        ensures
            r == self@.response is Some,
    {
        self.response.is_some()
    }

    /// Set max response length for this buffered reader
    pub fn max_response_length(&mut self, value: usize)
        ensures
            final(self)@ == (BufferedView { max_response_length: value, ..old(self)@ }),
    {
        self.max_response_length = value;
    }

    /// Writes the request: `<method> <path> HTTP/1.1`, the `Host` header,
    /// and an empty body. The host must not hold a line break.
    pub fn start_write(&self, state: &mut MessageState, buf: &mut Buf)
        requires
            *old(state) == MessageState::RequestStart,
            self@.host matches Some(h) ==> !has_cr_or_lf(encode_utf8(h)),
            can_grow(buf_contents(*old(buf)).len() as int, request_bytes(self@).len() as int),
        ensures
            *final(state) == MessageState::Done,
            buf_contents(*final(buf)) == buf_contents(*old(buf)) + request_bytes(self@),
    {
        let ghost b0 = buf_contents(*buf);
        proof {
            crate::base_serializer::lemma_version_text_len(Version::Http11);
            crate::base_serializer::lemma_version_text_len(Version::Http10);
            reveal_strlit("Host");
            reveal_strlit("Content-Length");
            reveal_strlit("Transfer-Encoding");
            crate::ascii::lemma_ascii_str_bytes("Host");
            crate::ascii::lemma_ascii_str_bytes("Content-Length");
            crate::ascii::lemma_ascii_str_bytes("Transfer-Encoding");
        }
        state.request_line(buf, self.method, self.path.as_str(), Version::Http11);
        match &self.host {
            Some(h) => {
                let _ = state.add_header(buf, "Host", h.as_str().as_bytes());
            },
            None => {},
        }
        let _ = state.done_headers(buf);
        state.done(buf);
        assert(buf_contents(*buf) =~= b0 + request_bytes(self@));
    }

    /// Received the head of the response: a status that the library does
    /// not know fails the request; else the status and the visible header
    /// fields are kept, and the whole body is to be buffered up to the
    /// configured length.
    pub fn headers_received(&mut self, headers: &Head) -> (r: Result<RecvMode, Error>)
        ensures
            match status_of_code(headers@.code) {
                None => {
                    &&& r == Err::<RecvMode, Error>(Error(ErrorEnum::InvalidStatus))
                    &&& final(self)@ == old(self)@
                },
                Some(s) => {
                    &&& r matches Ok(m) && m@ == Mode::Buffered(old(self)@.max_response_length)
                    &&& final(self)@ == (BufferedView {
                        response: Some(
                            ResponseView {
                                status: s,
                                headers: visible_headers(headers@),
                                body: Seq::empty(),
                            },
                        ),
                        ..old(self)@
                    })
                },
            },
    {
        let status = match headers.status() {
            Some(s) => s,
            None => {
                return Err(Error(ErrorEnum::InvalidStatus));
            },
        };
        let mut list: Vec<(String, Vec<u8>)> = Vec::new();
        let mut iter = headers.headers();
        let ghost hs = headers@.headers;
        let ghost conn = headers@.connection_header;
        proof {
            lemma_visible_skip(hs, conn, 0);
        }
        loop
            invariant
                iter.head_of() == headers@,
                hs == headers@.headers,
                conn == headers@.connection_header,
                0 <= iter.position() <= hs.len(),
                header_list(list@) + visible_from(hs, conn, iter.position()) == visible_headers(
                    headers@,
                ),
            ensures
                header_list(list@) == visible_headers(headers@),
            decreases hs.len() - iter.position(),
        {
            let ghost pos = iter.position();
            proof {
                lemma_visible_skip(hs, conn, pos);
            }
            match iter.next() {
                Some((name, value)) => {
                    let ghost k = next_visible(hs, conn, pos);
                    let ghost before = header_list(list@);
                    list.push((name.to_string(), bytes_to_vec(value)));
                    assert(header_list(list@) =~= before.push((name@, value@)));
                    assert(before + visible_from(hs, conn, pos) =~= header_list(list@)
                        + visible_from(hs, conn, k + 1));
                },
                None => {
                    assert(header_list(list@) + visible_from(hs, conn, hs.len() as int) =~= header_list(list@));
                    assert(header_list(list@) =~= visible_headers(headers@));
                    break ;
                },
            }
        }
        self.response = Some(Response { status: status, headers: list, body: Vec::new() });
        Ok(RecvMode::buffered(self.max_response_length))
    }

    /// The whole body has arrived: it becomes the body of the response,
    /// which is handed out, and all of it is consumed.
    pub fn data_received(&mut self, data: &[u8], end: bool) -> (r: (usize, Response))
        requires
            end,
            old(self)@.response is Some,
        ensures
            r.0 == data@.len(),
            old(self)@.response matches Some(resp) && r.1@ == (ResponseView {
                body: data@,
                ..resp
            }),
            final(self)@ == (BufferedView { response: None, ..old(self)@ }),
    {
        let mut response = self.response.take().unwrap();
        response.body = bytes_to_vec(data);
        (data.len(), response)
    }
}

/// The headers a buffered response keeps are fields of the head, none of
/// them `Connection`, `Transfer-Encoding` or `Content-Length` (in any ASCII
/// case).
pub proof fn lemma_kept_headers_end_to_end(hs: Seq<(Seq<char>, Seq<u8>)>, conn: Option<Seq<char>>, from: int)
    requires
        0 <= from,
    ensures
        forall|j: int|
            0 <= j < visible_from(hs, conn, from).len() ==> {
                let nb = encode_utf8(#[trigger] visible_from(hs, conn, from)[j].0);
                &&& exists|i: int| from <= i < hs.len() && hs[i] == visible_from(hs, conn, from)[j]
                &&& !eq_ci(nb, "Connection".spec_bytes())
                &&& !eq_ci(nb, "Transfer-Encoding".spec_bytes())
                &&& !eq_ci(nb, "Content-Length".spec_bytes())
            },
    decreases hs.len() - from,
{
    if from < hs.len() {
        lemma_kept_headers_end_to_end(hs, conn, from + 1);
        let rest = visible_from(hs, conn, from + 1);
        let v = visible_from(hs, conn, from);
        assert forall|j: int| 0 <= j < v.len() implies {
            let nb = encode_utf8(#[trigger] v[j].0);
            &&& exists|i: int| from <= i < hs.len() && hs[i] == v[j]
            &&& !eq_ci(nb, "Connection".spec_bytes())
            &&& !eq_ci(nb, "Transfer-Encoding".spec_bytes())
            &&& !eq_ci(nb, "Content-Length".spec_bytes())
        } by {
            if is_hop_by_hop(hs[from].0, conn) {
                assert(v == rest);
                let i = choose|i: int| from + 1 <= i < hs.len() && hs[i] == rest[j];
            } else {
                assert(v == seq![hs[from]] + rest);
                if j == 0 {
                    assert(v[0] == hs[from]);
                } else {
                    assert(v[j] == rest[j - 1]);
                    let i = choose|i: int| from + 1 <= i < hs.len() && hs[i] == rest[j - 1];
                }
            }
        }
    }
}

} // verus!
