//! The parsers of `httparse` that the protocol relies on: the chunk-size
//! line of a chunked body, request heads and response heads.
use vstd::prelude::*;

use httparse::Error as HttpParseError;

verus! {

#[verifier::external_type_specification]
#[verifier::external_body]
pub struct ExInvalidChunkSize(httparse::InvalidChunkSize);

/// What `httparse::parse_chunk_size` makes of the bytes at the start of a
/// chunk: `Ok(Some((line_length, chunk_size)))` for a complete chunk-size
/// line, `Ok(None)` when more bytes are needed, `Err(())` for an invalid one.
pub uninterp spec fn chunk_size_line(bytes: Seq<u8>) -> Result<Option<(usize, u64)>, ()>;

/// `httparse::parse_chunk_size`.
///
/// Beside naming its result, the contract states what its source shows of
/// a complete line: it ends with CR LF, so it is at least two bytes long,
/// and lies within the bytes given. The grammar of the line itself (hex
/// digits, extensions, at most sixteen digits) is left to the name.
#[verifier::external_body]
pub(crate) fn parse_chunk_size(bytes: &[u8]) -> (r: Result<Option<(usize, u64)>, httparse::InvalidChunkSize>)
    ensures
        match (r, chunk_size_line(bytes@)) {
            (Ok(x), Ok(y)) => x == y,
            (Err(_), Err(_)) => true,
            _ => false,
        },
        r matches Ok(Some((n, _))) ==> 2 <= n <= bytes@.len(),
{
    match httparse::parse_chunk_size(bytes) {
        Ok(httparse::Status::Complete((n, size))) => Ok(Some((n, size))),
        Ok(httparse::Status::Partial) => Ok(None),
        Err(e) => Err(e),
    }
}

#[verifier::external_type_specification]
#[verifier::external_body]
pub struct ExHttpParseError(HttpParseError);

/// A header field as it was received.
#[derive(Debug)]
pub struct RawHeader {
    pub name: String,
    pub value: Vec<u8>,
}

impl View for RawHeader {
    type V = (Seq<char>, Seq<u8>);

    open spec fn view(&self) -> (Seq<char>, Seq<u8>) {
        (self.name@, self.value@)
    }
}

/// The head of a request as it was received: the request line and the
/// header fields in order.
#[derive(Debug)]
pub struct RawRequest {
    pub method: String,
    pub path: String,
    /// The minor version: `0` for HTTP/1.0, `1` for HTTP/1.1.
    pub version: u8,
    pub headers: Vec<RawHeader>,
}

pub struct RawRequestView {
    pub method: Seq<char>,
    pub path: Seq<char>,
    pub version: u8,
    pub headers: Seq<(Seq<char>, Seq<u8>)>,
}

impl View for RawRequest {
    type V = RawRequestView;

    open spec fn view(&self) -> RawRequestView {
        RawRequestView {
            method: self.method@,
            path: self.path@,
            version: self.version,
            headers: self.headers@.map_values(|h: RawHeader| h@),
        }
    }
}

/// What `httparse::Request::parse` makes of the bytes with room for
/// `max_headers` header fields: `Ok(Some((head, length)))` for a complete
/// head of `length` bytes, `Ok(None)` when more bytes are needed, and
/// `Err(too_many)` for an invalid head, where `too_many` tells whether the
/// error is `TooManyHeaders`.
pub uninterp spec fn request_head(bytes: Seq<u8>, max_headers: usize) -> Result<Option<(RawRequestView, usize)>, bool>;

/// `httparse::Request::parse` on a header array of `max_headers` entries.
///
/// Beside naming its result, the contract states what its source shows: a
/// complete head lies within the bytes given and has no more header fields
/// than there is room for. The request grammar is left to the name.
#[verifier::external_body]
pub(crate) fn parse_request(bytes: &[u8], max_headers: usize) -> (r: Result<Option<(RawRequest, usize)>, (httparse::Error, bool)>)
    ensures
        match (r, request_head(bytes@, max_headers)) {
            (Ok(Some((q, n))), Ok(Some((v, m)))) => q@ == v && n == m,
            (Ok(None), Ok(None)) => true,
            (Err((_, t)), Err(u)) => t == u,
            _ => false,
        },
        r matches Ok(Some((q, n))) ==> n <= bytes@.len() && q.headers@.len() <= max_headers,
{
    let mut headers = vec![httparse::EMPTY_HEADER; max_headers];
    let mut req = httparse::Request::new(&mut headers);
    match req.parse(bytes) {
        Ok(httparse::Status::Complete(n)) => Ok(Some((RawRequest {
            method: req.method.unwrap_or("").to_string(),
            path: req.path.unwrap_or("").to_string(),
            version: req.version.unwrap_or(0),
            headers: req.headers.iter().map(|h| RawHeader { name: h.name.to_string(), value: h.value.to_vec() }).collect(),
        }, n))),
        Ok(httparse::Status::Partial) => Ok(None),
        Err(e) => Err((e, e == httparse::Error::TooManyHeaders)),
    }
}

/// The head of a response as it was received: the status line and the
/// header fields in order.
#[derive(Debug)]
pub struct RawResponse {
    /// The minor version: `0` for HTTP/1.0, `1` for HTTP/1.1.
    pub version: u8,
    pub code: u16,
    pub reason: String,
    pub headers: Vec<RawHeader>,
}

pub struct RawResponseView {
    pub version: u8,
    pub code: u16,
    pub reason: Seq<char>,
    pub headers: Seq<(Seq<char>, Seq<u8>)>,
}

impl View for RawResponse {
    type V = RawResponseView;

    open spec fn view(&self) -> RawResponseView {
        RawResponseView {
            version: self.version,
            code: self.code,
            reason: self.reason@,
            headers: self.headers@.map_values(|h: RawHeader| h@),
        }
    }
}

/// What `httparse::Response::parse` makes of the bytes with room for
/// `max_headers` header fields: `Ok(Some((head, length)))` for a complete
/// head of `length` bytes, `Ok(None)` when more bytes are needed, and
/// `Err(too_many)` for an invalid head, where `too_many` tells whether the
/// error is `TooManyHeaders`.
pub uninterp spec fn response_head(bytes: Seq<u8>, max_headers: usize) -> Result<Option<(RawResponseView, usize)>, bool>;

/// `httparse::Response::parse` on a header array of `max_headers` entries.
///
/// Beside naming its result, the contract states what its source shows: a
/// complete head lies within the bytes given and has no more header fields
/// than there is room for. The status-line grammar is left to the name.
#[verifier::external_body]
pub(crate) fn parse_response(bytes: &[u8], max_headers: usize) -> (r: Result<Option<(RawResponse, usize)>, (httparse::Error, bool)>)
    ensures
        match (r, response_head(bytes@, max_headers)) {
            (Ok(Some((q, n))), Ok(Some((v, m)))) => q@ == v && n == m,
            (Ok(None), Ok(None)) => true,
            (Err((_, t)), Err(u)) => t == u,
            _ => false,
        },
        r matches Ok(Some((q, n))) ==> n <= bytes@.len() && q.headers@.len() <= max_headers,
{
    let mut headers = vec![httparse::EMPTY_HEADER; max_headers];
    let mut resp = httparse::Response::new(&mut headers);
    match resp.parse(bytes) {
        Ok(httparse::Status::Complete(n)) => Ok(Some((RawResponse {
            version: resp.version.unwrap_or(0),
            code: resp.code.unwrap_or(0),
            reason: resp.reason.unwrap_or("").to_string(),
            headers: resp.headers.iter().map(|h| RawHeader { name: h.name.to_string(), value: h.value.to_vec() }).collect(),
        }, n))),
        Ok(httparse::Status::Partial) => Ok(None),
        Err(e) => Err((e, e == httparse::Error::TooManyHeaders)),
    }
}

} // verus!
