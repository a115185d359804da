use vstd::prelude::*;
use vstd::string::StringSliceAdditionalSpecFns;
use vstd::string::StringExecFns;

use netbuf::Buf;

use crate::ascii::{ascii_lower, eq_ci, is_ws, str_eq, str_eq_ignore_ascii_case};
use crate::buf::{buf_bytes, buf_contents};
use crate::enums::version::Version;
use crate::headers::{
    any_segment_is_close, is_chunked, is_continue, is_segment, is_token_value, last_comma_segment,
    last_segment, lists_close, lower_word_at, ws_between,
};
use crate::raw_parse::{parse_request, request_head, RawHeader, RawRequest, RawRequestView};
use crate::text::{decimal_u64, parse_u64, trim, trim_chars, utf8_text};

use super::codec::BodyKind;
use super::error::Error;
use super::request_target::{parsed_target, RequestTarget};

verus! {

/// Number of headers to allocate on a stack
pub const MIN_HEADERS: usize = 16;

/// A hard limit on the number of headers
pub const MAX_HEADERS: usize = 1024;

/// What the header scanner has gathered so far.
pub struct ScanState {
    pub body: BodyKind,
    pub has_content_length: bool,
    pub transfer_encoding: bool,
    pub close: bool,
    pub expect_continue: bool,
    pub connection: Option<Seq<char>>,
    pub host_header: bool,
    pub host: Option<Seq<char>>,
    pub conflicting_host: bool,
}

/// The outcome of an error-free scan step, or the error it stops with.
pub enum ScanStep {
    Next(ScanState),
    Fail(ScanError),
}

/// The errors the header scanner can stop with.
#[derive(Debug, Clone, Copy, PartialEq, Eq, Structural)]
pub enum ScanError {
    BadRequestTarget,
    HostInvalid,
    DuplicateHost,
    ConnectionInvalid,
    ContentLengthInvalid,
    DuplicateContentLength,
    TransferEncodingInvalid,
}

/// The server error that a scan error is reported as.
pub open spec fn scan_error(e: ScanError) -> Error {
    match e {
        ScanError::BadRequestTarget => Error::BadRequestTarget,
        ScanError::HostInvalid => Error::HostInvalid,
        ScanError::DuplicateHost => Error::DuplicateHost,
        ScanError::ConnectionInvalid => Error::ConnectionInvalid,
        ScanError::ContentLengthInvalid => Error::ContentLengthInvalid,
        ScanError::DuplicateContentLength => Error::DuplicateContentLength,
        ScanError::TransferEncodingInvalid => Error::TransferEncodingInvalid,
    }
}

/// The bytes of a header name.
pub open spec fn name_bytes(name: Seq<char>) -> Seq<u8> {
    vstd::utf8::encode_utf8(name)
}

/// The text of a header value, with white space trimmed (when it is valid
/// UTF-8).
pub open spec fn trimmed_text(value: Seq<u8>) -> Seq<char> {
    trim_chars(vstd::utf8::decode_utf8(value))
}

/// One header field of the body length algorithm for requests
/// (RFC 7230, section 3.3.3):
///
/// 1. If the request contains a valid `Transfer-Encoding` header
///    with `chunked` as the last encoding the request is chunked.
/// 2. If the request contains a valid `Content-Length` header
///    the request has the given length in octets.
/// 3. If neither `Transfer-Encoding` nor `Content-Length` are
///    present the request has an empty body.
/// 4. In all other cases the request is a bad request.
///
/// A `Content-Length` beside a chunked `Transfer-Encoding` is ignored but
/// forbids keep-alive. `Connection`, `Host` and `Expect` are recorded. The
/// fourth rule is applied once all fields are scanned (`scan_finish`).
pub open spec fn scan_step(st: ScanState, name: Seq<char>, value: Seq<u8>) -> ScanStep {
    let nb = name_bytes(name);
    if eq_ci(nb, "Transfer-Encoding".spec_bytes()) {
        if is_token_value(last_segment(value), "chunked".spec_bytes()) {
            ScanStep::Next(
                ScanState {
                    close: st.close || st.has_content_length,
                    body: BodyKind::Chunked,
                    transfer_encoding: true,
                    ..st
                },
            )
        } else {
            ScanStep::Next(ScanState { transfer_encoding: true, ..st })
        }
    } else if eq_ci(nb, "Content-Length".spec_bytes()) {
        if st.has_content_length {
            ScanStep::Fail(ScanError::DuplicateContentLength)
        } else if st.body != BodyKind::Chunked {
            match decimal_u64(value) {
                Some(n) => ScanStep::Next(
                    ScanState { has_content_length: true, body: BodyKind::Fixed(n), ..st },
                ),
                None => ScanStep::Fail(ScanError::ContentLengthInvalid),
            }
        } else {
            ScanStep::Next(ScanState { has_content_length: true, close: true, ..st })
        }
    } else if eq_ci(nb, "Connection".spec_bytes()) {
        if !vstd::utf8::valid_utf8(value) {
            ScanStep::Fail(ScanError::ConnectionInvalid)
        } else {
            let t = trimmed_text(value);
            ScanStep::Next(
                ScanState {
                    connection: Some(
                        match st.connection {
                            Some(x) => x + ", "@ + t,
                            None => t,
                        },
                    ),
                    close: st.close || lists_close(value),
                    ..st
                },
            )
        }
    } else if eq_ci(nb, "Host".spec_bytes()) {
        if st.host_header {
            ScanStep::Fail(ScanError::DuplicateHost)
        } else if !vstd::utf8::valid_utf8(value) {
            ScanStep::Fail(ScanError::HostInvalid)
        } else {
            let t = trimmed_text(value);
            match st.host {
                None => ScanStep::Next(ScanState { host_header: true, host: Some(t), ..st }),
                Some(h) => ScanStep::Next(
                    ScanState { host_header: true, conflicting_host: st.conflicting_host || h != t, ..st },
                ),
            }
        }
    } else if eq_ci(nb, "Expect".spec_bytes()) {
        if is_token_value(value, "100-continue".spec_bytes()) {
            ScanStep::Next(ScanState { expect_continue: true, ..st })
        } else {
            ScanStep::Next(st)
        }
    } else {
        ScanStep::Next(st)
    }
}

/// The header fields scanned in order, from the state `st`.
pub open spec fn scan_all(hs: Seq<(Seq<char>, Seq<u8>)>, st: ScanState) -> ScanStep
    decreases hs.len(),
{
    if hs.len() == 0 {
        ScanStep::Next(st)
    } else {
        match scan_step(st, hs[0].0, hs[0].1) {
            ScanStep::Fail(e) => ScanStep::Fail(e),
            ScanStep::Next(s2) => scan_all(hs.drop_first(), s2),
        }
    }
}

/// The end of the scan: a request with a `Transfer-Encoding` that is not
/// chunked and no `Content-Length` has no length that can be known, and is
/// refused (the fourth rule of the body length algorithm).
pub open spec fn scan_finish(r: ScanStep) -> ScanStep {
    match r {
        ScanStep::Next(st) => if st.transfer_encoding && st.body != BodyKind::Chunked
            && !st.has_content_length {
            ScanStep::Fail(ScanError::TransferEncodingInvalid)
        } else {
            ScanStep::Next(st)
        },
        ScanStep::Fail(e) => ScanStep::Fail(e),
    }
}

/// The host named by a request-target (the authority of an absolute or
/// authority-form target).
pub open spec fn target_host(t: RequestTarget) -> Option<Seq<char>> {
    match t {
        RequestTarget::Authority(x) => Some(x@),
        RequestTarget::Absolute { authority, .. } => Some(authority@),
        _ => None,
    }
}

/// The scanner's state before any header field.
pub open spec fn scan_start(version: u8, target: RequestTarget) -> ScanState {
    ScanState {
        body: BodyKind::Fixed(0),
        has_content_length: false,
        transfer_encoding: false,
        close: version == 0,
        expect_continue: false,
        connection: None,
        host_header: false,
        host: target_host(target),
        conflicting_host: false,
    }
}

/// The scanner's running state.
struct Scan<'a> {
    body: BodyKind,
    has_content_length: bool,
    transfer_encoding: bool,
    close: bool,
    expect_continue: bool,
    connection: Option<String>,
    host_header: bool,
    host: Option<&'a str>,
    conflicting_host: bool,
}

spec fn scan_view(s: Scan) -> ScanState {
    ScanState {
        body: s.body,
        has_content_length: s.has_content_length,
        transfer_encoding: s.transfer_encoding,
        close: s.close,
        expect_continue: s.expect_continue,
        connection: match s.connection {
            Some(x) => Some(x@),
            None => None,
        },
        host_header: s.host_header,
        host: match s.host {
            Some(x) => Some(x@),
            None => None,
        },
        conflicting_host: s.conflicting_host,
    }
}

proof fn lemma_text_of_utf8(s: &str, v: Seq<u8>)
    requires
        s.spec_bytes() == v,
    ensures
        vstd::utf8::decode_utf8(v) == s@,
{
    broadcast use vstd::utf8::encode_utf8_decode_utf8;

}

/// One step of the scanner.
fn scan_one<'a>(st: Scan<'a>, h: &'a RawHeader) -> (r: Result<Scan<'a>, ScanError>)
    ensures
        match (r, scan_step(scan_view(st), h.name@, h.value@)) {
            (Ok(s2), ScanStep::Next(v)) => scan_view(s2) == v,
            (Err(e), ScanStep::Fail(f)) => e == f,
            _ => false,
        },
{
    let mut st = st;
    let name = h.name.as_str();
    let value = h.value.as_slice();
    if str_eq_ignore_ascii_case(name, "Transfer-Encoding") {
        if is_chunked(last_comma_segment(value)) {
            if st.has_content_length {
                st.close = true;
            }
            st.body = BodyKind::Chunked;
        }
        st.transfer_encoding = true;
        Ok(st)
    } else if str_eq_ignore_ascii_case(name, "Content-Length") {
        if st.has_content_length {
            return Err(ScanError::DuplicateContentLength);
        }
        st.has_content_length = true;
        if st.body != BodyKind::Chunked {
            match parse_u64(value) {
                Some(n) => {
                    st.body = BodyKind::Fixed(n);
                },
                None => {
                    return Err(ScanError::ContentLengthInvalid);
                },
            }
        } else {
            st.close = true;
        }
        Ok(st)
    } else if str_eq_ignore_ascii_case(name, "Connection") {
        let text = match utf8_text(value) {
            Some(t) => t,
            None => {
                return Err(ScanError::ConnectionInvalid);
            },
        };
        proof {
            lemma_text_of_utf8(text, value@);
        }
        let strconn = trim(text);
        let joined = match st.connection {
            Some(x) => {
                let mut x = x;
                x.append(", ");
                x.append(strconn);
                x
            },
            None => strconn.to_owned(),
        };
        st.connection = Some(joined);
        if any_segment_is_close(value) {
            st.close = true;
        }
        Ok(st)
    } else if str_eq_ignore_ascii_case(name, "Host") {
        if st.host_header {
            return Err(ScanError::DuplicateHost);
        }
        let text = match utf8_text(value) {
            Some(t) => t,
            None => {
                return Err(ScanError::HostInvalid);
            },
        };
        proof {
            lemma_text_of_utf8(text, value@);
        }
        let strhost = trim(text);
        st.host_header = true;
        match st.host {
            None => {
                st.host = Some(strhost);
            },
            Some(h) => {
                if !str_eq(h, strhost) {
                    st.conflicting_host = true;
                }
            },
        }
        Ok(st)
    } else if str_eq_ignore_ascii_case(name, "Expect") {
        if is_continue(value) {
            st.expect_continue = true;
        }
        Ok(st)
    } else {
        Ok(st)
    }
}

/// Scans the header fields of a request whose target is `target`.
fn scan_headers<'a>(raw: &'a RawRequest, target: RequestTarget<'a>) -> (r: Result<Scan<'a>, ScanError>)
    ensures
        match (r, scan_finish(scan_all(raw@.headers, scan_start(raw.version, target)))) {
            (Ok(s2), ScanStep::Next(v)) => scan_view(s2) == v,
            (Err(e), ScanStep::Fail(f)) => e == f,
            _ => false,
        },
{
    let host = match target {
        RequestTarget::Authority(x) => Some(x),
        RequestTarget::Absolute { authority, .. } => Some(authority),
        _ => None,
    };
    let mut st = Scan {
        body: BodyKind::Fixed(0),
        has_content_length: false,
        transfer_encoding: false,
        close: raw.version == 0,
        expect_continue: false,
        connection: None,
        host_header: false,
        host: host,
        conflicting_host: false,
    };
    let ghost hs = raw@.headers;
    let ghost goal = scan_all(hs, scan_start(raw.version, target));
    assert(hs.skip(0) =~= hs);
    let mut i: usize = 0;
    while i < raw.headers.len()
        invariant
            hs == raw@.headers,
            hs.len() == raw.headers@.len(),
            i <= hs.len(),
            goal == scan_all(hs, scan_start(raw.version, target)),
            scan_all(hs.skip(i as int), scan_view(st)) == goal,
        decreases hs.len() - i,
    {
        let h = &raw.headers[i];
        assert(hs[i as int] == h@);
        assert(hs.skip(i as int).drop_first() =~= hs.skip(i + 1));
        match scan_one(st, h) {
            Ok(next) => {
                st = next;
            },
            Err(e) => {
                return Err(e);
            },
        }
        i += 1;
    }
    assert(hs.skip(i as int) =~= Seq::<(Seq<char>, Seq<u8>)>::empty());
    if st.transfer_encoding && st.body != BodyKind::Chunked && !st.has_content_length {
        return Err(ScanError::TransferEncodingInvalid);
    }
    Ok(st)
}

/// A borrowed structure that represents request headers
///
/// It's passed to `Codec::headers_received` and you are free to store or
/// discard any needed fields and headers from it.
///
/// Note, we don't strip hop-by-hop headers (`Connection: close`,
/// `Transfer-Encoding`) and we use them to ensure correctness of the protocol.
/// You must skip them if proxying headers somewhere.
#[derive(Debug)]
pub struct Head<'a> {
    method: &'a str,
    raw_target: &'a str,
    target: RequestTarget<'a>,
    host: Option<&'a str>,
    conflicting_host: bool,
    version: Version,
    headers: &'a [RawHeader],
    body_kind: BodyKind,
    connection_close: bool,
    connection_header: Option<String>,
    is_head: bool,
    expect_continue: bool,
}

/// The plain facts of a request head.
pub struct HeadView {
    pub method: Seq<char>,
    pub raw_target: Seq<char>,
    pub host: Option<Seq<char>>,
    pub conflicting_host: bool,
    pub version: Version,
    pub headers: Seq<(Seq<char>, Seq<u8>)>,
    pub body_kind: BodyKind,
    pub connection_close: bool,
    pub connection_header: Option<Seq<char>>,
    pub is_head: bool,
    pub expect_continue: bool,
}

impl<'a> View for Head<'a> {
    type V = HeadView;

    closed spec fn view(&self) -> HeadView {
        HeadView {
            method: self.method@,
            raw_target: self.raw_target@,
            host: match self.host {
                Some(x) => Some(x@),
                None => None,
            },
            conflicting_host: self.conflicting_host,
            version: self.version,
            headers: self.headers@.map_values(|h: RawHeader| h@),
            body_kind: self.body_kind,
            connection_close: self.connection_close,
            connection_header: match self.connection_header {
                Some(x) => Some(x@),
                None => None,
            },
            is_head: self.is_head,
            expect_continue: self.expect_continue,
        }
    }
}

/// The version of a request from its minor version number.
pub open spec fn version_of(minor: u8) -> Version {
    if minor == 1 {
        Version::Http11
    } else {
        Version::Http10
    }
}

/// The head of a request whose header fields scanned to `st`.
pub open spec fn head_of(raw: RawRequestView, st: ScanState) -> HeadView {
    HeadView {
        method: raw.method,
        raw_target: raw.path,
        host: st.host,
        conflicting_host: st.conflicting_host,
        version: version_of(raw.version),
        headers: raw.headers,
        body_kind: st.body,
        // For HTTP/1.0 we could implement Connection: Keep-Alive but
        // hopefully it's rare enough to ignore nowadays
        connection_close: st.close || raw.version == 0,
        connection_header: st.connection,
        is_head: raw.method == "HEAD"@,
        expect_continue: st.expect_continue,
    }
}

/// What `Head::from_raw` makes of a received request head.
pub open spec fn head_result(raw: RawRequestView, r: Result<HeadView, Error>, target: Option<RequestTarget>) -> bool {
    &&& parsed_target(raw.path, target)
    &&& match target {
        None => r == Err::<HeadView, Error>(Error::BadRequestTarget),
        Some(t) => match scan_finish(scan_all(raw.headers, scan_start(raw.version, t))) {
            ScanStep::Fail(e) => r == Err::<HeadView, Error>(scan_error(e)),
            ScanStep::Next(st) => r == Ok::<HeadView, Error>(head_of(raw, st)),
        },
    }
}

impl<'a> Head<'a> {
    /// The request-target of the head.
    pub closed spec fn target_of(&self) -> RequestTarget<'a> {
        self.target
    }

    /// Builds the head of a received request: finds the request-target, the
    /// host and the body length, and whether the connection must close.
    pub fn from_raw(raw: &'a RawRequest) -> (r: Result<Head<'a>, Error>)
        ensures
            match r {
                Ok(h) => head_result(raw@, Ok(h@), Some(h.target_of())),
                Err(e) => exists|t: Option<RequestTarget<'a>>| #[trigger] head_result(raw@, Err(e), t),
            },
    {
        let target = match RequestTarget::parse(raw.path.as_str()) {
            Some(t) => t,
            None => {
                assert(head_result(raw@, Err(Error::BadRequestTarget), None));
                return Err(Error::BadRequestTarget);
            },
        };
        let st = match scan_headers(raw, target) {
            Ok(st) => st,
            Err(e) => {
                let err = match e {
                    ScanError::BadRequestTarget => Error::BadRequestTarget,
                    ScanError::HostInvalid => Error::HostInvalid,
                    ScanError::DuplicateHost => Error::DuplicateHost,
                    ScanError::ConnectionInvalid => Error::ConnectionInvalid,
                    ScanError::ContentLengthInvalid => Error::ContentLengthInvalid,
                    ScanError::DuplicateContentLength => Error::DuplicateContentLength,
                    ScanError::TransferEncodingInvalid => Error::TransferEncodingInvalid,
                };
                assert(head_result(raw@, Err(err), Some(target)));
                return Err(err);
            },
        };
        let version = if raw.version == 1 {
            Version::Http11
        } else {
            Version::Http10
        };
        let h = Head {
            method: raw.method.as_str(),
            raw_target: raw.path.as_str(),
            target: target,
            host: st.host,
            conflicting_host: st.conflicting_host,
            version: version,
            headers: raw.headers.as_slice(),
            body_kind: st.body,
            connection_close: st.close || raw.version == 0,
            connection_header: st.connection,
            is_head: str_eq(raw.method.as_str(), "HEAD"),
            expect_continue: st.expect_continue,
        };
        assert(h@ == head_of(raw@, scan_view(st)));
        Ok(h)
    }

    pub fn method(&self) -> (r: &str)
        ensures
            r@ == self@.method,
    {
        self.method
    }

    pub fn raw_request_target(&self) -> (r: &str)
        ensures
            r@ == self@.raw_target,
    {
        self.raw_target
    }

    /// Request-target (the middle part of the first line of request)
    pub fn request_target(&self) -> (r: &RequestTarget<'a>)
        ensures
            *r == self.target_of(),
    {
        &self.target
    }

    /// Returns path portion of request uri
    ///
    /// Note: this may return something not starting from a slash when
    /// full uri is used as request-target
    ///
    /// If the request target is in asterisk form this returns None
    pub fn path(&self) -> (r: Option<&str>)
        ensures
            r == match self.target_of() {
                RequestTarget::Origin(x) => Some(x),
                RequestTarget::Absolute { path, .. } => Some(path),
                _ => None::<&str>,
            },
    {
        match self.target {
            RequestTarget::Origin(x) => Some(x),
            RequestTarget::Absolute { path, .. } => Some(path),
            RequestTarget::Authority(..) => None,
            RequestTarget::Asterisk => None,
        }
    }

    /// Return host of a request
    ///
    /// Note: this might be extracted from request-target portion of
    /// request headers (first line).
    ///
    /// If both `Host` header exists and doesn't match host in request-target
    /// then this method returns host from request-target and
    /// `has_conflicting_host()` method returns true.
    pub fn host(&self) -> (r: Option<&str>)
        ensures
            match r {
                Some(x) => self@.host == Some(x@),
                None => self@.host is None,
            },
    {
        self.host
    }

    /// Returns true if the `Host` header differs from the host of the
    /// request-target
    pub fn has_conflicting_host(&self) -> (r: bool)
        ensures
            r == self@.conflicting_host,
    {
        self.conflicting_host
    }

    pub fn version(&self) -> (r: Version)
        ensures
            r == self@.version,
    {
        self.version
    }

    pub fn headers(&self) -> (r: &'a [RawHeader])
        ensures
            r@.map_values(|h: RawHeader| h@) == self@.headers,
    {
        self.headers
    }

    pub fn connection_close(&self) -> (r: bool)
        ensures
            r == self@.connection_close,
    {
        self.connection_close
    }

    pub fn connection_header(&self) -> (r: Option<&String>)
        ensures
            match r {
                Some(x) => self@.connection_header == Some(x@),
                None => self@.connection_header is None,
            },
    {
        self.connection_header.as_ref()
    }

    /// The body length of the request, as the headers determine it.
    pub fn body_kind(&self) -> (r: BodyKind)
        ensures
            r == self@.body_kind,
    {
        self.body_kind
    }

    /// The request carries `Expect: 100-continue`.
    pub fn expect_continue(&self) -> (r: bool)
        ensures
            r == self@.expect_continue,
    {
        self.expect_continue
    }
}

/// The outcome of parsing a request head with room for 16 header fields,
/// and with room for 1024 of them when 16 are too few.
pub open spec fn request_head_any(bytes: Seq<u8>) -> Result<Option<(RawRequestView, usize)>, bool> {
    match request_head(bytes, MIN_HEADERS) {
        Err(true) => request_head(bytes, MAX_HEADERS),
        other => other,
    }
}

/// Parses the head of a request at the start of the buffer: `None` when
/// it has not fully arrived, the head and its length in bytes otherwise.
pub fn parse_headers(buffer: &Buf) -> (r: Result<Option<(RawRequest, usize)>, Error>)
    ensures
        match (r, request_head_any(buf_contents(*buffer))) {
            (Ok(Some((q, n))), Ok(Some((v, m)))) => q@ == v && n == m,
            (Ok(None), Ok(None)) => true,
            (Err(Error::ParseError(_)), Err(_)) => true,
            _ => false,
        },
        r matches Ok(Some((q, n))) ==> n <= buf_contents(*buffer).len(),
{
    let bytes = buf_bytes(buffer);
    let mut result = parse_request(bytes, MIN_HEADERS);
    let too_many = match &result {
        Err((_, t)) => *t,
        Ok(_) => false,
    };
    if too_many {
        result = parse_request(bytes, MAX_HEADERS);
    }
    match result {
        Ok(x) => Ok(x),
        Err((e, _)) => Err(Error::ParseError(e)),
    }
}

/// This structure contains all needed info to start response of the request
/// in a correct manner
pub struct ResponseConfig {
    /// Whether request is a HEAD request
    pub is_head: bool,
    /// Is `Connection: close` in request or HTTP version == 1.0
    pub do_close: bool,
    /// Version of HTTP request
    pub version: Version,
}

impl ResponseConfig {
    /// The response settings that a request head calls for.
    pub fn from(head: &Head) -> (c: ResponseConfig)
        ensures
            c.is_head == head@.is_head,
            c.do_close == head@.connection_close,
            c.version == head@.version,
    {
        ResponseConfig {
            is_head: head.is_head,
            do_close: head.connection_close,
            version: head.version,
        }
    }
}

/// The field names that decide the body length.
pub open spec fn is_chunked_field(h: (Seq<char>, Seq<u8>)) -> bool {
    eq_ci(name_bytes(h.0), "Transfer-Encoding".spec_bytes()) && is_token_value(
        last_segment(h.1),
        "chunked".spec_bytes(),
    )
}

/// A `Content-Length` field.
pub open spec fn is_length_field(h: (Seq<char>, Seq<u8>)) -> bool {
    eq_ci(name_bytes(h.0), "Content-Length".spec_bytes())
}

/// Scanning the fields is scanning a prefix of them and then the rest.
proof fn lemma_scan_split(hs: Seq<(Seq<char>, Seq<u8>)>, st: ScanState, k: int)
    requires
        0 <= k <= hs.len(),
    ensures
        scan_all(hs, st) == match scan_all(hs.take(k), st) {
            ScanStep::Fail(e) => ScanStep::Fail(e),
            ScanStep::Next(s) => scan_all(hs.skip(k), s),
        },
    decreases k,
{
    if k == 0 {
        assert(hs.take(0) =~= Seq::<(Seq<char>, Seq<u8>)>::empty());
        assert(hs.skip(0) =~= hs);
    } else {
        assert(hs.take(k)[0] == hs[0]);
        match scan_step(st, hs[0].0, hs[0].1) {
            ScanStep::Next(s1) => {
                lemma_scan_split(hs.drop_first(), s1, k - 1);
                assert(hs.take(k).drop_first() =~= hs.drop_first().take(k - 1));
                assert(hs.skip(k) =~= hs.drop_first().skip(k - 1));
            },
            ScanStep::Fail(_) => {},
        }
    }
}

/// What a successful scan never takes back: a chunked body, a decision
/// to close, a seen `Content-Length`, and a host already known.
proof fn lemma_scan_keeps(hs: Seq<(Seq<char>, Seq<u8>)>, st: ScanState)
    ensures
        scan_all(hs, st) matches ScanStep::Next(s2) ==> {
            &&& st.body == BodyKind::Chunked ==> s2.body == BodyKind::Chunked
            &&& st.close ==> s2.close
            &&& st.has_content_length ==> s2.has_content_length
            &&& st.transfer_encoding ==> s2.transfer_encoding
            &&& st.host is Some ==> s2.host == st.host
        },
    decreases hs.len(),
{
    if hs.len() > 0 {
        match scan_step(st, hs[0].0, hs[0].1) {
            ScanStep::Next(s1) => lemma_scan_keeps(hs.drop_first(), s1),
            ScanStep::Fail(_) => {},
        }
    }
}

/// The field at index `i` is scanned from the state that the fields
/// before it lead to, and the fields up to it lead to the state after it.
proof fn lemma_scan_at(hs: Seq<(Seq<char>, Seq<u8>)>, st: ScanState, i: int) -> (si: ScanState)
    requires
        0 <= i < hs.len(),
        scan_all(hs, st) is Next,
    ensures
        scan_all(hs.take(i), st) == ScanStep::Next(si),
        scan_step(si, hs[i].0, hs[i].1) matches ScanStep::Next(s1) && scan_all(hs.skip(i + 1), s1)
            == scan_all(hs, st) && scan_all(hs.take(i + 1), st) == ScanStep::Next(s1),
{
    lemma_scan_split(hs, st, i);
    let si = match scan_all(hs.take(i), st) {
        ScanStep::Next(s) => s,
        ScanStep::Fail(_) => st,
    };
    assert(hs.skip(i)[0] == hs[i]);
    assert(hs.skip(i).drop_first() =~= hs.skip(i + 1));
    lemma_scan_split(hs.take(i + 1), st, i);
    assert(hs.take(i + 1).take(i) =~= hs.take(i));
    let one = seq![hs[i]];
    assert(hs.take(i + 1).skip(i) =~= one);
    assert(one.drop_first() =~= Seq::<(Seq<char>, Seq<u8>)>::empty());
    assert(one[0] == hs[i]);
    if let ScanStep::Next(s1) = scan_step(si, hs[i].0, hs[i].1) {
        assert(scan_all(one.drop_first(), s1) == ScanStep::Next(s1));
        assert(scan_all(one, si) == ScanStep::Next(s1));
    }
    si
}

/// Scanning the first `b` fields goes through the state after the first
/// `a` of them.
proof fn lemma_scan_chain(hs: Seq<(Seq<char>, Seq<u8>)>, st: ScanState, a: int, b: int, sa: ScanState)
    requires
        0 <= a <= b <= hs.len(),
        scan_all(hs.take(a), st) == ScanStep::Next(sa),
    ensures
        scan_all(hs.take(b), st) == scan_all(hs.subrange(a, b), sa),
{
    lemma_scan_split(hs.take(b), st, a);
    assert(hs.take(b).take(a) =~= hs.take(a));
    assert(hs.take(b).skip(a) =~= hs.subrange(a, b));
}

/// A request with a `Transfer-Encoding` whose last coding is `chunked` has
/// a chunked body, whatever other body length fields it has.
pub proof fn lemma_chunked_wins(hs: Seq<(Seq<char>, Seq<u8>)>, st: ScanState, i: int)
    requires
        0 <= i < hs.len(),
        is_chunked_field(hs[i]),
        scan_all(hs, st) is Next,
    ensures
        scan_all(hs, st)->Next_0.body == BodyKind::Chunked,
{
    let si = lemma_scan_at(hs, st, i);
    let s1 = scan_step(si, hs[i].0, hs[i].1)->Next_0;
    lemma_scan_keeps(hs.skip(i + 1), s1);
}

/// The names of the two body length fields differ.
proof fn lemma_length_names()
    ensures
        "Transfer-Encoding".spec_bytes().len() == 17,
        "Content-Length".spec_bytes().len() == 14,
{
    reveal_strlit("Transfer-Encoding");
    reveal_strlit("Content-Length");
    crate::ascii::lemma_ascii_str_bytes("Transfer-Encoding");
    crate::ascii::lemma_ascii_str_bytes("Content-Length");
}

/// A request that has both a chunked `Transfer-Encoding` and a
/// `Content-Length` is read as chunked and its connection is not kept
/// alive.
pub proof fn lemma_chunked_with_length_closes(hs: Seq<(Seq<char>, Seq<u8>)>, st: ScanState, i: int, j: int)
    requires
        0 <= i < hs.len(),
        0 <= j < hs.len(),
        is_chunked_field(hs[i]),
        is_length_field(hs[j]),
        scan_all(hs, st) is Next,
    ensures
        scan_all(hs, st)->Next_0.body == BodyKind::Chunked,
        scan_all(hs, st)->Next_0.close,
{
    lemma_length_names();
    lemma_chunked_wins(hs, st, i);
    let si = lemma_scan_at(hs, st, i);
    let s1 = scan_step(si, hs[i].0, hs[i].1)->Next_0;
    let sj = lemma_scan_at(hs, st, j);
    let t1 = scan_step(sj, hs[j].0, hs[j].1)->Next_0;
    if j < i {
        assert(t1.has_content_length);
        lemma_scan_chain(hs, st, j + 1, i, t1);
        lemma_scan_keeps(hs.subrange(j + 1, i), t1);
        assert(si.has_content_length);
        assert(s1.close);
        lemma_scan_keeps(hs.skip(i + 1), s1);
    } else {
        assert(j != i);
        lemma_scan_chain(hs, st, i + 1, j, s1);
        lemma_scan_keeps(hs.subrange(i + 1, j), s1);
        assert(sj.body == BodyKind::Chunked);
        assert(t1.close);
        lemma_scan_keeps(hs.skip(j + 1), t1);
    }
}

/// Where the request-target names a host, that host is the host of the
/// request, whatever `Host` header it has.
pub proof fn lemma_target_host_wins(raw: RawRequestView, t: RequestTarget)
    requires
        target_host(t) is Some,
        scan_all(raw.headers, scan_start(raw.version, t)) is Next,
    ensures
        head_of(raw, scan_all(raw.headers, scan_start(raw.version, t))->Next_0).host == target_host(t),
{
    lemma_scan_keeps(raw.headers, scan_start(raw.version, t));
}

/// Without a chunked `Transfer-Encoding` field the body does not become
/// chunked, and without a `Content-Length` field none is recorded.
proof fn lemma_scan_without(hs: Seq<(Seq<char>, Seq<u8>)>, st: ScanState)
    ensures
        scan_all(hs, st) matches ScanStep::Next(s2) ==> {
            &&& (forall|k: int| 0 <= k < hs.len() ==> !is_chunked_field(#[trigger] hs[k]))
                && st.body != BodyKind::Chunked ==> s2.body != BodyKind::Chunked
            &&& (forall|k: int| 0 <= k < hs.len() ==> !is_length_field(#[trigger] hs[k]))
                && !st.has_content_length ==> !s2.has_content_length
        },
    decreases hs.len(),
{
    if hs.len() > 0 {
        match scan_step(st, hs[0].0, hs[0].1) {
            ScanStep::Next(s1) => {
                lemma_scan_without(hs.drop_first(), s1);
                if forall|k: int| 0 <= k < hs.len() ==> !is_chunked_field(#[trigger] hs[k]) {
                    assert(!is_chunked_field(hs[0]));
                    assert forall|k: int| 0 <= k < hs.drop_first().len() implies !is_chunked_field(
                        #[trigger] hs.drop_first()[k],
                    ) by {
                        assert(hs.drop_first()[k] == hs[k + 1]);
                    }
                }
                if forall|k: int| 0 <= k < hs.len() ==> !is_length_field(#[trigger] hs[k]) {
                    assert(!is_length_field(hs[0]));
                    assert forall|k: int| 0 <= k < hs.drop_first().len() implies !is_length_field(
                        #[trigger] hs.drop_first()[k],
                    ) by {
                        assert(hs.drop_first()[k] == hs[k + 1]);
                    }
                }
            },
            ScanStep::Fail(_) => {},
        }
    }
}

/// A request with a `Transfer-Encoding` field, none whose last coding is
/// `chunked`, and no `Content-Length` is refused: its body length cannot be
/// known.
pub proof fn lemma_unknown_coding_refused(hs: Seq<(Seq<char>, Seq<u8>)>, st: ScanState, i: int)
    requires
        0 <= i < hs.len(),
        eq_ci(name_bytes(hs[i].0), "Transfer-Encoding".spec_bytes()),
        forall|k: int| 0 <= k < hs.len() ==> !is_chunked_field(#[trigger] hs[k]),
        forall|k: int| 0 <= k < hs.len() ==> !is_length_field(#[trigger] hs[k]),
        st.body != BodyKind::Chunked,
        !st.has_content_length,
        scan_all(hs, st) is Next,
    ensures
        scan_finish(scan_all(hs, st)) == ScanStep::Fail(ScanError::TransferEncodingInvalid),
{
    lemma_scan_without(hs, st);
    let si = lemma_scan_at(hs, st, i);
    let s1 = scan_step(si, hs[i].0, hs[i].1)->Next_0;
    assert(s1.transfer_encoding);
    lemma_scan_keeps(hs.skip(i + 1), s1);
}

/// The entry of the header value `v` between commas at `a` and `b` is the
/// word `close` at `p`, in any ASCII case, with only CR, LF, SP or HTAB
/// around it.
pub open spec fn close_entry_at(v: Seq<u8>, a: int, b: int, p: int) -> bool {
    &&& 0 <= a <= p && p + 5 <= b <= v.len()
    &&& a == 0 || v[a - 1] == 44u8
    &&& b == v.len() || v[b] == 44u8
    &&& forall|k: int| a <= k < b ==> #[trigger] v[k] != 44u8
    &&& forall|k: int|
        (a <= k < p || p + 5 <= k < b) ==> (#[trigger] v[k] == 13u8 || v[k] == 10u8 || v[k]
            == 32u8 || v[k] == 9u8)
    &&& forall|k: int|
        0 <= k < 5 ==> (#[trigger] v[p + k] == seq![99u8, 108u8, 111u8, 115u8, 101u8][k] || v[p
            + k] as int + 32 == seq![99u8, 108u8, 111u8, 115u8, 101u8][k] as int)
}

/// A header value lists `close` among its comma separated entries.
spec fn value_lists_close(v: Seq<u8>) -> bool {
    exists|a: int, b: int, p: int| #[trigger] close_entry_at(v, a, b, p)
}

/// A header field asks for the connection to be closed.
spec fn asks_close(h: (Seq<char>, Seq<u8>)) -> bool {
    eq_ci(name_bytes(h.0), "Connection".spec_bytes()) && value_lists_close(h.1)
}

/// The bytes of the word `close`.
proof fn lemma_close_word()
    ensures
        "close".spec_bytes() == seq![99u8, 108u8, 111u8, 115u8, 101u8],
        "Connection".spec_bytes().len() == 10,
{
    reveal_strlit("close");
    reveal_strlit("Connection");
    crate::ascii::lemma_ascii_str_bytes("close");
    crate::ascii::lemma_ascii_str_bytes("Connection");
    assert("close".spec_bytes() =~= seq![99u8, 108u8, 111u8, 115u8, 101u8]);
}

/// The scanner's notion of a `close` entry is the plain one.
proof fn lemma_lists_close_plain(v: Seq<u8>)
    ensures
        lists_close(v) == value_lists_close(v),
{
    lemma_close_word();
    let w = seq![99u8, 108u8, 111u8, 115u8, 101u8];
    if lists_close(v) {
        let (a, b) = choose|a: int, b: int|
            is_segment(v, a, b) && #[trigger] is_token_value(v.subrange(a, b), "close".spec_bytes());
        let seg = v.subrange(a, b);
        let p0 = choose|p: int|
            0 <= p && p + 5 <= seg.len() && ws_between(seg, 0, p) && !is_ws(#[trigger] seg[p])
                && lower_word_at(seg, p, w) && ws_between(seg, p + 5, seg.len() as int);
        let p = a + p0;
        assert forall|k: int| a <= k < b implies #[trigger] v[k] != 44u8 by {}
        assert forall|k: int| (a <= k < p || p + 5 <= k < b) implies (#[trigger] v[k] == 13u8
            || v[k] == 10u8 || v[k] == 32u8 || v[k] == 9u8) by {
            assert(seg[k - a] == v[k]);
        }
        assert forall|k: int| 0 <= k < 5 implies (#[trigger] v[p + k] == w[k] || v[p + k] as int
            + 32 == w[k] as int) by {
            assert(seg[p0 + k] == v[p + k]);
            assert(ascii_lower(seg[p0 + k]) == w[k]);
        }
        assert(close_entry_at(v, a, b, p));
        assert(value_lists_close(v));
    }
    if value_lists_close(v) {
        let (a, b, p) = choose|a: int, b: int, p: int| #[trigger] close_entry_at(v, a, b, p);
        let seg = v.subrange(a, b);
        let p0 = p - a;
        assert(is_segment(v, a, b));
        assert forall|k: int| 0 <= k < p0 implies is_ws(#[trigger] seg[k]) by {
            assert(seg[k] == v[a + k]);
        }
        assert forall|k: int| p0 + 5 <= k < seg.len() implies is_ws(#[trigger] seg[k]) by {
            assert(seg[k] == v[a + k]);
        }
        assert forall|k: int| 0 <= k < 5 implies ascii_lower(#[trigger] seg[p0 + k]) == w[k] by {
            assert(seg[p0 + k] == v[p + k]);
        }
        assert(seg[p0] == v[p]);
        assert(v[p + 0] == w[0] || v[p + 0] as int + 32 == w[0] as int);
        assert(!is_ws(seg[p0]));
        assert(is_token_value(seg, "close".spec_bytes()));
        assert(lists_close(v));
    }
}

/// Whether some element of `hs` satisfies `f` is whether the first does or
/// some element of the rest does.
proof fn lemma_exists_split(hs: Seq<(Seq<char>, Seq<u8>)>, f: spec_fn((Seq<char>, Seq<u8>)) -> bool)
    requires
        hs.len() > 0,
    ensures
        (exists|i: int| 0 <= i < hs.len() && f(#[trigger] hs[i])) == (f(hs[0]) || exists|i: int|
            0 <= i < hs.drop_first().len() && f(#[trigger] hs.drop_first()[i])),
{
    if exists|i: int| 0 <= i < hs.len() && f(#[trigger] hs[i]) {
        let i = choose|i: int| 0 <= i < hs.len() && f(#[trigger] hs[i]);
        if i > 0 {
            assert(hs.drop_first()[i - 1] == hs[i]);
        }
    }
    if exists|i: int| 0 <= i < hs.drop_first().len() && f(#[trigger] hs.drop_first()[i]) {
        let i = choose|i: int| 0 <= i < hs.drop_first().len() && f(#[trigger] hs.drop_first()[i]);
        assert(hs[i + 1] == hs.drop_first()[i]);
    }
}

/// When the scan ends with the connection closed, from any state.
proof fn lemma_scan_close(hs: Seq<(Seq<char>, Seq<u8>)>, st: ScanState)
    requires
        scan_all(hs, st) is Next,
    ensures
        scan_all(hs, st)->Next_0.close == (st.close || (exists|i: int|
            0 <= i < hs.len() && asks_close(#[trigger] hs[i])) || ((exists|i: int|
            0 <= i < hs.len() && is_chunked_field(#[trigger] hs[i])) && (st.has_content_length
            || exists|j: int| 0 <= j < hs.len() && is_length_field(#[trigger] hs[j]))) || ((exists|
            j: int,
        | 0 <= j < hs.len() && is_length_field(#[trigger] hs[j])) && st.body == BodyKind::Chunked)),
    decreases hs.len(),
{
    if hs.len() == 0 {
        return ;
    }
    lemma_length_names();
    lemma_close_word();
    let h = hs[0];
    let rest = hs.drop_first();
    let s1 = scan_step(st, h.0, h.1)->Next_0;
    lemma_scan_close(rest, s1);
    lemma_exists_split(hs, |x: (Seq<char>, Seq<u8>)| asks_close(x));
    lemma_exists_split(hs, |x: (Seq<char>, Seq<u8>)| is_chunked_field(x));
    lemma_exists_split(hs, |x: (Seq<char>, Seq<u8>)| is_length_field(x));
    lemma_lists_close_plain(h.1);
    let nb = name_bytes(h.0);
    if eq_ci(nb, "Transfer-Encoding".spec_bytes()) {
        assert(!eq_ci(nb, "Content-Length".spec_bytes()));
        assert(!eq_ci(nb, "Connection".spec_bytes()));
    } else if eq_ci(nb, "Content-Length".spec_bytes()) {
        assert(!eq_ci(nb, "Connection".spec_bytes()));
        if st.body == BodyKind::Chunked {
            lemma_scan_keeps(rest, s1);
        }
    }
}

/// A request head closes the connection after the response exactly when
/// the request is HTTP/1.0, when a `Connection` field lists `close`, or
/// when it has both a chunked `Transfer-Encoding` and a `Content-Length`.
/// Any other request, `Connection: keep-alive` or not, keeps it alive.
pub proof fn lemma_connection_close(raw: RawRequestView, h: HeadView, target: Option<RequestTarget>)
    requires
        head_result(raw, Ok(h), target),
    ensures
        h.connection_close == (raw.version == 0 || (exists|i: int|
            0 <= i < raw.headers.len() && eq_ci(
                name_bytes(#[trigger] raw.headers[i].0),
                "Connection".spec_bytes(),
            ) && exists|a: int, b: int, p: int| #[trigger] close_entry_at(raw.headers[i].1, a, b, p)) || ((exists|i: int|
            0 <= i < raw.headers.len() && is_chunked_field(#[trigger] raw.headers[i])) && (exists|
            j: int,
        | 0 <= j < raw.headers.len() && is_length_field(#[trigger] raw.headers[j])))),
{
    let t = target->Some_0;
    let st0 = scan_start(raw.version, t);
    lemma_scan_close(raw.headers, st0);
    assert forall|i: int| 0 <= i < raw.headers.len() implies asks_close(#[trigger] raw.headers[i])
        == (eq_ci(name_bytes(raw.headers[i].0), "Connection".spec_bytes()) && value_lists_close(
        raw.headers[i].1,
    )) by {}
}

} // verus!
