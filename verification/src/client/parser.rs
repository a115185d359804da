//! Reading of response heads and the body length algorithm for responses.
use vstd::prelude::*;
use vstd::string::StringSliceAdditionalSpecFns;
use vstd::string::StringExecFns;

use netbuf::Buf;

use crate::ascii::{eq_ci, str_eq_ignore_ascii_case};
use crate::body_parser::BodyProgress;
use crate::buf::{buf_bytes, buf_contents};
use crate::chunked;
use crate::headers::{
    any_segment_is_close, is_chunked, is_token_value, last_comma_segment, last_segment,
    lists_close,
};
use crate::raw_parse::{parse_response, response_head, RawHeader, RawResponse, RawResponseView};
use crate::text::{decimal_u64, parse_u64, trim, trim_chars, utf8_text};

use super::client::BodyKind;
use super::errors::{Error, ErrorEnum};
use super::recv_mode::Mode;

verus! {

/// Number of headers to allocate on a stack
pub const MIN_HEADERS: usize = 16;

/// A hard limit on the number of headers
pub const MAX_HEADERS: usize = 1024;

/// What the response header scanner has gathered so far.
pub struct ScanState {
    pub body: BodyKind,
    pub has_content_length: bool,
    pub connection: Option<Seq<char>>,
    pub close: bool,
}

/// The errors the response header scanner can stop with.
#[derive(Debug, Clone, Copy, PartialEq, Eq, Structural)]
pub enum ScanError {
    BadContentLength,
    DuplicateContentLength,
    ConnectionInvalid,
}

pub enum ScanStep {
    Next(ScanState),
    Fail(ScanError),
}

/// The client error that a scan error is reported as.
pub open spec fn scan_error(e: ScanError) -> ErrorEnum {
    match e {
        ScanError::BadContentLength => ErrorEnum::BadContentLength,
        ScanError::DuplicateContentLength => ErrorEnum::DuplicateContentLength,
        ScanError::ConnectionInvalid => ErrorEnum::ConnectionInvalid,
    }
}

/// Responses that have no body whatever their headers say: responses to
/// `HEAD` requests and those with status 1xx, 204 or 304.
pub open spec fn bodiless_response(is_head: bool, code: u16) -> bool {
    is_head || (100 <= code && code < 200) || code == 204 || code == 304
}

/// A `Connection` header field: its trimmed text is appended to the
/// connection header (comma separated) and `close` in it closes the
/// connection.
pub open spec fn connection_step(st: ScanState, value: Seq<u8>) -> ScanStep {
    if !vstd::utf8::valid_utf8(value) {
        ScanStep::Fail(ScanError::ConnectionInvalid)
    } else {
        let t = trim_chars(vstd::utf8::decode_utf8(value));
        ScanStep::Next(
            ScanState {
                connection: Some(
                    match st.connection {
                        Some(x) => x + ", "@ + t,
                        None => t,
                    },
                ),
                close: st.close || lists_close(value),
                ..st
            },
        )
    }
}

/// One header field of the body length algorithm for responses
/// (RFC 7230, section 3.3.3):
///
/// 1. For HEAD, 1xx, 204, 304 -- no body
/// 2. If last transfer encoding is chunked -> Chunked
/// 3. If Content-Length -> Fixed
/// 4. Else Eof
///
/// A `Content-Length` beside a chunked `Transfer-Encoding` is ignored but
/// forbids keep-alive.
pub open spec fn scan_step(bodiless: bool, st: ScanState, name: Seq<char>, value: Seq<u8>) -> ScanStep {
    let nb = vstd::utf8::encode_utf8(name);
    if bodiless {
        if eq_ci(nb, "Connection".spec_bytes()) {
            connection_step(st, value)
        } else {
            ScanStep::Next(st)
        }
    } else if eq_ci(nb, "Transfer-Encoding".spec_bytes()) {
        if is_token_value(last_segment(value), "chunked".spec_bytes()) {
            ScanStep::Next(
                ScanState { close: st.close || st.has_content_length, body: BodyKind::Chunked, ..st },
            )
        } else {
            ScanStep::Next(st)
        }
    } else if eq_ci(nb, "Content-Length".spec_bytes()) {
        if st.has_content_length {
            ScanStep::Fail(ScanError::DuplicateContentLength)
        } else if st.body != BodyKind::Chunked {
            match decimal_u64(value) {
                Some(n) => ScanStep::Next(
                    ScanState { has_content_length: true, body: BodyKind::Fixed(n), ..st },
                ),
                None => ScanStep::Fail(ScanError::BadContentLength),
            }
        } else {
            ScanStep::Next(ScanState { has_content_length: true, close: true, ..st })
        }
    } else if eq_ci(nb, "Connection".spec_bytes()) {
        connection_step(st, value)
    } else {
        ScanStep::Next(st)
    }
}

/// The header fields scanned in order, from the state `st`.
pub open spec fn scan_all(bodiless: bool, hs: Seq<(Seq<char>, Seq<u8>)>, st: ScanState) -> ScanStep
    decreases hs.len(),
{
    if hs.len() == 0 {
        ScanStep::Next(st)
    } else {
        match scan_step(bodiless, st, hs[0].0, hs[0].1) {
            ScanStep::Fail(e) => ScanStep::Fail(e),
            ScanStep::Next(s2) => scan_all(bodiless, hs.drop_first(), s2),
        }
    }
}

/// The scanner's state before any header field.
pub open spec fn scan_start(bodiless: bool) -> ScanState {
    ScanState {
        body: if bodiless {
            BodyKind::Fixed(0)
        } else {
            BodyKind::Eof
        },
        has_content_length: false,
        connection: None,
        close: false,
    }
}

/// The scanner's running state.
struct Scan {
    body: BodyKind,
    has_content_length: bool,
    connection: Option<String>,
    close: bool,
}

spec fn scan_view(s: Scan) -> ScanState {
    ScanState {
        body: s.body,
        has_content_length: s.has_content_length,
        connection: match s.connection {
            Some(x) => Some(x@),
            None => None,
        },
        close: s.close,
    }
}

fn connection_one(st: Scan, value: &[u8]) -> (r: Result<Scan, ScanError>)
    ensures
        match (r, connection_step(scan_view(st), value@)) {
            (Ok(s2), ScanStep::Next(v)) => scan_view(s2) == v,
            (Err(e), ScanStep::Fail(f)) => e == f,
            _ => false,
        },
{
    let mut st = st;
    let text = match utf8_text(value) {
        Some(t) => t,
        None => {
            return Err(ScanError::ConnectionInvalid);
        },
    };
    proof {
        broadcast use vstd::utf8::encode_utf8_decode_utf8;

        assert(vstd::utf8::decode_utf8(vstd::utf8::encode_utf8(text@)) == text@);
    }
    let strconn = trim(text);
    let joined = match st.connection {
        Some(x) => {
            let mut x = x;
            x.append(", ");
            x.append(strconn);
            x
        },
        None => strconn.to_owned(),
    };
    st.connection = Some(joined);
    if any_segment_is_close(value) {
        st.close = true;
    }
    Ok(st)
}

fn scan_one(bodiless: bool, st: Scan, h: &RawHeader) -> (r: Result<Scan, ScanError>)
    ensures
        match (r, scan_step(bodiless, scan_view(st), h.name@, h.value@)) {
            (Ok(s2), ScanStep::Next(v)) => scan_view(s2) == v,
            (Err(e), ScanStep::Fail(f)) => e == f,
            _ => false,
        },
{
    let mut st = st;
    let name = h.name.as_str();
    let value = h.value.as_slice();
    if bodiless {
        if str_eq_ignore_ascii_case(name, "Connection") {
            return connection_one(st, value);
        }
        return Ok(st);
    }
    if str_eq_ignore_ascii_case(name, "Transfer-Encoding") {
        if is_chunked(last_comma_segment(value)) {
            if st.has_content_length {
                st.close = true;
            }
            st.body = BodyKind::Chunked;
        }
        Ok(st)
    } else if str_eq_ignore_ascii_case(name, "Content-Length") {
        if st.has_content_length {
            return Err(ScanError::DuplicateContentLength);
        }
        st.has_content_length = true;
        if st.body != BodyKind::Chunked {
            match parse_u64(value) {
                Some(n) => {
                    st.body = BodyKind::Fixed(n);
                },
                None => {
                    return Err(ScanError::BadContentLength);
                },
            }
        } else {
            st.close = true;
        }
        Ok(st)
    } else if str_eq_ignore_ascii_case(name, "Connection") {
        connection_one(st, value)
    } else {
        Ok(st)
    }
}

/// Scans the header fields of a response: the body length, the
/// `Connection` header and whether the connection must close.
pub fn scan_headers(is_head: bool, code: u16, headers: &[RawHeader]) -> (r: Result<(BodyKind, Option<String>, bool), ErrorEnum>)
    ensures
        match (r, scan_all(bodiless_response(is_head, code), headers@.map_values(|h: RawHeader| h@), scan_start(bodiless_response(is_head, code)))) {
            (Ok((body, conn, close)), ScanStep::Next(v)) => {
                &&& body == v.body
                &&& close == v.close
                &&& match conn {
                    Some(c) => v.connection == Some(c@),
                    None => v.connection is None,
                }
            },
            (Err(e), ScanStep::Fail(f)) => e == scan_error(f),
            _ => false,
        },
{
    let bodiless = is_head || (code >= 100 && code < 200) || code == 204 || code == 304;
    let mut st = Scan {
        body: if bodiless {
            BodyKind::Fixed(0)
        } else {
            BodyKind::Eof
        },
        has_content_length: false,
        connection: None,
        close: false,
    };
    let ghost hs = headers@.map_values(|h: RawHeader| h@);
    let ghost goal = scan_all(bodiless, hs, scan_start(bodiless));
    assert(hs.skip(0) =~= hs);
    let mut i: usize = 0;
    while i < headers.len()
        invariant
            hs == headers@.map_values(|h: RawHeader| h@),
            bodiless == bodiless_response(is_head, code),
            hs.len() == headers@.len(),
            i <= hs.len(),
            goal == scan_all(bodiless, hs, scan_start(bodiless)),
            scan_all(bodiless, hs.skip(i as int), scan_view(st)) == goal,
        decreases hs.len() - i,
    {
        let h = &headers[i];
        assert(hs[i as int] == h@);
        assert(hs.skip(i as int).drop_first() =~= hs.skip(i + 1));
        match scan_one(bodiless, st, h) {
            Ok(next) => {
                st = next;
            },
            Err(e) => {
                assert(hs.skip(i as int)[0] == hs[i as int]);
                assert(goal == ScanStep::Fail(e));
                let err = match e {
                    ScanError::BadContentLength => ErrorEnum::BadContentLength,
                    ScanError::DuplicateContentLength => ErrorEnum::DuplicateContentLength,
                    ScanError::ConnectionInvalid => ErrorEnum::ConnectionInvalid,
                };
                assert(err == scan_error(e));
                return Err(err);
            },
        }
        i += 1;
    }
    Ok((st.body, st.connection, st.close))
}

/// How the body of a response is going to be read, or why it cannot be.
pub open spec fn body_progress_for(kind: BodyKind, mode: Mode) -> Result<BodyProgress, ErrorEnum> {
    match kind {
        BodyKind::Fixed(x) => match mode {
            Mode::Buffered(b) if x > b as u64 => Err(ErrorEnum::ResponseBodyTooLong),
            _ => Ok(BodyProgress::Fixed(x as usize)),
        },
        BodyKind::Chunked => Ok(
            BodyProgress::Chunked(chunked::State { buffered: 0, pending: 0, done: false }),
        ),
        BodyKind::Eof => Ok(BodyProgress::Eof),
    }
}

/// Starts reading a response body of the given kind in the given mode.
pub fn new_body(mode: BodyKind, recv_mode: Mode) -> (r: Result<BodyProgress, ErrorEnum>)
    ensures
        r == body_progress_for(mode, recv_mode),
{
    match mode {
        BodyKind::Fixed(x) => {
            match recv_mode {
                Mode::Buffered(b) => {
                    if x > b as u64 {
                        return Err(ErrorEnum::ResponseBodyTooLong);
                    }
                },
                _ => {},
            }
            Ok(BodyProgress::Fixed(#[verifier::truncate] (x as usize)))
        },
        BodyKind::Chunked => Ok(BodyProgress::Chunked(chunked::State::new())),
        BodyKind::Eof => Ok(BodyProgress::Eof),
    }
}

/// The outcome of parsing a response head with room for 16 header fields,
/// and with room for 1024 of them when 16 are too few.
pub open spec fn response_head_any(bytes: Seq<u8>) -> Result<Option<(RawResponseView, usize)>, bool> {
    match response_head(bytes, MIN_HEADERS) {
        Err(true) => response_head(bytes, MAX_HEADERS),
        other => other,
    }
}

/// Parses the head of a response at the start of the buffer: `None` when
/// it has not fully arrived, the head and its length in bytes otherwise.
pub fn parse_headers(buffer: &Buf) -> (r: Result<Option<(RawResponse, usize)>, ErrorEnum>)
    ensures
        match (r, response_head_any(buf_contents(*buffer))) {
            (Ok(Some((q, n))), Ok(Some((v, m)))) => q@ == v && n == m,
            (Ok(None), Ok(None)) => true,
            (Err(ErrorEnum::Header(_)), Err(_)) => true,
            _ => false,
        },
        r matches Ok(Some((q, n))) ==> n <= buf_contents(*buffer).len(),
{
    let bytes = buf_bytes(buffer);
    let mut result = parse_response(bytes, MIN_HEADERS);
    let too_many = match &result {
        Err((_, t)) => *t,
        Ok(_) => false,
    };
    if too_many {
        result = parse_response(bytes, MAX_HEADERS);
    }
    match result {
        Ok(x) => Ok(x),
        Err((e, _)) => Err(ErrorEnum::Header(e)),
    }
}

/// A `Transfer-Encoding` field whose last coding is `chunked`.
pub open spec fn is_chunked_field(h: (Seq<char>, Seq<u8>)) -> bool {
    eq_ci(vstd::utf8::encode_utf8(h.0), "Transfer-Encoding".spec_bytes()) && is_token_value(
        last_segment(h.1),
        "chunked".spec_bytes(),
    )
}

/// What a successful scan never takes back: a chunked body and a decision
/// to close; and a bodiless response keeps the body it started with.
proof fn lemma_scan_keeps(bodiless: bool, hs: Seq<(Seq<char>, Seq<u8>)>, st: ScanState)
    ensures
        scan_all(bodiless, hs, st) matches ScanStep::Next(s2) ==> {
            &&& st.body == BodyKind::Chunked ==> s2.body == BodyKind::Chunked
            &&& st.close ==> s2.close
            &&& bodiless ==> s2.body == st.body
        },
    decreases hs.len(),
{
    if hs.len() > 0 {
        match scan_step(bodiless, st, hs[0].0, hs[0].1) {
            ScanStep::Next(s1) => lemma_scan_keeps(bodiless, hs.drop_first(), s1),
            ScanStep::Fail(_) => {},
        }
    }
}

/// Scanning the fields is scanning a prefix of them and then the rest.
proof fn lemma_scan_split(bodiless: bool, hs: Seq<(Seq<char>, Seq<u8>)>, st: ScanState, k: int)
    requires
        0 <= k <= hs.len(),
    ensures
        scan_all(bodiless, hs, st) == match scan_all(bodiless, hs.take(k), st) {
            ScanStep::Fail(e) => ScanStep::Fail(e),
            ScanStep::Next(s) => scan_all(bodiless, hs.skip(k), s),
        },
    decreases k,
{
    if k == 0 {
        assert(hs.take(0) =~= Seq::<(Seq<char>, Seq<u8>)>::empty());
        assert(hs.skip(0) =~= hs);
    } else {
        assert(hs.take(k)[0] == hs[0]);
        match scan_step(bodiless, st, hs[0].0, hs[0].1) {
            ScanStep::Next(s1) => {
                lemma_scan_split(bodiless, hs.drop_first(), s1, k - 1);
                assert(hs.take(k).drop_first() =~= hs.drop_first().take(k - 1));
                assert(hs.skip(k) =~= hs.drop_first().skip(k - 1));
            },
            ScanStep::Fail(_) => {},
        }
    }
}

/// A response that has no body by its status or its request (`HEAD`)
/// is read with an empty body, whatever body length fields it has.
pub proof fn lemma_bodiless_has_no_body(is_head: bool, code: u16, hs: Seq<(Seq<char>, Seq<u8>)>)
    requires
        bodiless_response(is_head, code),
        scan_all(true, hs, scan_start(true)) is Next,
    ensures
        scan_all(bodiless_response(is_head, code), hs, scan_start(bodiless_response(is_head, code)))->Next_0.body
            == BodyKind::Fixed(0),
{
    lemma_scan_keeps(true, hs, scan_start(true));
}

/// A response that may have a body and has a `Transfer-Encoding` whose
/// last coding is `chunked` has a chunked body, whatever other body length
/// fields it has.
pub proof fn lemma_chunked_wins(hs: Seq<(Seq<char>, Seq<u8>)>, st: ScanState, i: int)
    requires
        0 <= i < hs.len(),
        is_chunked_field(hs[i]),
        scan_all(false, hs, st) is Next,
    ensures
        scan_all(false, hs, st)->Next_0.body == BodyKind::Chunked,
{
    lemma_scan_split(false, hs, st, i);
    let si = scan_all(false, hs.take(i), st)->Next_0;
    assert(hs.skip(i)[0] == hs[i]);
    assert(hs.skip(i).drop_first() =~= hs.skip(i + 1));
    let s1 = scan_step(false, si, hs[i].0, hs[i].1)->Next_0;
    lemma_scan_keeps(false, hs.skip(i + 1), s1);
}

/// A response to a `HEAD` request, and one with status 1xx, 204 or 304,
/// has an empty body whatever its header fields say.
pub proof fn lemma_no_body_statuses(is_head: bool, code: u16, hs: Seq<(Seq<char>, Seq<u8>)>)
    requires
        is_head || (100 <= code && code <= 199) || code == 204 || code == 304,
        scan_all(
            bodiless_response(is_head, code),
            hs,
            scan_start(bodiless_response(is_head, code)),
        ) is Next,
    ensures
        scan_all(
            bodiless_response(is_head, code),
            hs,
            scan_start(bodiless_response(is_head, code)),
        )->Next_0.body == BodyKind::Fixed(0),
{
    assert(bodiless_response(is_head, code));
    lemma_scan_keeps(true, hs, scan_start(true));
}

} // verus!
