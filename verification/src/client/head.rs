//! The head of a response as the client sees it.
use vstd::prelude::*;
use vstd::string::StringSliceAdditionalSpecFns;

use crate::ascii::{
    eq_ci, lemma_ascii_byte_boundary, lemma_boundary_after_ascii, str_eq_ignore_ascii_case,
};
use crate::enums::status::{status_of_code, Status};
use crate::enums::version::Version;
use crate::headers::is_segment;
use crate::raw_parse::{RawHeader, RawResponse, RawResponseView};
use crate::text::{trim, trim_chars};

use super::client::BodyKind;
use super::errors::ErrorEnum;
use super::parser::{bodiless_response, scan_all, scan_error, scan_headers, scan_start, ScanStep};

verus! {

/// A borrowed structure that represents response headers
///
/// It's passed to `Codec::headers_received` and you are free to store or
/// discard any needed fields and headers from it.
///
#[derive(Debug)]
pub struct Head<'a> {
    version: Version,
    code: u16,
    reason: &'a str,
    headers: &'a [RawHeader],
    body_kind: BodyKind,
    connection_header: Option<String>,
    connection_close: bool,
}

/// The plain facts of a response head.
pub struct HeadView {
    pub version: Version,
    pub code: u16,
    pub reason: Seq<char>,
    pub headers: Seq<(Seq<char>, Seq<u8>)>,
    pub body_kind: BodyKind,
    pub connection_header: Option<Seq<char>>,
    pub connection_close: bool,
}

impl<'a> View for Head<'a> {
    type V = HeadView;

    closed spec fn view(&self) -> HeadView {
        HeadView {
            version: self.version,
            code: self.code,
            reason: self.reason@,
            headers: self.headers@.map_values(|h: RawHeader| h@),
            body_kind: self.body_kind,
            connection_header: match self.connection_header {
                Some(x) => Some(x@),
                None => None,
            },
            connection_close: self.connection_close,
        }
    }
}

/// What `Head::from_raw` makes of a received response head (in reply to a
/// `HEAD` request when `is_head`).
pub open spec fn head_result(raw: RawResponseView, is_head: bool, r: Result<HeadView, ErrorEnum>) -> bool {
    let bodiless = bodiless_response(is_head, raw.code);
    match scan_all(bodiless, raw.headers, scan_start(bodiless)) {
        ScanStep::Fail(e) => r == Err::<HeadView, ErrorEnum>(scan_error(e)),
        ScanStep::Next(st) => r == Ok::<HeadView, ErrorEnum>(
            HeadView {
                version: if raw.version == 1 {
                    Version::Http11
                } else {
                    Version::Http10
                },
                code: raw.code,
                reason: raw.reason,
                headers: raw.headers,
                body_kind: st.body,
                connection_header: st.connection,
                // For HTTP/1.0 we could implement Connection: Keep-Alive
                // but hopefully it's rare enough to ignore nowadays
                connection_close: st.close || raw.version == 0,
            },
        ),
    }
}

/// The connection header lists `name` (among its comma separated,
/// trimmed entries, compared without ASCII case).
pub open spec fn listed_in(conn: Seq<char>, name: Seq<u8>) -> bool {
    let b = vstd::utf8::encode_utf8(conn);
    exists|a: int, c: int|
        is_segment(b, a, c) && #[trigger] eq_ci(
            vstd::utf8::encode_utf8(trim_chars(vstd::utf8::decode_utf8(b.subrange(a, c)))),
            name,
        )
}

/// Header fields that `Head::headers` leaves out: `Connection` itself,
/// those it enumerates, `Transfer-Encoding` and `Content-Length`.
pub open spec fn is_hop_by_hop(name: Seq<char>, conn: Option<Seq<char>>) -> bool {
    let nb = vstd::utf8::encode_utf8(name);
    ||| eq_ci(nb, "Connection".spec_bytes())
    ||| eq_ci(nb, "Transfer-Encoding".spec_bytes())
    ||| eq_ci(nb, "Content-Length".spec_bytes())
    ||| (conn matches Some(c) && listed_in(c, nb))
}

/// The index of the first header field at or after `from` that is not
/// hop-by-hop, or the number of fields when there is none.
pub open spec fn next_visible(hs: Seq<(Seq<char>, Seq<u8>)>, conn: Option<Seq<char>>, from: int) -> int
    decreases hs.len() - from,
{
    if from < 0 || from >= hs.len() {
        hs.len() as int
    } else if is_hop_by_hop(hs[from].0, conn) {
        next_visible(hs, conn, from + 1)
    } else {
        from
    }
}

/// Checks whether the connection header lists `name`.
fn listed(conn: &str, name: &str) -> (r: bool)
    ensures
        r == listed_in(conn@, name.spec_bytes()),
{
    let ghost b = conn.spec_bytes();
    proof {
        vstd::utf8::encode_utf8_valid_utf8(conn@);
    }
    let v = conn.as_bytes();
    let mut start: usize = 0;
    let mut i: usize = 0;
    while i <= v.len()
        invariant
            b == conn.spec_bytes(),
            b == v@,
            vstd::utf8::valid_utf8(b),
            start <= i,
            start <= v@.len(),
            i <= v@.len() + 1,
            start == 0 || v@[start - 1] == 44u8,
            forall|k: int| start <= k < i && k < v@.len() ==> #[trigger] v@[k] != 44u8,
            forall|a: int, c: int|
                is_segment(b, a, c) && a < start ==> !#[trigger] eq_ci(
                    vstd::utf8::encode_utf8(trim_chars(vstd::utf8::decode_utf8(b.subrange(a, c)))),
                    name.spec_bytes(),
                ),
            i == v@.len() + 1 ==> start > v@.len() || false,
        decreases v@.len() + 1 - i,
    {
        if i == v.len() || v[i] == 44u8 {
            proof {
                if start > 0 {
                    lemma_ascii_byte_boundary(b, start - 1);
                    lemma_boundary_after_ascii(b, start - 1);
                } else {
                    vstd::utf8::is_char_boundary_start_end_of_seq(b);
                }
            }
            let (_, tail) = conn.split_at(start);
            proof {
                assert(tail.spec_bytes() =~= b.subrange(start as int, b.len() as int));
                vstd::utf8::encode_utf8_valid_utf8(tail@);
                lemma_ascii_byte_boundary(tail.spec_bytes(), i - start);
            }
            let (seg, _) = tail.split_at(i - start);
            proof {
                assert(seg.spec_bytes() =~= b.subrange(start as int, i as int));
                vstd::utf8::encode_utf8_decode_utf8(seg@);
            }
            let trimmed = trim(seg);
            if str_eq_ignore_ascii_case(trimmed, name) {
                assert(is_segment(b, start as int, i as int));
                return true;
            }
            assert forall|a: int, c: int|
                is_segment(b, a, c) && a < i + 1 implies !#[trigger] eq_ci(
                    vstd::utf8::encode_utf8(trim_chars(vstd::utf8::decode_utf8(b.subrange(a, c)))),
                    name.spec_bytes(),
                ) by {
                if a >= start {
                    if a > start {
                        assert(b[a - 1] != 44u8);
                    }
                    if c > i {
                        assert(b[i as int] != 44u8);
                    }
                    if c < i {
                        assert(b[c] != 44u8);
                    }
                    assert(a == start && c == i);
                }
            }
            if i == v.len() {
                assert forall|a: int, c: int|
                    is_segment(b, a, c) implies !#[trigger] eq_ci(
                        vstd::utf8::encode_utf8(
                            trim_chars(vstd::utf8::decode_utf8(b.subrange(a, c))),
                        ),
                        name.spec_bytes(),
                    ) by {
                    assert(a <= b.len());
                }
                return false;
            }
            start = i + 1;
        }
        i += 1;
    }
    false
}

/// Iterator over all meaningful headers for the response
///
/// This iterator is created by `Head::headers`. And iterates over all
/// headers except hop-by-hop ones.
///
/// Note: duplicate headers are not glued together neither they are sorted
pub struct HeaderIter<'a> {
    head: &'a Head<'a>,
    pos: usize,
}

impl<'a> HeaderIter<'a> {
    /// The response head iterated over.
    pub closed spec fn head_of(&self) -> HeadView {
        self.head@
    }

    /// The index of the next header field to look at.
    pub closed spec fn position(&self) -> int {
        self.pos as int
    }

    /// The next header field that is not hop-by-hop.
    pub fn next(&mut self) -> (r: Option<(&'a str, &'a [u8])>)
        requires
            old(self).position() <= old(self).head_of().headers.len(),
        ensures
            final(self).head_of() == old(self).head_of(),
            ({
                let hs = old(self).head_of().headers;
                let k = next_visible(hs, old(self).head_of().connection_header, old(self).position());
                if k == hs.len() {
                    &&& r is None
                    &&& final(self).position() == hs.len()
                } else {
                    &&& r matches Some((n, v)) && n@ == hs[k].0 && v@ == hs[k].1
                    &&& final(self).position() == k + 1
                }
            }),
    {
        let ghost hs = self.head@.headers;
        let ghost conn = self.head@.connection_header;
        let ghost start = self.pos as int;
        while self.pos < self.head.headers.len()
            invariant
                hs == self.head@.headers,
                conn == self.head@.connection_header,
                self.head == old(self).head,
                start == old(self).position(),
                start <= self.pos <= hs.len(),
                hs.len() == self.head.headers@.len(),
                next_visible(hs, conn, start) == next_visible(hs, conn, self.pos as int),
            decreases hs.len() - self.pos,
        {
            let header = &self.head.headers[self.pos];
            assert(hs[self.pos as int] == header@);
            self.pos = self.pos + 1;
            let name = header.name.as_str();
            if str_eq_ignore_ascii_case(name, "Connection") || str_eq_ignore_ascii_case(
                name,
                "Transfer-Encoding",
            ) || str_eq_ignore_ascii_case(name, "Content-Length") {
                continue ;
            }
            match &self.head.connection_header {
                Some(c) => {
                    if listed(c.as_str(), name) {
                        continue ;
                    }
                },
                None => {},
            }
            assert(!is_hop_by_hop(hs[self.pos - 1].0, conn));
            assert(next_visible(hs, conn, self.pos - 1) == self.pos - 1);
            return Some((name, header.value.as_slice()));
        }
        None
    }
}

impl<'a> Head<'a> {
    /// Builds the head of a received response (in reply to a `HEAD`
    /// request when `is_head`): finds the body length and whether the
    /// connection must close.
    pub fn from_raw(raw: &'a RawResponse, is_head: bool) -> (r: Result<Head<'a>, ErrorEnum>)
        ensures
            match r {
                Ok(h) => head_result(raw@, is_head, Ok(h@)),
                Err(e) => head_result(raw@, is_head, Err(e)),
            },
    {
        let (body, conn, close) = match scan_headers(is_head, raw.code, raw.headers.as_slice()) {
            Ok(x) => x,
            Err(e) => {
                return Err(e);
            },
        };
        let h = Head {
            version: if raw.version == 1 {
                Version::Http11
            } else {
                Version::Http10
            },
            code: raw.code,
            reason: raw.reason.as_str(),
            headers: raw.headers.as_slice(),
            body_kind: body,
            connection_header: conn,
            connection_close: close || raw.version == 0,
        };
        Ok(h)
    }

    /// Returns status if it is one of the supported statuses otherwise None
    ///
    /// Note: this method does not consider "reason" string at all just
    /// status code. Which is fine as specification states.
    pub fn status(&self) -> (r: Option<Status>)
        ensures
            r == status_of_code(self@.code),
    {
        Status::from(self.code)
    }

    /// Returns raw status code and reason as received even
    ///
    /// This returns something even if `status()` returned `None`.
    ///
    /// Note: the reason string may not match the status code or may even be
    /// an empty string.
    pub fn raw_status(&self) -> (r: (u16, &'a str))
        ensures
            r.0 == self@.code,
            r.1@ == self@.reason,
    {
        (self.code, self.reason)
    }

    /// Iterator over the headers of HTTP request
    ///
    /// This iterator strips the following kinds of headers:
    ///
    /// 1. Hop-by-hop headers (`Connection` itself, and ones it enumerates)
    /// 2. `Content-Length` and `Transfer-Encoding`
    ///
    /// You may use `all_headers()` if you really need to access to all of
    /// them (mostly useful for debugging puproses).
    pub fn headers<'b>(&'b self) -> (r: HeaderIter<'b>)
        ensures
            r.head_of() == self@,
            r.position() == 0,
    {
        HeaderIter { head: self, pos: 0 }
    }

    /// All headers of HTTP request
    ///
    /// Unlike `self.headers()` this does include hop-by-hop headers. This
    /// method is here just for completeness, you shouldn't need it.
    pub fn all_headers(&self) -> (r: &'a [RawHeader])
        ensures
            r@.map_values(|h: RawHeader| h@) == self@.headers,
    {
        self.headers
    }

    /// The body length of the response, as the headers determine it.
    pub fn body_kind(&self) -> (r: BodyKind)
        ensures
            r == self@.body_kind,
    {
        self.body_kind
    }

    /// The connection must be closed after this response.
    pub fn connection_close(&self) -> (r: bool)
        ensures
            r == self@.connection_close,
    {
        self.connection_close
    }

    /// The version of the response.
    pub fn version(&self) -> (r: Version)
        ensures
            r == self@.version,
    {
        self.version
    }
}

/// A response to a `HEAD` request, or with status 1xx, 204 or 304, is read
/// with an empty body, whatever its header fields say.
pub proof fn lemma_response_without_body(raw: RawResponseView, is_head: bool, h: HeadView)
    requires
        head_result(raw, is_head, Ok(h)),
        is_head || (100 <= raw.code && raw.code <= 199) || raw.code == 204 || raw.code == 304,
    ensures
        h.body_kind == BodyKind::Fixed(0),
{
    super::parser::lemma_no_body_statuses(is_head, raw.code, raw.headers);
}

/// The header iterator never yields `Connection`, `Transfer-Encoding` or
/// `Content-Length` (in any ASCII case), nor a field named in the
/// `Connection` header; and it skips no other field: every field it passes
/// over on the way to the next one it yields is one of those.
pub proof fn lemma_iterator_hides_hop_by_hop(hs: Seq<(Seq<char>, Seq<u8>)>, conn: Option<Seq<char>>, from: int)
    requires
        0 <= from <= hs.len(),
    ensures
        from <= next_visible(hs, conn, from) <= hs.len(),
        next_visible(hs, conn, from) < hs.len() ==> {
            let nb = vstd::utf8::encode_utf8(hs[next_visible(hs, conn, from)].0);
            &&& !eq_ci(nb, "Connection".spec_bytes())
            &&& !eq_ci(nb, "Transfer-Encoding".spec_bytes())
            &&& !eq_ci(nb, "Content-Length".spec_bytes())
            &&& !(conn matches Some(c) && exists|a: int, e: int|
                is_segment(vstd::utf8::encode_utf8(c), a, e) && #[trigger] eq_ci(
                    vstd::utf8::encode_utf8(
                        trim_chars(vstd::utf8::decode_utf8(vstd::utf8::encode_utf8(c).subrange(a, e))),
                    ),
                    nb,
                ))
        },
        forall|k: int|
            from <= k < next_visible(hs, conn, from) ==> {
                let nb = vstd::utf8::encode_utf8(#[trigger] hs[k].0);
                ||| eq_ci(nb, "Connection".spec_bytes())
                ||| eq_ci(nb, "Transfer-Encoding".spec_bytes())
                ||| eq_ci(nb, "Content-Length".spec_bytes())
                ||| (conn matches Some(c) && exists|a: int, e: int|
                    is_segment(vstd::utf8::encode_utf8(c), a, e) && #[trigger] eq_ci(
                        vstd::utf8::encode_utf8(
                            trim_chars(
                                vstd::utf8::decode_utf8(vstd::utf8::encode_utf8(c).subrange(a, e)),
                            ),
                        ),
                        nb,
                    ))
            },
    decreases hs.len() - from,
{
    if from < hs.len() && is_hop_by_hop(hs[from].0, conn) {
        lemma_iterator_hides_hop_by_hop(hs, conn, from + 1);
    }
}

} // verus!
