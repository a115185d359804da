//! A response head that is collected first and then written out whole.
use vstd::prelude::*;
use vstd::string::StringSliceAdditionalSpecFns;
use vstd::utf8::encode_utf8;

use netbuf::Buf;

use crate::base_serializer::{crlf, header_line};
use crate::buf::{buf_contents, buf_extend, can_grow};
use crate::numfmt::{decimal, decimal_of};

verus! {

/// A response head: the minor version, the status code and reason, and
/// the header fields in the order they were added.
#[derive(Debug)]
pub struct Response {
    version: u8,
    code: u16,
    reason: String,
    headers: Vec<(String, String)>,
}

/// The contents of a response head.
pub struct ResponseView {
    pub version: u8,
    pub code: u16,
    pub reason: Seq<char>,
    pub headers: Seq<(Seq<char>, Seq<char>)>,
}

impl View for Response {
    type V = ResponseView;

    closed spec fn view(&self) -> ResponseView {
        ResponseView {
            version: self.version,
            code: self.code,
            reason: self.reason@,
            headers: self.headers@.map_values(|h: (String, String)| (h.0@, h.1@)),
        }
    }
}

/// The header lines `<name>: <value>\r\n` of the fields, in order.
pub open spec fn header_lines(hs: Seq<(Seq<char>, Seq<char>)>) -> Seq<u8>
    decreases hs.len(),
{
    if hs.len() == 0 {
        Seq::empty()
    } else {
        header_lines(hs.drop_last()) + header_line(
            encode_utf8(hs.last().0),
            encode_utf8(hs.last().1),
        )
    }
}

/// The bytes of a response head: `HTTP/1.<version> <code> <reason>\r\n`,
/// the header lines, and an empty line.
pub open spec fn head_bytes(r: ResponseView) -> Seq<u8> {
    "HTTP/1.".spec_bytes() + decimal(r.version as nat) + " ".spec_bytes() + decimal(r.code as nat)
        + " ".spec_bytes() + encode_utf8(r.reason) + crlf() + header_lines(r.headers) + crlf()
}

impl Response {
    /// A response with status `200 OK` and no header fields.
    pub fn new(version: u8) -> (r: Response)
        ensures
            r@ == (ResponseView {
                version: version,
                code: 200,
                reason: "OK"@,
                headers: Seq::empty(),
            }),
    {
        let r = Response {
            code: 200,
            reason: "OK".to_string(),
            version: version,
            headers: Vec::new(),
        };
        assert(r@.headers =~= Seq::empty());
        r
    }

    /// Sets the status code (the reason is left as it is).
    pub fn set_status(&mut self, code: u16) -> (r: &mut Response)
        ensures
            (*r)@ == (ResponseView { code: code, ..old(self)@ }),
            *final(self) == *final(r),
    {
        self.code = code;
        self
    }

    /// Sets the reason text of the status line.
    pub fn set_reason(&mut self, reason: String) -> (r: &mut Response)
        ensures
            (*r)@ == (ResponseView { reason: reason@, ..old(self)@ }),
            *final(self) == *final(r),
    {
        self.reason = reason;
        self
    }

    /// Appends a header field.
    pub fn header(&mut self, header: &str, value: &str) -> (r: &mut Response)
        ensures
            (*r)@ == (ResponseView {
                headers: old(self)@.headers.push((header@, value@)),
                ..old(self)@
            }),
            *final(self) == *final(r),
    {
        let ghost before = self.headers@;
        self.headers.push((header.to_string(), value.to_string()));
        assert(self.headers@.map_values(|h: (String, String)| (h.0@, h.1@)) =~= before.map_values(
            |h: (String, String)| (h.0@, h.1@),
        ).push((header@, value@)));
        self
    }

    /// Writes the response head into the buffer; writing into a buffer
    /// does not fail.
    pub fn write_to(&self, buf: &mut Buf) -> (r: std::io::Result<()>)
        requires
            can_grow(buf_contents(*old(buf)).len() as int, head_bytes(self@).len() as int),
        ensures
            r is Ok,
            buf_contents(*final(buf)) == buf_contents(*old(buf)) + head_bytes(self@),
    {
        let ghost b0 = buf_contents(*buf);
        proof {
            reveal_strlit("HTTP/1.");
            reveal_strlit(" ");
            crate::ascii::lemma_ascii_str_bytes("HTTP/1.");
            crate::ascii::lemma_ascii_str_bytes(" ");
            reveal_strlit("\r\n");
            crate::ascii::lemma_ascii_str_bytes("\r\n");
            assert("\r\n".spec_bytes() =~= crlf());
        }
        let version = decimal_of(self.version as u64);
        let code = decimal_of(self.code as u64);
        buf_extend(buf, "HTTP/1.".as_bytes());
        buf_extend(buf, version.as_slice());
        buf_extend(buf, " ".as_bytes());
        buf_extend(buf, code.as_slice());
        buf_extend(buf, " ".as_bytes());
        buf_extend(buf, self.reason.as_str().as_bytes());
        buf_extend(buf, "\r\n".as_bytes());
        self.write_headers(buf);
        buf_extend(buf, "\r\n".as_bytes());
        assert(buf_contents(*buf) =~= b0 + head_bytes(self@));
        Ok(())
    }

    /// Writes the header lines.
    fn write_headers(&self, buf: &mut Buf)
        requires
            can_grow(buf_contents(*old(buf)).len() as int, header_lines(self@.headers).len() as int),
        ensures
            buf_contents(*final(buf)) == buf_contents(*old(buf)) + header_lines(self@.headers),
    {
        let ghost hs = self@.headers;
        let ghost b0 = buf_contents(*buf);
        proof {
            reveal_strlit(": ");
            reveal_strlit("\r\n");
            crate::ascii::lemma_ascii_str_bytes(": ");
            crate::ascii::lemma_ascii_str_bytes("\r\n");
            assert("\r\n".spec_bytes() =~= crlf());
            assert(hs.subrange(0, 0) =~= Seq::<(Seq<char>, Seq<char>)>::empty());
        }
        let mut i: usize = 0;
        while i < self.headers.len()
            invariant
                hs == self@.headers,
                hs.len() == self.headers@.len(),
                i <= hs.len(),
                buf_contents(*buf) == b0 + header_lines(hs.subrange(0, i as int)),
                can_grow(b0.len() as int, header_lines(hs).len() as int),
                ": ".spec_bytes() == seq![58u8, 32u8],
                "\r\n".spec_bytes() == crlf(),
            decreases hs.len() - i,
        {
            let h = &self.headers[i];
            proof {
                assert(hs[i as int] == (h.0@, h.1@));
                assert(hs.subrange(0, i + 1).drop_last() =~= hs.subrange(0, i as int));
                lemma_header_lines_prefix(hs, i + 1);
            }
            buf_extend(buf, h.0.as_str().as_bytes());
            buf_extend(buf, ": ".as_bytes());
            buf_extend(buf, h.1.as_str().as_bytes());
            buf_extend(buf, "\r\n".as_bytes());
            i += 1;
            assert(buf_contents(*buf) =~= b0 + header_lines(hs.subrange(0, i as int)));
        }
        assert(hs.subrange(0, i as int) =~= hs);
    }
}

/// The header lines of a prefix are no longer than those of the whole.
proof fn lemma_header_lines_prefix(hs: Seq<(Seq<char>, Seq<char>)>, n: int)
    requires
        0 <= n <= hs.len(),
    ensures
        header_lines(hs.subrange(0, n)).len() <= header_lines(hs).len(),
    decreases hs.len() - n,
{
    if n < hs.len() {
        lemma_header_lines_prefix(hs, n + 1);
        assert(hs.subrange(0, n + 1).drop_last() =~= hs.subrange(0, n));
    } else {
        assert(hs.subrange(0, n) =~= hs);
    }
}

} // verus!
