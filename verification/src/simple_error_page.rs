//! An error page written straight into an output buffer, with the
//! connection closed after it.
use vstd::prelude::*;
use vstd::string::StringSliceAdditionalSpecFns;

use netbuf::Buf;

use crate::buf::{buf_contents, buf_extend, can_grow};
use crate::numfmt::{decimal, decimal_of};
use crate::server::ResponseConfig;

verus! {

pub const PART1: &'static str = "<!DOCTYPE html>\n    <html><head><title>";

pub const PART2: &'static str = "</title></head><body><h1>";

pub const PART3: &'static str = "</h1><hr><p>Yours failthfully,<br>minihttp/0.1.0</p>\n        </body>\n    </html>\n    ";

/// Generates response with default error page: the status code and its
/// reason text.
pub struct SimpleErrorPage(pub u16, pub &'static str);

/// `n` in decimal, padded with zeros in front to at least three digits.
pub open spec fn padded3(n: u16) -> Seq<u8> {
    let d = decimal(n as nat);
    if d.len() >= 3 {
        d
    } else {
        Seq::new((3 - d.len()) as nat, |i: int| 48u8) + d
    }
}

/// The announced `Content-Length` of the page: the fixed parts, and the
/// code and reason once.
pub open spec fn old_page_length(reason: Seq<u8>) -> int {
    (PART1.spec_bytes().len() + PART2.spec_bytes().len() + PART3.spec_bytes().len() + 4
        + reason.len()) as int
}

/// The header block of the page (it starts with the code: no version is
/// written in front of it).
pub open spec fn old_page_head(code: u16, reason: Seq<u8>) -> Seq<u8> {
    padded3(code) + " ".spec_bytes() + reason + "\r\nContent-Length: ".spec_bytes() + decimal(
        old_page_length(reason) as nat,
    ) + "\r\nConnection: close\r\n\r\n".spec_bytes()
}

/// The page itself: the code and reason in the title and in the heading.
pub open spec fn old_page_body(code: u16, reason: Seq<u8>) -> Seq<u8> {
    let line = padded3(code) + " ".spec_bytes() + reason;
    PART1.spec_bytes() + line + PART2.spec_bytes() + line + PART3.spec_bytes()
}

/// `n` in decimal with at least three digits.
fn padded3_of(n: u16) -> (v: Vec<u8>)
    ensures
        v@ == padded3(n),
{
    let d = decimal_of(n as u64);
    if d.len() >= 3 {
        return d;
    }
    let mut v: Vec<u8> = Vec::new();
    let pad = 3 - d.len();
    let mut i: usize = 0;
    while i < pad
        invariant
            pad == 3 - d@.len(),
            i <= pad,
            v@ == Seq::new(i as nat, |k: int| 48u8),
        decreases pad - i,
    {
        v.push(48u8);
        i += 1;
        assert(v@ =~= Seq::new(i as nat, |k: int| 48u8));
    }
    v.extend_from_slice(d.as_slice());
    v
}

/// The lengths of the three fixed parts of the page.
proof fn lemma_parts_len()
    ensures
        PART1.spec_bytes().len() == 39,
        PART2.spec_bytes().len() == 25,
        PART3.spec_bytes().len() == 85,
{
    reveal_strlit("<!DOCTYPE html>\n    <html><head><title>");
    reveal_strlit("</title></head><body><h1>");
    reveal_strlit("</h1><hr><p>Yours failthfully,<br>minihttp/0.1.0</p>\n        </body>\n    </html>\n    ");
    crate::ascii::lemma_ascii_str_bytes(PART1);
    crate::ascii::lemma_ascii_str_bytes(PART2);
    crate::ascii::lemma_ascii_str_bytes(PART3);
}

impl SimpleErrorPage {
    /// Writes the status, `Content-Length` and `Connection: close`, then,
    /// unless the request was `HEAD`, the page; hands back the buffer.
    pub fn make_serializer(self, buf: Buf, config: ResponseConfig) -> (r: Buf)
        requires
            can_grow(
                buf_contents(buf).len() as int,
                (old_page_head(self.0, self.1.spec_bytes()) + old_page_body(
                    self.0,
                    self.1.spec_bytes(),
                )).len() as int,
            ),
        ensures
            buf_contents(r) == buf_contents(buf) + old_page_head(self.0, self.1.spec_bytes()) + if config.is_head {
                Seq::empty()
            } else {
                old_page_body(self.0, self.1.spec_bytes())
            },
    {
        let mut buf = buf;
        let ghost b0 = buf_contents(buf);
        let code = padded3_of(self.0);
        proof {
            lemma_parts_len();
        }
        let length: u64 = (PART1.as_bytes().len() + PART2.as_bytes().len()
            + PART3.as_bytes().len() + 4 + self.1.as_bytes().len()) as u64;
        let digits = decimal_of(length);
        buf_extend(&mut buf, code.as_slice());
        buf_extend(&mut buf, " ".as_bytes());
        buf_extend(&mut buf, self.1.as_bytes());
        buf_extend(&mut buf, "\r\nContent-Length: ".as_bytes());
        buf_extend(&mut buf, digits.as_slice());
        buf_extend(&mut buf, "\r\nConnection: close\r\n\r\n".as_bytes());
        assert(buf_contents(buf) =~= b0 + old_page_head(self.0, self.1.spec_bytes()));
        if !config.is_head {
            let ghost b1 = buf_contents(buf);
            buf_extend(&mut buf, PART1.as_bytes());
            buf_extend(&mut buf, code.as_slice());
            buf_extend(&mut buf, " ".as_bytes());
            buf_extend(&mut buf, self.1.as_bytes());
            buf_extend(&mut buf, PART2.as_bytes());
            buf_extend(&mut buf, code.as_slice());
            buf_extend(&mut buf, " ".as_bytes());
            buf_extend(&mut buf, self.1.as_bytes());
            buf_extend(&mut buf, PART3.as_bytes());
            assert(buf_contents(buf) =~= b1 + old_page_body(self.0, self.1.spec_bytes()));
        }
        buf
    }
}

} // verus!
