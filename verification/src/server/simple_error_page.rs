//! A default error page, and a small demo of how a response is written.
use vstd::prelude::*;
use vstd::string::StringSliceAdditionalSpecFns;

use netbuf::Buf;

use crate::base_serializer::{
    after_status, content_length_line, done_headers_bytes, has_cr_or_lf, header_line,
    is_body_length_name, status_line, wants_close, Body, MessageState,
};
use crate::buf::{buf_contents, can_grow};
use crate::enums::status::{code_forbids_body, reason_of_code, status_code, Status};
use crate::enums::version::Version;
use crate::numfmt::{decimal, decimal_of, digits};
use crate::serve::ResponseWriter;

verus! {

pub const PART1: &'static str = "<!DOCTYPE html>\n    <html><head><title>";

pub const PART2: &'static str = "</title></head><body><h1>";

pub const PART3: &'static str = "</h1><hr><p>Yours faithfully,<br>minihttp/0.1.0</p>\n        </body>\n    </html>\n    ";

/// Generates response with default error page
///
/// This module also serves as a demo of simple response writer
pub struct SimpleErrorPage(Status);

impl View for SimpleErrorPage {
    /// The status that the page reports.
    type V = Status;

    closed spec fn view(&self) -> Status {
        self.0
    }
}

/// The HTML page for a status with code `code` and reason text `reason`:
/// the code and reason stand both in the title and in the heading.
pub open spec fn error_page_body(code: u16, reason: Seq<u8>) -> Seq<u8> {
    let line = decimal(code as nat) + " ".spec_bytes() + reason;
    PART1.spec_bytes() + line + PART2.spec_bytes() + line + PART3.spec_bytes()
}

/// The `Content-Length` announced for the page of a status whose reason
/// text is `reason`.
pub open spec fn error_page_length(reason: Seq<u8>) -> int {
    (PART1.spec_bytes().len() + PART2.spec_bytes().len() + PART3.spec_bytes().len() + 2 * (4
        + reason.len())) as int
}

/// The version of a response that has not written its status line yet.
pub open spec fn start_version(s: MessageState) -> Version {
    match s {
        MessageState::ResponseStart { version, .. } => version,
        MessageState::FinalResponseStart { version, .. } => version,
        _ => Version::Http10,
    }
}

/// The response is not started and may still get a body.
pub open spec fn can_start_page(s: MessageState) -> bool {
    match s {
        MessageState::ResponseStart { body, .. } => body != Body::Denied,
        MessageState::FinalResponseStart { body, .. } => body != Body::Denied,
        _ => false,
    }
}

/// The message is the response to a `HEAD` request.
pub open spec fn is_head_response(s: MessageState) -> bool {
    match s {
        MessageState::ResponseStart { body, .. } => body == Body::Head,
        MessageState::FinalResponseStart { body, .. } => body == Body::Head,
        _ => false,
    }
}

/// Everything written for the error page of `status` by a response in
/// state `s`: the status line, `Content-Length`, `Content-Type: text/html`,
/// `Connection: close` where the connection is to be closed, the end of the
/// header block and, unless the request was `HEAD`, the page.
pub open spec fn error_page_bytes(s: MessageState, status: Status) -> Seq<u8> {
    let code = status_code(status);
    let reason = reason_of_code(code).spec_bytes();
    let len = error_page_length(reason) as u64;
    let headers = after_status(s, code);
    let fixed = MessageState::FixedHeaders {
        is_head: is_head_response(s),
        close: wants_close(headers),
        content_length: len,
    };
    status_line(start_version(s), code, reason) + content_length_line(len) + header_line(
        "Content-Type".spec_bytes(),
        "text/html".spec_bytes(),
    ) + done_headers_bytes(fixed) + if is_head_response(s) {
        Seq::empty()
    } else {
        error_page_body(code, reason)
    }
}

/// A three digit number is written with three digits.
proof fn lemma_three_digits(n: nat)
    requires
        100 <= n <= 999,
    ensures
        decimal(n).len() == 3,
{
    assert(decimal(n) == digits(n / 10, 10).push((48 + n % 10) as u8));
    assert(digits(n / 10, 10) == digits(n / 100, 10).push((48 + (n / 10) % 10) as u8));
}

/// The announced `Content-Length` of an error page is the length of the
/// page that follows it.
pub proof fn lemma_error_page_length(status: Status)
    ensures
        error_page_body(status_code(status), reason_of_code(status_code(status)).spec_bytes()).len()
            == error_page_length(reason_of_code(status_code(status)).spec_bytes()),
{
    lemma_three_digits(status_code(status) as nat);
    reveal_strlit(" ");
    crate::ascii::lemma_ascii_str_bytes(" ");
}

/// The lengths of the three fixed parts of the page.
proof fn lemma_parts_len()
    ensures
        PART1.spec_bytes().len() == 39,
        PART2.spec_bytes().len() == 25,
        PART3.spec_bytes().len() == 84,
{
    reveal_strlit("<!DOCTYPE html>\n    <html><head><title>");
    reveal_strlit("</title></head><body><h1>");
    reveal_strlit("</h1><hr><p>Yours faithfully,<br>minihttp/0.1.0</p>\n        </body>\n    </html>\n    ");
    crate::ascii::lemma_ascii_str_bytes(PART1);
    crate::ascii::lemma_ascii_str_bytes(PART2);
    crate::ascii::lemma_ascii_str_bytes(PART3);
}

/// The header that names the type of the page can always be added.
proof fn lemma_content_type_header()
    ensures
        !is_body_length_name("Content-Type".spec_bytes()),
        !has_cr_or_lf("Content-Type".spec_bytes()),
        !has_cr_or_lf("text/html".spec_bytes()),
{
    reveal_strlit("Content-Type");
    reveal_strlit("Content-Length");
    reveal_strlit("Transfer-Encoding");
    reveal_strlit("text/html");
    crate::ascii::lemma_ascii_str_bytes("Content-Type");
    crate::ascii::lemma_ascii_str_bytes("Content-Length");
    crate::ascii::lemma_ascii_str_bytes("Transfer-Encoding");
    crate::ascii::lemma_ascii_str_bytes("text/html");
}

/// The page for a status, as bytes.
fn page_body(code: u16, reason: &str) -> (v: Vec<u8>)
    ensures
        v@ == error_page_body(code, reason.spec_bytes()),
{
    let digits = decimal_of(code as u64);
    let mut v: Vec<u8> = Vec::new();
    v.extend_from_slice(PART1.as_bytes());
    v.extend_from_slice(digits.as_slice());
    v.extend_from_slice(" ".as_bytes());
    v.extend_from_slice(reason.as_bytes());
    v.extend_from_slice(PART2.as_bytes());
    v.extend_from_slice(digits.as_slice());
    v.extend_from_slice(" ".as_bytes());
    v.extend_from_slice(reason.as_bytes());
    v.extend_from_slice(PART3.as_bytes());
    assert(v@ =~= error_page_body(code, reason.spec_bytes()));
    v
}

impl SimpleErrorPage {
    /// Create a simple error page
    pub fn new(status: Status) -> (r: SimpleErrorPage)
        ensures
            r@ == status,
    {
        SimpleErrorPage(status)
    }

    /// The status that the page reports.
    pub fn status(&self) -> (r: Status)
        ensures
            r == self@,
    {
        self.0
    }

    /// Writes the whole page as the response and hands back the output
    /// buffer.
    ///
    /// The response must not be started yet, and the status must allow a
    /// body (so neither 1xx, 204 nor 304).
    pub fn into_serializer(self, response: ResponseWriter) -> (r: Buf)
        requires
            can_start_page(response@.0),
            !code_forbids_body(status_code(self@)),
            can_grow(response@.1.len() as int, error_page_bytes(response@.0, self@).len() as int),
        ensures
            buf_contents(r) == response@.1 + error_page_bytes(response@.0, self@),
    {
        let mut response = response;
        let code = self.0.code();
        let reason = self.0.reason();
        let ghost s0 = response@.0;
        let ghost b0 = response@.1;
        proof {
            lemma_error_page_length(self@);
            lemma_content_type_header();
            lemma_parts_len();
            crate::base_serializer::lemma_version_text_len(start_version(s0));
            crate::base_serializer::lemma_version_text_len(Version::Http10);
        }
        let reason_len = reason.as_bytes().len() as u64;
        let length: u64 = (PART1.as_bytes().len() + PART2.as_bytes().len()
            + PART3.as_bytes().len()) as u64 + 2 * (4 + reason_len);
        response.status(code, reason);
        let _ = response.add_length(length);
        let _ = response.add_header("Content-Type", "text/html".as_bytes());
        let expect_body = response.done_headers();
        if let Ok(true) = expect_body {
            let body = page_body(code, reason);
            response.write_body(body.as_slice());
        }
        let r = response.done();
        assert(buf_contents(r) =~= b0 + error_page_bytes(s0, self@));
        r
    }
}

} // verus!
