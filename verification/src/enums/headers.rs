use vstd::prelude::*;
use vstd::string::StringSliceAdditionalSpecFns;

use crate::ascii::{eq_ci, str_eq, str_eq_ignore_ascii_case};

verus! {

/// Enum representing HTTP request methods.
#[derive(Debug, PartialEq)]
pub enum Method {
    Options,
    Get,
    Head,
    Post,
    Put,
    Patch,
    Delete,
    Trace,
    Connect,
    Other(String),
}

/// The method token of each well-known method.
pub open spec fn method_token(m: Method) -> Seq<char> {
    match m {
        Method::Options => "OPTIONS"@,
        Method::Get => "GET"@,
        Method::Head => "HEAD"@,
        Method::Post => "POST"@,
        Method::Put => "PUT"@,
        Method::Patch => "PATCH"@,
        Method::Delete => "DELETE"@,
        Method::Trace => "TRACE"@,
        Method::Connect => "CONNECT"@,
        Method::Other(s) => s@,
    }
}

/// A token names one of the well-known methods (compared exactly).
pub open spec fn is_known_method_token(s: Seq<char>) -> bool {
    s == "OPTIONS"@ || s == "GET"@ || s == "HEAD"@ || s == "POST"@ || s == "PUT"@
        || s == "PATCH"@ || s == "DELETE"@ || s == "TRACE"@ || s == "CONNECT"@
}

/// The method that a request-line token stands for: a well-known method
/// when the token is its exact name, `Other` carrying the token otherwise.
pub open spec fn method_of_token(m: Method, s: Seq<char>) -> bool {
    method_token(m) == s && (m is Other <==> !is_known_method_token(s))
}

impl Method {
    /// Method of a request-line token (case-sensitive, as the protocol says).
    pub fn from(s: &str) -> (m: Method)
        ensures
            method_of_token(m, s@),
    {
        if str_eq(s, "OPTIONS") {
            Method::Options
        } else if str_eq(s, "GET") {
            Method::Get
        } else if str_eq(s, "HEAD") {
            Method::Head
        } else if str_eq(s, "POST") {
            Method::Post
        } else if str_eq(s, "PUT") {
            Method::Put
        } else if str_eq(s, "PATCH") {
            Method::Patch
        } else if str_eq(s, "DELETE") {
            Method::Delete
        } else if str_eq(s, "TRACE") {
            Method::Trace
        } else if str_eq(s, "CONNECT") {
            Method::Connect
        } else {
            Method::Other(s.to_owned())
        }
    }
}

/// Enum Representing HTTP Request Headers.
#[derive(Debug, PartialEq)]
pub enum Header {
    Host,
    Connection,
    KeepAlive,
    ContentLength,
    TransferEncoding,
    Raw(String),
}

/// The canonical name of each known header.
pub open spec fn header_name(h: Header) -> &'static str {
    match h {
        Header::Host => "Host",
        Header::Connection => "Connection",
        Header::KeepAlive => "Keep-Alive",
        Header::ContentLength => "Content-Length",
        Header::TransferEncoding => "Transfer-Encoding",
        Header::Raw(_) => "",
    }
}

/// The bytes of the name of a header, as it is written.
pub open spec fn header_name_bytes(h: Header) -> Seq<u8> {
    match h {
        Header::Raw(s) => vstd::utf8::encode_utf8(s@),
        _ => header_name(h).spec_bytes(),
    }
}

/// The header that a field name stands for: the first known header whose
/// name equals it without ASCII case, `Raw` carrying the name otherwise.
pub open spec fn header_of_name(h: Header, name: &str) -> bool {
    let b = name.spec_bytes();
    if eq_ci(b, "Host".spec_bytes()) {
        h == Header::Host
    } else if eq_ci(b, "Connection".spec_bytes()) {
        h == Header::Connection
    } else if eq_ci(b, "Keep-Alive".spec_bytes()) {
        h == Header::KeepAlive
    } else if eq_ci(b, "Content-Length".spec_bytes()) {
        h == Header::ContentLength
    } else if eq_ci(b, "Transfer-Encoding".spec_bytes()) {
        h == Header::TransferEncoding
    } else {
        h matches Header::Raw(s) && s@ == name@
    }
}

impl Header {
    /// Header of a field name, recognized without regard to ASCII case.
    pub fn from(val: &str) -> (h: Header)
        ensures
            header_of_name(h, val),
    {
        if str_eq_ignore_ascii_case(val, "Host") {
            Header::Host
        } else if str_eq_ignore_ascii_case(val, "Connection") {
            Header::Connection
        } else if str_eq_ignore_ascii_case(val, "Keep-Alive") {
            Header::KeepAlive
        } else if str_eq_ignore_ascii_case(val, "Content-Length") {
            Header::ContentLength
        } else if str_eq_ignore_ascii_case(val, "Transfer-Encoding") {
            Header::TransferEncoding
        } else {
            Header::Raw(val.to_owned())
        }
    }

    /// Compares the header's name with a string, ignoring ASCII case.
    pub fn eq(&self, other: &str) -> (r: bool)
        ensures
            r == eq_ci(header_name_bytes(*self), other.spec_bytes()),
    {
        match self {
            Header::Host => str_eq_ignore_ascii_case("Host", other),
            Header::Connection => str_eq_ignore_ascii_case("Connection", other),
            Header::KeepAlive => str_eq_ignore_ascii_case("Keep-Alive", other),
            Header::ContentLength => str_eq_ignore_ascii_case("Content-Length", other),
            Header::TransferEncoding => str_eq_ignore_ascii_case("Transfer-Encoding", other),
            Header::Raw(x) => str_eq_ignore_ascii_case(x.as_str(), other),
        }
    }

    /// The name of the header as it is written.
    pub fn as_ref(&self) -> (s: &str)
        ensures
            s.spec_bytes() == header_name_bytes(*self),
    {
        match self {
            Header::Host => "Host",
            Header::Connection => "Connection",
            Header::KeepAlive => "Keep-Alive",
            Header::ContentLength => "Content-Length",
            Header::TransferEncoding => "Transfer-Encoding",
            Header::Raw(x) => x.as_str(),
        }
    }
}

} // verus!
