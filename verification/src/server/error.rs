use vstd::prelude::*;

verus! {

#[verifier::external_type_specification]
#[verifier::external_body]
pub struct ExIoError(std::io::Error);

/// HTTP server error
#[derive(Debug)]
pub enum Error {
    /// Socket IO error
    Io(std::io::Error),
    /// Error parsing http headers
    ParseError(httparse::Error),
    /// Error parsing http chunk
    ChunkParseError(httparse::InvalidChunkSize),
    /// Connection reset
    ConnectionReset,
    /// Bad request target (middle line of the request line)
    BadRequestTarget,
    /// Host header is invalid (non-utf-8 for example)
    HostInvalid,
    /// Duplicate host header in request
    DuplicateHost,
    /// Connection header is invalid (non-utf-8 for example)
    ConnectionInvalid,
    /// Content length header is invalid (non-integer, or > 64bit)
    ContentLengthInvalid,
    /// Duplicate content-length header, this is prohibited due to security
    DuplicateContentLength,
    /// Unsupported kind of request body
    ///
    /// We allow CONNECT requests in the library but drop them if you
    /// don't `Hijack` connection right after headers.
    UnsupportedBody,
    /// Request body is larger than x in `RecvMode::Buffered(x)` or >64bit
    RequestTooLong,
    /// Transfer-Encoding whose last coding is not `chunked`, without a
    /// Content-Length: the length of the body cannot be determined
    TransferEncodingInvalid,
}

/// A short description of each kind of server error.
pub open spec fn error_description(e: Error) -> &'static str {
    match e {
        Error::Io(_) => "I/O error",
        Error::ParseError(_) => "parse error",
        Error::ChunkParseError(_) => "chunk size parse error",
        Error::ConnectionReset => "connection reset",
        Error::BadRequestTarget => "error parsing request target",
        Error::HostInvalid => "invalid host header",
        Error::DuplicateHost => "duplicate host header",
        Error::ConnectionInvalid => "invalid connection header",
        Error::ContentLengthInvalid => "invalid content-length header",
        Error::DuplicateContentLength => "duplicate content length header",
        Error::UnsupportedBody => "this kind of request body is not supported (CONNECT)",
        Error::RequestTooLong => "request body is too big",
        Error::TransferEncodingInvalid => "invalid transfer-encoding header",
    }
}

impl Error {
    /// A short description of the error.
    pub fn description(&self) -> (r: &'static str)
        ensures
            r == error_description(*self),
    {
        match self {
            Error::Io(_) => "I/O error",
            Error::ParseError(_) => "parse error",
            Error::ChunkParseError(_) => "chunk size parse error",
            Error::ConnectionReset => "connection reset",
            Error::BadRequestTarget => "error parsing request target",
            Error::HostInvalid => "invalid host header",
            Error::DuplicateHost => "duplicate host header",
            Error::ConnectionInvalid => "invalid connection header",
            Error::ContentLengthInvalid => "invalid content-length header",
            Error::DuplicateContentLength => "duplicate content length header",
            Error::UnsupportedBody => "this kind of request body is not supported (CONNECT)",
            Error::RequestTooLong => "request body is too big",
            Error::TransferEncodingInvalid => "invalid transfer-encoding header",
        }
    }
}

} // verus!
