use vstd::prelude::*;

verus! {

/// HTTP client error kinds
#[derive(Debug)]
pub enum ErrorEnum {
    /// I/O (basically networking) error occured during request
    Io(std::io::Error),
    /// Bad response headers received
    Header(httparse::Error),
    /// Bad chunk size received
    ChunkSize(httparse::InvalidChunkSize),
    /// Bad `Content-Length` header
    BadContentLength,
    /// Duplicate `Content-Length` header
    DuplicateContentLength,
    /// Connection reset by peer when reading response headers
    ResetOnResponseHeaders,
    /// Connection reset by peer when response body
    ResetOnResponseBody,
    /// Response headers are received while we had no request sent yet
    PrematureResponseHeaders,
    /// This means connection is busy (over the limit or not yet
    /// established when trying to send request
    Busy,
    /// The channel for receiving response is canceled. This probably means
    /// that connection to server was closed before being able to fulfil
    /// the request. But it's unlikely that this error is related to this
    /// request itself.
    Canceled,
    /// Connection closed normally
    ///
    /// This error should be catched by connection poolm and not shown
    /// to the end users
    Closed,
    /// Invalid URL specified
    InvalidUrl,
    /// Error sending a request to a connection pool
    PoolError,
    /// Request body is too big (happens only in buffered mode)
    ResponseBodyTooLong,
    /// Connection header is invalid
    ConnectionInvalid,
    /// Unsupported status returned by server
    ///
    /// You have to write your own Codec to handle unsupported status codes
    InvalidStatus,
    /// Request timed out
    RequestTimeout,
    /// Connection timed out on keep alive
    KeepAliveTimeout,
    /// Custom error, by its description
    Custom(String),
}

/// HTTP client error
#[derive(Debug)]
pub struct Error(pub ErrorEnum);

impl Error {
    /// Create an error instance wrapping custom error (given by its
    /// description)
    pub fn custom(err: String) -> (e: Error)
        ensures
            e == Error(ErrorEnum::Custom(err)),
    {
        Error(ErrorEnum::Custom(err))
    }
}

impl From<ErrorEnum> for Error {
    fn from(e: ErrorEnum) -> (r: Error) {
        Error(e)
    }
}

impl vstd::std_specs::convert::FromSpecImpl<ErrorEnum> for Error {
    open spec fn obeys_from_spec() -> bool {
        true
    }

    open spec fn from_spec(e: ErrorEnum) -> Error {
        Error(e)
    }
}

/// A short description of each kind of client error.
pub open spec fn error_description(e: ErrorEnum) -> &'static str {
    match e {
        ErrorEnum::Io(_) => "IO error",
        ErrorEnum::Header(_) => "bad headers",
        ErrorEnum::ChunkSize(_) => "invalid chunk size",
        ErrorEnum::BadContentLength => "bad content length",
        ErrorEnum::DuplicateContentLength => "duplicate content length",
        ErrorEnum::ResetOnResponseHeaders => "connection closed prematurely while reading headers",
        ErrorEnum::ResetOnResponseBody => "connection closed prematurely while reading body",
        ErrorEnum::PrematureResponseHeaders => "response headers received before request has been written",
        ErrorEnum::Busy => "request can't be sent because connection is busy",
        ErrorEnum::Canceled => "request canceled",
        ErrorEnum::Closed => "connection closed normally",
        ErrorEnum::InvalidUrl => "requesting an invalid url",
        ErrorEnum::PoolError => "error sending a request to a connection pool",
        ErrorEnum::ResponseBodyTooLong => "response body too long",
        ErrorEnum::ConnectionInvalid => "invalid connection header in response",
        ErrorEnum::InvalidStatus => "unsupported status",
        ErrorEnum::RequestTimeout => "request timed out",
        ErrorEnum::KeepAliveTimeout => "connection timed out being on keep-alive",
        ErrorEnum::Custom(_) => "custom error",
    }
}

impl ErrorEnum {
    /// A short description of the error.
    pub fn description(&self) -> (r: &'static str)
        ensures
            r == error_description(*self),
    {
        match self {
            ErrorEnum::Io(_) => "IO error",
            ErrorEnum::Header(_) => "bad headers",
            ErrorEnum::ChunkSize(_) => "invalid chunk size",
            ErrorEnum::BadContentLength => "bad content length",
            ErrorEnum::DuplicateContentLength => "duplicate content length",
            ErrorEnum::ResetOnResponseHeaders => "connection closed prematurely while reading headers",
            ErrorEnum::ResetOnResponseBody => "connection closed prematurely while reading body",
            ErrorEnum::PrematureResponseHeaders => "response headers received before request has been written",
            ErrorEnum::Busy => "request can't be sent because connection is busy",
            ErrorEnum::Canceled => "request canceled",
            ErrorEnum::Closed => "connection closed normally",
            ErrorEnum::InvalidUrl => "requesting an invalid url",
            ErrorEnum::PoolError => "error sending a request to a connection pool",
            ErrorEnum::ResponseBodyTooLong => "response body too long",
            ErrorEnum::ConnectionInvalid => "invalid connection header in response",
            ErrorEnum::InvalidStatus => "unsupported status",
            ErrorEnum::RequestTimeout => "request timed out",
            ErrorEnum::KeepAliveTimeout => "connection timed out being on keep-alive",
            ErrorEnum::Custom(_) => "custom error",
        }
    }
}

impl Error {
    /// A short description of the error.
    pub fn description(&self) -> (r: &'static str)
        ensures
            r == error_description(self.0),
    {
        self.0.description()
    }
}

} // verus!
