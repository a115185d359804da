//! Http status codes helpers
//!
use vstd::prelude::*;

verus! {
/// Enum with some HTTP Status codes.
#[derive(Debug, PartialEq, Eq, Structural, Copy, Clone)]
pub enum Status {
    //  1xx status codes
    /// 100 Continue
    Continue,
    /// 101 Switching Protocol
    SwitchingProtocol,
    //  2xx status codes
    /// 200 OK
    Okay,
    /// 201 Created
    Created,
    /// 202 Accepted
    Accepted,
    /// 203 Non-Authoriative Information
    NonAuthoritativeInformation,
    /// 204 No Content
    NoContent,
    /// 205 Reset Content
    ResetContent,
    /// 206 Partial Content
    PartialContent,
    //  3xx status codes
    /// 300 Multiple Choice
    MultipleChoices,
    /// 301 Moved Permanently
    MovedPermanently,
    /// 302 Found
    Found,
    /// 303 See Other
    SeeOther,
    /// 304 Not Modified
    NotModified,
    /// 305 Use Proxy
    UseProxy,
    /// 307 Temporary Redirect
    TemporaryRedirect,
    /// 308 Permanent Redirect
    PermanentRedirect,
    //  4xx status codes
    /// 400 Bad Request
    BadRequest,
    /// 401 Unauthorized
    Unauthorized,
    /// 402 Payment Required
    PaymentRequired,
    /// 403 Forbidden
    Forbidden,
    /// 404 Not Found
    NotFound,
    /// 405 Method Not Allowed
    MethodNotAllowed,
    /// 406 Not Acceptable
    NotAcceptable,
    /// 407 Proxy Authentication Required
    ProxyAuthenticationRequired,
    /// 408 Request Timeout
    RequestTimeout,
    /// 409 Conflict
    Conflict,
    /// 410 Gone
    Gone,
    /// 411 Length Required
    LengthRequired,
    /// 412 Precondition Failed
    PreconditionFailed,
    /// 413 Request Entity Too Large
    RequestEntityTooLarge,
    /// 414 Request-URI Too Long
    RequestURITooLong,
    /// 415 Unsupported Media Type
    UnsupportedMediaType,
    /// 416 Request Range Not Satisfiable
    RequestRangeNotSatisfiable,
    /// 417 Expectation Failed
    ExpectationFailed,
    /// 426 Upgrade Required
    UpgradeRequired,
    /// 429 Too Many Requests
    TooManyRequests,
    //  5xx status codes
    /// 500 Internal Server Error
    InternalServerError,
    /// 501 Not Implemented
    NotImplemented,
    /// 502 Bad Gateway
    BadGateway,
    /// 503 Service Unavailable
    ServiceUnavailable,
    /// 504 Gateway Timeout
    GatewayTimeout,
    /// 505 HTTP Version Not Supported
    VersionNotSupported,
}

/// The three digit numeric code of a status.
pub open spec fn status_code(s: Status) -> u16 {
    match s {
        Status::Continue => 100,
        Status::SwitchingProtocol => 101,
        Status::Okay => 200,
        Status::Created => 201,
        Status::Accepted => 202,
        Status::NonAuthoritativeInformation => 203,
        Status::NoContent => 204,
        Status::ResetContent => 205,
        Status::PartialContent => 206,
        Status::MultipleChoices => 300,
        Status::MovedPermanently => 301,
        Status::Found => 302,
        Status::SeeOther => 303,
        Status::NotModified => 304,
        Status::UseProxy => 305,
        Status::TemporaryRedirect => 307,
        Status::PermanentRedirect => 308,
        Status::BadRequest => 400,
        Status::Unauthorized => 401,
        Status::PaymentRequired => 402,
        Status::Forbidden => 403,
        Status::NotFound => 404,
        Status::MethodNotAllowed => 405,
        Status::NotAcceptable => 406,
        Status::ProxyAuthenticationRequired => 407,
        Status::RequestTimeout => 408,
        Status::Conflict => 409,
        Status::Gone => 410,
        Status::LengthRequired => 411,
        Status::PreconditionFailed => 412,
        Status::RequestEntityTooLarge => 413,
        Status::RequestURITooLong => 414,
        Status::UnsupportedMediaType => 415,
        Status::RequestRangeNotSatisfiable => 416,
        Status::ExpectationFailed => 417,
        Status::UpgradeRequired => 426,
        Status::TooManyRequests => 429,
        Status::InternalServerError => 500,
        Status::NotImplemented => 501,
        Status::BadGateway => 502,
        Status::ServiceUnavailable => 503,
        Status::GatewayTimeout => 504,
        Status::VersionNotSupported => 505,
    }
}

/// The status that a numeric code stands for, where the code is a known one.
pub open spec fn status_of_code(code: u16) -> Option<Status> {
    match code {
        100 => Some(Status::Continue),
        101 => Some(Status::SwitchingProtocol),
        200 => Some(Status::Okay),
        201 => Some(Status::Created),
        202 => Some(Status::Accepted),
        203 => Some(Status::NonAuthoritativeInformation),
        204 => Some(Status::NoContent),
        205 => Some(Status::ResetContent),
        206 => Some(Status::PartialContent),
        300 => Some(Status::MultipleChoices),
        301 => Some(Status::MovedPermanently),
        302 => Some(Status::Found),
        303 => Some(Status::SeeOther),
        304 => Some(Status::NotModified),
        305 => Some(Status::UseProxy),
        307 => Some(Status::TemporaryRedirect),
        308 => Some(Status::PermanentRedirect),
        400 => Some(Status::BadRequest),
        401 => Some(Status::Unauthorized),
        402 => Some(Status::PaymentRequired),
        403 => Some(Status::Forbidden),
        404 => Some(Status::NotFound),
        405 => Some(Status::MethodNotAllowed),
        406 => Some(Status::NotAcceptable),
        407 => Some(Status::ProxyAuthenticationRequired),
        408 => Some(Status::RequestTimeout),
        409 => Some(Status::Conflict),
        410 => Some(Status::Gone),
        411 => Some(Status::LengthRequired),
        412 => Some(Status::PreconditionFailed),
        413 => Some(Status::RequestEntityTooLarge),
        414 => Some(Status::RequestURITooLong),
        415 => Some(Status::UnsupportedMediaType),
        416 => Some(Status::RequestRangeNotSatisfiable),
        417 => Some(Status::ExpectationFailed),
        426 => Some(Status::UpgradeRequired),
        429 => Some(Status::TooManyRequests),
        500 => Some(Status::InternalServerError),
        501 => Some(Status::NotImplemented),
        502 => Some(Status::BadGateway),
        503 => Some(Status::ServiceUnavailable),
        504 => Some(Status::GatewayTimeout),
        505 => Some(Status::VersionNotSupported),
        _ => None,
    }
}

/// The reason phrase written for a numeric code (`Unknown` for a code that
/// names no status).
pub open spec fn reason_of_code(code: u16) -> &'static str {
    match code {
        100 => "Continue",
        101 => "Switching Protocol",
        200 => "OK",
        201 => "Created",
        202 => "Accepted",
        203 => "Non-Authoriative Information",
        204 => "No Content",
        205 => "Reset Content",
        206 => "Partial Content",
        300 => "Multiple Choice",
        301 => "Moved Permanently",
        302 => "Found",
        303 => "See Other",
        304 => "Not Modified",
        305 => "Use Proxy",
        307 => "Temporary Redirect",
        308 => "Permanent Redirect",
        400 => "Bad Request",
        401 => "Unauthorized",
        402 => "Payment Required",
        403 => "Forbidden",
        404 => "Not Found",
        405 => "Method Not Allowed",
        406 => "Not Acceptable",
        407 => "Proxy Authentication Required",
        408 => "Request Timeout",
        409 => "Conflict",
        410 => "Gone",
        411 => "Length Required",
        412 => "Precondition Failed",
        413 => "Request Entity Too Large",
        414 => "Request-URI Too Long",
        415 => "Unsupported Media Type",
        416 => "Request Range Not Satisfiable",
        417 => "Expectation Failed",
        426 => "Upgrade Required",
        429 => "Too Many Requests",
        500 => "Internal Server Error",
        501 => "Not Implemented",
        502 => "Bad Gateway",
        503 => "Service Unavailable",
        504 => "Gateway Timeout",
        505 => "HTTP Version Not Supported",
        _ => "Unknown",
    }
}

/// Statuses whose responses never carry a body: 1xx, 204 and 304.
pub open spec fn code_forbids_body(code: u16) -> bool {
    (100 <= code && code <= 199) || code == 204 || code == 304
}

impl Status {
    /// Returns 3 digit numeric code
    pub fn code(&self) -> (c: u16)
        ensures
            c == status_code(*self),
    {
        match *self {
            Status::Continue => 100,
            Status::SwitchingProtocol => 101,
            Status::Okay => 200,
            Status::Created => 201,
            Status::Accepted => 202,
            Status::NonAuthoritativeInformation => 203,
            Status::NoContent => 204,
            Status::ResetContent => 205,
            Status::PartialContent => 206,
            Status::MultipleChoices => 300,
            Status::MovedPermanently => 301,
            Status::Found => 302,
            Status::SeeOther => 303,
            Status::NotModified => 304,
            Status::UseProxy => 305,
            Status::TemporaryRedirect => 307,
            Status::PermanentRedirect => 308,
            Status::BadRequest => 400,
            Status::Unauthorized => 401,
            Status::PaymentRequired => 402,
            Status::Forbidden => 403,
            Status::NotFound => 404,
            Status::MethodNotAllowed => 405,
            Status::NotAcceptable => 406,
            Status::ProxyAuthenticationRequired => 407,
            Status::RequestTimeout => 408,
            Status::Conflict => 409,
            Status::Gone => 410,
            Status::LengthRequired => 411,
            Status::PreconditionFailed => 412,
            Status::RequestEntityTooLarge => 413,
            Status::RequestURITooLong => 414,
            Status::UnsupportedMediaType => 415,
            Status::RequestRangeNotSatisfiable => 416,
            Status::ExpectationFailed => 417,
            Status::UpgradeRequired => 426,
            Status::TooManyRequests => 429,
            Status::InternalServerError => 500,
            Status::NotImplemented => 501,
            Status::BadGateway => 502,
            Status::ServiceUnavailable => 503,
            Status::GatewayTimeout => 504,
            Status::VersionNotSupported => 505,
        }
    }

    /// Returns title for the status code
    pub fn reason(&self) -> (r: &'static str)
        ensures
            r == reason_of_code(status_code(*self)),
    {
        match self.code() {
            100 => "Continue",
            101 => "Switching Protocol",
            200 => "OK",
            201 => "Created",
            202 => "Accepted",
            203 => "Non-Authoriative Information",
            204 => "No Content",
            205 => "Reset Content",
            206 => "Partial Content",
            300 => "Multiple Choice",
            301 => "Moved Permanently",
            302 => "Found",
            303 => "See Other",
            304 => "Not Modified",
            305 => "Use Proxy",
            307 => "Temporary Redirect",
            308 => "Permanent Redirect",
            400 => "Bad Request",
            401 => "Unauthorized",
            402 => "Payment Required",
            403 => "Forbidden",
            404 => "Not Found",
            405 => "Method Not Allowed",
            406 => "Not Acceptable",
            407 => "Proxy Authentication Required",
            408 => "Request Timeout",
            409 => "Conflict",
            410 => "Gone",
            411 => "Length Required",
            412 => "Precondition Failed",
            413 => "Request Entity Too Large",
            414 => "Request-URI Too Long",
            415 => "Unsupported Media Type",
            416 => "Request Range Not Satisfiable",
            417 => "Expectation Failed",
            426 => "Upgrade Required",
            429 => "Too Many Requests",
            500 => "Internal Server Error",
            501 => "Not Implemented",
            502 => "Bad Gateway",
            503 => "Service Unavailable",
            504 => "Gateway Timeout",
            505 => "HTTP Version Not Supported",
            _ => "Unknown",
        }
    }

    /// Returns true if sending body is expected for such status code
    pub fn response_has_body(&self) -> (b: bool)
        ensures
            b == !code_forbids_body(status_code(*self)),
    {
        let c = self.code();
        if (100 <= c && c <= 199) || c == 204 || c == 304 {
            false
        } else {
            true
        }
    }

    /// Make Status from u16 if known code is passed.
    pub fn from(code: u16) -> (s: Option<Status>)
        ensures
            s == status_of_code(code),
    {
        match code {
            100 => Some(Status::Continue),
            101 => Some(Status::SwitchingProtocol),
            200 => Some(Status::Okay),
            201 => Some(Status::Created),
            202 => Some(Status::Accepted),
            203 => Some(Status::NonAuthoritativeInformation),
            204 => Some(Status::NoContent),
            205 => Some(Status::ResetContent),
            206 => Some(Status::PartialContent),
            300 => Some(Status::MultipleChoices),
            301 => Some(Status::MovedPermanently),
            302 => Some(Status::Found),
            303 => Some(Status::SeeOther),
            304 => Some(Status::NotModified),
            305 => Some(Status::UseProxy),
            307 => Some(Status::TemporaryRedirect),
            308 => Some(Status::PermanentRedirect),
            400 => Some(Status::BadRequest),
            401 => Some(Status::Unauthorized),
            402 => Some(Status::PaymentRequired),
            403 => Some(Status::Forbidden),
            404 => Some(Status::NotFound),
            405 => Some(Status::MethodNotAllowed),
            406 => Some(Status::NotAcceptable),
            407 => Some(Status::ProxyAuthenticationRequired),
            408 => Some(Status::RequestTimeout),
            409 => Some(Status::Conflict),
            410 => Some(Status::Gone),
            411 => Some(Status::LengthRequired),
            412 => Some(Status::PreconditionFailed),
            413 => Some(Status::RequestEntityTooLarge),
            414 => Some(Status::RequestURITooLong),
            415 => Some(Status::UnsupportedMediaType),
            416 => Some(Status::RequestRangeNotSatisfiable),
            417 => Some(Status::ExpectationFailed),
            426 => Some(Status::UpgradeRequired),
            429 => Some(Status::TooManyRequests),
            500 => Some(Status::InternalServerError),
            501 => Some(Status::NotImplemented),
            502 => Some(Status::BadGateway),
            503 => Some(Status::ServiceUnavailable),
            504 => Some(Status::GatewayTimeout),
            505 => Some(Status::VersionNotSupported),
            _ => None,
        }
    }
}

/// Every status is found again from its numeric code.
pub proof fn lemma_status_code_roundtrip(s: Status)
    ensures
        status_of_code(status_code(s)) == Some(s),
{
}

/// A known code is the numeric code of the status it names.
pub proof fn lemma_code_status_roundtrip(code: u16)
    ensures
        status_of_code(code) matches Some(s) ==> status_code(s) == code,
{
}

/// No two statuses share a numeric code.
pub proof fn lemma_status_code_injective(a: Status, b: Status)
    ensures
        status_code(a) == status_code(b) ==> a == b,
{
    lemma_status_code_roundtrip(a);
    lemma_status_code_roundtrip(b);
}

/// Every status has its own reason phrase: none of them reads `Unknown`.
pub proof fn lemma_status_reason_known(s: Status)
    ensures
        reason_of_code(status_code(s)) != "Unknown",
{
}

} // verus!
