use netbuf::Buf;
use tk_http::base_serializer::{Body, HeaderError, MessageState};
use tk_http::Version;

fn do_request<F>(fun: F) -> Buf
where
    F: FnOnce(MessageState, &mut Buf),
{
    let mut buf = Buf::new();
    fun(MessageState::RequestStart, &mut buf);
    buf
}

fn do_response10<F>(fun: F) -> Buf
where
    F: FnOnce(MessageState, &mut Buf),
{
    let mut buf = Buf::new();
    fun(
        MessageState::ResponseStart { version: Version::Http10, body: Body::Normal, close: false },
        &mut buf,
    );
    buf
}

fn do_response11<F>(close: bool, fun: F) -> Buf
where
    F: FnOnce(MessageState, &mut Buf),
{
    let mut buf = Buf::new();
    fun(
        MessageState::ResponseStart { version: Version::Http11, body: Body::Normal, close: close },
        &mut buf,
    );
    buf
}

fn do_head_response11<F>(close: bool, fun: F) -> Buf
where
    F: FnOnce(MessageState, &mut Buf),
{
    let mut buf = Buf::new();
    fun(
        MessageState::ResponseStart { version: Version::Http11, body: Body::Head, close: close },
        &mut buf,
    );
    buf
}

#[test]
fn message_size() {
    // Just to keep track of size of structure
    assert_eq!(::std::mem::size_of::<MessageState>(), 16);
}

#[test]
fn minimal_request() {
    assert_eq!(
        &do_request(|mut msg, buf| {
            msg.request_line(buf, "GET", "/", Version::Http10);
            msg.done_headers(buf).unwrap();
        })[..],
        "GET / HTTP/1.0\r\n\r\n".as_bytes()
    );
}

#[test]
fn minimal_response() {
    assert_eq!(
        &do_response10(|mut msg, buf| {
            msg.response_status(buf, 200, "OK");
            msg.add_length(buf, 0).unwrap();
            msg.done_headers(buf).unwrap();
        })[..],
        "HTTP/1.0 200 OK\r\nContent-Length: 0\r\n\r\n".as_bytes()
    );
}

#[test]
fn minimal_response11() {
    assert_eq!(
        &do_response11(false, |mut msg, buf| {
            msg.response_status(buf, 200, "OK");
            msg.add_length(buf, 0).unwrap();
            msg.done_headers(buf).unwrap();
        })[..],
        "HTTP/1.1 200 OK\r\nContent-Length: 0\r\n\r\n".as_bytes()
    );
}

#[test]
fn close_response11() {
    assert_eq!(
        &do_response11(true, |mut msg, buf| {
            msg.response_status(buf, 200, "OK");
            msg.add_length(buf, 0).unwrap();
            msg.done_headers(buf).unwrap();
        })[..],
        "HTTP/1.1 200 OK\r\nContent-Length: 0\r\nConnection: close\r\n\r\n".as_bytes()
    );
}

#[test]
fn head_request() {
    assert_eq!(
        &do_request(|mut msg, buf| {
            msg.request_line(buf, "HEAD", "/", Version::Http11);
            msg.add_length(buf, 5).unwrap();
            msg.done_headers(buf).unwrap();
            msg.write_body(buf, b"Hello");
        })[..],
        "HEAD / HTTP/1.1\r\nContent-Length: 5\r\n\r\nHello".as_bytes()
    );
}

#[test]
fn head_response() {
    // The response to a HEAD request may contain the real body length.
    assert_eq!(
        &do_head_response11(false, |mut msg, buf| {
            msg.response_status(buf, 200, "OK");
            msg.add_length(buf, 500).unwrap();
            msg.done_headers(buf).unwrap();
        })[..],
        "HTTP/1.1 200 OK\r\nContent-Length: 500\r\n\r\n".as_bytes()
    );
}

#[test]
fn informational_response() {
    // No response with an 1xx status code may contain a body length.
    assert_eq!(
        &do_response11(false, |mut msg, buf| {
            msg.response_status(buf, 142, "Foo");
            msg.add_length(buf, 500).unwrap_err();
            msg.done_headers(buf).unwrap();
        })[..],
        "HTTP/1.1 142 Foo\r\n\r\n".as_bytes()
    );
}

#[test]
fn chunked_response_frames_chunks() {
    let buf = do_response11(false, |mut msg, buf| {
        msg.response_status(buf, 200, "OK");
        msg.add_chunked(buf).unwrap();
        assert!(msg.done_headers(buf).unwrap());
        msg.write_body(buf, b"Hello, world!!!!");
        msg.write_body(buf, b"");
        msg.done(buf);
        assert!(msg.is_complete());
    });
    assert_eq!(
        &buf[..],
        &b"HTTP/1.1 200 OK\r\nTransfer-Encoding: chunked\r\n\r\n10\r\nHello, world!!!!\r\n0\r\n\r\n"[..]
    );
}

#[test]
fn header_errors() {
    let mut buf = Buf::new();
    let mut msg = MessageState::ResponseStart { version: Version::Http11, body: Body::Normal, close: false };
    msg.response_status(&mut buf, 200, "OK");
    assert_eq!(msg.add_header(&mut buf, "content-length", b"1"), Err(HeaderError::BodyLengthHeader));
    assert_eq!(msg.add_header(&mut buf, "X-A", b"a\r\nb"), Err(HeaderError::InvalidHeaderValue));
    assert_eq!(msg.add_header(&mut buf, "X\nA", b"a"), Err(HeaderError::InvalidHeaderName));
    assert_eq!(msg.format_header(&mut buf, "X-Num", "12"), Ok(()));
    assert_eq!(msg.add_length(&mut buf, 3), Ok(()));
    assert_eq!(msg.add_length(&mut buf, 3), Err(HeaderError::DuplicateContentLength));
    assert_eq!(msg.add_chunked(&mut buf), Err(HeaderError::TransferEncodingAfterContentLength));
    assert_eq!(
        &buf[..],
        &b"HTTP/1.1 200 OK\r\nX-Num: 12\r\nContent-Length: 3\r\n"[..]
    );
}

#[test]
fn chunked_then_length_refused() {
    let mut buf = Buf::new();
    let mut msg = MessageState::RequestStart;
    msg.request_line(&mut buf, "POST", "/x", Version::Http11);
    assert_eq!(msg.add_chunked(&mut buf), Ok(()));
    assert_eq!(msg.add_chunked(&mut buf), Err(HeaderError::DuplicateTransferEncoding));
    assert_eq!(msg.add_length(&mut buf, 1), Err(HeaderError::ContentLengthAfterTransferEncoding));
}

#[test]
fn normal_response_without_length_is_refused() {
    let mut buf = Buf::new();
    let mut msg = MessageState::ResponseStart { version: Version::Http11, body: Body::Normal, close: false };
    msg.response_status(&mut buf, 200, "OK");
    assert_eq!(msg.done_headers(&mut buf), Err(HeaderError::CantDetermineBodySize));
    assert!(!msg.is_started() == false);
}

#[test]
fn continue_then_status() {
    let mut buf = Buf::new();
    let mut msg = MessageState::ResponseStart { version: Version::Http11, body: Body::Normal, close: false };
    msg.response_continue(&mut buf);
    assert!(!msg.is_started());
    msg.response_status(&mut buf, 204, "No Content");
    assert_eq!(msg.add_length(&mut buf, 0), Err(HeaderError::RequireBodyless));
    assert_eq!(msg.done_headers(&mut buf), Ok(false));
    assert!(msg.is_after_headers());
    msg.done(&mut buf);
    assert_eq!(&buf[..], &b"HTTP/1.1 100 Continue\r\n\r\nHTTP/1.1 204 No Content\r\n\r\n"[..]);
}

#[test]
fn done_twice_writes_once() {
    let mut buf = Buf::new();
    let mut msg = MessageState::ResponseStart { version: Version::Http11, body: Body::Normal, close: false };
    msg.response_status(&mut buf, 200, "OK");
    msg.add_chunked(&mut buf).unwrap();
    msg.done_headers(&mut buf).unwrap();
    msg.done(&mut buf);
    let len = buf.len();
    msg.done(&mut buf);
    assert_eq!(buf.len(), len);
    assert!(buf[..].ends_with(b"0\r\n\r\n"));
}
