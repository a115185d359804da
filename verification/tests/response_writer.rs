use netbuf::Buf;
use tk_http::base_serializer::HeaderError;
use tk_http::serve::response_writer::{NOT_IMPLEMENTED, NOT_IMPLEMENTED_HEAD};
use tk_http::serve::ResponseWriter;
use tk_http::Version;

#[test]
fn full_response() {
    let mut w = ResponseWriter::new(Buf::new(), Version::Http11, false, false);
    assert!(!w.is_started());
    w.status(200, "OK");
    assert!(w.is_started());
    assert_eq!(w.add_header("Content-Type", b"text/plain"), Ok(()));
    assert_eq!(w.format_header("X-N", "1"), Ok(()));
    assert_eq!(w.add_length(2), Ok(()));
    assert_eq!(w.done_headers(), Ok(true));
    assert!(w.is_after_headers());
    w.write_body(b"hi");
    let buf = w.done();
    assert_eq!(
        &buf[..],
        &b"HTTP/1.1 200 OK\r\nContent-Type: text/plain\r\nX-N: 1\r\nContent-Length: 2\r\n\r\nhi"[..]
    );
}

#[test]
fn http10_response_closes_connection() {
    let mut w = ResponseWriter::new(Buf::new(), Version::Http10, false, false);
    w.status(404, "Not Found");
    assert_eq!(w.add_chunked(), Ok(()));
    assert_eq!(w.add_length(1), Err(HeaderError::ContentLengthAfterTransferEncoding));
    assert_eq!(w.done_headers(), Ok(true));
    w.write_body(b"abc");
    let buf = w.done();
    assert_eq!(
        &buf[..],
        &b"HTTP/1.0 404 Not Found\r\nTransfer-Encoding: chunked\r\nConnection: close\r\n\r\n3\r\nabc\r\n0\r\n\r\n"[..]
    );
}

#[test]
fn continue_before_status() {
    let mut w = ResponseWriter::new(Buf::new(), Version::Http11, true, false);
    w.response_continue();
    w.status(200, "OK");
    assert_eq!(w.add_length(10), Ok(()));
    assert_eq!(w.done_headers(), Ok(false));
    w.write_body(b"0123456789");
    assert!(!w.is_complete());
    let buf = w.done();
    assert_eq!(&buf[..], &b"HTTP/1.1 100 Continue\r\n\r\nHTTP/1.1 200 OK\r\nContent-Length: 10\r\n\r\n"[..]);
}

#[test]
fn unstarted_response_gets_not_implemented_page() {
    let w = ResponseWriter::new(Buf::new(), Version::Http11, false, false);
    let (ok, buf) = w.finish();
    assert!(!ok);
    assert_eq!(&buf[..], NOT_IMPLEMENTED.as_bytes());
    let w = ResponseWriter::new(Buf::new(), Version::Http11, true, false);
    let (ok, buf) = w.finish();
    assert!(!ok);
    assert_eq!(&buf[..], NOT_IMPLEMENTED_HEAD.as_bytes());
}

#[test]
fn not_implemented_page_length_matches() {
    let body = &NOT_IMPLEMENTED[NOT_IMPLEMENTED_HEAD.len()..];
    assert_eq!(body.len(), 21);
}

#[test]
fn finished_response_keeps_connection() {
    let mut w = ResponseWriter::new(Buf::new(), Version::Http11, false, false);
    w.status(204, "No Content");
    assert_eq!(w.done_headers(), Ok(false));
    let mut buf = w.done();
    buf.consume(buf.len());
    let mut w = ResponseWriter::new(buf, Version::Http11, false, false);
    w.status(200, "OK");
    assert_eq!(w.add_length(0), Ok(()));
    assert_eq!(w.done_headers(), Ok(true));
    let buf = w.done();
    assert_eq!(&buf[..], &b"HTTP/1.1 200 OK\r\nContent-Length: 0\r\n\r\n"[..]);
}
