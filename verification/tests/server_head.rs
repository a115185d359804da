use netbuf::Buf;
use tk_http::server::headers::parse_headers;
use tk_http::server::{BodyKind, Error, Head, RequestTarget, ResponseConfig};
use tk_http::Version;

fn buf_of(text: &[u8]) -> Buf {
    let mut buf = Buf::new();
    buf.extend(text);
    buf
}

#[test]
fn get_request_head() {
    let buf = buf_of(b"GET /hello HTTP/1.1\r\nHost: example.com\r\nContent-Length: 5\r\n\r\nhello");
    let (raw, n) = parse_headers(&buf).unwrap().unwrap();
    assert_eq!(n, buf.len() - 5);
    let head = Head::from_raw(&raw).unwrap();
    assert_eq!(head.method(), "GET");
    assert_eq!(head.path(), Some("/hello"));
    assert_eq!(head.host(), Some("example.com"));
    assert!(!head.has_conflicting_host());
    assert_eq!(head.version(), Version::Http11);
    assert_eq!(head.body_kind(), BodyKind::Fixed(5));
    assert!(!head.connection_close());
    assert!(!head.expect_continue());
    assert_eq!(head.headers().len(), 2);
    let rc = ResponseConfig::from(&head);
    assert!(!rc.is_head);
    assert!(!rc.do_close);
    assert_eq!(rc.version, Version::Http11);
}

#[test]
fn partial_head_waits() {
    let buf = buf_of(b"GET / HTTP/1.1\r\nHost: x\r\n");
    assert!(matches!(parse_headers(&buf), Ok(None)));
}

#[test]
fn bad_version_is_a_parse_error() {
    let buf = buf_of(b"GET / TTMP/2.0\r\n\r\n");
    assert!(matches!(parse_headers(&buf), Err(Error::ParseError(httparse::Error::Version))));
}

#[test]
fn http10_closes_and_head_method() {
    let buf = buf_of(b"HEAD /x HTTP/1.0\r\n\r\n");
    let (raw, _) = parse_headers(&buf).unwrap().unwrap();
    let head = Head::from_raw(&raw).unwrap();
    assert!(head.connection_close());
    assert_eq!(head.version(), Version::Http10);
    assert_eq!(head.body_kind(), BodyKind::Fixed(0));
    let rc = ResponseConfig::from(&head);
    assert!(rc.is_head);
    assert!(rc.do_close);
}

#[test]
fn chunked_and_connection_close() {
    let buf = buf_of(b"POST / HTTP/1.1\r\nTransfer-Encoding: gzip, chunked\r\nConnection: close\r\nExpect: 100-continue\r\n\r\n");
    let (raw, _) = parse_headers(&buf).unwrap().unwrap();
    let head = Head::from_raw(&raw).unwrap();
    assert_eq!(head.body_kind(), BodyKind::Chunked);
    assert!(head.connection_close());
    assert!(head.expect_continue());
    assert_eq!(head.connection_header().map(|s| s.as_str()), Some("close"));
}

#[test]
fn duplicate_content_length_is_refused() {
    let buf = buf_of(b"POST / HTTP/1.1\r\nContent-Length: 1\r\nContent-Length: 1\r\n\r\n");
    let (raw, _) = parse_headers(&buf).unwrap().unwrap();
    assert!(matches!(Head::from_raw(&raw), Err(Error::DuplicateContentLength)));
}

#[test]
fn invalid_content_length_is_refused() {
    let buf = buf_of(b"POST / HTTP/1.1\r\nContent-Length: 1x\r\n\r\n");
    let (raw, _) = parse_headers(&buf).unwrap().unwrap();
    assert!(matches!(Head::from_raw(&raw), Err(Error::ContentLengthInvalid)));
}

#[test]
fn bad_target_is_refused() {
    let buf = buf_of(b"GET ftp://x HTTP/1.1\r\n\r\n");
    let (raw, _) = parse_headers(&buf).unwrap().unwrap();
    assert!(matches!(Head::from_raw(&raw), Err(Error::BadRequestTarget)));
}

#[test]
fn absolute_target_gives_host() {
    let buf = buf_of(b"GET http://a.example/p HTTP/1.1\r\nHost: b.example\r\n\r\n");
    let (raw, _) = parse_headers(&buf).unwrap().unwrap();
    let head = Head::from_raw(&raw).unwrap();
    assert_eq!(head.host(), Some("a.example"));
    assert!(head.has_conflicting_host());
    assert_eq!(head.path(), Some("/p"));
    assert_eq!(head.raw_request_target(), "http://a.example/p");
    assert!(matches!(head.request_target(), RequestTarget::Absolute { .. }));
}

#[test]
fn connect_has_authority_target() {
    let buf = buf_of(b"CONNECT example.com:443 HTTP/1.1\r\n\r\n");
    let (raw, _) = parse_headers(&buf).unwrap().unwrap();
    let head = Head::from_raw(&raw).unwrap();
    assert_eq!(head.body_kind(), BodyKind::Fixed(0));
    assert_eq!(head.path(), None);
    assert_eq!(head.host(), Some("example.com:443"));
    assert!(matches!(head.request_target(), RequestTarget::Authority("example.com:443")));
}

#[test]
fn host_header_is_trimmed_and_checked() {
    let buf = buf_of(b"GET / HTTP/1.1\r\nHost: \xc2\xa0example.org\xc2\xa0\r\n\r\n");
    let (raw, _) = parse_headers(&buf).unwrap().unwrap();
    let head = Head::from_raw(&raw).unwrap();
    assert_eq!(head.host(), Some("example.org"));

    let buf = buf_of(b"GET / HTTP/1.1\r\nHost: \xff\r\n\r\n");
    let (raw, _) = parse_headers(&buf).unwrap().unwrap();
    assert!(matches!(Head::from_raw(&raw), Err(Error::HostInvalid)));

    let buf = buf_of(b"GET / HTTP/1.1\r\nHost: a\r\nHost: b\r\n\r\n");
    let (raw, _) = parse_headers(&buf).unwrap().unwrap();
    assert!(matches!(Head::from_raw(&raw), Err(Error::DuplicateHost)));
}

#[test]
fn chunked_beside_length_closes() {
    let buf = buf_of(b"POST / HTTP/1.1\r\nContent-Length: 5\r\nTransfer-Encoding: chunked\r\n\r\n");
    let (raw, _) = parse_headers(&buf).unwrap().unwrap();
    let head = Head::from_raw(&raw).unwrap();
    assert_eq!(head.body_kind(), BodyKind::Chunked);
    assert!(head.connection_close());

    let buf = buf_of(b"POST / HTTP/1.1\r\nTransfer-Encoding: chunked\r\nContent-Length: 5\r\n\r\n");
    let (raw, _) = parse_headers(&buf).unwrap().unwrap();
    let head = Head::from_raw(&raw).unwrap();
    assert_eq!(head.body_kind(), BodyKind::Chunked);
    assert!(head.connection_close());
}

#[test]
fn unknown_transfer_coding_without_length_is_refused() {
    let buf = buf_of(b"POST / HTTP/1.1\r\nTransfer-Encoding: chunked, gzip\r\n\r\n");
    let (raw, _) = parse_headers(&buf).unwrap().unwrap();
    assert!(matches!(Head::from_raw(&raw), Err(Error::TransferEncodingInvalid)));

    let buf = buf_of(b"POST / HTTP/1.1\r\nTransfer-Encoding: gzip\r\nContent-Length: 4\r\n\r\n");
    let (raw, _) = parse_headers(&buf).unwrap().unwrap();
    let head = Head::from_raw(&raw).unwrap();
    assert_eq!(head.body_kind(), BodyKind::Fixed(4));
}
