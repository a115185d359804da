use netbuf::Buf;
use tk_http::base_serializer::MessageState;
use tk_http::client::buffered::Buffered;
use tk_http::client::parser::parse_headers;
use tk_http::client::recv_mode::Mode;
use tk_http::client::{BodyKind, ErrorEnum, Head};
use tk_http::{Status, Version};

fn buf_of(text: &[u8]) -> Buf {
    let mut buf = Buf::new();
    buf.extend(text);
    buf
}

const RESPONSE: &[u8] =
    b"HTTP/1.1 200 OK\r\nContent-Length: 3\r\nConnection: close, X-Hop\r\nX-Hop: 1\r\nX-Real: 2\r\n\r\nabc";

#[test]
fn response_head_hides_hop_by_hop_headers() {
    let buf = buf_of(RESPONSE);
    let (raw, n) = parse_headers(&buf).unwrap().unwrap();
    assert_eq!(n, RESPONSE.len() - 3);
    let head = Head::from_raw(&raw, false).unwrap();
    assert_eq!(head.status(), Some(Status::Okay));
    assert_eq!(head.raw_status(), (200, "OK"));
    assert_eq!(head.body_kind(), BodyKind::Fixed(3));
    assert!(head.connection_close());
    assert_eq!(head.version(), Version::Http11);
    assert_eq!(head.all_headers().len(), 4);
    let mut it = head.headers();
    assert_eq!(it.next(), Some(("X-Real", &b"2"[..])));
    assert_eq!(it.next(), None);
}

#[test]
fn response_to_head_request_has_no_body() {
    let buf = buf_of(b"HTTP/1.1 200 OK\r\nContent-Length: 10\r\n\r\n");
    let (raw, _) = parse_headers(&buf).unwrap().unwrap();
    let head = Head::from_raw(&raw, true).unwrap();
    assert_eq!(head.body_kind(), BodyKind::Fixed(0));
}

#[test]
fn response_without_length_reads_until_eof() {
    let buf = buf_of(b"HTTP/1.0 200 OK\r\n\r\n");
    let (raw, _) = parse_headers(&buf).unwrap().unwrap();
    let head = Head::from_raw(&raw, false).unwrap();
    assert_eq!(head.body_kind(), BodyKind::Eof);
    assert!(head.connection_close());
    assert_eq!(head.version(), Version::Http10);
}

#[test]
fn bad_content_length_in_response() {
    let buf = buf_of(b"HTTP/1.1 200 OK\r\nContent-Length: x\r\n\r\n");
    let (raw, _) = parse_headers(&buf).unwrap().unwrap();
    assert!(matches!(Head::from_raw(&raw, false), Err(ErrorEnum::BadContentLength)));
}

#[test]
fn unknown_status_has_no_enum_value() {
    let buf = buf_of(b"HTTP/1.1 299 Odd\r\nContent-Length: 0\r\n\r\n");
    let (raw, _) = parse_headers(&buf).unwrap().unwrap();
    let head = Head::from_raw(&raw, false).unwrap();
    assert_eq!(head.status(), None);
    assert_eq!(head.raw_status(), (299, "Odd"));
}

#[test]
fn broken_status_line_is_a_header_error() {
    let buf = buf_of(b"HTTP/1.1 2x0 OK\r\n\r\n");
    assert!(matches!(parse_headers(&buf), Err(ErrorEnum::Header(_))));
}

#[test]
fn buffered_get_round_trip() {
    let mut req = Buffered::get("http://example.com/path?q=1").unwrap();
    let mut state = MessageState::RequestStart;
    let mut out = Buf::new();
    req.start_write(&mut state, &mut out);
    assert_eq!(&out[..], &b"GET /path HTTP/1.1\r\nHost: example.com\r\n\r\n"[..]);
    assert!(state.is_complete());

    let buf = buf_of(RESPONSE);
    let (raw, _) = parse_headers(&buf).unwrap().unwrap();
    let head = Head::from_raw(&raw, false).unwrap();
    let mode = req.headers_received(&head).unwrap();
    assert_eq!(mode.mode(), Mode::Buffered(10_485_760));
    let (n, response) = req.data_received(b"abc", true);
    assert_eq!(n, 3);
    assert_eq!(response.status(), Status::Okay);
    assert_eq!(response.body(), b"abc");
    assert_eq!(response.headers(), &[("X-Real".to_string(), b"2".to_vec())][..]);
}

#[test]
fn buffered_refuses_unknown_status() {
    let mut req = Buffered::get("http://example.com/").unwrap();
    req.max_response_length(7);
    let buf = buf_of(b"HTTP/1.1 299 Odd\r\nContent-Length: 0\r\n\r\n");
    let (raw, _) = parse_headers(&buf).unwrap().unwrap();
    let head = Head::from_raw(&raw, false).unwrap();
    assert!(matches!(req.headers_received(&head), Err(e) if matches!(e.0, ErrorEnum::InvalidStatus)));
}

#[test]
fn chunked_response_wins_over_length() {
    let buf = buf_of(b"HTTP/1.1 200 OK\r\nTransfer-Encoding: chunked\r\nContent-Length: 7\r\n\r\n");
    let (raw, _) = parse_headers(&buf).unwrap().unwrap();
    let head = Head::from_raw(&raw, false).unwrap();
    assert_eq!(head.body_kind(), BodyKind::Chunked);
    assert!(head.connection_close());
}

#[test]
fn no_content_response_ignores_length() {
    let buf = buf_of(b"HTTP/1.1 204 No Content\r\nContent-Length: 7\r\n\r\n");
    let (raw, _) = parse_headers(&buf).unwrap().unwrap();
    let head = Head::from_raw(&raw, false).unwrap();
    assert_eq!(head.body_kind(), BodyKind::Fixed(0));
}

#[test]
fn buffered_get_needs_a_url() {
    assert!(Buffered::get("not a url").is_none());
    let req = Buffered::get("http://[::1]:8080/a/b").unwrap();
    assert_eq!(req.host(), Some("[::1]"));
    let mut state = MessageState::RequestStart;
    let mut out = Buf::new();
    req.start_write(&mut state, &mut out);
    assert_eq!(&out[..], &b"GET /a/b HTTP/1.1\r\nHost: [::1]\r\n\r\n"[..]);
}

#[test]
fn buffered_from_url_parts() {
    let req = Buffered::from_url_parts("/x".to_string(), None);
    assert_eq!(req.host(), None);
    let mut state = MessageState::RequestStart;
    let mut out = Buf::new();
    req.start_write(&mut state, &mut out);
    assert_eq!(&out[..], &b"GET /x HTTP/1.1\r\n\r\n"[..]);
}

#[test]
fn continue_response_has_no_body() {
    let buf = buf_of(b"HTTP/1.1 100 Continue\r\n\r\n");
    let (raw, _) = parse_headers(&buf).unwrap().unwrap();
    let head = Head::from_raw(&raw, false).unwrap();
    assert_eq!(head.body_kind(), BodyKind::Fixed(0));
    assert_eq!(
        tk_http::client::parser::scan_headers(false, 100, &[]).unwrap(),
        (BodyKind::Fixed(0), None, false)
    );
}
