use netbuf::Buf;
use tk_http::server::buffered::{BufferedCodec, Request, WebsocketFactory};
use tk_http::server::headers::parse_headers;
use tk_http::server::recv_mode::Mode;
use tk_http::server::Head;
use tk_http::Version;

fn buf_of(text: &[u8]) -> Buf {
    let mut buf = Buf::new();
    buf.extend(text);
    buf
}

#[test]
fn buffered_request_from_head() {
    let buf = buf_of(b"POST /submit?x=1 HTTP/1.1\r\nHost: h\r\nContent-Length: 3\r\nX-Y: z\r\n\r\nabc");
    let (raw, _) = parse_headers(&buf).unwrap().unwrap();
    let head = Head::from_raw(&raw).unwrap();
    let r = Request::from_head(&head);
    assert_eq!(r.method(), "POST");
    assert_eq!(r.path(), "/submit?x=1");
    assert_eq!(r.host(), Some("h"));
    assert_eq!(r.version(), Version::Http11);
    assert_eq!(r.headers().len(), 3);
    assert_eq!(r.headers()[2], ("X-Y".to_string(), b"z".to_vec()));
    assert!(r.body().is_empty());
}

#[test]
fn buffered_codec_collects_body() {
    let buf = buf_of(b"POST / HTTP/1.1\r\nContent-Length: 3\r\n\r\nabc");
    let (raw, _) = parse_headers(&buf).unwrap().unwrap();
    let head = Head::from_raw(&raw).unwrap();
    let mut codec = BufferedCodec::new(&head, 100, false);
    assert_eq!(codec.recv_mode().timeout(), None);
    assert!(matches!(tk_http::server::recv_mode::get_mode(&codec.recv_mode()), Mode::BufferedUpfront(100)));
    assert_eq!(codec.data_received(b"abc", true), 3);
    assert!(codec.request_pending());
    let r = codec.take_request();
    assert_eq!(r.body(), b"abc");
    assert!(!codec.request_pending());
}

#[test]
fn upgrade_hijacks() {
    let buf = buf_of(b"GET /ws HTTP/1.1\r\n\r\n");
    let (raw, _) = parse_headers(&buf).unwrap().unwrap();
    let head = Head::from_raw(&raw).unwrap();
    let codec = BufferedCodec::new(&head, 100, true);
    assert!(matches!(tk_http::server::recv_mode::get_mode(&codec.recv_mode()), Mode::Hijack));
}

#[test]
fn websocket_factory_shares_handlers() {
    let f = WebsocketFactory::from_handlers(|x: u32| x + 1, |y: u32| y * 2);
    let inst = f.new::<(), ()>();
    let (h, w) = inst.handlers();
    assert_eq!((&**h)(1), 2);
    assert_eq!((&**w)(3), 6);
    let (h2, _) = f.handlers();
    assert!(std::sync::Arc::ptr_eq(h, h2));
}
