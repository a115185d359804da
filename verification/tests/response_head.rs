use netbuf::Buf;
use tk_http::response::Response;

#[test]
fn response_head_is_written_in_order() {
    let mut r = Response::new(1);
    r.set_status(404).set_reason("Not Found".to_string()).header("X-A", "1").header("X-B", "2");
    let mut buf = Buf::new();
    assert!(r.write_to(&mut buf).is_ok());
    assert_eq!(&buf[..], &b"HTTP/1.1 404 Not Found\r\nX-A: 1\r\nX-B: 2\r\n\r\n"[..]);
}

#[test]
fn default_response_head() {
    let r = Response::new(0);
    let mut buf = Buf::new();
    buf.extend(b"prefix");
    r.write_to(&mut buf).unwrap();
    assert_eq!(&buf[..], &b"prefixHTTP/1.0 200 OK\r\n\r\n"[..]);
}
