use netbuf::Buf;
use tk_http::body_parser::BodyProgress;
use tk_http::chunked::State;
use tk_http::client::parser::new_body as client_new_body;
use tk_http::client::recv_mode::Mode as ClientMode;
use tk_http::client::{BodyKind as ClientKind, ErrorEnum};
use tk_http::server::proto::new_body as server_new_body;
use tk_http::server::recv_mode::Mode as ServerMode;
use tk_http::server::{BodyKind as ServerKind, Error as ServerError};

#[test]
fn fixed_body_progress() {
    let mut buf = Buf::new();
    buf.extend(b"abcdef");
    let mut p = BodyProgress::Fixed(4);
    assert_eq!(p.parse(&mut buf), Ok(()));
    assert_eq!(p.check_buf(&buf, false), (4, true));
    p.consume(&mut buf, 3);
    assert_eq!(p, BodyProgress::Fixed(1));
    assert_eq!(&buf[..], b"def");
    assert_eq!(p.check_buf(&buf, false), (1, true));
}

#[test]
fn eof_body_progress() {
    let mut buf = Buf::new();
    buf.extend(b"xyz");
    let p = BodyProgress::Eof;
    assert_eq!(p.check_buf(&buf, false), (3, false));
    assert_eq!(p.check_buf(&buf, true), (3, true));
}

#[test]
fn chunked_body_progress() {
    let mut buf = Buf::new();
    buf.extend(b"2\r\nab\r\n0\r\n");
    let mut p = BodyProgress::Chunked(State::new());
    assert_eq!(p.parse(&mut buf), Ok(()));
    assert_eq!(p.check_buf(&buf, false), (2, true));
    p.consume(&mut buf, 2);
    assert_eq!(p.check_buf(&buf, false), (0, true));
}

#[test]
fn server_body_kinds() {
    assert!(matches!(server_new_body(ServerKind::Fixed(5), ServerMode::BufferedUpfront(4)), Err(ServerError::RequestTooLong)));
    assert!(matches!(server_new_body(ServerKind::Fixed(5), ServerMode::Progressive(4)), Ok(BodyProgress::Fixed(5))));
    assert!(matches!(server_new_body(ServerKind::Unsupported, ServerMode::Hijack), Err(ServerError::UnsupportedBody)));
    assert!(matches!(server_new_body(ServerKind::Chunked, ServerMode::BufferedUpfront(0)), Ok(BodyProgress::Chunked(_))));
}

#[test]
fn client_body_kinds() {
    assert!(matches!(client_new_body(ClientKind::Fixed(5), ClientMode::Buffered(4)), Err(ErrorEnum::ResponseBodyTooLong)));
    assert!(matches!(client_new_body(ClientKind::Eof, ClientMode::Buffered(4)), Ok(BodyProgress::Eof)));
    assert!(matches!(client_new_body(ClientKind::Fixed(3), ClientMode::Progressive(1)), Ok(BodyProgress::Fixed(3))));
}
