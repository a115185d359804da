use netbuf::Buf;
use tk_http::chunked::State;

#[test]
fn simple() {
    let mut state = State::new();
    let mut buf = Buf::new();
    buf.extend(b"4\r\nhell\r\n");
    assert_eq!(state.parse(&mut buf), Ok(()));
    assert_eq!(state, State { buffered: 4, pending: 0, done: false });
    state.consume(4);
    buf.consume(4);
    assert_eq!(state.buffered, 0);
    buf.extend(b"0\r\n");
    assert_eq!(state.parse(&mut buf), Ok(()));
    assert_eq!(state, State { buffered: 0, pending: 0, done: true });
}

#[test]
fn two_chunks_are_joined() {
    let mut state = State::new();
    let mut buf = Buf::new();
    buf.extend(b"3\r\nabc\r\n2\r\nde\r\n0\r\n");
    assert_eq!(state.parse(&mut buf), Ok(()));
    assert_eq!(state.buffered(), 5);
    assert!(state.is_done());
    assert_eq!(&buf[..5], b"abcde");
}

#[test]
fn partial_chunk_waits() {
    let mut state = State::new();
    let mut buf = Buf::new();
    buf.extend(b"a\r\n0123");
    assert_eq!(state.parse(&mut buf), Ok(()));
    assert_eq!(state, State { buffered: 4, pending: 6, done: false });
    buf.extend(b"456789\r\n");
    assert_eq!(state.parse(&mut buf), Ok(()));
    assert_eq!(state.buffered(), 10);
    assert_eq!(&buf[..10], b"0123456789");
}

#[test]
fn bad_chunk_size() {
    let mut state = State::new();
    let mut buf = Buf::new();
    buf.extend(b"zz\r\n");
    assert!(state.parse(&mut buf).is_err());
}
