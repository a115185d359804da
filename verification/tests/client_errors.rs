use tk_http::client::{Error, ErrorEnum};

#[test]
fn send_sync() {
    fn send_sync<T: Send + Sync>(_: T) {}
    send_sync(Error::from(ErrorEnum::Canceled));
}

#[test]
fn custom_error_keeps_message() {
    let e = Error::custom("boom".to_string());
    match e.0 {
        ErrorEnum::Custom(s) => assert_eq!(s, "boom"),
        _ => panic!("expected a custom error"),
    }
}
