use tk_http::enums::headers::{Header, Method};
use tk_http::{Status, Version};

#[test]
fn status_codes_and_reasons() {
    assert_eq!(Status::Okay.code(), 200);
    assert_eq!(Status::Okay.reason(), "OK");
    assert_eq!(Status::NotFound.code(), 404);
    assert_eq!(Status::NotFound.reason(), "Not Found");
    assert_eq!(Status::Continue.code(), 100);
    assert_eq!(Status::InternalServerError.code(), 500);
}

#[test]
fn status_from_code_round_trips() {
    assert_eq!(Status::from(404), Some(Status::NotFound));
    assert_eq!(Status::from(200), Some(Status::Okay));
    assert_eq!(Status::from(999), None);
    assert_eq!(Status::from(0), None);
    for code in 0u16..1000 {
        if let Some(s) = Status::from(code) {
            assert_eq!(s.code(), code);
        }
    }
}

#[test]
fn bodiless_statuses() {
    assert!(!Status::Continue.response_has_body());
    assert!(!Status::NoContent.response_has_body());
    assert!(!Status::NotModified.response_has_body());
    assert!(Status::Okay.response_has_body());
    assert!(Status::NotFound.response_has_body());
}

#[test]
fn version_text() {
    assert_eq!(Version::Http10.as_str(), "HTTP/1.0");
    assert_eq!(Version::Http11.to_string(), "HTTP/1.1");
}

#[test]
fn methods_are_case_sensitive() {
    assert_eq!(Method::from("GET"), Method::Get);
    assert_eq!(Method::from("HEAD"), Method::Head);
    assert_eq!(Method::from("get"), Method::Other("get".to_string()));
    assert_eq!(Method::from("BREW"), Method::Other("BREW".to_string()));
}

#[test]
fn headers_ignore_case() {
    assert_eq!(Header::from("content-length"), Header::ContentLength);
    assert_eq!(Header::from("HOST"), Header::Host);
    assert_eq!(Header::from("X-Foo"), Header::Raw("X-Foo".to_string()));
    assert!(Header::Connection.eq("connection"));
    assert!(!Header::Connection.eq("connections"));
    assert_eq!(Header::KeepAlive.as_ref(), "Keep-Alive");
    assert_eq!(Header::Raw("X-A".to_string()).as_ref(), "X-A");
}

#[test]
fn known_statuses_have_distinct_codes_and_reasons() {
    let mut seen = Vec::new();
    for code in 0u16..1000 {
        if let Some(s) = Status::from(code) {
            assert!(!seen.contains(&s.code()));
            seen.push(s.code());
            assert_ne!(s.reason(), "Unknown");
        }
    }
    assert!(seen.len() > 30);
}
