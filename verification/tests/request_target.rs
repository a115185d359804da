use tk_http::server::RequestTarget;
use tk_http::server::RequestTarget::{Absolute, Asterisk, Authority, Origin};

#[test]
fn test_empty() {
    assert!(matches!(RequestTarget::parse(""), None));
}

#[test]
fn test_path() {
    assert!(matches!(RequestTarget::parse("/hello"), Some(Origin("/hello"))));
}

#[test]
fn test_path_query() {
    assert!(matches!(RequestTarget::parse("/hello?xxx"), Some(Origin("/hello?xxx"))));
}

#[test]
fn test_star() {
    assert!(matches!(RequestTarget::parse("*"), Some(Asterisk)));
}

#[test]
fn test_strange_path() {
    assert!(matches!(RequestTarget::parse("/http://x"), Some(Origin("/http://x"))));
}

#[test]
fn test_plain_authority_uri() {
    assert!(matches!(
        RequestTarget::parse("http://x"),
        Some(Absolute { scheme: "http", authority: "x", path: "" })
    ));
}

#[test]
fn test_uri() {
    assert!(matches!(
        RequestTarget::parse("http://x/"),
        Some(Absolute { scheme: "http", authority: "x", path: "/" })
    ));
}

#[test]
fn test_bigger_uri() {
    assert!(matches!(
        RequestTarget::parse("http://x:932/hello?world"),
        Some(Absolute { scheme: "http", authority: "x:932", path: "/hello?world" })
    ));
}

#[test]
fn authority_form_target() {
    assert!(matches!(RequestTarget::parse("example.com:443"), Some(Authority("example.com:443"))));
}

#[test]
fn https_scheme_target() {
    assert!(matches!(
        RequestTarget::parse("https://h?q"),
        Some(Absolute { scheme: "https", authority: "h", path: "?q" })
    ));
}

#[test]
fn https_target_keeps_its_scheme() {
    assert!(matches!(
        RequestTarget::parse("https://example.com:8080/hello"),
        Some(Absolute { scheme: "https", authority: "example.com:8080", path: "/hello" })
    ));
}
