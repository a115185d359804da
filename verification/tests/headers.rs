use tk_http::headers::{is_chunked, is_close, is_continue};

#[test]
fn test_chunked() {
    assert!(is_chunked(b"chunked"));
    assert!(is_chunked(b"Chunked"));
    assert!(is_chunked(b"chuNKED"));
    assert!(is_chunked(b"CHUNKED"));
    assert!(is_chunked(b"   CHUNKED"));
    assert!(is_chunked(b"   CHUNKED  "));
    assert!(is_chunked(b"chunked  "));
    assert!(is_chunked(b"   CHUNKED"));
    assert!(!is_chunked(b"   CHUNKED 1 "));
}

#[test]
fn test_close() {
    assert!(is_close(b"close"));
    assert!(is_close(b"Close"));
    assert!(is_close(b"clOSE"));
    assert!(is_close(b"CLOSE"));
    assert!(is_close(b" CLOSE"));
    assert!(is_close(b"   close   "));
    assert!(!is_close(b"Close  1 "));
    assert!(!is_close(b" xclose   "));
}

#[test]
fn test_continue() {
    assert!(is_continue(b"100-continue"));
    assert!(is_continue(b"100-Continue"));
    assert!(is_continue(b"100-conTINUE"));
    assert!(is_continue(b"100-CONTINUE"));
    assert!(is_continue(b"  100-CONTINUE"));
    assert!(is_continue(b"   100-continue   "));
    assert!(!is_continue(b"100-continue y  "));
    assert!(!is_continue(b"100-coztinue   "));
}

#[test]
fn header_values_with_tabs_and_empty() {
    assert!(is_close(b"\tclose\t"));
    assert!(!is_close(b""));
    assert!(!is_chunked(b"   "));
    assert!(!is_continue(b"continue"));
}

#[test]
fn whitespace_only_values_are_no_tokens() {
    assert!(!is_close(b"     "));
    assert!(!is_close(b"    "));
    assert!(!is_chunked(b"       "));
    assert!(!is_chunked(b"\r\n\t    "));
    assert!(!is_continue(b"            "));
}
