use netbuf::Buf;
use tk_http::serve::ResponseWriter;
use tk_http::server::headers::ResponseConfig;
use tk_http::server::simple_error_page::{PART1, PART2, PART3};
use tk_http::server::SimpleErrorPage;
use tk_http::simple_error_page::SimpleErrorPage as PlainErrorPage;
use tk_http::{Status, Version};

fn split_head(bytes: &[u8]) -> (String, Vec<u8>) {
    let pos = bytes.windows(4).position(|w| w == b"\r\n\r\n").unwrap() + 4;
    (String::from_utf8(bytes[..pos].to_vec()).unwrap(), bytes[pos..].to_vec())
}

#[test]
fn error_page_length_matches_body() {
    let w = ResponseWriter::new(Buf::new(), Version::Http11, false, false);
    let buf = SimpleErrorPage::new(Status::NotFound).into_serializer(w);
    let (head, body) = split_head(&buf[..]);
    assert!(head.starts_with("HTTP/1.1 404 Not Found\r\n"));
    let expected = format!("Content-Length: {}\r\n", body.len());
    assert!(head.contains(&expected));
    assert!(head.contains("Content-Type: text/html\r\n"));
    let page = format!("{}404 Not Found{}404 Not Found{}", PART1, PART2, PART3);
    assert_eq!(body, page.as_bytes());
}

#[test]
fn error_page_for_head_request_has_no_body() {
    let w = ResponseWriter::new(Buf::new(), Version::Http10, true, false);
    let buf = SimpleErrorPage::new(Status::InternalServerError).into_serializer(w);
    let (head, body) = split_head(&buf[..]);
    assert!(head.starts_with("HTTP/1.0 500 Internal Server Error\r\n"));
    assert!(head.contains("Connection: close\r\n"));
    assert!(body.is_empty());
}

#[test]
fn plain_error_page() {
    let cfg = ResponseConfig { is_head: false, do_close: true, version: Version::Http11 };
    let buf = PlainErrorPage(404, "Not Found").make_serializer(Buf::new(), cfg);
    let (head, body) = split_head(&buf[..]);
    let p1 = tk_http::simple_error_page::PART1;
    let p2 = tk_http::simple_error_page::PART2;
    let p3 = tk_http::simple_error_page::PART3;
    let length = p1.len() + p2.len() + p3.len() + 4 + "Not Found".len();
    assert_eq!(head, format!("404 Not Found\r\nContent-Length: {}\r\nConnection: close\r\n\r\n", length));
    assert_eq!(body, format!("{}404 Not Found{}404 Not Found{}", p1, p2, p3).as_bytes());
}

#[test]
fn plain_error_page_pads_code() {
    let cfg = ResponseConfig { is_head: true, do_close: true, version: Version::Http11 };
    let buf = PlainErrorPage(7, "Odd").make_serializer(Buf::new(), cfg);
    let (head, body) = split_head(&buf[..]);
    assert!(head.starts_with("007 Odd\r\n"));
    assert!(body.is_empty());
}
