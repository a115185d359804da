use std::time::Duration;

use tk_http::client::Config as ClientConfig;
use tk_http::server::Config as ServerConfig;

#[test]
fn server_defaults() {
    let cfg = ServerConfig::new();
    let s = cfg.settings();
    assert_eq!(s.inflight_request_limit, 2);
    assert_eq!(s.inflight_request_prealloc, 0);
    assert_eq!(s.first_byte_timeout, Duration::new(5, 0));
    assert_eq!(s.keep_alive_timeout, Duration::new(90, 0));
    assert_eq!(s.headers_timeout, Duration::new(10, 0));
    assert_eq!(s.input_body_byte_timeout, Duration::new(15, 0));
    assert_eq!(s.input_body_whole_timeout, Duration::new(3600, 0));
    assert_eq!(s.output_body_byte_timeout, Duration::new(15, 0));
    assert_eq!(s.output_body_whole_timeout, Duration::new(300, 0));
}

#[test]
fn server_builders_change_one_setting() {
    let mut cfg = ServerConfig::new();
    cfg.inflight_request_limit(7).keep_alive_timeout(Duration::new(1, 0));
    let done = cfg.done();
    let s = done.settings();
    assert_eq!(s.inflight_request_limit, 7);
    assert_eq!(s.keep_alive_timeout, Duration::new(1, 0));
    assert_eq!(s.headers_timeout, Duration::new(10, 0));
}

#[test]
fn client_defaults_and_builders() {
    let mut cfg = ClientConfig::new();
    let s = cfg.settings();
    assert_eq!(s.inflight_request_limit, 1);
    assert_eq!(s.inflight_request_prealloc, 1);
    assert_eq!(s.keep_alive_timeout, Duration::new(4, 0));
    assert_eq!(s.safe_pipeline_timeout, Duration::from_millis(300));
    assert_eq!(s.max_request_timeout, Duration::new(15, 0));
    cfg.safe_pipeline_timeout(Duration::from_millis(5)).inflight_request_prealoc(3);
    let s = cfg.done().settings();
    assert_eq!(s.safe_pipeline_timeout, Duration::from_millis(5));
    assert_eq!(s.inflight_request_prealloc, 3);
}
