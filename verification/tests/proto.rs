use std::time::Duration;

use tk_http::body_parser::{body_call, body_next, BodyCall, BodyNext};
use tk_http::client::proto::{self as cproto, SendDecision, TimeoutBase};
use tk_http::client::Config as ClientConfig;
use tk_http::client::ErrorEnum;
use tk_http::server::proto::{self as sproto, Deadline, PollAction, ReadState, WriteStart, WriteState};
use tk_http::server::recv_mode::Mode;
use tk_http::server::{BodyKind, Config as ServerConfig, Error, RecvMode};

#[test]
fn body_calls() {
    assert_eq!(body_call(None, 10, true, false), BodyCall::Deliver(true));
    assert_eq!(body_call(None, 10, false, true), BodyCall::Reset);
    assert_eq!(body_call(Some(4), 10, false, false), BodyCall::Deliver(false));
    assert_eq!(body_call(Some(11), 10, false, false), BodyCall::Wait);
    assert_eq!(body_call(None, 10, false, false), BodyCall::Wait);
}

#[test]
fn body_next_steps() {
    assert_eq!(body_next(None, 5, true, Some(5)), BodyNext::Complete);
    assert_eq!(body_next(None, 5, true, Some(3)), BodyNext::Again);
    assert_eq!(body_next(None, 5, false, Some(5)), BodyNext::Again);
    assert_eq!(body_next(Some(8), 5, true, None), BodyNext::Pause);
    assert_eq!(body_next(Some(2), 5, false, None), BodyNext::Again);
}

#[test]
fn server_read_limits() {
    let cfg = ServerConfig::new();
    assert_eq!(sproto::may_read(ReadState::KeepAlive, 1, &cfg), Some(true));
    assert_eq!(sproto::may_read(ReadState::KeepAlive, 2, &cfg), Some(false));
    assert_eq!(sproto::may_read(ReadState::Body(Mode::BufferedUpfront(1)), 1, &cfg), Some(false));
    assert_eq!(sproto::may_read(ReadState::Body(Mode::Progressive(1)), 0, &cfg), Some(true));
    assert_eq!(sproto::may_read(ReadState::Hijack, 0, &cfg), None);
    assert_eq!(sproto::may_read(ReadState::Closed, 0, &cfg), None);
}

#[test]
fn server_read_transitions() {
    let cfg = ServerConfig::new();
    assert_eq!(sproto::initial_read(&cfg), (ReadState::Connected, Duration::new(5, 0)));
    assert_eq!(
        sproto::on_input(ReadState::Connected, 3, &cfg),
        (ReadState::Headers, true, Some(Duration::new(10, 0)))
    );
    assert_eq!(sproto::on_input(ReadState::KeepAlive, 0, &cfg), (ReadState::KeepAlive, false, None));
    assert_eq!(sproto::request_done(&cfg), (ReadState::KeepAlive, Duration::new(90, 0)));
    assert_eq!(sproto::response_done(&cfg), Duration::new(90, 0));
}

#[test]
fn server_headers_outcome() {
    let cfg = ServerConfig::new();
    let r = sproto::on_headers(&RecvMode::hijack(), BodyKind::Fixed(3), &cfg).unwrap();
    assert_eq!(r.0, ReadState::Hijack);
    assert!(r.1.is_none());
    let r = sproto::on_headers(&RecvMode::buffered_upfront(10), BodyKind::Fixed(3), &cfg).unwrap();
    assert_eq!(r.0, ReadState::Body(Mode::BufferedUpfront(10)));
    assert_eq!(r.2, Some(Duration::new(3600, 0)));
    let mode = RecvMode::progressive(1).body_read_timeout(Duration::new(7, 0));
    let r = sproto::on_headers(&mode, BodyKind::Chunked, &cfg).unwrap();
    assert_eq!(r.2, Some(Duration::new(7, 0)));
    assert!(matches!(
        sproto::on_headers(&RecvMode::buffered_upfront(2), BodyKind::Fixed(3), &cfg),
        Err(Error::RequestTooLong)
    ));
    assert!(matches!(
        sproto::on_headers(&RecvMode::buffered_upfront(2), BodyKind::Unsupported, &cfg),
        Err(Error::UnsupportedBody)
    ));
}

#[test]
fn server_write_and_deadlines() {
    let cfg = ServerConfig::new();
    assert!(matches!(
        sproto::next_write(true, ReadState::Hijack, &cfg),
        WriteStart::Switch(d) if d == Duration::new(300, 0)
    ));
    assert!(matches!(sproto::next_write(true, ReadState::KeepAlive, &cfg), WriteStart::Respond(_)));
    assert!(matches!(sproto::next_write(false, ReadState::KeepAlive, &cfg), WriteStart::Idle));
    assert_eq!(sproto::deadline(WriteState::Write, 0), Some(Deadline::Response));
    assert_eq!(sproto::deadline(WriteState::Switch, 0), None);
    assert_eq!(sproto::deadline(WriteState::Idle, 1), None);
    assert_eq!(sproto::deadline(WriteState::Idle, 0), Some(Deadline::Read));
    assert_eq!(sproto::poll_action(false, false, Some(false)), PollAction::Finished);
    assert_eq!(sproto::poll_action(true, true, None), PollAction::Finished);
    assert_eq!(sproto::poll_action(true, false, Some(true)), PollAction::TimedOut);
    assert_eq!(sproto::poll_action(true, false, Some(false)), PollAction::ArmTimer);
    assert_eq!(sproto::poll_action(true, false, None), PollAction::Pending);
}

#[test]
fn client_send_decisions() {
    let mut cfg = ClientConfig::new();
    cfg.inflight_request_limit(2);
    let r = cproto::ReadState::Idle;
    let w = cproto::WriteState::Idle;
    assert_eq!(cproto::send_decision(0, false, r, false, w, false, false, &cfg), SendDecision::Start);
    assert_eq!(cproto::send_decision(1, false, r, false, w, false, false, &cfg), SendDecision::Start);
    assert_eq!(cproto::send_decision(2, false, r, false, w, false, false, &cfg), SendDecision::NotReady);
    assert_eq!(cproto::send_decision(1, true, r, false, w, false, false, &cfg), SendDecision::NotReady);
    assert_eq!(
        cproto::send_decision(1, false, cproto::ReadState::Read, false, w, false, false, &cfg),
        SendDecision::NotReady
    );
    assert_eq!(
        cproto::send_decision(0, false, cproto::ReadState::Read, true, w, false, false, &cfg),
        SendDecision::NotReady
    );
    assert_eq!(cproto::send_decision(0, false, r, false, w, true, false, &cfg), SendDecision::NotReady);
    assert_eq!(cproto::send_decision(0, false, r, false, w, false, true, &cfg), SendDecision::FlushNotReady);
    assert_eq!(
        cproto::send_decision(0, false, r, false, cproto::WriteState::Write, false, false, &cfg),
        SendDecision::NotReady
    );
}

#[test]
fn client_timeouts_and_checks() {
    let cfg = ClientConfig::new();
    let (i, w) = (cproto::ReadState::Idle, cproto::WriteState::Idle);
    assert_eq!(cproto::timeout_rule(w, 0, i, &cfg), (TimeoutBase::LastActivity, Duration::new(4, 0)));
    assert_eq!(
        cproto::timeout_rule(w, 0, cproto::ReadState::Read, &cfg),
        (TimeoutBase::ReadStart, Duration::new(15, 0))
    );
    assert_eq!(cproto::timeout_rule(w, 2, i, &cfg), (TimeoutBase::Queued, Duration::new(15, 0)));
    assert_eq!(
        cproto::timeout_rule(cproto::WriteState::Write, 0, i, &cfg),
        (TimeoutBase::WriteStart, Duration::new(15, 0))
    );
    assert!(matches!(cproto::idle_write_check(true, 0, i), Err(ErrorEnum::KeepAliveTimeout)));
    assert!(cproto::idle_write_check(true, 1, i).is_ok());
    assert!(matches!(cproto::idle_read_check(1, false), Err(ErrorEnum::PrematureResponseHeaders)));
    assert!(matches!(cproto::idle_read_check(0, true), Err(ErrorEnum::Closed)));
    assert!(cproto::idle_read_check(0, false).is_ok());
    assert!(cproto::can_shutdown(0, w, i));
    assert!(!cproto::can_shutdown(1, w, i));
    assert!(matches!(cproto::deadline_verdict(true, None, None), Err(ErrorEnum::RequestTimeout)));
    assert!(cproto::deadline_verdict(false, Some(true), Some(false)).is_ok());
    assert!(matches!(cproto::deadline_verdict(false, Some(true), Some(true)), Err(ErrorEnum::RequestTimeout)));
    assert!(cproto::deadline_verdict(false, Some(false), None).is_ok());
    assert!(matches!(cproto::headers_check(0, true, true), Err(ErrorEnum::ResetOnResponseHeaders)));
    assert!(matches!(cproto::headers_check(0, false, true), Ok(false)));
    assert!(matches!(cproto::headers_check(3, false, false), Err(ErrorEnum::PrematureResponseHeaders)));
    assert!(matches!(cproto::headers_check(3, false, true), Ok(true)));
    assert!(cproto::read_on(0, true));
    assert!(!cproto::read_on(0, false));
}

#[test]
fn pipeline_is_bounded_and_in_order() {
    let cfg = ServerConfig::new();
    let mut p: sproto::Pipeline<u32> = sproto::Pipeline::new(&cfg);
    assert!(p.is_empty());
    assert_eq!(p.may_read(ReadState::Headers), Some(true));
    p.push(1, ReadState::Headers);
    assert_eq!(p.may_read(ReadState::Body(Mode::BufferedUpfront(1))), Some(false));
    assert_eq!(p.may_read(ReadState::Headers), Some(true));
    p.push(2, ReadState::Headers);
    assert_eq!(p.may_read(ReadState::KeepAlive), Some(false));
    assert_eq!(p.len(), 2);
    assert_eq!(p.pop(), Some(1));
    assert_eq!(p.pop(), Some(2));
    assert_eq!(p.pop(), None);
}

#[test]
fn error_descriptions() {
    assert_eq!(Error::RequestTooLong.description(), "request body is too big");
    assert_eq!(Error::TransferEncodingInvalid.description(), "invalid transfer-encoding header");
    assert_eq!(ErrorEnum::Busy.description(), "request can't be sent because connection is busy");
    assert_eq!(tk_http::client::Error(ErrorEnum::Canceled).description(), "request canceled");
}
