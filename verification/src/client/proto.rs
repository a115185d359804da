//! The decisions of the client protocol handler: when a request may be
//! sent on the connection, what it waits for, and how a response is read.
//!
//! The times are measured by the caller; here they come in as the answers
//! to "has this timeout passed".
use vstd::prelude::*;

use std::time::Duration;

use super::config::Config;
use super::errors::ErrorEnum;
use super::recv_mode::Mode;

verus! {

/// What the reading half of a connection is busy with.
#[derive(Debug, Clone, Copy, PartialEq, Eq, Structural)]
pub enum ReadState {
    /// No response is being read.
    Idle,
    /// A response is being read.
    Read,
}

/// What the writing half of a connection is busy with.
#[derive(Debug, Clone, Copy, PartialEq, Eq, Structural)]
pub enum WriteState {
    /// No request is being written.
    Idle,
    /// A request is being written.
    Write,
}

/// The answer to a request that asks to be sent.
#[derive(Debug, Clone, Copy, PartialEq, Eq, Structural)]
pub enum SendDecision {
    /// Not now: the request is handed back.
    NotReady,
    /// Not now, since the server closes the connection: flush what is
    /// written and hand the request back.
    FlushNotReady,
    /// Start writing the request.
    Start,
}

/// The point in time from which the current deadline runs.
#[derive(Debug, Clone, Copy, PartialEq, Eq, Structural)]
pub enum TimeoutBase {
    /// The later of the last write and the last read (keep-alive).
    LastActivity,
    /// The start of reading the current response.
    ReadStart,
    /// The time the oldest waiting request was queued.
    Queued,
    /// The start of writing the current request.
    WriteStart,
}

/// The facts that `send_decision` decides on. The `..._overdue` and
/// `idle_expired` flags tell whether the oldest waiting request, the
/// response being read, or the idle connection have waited longer than
/// the timeout that applies (the safe pipeline timeout for the first two,
/// the keep-alive timeout for the last).
pub open spec fn send_decision_of(
    waiting: usize,
    first_overdue: bool,
    reading: ReadState,
    read_overdue: bool,
    writing: WriteState,
    idle_expired: bool,
    close: bool,
    limit: usize,
) -> SendDecision {
    if waiting > 0 && (waiting > limit || first_overdue) {
        SendDecision::NotReady
    } else if reading is Read && read_overdue {
        SendDecision::NotReady
    } else {
        match writing {
            WriteState::Write => SendDecision::NotReady,
            WriteState::Idle => if idle_expired && waiting == 0 && reading is Idle {
                SendDecision::NotReady
            } else if close {
                SendDecision::FlushNotReady
            } else if waiting >= (if reading is Read {
                limit - 1
            } else {
                limit as int
            }) {
                SendDecision::NotReady
            } else {
                SendDecision::Start
            },
        }
    }
}

/// The limit of requests in flight would drop below zero: one response
/// is being read under a limit of zero.
pub open spec fn send_limit_underflows(
    waiting: usize,
    reading: ReadState,
    read_overdue: bool,
    writing: WriteState,
    close: bool,
    limit: usize,
) -> bool {
    waiting == 0 && reading is Read && !read_overdue && writing is Idle && !close && limit == 0
}

/// Decides whether a request may be written now. A request is only
/// started while fewer requests than the configured limit are in flight,
/// counting the response being read.
pub fn send_decision(
    waiting: usize,
    first_overdue: bool,
    reading: ReadState,
    read_overdue: bool,
    writing: WriteState,
    idle_expired: bool,
    close: bool,
    config: &Config,
) -> (r: SendDecision)
    requires
        !send_limit_underflows(
            waiting,
            reading,
            read_overdue,
            writing,
            close,
            config@.inflight_request_limit,
        ),
    ensures
        r == send_decision_of(
            waiting,
            first_overdue,
            reading,
            read_overdue,
            writing,
            idle_expired,
            close,
            config@.inflight_request_limit,
        ),
        r == SendDecision::Start ==> writing is Idle && !close && waiting + (if reading is Read {
            1int
        } else {
            0
        }) < config@.inflight_request_limit,
{
    let limit = config.settings().inflight_request_limit;
    if waiting > 0 {
        if waiting > limit {
            return SendDecision::NotReady;
        }
        if first_overdue {
            return SendDecision::NotReady;
        }
    }
    if reading == ReadState::Read && read_overdue {
        return SendDecision::NotReady;
    }
    match writing {
        WriteState::Idle => {
            if idle_expired && waiting == 0 && reading == ReadState::Idle {
                SendDecision::NotReady
            } else if close {
                SendDecision::FlushNotReady
            } else {
                let mut limit = limit;
                if reading == ReadState::Read {
                    limit -= 1;
                }
                if waiting >= limit {
                    SendDecision::NotReady
                } else {
                    SendDecision::Start
                }
            }
        },
        WriteState::Write => SendDecision::NotReady,
    }
}

/// An idle connection whose keep-alive time has run out, with nothing in
/// flight, fails with `KeepAliveTimeout`.
pub fn idle_write_check(idle_expired: bool, waiting: usize, reading: ReadState) -> (r: Result<(), ErrorEnum>)
    ensures
        r == if idle_expired && waiting == 0 && reading is Idle {
            Err::<(), ErrorEnum>(ErrorEnum::KeepAliveTimeout)
        } else {
            Ok(())
        },
{
    if idle_expired && waiting == 0 && reading == ReadState::Idle {
        Err(ErrorEnum::KeepAliveTimeout)
    } else {
        Ok(())
    }
}

/// With no request waiting for its response, the idle reading half still
/// reads: bytes that arrive are a response that nobody asked for, and the
/// end of the stream closes the connection.
pub fn idle_read_check(read_bytes: usize, io_done: bool) -> (r: Result<(), ErrorEnum>)
    ensures
        r == if read_bytes != 0 {
            Err::<(), ErrorEnum>(ErrorEnum::PrematureResponseHeaders)
        } else if io_done {
            Err(ErrorEnum::Closed)
        } else {
            Ok(())
        },
{
    if read_bytes != 0 {
        return Err(ErrorEnum::PrematureResponseHeaders);
    }
    if io_done {
        return Err(ErrorEnum::Closed);
    }
    Ok(())
}

/// The deadline of the connection: the point it runs from and how long
/// it runs. An idle connection with nothing in flight lives for the
/// keep-alive timeout; anything in flight gets the request timeout.
pub fn timeout_rule(writing: WriteState, waiting: usize, reading: ReadState, config: &Config) -> (r: (TimeoutBase, Duration))
    ensures
        r == match writing {
            WriteState::Write => (TimeoutBase::WriteStart, config@.max_request_timeout),
            WriteState::Idle => if waiting > 0 {
                (TimeoutBase::Queued, config@.max_request_timeout)
            } else {
                match reading {
                    ReadState::Idle => (TimeoutBase::LastActivity, config@.keep_alive_timeout),
                    ReadState::Read => (TimeoutBase::ReadStart, config@.max_request_timeout),
                }
            },
        },
{
    let settings = config.settings();
    match writing {
        WriteState::Idle => {
            if waiting == 0 {
                match reading {
                    ReadState::Idle => (TimeoutBase::LastActivity, settings.keep_alive_timeout),
                    ReadState::Read => (TimeoutBase::ReadStart, settings.max_request_timeout),
                }
            } else {
                (TimeoutBase::Queued, settings.max_request_timeout)
            }
        },
        WriteState::Write => (TimeoutBase::WriteStart, settings.max_request_timeout),
    }
}

/// The connection can be shut down safely: nothing is in flight.
pub fn can_shutdown(waiting: usize, writing: WriteState, reading: ReadState) -> (r: bool)
    ensures
        r == (waiting == 0 && writing is Idle && reading is Idle),
{
    waiting == 0 && writing == WriteState::Idle && reading == ReadState::Idle
}

/// The verdict on the deadline after a step: `passed` tells whether it is
/// already behind, `fired` whether the timer set for a changed deadline
/// went off at once (`None` where the deadline did not change), and
/// `accepted` whether the step took a request (`None` for a step that only
/// drives the connection). A request that was handed back is not failed.
pub fn deadline_verdict(passed: bool, fired: Option<bool>, accepted: Option<bool>) -> (r: Result<(), ErrorEnum>)
    ensures
        r == if passed || (fired == Some(true) && accepted != Some(false)) {
            Err::<(), ErrorEnum>(ErrorEnum::RequestTimeout)
        } else {
            Ok(())
        },
{
    if passed {
        return Err(ErrorEnum::RequestTimeout);
    }
    match fired {
        Some(true) => match accepted {
            Some(false) => Ok(()),
            _ => Err(ErrorEnum::RequestTimeout),
        },
        _ => Ok(()),
    }
}

/// Waiting for the head of a response: where nothing new arrived the
/// parser waits, or fails if the stream ended; bytes that arrive before
/// the request was started are an error. Returns whether to parse now.
pub fn headers_check(read_bytes: usize, io_done: bool, request_started: bool) -> (r: Result<bool, ErrorEnum>)
    ensures
        r == if read_bytes == 0 {
            if io_done {
                Err::<bool, ErrorEnum>(ErrorEnum::ResetOnResponseHeaders)
            } else {
                Ok(false)
            }
        } else if !request_started {
            Err(ErrorEnum::PrematureResponseHeaders)
        } else {
            Ok(true)
        },
{
    if read_bytes == 0 {
        if io_done {
            return Err(ErrorEnum::ResetOnResponseHeaders);
        } else {
            return Ok(false);
        }
    }
    if !request_started {
        return Err(ErrorEnum::PrematureResponseHeaders);
    }
    Ok(true)
}

/// The least number of body bytes worth handing over in the given mode
/// (only a progressive read has one).
pub fn progressive_hint(mode: Mode) -> (r: Option<usize>)
    ensures
        r == match mode {
            Mode::Progressive(x) => Some(x),
            _ => None::<usize>,
        },
{
    match mode {
        Mode::Progressive(x) => Some(x),
        _ => None,
    }
}

/// The body of a response is read on while something new arrived or the
/// stream ended (the end is then judged by the body's own rules).
pub fn read_on(read_bytes: usize, io_done: bool) -> (r: bool)
    ensures
        r == (read_bytes > 0 || io_done),
{
    read_bytes > 0 || io_done
}

} // verus!
