//! The decisions of the server protocol handler: how a request body is read
//! and what the connection waits for.
use vstd::prelude::*;

use std::collections::VecDeque;
use std::time::Duration;

use crate::body_parser::BodyProgress;
use crate::chunked;

use super::codec::BodyKind;
use super::config::Config;
use super::error::Error;
use super::recv_mode::{Mode, RecvMode};

verus! {

/// How the body of a request is going to be read, or why it cannot be.
pub open spec fn body_progress_for(kind: BodyKind, mode: Mode) -> Result<BodyProgress, Error> {
    match kind {
        BodyKind::Unsupported => Err(Error::UnsupportedBody),
        BodyKind::Fixed(x) => match mode {
            Mode::BufferedUpfront(b) if x > b as u64 => Err(Error::RequestTooLong),
            _ => Ok(BodyProgress::Fixed(x as usize)),
        },
        BodyKind::Chunked => Ok(
            BodyProgress::Chunked(chunked::State { buffered: 0, pending: 0, done: false }),
        ),
    }
}

/// Starts reading a request body of the given kind in the given mode.
pub fn new_body(mode: BodyKind, recv_mode: Mode) -> (r: Result<BodyProgress, Error>)
    ensures
        r == body_progress_for(mode, recv_mode),
{
    match mode {
        BodyKind::Unsupported => Err(Error::UnsupportedBody),
        BodyKind::Fixed(x) => {
            match recv_mode {
                Mode::BufferedUpfront(b) => {
                    if x > b as u64 {
                        return Err(Error::RequestTooLong);
                    }
                },
                _ => {},
            }
            Ok(BodyProgress::Fixed(#[verifier::truncate] (x as usize)))
        },
        BodyKind::Chunked => Ok(BodyProgress::Chunked(chunked::State::new())),
    }
}

/// What the reading half of a connection is busy with.
#[derive(Debug, Clone, Copy, PartialEq, Eq, Structural)]
pub enum ReadState {
    /// Nothing has arrived yet.
    Connected,
    /// Between two requests.
    KeepAlive,
    /// Reading the head of a request.
    Headers,
    /// Reading the body of a request, in the given mode.
    Body(Mode),
    /// The connection is handed over to the handler after the response.
    Hijack,
    /// Nothing more is read.
    Closed,
}

/// What the writing half of a connection is busy with.
#[derive(Debug, Clone, Copy, PartialEq, Eq, Structural)]
pub enum WriteState {
    /// No response is being written.
    Idle,
    /// A response is being written.
    Write,
    /// A response is being written, and the connection is handed over to
    /// the handler after it.
    Switch,
}

/// The deadline that the connection currently waits for.
#[derive(Debug, Clone, Copy, PartialEq, Eq, Structural)]
pub enum Deadline {
    /// The response being written must be done by then.
    Response,
    /// The next bytes of the request must have arrived by then.
    Read,
}

/// What the writing half does when it is idle.
#[derive(Debug, Clone, Copy)]
pub enum WriteStart {
    /// Start the response to the oldest waiting request, to be written
    /// within the given time.
    Respond(Duration),
    /// The same, and hand the connection over to the handler after it.
    Switch(Duration),
    /// Stay idle.
    Idle,
}

/// What the connection does on a wake-up once its work is done.
#[derive(Debug, Clone, Copy, PartialEq, Eq, Structural)]
pub enum PollAction {
    /// The connection is finished.
    Finished,
    /// The deadline has passed.
    TimedOut,
    /// Set a timer for the deadline and wait.
    ArmTimer,
    /// Wait for the handler, without a deadline.
    Pending,
}

/// How many requests may be in flight (read but not yet answered) while
/// reading in the given state; `None` where nothing more is read.
/// A request whose body is being read counts as one more.
pub open spec fn read_limit_of(reading: ReadState, limit: usize) -> Option<int> {
    match reading {
        ReadState::Connected | ReadState::KeepAlive | ReadState::Headers => Some(limit as int),
        ReadState::Body(_) => Some(limit - 1),
        ReadState::Hijack | ReadState::Closed => None,
    }
}

/// The state of a connection that has just been accepted, and the time
/// within which its first byte must arrive.
pub fn initial_read(config: &Config) -> (r: (ReadState, Duration))
    ensures
        r == (ReadState::Connected, config@.first_byte_timeout),
{
    (ReadState::Connected, config.settings().first_byte_timeout)
}

/// Whether to read: `None` where reading has stopped for good, `Some(false)`
/// where the requests in flight already reach the limit.
pub fn may_read(reading: ReadState, waiting: usize, config: &Config) -> (r: Option<bool>)
    requires
        reading is Body ==> config@.inflight_request_limit >= 1,
    ensures
        r == match read_limit_of(reading, config@.inflight_request_limit) {
            Some(l) => Some(waiting < l),
            None => None::<bool>,
        },
{
    let limit = config.settings().inflight_request_limit;
    match reading {
        ReadState::Connected | ReadState::KeepAlive | ReadState::Headers => Some(waiting < limit),
        ReadState::Body(_) => Some(waiting < limit - 1),
        ReadState::Hijack | ReadState::Closed => None,
    }
}

/// Between requests: once bytes have arrived the head of a request is
/// read, within the headers timeout. Returns the next state, whether to
/// go on, and the new read deadline where there is one.
pub fn on_input(reading: ReadState, buffered: usize, config: &Config) -> (r: (ReadState, bool, Option<Duration>))
    requires
        reading is Connected || reading is KeepAlive,
    ensures
        r == if buffered > 0 {
            (ReadState::Headers, true, Some(config@.headers_timeout))
        } else {
            (reading, false, None::<Duration>)
        },
{
    if buffered > 0 {
        (ReadState::Headers, true, Some(config.settings().headers_timeout))
    } else {
        (reading, false, None)
    }
}

/// The head of a request has been read: a hijacked connection reads
/// nothing more, any other reads the body, within the timeout the handler
/// asked for or else the configured one. Returns the next state, the
/// progress of the body and the new read deadline.
pub fn on_headers(mode: &RecvMode, kind: BodyKind, config: &Config) -> (r: Result<(ReadState, Option<BodyProgress>, Option<Duration>), Error>)
    ensures
        mode@.0 == Mode::Hijack ==> r == Ok::<_, Error>((ReadState::Hijack, None::<BodyProgress>, None::<Duration>)),
        mode@.0 != Mode::Hijack ==> r == match body_progress_for(kind, mode@.0) {
            Ok(p) => Ok((
                ReadState::Body(mode@.0),
                Some(p),
                Some(
                    match mode@.1 {
                        Some(t) => t,
                        None => config@.input_body_whole_timeout,
                    },
                ),
            )),
            Err(e) => Err(e),
        },
{
    let m = super::recv_mode::get_mode(mode);
    if m == Mode::Hijack {
        return Ok((ReadState::Hijack, None, None));
    }
    let timeout = match mode.timeout() {
        Some(t) => t,
        None => config.settings().input_body_whole_timeout,
    };
    let progress = new_body(kind, m)?;
    Ok((ReadState::Body(m), Some(progress), Some(timeout)))
}

/// The least number of body bytes worth handing over in the given mode
/// (only a progressive read has one).
pub fn progressive_hint(mode: Mode) -> (r: Option<usize>)
    ensures
        r == match mode {
            Mode::Progressive(x) => Some(x),
            _ => None::<usize>,
        },
{
    match mode {
        Mode::Progressive(x) => Some(x),
        _ => None,
    }
}

/// A request has been read whole: the connection waits for the next one,
/// within the keep-alive timeout.
pub fn request_done(config: &Config) -> (r: (ReadState, Duration))
    ensures
        r == (ReadState::KeepAlive, config@.keep_alive_timeout),
{
    (ReadState::KeepAlive, config.settings().keep_alive_timeout)
}

/// The reading half may stay as it is while no response is waiting to be
/// written.
pub open spec fn may_idle(reading: ReadState) -> bool {
    match reading {
        ReadState::Body(m) => m is BufferedUpfront,
        ReadState::Hijack => false,
        _ => true,
    }
}

/// What the idle writing half does: respond to the oldest waiting request
/// where there is one, within the output timeout.
pub fn next_write(has_waiting: bool, reading: ReadState, config: &Config) -> (r: WriteStart)
    requires
        has_waiting || may_idle(reading),
    ensures
        r == if has_waiting {
            if reading is Hijack {
                WriteStart::Switch(config@.output_body_whole_timeout)
            } else {
                WriteStart::Respond(config@.output_body_whole_timeout)
            }
        } else {
            WriteStart::Idle
        },
{
    if has_waiting {
        match reading {
            ReadState::Hijack => WriteStart::Switch(config.settings().output_body_whole_timeout),
            _ => WriteStart::Respond(config.settings().output_body_whole_timeout),
        }
    } else {
        WriteStart::Idle
    }
}

/// A response has been written: the next request must arrive within the
/// keep-alive timeout.
pub fn response_done(config: &Config) -> (r: Duration)
    ensures
        r == config@.keep_alive_timeout,
{
    config.settings().keep_alive_timeout
}

/// The deadline the connection waits for: that of the response being
/// written, none while a handover is pending or requests are being
/// handled, else that of reading.
pub fn deadline(writing: WriteState, waiting: usize) -> (r: Option<Deadline>)
    ensures
        r == match writing {
            WriteState::Write => Some(Deadline::Response),
            WriteState::Switch => None::<Deadline>,
            WriteState::Idle => if waiting > 0 {
                None::<Deadline>
            } else {
                Some(Deadline::Read)
            },
        },
{
    match writing {
        WriteState::Idle => {},
        WriteState::Write => return Some(Deadline::Response),
        WriteState::Switch => return None,
    }
    if waiting > 0 {
        return None;
    }
    Some(Deadline::Read)
}

/// What a wake-up ends with: the connection is finished once its input
/// is gone or ended; else it waits for its deadline (`passed` tells
/// whether the deadline is already behind) or, without one, for the
/// handler.
pub fn poll_action(has_input: bool, io_done: bool, passed: Option<bool>) -> (r: PollAction)
    ensures
        r == if !has_input || io_done {
            PollAction::Finished
        } else {
            match passed {
                Some(true) => PollAction::TimedOut,
                Some(false) => PollAction::ArmTimer,
                None => PollAction::Pending,
            }
        },
{
    if !has_input || io_done {
        return PollAction::Finished;
    }
    match passed {
        Some(true) => PollAction::TimedOut,
        Some(false) => PollAction::ArmTimer,
        None => PollAction::Pending,
    }
}

/// The requests in flight never exceed the configured limit: a request
/// is read only while fewer than the limit are in flight, counting the one
/// whose body is being read.
pub proof fn lemma_inflight_bounded(reading: ReadState, waiting: usize, limit: usize)
    requires
        read_limit_of(reading, limit) matches Some(l) && waiting < l,
    ensures
        waiting + 1 + (if reading is Body {
            1int
        } else {
            0
        }) <= limit,
{
}

/// The requests that have been read and not yet answered, oldest first,
/// together with the limit on how many may be in flight.
pub struct Pipeline<T> {
    items: VecDeque<T>,
    limit: usize,
}

impl<T> View for Pipeline<T> {
    /// The waiting requests, oldest first.
    type V = Seq<T>;

    closed spec fn view(&self) -> Seq<T> {
        self.items@
    }
}

impl<T> Pipeline<T> {
    /// The configured limit of requests in flight.
    pub closed spec fn limit(&self) -> usize {
        self.limit
    }

    /// No more requests wait than the limit allows.
    pub open spec fn wf(&self) -> bool {
        self@.len() <= self.limit()
    }

    /// An empty pipeline under the configured limit.
    pub fn new(config: &Config) -> (r: Pipeline<T>)
        ensures
            r@ == Seq::<T>::empty(),
            r.limit() == config@.inflight_request_limit,
            r.wf(),
    {
        let settings = config.settings();
        Pipeline {
            items: VecDeque::with_capacity(settings.inflight_request_prealloc),
            limit: settings.inflight_request_limit,
        }
    }

    /// The number of waiting requests.
    pub fn len(&self) -> (r: usize)
        ensures
            r == self@.len(),
    {
        self.items.len()
    }

    /// No request is waiting.
    pub fn is_empty(&self) -> (r: bool)
        ensures
            r == (self@.len() == 0),
    {
        self.items.len() == 0
    }

    /// Whether to read in the given state (as `may_read` decides it with
    /// the waiting requests and the limit of this pipeline).
    pub fn may_read(&self, reading: ReadState) -> (r: Option<bool>)
        requires
            reading is Body ==> self.limit() >= 1,
        ensures
            r == match read_limit_of(reading, self.limit()) {
                Some(l) => Some(self@.len() < l),
                None => None::<bool>,
            },
    {
        let waiting = self.items.len();
        match reading {
            ReadState::Connected | ReadState::KeepAlive | ReadState::Headers => Some(
                waiting < self.limit,
            ),
            ReadState::Body(_) => Some(waiting < self.limit - 1),
            ReadState::Hijack | ReadState::Closed => None,
        }
    }

    /// Queues a request that was read in the given state, where reading
    /// was allowed: the pipeline stays within its limit.
    pub fn push(&mut self, item: T, reading: ReadState)
        requires
            old(self).wf(),
            read_limit_of(reading, old(self).limit()) matches Some(l) && old(self)@.len() < l,
        ensures
            final(self)@ == old(self)@.push(item),
            final(self).limit() == old(self).limit(),
            final(self).wf(),
    {
        proof {
            lemma_inflight_bounded(reading, self.items@.len() as usize, self.limit);
        }
        self.items.push_back(item);
    }

    /// Takes the oldest waiting request, the next to be answered.
    pub fn pop(&mut self) -> (r: Option<T>)
        requires
            old(self).wf(),
        ensures
            old(self)@.len() == 0 ==> r is None && final(self)@ == old(self)@,
            old(self)@.len() > 0 ==> r == Some(old(self)@[0]) && final(self)@ == old(self)@.drop_first(),
            final(self).limit() == old(self).limit(),
            final(self).wf(),
    {
        self.items.pop_front()
    }
}

/// A step of a pipeline: a request queued, or the oldest one taken.
pub enum PipelineStep<T> {
    Push(T),
    Pop,
}

/// What a run of steps takes out of a pipeline holding `q`, in order, and
/// what is left in it, as `Pipeline::push` and `Pipeline::pop` do them.
pub open spec fn run_pipeline<T>(q: Seq<T>, steps: Seq<PipelineStep<T>>) -> (Seq<T>, Seq<T>)
    decreases steps.len(),
{
    if steps.len() == 0 {
        (Seq::empty(), q)
    } else {
        match steps[0] {
            PipelineStep::Push(x) => run_pipeline(q.push(x), steps.drop_first()),
            PipelineStep::Pop => if q.len() == 0 {
                run_pipeline(q, steps.drop_first())
            } else {
                let (out, left) = run_pipeline(q.drop_first(), steps.drop_first());
                (seq![q[0]] + out, left)
            },
        }
    }
}

/// The requests queued by a run of steps, in order.
pub open spec fn pushed<T>(steps: Seq<PipelineStep<T>>) -> Seq<T>
    decreases steps.len(),
{
    if steps.len() == 0 {
        Seq::empty()
    } else {
        match steps[0] {
            PipelineStep::Push(x) => seq![x] + pushed(steps.drop_first()),
            PipelineStep::Pop => pushed(steps.drop_first()),
        }
    }
}

/// Responses are started first in, first out: whatever the steps, the
/// requests taken out followed by those left are the requests that were
/// waiting followed by those queued, in order. So each response starts
/// only after the responses to all earlier requests, and a request queued
/// stays behind every request queued before it.
pub proof fn lemma_pipeline_fifo<T>(q: Seq<T>, steps: Seq<PipelineStep<T>>)
    ensures
        run_pipeline(q, steps).0 + run_pipeline(q, steps).1 == q + pushed(steps),
    decreases steps.len(),
{
    if steps.len() > 0 {
        match steps[0] {
            PipelineStep::Push(x) => {
                lemma_pipeline_fifo(q.push(x), steps.drop_first());
                assert(q.push(x) + pushed(steps.drop_first()) =~= q + (seq![x] + pushed(
                    steps.drop_first(),
                )));
            },
            PipelineStep::Pop => {
                if q.len() == 0 {
                    lemma_pipeline_fifo(q, steps.drop_first());
                } else {
                    lemma_pipeline_fifo(q.drop_first(), steps.drop_first());
                    let (out, left) = run_pipeline(q.drop_first(), steps.drop_first());
                    assert(seq![q[0]] + out + left =~= seq![q[0]] + (out + left));
                    assert(seq![q[0]] + (q.drop_first() + pushed(steps.drop_first())) =~= q
                        + pushed(steps.drop_first()));
                }
            },
        }
    } else {
        assert(Seq::<T>::empty() + q =~= q + pushed(steps));
    }
}

} // verus!
