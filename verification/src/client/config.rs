use vstd::prelude::*;

use std::sync::Arc;
use std::time::Duration;

use crate::time::{duration_from_millis, duration_millis, duration_new, new_duration};

verus! {

/// Fine-grained configuration of the HTTP connection
#[derive(Debug)]
pub struct Config {
    inflight_request_limit: usize,
    inflight_request_prealloc: usize,
    keep_alive_timeout: Duration,
    safe_pipeline_timeout: Duration,
    max_request_timeout: Duration,
}

/// The settings of a client connection configuration.
pub struct ConfigView {
    pub inflight_request_limit: usize,
    pub inflight_request_prealloc: usize,
    pub keep_alive_timeout: Duration,
    pub safe_pipeline_timeout: Duration,
    pub max_request_timeout: Duration,
}

impl View for Config {
    type V = ConfigView;

    closed spec fn view(&self) -> ConfigView {
        ConfigView {
            inflight_request_limit: self.inflight_request_limit,
            inflight_request_prealloc: self.inflight_request_prealloc,
            keep_alive_timeout: self.keep_alive_timeout,
            safe_pipeline_timeout: self.safe_pipeline_timeout,
            max_request_timeout: self.max_request_timeout,
        }
    }
}

/// The defaults of a client connection configuration.
pub open spec fn default_config() -> ConfigView {
    ConfigView {
        inflight_request_limit: 1,
        inflight_request_prealloc: 1,
        keep_alive_timeout: duration_new(4, 0),
        safe_pipeline_timeout: duration_from_millis(300),
        max_request_timeout: duration_new(15, 0),
    }
}

impl Config {
    /// The settings, as the protocol handler reads them.
    pub fn settings(&self) -> (r: ConfigView)
        ensures
            r == self@,
    {
        ConfigView {
            inflight_request_limit: self.inflight_request_limit,
            inflight_request_prealloc: self.inflight_request_prealloc,
            keep_alive_timeout: self.keep_alive_timeout,
            safe_pipeline_timeout: self.safe_pipeline_timeout,
            max_request_timeout: self.max_request_timeout,
        }
    }

    /// Create a config with defaults
    pub fn new() -> (c: Config)
        ensures
            c@ == default_config(),
    {
        Config {
            inflight_request_limit: 1,
            inflight_request_prealloc: 1,
            keep_alive_timeout: new_duration(4, 0),
            safe_pipeline_timeout: duration_millis(300),
            max_request_timeout: new_duration(15, 0),
        }
    }

    /// A number of inflight requests until we start returning
    /// `NotReady` from `start_send`
    ///
    /// Note we always return `NotReady` if some *request* is streaming
    /// currently. Use `Sink::buffered` to prevent that.
    ///
    /// Note 2: you might also need to tweak `safe_pipeline_timeout` to
    /// make pipelining work.
    pub fn inflight_request_limit(&mut self, value: usize) -> (r: &mut Self)
        ensures
            (*r)@ == (ConfigView { inflight_request_limit: value, ..old(self)@ }),
            *final(self) == *final(r),
    {
        self.inflight_request_limit = value;
        self
    }

    /// Size of the queue that is preallocated for holding requests
    ///
    /// Should be smaller than `inflight_request_limit`.
    pub fn inflight_request_prealoc(&mut self, value: usize) -> (r: &mut Self)
        ensures
            (*r)@ == (ConfigView { inflight_request_prealloc: value, ..old(self)@ }),
            *final(self) == *final(r),
    {
        self.inflight_request_prealloc = value;
        self
    }

    /// Keep-alive timeout
    ///
    /// This is maximum time connection is kept alive when idle. We can't
    /// reliably detect when server closed connection at the remote end, in
    /// some cases (e.g. when remote server crashed).
    ///
    /// Also, there is a race condition between server closing the connection
    /// and client sending new request. So this timeout should usually be less
    /// than keep-alive timeout at server side.
    ///
    /// Note: default is very much conservative (currently 4 seconds, but we
    /// might change it).
    pub fn keep_alive_timeout(&mut self, value: Duration) -> (r: &mut Self)
        ensures
            (*r)@ == (ConfigView { keep_alive_timeout: value, ..old(self)@ }),
            *final(self) == *final(r),
    {
        self.keep_alive_timeout = value;
        self
    }

    /// Maximum time peer doesn't answer request before we consider this
    /// connection can't be used for pipelining more requests.
    ///
    /// Note: when this timeout is reached more requests can already be
    /// sent using this connection. This number only prevents further ones.
    /// You must disable pipelining at all if loosing or retrying requests is
    /// destructive for your application.
    ///
    /// Note: we have a very conservative default (currently 300 ms, but we
    /// might change it in future).
    pub fn safe_pipeline_timeout(&mut self, value: Duration) -> (r: &mut Self)
        ensures
            (*r)@ == (ConfigView { safe_pipeline_timeout: value, ..old(self)@ }),
            *final(self) == *final(r),
    {
        self.safe_pipeline_timeout = value;
        self
    }

    /// Absolute maximum time of whole request can work
    ///
    /// The rule of thumb: this must be the maximum time any your request
    /// can take from first byte sent to the last byte received.
    ///
    /// Default timeout is 15 seconds (which is both too large for many
    /// applications and too small for some ones)
    pub fn max_request_timeout(&mut self, value: Duration) -> (r: &mut Self)
        ensures
            (*r)@ == (ConfigView { max_request_timeout: value, ..old(self)@ }),
            *final(self) == *final(r),
    {
        self.max_request_timeout = value;
        self
    }

    /// Create a Arc'd config clone to pass to the constructor
    ///
    /// This is just a convenience method.
    pub fn done(&mut self) -> (r: Arc<Config>)
        ensures
            (*r)@ == old(self)@,
            *final(self) == *old(self),
    {
        Arc::new(Config {
            inflight_request_limit: self.inflight_request_limit,
            inflight_request_prealloc: self.inflight_request_prealloc,
            keep_alive_timeout: self.keep_alive_timeout,
            safe_pipeline_timeout: self.safe_pipeline_timeout,
            max_request_timeout: self.max_request_timeout,
        })
    }
}

} // verus!
