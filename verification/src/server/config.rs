use vstd::prelude::*;

use std::sync::Arc;
use std::time::Duration;

use crate::time::{duration_new, new_duration};

verus! {

/// Fine-grained configuration of the HTTP server
#[derive(Debug)]
pub struct Config {
    inflight_request_limit: usize,
    inflight_request_prealloc: usize,
    first_byte_timeout: Duration,
    keep_alive_timeout: Duration,
    headers_timeout: Duration,
    input_body_byte_timeout: Duration,
    input_body_whole_timeout: Duration,
    output_body_byte_timeout: Duration,
    output_body_whole_timeout: Duration,
}

/// The settings of a server configuration.
pub struct ConfigView {
    pub inflight_request_limit: usize,
    pub inflight_request_prealloc: usize,
    pub first_byte_timeout: Duration,
    pub keep_alive_timeout: Duration,
    pub headers_timeout: Duration,
    pub input_body_byte_timeout: Duration,
    pub input_body_whole_timeout: Duration,
    pub output_body_byte_timeout: Duration,
    pub output_body_whole_timeout: Duration,
}

impl View for Config {
    type V = ConfigView;

    closed spec fn view(&self) -> ConfigView {
        ConfigView {
            inflight_request_limit: self.inflight_request_limit,
            inflight_request_prealloc: self.inflight_request_prealloc,
            first_byte_timeout: self.first_byte_timeout,
            keep_alive_timeout: self.keep_alive_timeout,
            headers_timeout: self.headers_timeout,
            input_body_byte_timeout: self.input_body_byte_timeout,
            input_body_whole_timeout: self.input_body_whole_timeout,
            output_body_byte_timeout: self.output_body_byte_timeout,
            output_body_whole_timeout: self.output_body_whole_timeout,
        }
    }
}

/// The defaults of a server configuration.
pub open spec fn default_config() -> ConfigView {
    ConfigView {
        inflight_request_limit: 2,
        inflight_request_prealloc: 0,
        first_byte_timeout: duration_new(5, 0),
        keep_alive_timeout: duration_new(90, 0),
        headers_timeout: duration_new(10, 0),
        input_body_byte_timeout: duration_new(15, 0),
        input_body_whole_timeout: duration_new(3600, 0),
        output_body_byte_timeout: duration_new(15, 0),
        output_body_whole_timeout: duration_new(300, 0),
    }
}

impl Config {
    /// The settings, as the protocol handler reads them.
    pub fn settings(&self) -> (r: ConfigView)
        ensures
            r == self@,
    {
        ConfigView {
            inflight_request_limit: self.inflight_request_limit,
            inflight_request_prealloc: self.inflight_request_prealloc,
            first_byte_timeout: self.first_byte_timeout,
            keep_alive_timeout: self.keep_alive_timeout,
            headers_timeout: self.headers_timeout,
            input_body_byte_timeout: self.input_body_byte_timeout,
            input_body_whole_timeout: self.input_body_whole_timeout,
            output_body_byte_timeout: self.output_body_byte_timeout,
            output_body_whole_timeout: self.output_body_whole_timeout,
        }
    }

    /// Create a config with defaults
    pub fn new() -> (c: Config)
        ensures
            c@ == default_config(),
    {
        Config {
            inflight_request_limit: 2,
            inflight_request_prealloc: 0,
            first_byte_timeout: new_duration(5, 0),
            keep_alive_timeout: new_duration(90, 0),
            headers_timeout: new_duration(10, 0),
            input_body_byte_timeout: new_duration(15, 0),
            input_body_whole_timeout: new_duration(3600, 0),
            output_body_byte_timeout: new_duration(15, 0),
            output_body_whole_timeout: new_duration(300, 0),
        }
    }

    /// A number of inflight requests until we stop reading more requests
    pub fn inflight_request_limit(&mut self, value: usize) -> (r: &mut Self)
        ensures
            (*r)@ == (ConfigView { inflight_request_limit: value, ..old(self)@ }),
            *final(self) == *final(r),
    {
        self.inflight_request_limit = value;
        self
    }

    /// Size of the queue that is preallocated for holding requests
    ///
    /// Should be smaller than `inflight_request_limit`.
    pub fn inflight_request_prealoc(&mut self, value: usize) -> (r: &mut Self)
        ensures
            (*r)@ == (ConfigView { inflight_request_prealloc: value, ..old(self)@ }),
            *final(self) == *final(r),
    {
        self.inflight_request_prealloc = value;
        self
    }

    /// Create a Arc'd config clone to pass to the constructor
    ///
    /// This is just a convenience method.
    pub fn done(&mut self) -> (r: Arc<Config>)
        ensures
            (*r)@ == old(self)@,
            *final(self) == *old(self),
    {
        Arc::new(Config {
            inflight_request_limit: self.inflight_request_limit,
            inflight_request_prealloc: self.inflight_request_prealloc,
            first_byte_timeout: self.first_byte_timeout,
            keep_alive_timeout: self.keep_alive_timeout,
            headers_timeout: self.headers_timeout,
            input_body_byte_timeout: self.input_body_byte_timeout,
            input_body_whole_timeout: self.input_body_whole_timeout,
            output_body_byte_timeout: self.output_body_byte_timeout,
            output_body_whole_timeout: self.output_body_whole_timeout,
        })
    }

    /// Timeout receiving very first byte over connection
    pub fn first_byte_timeout(&mut self, value: Duration) -> (r: &mut Self)
        ensures
            (*r)@ == (ConfigView { first_byte_timeout: value, ..old(self)@ }),
            *final(self) == *final(r),
    {
        self.first_byte_timeout = value;
        self
    }

    /// Timeout of idle connection (when no request has been sent yet)
    pub fn keep_alive_timeout(&mut self, value: Duration) -> (r: &mut Self)
        ensures
            (*r)@ == (ConfigView { keep_alive_timeout: value, ..old(self)@ }),
            *final(self) == *final(r),
    {
        self.keep_alive_timeout = value;
        self
    }

    /// Timeout of receiving whole request headers
    ///
    /// This timeout starts when first byte of headers is received
    pub fn headers_timeout(&mut self, value: Duration) -> (r: &mut Self)
        ensures
            (*r)@ == (ConfigView { headers_timeout: value, ..old(self)@ }),
            *final(self) == *final(r),
    {
        self.headers_timeout = value;
        self
    }

    /// Maximum delay between any two bytes of input request received
    pub fn input_body_byte_timeout(&mut self, value: Duration) -> (r: &mut Self)
        ensures
            (*r)@ == (ConfigView { input_body_byte_timeout: value, ..old(self)@ }),
            *final(self) == *final(r),
    {
        self.input_body_byte_timeout = value;
        self
    }

    /// Timeout of whole request body received
    ///
    /// This timeout might be adjusted on per-request basis in
    /// `headers_received`.
    pub fn input_body_whole_timeout(&mut self, value: Duration) -> (r: &mut Self)
        ensures
            (*r)@ == (ConfigView { input_body_whole_timeout: value, ..old(self)@ }),
            *final(self) == *final(r),
    {
        self.input_body_whole_timeout = value;
        self
    }

    /// Maximum delay between any two bytes of the output request could be
    /// sent
    pub fn output_body_byte_timeout(&mut self, value: Duration) -> (r: &mut Self)
        ensures
            (*r)@ == (ConfigView { output_body_byte_timeout: value, ..old(self)@ }),
            *final(self) == *final(r),
    {
        self.output_body_byte_timeout = value;
        self
    }

    /// Timeout for the whole response body to be send to the client
    ///
    /// This timeout is taken literally for any response, so it must be
    /// as large as needed for slowest client fetching slowest file.
    pub fn output_body_whole_timeout(&mut self, value: Duration) -> (r: &mut Self)
        ensures
            (*r)@ == (ConfigView { output_body_whole_timeout: value, ..old(self)@ }),
            *final(self) == *final(r),
    {
        self.output_body_whole_timeout = value;
        self
    }
}

} // verus!
