use vstd::prelude::*;

verus! {

/// This type is returned from `headers_received` handler of either
/// client client or server protocol handler
///
/// The marker is used to denote whether you want to have the whole request
/// buffered for you or read chunk by chunk.
///
/// The `Progressive` (chunk by chunk) mode is mostly useful for proxy servers.
/// Or it may be useful if your handler is able to parse data without holding
/// everything in the memory.
///
/// Otherwise, it's best to use `Buffered` mode (for example, comparing with
/// using your own buffering). We do our best to optimize it for you.
#[derive(Debug, Clone, Copy, PartialEq, Eq, Structural)]
pub struct RecvMode {
    pub(crate) mode: Mode,
}

#[derive(Debug, Clone, Copy, PartialEq, Eq, Structural)]
pub enum Mode {
    Buffered(usize),
    Progressive(usize),
}

impl View for RecvMode {
    type V = Mode;

    closed spec fn view(&self) -> Mode {
        self.mode
    }
}

impl RecvMode {
    /// Download whole message body (request or response) into the memory.
    ///
    /// The argument is maximum size of the body. The Buffered variant
    /// works equally well for Chunked encoding and for read-util-end-of-stream
    /// mode of HTTP/1.0, so sometimes you can't know the size of the request
    /// in advance. Note this is just an upper limit it's neither buffer size
    /// nor *minimum* size of the body.
    pub fn buffered(maximum_size_of_body: usize) -> (m: RecvMode)
        ensures
            m@ == Mode::Buffered(maximum_size_of_body),
    {
        RecvMode { mode: Mode::Buffered(maximum_size_of_body) }
    }

    /// Fetch data chunk-by-chunk.
    ///
    /// The parameter denotes minimum number of bytes that may be passed
    /// to the protocol handler. This is for performance tuning (i.e. less
    /// wake-ups of protocol parser). But it's not an input buffer size. The
    /// use of `Progressive(1)` is perfectly okay (for example if you use http
    /// request body as a persistent connection for sending multiple messages
    /// on-demand)
    pub fn progressive(min_bytes_hint: usize) -> (m: RecvMode)
        ensures
            m@ == Mode::Progressive(min_bytes_hint),
    {
        RecvMode { mode: Mode::Progressive(min_bytes_hint) }
    }

    /// The way the body is to be received.
    pub fn mode(&self) -> (m: Mode)
        ensures
            m == self@,
    {
        self.mode
    }
}

} // verus!
