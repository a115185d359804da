//! Higher-level interface for serving fully buffered requests
//!
//! The request, with its whole body, is collected here; the address of the
//! peer and the services that answer requests are held by the caller.
use vstd::prelude::*;

use std::marker::PhantomData;
use std::sync::Arc;

use crate::ascii::bytes_to_vec;
use crate::enums::version::Version;
use crate::raw_parse::RawHeader;

use super::headers::Head;
use super::recv_mode::{Mode, RecvMode};
use super::request_target::RequestTarget;

verus! {

/// The number of bytes a request may have by default.
pub const DEFAULT_MAX_REQUEST_LENGTH: usize = 10_485_760;

/// Buffered request struct
///
/// some known headers may be moved to upper structure (ie, Host)
#[derive(Debug)]
pub struct Request {
    method: String,
    path: String,
    host: Option<String>,
    version: Version,
    headers: Vec<(String, Vec<u8>)>,
    body: Vec<u8>,
}

/// The contents of a buffered request.
pub struct RequestView {
    pub method: Seq<char>,
    pub path: Seq<char>,
    pub host: Option<Seq<char>>,
    pub version: Version,
    pub headers: Seq<(Seq<char>, Seq<u8>)>,
    pub body: Seq<u8>,
}

/// The plain contents of a list of header fields.
pub open spec fn header_list(v: Seq<(String, Vec<u8>)>) -> Seq<(Seq<char>, Seq<u8>)> {
    v.map_values(|h: (String, Vec<u8>)| (h.0@, h.1@))
}

impl View for Request {
    type V = RequestView;

    closed spec fn view(&self) -> RequestView {
        RequestView {
            method: self.method@,
            path: self.path@,
            host: match self.host {
                Some(h) => Some(h@),
                None => None,
            },
            version: self.version,
            headers: header_list(self.headers@),
            body: self.body@,
        }
    }
}

/// The path of a request target in origin or absolute form.
pub open spec fn target_path(t: RequestTarget) -> Option<Seq<char>> {
    match t {
        RequestTarget::Origin(x) => Some(x@),
        RequestTarget::Absolute { path, .. } => Some(path@),
        _ => None,
    }
}

/// Copies the header fields of a request.
fn copy_headers(hs: &[RawHeader]) -> (r: Vec<(String, Vec<u8>)>)
    ensures
        header_list(r@) == hs@.map_values(|h: RawHeader| h@),
{
    let mut r: Vec<(String, Vec<u8>)> = Vec::new();
    let mut i: usize = 0;
    while i < hs.len()
        invariant
            i <= hs@.len(),
            header_list(r@) == hs@.subrange(0, i as int).map_values(|h: RawHeader| h@),
        decreases hs@.len() - i,
    {
        let h = &hs[i];
        let ghost before = r@;
        r.push((h.name.clone(), bytes_to_vec(h.value.as_slice())));
        assert(hs@.subrange(0, i + 1) =~= hs@.subrange(0, i as int).push(hs@[i as int]));
        assert(header_list(r@) =~= header_list(before).push((h.name@, h.value@)));
        i += 1;
    }
    assert(hs@.subrange(0, hs@.len() as int) =~= hs@);
    r
}

impl Request {
    /// Collects what a buffered request keeps of a request head: the
    /// method, the path, the host, the version and all header fields. The
    /// target must have a path (neither `*` nor an authority).
    pub fn from_head(head: &Head) -> (r: Request)
        requires
            target_path(head.target_of()) is Some,
        ensures
            r@ == (RequestView {
                method: head@.method,
                path: target_path(head.target_of())->Some_0,
                host: head@.host,
                version: head@.version,
                headers: head@.headers,
                body: Seq::empty(),
            }),
    {
        let path = match head.path() {
            Some(p) => p.to_string(),
            None => String::new(),
        };
        let host = match head.host() {
            Some(h) => Some(h.to_string()),
            None => None,
        };
        Request {
            method: head.method().to_string(),
            path: path,
            host: host,
            version: head.version(),
            headers: copy_headers(head.headers()),
            body: Vec::new(),
        }
    }

    /// Returns method of a request
    pub fn method(&self) -> (r: &str)
        ensures
            r@ == self@.method,
    {
        self.method.as_str()
    }

    /// Returns path of a request
    pub fn path(&self) -> (r: &str)
        ensures
            r@ == self@.path,
    {
        self.path.as_str()
    }

    /// Returns the host header of a request
    pub fn host(&self) -> (r: Option<&str>)
        ensures
            match r {
                Some(h) => self@.host == Some(h@),
                None => self@.host is None,
            },
    {
        match &self.host {
            Some(h) => Some(h.as_str()),
            None => None,
        }
    }

    /// Returns HTTP version used in request
    pub fn version(&self) -> (r: Version)
        ensures
            r == self@.version,
    {
        self.version
    }

    /// Returns request headers
    pub fn headers(&self) -> (r: &[(String, Vec<u8>)])
        ensures
            header_list(r@) == self@.headers,
    {
        self.headers.as_slice()
    }

    /// Returns request body
    pub fn body(&self) -> (r: &[u8])
        ensures
            r@ == self@.body,
    {
        self.body.as_slice()
    }
}

/// A codec that reads a whole request into memory before it is served.
pub struct BufferedCodec {
    max_request_length: usize,
    upgrade: bool,
    request: Option<Request>,
}

/// The state of a buffered codec.
pub struct BufferedCodecView {
    pub max_request_length: usize,
    pub upgrade: bool,
    pub request: Option<RequestView>,
}

impl View for BufferedCodec {
    type V = BufferedCodecView;

    closed spec fn view(&self) -> BufferedCodecView {
        BufferedCodecView {
            max_request_length: self.max_request_length,
            upgrade: self.upgrade,
            request: match self.request {
                Some(r) => Some(r@),
                None => None,
            },
        }
    }
}

impl BufferedCodec {
    /// The codec for a request whose head has been read; `upgrade` tells
    /// whether the request negotiates a websocket.
    pub fn new(head: &Head, max_request_length: usize, upgrade: bool) -> (r: BufferedCodec)
        requires
            target_path(head.target_of()) is Some,
        ensures
            r@.max_request_length == max_request_length,
            r@.upgrade == upgrade,
            r@.request == Some(
                RequestView {
                    method: head@.method,
                    path: target_path(head.target_of())->Some_0,
                    host: head@.host,
                    version: head@.version,
                    headers: head@.headers,
                    body: Seq::empty(),
                },
            ),
    {
        BufferedCodec {
            max_request_length: max_request_length,
            upgrade: upgrade,
            request: Some(Request::from_head(head)),
        }
    }

    /// A websocket negotiation takes the connection over; any other
    /// request is buffered whole, up to the maximum length.
    pub fn recv_mode(&self) -> (r: RecvMode)
        ensures
            r@ == (if self@.upgrade {
                Mode::Hijack
            } else {
                Mode::BufferedUpfront(self@.max_request_length)
            }, None::<std::time::Duration>),
    {
        if self.upgrade {
            RecvMode::hijack()
        } else {
            RecvMode::buffered_upfront(self.max_request_length)
        }
    }

    /// The whole body has arrived: it becomes the body of the request,
    /// and all of it is consumed.
    pub fn data_received(&mut self, data: &[u8], end: bool) -> (r: usize)
        requires
            end,
            old(self)@.request is Some,
        ensures
            r == data@.len(),
            final(self)@ == (BufferedCodecView {
                request: Some(RequestView { body: data@, ..old(self)@.request->Some_0 }),
                ..old(self)@
            }),
    {
        let mut request = self.request.take().unwrap();
        request.body = bytes_to_vec(data);
        self.request = Some(request);
        data.len()
    }

    /// The request is still held (it has not been handed over yet).
    pub fn request_pending(&self) -> (r: bool)
        ensures
            r == self@.request is Some,
    {
        self.request.is_some()
    }

    /// Hands the request over to be served (once).
    pub fn take_request(&mut self) -> (r: Request)
        requires
            old(self)@.request is Some,
        ensures
            r@ == old(self)@.request->Some_0,
            final(self)@ == (BufferedCodecView { request: None, ..old(self)@ }),
    {
        self.request.take().unwrap()
    }
}

/// Calls `Arc::clone`: a new pointer to the same value.
#[verifier::external_body]
fn share<T>(a: &Arc<T>) -> (r: Arc<T>)
    ensures
        r == *a,
{
    Arc::clone(a)
}

/// A helper to create a simple websocket (and HTTP) service
///
/// It holds the function that serves HTTP requests and the one that
/// serves websockets.
pub struct WebsocketFactory<H, I> {
    service: Arc<H>,
    websockets: Arc<I>,
}

/// An instance of websocket factory, created by WebsocketFactory itself
pub struct WebsocketService<H, I, T, U> {
    service: Arc<H>,
    websockets: Arc<I>,
    phantom: PhantomData<(T, U)>,
}

impl<H, I> WebsocketFactory<H, I> {
    /// The function that serves HTTP requests.
    pub closed spec fn http_handler(&self) -> H {
        *self.service
    }

    /// The function that serves websockets.
    pub closed spec fn websocket_handler(&self) -> I {
        *self.websockets
    }

    /// A factory from the two serving functions.
    pub fn from_handlers(http: H, websockets: I) -> (r: WebsocketFactory<H, I>)
        ensures
            r.http_handler() == http,
            r.websocket_handler() == websockets,
    {
        WebsocketFactory { service: Arc::new(http), websockets: Arc::new(websockets) }
    }

    /// The two serving functions.
    pub fn handlers(&self) -> (r: (&Arc<H>, &Arc<I>))
        ensures
            *r.0 == self.http_handler(),
            *r.1 == self.websocket_handler(),
    {
        (&self.service, &self.websockets)
    }

    /// An instance for a single request, sharing the serving functions.
    pub fn new<T, U>(&self) -> (r: WebsocketService<H, I, T, U>)
        ensures
            r.http_handler() == self.http_handler(),
            r.websocket_handler() == self.websocket_handler(),
    {
        WebsocketService {
            service: share(&self.service),
            websockets: share(&self.websockets),
            phantom: PhantomData,
        }
    }
}

impl<H, I, T, U> WebsocketService<H, I, T, U> {
    /// The function that serves HTTP requests.
    pub closed spec fn http_handler(&self) -> H {
        *self.service
    }

    /// The function that serves websockets.
    pub closed spec fn websocket_handler(&self) -> I {
        *self.websockets
    }

    /// The two serving functions.
    pub fn handlers(&self) -> (r: (&Arc<H>, &Arc<I>))
        ensures
            *r.0 == self.http_handler(),
            *r.1 == self.websocket_handler(),
    {
        (&self.service, &self.websockets)
    }
}

} // verus!
