//! HTTP/1.0 and HTTP/1.1 protocol building blocks: status codes, header
//! value classification, request targets, the message serializer state
//! machine, the chunked body decoder and the header scanners of the server
//! and client protocol handlers.
use vstd::prelude::*;

mod ascii;
pub mod buf;
pub mod base_serializer;
pub mod body_parser;
pub mod chunked;
pub mod client;
pub mod enums;
pub mod numfmt;
pub mod raw_parse;
pub mod response;
pub mod serve;
pub mod server;
pub mod simple_error_page;
pub mod text;
pub mod time;
pub mod headers;

pub use enums::{Version, Status, Method, Header};

verus! {
} // verus!
