//! HTTP server protocol implementation
//!
use vstd::prelude::*;

pub mod buffered;
pub mod codec;
pub mod config;
pub mod error;
pub mod headers;
pub mod proto;
pub mod recv_mode;
pub mod request_target;
pub mod simple_error_page;

pub use self::codec::BodyKind;
pub use self::config::Config;
pub use self::error::Error;
pub use self::headers::{Head, ResponseConfig};
pub use self::recv_mode::RecvMode;
pub use self::request_target::RequestTarget;
pub use self::simple_error_page::SimpleErrorPage;

verus! {
} // verus!
