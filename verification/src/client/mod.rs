//! The HTTP/1.x client protocol implementation
//!
use vstd::prelude::*;

pub mod buffered;
pub mod client;
pub mod config;
pub mod errors;
pub mod head;
pub mod parser;
pub mod proto;
pub mod recv_mode;

pub use self::client::BodyKind;
pub use self::config::Config;
pub use self::errors::{Error, ErrorEnum};
pub use self::head::{Head, HeaderIter};
pub use self::recv_mode::RecvMode;

verus! {
} // verus!
