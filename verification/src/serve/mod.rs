//! Writing a response into the output buffer of a connection.
use vstd::prelude::*;

pub mod response_writer;

pub use self::response_writer::ResponseWriter;

verus! {
} // verus!
