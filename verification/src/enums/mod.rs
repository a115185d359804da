use vstd::prelude::*;

pub mod headers;
pub mod status;
pub mod version;

pub use self::headers::{Header, Method};
pub use self::status::Status;
pub use self::version::Version;

verus! {
} // verus!
