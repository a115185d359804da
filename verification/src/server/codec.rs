use vstd::prelude::*;

verus! {

/// How the length of a request body is known.
#[derive(Debug, Copy, Clone, PartialEq, Eq, Structural)]
pub enum BodyKind {
    Fixed(u64),
    Chunked,
    Unsupported,
}

} // verus!
