use vstd::prelude::*;

verus! {

/// How the length of a response body is known.
#[derive(Debug, Copy, Clone, PartialEq, Eq, Structural)]
pub enum BodyKind {
    Fixed(u64),
    Chunked,
    Eof,
}

} // verus!
