use vstd::prelude::*;

verus! {

/// Enum reprsenting HTTP version.
#[derive(Debug, Clone, Copy, PartialEq, Eq, Structural)]
pub enum Version {
    /// Version 1.0 of the HTTP protocol
    Http10,
    /// Version 1.1 of the HTTP protocol
    Http11,
}

/// The text with which a version is written on the first line of a message.
pub open spec fn version_text(v: Version) -> &'static str {
    match v {
        Version::Http10 => "HTTP/1.0",
        Version::Http11 => "HTTP/1.1",
    }
}

impl Version {
    /// The protocol token of this version: `HTTP/1.0` or `HTTP/1.1`.
    pub fn as_str(&self) -> (s: &'static str)
        ensures
            s == version_text(*self),
    {
        match *self {
            Version::Http10 => "HTTP/1.0",
            Version::Http11 => "HTTP/1.1",
        }
    }

    /// The displayed form of the version, as an owned string.
    pub fn to_string(&self) -> (s: String)
        ensures
            s@ == version_text(*self)@,
    {
        self.as_str().to_owned()
    }
}

} // verus!
