use vstd::prelude::*;
use vstd::string::StringSliceAdditionalSpecFns;

use crate::ascii::{
    bytes_starts_with, lemma_ascii_byte_boundary, lemma_ascii_prefix_boundary,
    lemma_ascii_str_bytes, starts_with, str_eq,
};

verus! {

/// The request-target: the middle part of the request line.
#[derive(Debug, Clone, Copy)]
pub enum RequestTarget<'a> {
    /// Usual form of `/hello?name=world`
    Origin(&'a str),
    /// Full url: `http://example.com:8080/hello`
    ///
    /// Note in this case (unlike in Origin) path may not start with a slash
    Absolute { scheme: &'a str, authority: &'a str, path: &'a str },
    /// Only hostname `example.com:8080`, only useful for `CONNECT` method
    Authority(&'a str),
    /// Asterisk `*`
    Asterisk,
}

/// Authority can't contain `/` or `?` or `#`, user and password
/// is not supported in HTTP either (so no `@` but otherwise we accept
/// anything as rules are quite complex)
pub open spec fn is_authority_end(x: u8) -> bool {
    x == 47u8 || x == 63u8 || x == 35u8 || x == 64u8
}

/// The position of the first byte at or after `i` that ends an authority,
/// or the length of `b` when there is none.
pub open spec fn authority_end(b: Seq<u8>, i: int) -> int
    decreases b.len() - i,
{
    if i < 0 || i >= b.len() {
        b.len() as int
    } else if is_authority_end(b[i]) {
        i
    } else {
        authority_end(b, i + 1)
    }
}

/// `Absolute` target with the given scheme, whose authority starts at `k`
/// (after the scheme and `://`).
pub open spec fn is_absolute_at(r: Option<RequestTarget>, b: Seq<u8>, k: int, sch: Seq<char>) -> bool {
    r matches Some(RequestTarget::Absolute { scheme, authority, path }) && scheme@ == sch
        && authority.spec_bytes() == b.subrange(k, authority_end(b, k)) && path.spec_bytes()
        == b.subrange(authority_end(b, k), b.len() as int)
}

/// What `RequestTarget::parse` makes of a request-target (given by its
/// characters).
pub open spec fn parsed_target(s: Seq<char>, r: Option<RequestTarget>) -> bool {
    let b = vstd::utf8::encode_utf8(s);
    if b.len() == 0 {
        r is None
    } else if starts_with(b, "/".spec_bytes()) {
        r matches Some(RequestTarget::Origin(x)) && x@ == s
    } else if starts_with(b, "http://".spec_bytes()) {
        is_absolute_at(r, b, 7, "http"@)
    } else if starts_with(b, "https://".spec_bytes()) {
        is_absolute_at(r, b, 8, "https"@)
    } else if s == "*"@ {
        r == Some(RequestTarget::Asterisk)
    } else if authority_end(b, 0) == b.len() {
        r matches Some(RequestTarget::Authority(x)) && x@ == s
    } else {
        r is None
    }
}

/// Authority can't contain `/` or `?` or `#`, user and password
/// is not supported in HTTP either.
pub fn authority_end_char(x: &u8) -> (r: bool)
    ensures
        r == is_authority_end(*x),
{
    *x == 47u8 || *x == 63u8 || *x == 35u8 || *x == 64u8
}

/// Position of the first authority-ending byte at or after `from`.
fn find_authority_end(b: &[u8], from: usize) -> (e: usize)
    requires
        from <= b@.len(),
    ensures
        e == authority_end(b@, from as int),
        from <= e <= b@.len(),
        e < b@.len() ==> is_authority_end(b@[e as int]),
{
    let mut i = from;
    while i < b.len()
        invariant
            from <= i <= b@.len(),
            authority_end(b@, i as int) == authority_end(b@, from as int),
        decreases b@.len() - i,
    {
        if authority_end_char(&b[i]) {
            return i;
        }
        i += 1;
    }
    i
}

/// Splits an absolute target whose scheme prefix `prefix` (all ASCII) is
/// `k` bytes long.
fn split_absolute<'a>(s: &'a str, k: usize, prefix: &str, scheme: &'static str) -> (r: RequestTarget<'a>)
    requires
        vstd::string::is_ascii(prefix),
        prefix.spec_bytes().len() == k,
        starts_with(s.spec_bytes(), prefix.spec_bytes()),
    ensures
        is_absolute_at(Some(r), s.spec_bytes(), k as int, scheme@),
{
    let ghost b = s.spec_bytes();
    proof {
        lemma_ascii_str_bytes(prefix);
        broadcast use vstd::utf8::encode_utf8_valid_utf8;
    }
    let bytes = s.as_bytes();
    let e = find_authority_end(bytes, k);
    proof {
        lemma_ascii_byte_boundary(b, e as int);
    }
    let (head, path) = s.split_at(e);
    proof {
        assert(head.spec_bytes() =~= b.subrange(0, e as int));
        assert forall|i: int| 0 <= i < k implies head.spec_bytes()[i] <= 0x7f by {
            assert(head.spec_bytes()[i] == b[i]);
            assert(b.subrange(0, k as int)[i] == prefix.spec_bytes()[i]);
        }
        lemma_ascii_prefix_boundary(head.spec_bytes(), k as int);
    }
    let (_, authority) = head.split_at(k);
    proof {
        assert(authority.spec_bytes() =~= b.subrange(k as int, e as int));
    }
    RequestTarget::Absolute { scheme: scheme, authority: authority, path: path }
}

impl<'a> RequestTarget<'a> {
    /// Parses a request-target, or returns `None` when it is in none of
    /// the four forms.
    pub fn parse(s: &'a str) -> (r: Option<RequestTarget<'a>>)
        ensures
            parsed_target(s@, r),
    {
        let bytes = s.as_bytes();
        if bytes.len() == 0 {
            return None;
        }
        if bytes_starts_with(bytes, "/".as_bytes()) {
            return Some(RequestTarget::Origin(s));
        }
        proof {
            reveal_strlit("http://");
            reveal_strlit("https://");
        }
        if bytes_starts_with(bytes, "http://".as_bytes()) {
            proof {
                lemma_ascii_str_bytes("http://");
            }
            return Some(split_absolute(s, 7, "http://", "http"));
        }
        if bytes_starts_with(bytes, "https://".as_bytes()) {
            proof {
                lemma_ascii_str_bytes("https://");
            }
            return Some(split_absolute(s, 8, "https://", "https"));
        }
        if str_eq(s, "*") {
            return Some(RequestTarget::Asterisk);
        }
        if find_authority_end(bytes, 0) == bytes.len() {
            return Some(RequestTarget::Authority(s));
        }
        None
    }
}

} // verus!
