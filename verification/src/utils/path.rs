//! File-system paths held as strings (Unix rules).

use vstd::prelude::*;
use crate::utils::chars::{chars_of, push_char, string_from_chars};

verus! {

/// `base` joined with `comp` as `Path::join` does on Unix: an absolute
/// `comp` replaces `base`; otherwise a `/` is inserted unless `base` is empty
/// or already ends with one.
pub open spec fn path_join(base: Seq<char>, comp: Seq<char>) -> Seq<char> {
    if comp.len() > 0 && comp[0] == '/' {
        comp
    } else if base.len() == 0 || base.last() == '/' {
        base + comp
    } else {
        base + seq!['/'] + comp
    }
}

/// `base` joined with `comp`.
pub fn join(base: &str, comp: &str) -> (r: String)
    ensures
        r@ == path_join(base@, comp@),
{
    let b = chars_of(base);
    let c = chars_of(comp);
    if c.len() > 0 && c[0] == '/' {
        return string_from_chars(c.as_slice());
    }
    let mut out = string_from_chars(b.as_slice());
    if b.len() > 0 && b[b.len() - 1] != '/' {
        push_char(&mut out, '/');
    }
    let mut i: usize = 0;
    let ghost start = out@;
    while i < c.len()
        invariant
            i <= c@.len(),
            c@ == comp@,
            out@ == start + c@.take(i as int),
        decreases c.len() - i,
    {
        push_char(&mut out, c[i]);
        assert(c@.take(i + 1) == c@.take(i as int).push(c@[i as int]));
        i += 1;
    }
    assert(c@.take(c@.len() as int) == c@);
    proof {
        if b@.len() > 0 && b@.last() != '/' {
            assert(start == base@ + seq!['/']);
        } else {
            assert(start == base@);
        }
    }
    out
}

/// Whether the path names something on disk.
///
/// Trusted: calls `std::path::Path::exists`; nothing is claimed of the
/// result, which depends on the file system.
#[verifier::external_body]
pub(crate) fn path_exists(p: &str) -> bool {
    std::path::Path::new(p).exists()
}

/// Whether the path names a regular file.
///
/// Trusted: calls `std::path::Path::is_file`; nothing is claimed of the
/// result, which depends on the file system.
#[verifier::external_body]
pub(crate) fn path_is_file(p: &str) -> bool {
    std::path::Path::new(p).is_file()
}

} // verus!
