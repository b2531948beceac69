//! The addresses the REST clients call: a base address given without a
//! scheme is taken to be plain HTTP, and an endpoint is its path appended to
//! the base.

use vstd::prelude::*;

use crate::text::concat;

verus! {

/// Whether `s` begins with `prefix`.
pub open spec fn starts_with(s: Seq<char>, prefix: Seq<char>) -> bool {
    s.len() >= prefix.len() && s.take(prefix.len() as int) == prefix
}

/// The base address a client calls: the address itself when it begins with
/// "http", else the address behind "http://".
pub open spec fn spec_base_url(url: Seq<char>) -> Seq<char> {
    if starts_with(url, "http"@) {
        url
    } else {
        "http://"@ + url
    }
}

/// Whether `s` begins with `prefix`.
pub fn has_prefix(s: &str, prefix: &str) -> (found: bool)
    ensures
        found == starts_with(s@, prefix@),
{
    let n = s.unicode_len();
    let m = prefix.unicode_len();
    if n < m {
        return false;
    }
    let mut i: usize = 0;
    while i < m
        invariant
            m <= n,
            n == s@.len(),
            m == prefix@.len(),
            i <= m,
            forall|j: int| 0 <= j < i ==> s@[j] == prefix@[j],
        decreases m - i,
    {
        if s.get_char(i) != prefix.get_char(i) {
            assert(s@.take(m as int)[i as int] != prefix@[i as int]);
            return false;
        }
        i = i + 1;
    }
    assert(s@.take(m as int) =~= prefix@);
    true
}

/// The base address a client calls.
pub fn base_url(url: &str) -> (base: String)
    ensures
        base@ == spec_base_url(url@),
{
    if has_prefix(url, "http") {
        url.to_owned()
    } else {
        concat("http://", url)
    }
}

/// The address of an endpoint: its path after the base address.
pub fn endpoint(base: &str, path: &str) -> (url: String)
    ensures
        url@ == base@ + path@,
{
    concat(base, path)
}

/// A base address is its own base address.
pub proof fn law_base_url_idempotent(url: Seq<char>)
    ensures
        spec_base_url(spec_base_url(url)) == spec_base_url(url),
{
    reveal_strlit("http");
    reveal_strlit("http://");
    if !starts_with(url, "http"@) {
        let b = "http://"@ + url;
        assert(b.take(4) =~= "http"@);
    }
}

} // verus!
