//! The address of the audio source.

use vstd::prelude::*;
use vstd::string::*;

verus! {

/// Whether a path names its own scheme: whether it begins with `http://` or
/// with `https://`.
pub open spec fn has_scheme(path: Seq<char>) -> bool {
    "http://"@.is_prefix_of(path) || "https://"@.is_prefix_of(path)
}

/// The local endpoint that serves a path without a scheme.
pub open spec fn default_endpoint() -> Seq<char> {
    "http://127.0.0.1:3000"@
}

/// The address that a path stands for: the path itself if it names a scheme,
/// else the path behind the default local endpoint.
pub open spec fn resolved(path: Seq<char>) -> Seq<char> {
    if has_scheme(path) {
        path
    } else {
        default_endpoint() + path
    }
}

/// Decides whether a text begins with a prefix, character by character.
pub fn begins_with(text: &str, prefix: &str) -> (b: bool)
    ensures
        b == prefix@.is_prefix_of(text@),
{
    let n = prefix.unicode_len();
    if text.unicode_len() < n {
        return false;
    }
    let mut i: usize = 0;
    while i < n
        invariant
            i <= n,
            n == prefix@.len(),
            n <= text@.len(),
            forall|k: int| 0 <= k < i ==> text@[k] == prefix@[k],
        decreases n - i,
    {
        if text.get_char(i) != prefix.get_char(i) {
            assert(text@.subrange(0, n as int)[i as int] != prefix@[i as int]);
            return false;
        }
        i = i + 1;
    }
    assert(prefix@ =~= text@.subrange(0, n as int));
    true
}

/// Decides whether a path names its own scheme.
pub fn names_scheme(path: &str) -> (b: bool)
    ensures
        b == has_scheme(path@),
{
    begins_with(path, "http://") || begins_with(path, "https://")
}

/// Resolves the path of an audio source to the address to fetch.
pub fn resolve_source_url(path: &str) -> (url: String)
    ensures
        url@ == resolved(path@),
{
    if names_scheme(path) {
        String::from_str(path)
    } else {
        String::from_str("http://127.0.0.1:3000").concat(path)
    }
}

} // verus!
