//! Model download logic: archive naming, byte-range planning, retries and
//! progress reporting. The transfers themselves are performed by the caller.
use vstd::prelude::*;

pub mod archive;
pub mod http;

verus! {

/// Name of the local archive file when the URL has no `/`.
pub const FALLBACK_ARCHIVE_NAME: &'static str = "model.tar.bz2";

/// The part of `s` after its last `/`, or `None` when it has no `/`.
pub open spec fn after_last_slash(s: Seq<char>) -> Option<Seq<char>> {
    if exists|i: int| 0 <= i < s.len() && s[i] == '/' {
        let k = choose|k: int| 0 <= k < s.len() && s[k] == '/' && forall|j: int| k < j < s.len() ==> s[j] != '/';
        Some(s.subrange(k + 1, s.len() as int))
    } else {
        None
    }
}

/// The part of `s` after its last `/`, or `None` when it has no `/` (see [`after_last_slash`]).
pub fn split_after_last_slash(s: &str) -> (r: Option<String>)
    ensures
        match after_last_slash(s@) {
            Some(t) => r matches Some(x) && x@ == t,
            None => r.is_none(),
        },
{
    let n = s.unicode_len();
    let mut i: usize = n;
    while i > 0 && s.get_char(i - 1) != '/'
        invariant
            i <= n,
            n == s@.len(),
            forall|j: int| i <= j < n ==> s@[j] != '/',
        decreases i,
    {
        i = i - 1;
    }
    if i == 0 {
        proof {
            assert(!exists|j: int| 0 <= j < s@.len() && s@[j] == '/');
        }
        return None;
    }
    proof {
        let v = s@;
        let k0 = (i - 1) as int;
        assert(0 <= k0 < v.len() && v[k0] == '/' && forall|j: int| k0 < j < v.len() ==> v[j] != '/');
        let k = choose|k: int| 0 <= k < v.len() && v[k] == '/' && forall|j: int| k < j < v.len() ==> v[j] != '/';
        if k < k0 {
            assert(v[k0] != '/');
        }
        if k0 < k {
            assert(v[k] != '/');
        }
        assert(k == k0);
    }
    Some(s.substring_char(i, n).to_owned())
}

/// The local file name of the archive at `url`: the part after its last `/`,
/// or [`FALLBACK_ARCHIVE_NAME`] when it has none.
pub open spec fn spec_archive_file_name(url: Seq<char>) -> Seq<char> {
    match after_last_slash(url) {
        Some(name) => name,
        None => FALLBACK_ARCHIVE_NAME@,
    }
}

/// The local file name of the archive at `url` (see [`spec_archive_file_name`]).
pub fn archive_file_name(url: &str) -> (r: String)
    ensures
        r@ == spec_archive_file_name(url@),
{
    match split_after_last_slash(url) {
        Some(name) => name,
        None => String::from_str(FALLBACK_ARCHIVE_NAME),
    }
}

} // verus!
