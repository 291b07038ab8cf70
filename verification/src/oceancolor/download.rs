//! What a download needs beside the transport: the credential header and the
//! name under which the downloaded file is kept.

use crate::text::{chars_of, substring};
use vstd::prelude::*;

verus! {

/// The value of the header that carries a basic credential.
pub open spec fn basic_credential(token: Seq<char>) -> Seq<char> {
    "Basic "@ + token
}

/// The value of the header that carries the basic credential `token`.
pub fn authorization_value(token: &str) -> (value: String)
    ensures
        value@ == basic_credential(token@),
{
    String::from_str("Basic ").concat(token)
}

/// Offset behind the last `/` of `path`, or 0 where it holds none.
pub open spec fn after_last_slash(path: Seq<char>) -> int
    decreases path.len(),
{
    if path.len() == 0 {
        0
    } else if path.last() == '/' {
        path.len() as int
    } else {
        after_last_slash(path.drop_last())
    }
}

/// The file name a URL path ends with: what follows its last `/`. A path that
/// does not begin with `/` has no segments, and an empty last segment is no
/// file name.
pub open spec fn file_name_of(path: Seq<char>) -> Option<Seq<char>> {
    if path.len() == 0 || path[0] != '/' || after_last_slash(path) == path.len() {
        None
    } else {
        Some(path.skip(after_last_slash(path)))
    }
}

proof fn lemma_after_last_slash(path: Seq<char>, k: int)
    requires
        0 <= k <= path.len(),
        forall|j: int| k <= j < path.len() ==> path[j] != '/',
        k == 0 || path[k - 1] == '/',
    ensures
        after_last_slash(path) == k,
    decreases path.len() - k,
{
    if k < path.len() {
        lemma_after_last_slash(path.drop_last(), k);
    }
}

/// The file name that the path of a URL ends with.
pub fn file_name(path: &str) -> (name: Option<String>)
    ensures
        match name {
            Some(name) => file_name_of(path@) == Some(name@),
            None => file_name_of(path@) is None,
        },
{
    let chars = chars_of(path);
    if chars.len() == 0 || chars[0] != '/' {
        return None;
    }
    let mut start: usize = chars.len();
    while start > 0 && chars[start - 1] != '/'
        invariant
            start <= chars@.len(),
            forall|j: int| start <= j < chars@.len() ==> chars@[j] != '/',
        decreases start,
    {
        start -= 1;
    }
    proof {
        lemma_after_last_slash(chars@, start as int);
    }
    if start == chars.len() {
        return None;
    }
    Some(substring(&chars, start, chars.len()))
}

} // verus!
