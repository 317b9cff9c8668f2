//! Path composition on plain strings, with `/` as the separator.

use vstd::prelude::*;
use vstd::string::StringExecFns;
use crate::text::chars_of;

verus! {

/// A path is absolute when it starts at the root.
pub open spec fn is_absolute(path: Seq<char>) -> bool {
    path.len() > 0 && path[0] == '/'
}

/// `name` resolved against `base`: an absolute `name` stands alone; otherwise it
/// follows `base`, with one separator between them unless `base` is empty or
/// already ends in one.
pub open spec fn joined(base: Seq<char>, name: Seq<char>) -> Seq<char> {
    if is_absolute(name) {
        name
    } else if base.len() == 0 || base.last() == '/' {
        base + name
    } else {
        base + seq!['/'] + name
    }
}

/// Resolves `name` against `base`.
pub fn join(base: &str, name: &str) -> (r: String)
    ensures
        r@ == joined(base@, name@),
{
    let head = chars_of(base);
    let tail = chars_of(name);
    if tail.len() > 0 && tail[0] == '/' {
        String::from_str(name)
    } else if head.len() == 0 || head[head.len() - 1] == '/' {
        String::from_str(base).concat(name)
    } else {
        proof {
            reveal_strlit("/");
            assert("/"@ =~= seq!['/']);
        }
        String::from_str(base).concat("/").concat(name)
    }
}

} // verus!
