//! Joining of `/`-separated path strings.

use vstd::prelude::*;
use vstd::string::*;

verus! {

/// A path is rooted when it starts at the root directory.
pub open spec fn is_rooted(path: Seq<char>) -> bool {
    path.len() > 0 && path[0] == '/'
}

/// A base needs a separator before a component can follow it, unless it is
/// empty or already ends in one.
pub open spec fn needs_separator(base: Seq<char>) -> bool {
    base.len() > 0 && base.last() != '/'
}

/// The base as a prefix under which components can be placed directly.
pub open spec fn dir_prefix(base: Seq<char>) -> Seq<char> {
    if needs_separator(base) {
        base.push('/')
    } else {
        base
    }
}

/// The path that names `child` seen from `base`: a rooted child stands for
/// itself, any other child is placed under the base.
pub open spec fn joined(base: Seq<char>, child: Seq<char>) -> Seq<char> {
    if is_rooted(child) {
        child
    } else {
        dir_prefix(base) + child
    }
}

/// Joins `child` onto `base`.
pub fn join(base: &str, child: &str) -> (path: String)
    ensures
        path@ == joined(base@, child@),
{
    if !child.is_empty() && child.get_char(0) == '/' {
        return String::from_str(child);
    }
    let mut path = String::from_str(base);
    let n: usize = base.unicode_len();
    if n > 0 && base.get_char(n - 1) != '/' {
        proof {
            reveal_strlit("/");
            assert("/"@ =~= seq!['/']);
        }
        path.append("/");
        assert(path@ =~= base@.push('/'));
    }
    path.append(child);
    path
}

} // verus!
