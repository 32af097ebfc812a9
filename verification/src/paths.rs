//! Path joining for mount targets and device paths.

use vstd::prelude::*;
use vstd::string::StringExecFns;

verus! {

/// The sequence of characters of `base`, a separator, and `name`.
pub open spec fn joined(base: Seq<char>, name: Seq<char>) -> Seq<char> {
    base + "/"@ + name
}

/// Joins a path component under a base path with a single separator.
pub fn join_under(base: &str, name: &str) -> (r: String)
    ensures
        r@ == joined(base@, name@),
{
    let mut r = base.to_owned();
    r.append("/");
    r.append(name);
    r
}

} // verus!
