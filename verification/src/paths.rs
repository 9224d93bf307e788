//! A plain-string model of filesystem paths: grammar roots, source
//! directories and artifact locations are `String`s joined with `/`.

use vstd::prelude::*;
use vstd::string::StringExecFns;

verus! {

/// The single path-separator convention used throughout the library.
pub open spec fn path_sep() -> Seq<char> {
    "/"@
}

/// `a` and `b` joined by the path separator.
pub open spec fn path_join(a: Seq<char>, b: Seq<char>) -> Seq<char> {
    a + path_sep() + b
}

/// Join a directory and a child name with `/`.
pub fn join_path(base: &str, child: &str) -> (r: String)
    ensures
        r@ == path_join(base@, child@),
{
    let mut s = base.to_owned();
    s.append("/");
    s.append(child);
    s
}

} // verus!
