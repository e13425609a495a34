use vstd::prelude::*;

verus! {

/// A path is absolute when it starts at the root directory.
pub open spec fn is_absolute(p: Seq<char>) -> bool {
    p.len() > 0 && p[0] == '/'
}

/// Joining a path onto a base: an absolute path replaces the base, a relative
/// one is appended after a single separator.
pub open spec fn join(base: Seq<char>, rel: Seq<char>) -> Seq<char> {
    if is_absolute(rel) {
        rel
    } else if base.len() == 0 || base.last() == '/' {
        base + rel
    } else {
        base + seq!['/'] + rel
    }
}

/// Whether `p` is `dir` itself or lies somewhere below it.
pub open spec fn is_within(dir: Seq<char>, p: Seq<char>) -> bool {
    p == dir || p.len() > dir.len() && p.subrange(0, dir.len() as int) == dir && (
    dir.len() == 0 || dir.last() == '/' || p[dir.len() as int] == '/')
}

/// Whether the path starts at the root directory.
pub fn path_is_absolute(p: &str) -> (r: bool)
    ensures
        r == is_absolute(p@),
{
    let n = p.unicode_len();
    n > 0 && p.get_char(0) == '/'
}

/// Joins `rel` onto `base` the way a file system path is extended.
pub fn join_path(base: &str, rel: &str) -> (r: String)
    ensures
        r@ == join(base@, rel@),
{
    if path_is_absolute(rel) {
        return String::from_str(rel);
    }
    let n = base.unicode_len();
    let mut r = String::from_str(base);
    if n > 0 && base.get_char(n - 1) != '/' {
        r.append("/");
    }
    r.append(rel);
    proof {
        reveal_strlit("/");
        if n > 0 && base@.last() != '/' {
            assert(r@ == base@ + seq!['/'] + rel@);
        }
    }
    r
}

} // verus!
