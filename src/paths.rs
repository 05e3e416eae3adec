//! Paths as text, joined with `/`.

use vstd::prelude::*;

verus! {

/// `base` followed by the relative name `name`, as `Path::join` forms it on
/// Unix: with one `/` between them unless `base` is empty or already ends in `/`.
pub open spec fn path_join(base: Seq<char>, name: Seq<char>) -> Seq<char> {
    if base.len() == 0 {
        name
    } else if base.last() == '/' {
        base + name
    } else {
        base + seq!['/'] + name
    }
}

/// Joins the relative name `name` onto `base`.
pub fn join(base: &str, name: &str) -> (r: String)
    ensures
        r@ == path_join(base@, name@),
{
    let n = base.unicode_len();
    if n == 0 {
        return name.to_owned();
    }
    let last = base.get_char(n - 1);
    let head = base.to_owned();
    if last == '/' {
        head.concat(name)
    } else {
        let sep = head.concat("/");
        proof {
            reveal_strlit("/");
        }
        sep.concat(name)
    }
}

/// A joined path starts with its base.
pub proof fn lemma_join_extends(base: Seq<char>, name: Seq<char>)
    ensures
        path_join(base, name).len() >= base.len(),
        path_join(base, name).subrange(0, base.len() as int) == base,
{
    if base.len() == 0 {
    } else if base.last() == '/' {
        assert((base + name).subrange(0, base.len() as int) =~= base);
    } else {
        assert((base + seq!['/'] + name).subrange(0, base.len() as int) =~= base);
    }
}

} // verus!
