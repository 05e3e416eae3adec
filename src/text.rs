//! Character-level helpers over string views.
//!
//! A string is handled as its sequence of characters; ranges are given as a
//! half-open pair of character indices `[lo, hi)`.

use vstd::prelude::*;

verus! {

/// Unicode `White_Space`, the set that `str::trim` removes.
pub open spec fn is_space(c: char) -> bool {
    let n = c as u32;
    (0x9 <= n && n <= 0xd) || n == 0x20 || n == 0x85 || n == 0xa0 || n == 0x1680
        || (0x2000 <= n && n <= 0x200a) || n == 0x2028 || n == 0x2029 || n == 0x202f
        || n == 0x205f || n == 0x3000
}

pub fn is_space_char(c: char) -> (r: bool)
    ensures
        r == is_space(c),
{
    let n = c as u32;
    (0x9 <= n && n <= 0xd) || n == 0x20 || n == 0x85 || n == 0xa0 || n == 0x1680
        || (0x2000 <= n && n <= 0x200a) || n == 0x2028 || n == 0x2029 || n == 0x202f
        || n == 0x205f || n == 0x3000
}

/// First index in `[i, hi)` that holds no white space, or `hi`.
pub open spec fn skip_space(s: Seq<char>, i: int, hi: int) -> int
    decreases hi - i,
{
    if i < hi && is_space(s[i]) {
        skip_space(s, i + 1, hi)
    } else {
        i
    }
}

/// End of `[lo, j)` once trailing white space is dropped.
pub open spec fn back_space(s: Seq<char>, lo: int, j: int) -> int
    decreases j - lo,
{
    if lo < j && is_space(s[j - 1]) {
        back_space(s, lo, j - 1)
    } else {
        j
    }
}

/// Index of the first `c` in `[i, hi)`.
pub open spec fn find_char(s: Seq<char>, i: int, hi: int, c: char) -> Option<int>
    decreases hi - i,
{
    if i >= hi {
        None
    } else if s[i] == c {
        Some(i)
    } else {
        find_char(s, i + 1, hi, c)
    }
}

/// Index of the last `c` in `[lo, j)`.
pub open spec fn rfind_char(s: Seq<char>, lo: int, j: int, c: char) -> Option<int>
    decreases j - lo,
{
    if j <= lo {
        None
    } else if s[j - 1] == c {
        Some(j - 1)
    } else {
        rfind_char(s, lo, j - 1, c)
    }
}

/// `p` occurs in `s` at index `i`, without passing `hi`.
pub open spec fn occurs_at(s: Seq<char>, i: int, hi: int, p: Seq<char>) -> bool {
    0 <= i && i + p.len() <= hi && hi <= s.len() && s.subrange(i, i + p.len()) == p
}

/// `p` occurs somewhere inside `[lo, hi)`.
pub open spec fn occurs_in(s: Seq<char>, lo: int, hi: int, p: Seq<char>) -> bool {
    exists|k: int| lo <= k && #[trigger] occurs_at(s, k, hi, p)
}

/// End of the line that starts at `i`: the index of the next `'\n'`, or the length.
pub open spec fn line_end(s: Seq<char>, i: int) -> int
    decreases s.len() - i,
{
    if i >= s.len() || s[i] == '\n' {
        i
    } else {
        line_end(s, i + 1)
    }
}

/// The characters of `s`, in order.
pub fn chars_of(s: &str) -> (r: Vec<char>)
    ensures
        r@ == s@,
{
    let mut r: Vec<char> = Vec::new();
    for c in it: s.chars()
        invariant
            r@ == it.seq().take(it.index() as int),
    {
        r.push(c);
    }
    r
}

/// Whether two strings hold the same characters.
pub fn text_eq(a: &str, b: &str) -> (r: bool)
    ensures
        r == (a@ == b@),
{
    let x = chars_of(a);
    let y = chars_of(b);
    if x.len() != y.len() {
        return false;
    }
    let mut k: usize = 0;
    while k < x.len()
        invariant
            x@ == a@,
            y@ == b@,
            x@.len() == y@.len(),
            k <= x@.len(),
            forall|m: int| 0 <= m < k ==> x@[m] == y@[m],
        decreases x@.len() - k,
    {
        if x[k] != y[k] {
            return false;
        }
        k = k + 1;
    }
    assert(x@ =~= y@);
    true
}

/// The text of `s` between character indices `lo` and `hi`.
pub fn slice_text(s: &str, lo: usize, hi: usize) -> (r: String)
    requires
        lo <= hi <= s@.len(),
    ensures
        r@ == s@.subrange(lo as int, hi as int),
{
    s.substring_char(lo, hi).to_owned()
}

pub fn skip_space_exec(s: &Vec<char>, i: usize, hi: usize) -> (r: usize)
    requires
        i <= hi <= s@.len(),
    ensures
        r == skip_space(s@, i as int, hi as int),
        i <= r <= hi,
{
    let mut k = i;
    while k < hi && is_space_char(s[k])
        invariant
            i <= k <= hi <= s@.len(),
            skip_space(s@, k as int, hi as int) == skip_space(s@, i as int, hi as int),
        decreases hi - k,
    {
        k = k + 1;
    }
    k
}

pub fn back_space_exec(s: &Vec<char>, lo: usize, j: usize) -> (r: usize)
    requires
        lo <= j <= s@.len(),
    ensures
        r == back_space(s@, lo as int, j as int),
        lo <= r <= j,
{
    let mut k = j;
    while lo < k && is_space_char(s[k - 1])
        invariant
            lo <= k <= j <= s@.len(),
            back_space(s@, lo as int, k as int) == back_space(s@, lo as int, j as int),
        decreases k - lo,
    {
        k = k - 1;
    }
    k
}

pub fn find_char_exec(s: &Vec<char>, i: usize, hi: usize, c: char) -> (r: Option<usize>)
    requires
        i <= hi <= s@.len(),
    ensures
        r matches Some(k) ==> find_char(s@, i as int, hi as int, c) == Some(k as int) && i <= k < hi,
        r is None ==> find_char(s@, i as int, hi as int, c) is None,
{
    let mut k = i;
    while k < hi
        invariant
            i <= k <= hi <= s@.len(),
            find_char(s@, k as int, hi as int, c) == find_char(s@, i as int, hi as int, c),
        decreases hi - k,
    {
        if s[k] == c {
            return Some(k);
        }
        k = k + 1;
    }
    None
}

pub fn rfind_char_exec(s: &Vec<char>, lo: usize, j: usize, c: char) -> (r: Option<usize>)
    requires
        lo <= j <= s@.len(),
    ensures
        r matches Some(k) ==> rfind_char(s@, lo as int, j as int, c) == Some(k as int) && lo <= k < j,
        r is None ==> rfind_char(s@, lo as int, j as int, c) is None,
{
    let mut k = j;
    while lo < k
        invariant
            lo <= k <= j <= s@.len(),
            rfind_char(s@, lo as int, k as int, c) == rfind_char(s@, lo as int, j as int, c),
        decreases k - lo,
    {
        if s[k - 1] == c {
            return Some(k - 1);
        }
        k = k - 1;
    }
    None
}

pub fn occurs_at_exec(s: &Vec<char>, i: usize, hi: usize, p: &Vec<char>) -> (r: bool)
    requires
        i <= hi <= s@.len(),
    ensures
        r == occurs_at(s@, i as int, hi as int, p@),
{
    if p.len() > hi - i {
        return false;
    }
    let mut k: usize = 0;
    while k < p.len()
        invariant
            i + p@.len() <= hi <= s@.len(),
            k <= p@.len(),
            forall|m: int| 0 <= m < k ==> s@[i + m] == p@[m],
        decreases p@.len() - k,
    {
        if s[i + k] != p[k] {
            assert(s@.subrange(i as int, i + p@.len())[k as int] != p@[k as int]);
            return false;
        }
        k = k + 1;
    }
    assert(s@.subrange(i as int, i + p@.len()) =~= p@);
    true
}

pub fn occurs_in_exec(s: &Vec<char>, lo: usize, hi: usize, p: &Vec<char>) -> (r: bool)
    requires
        lo <= hi <= s@.len(),
    ensures
        r == occurs_in(s@, lo as int, hi as int, p@),
{
    let mut k = lo;
    while k < hi
        invariant
            lo <= k <= hi <= s@.len(),
            forall|m: int| lo <= m < k ==> !occurs_at(s@, m, hi as int, p@),
        decreases hi - k,
    {
        if occurs_at_exec(s, k, hi, p) {
            return true;
        }
        k = k + 1;
    }
    if occurs_at_exec(s, hi, hi, p) {
        return true;
    }
    assert forall|m: int| lo <= m implies !#[trigger] occurs_at(s@, m, hi as int, p@) by {
        if m > hi {
            assert(!occurs_at(s@, m, hi as int, p@));
        }
    }
    false
}

pub fn line_end_exec(s: &Vec<char>, i: usize) -> (r: usize)
    requires
        i <= s@.len(),
    ensures
        r == line_end(s@, i as int),
        i <= r <= s@.len(),
{
    let mut k = i;
    while k < s.len() && s[k] != '\n'
        invariant
            i <= k <= s@.len(),
            line_end(s@, k as int) == line_end(s@, i as int),
        decreases s@.len() - k,
    {
        k = k + 1;
    }
    k
}

} // verus!
