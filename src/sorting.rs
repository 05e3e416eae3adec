//! Ordering projects for display.
//!
//! Projects are ordered by a chosen key; ties keep the order they came in, and
//! the whole order may be reversed.

use vstd::prelude::*;
use crate::project::{views, Project, ProjectType, ProjectView};
use crate::text::{chars_of, text_eq};

verus! {

/// What projects are ordered by.
#[derive(Clone, Copy, Debug, PartialEq, Eq, Structural)]
pub enum SortKey {
    /// Largest build directory first.
    Size,
    /// Least recently modified build directory first; unknown times last.
    Age,
    /// By name (the root path for projects without one), character by character.
    Name,
    /// By ecosystem: Rust, Node, Python, Go.
    Type,
}

/// The key that a sort criterion names: `size`, `age`, `name` or `type`.
pub open spec fn key_named(text: Seq<char>) -> Option<SortKey> {
    if text == "size"@ {
        Some(SortKey::Size)
    } else if text == "age"@ {
        Some(SortKey::Age)
    } else if text == "name"@ {
        Some(SortKey::Name)
    } else if text == "type"@ {
        Some(SortKey::Type)
    } else {
        None
    }
}

impl SortKey {
    /// The key that a sort criterion names, if it names one.
    pub fn from_name(text: &str) -> (r: Option<SortKey>)
        ensures
            r == key_named(text@),
    {
        if text_eq(text, "size") {
            Some(SortKey::Size)
        } else if text_eq(text, "age") {
            Some(SortKey::Age)
        } else if text_eq(text, "name") {
            Some(SortKey::Name)
        } else if text_eq(text, "type") {
            Some(SortKey::Type)
        } else {
            None
        }
    }
}

/// -1, 0 or 1 as `a` is below, equal to or above `b`.
pub open spec fn int_cmp(a: int, b: int) -> int {
    if a < b {
        -1
    } else if a > b {
        1
    } else {
        0
    }
}

/// Character-by-character comparison of two texts, a prefix first.
pub open spec fn text_cmp(a: Seq<char>, b: Seq<char>) -> int
    decreases a.len(),
{
    if a.len() == 0 && b.len() == 0 {
        0
    } else if a.len() == 0 {
        -1
    } else if b.len() == 0 {
        1
    } else if a[0] != b[0] {
        int_cmp(a[0] as u32 as int, b[0] as u32 as int)
    } else {
        text_cmp(a.drop_first(), b.drop_first())
    }
}

pub open spec fn type_rank(k: ProjectType) -> int {
    match k {
        ProjectType::Rust => 0,
        ProjectType::Node => 1,
        ProjectType::Python => 2,
        ProjectType::Go => 3,
    }
}

/// The text that name order compares.
pub open spec fn name_text(p: ProjectView) -> Seq<char> {
    match p.name {
        Some(n) => n,
        None => p.root_path,
    }
}

pub open spec fn age_cmp(a: Option<i64>, b: Option<i64>) -> int {
    match (a, b) {
        (Some(x), Some(y)) => int_cmp(x as int, y as int),
        (Some(_), None) => -1,
        (None, Some(_)) => 1,
        (None, None) => 0,
    }
}

/// How project `a` (modified at `ma`) compares with `b` (modified at `mb`) under `key`.
pub open spec fn key_cmp(key: SortKey, a: ProjectView, ma: Option<i64>, b: ProjectView, mb: Option<i64>) -> int {
    match key {
        SortKey::Size => int_cmp(b.size as int, a.size as int),
        SortKey::Age => age_cmp(ma, mb),
        SortKey::Name => text_cmp(name_text(a), name_text(b)),
        SortKey::Type => int_cmp(type_rank(a.kind), type_rank(b.kind)),
    }
}

/// Position `i` of `ps` goes before position `j`: its key is smaller, or the
/// keys tie and it came first.
pub open spec fn goes_before(ps: Seq<ProjectView>, ms: Seq<Option<i64>>, key: SortKey, i: int, j: int) -> bool {
    let c = key_cmp(key, ps[i], ms[i], ps[j], ms[j]);
    c < 0 || (c == 0 && i < j)
}

/// `order` lists each position of `ps` once, each before the next.
pub open spec fn sorted_order(ps: Seq<ProjectView>, ms: Seq<Option<i64>>, key: SortKey, order: Seq<usize>) -> bool {
    &&& order.len() == ps.len()
    &&& forall|i: int| 0 <= i < order.len() ==> (#[trigger] order[i] as int) < ps.len()
    &&& forall|i: int, j: int| 0 <= i < j < order.len() ==> order[i] != order[j]
    &&& forall|i: int|
        0 <= i < order.len() - 1 ==> #[trigger] goes_before(ps, ms, key, order[i] as int, order[i + 1] as int)
}

/// The projects of `ps` in the order `order`, or its reverse.
pub open spec fn arranged(ps: Seq<ProjectView>, order: Seq<usize>, reverse: bool) -> Seq<ProjectView> {
    let o = if reverse {
        order.reverse()
    } else {
        order
    };
    o.map_values(|i: usize| ps[i as int])
}

proof fn lemma_text_cmp_antisym(a: Seq<char>, b: Seq<char>)
    ensures
        text_cmp(a, b) == -text_cmp(b, a),
    decreases a.len(),
{
    if a.len() > 0 && b.len() > 0 && a[0] == b[0] {
        lemma_text_cmp_antisym(a.drop_first(), b.drop_first());
    }
}

proof fn lemma_key_cmp_antisym(key: SortKey, a: ProjectView, ma: Option<i64>, b: ProjectView, mb: Option<i64>)
    ensures
        key_cmp(key, a, ma, b, mb) == -key_cmp(key, b, mb, a, ma),
        -1 <= key_cmp(key, a, ma, b, mb) <= 1,
{
    lemma_text_cmp_antisym(name_text(a), name_text(b));
    lemma_text_cmp_range(name_text(a), name_text(b));
}

proof fn lemma_text_cmp_range(a: Seq<char>, b: Seq<char>)
    ensures
        -1 <= text_cmp(a, b) <= 1,
    decreases a.len(),
{
    if a.len() > 0 && b.len() > 0 && a[0] == b[0] {
        lemma_text_cmp_range(a.drop_first(), b.drop_first());
    }
}

fn text_cmp_exec(a: &str, b: &str) -> (r: i8)
    ensures
        r as int == text_cmp(a@, b@),
{
    let x = chars_of(a);
    let y = chars_of(b);
    assert(x@.skip(0) =~= x@);
    assert(y@.skip(0) =~= y@);
    let mut i: usize = 0;
    while i < x.len() && i < y.len() && x[i] == y[i]
        invariant
            x@ == a@,
            y@ == b@,
            i <= x@.len(),
            i <= y@.len(),
            text_cmp(x@.skip(i as int), y@.skip(i as int)) == text_cmp(a@, b@),
        decreases x@.len() - i,
    {
        assert(x@.skip(i as int).drop_first() =~= x@.skip(i as int + 1));
        assert(y@.skip(i as int).drop_first() =~= y@.skip(i as int + 1));
        i = i + 1;
    }
    proof {
        if i < x@.len() {
            assert(x@.skip(i as int)[0] == x@[i as int]);
        }
        if i < y@.len() {
            assert(y@.skip(i as int)[0] == y@[i as int]);
        }
    }
    if i == x.len() && i == y.len() {
        0
    } else if i == x.len() {
        -1
    } else if i == y.len() {
        1
    } else if (x[i] as u32) < (y[i] as u32) {
        -1
    } else if (x[i] as u32) > (y[i] as u32) {
        1
    } else {
        0
    }
}

fn int_cmp_u64(a: u64, b: u64) -> (r: i8)
    ensures
        r as int == int_cmp(a as int, b as int),
{
    if a < b {
        -1
    } else if a > b {
        1
    } else {
        0
    }
}

fn rank(k: ProjectType) -> (r: u8)
    ensures
        r as int == type_rank(k),
{
    match k {
        ProjectType::Rust => 0,
        ProjectType::Node => 1,
        ProjectType::Python => 2,
        ProjectType::Go => 3,
    }
}

fn name_of(p: &Project) -> (r: &str)
    ensures
        r@ == name_text(p@),
{
    match &p.name {
        Some(n) => n.as_str(),
        None => p.root_path.as_str(),
    }
}

fn compare(key: SortKey, a: &Project, ma: Option<i64>, b: &Project, mb: Option<i64>) -> (r: i8)
    ensures
        r as int == key_cmp(key, a@, ma, b@, mb),
{
    match key {
        SortKey::Size => int_cmp_u64(b.build_arts.size, a.build_arts.size),
        SortKey::Age => match (ma, mb) {
            (Some(x), Some(y)) => if x < y {
                -1
            } else if x > y {
                1
            } else {
                0
            },
            (Some(_), None) => -1,
            (None, Some(_)) => 1,
            (None, None) => 0,
        },
        SortKey::Name => text_cmp_exec(name_of(a), name_of(b)),
        SortKey::Type => {
            let x = rank(a.kind);
            let y = rank(b.kind);
            if x < y {
                -1
            } else if x > y {
                1
            } else {
                0
            }
        },
    }
}

fn before_exec(projects: &Vec<Project>, modified: &Vec<Option<i64>>, key: SortKey, i: usize, j: usize) -> (r: bool)
    requires
        projects@.len() == modified@.len(),
        i < projects@.len(),
        j < projects@.len(),
    ensures
        r == goes_before(views(projects@), modified@, key, i as int, j as int),
{
    let c = compare(key, &projects[i], modified[i], &projects[j], modified[j]);
    c < 0 || (c == 0 && i < j)
}

fn insert_position(projects: &Vec<Project>, modified: &Vec<Option<i64>>, key: SortKey, order: &Vec<usize>, k: usize) -> (p: usize)
    requires
        projects@.len() == modified@.len(),
        k < projects@.len(),
        forall|i: int| 0 <= i < order@.len() ==> (#[trigger] order@[i] as int) < projects@.len(),
    ensures
        p <= order@.len(),
        forall|q: int| 0 <= q < p ==> !#[trigger] goes_before(views(projects@), modified@, key, k as int, order@[q] as int),
        p < order@.len() ==> goes_before(views(projects@), modified@, key, k as int, order@[p as int] as int),
{
    let mut p: usize = 0;
    while p < order.len()
        invariant
            projects@.len() == modified@.len(),
            k < projects@.len(),
            forall|i: int| 0 <= i < order@.len() ==> (#[trigger] order@[i] as int) < projects@.len(),
            p <= order@.len(),
            forall|q: int| 0 <= q < p ==> !#[trigger] goes_before(views(projects@), modified@, key, k as int, order@[q] as int),
        decreases order@.len() - p,
    {
        if before_exec(projects, modified, key, k, order[p]) {
            return p;
        }
        p = p + 1;
    }
    p
}

/// The positions of `projects` in sorted order: by `key`, ties in the
/// order they came in; `modified[i]` is the modification time of `projects[i]`.
pub fn sort_order(projects: &Vec<Project>, modified: &Vec<Option<i64>>, key: SortKey) -> (r: Vec<usize>)
    requires
        projects@.len() == modified@.len(),
    ensures
        sorted_order(views(projects@), modified@, key, r@),
{
    let ghost ps = views(projects@);
    let ghost ms = modified@;
    let mut order: Vec<usize> = Vec::new();
    let mut k: usize = 0;
    while k < projects.len()
        invariant
            projects@.len() == modified@.len(),
            ps == views(projects@),
            ms == modified@,
            k <= projects@.len(),
            order@.len() == k,
            forall|i: int| 0 <= i < order@.len() ==> (#[trigger] order@[i] as int) < k,
            forall|i: int, j: int| 0 <= i < j < order@.len() ==> order@[i] != order@[j],
            forall|i: int|
                0 <= i < order@.len() - 1 ==> #[trigger] goes_before(ps, ms, key, order@[i] as int, order@[i + 1] as int),
        decreases projects@.len() - k,
    {
        let p = insert_position(projects, modified, key, &order, k);
        let ghost old_order = order@;
        proof {
            if p > 0 {
                let a = old_order[p - 1] as int;
                assert(a < k);
                assert(!goes_before(ps, ms, key, k as int, old_order[p - 1] as int));
                lemma_key_cmp_antisym(key, ps[k as int], ms[k as int], ps[a], ms[a]);
                assert(goes_before(ps, ms, key, a, k as int));
            }
        }
        order.insert(p, k);
        proof {
            assert forall|i: int| 0 <= i < order@.len() - 1 implies #[trigger] goes_before(
                ps,
                ms,
                key,
                order@[i] as int,
                order@[i + 1] as int,
            ) by {
                if i + 1 < p {
                    assert(order@[i] == old_order[i] && order@[i + 1] == old_order[i + 1]);
                    assert(goes_before(ps, ms, key, old_order[i] as int, old_order[i + 1] as int));
                } else if i + 1 == p {
                    assert(order@[i] == old_order[p - 1] && order@[i + 1] == k);
                } else if i == p {
                    assert(order@[i] == k && order@[i + 1] == old_order[p as int]);
                } else {
                    let j = i - 1;
                    assert(order@[i] == old_order[j] && order@[i + 1] == old_order[j + 1]);
                    assert(goes_before(ps, ms, key, old_order[j] as int, old_order[j + 1] as int));
                }
            }
            assert forall|i: int, j: int| 0 <= i < j < order@.len() implies order@[i] != order@[j] by {
                if i < p && j < p {
                } else if i < p && j == p {
                    assert(order@[i] == old_order[i]);
                } else if i < p {
                    assert(order@[i] == old_order[i] && order@[j] == old_order[j - 1]);
                } else if i == p {
                    assert(order@[j] == old_order[j - 1]);
                } else {
                    assert(order@[i] == old_order[i - 1] && order@[j] == old_order[j - 1]);
                }
            }
            assert forall|i: int| 0 <= i < order@.len() implies (#[trigger] order@[i] as int) < k + 1 by {
                if i < p {
                    assert(order@[i] == old_order[i]);
                } else if i > p {
                    assert(order@[i] == old_order[i - 1]);
                }
            }
        }
        k = k + 1;
    }
    order
}

/// The projects ordered by `key`, ties in the order they came in, reversed
/// when `reverse` is set; `modified[i]` is the modification time of
/// `projects[i]`.
pub fn sort_projects(projects: &Vec<Project>, modified: &Vec<Option<i64>>, key: SortKey, reverse: bool) -> (r: Vec<Project>)
    requires
        projects@.len() == modified@.len(),
    ensures
        exists|order: Seq<usize>|
            sorted_order(views(projects@), modified@, key, order) && views(r@) == arranged(views(projects@), order, reverse),
{
    let order = sort_order(projects, modified, key);
    let ghost ps = views(projects@);
    let ghost o = if reverse {
        order@.reverse()
    } else {
        order@
    };
    let n = order.len();
    let mut r: Vec<Project> = Vec::new();
    let mut i: usize = 0;
    while i < n
        invariant
            n == order@.len(),
            n == projects@.len(),
            ps == views(projects@),
            sorted_order(ps, modified@, key, order@),
            o == (if reverse {
                order@.reverse()
            } else {
                order@
            }),
            i <= n,
            views(r@) == o.take(i as int).map_values(|j: usize| ps[j as int]),
        decreases n - i,
    {
        let j = if reverse {
            order[n - 1 - i]
        } else {
            order[i]
        };
        assert(j == o[i as int]);
        let ghost before = r@;
        let q = projects[j].duplicate();
        r.push(q);
        assert(views(r@) =~= o.take(i as int + 1).map_values(|j: usize| ps[j as int])) by {
            assert(views(r@) =~= views(before).push(q@));
        }
        i = i + 1;
    }
    assert(o.take(n as int) =~= o);
    assert(views(r@) == arranged(ps, order@, reverse));
    r
}

} // verus!
