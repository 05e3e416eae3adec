//! A collection of detected projects.

use vstd::prelude::*;
use crate::cleaner::capped;
use crate::project::{views, Project, ProjectType, ProjectView};

verus! {

/// Total build-directory bytes of `ps`.
pub open spec fn total_size(ps: Seq<ProjectView>) -> nat
    decreases ps.len(),
{
    if ps.len() == 0 {
        0
    } else {
        total_size(ps.drop_last()) + ps.last().size as nat
    }
}

/// The projects of `ps` that are of `kind`, in order.
pub open spec fn of_kind(ps: Seq<ProjectView>, kind: ProjectType) -> Seq<ProjectView>
    decreases ps.len(),
{
    if ps.len() == 0 {
        Seq::empty()
    } else if ps.last().kind == kind {
        of_kind(ps.drop_last(), kind).push(ps.last())
    } else {
        of_kind(ps.drop_last(), kind)
    }
}

/// The projects of `ps` at the positions `picks` that lie inside `ps`, in the
/// order of `picks`.
pub open spec fn picked(ps: Seq<ProjectView>, picks: Seq<usize>) -> Seq<ProjectView>
    decreases picks.len(),
{
    if picks.len() == 0 {
        Seq::empty()
    } else if picks.last() < ps.len() {
        picked(ps, picks.drop_last()).push(ps[picks.last() as int])
    } else {
        picked(ps, picks.drop_last())
    }
}

/// An ordered collection of projects.
#[derive(Debug)]
pub struct Projects(pub Vec<Project>);

impl View for Projects {
    type V = Seq<ProjectView>;

    open spec fn view(&self) -> Seq<ProjectView> {
        views(self.0@)
    }
}

impl From<Vec<Project>> for Projects {
    fn from(projects: Vec<Project>) -> (r: Projects) {
        Projects(projects)
    }
}

impl vstd::std_specs::convert::FromSpecImpl<Vec<Project>> for Projects {
    open spec fn obeys_from_spec() -> bool {
        true
    }

    open spec fn from_spec(v: Vec<Project>) -> Projects {
        Projects(v)
    }
}

impl Projects {
    /// Number of projects.
    pub fn len(&self) -> (r: usize)
        ensures
            r == self@.len(),
    {
        self.0.len()
    }

    /// Whether there are no projects.
    pub fn is_empty(&self) -> (r: bool)
        ensures
            r == (self@.len() == 0),
    {
        self.0.len() == 0
    }

    /// The projects, in order.
    pub fn into_vec(self) -> (r: Vec<Project>)
        ensures
            r == self.0,
    {
        self.0
    }

    /// Total size of all build directories, capped at `u64::MAX`.
    pub fn get_total_size(&self) -> (r: u64)
        ensures
            r == capped(total_size(self@)),
    {
        let mut total: u64 = 0;
        let mut i: usize = 0;
        while i < self.0.len()
            invariant
                i <= self@.len(),
                self@ == views(self.0@),
                total == capped(total_size(self@.take(i as int))),
            decreases self@.len() - i,
        {
            assert(self@.take(i as int + 1).drop_last() =~= self@.take(i as int));
            total = total.saturating_add(self.0[i].build_arts.size);
            i = i + 1;
        }
        assert(self@.take(self@.len() as int) =~= self@);
        total
    }

    /// Number of projects of `kind` and the total size of their build
    /// directories, capped at `u64::MAX`.
    pub fn kind_summary(&self, kind: ProjectType) -> (r: (usize, u64))
        ensures
            r.0 == of_kind(self@, kind).len(),
            r.1 == capped(total_size(of_kind(self@, kind))),
    {
        let mut count: usize = 0;
        let mut total: u64 = 0;
        let mut i: usize = 0;
        while i < self.0.len()
            invariant
                i <= self@.len(),
                self@ == views(self.0@),
                count == of_kind(self@.take(i as int), kind).len(),
                count <= i,
                total == capped(total_size(of_kind(self@.take(i as int), kind))),
            decreases self@.len() - i,
        {
            let ghost prefix = self@.take(i as int + 1);
            assert(prefix.drop_last() =~= self@.take(i as int));
            if self.0[i].kind == kind {
                assert(of_kind(prefix, kind).drop_last() =~= of_kind(self@.take(i as int), kind));
                count = count + 1;
                total = total.saturating_add(self.0[i].build_arts.size);
            }
            i = i + 1;
        }
        assert(self@.take(self@.len() as int) =~= self@);
        (count, total)
    }

    /// The projects at the positions `picks`, in the order of `picks`;
    /// positions past the end are passed over.
    pub fn selected(&self, picks: &Vec<usize>) -> (r: Vec<Project>)
        ensures
            views(r@) == picked(self@, picks@),
    {
        let mut r: Vec<Project> = Vec::new();
        let mut i: usize = 0;
        while i < picks.len()
            invariant
                i <= picks@.len(),
                self@ == views(self.0@),
                views(r@) == picked(self@, picks@.take(i as int)),
            decreases picks@.len() - i,
        {
            let ghost prefix = picks@.take(i as int + 1);
            let ghost before = r@;
            assert(prefix.drop_last() =~= picks@.take(i as int));
            let k = picks[i];
            if k < self.0.len() {
                let q = self.0[k].duplicate();
                r.push(q);
                assert(views(r@) =~= views(before).push(q@));
            }
            i = i + 1;
        }
        assert(picks@.take(picks@.len() as int) =~= picks@);
        r
    }
}

} // verus!
