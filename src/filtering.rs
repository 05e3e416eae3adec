//! Keeping the projects that meet the size and age criteria.
//!
//! Times are whole seconds since the Unix epoch. The caller reads each build
//! directory's modification time and hands it in, `None` where it could not
//! be read.

use vstd::prelude::*;
use crate::config::FilterOptions;
use crate::project::{views, Project, ProjectView};
use crate::utils::size::{parse_size, size_value, upper_of, SizeError};

verus! {

/// Seconds in a day.
pub const SECONDS_PER_DAY: i64 = 86400;

/// A build directory modified at `modified` is at least `keep_days` days old
/// at `now`; one whose time could not be read always counts as old enough.
pub open spec fn old_enough(modified: Option<i64>, now: i64, keep_days: u32) -> bool {
    match modified {
        Some(m) => m as int <= now as int - keep_days as int * SECONDS_PER_DAY as int,
        None => true,
    }
}

/// The age criterion, which `keep_days == 0` turns off.
pub open spec fn meets_time(modified: Option<i64>, now: i64, keep_days: u32) -> bool {
    keep_days == 0 || old_enough(modified, now, keep_days)
}

/// Both criteria.
pub open spec fn keeps(p: ProjectView, modified: Option<i64>, min_size: u64, now: i64, keep_days: u32) -> bool {
    p.size >= min_size && meets_time(modified, now, keep_days)
}

/// The projects of `ps` that meet both criteria, in order; `mods[i]` is the
/// modification time of `ps[i]`'s build directory.
pub open spec fn kept(ps: Seq<ProjectView>, mods: Seq<Option<i64>>, min_size: u64, now: i64, keep_days: u32) -> Seq<ProjectView>
    decreases ps.len(),
{
    if ps.len() == 0 || mods.len() == 0 {
        Seq::empty()
    } else {
        let rest = kept(ps.drop_last(), mods.drop_last(), min_size, now, keep_days);
        if keeps(ps.last(), mods.last(), min_size, now, keep_days) {
            rest.push(ps.last())
        } else {
            rest
        }
    }
}

/// The size threshold that a size string gives.
pub open spec fn threshold(keep_size: Seq<char>) -> Result<u64, SizeError> {
    if keep_size == "0"@ {
        Ok(0)
    } else {
        size_value(upper_of(keep_size))
    }
}

/// What filtering yields: the threshold's parse error, or the kept projects.
pub open spec fn filter_outcome(
    ps: Seq<ProjectView>,
    mods: Seq<Option<i64>>,
    keep_size: Seq<char>,
    keep_days: u32,
    now: i64,
) -> Result<Seq<ProjectView>, SizeError> {
    match threshold(keep_size) {
        Ok(min) => Ok(kept(ps, mods, min, now, keep_days)),
        Err(e) => Err(e),
    }
}

/// Whether the project's build directory holds at least `min_size` bytes.
pub fn meets_size_criteria(project: &Project, min_size: u64) -> (r: bool)
    ensures
        r == (project.build_arts.size >= min_size),
{
    project.build_arts.size >= min_size
}

/// Whether a build directory modified at `modified` is at least `keep_days`
/// days old at `now`.
pub fn is_project_old_enough(modified: Option<i64>, now: i64, keep_days: u32) -> (r: bool)
    ensures
        r == old_enough(modified, now, keep_days),
{
    match modified {
        Some(m) => (m as i128) <= (now as i128) - (keep_days as i128) * (SECONDS_PER_DAY as i128),
        None => true,
    }
}

/// The age criterion.
pub fn meets_time_criteria(modified: Option<i64>, now: i64, keep_days: u32) -> (r: bool)
    ensures
        r == meets_time(modified, now, keep_days),
{
    if keep_days == 0 {
        return true;
    }
    is_project_old_enough(modified, now, keep_days)
}

/// The projects that meet both criteria, in order.
pub fn keep_matching(
    projects: Vec<Project>,
    modified: &Vec<Option<i64>>,
    min_size: u64,
    now: i64,
    keep_days: u32,
) -> (r: Vec<Project>)
    requires
        projects@.len() == modified@.len(),
    ensures
        views(r@) == kept(views(projects@), modified@, min_size, now, keep_days),
{
    let mut r: Vec<Project> = Vec::new();
    let mut i: usize = 0;
    while i < projects.len()
        invariant
            projects@.len() == modified@.len(),
            i <= projects@.len(),
            views(r@) == kept(views(projects@).take(i as int), modified@.take(i as int), min_size, now, keep_days),
        decreases projects@.len() - i,
    {
        let ghost before = r@;
        assert(views(projects@).take(i as int + 1).drop_last() =~= views(projects@).take(i as int));
        assert(modified@.take(i as int + 1).drop_last() =~= modified@.take(i as int));
        if meets_size_criteria(&projects[i], min_size) && meets_time_criteria(modified[i], now, keep_days) {
            let q = projects[i].duplicate();
            r.push(q);
            assert(views(r@) =~= views(before).push(q@));
        }
        i = i + 1;
    }
    assert(views(projects@).take(projects@.len() as int) =~= views(projects@));
    assert(modified@.take(modified@.len() as int) =~= modified@);
    r
}

/// Keeps the projects whose build directory holds at least `keep_size` bytes
/// and, unless `keep_days` is 0, was last modified at least `keep_days` days
/// before `now`; `modified[i]` is the time of `projects[i]`. Fails when
/// `keep_size` is no size.
pub fn filter_projects(
    projects: Vec<Project>,
    modified: &Vec<Option<i64>>,
    filter_opts: &FilterOptions,
    now: i64,
) -> (r: Result<Vec<Project>, SizeError>)
    requires
        projects@.len() == modified@.len(),
    ensures
        match r {
            Ok(v) => filter_outcome(views(projects@), modified@, filter_opts.keep_size@, filter_opts.keep_days, now)
                == Ok::<Seq<ProjectView>, SizeError>(views(v@)),
            Err(e) => filter_outcome(views(projects@), modified@, filter_opts.keep_size@, filter_opts.keep_days, now)
                == Err::<Seq<ProjectView>, SizeError>(e),
        },
{
    let min_size = parse_size(filter_opts.keep_size.as_str())?;
    Ok(keep_matching(projects, modified, min_size, now, filter_opts.keep_days))
}

/// With a size threshold of `"0"` and no age criterion, filtering keeps every
/// project, in order.
pub proof fn lemma_filter_zero_is_identity(ps: Seq<ProjectView>, mods: Seq<Option<i64>>, now: i64)
    requires
        ps.len() == mods.len(),
    ensures
        filter_outcome(ps, mods, "0"@, 0, now) == Ok::<Seq<ProjectView>, SizeError>(ps),
{
    lemma_kept_all(ps, mods, now);
}

proof fn lemma_kept_all(ps: Seq<ProjectView>, mods: Seq<Option<i64>>, now: i64)
    requires
        ps.len() == mods.len(),
    ensures
        kept(ps, mods, 0, now, 0) == ps,
    decreases ps.len(),
{
    if ps.len() > 0 {
        lemma_kept_all(ps.drop_last(), mods.drop_last(), now);
        assert(ps.drop_last().push(ps.last()) =~= ps);
    }
}

} // verus!
