//! Build-directory cleanup decisions.
//!
//! Each project is cleaned by a small state machine: the caller performs the
//! action that [`clean_step`] names and reports what happened as the next
//! event. Projects are independent; their outcomes are gathered into a
//! [`CleanResult`] by [`summarize`].

use vstd::prelude::*;

verus! {

/// How build directories are removed.
#[derive(Clone, Copy, Debug, PartialEq, Eq, Structural)]
pub struct CleanPolicy {
    /// Copy compiled outputs out of the build directory before removing it.
    pub keep_executables: bool,
    /// Move the build directory to the platform trash instead of deleting it.
    pub use_trash: bool,
}

/// Where the cleanup of one project stands.
#[derive(Clone, Copy, Debug, PartialEq, Eq, Structural)]
pub enum CleanState {
    /// Nothing has been done yet.
    Start,
    /// Waiting to learn whether the build directory exists.
    Checking,
    /// Waiting for the build directory's current size.
    Measuring,
    /// Waiting for the outputs to be preserved; the build directory holds this many bytes.
    Preserving(u64),
    /// Waiting for the removal; the build directory holds this many bytes.
    Removing(u64),
    /// Finished.
    Done,
}

/// What the caller reports.
#[derive(Clone, Copy, Debug, PartialEq, Eq, Structural)]
pub enum CleanEvent {
    /// Cleanup of the project begins.
    Begin,
    /// Whether the build directory exists.
    Exists(bool),
    /// The build directory's current size in bytes.
    Measured(u64),
    /// Whether every planned copy of an output was made.
    Preserved(bool),
    /// Whether the build directory was removed.
    Removed(bool),
}

/// What the caller does next.
#[derive(Clone, Copy, Debug, PartialEq, Eq, Structural)]
pub enum CleanAction {
    /// Check whether the build directory exists.
    CheckExists,
    /// Measure the build directory.
    Measure,
    /// Copy the project's outputs out of the build directory.
    Preserve,
    /// Remove the build directory, through the trash or for good.
    Remove { trash: bool },
    /// The project is done and freed this many bytes.
    Succeed(u64),
    /// The project is done and failed, for the reason that the last step gave.
    Fail,
}

/// The next state and action of one project's cleanup.
pub open spec fn next_step(policy: CleanPolicy, state: CleanState, event: CleanEvent) -> (CleanState, CleanAction) {
    match (state, event) {
        (CleanState::Start, CleanEvent::Begin) => (CleanState::Checking, CleanAction::CheckExists),
        (CleanState::Checking, CleanEvent::Exists(false)) => (CleanState::Done, CleanAction::Succeed(0)),
        (CleanState::Checking, CleanEvent::Exists(true)) => (CleanState::Measuring, CleanAction::Measure),
        (CleanState::Measuring, CleanEvent::Measured(n)) => if policy.keep_executables {
            (CleanState::Preserving(n), CleanAction::Preserve)
        } else {
            (CleanState::Removing(n), CleanAction::Remove { trash: policy.use_trash })
        },
        (CleanState::Preserving(n), CleanEvent::Preserved(true)) => (
            CleanState::Removing(n),
            CleanAction::Remove { trash: policy.use_trash },
        ),
        (CleanState::Removing(n), CleanEvent::Removed(true)) => (CleanState::Done, CleanAction::Succeed(n)),
        _ => (CleanState::Done, CleanAction::Fail),
    }
}

/// One step of a project's cleanup: a missing build directory frees nothing;
/// otherwise it is measured, its outputs are preserved when the policy asks
/// for it, and it is removed. A failed preservation or removal fails the
/// project, and so does an event that does not fit the state.
pub fn clean_step(policy: CleanPolicy, state: CleanState, event: CleanEvent) -> (r: (CleanState, CleanAction))
    ensures
        r == next_step(policy, state, event),
{
    match (state, event) {
        (CleanState::Start, CleanEvent::Begin) => (CleanState::Checking, CleanAction::CheckExists),
        (CleanState::Checking, CleanEvent::Exists(false)) => (CleanState::Done, CleanAction::Succeed(0)),
        (CleanState::Checking, CleanEvent::Exists(true)) => (CleanState::Measuring, CleanAction::Measure),
        (CleanState::Measuring, CleanEvent::Measured(n)) => if policy.keep_executables {
            (CleanState::Preserving(n), CleanAction::Preserve)
        } else {
            (CleanState::Removing(n), CleanAction::Remove { trash: policy.use_trash })
        },
        (CleanState::Preserving(n), CleanEvent::Preserved(true)) => (
            CleanState::Removing(n),
            CleanAction::Remove { trash: policy.use_trash },
        ),
        (CleanState::Removing(n), CleanEvent::Removed(true)) => (CleanState::Done, CleanAction::Succeed(n)),
        _ => (CleanState::Done, CleanAction::Fail),
    }
}

/// When executables are kept, a build directory is removed only right after
/// its outputs were all preserved.
pub proof fn lemma_preserve_before_remove(policy: CleanPolicy, state: CleanState, event: CleanEvent)
    requires
        policy.keep_executables,
        next_step(policy, state, event).1 is Remove,
    ensures
        state is Preserving,
        event == CleanEvent::Preserved(true),
{
}

/// How the cleanup of one project ended.
#[derive(Clone, Debug)]
pub enum CleanOutcome {
    /// The build directory is gone; this many bytes were freed.
    Cleaned(u64),
    /// The project could not be cleaned, for this reason.
    Failed(String),
}

/// A project that could not be cleaned.
#[derive(Clone, Debug)]
pub struct FailedClean {
    /// The project's build directory.
    pub path: String,
    /// Why it failed.
    pub reason: String,
}

/// The outcome of a batch of cleanups.
#[derive(Clone, Debug)]
pub struct CleanResult {
    /// Bytes freed by the projects that were cleaned, capped at `u64::MAX`.
    pub total_bytes_freed: u64,
    /// Number of projects that were cleaned.
    pub succeeded_count: usize,
    /// The projects that failed, in order.
    pub failed: Vec<FailedClean>,
}

/// Bytes freed by the outcomes `os`.
pub open spec fn freed_sum(os: Seq<CleanOutcome>) -> nat
    decreases os.len(),
{
    if os.len() == 0 {
        0
    } else {
        freed_sum(os.drop_last()) + match os.last() {
            CleanOutcome::Cleaned(n) => n as nat,
            CleanOutcome::Failed(_) => 0,
        }
    }
}

/// Number of the outcomes `os` that are successes.
pub open spec fn success_count(os: Seq<CleanOutcome>) -> nat
    decreases os.len(),
{
    if os.len() == 0 {
        0
    } else {
        success_count(os.drop_last()) + if os.last() is Cleaned {
            1nat
        } else {
            0nat
        }
    }
}

/// The failures among the outcomes `os`, each with the path of its project.
pub open spec fn failures(paths: Seq<String>, os: Seq<CleanOutcome>) -> Seq<(Seq<char>, Seq<char>)>
    decreases os.len(),
{
    if os.len() == 0 || paths.len() == 0 {
        Seq::empty()
    } else {
        let rest = failures(paths.drop_last(), os.drop_last());
        match os.last() {
            CleanOutcome::Failed(reason) => rest.push((paths.last()@, reason@)),
            CleanOutcome::Cleaned(_) => rest,
        }
    }
}

pub open spec fn failed_views(fs: Seq<FailedClean>) -> Seq<(Seq<char>, Seq<char>)> {
    fs.map_values(|f: FailedClean| (f.path@, f.reason@))
}

pub open spec fn capped(n: nat) -> u64 {
    if n <= u64::MAX {
        n as u64
    } else {
        u64::MAX
    }
}

proof fn lemma_success_bound(os: Seq<CleanOutcome>)
    ensures
        success_count(os) <= os.len(),
    decreases os.len(),
{
    if os.len() > 0 {
        lemma_success_bound(os.drop_last());
    }
}

proof fn lemma_counts_add_up(paths: Seq<String>, os: Seq<CleanOutcome>)
    requires
        paths.len() == os.len(),
    ensures
        success_count(os) + failures(paths, os).len() == os.len(),
    decreases os.len(),
{
    if os.len() > 0 {
        lemma_counts_add_up(paths.drop_last(), os.drop_last());
    }
}

/// Gathers the outcomes of a batch: `outcomes[i]` is the outcome of the
/// project whose build directory is `paths[i]`.
pub fn summarize(paths: &Vec<String>, outcomes: &Vec<CleanOutcome>) -> (r: CleanResult)
    requires
        paths@.len() == outcomes@.len(),
    ensures
        r.succeeded_count == success_count(outcomes@),
        failed_views(r.failed@) == failures(paths@, outcomes@),
        r.total_bytes_freed == capped(freed_sum(outcomes@)),
        r.succeeded_count + r.failed@.len() == outcomes@.len(),
{
    let mut total: u64 = 0;
    let mut count: usize = 0;
    let mut failed: Vec<FailedClean> = Vec::new();
    let mut i: usize = 0;
    while i < outcomes.len()
        invariant
            paths@.len() == outcomes@.len(),
            i <= outcomes@.len(),
            count == success_count(outcomes@.take(i as int)),
            total == capped(freed_sum(outcomes@.take(i as int))),
            failed_views(failed@) == failures(paths@.take(i as int), outcomes@.take(i as int)),
        decreases outcomes@.len() - i,
    {
        let ghost before = failed@;
        assert(outcomes@.take(i as int + 1).drop_last() =~= outcomes@.take(i as int));
        assert(paths@.take(i as int + 1).drop_last() =~= paths@.take(i as int));
        proof {
            lemma_success_bound(outcomes@.take(i as int));
        }
        match &outcomes[i] {
            CleanOutcome::Cleaned(n) => {
                total = total.saturating_add(*n);
                count = count + 1;
            },
            CleanOutcome::Failed(reason) => {
                let f = FailedClean { path: paths[i].clone(), reason: reason.clone() };
                failed.push(f);
                assert(failed_views(failed@) =~= failed_views(before).push((f.path@, f.reason@)));
            },
        }
        i = i + 1;
    }
    assert(outcomes@.take(outcomes@.len() as int) =~= outcomes@);
    assert(paths@.take(paths@.len() as int) =~= paths@);
    proof {
        lemma_counts_add_up(paths@, outcomes@);
    }
    CleanResult { total_bytes_freed: total, succeeded_count: count, failed }
}

/// When exactly one project of a batch fails, the others are unaffected: the
/// batch has one success fewer than projects, a single failure naming the
/// failed project, and the bytes freed by all the other projects.
pub proof fn lemma_failure_is_isolated(paths: Seq<String>, os: Seq<CleanOutcome>, k: int)
    requires
        paths.len() == os.len(),
        0 <= k < os.len(),
        os[k] is Failed,
        forall|j: int| 0 <= j < os.len() && j != k ==> #[trigger] os[j] is Cleaned,
    ensures
        success_count(os) == os.len() - 1,
        failures(paths, os) == seq![(paths[k]@, os[k]->Failed_0@)],
        freed_sum(os) == freed_sum(os.remove(k)),
        forall|j: int| 0 <= j < os.remove(k).len() ==> #[trigger] os.remove(k)[j] is Cleaned,
    decreases os.len(),
{
    let n = os.len();
    if k == n - 1 {
        lemma_all_cleaned(paths.drop_last(), os.drop_last());
        assert(os.remove(k) =~= os.drop_last());
    } else {
        lemma_failure_is_isolated(paths.drop_last(), os.drop_last(), k);
        assert(os.remove(k).drop_last() =~= os.drop_last().remove(k));
        assert(os.remove(k).last() == os.last());
    }
}

proof fn lemma_all_cleaned(paths: Seq<String>, os: Seq<CleanOutcome>)
    requires
        paths.len() == os.len(),
        forall|j: int| 0 <= j < os.len() ==> #[trigger] os[j] is Cleaned,
    ensures
        success_count(os) == os.len(),
        failures(paths, os) == Seq::<(Seq<char>, Seq<char>)>::empty(),
    decreases os.len(),
{
    if os.len() > 0 {
        lemma_all_cleaned(paths.drop_last(), os.drop_last());
    }
}

/// How far the bytes freed are from the estimate, when they differ.
pub fn estimate_difference(estimate: u64, freed: u64) -> (r: Option<u64>)
    ensures
        estimate == freed ==> r is None,
        estimate > freed ==> r == Some((estimate - freed) as u64),
        estimate < freed ==> r == Some((freed - estimate) as u64),
{
    if estimate == freed {
        None
    } else if estimate > freed {
        Some(estimate - freed)
    } else {
        Some(freed - estimate)
    }
}

/// Handles the cleanup of build directories.
pub struct Cleaner;

impl Cleaner {
    /// A cleaner.
    pub fn new() -> (r: Cleaner) {
        Cleaner
    }
}

impl Default for Cleaner {
    fn default() -> (r: Cleaner) {
        Cleaner::new()
    }
}

} // verus!
