use clean_dev_dirs::cleaner::{
    clean_step, estimate_difference, summarize, CleanAction, CleanEvent, CleanOutcome, CleanPolicy, CleanState,
};
use clean_dev_dirs::project::{BuildArtifacts, Project, ProjectType};
use clean_dev_dirs::projects::Projects;

/// Runs one project's cleanup against scripted results.
fn run(policy: CleanPolicy, exists: bool, size: u64, preserved: bool, removed: bool) -> (Vec<CleanAction>, CleanAction) {
    let mut state = CleanState::Start;
    let mut event = CleanEvent::Begin;
    let mut actions = Vec::new();
    loop {
        let (next, action) = clean_step(policy, state, event);
        state = next;
        match action {
            CleanAction::CheckExists => event = CleanEvent::Exists(exists),
            CleanAction::Measure => event = CleanEvent::Measured(size),
            CleanAction::Preserve => event = CleanEvent::Preserved(preserved),
            CleanAction::Remove { .. } => event = CleanEvent::Removed(removed),
            CleanAction::Succeed(_) | CleanAction::Fail => return (actions, action),
        }
        actions.push(action);
    }
}

const PERMANENT: CleanPolicy = CleanPolicy { keep_executables: false, use_trash: false };
const KEEPING: CleanPolicy = CleanPolicy { keep_executables: true, use_trash: true };

#[test]
fn missing_build_directory_frees_nothing() {
    let (actions, end) = run(PERMANENT, false, 0, true, true);
    assert_eq!(actions, vec![CleanAction::CheckExists]);
    assert_eq!(end, CleanAction::Succeed(0));
}

#[test]
fn plain_clean_measures_then_removes() {
    let (actions, end) = run(PERMANENT, true, 500_000, true, true);
    assert_eq!(actions, vec![CleanAction::CheckExists, CleanAction::Measure, CleanAction::Remove { trash: false }]);
    assert_eq!(end, CleanAction::Succeed(500_000));
}

#[test]
fn keeping_executables_preserves_before_removing() {
    let (actions, end) = run(KEEPING, true, 42, true, true);
    assert_eq!(
        actions,
        vec![CleanAction::CheckExists, CleanAction::Measure, CleanAction::Preserve, CleanAction::Remove { trash: true }]
    );
    assert_eq!(end, CleanAction::Succeed(42));
}

#[test]
fn failed_preservation_keeps_the_build_directory() {
    let (actions, end) = run(KEEPING, true, 42, false, true);
    assert!(!actions.iter().any(|a| matches!(a, CleanAction::Remove { .. })));
    assert_eq!(end, CleanAction::Fail);
}

#[test]
fn failed_removal_fails_the_project() {
    let (_, end) = run(PERMANENT, true, 42, true, false);
    assert_eq!(end, CleanAction::Fail);
}

#[test]
fn unexpected_event_fails() {
    assert_eq!(clean_step(PERMANENT, CleanState::Start, CleanEvent::Removed(true)), (CleanState::Done, CleanAction::Fail));
}

#[test]
fn one_failure_is_isolated_in_the_batch() {
    let paths: Vec<String> = (0..4).map(|i| format!("/p/{i}/target")).collect();
    let outcomes = vec![
        CleanOutcome::Cleaned(100),
        CleanOutcome::Cleaned(200),
        CleanOutcome::Failed("permission denied".to_string()),
        CleanOutcome::Cleaned(300),
    ];
    let result = summarize(&paths, &outcomes);
    assert_eq!(result.succeeded_count, 3);
    assert_eq!(result.failed.len(), 1);
    assert_eq!(result.failed[0].path, "/p/2/target");
    assert_eq!(result.failed[0].reason, "permission denied");
    assert_eq!(result.total_bytes_freed, 600);
}

#[test]
fn end_to_end_clean_of_two_projects() {
    let paths = vec!["/t/rust-app/target".to_string(), "/t/web-app/node_modules".to_string()];
    let mut outcomes = Vec::new();
    for size in [500_000, 300_000] {
        match run(PERMANENT, true, size, true, true).1 {
            CleanAction::Succeed(n) => outcomes.push(CleanOutcome::Cleaned(n)),
            _ => outcomes.push(CleanOutcome::Failed("failed".to_string())),
        }
    }
    let result = summarize(&paths, &outcomes);
    assert_eq!(result.succeeded_count, 2);
    assert!(result.failed.is_empty());
    assert_eq!(result.total_bytes_freed, 800_000);
}

#[test]
fn total_freed_saturates() {
    let paths = vec!["a".to_string(), "b".to_string()];
    let outcomes = vec![CleanOutcome::Cleaned(u64::MAX), CleanOutcome::Cleaned(1)];
    assert_eq!(summarize(&paths, &outcomes).total_bytes_freed, u64::MAX);
}

#[test]
fn difference_from_estimate() {
    assert_eq!(estimate_difference(10, 10), None);
    assert_eq!(estimate_difference(10, 4), Some(6));
    assert_eq!(estimate_difference(4, 10), Some(6));
}

fn project(kind: ProjectType, size: u64) -> Project {
    Project::new(kind, "/r".to_string(), BuildArtifacts { path: "/r/x".to_string(), size }, None)
}

#[test]
fn projects_totals_by_kind() {
    let projects = Projects::from(vec![
        project(ProjectType::Rust, 10),
        project(ProjectType::Node, 5),
        project(ProjectType::Rust, 7),
    ]);
    assert_eq!(projects.len(), 3);
    assert!(!projects.is_empty());
    assert_eq!(projects.get_total_size(), 22);
    assert_eq!(projects.kind_summary(ProjectType::Rust), (2, 17));
    assert_eq!(projects.kind_summary(ProjectType::Go), (0, 0));
    let picked = projects.selected(&vec![2, 9, 0]);
    assert_eq!(picked.len(), 2);
    assert_eq!(picked[0].build_arts.size, 7);
    assert_eq!(picked[1].build_arts.size, 10);
}
