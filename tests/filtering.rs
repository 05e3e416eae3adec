use clean_dev_dirs::config::FilterOptions;
use clean_dev_dirs::filtering::{
    filter_projects, is_project_old_enough, meets_size_criteria, meets_time_criteria,
};
use clean_dev_dirs::project::{BuildArtifacts, Project, ProjectType};
use clean_dev_dirs::utils::size::SizeError;

fn create_test_project(kind: ProjectType, root_path: &str, build_path: &str, size: u64, name: Option<String>) -> Project {
    Project::new(kind, root_path.to_string(), BuildArtifacts { path: build_path.to_string(), size }, name)
}

#[test]
fn filtering_test_meets_size_criteria() {
    let project = create_test_project(ProjectType::Rust, "/test", "/test/target", 1_000_000, Some("test".to_string()));

    assert!(meets_size_criteria(&project, 500_000));
    assert!(meets_size_criteria(&project, 1_000_000));
    assert!(!meets_size_criteria(&project, 2_000_000));
}

#[test]
fn filtering_test_meets_time_criteria_disabled() {
    let _project = create_test_project(ProjectType::Rust, "/test", "/test/target", 1_000_000, Some("test".to_string()));

    // With keep_days 0 the criterion holds whatever the modification time.
    assert!(meets_time_criteria(Some(i64::MAX), 0, 0));
    assert!(meets_time_criteria(None, 0, 0));
}

#[test]
fn main_test_meets_size_criteria() {
    let project = create_test_project(ProjectType::Rust, "/test", "/test/target", 1_000_000, Some("test".to_string()));

    assert!(meets_size_criteria(&project, 500_000));
    assert!(meets_size_criteria(&project, 1_000_000));
    assert!(!meets_size_criteria(&project, 2_000_000));
}

#[test]
fn main_test_meets_time_criteria_disabled() {
    let _project = create_test_project(ProjectType::Rust, "/test", "/test/target", 1_000_000, Some("test".to_string()));

    assert!(meets_time_criteria(Some(1_700_000_000), 1_700_000_000, 0));
}

#[test]
fn main_test_filter_options_creation() {
    let filter_opts = FilterOptions { keep_size: "100MB".to_string(), keep_days: 30 };

    assert_eq!(filter_opts.keep_size, "100MB");
    assert_eq!(filter_opts.keep_days, 30);
}

#[test]
fn age_criterion_counts_whole_days() {
    let now = 1_700_000_000;
    let day = 86_400;
    assert!(is_project_old_enough(Some(now - 7 * day), now, 7));
    assert!(!is_project_old_enough(Some(now - 7 * day + 1), now, 7));
    assert!(is_project_old_enough(None, now, 7));
    assert!(!meets_time_criteria(Some(now), now, 1));
    assert!(meets_time_criteria(Some(i64::MIN), i64::MIN, u32::MAX) == false);
}

fn two_projects() -> Vec<Project> {
    vec![
        create_test_project(ProjectType::Rust, "/p/a", "/p/a/target", 500_000, Some("a".to_string())),
        create_test_project(ProjectType::Node, "/p/b", "/p/b/node_modules", 300_000, Some("b".to_string())),
    ]
}

#[test]
fn filter_with_zero_criteria_keeps_everything() {
    let opts = FilterOptions { keep_size: "0".to_string(), keep_days: 0 };
    let kept = filter_projects(two_projects(), &vec![Some(0), None], &opts, 0).unwrap();
    assert_eq!(kept.len(), 2);
    assert_eq!(kept[0].root_path, "/p/a");
    assert_eq!(kept[1].root_path, "/p/b");
}

#[test]
fn filter_with_size_threshold_keeps_the_larger_project() {
    let opts = FilterOptions { keep_size: "400KB".to_string(), keep_days: 0 };
    let kept = filter_projects(two_projects(), &vec![None, None], &opts, 0).unwrap();
    assert_eq!(kept.len(), 1);
    assert_eq!(kept[0].kind, ProjectType::Rust);
    assert_eq!(kept[0].build_arts.size, 500_000);
}

#[test]
fn filter_with_age_keeps_old_and_unreadable() {
    let now = 1_700_000_000;
    let opts = FilterOptions { keep_size: "0".to_string(), keep_days: 30 };
    let kept = filter_projects(two_projects(), &vec![Some(now - 86_400), None], &opts, now).unwrap();
    assert_eq!(kept.len(), 1);
    assert_eq!(kept[0].root_path, "/p/b");
}

#[test]
fn filter_rejects_bad_threshold() {
    let opts = FilterOptions { keep_size: "lots".to_string(), keep_days: 0 };
    assert_eq!(filter_projects(two_projects(), &vec![None, None], &opts, 0).unwrap_err(), SizeError::InvalidNumber);
}

#[test]
fn filter_at_extreme_times() {
    let opts = FilterOptions { keep_size: "400KB".to_string(), keep_days: 0 };
    let kept = filter_projects(two_projects(), &vec![None, None], &opts, i64::MIN).unwrap();
    assert_eq!(kept.len(), 1);
    let opts = FilterOptions { keep_size: "0".to_string(), keep_days: 1 };
    let kept = filter_projects(two_projects(), &vec![Some(0), Some(i64::MAX)], &opts, 1_700_000_000).unwrap();
    assert_eq!(kept.len(), 1);
    assert_eq!(kept[0].root_path, "/p/a");
}
