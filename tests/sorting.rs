use clean_dev_dirs::project::{BuildArtifacts, Project, ProjectType};
use clean_dev_dirs::sorting::{sort_order, sort_projects, SortKey};

fn project(kind: ProjectType, root: &str, size: u64, name: Option<&str>) -> Project {
    Project::new(
        kind,
        root.to_string(),
        BuildArtifacts { path: format!("{root}/build"), size },
        name.map(|n| n.to_string()),
    )
}

fn sample() -> Vec<Project> {
    vec![
        project(ProjectType::Go, "/r/a", 10, Some("zeta")),
        project(ProjectType::Rust, "/r/b", 30, None),
        project(ProjectType::Node, "/r/c", 30, Some("alpha")),
        project(ProjectType::Rust, "/r/d", 20, Some("beta")),
    ]
}

fn roots(ps: &[Project]) -> Vec<&str> {
    ps.iter().map(|p| p.root_path.as_str()).collect()
}

#[test]
fn size_sorts_largest_first_keeping_ties_in_order() {
    let ps = sample();
    let sorted = sort_projects(&ps, &vec![None; 4], SortKey::Size, false);
    assert_eq!(roots(&sorted), vec!["/r/b", "/r/c", "/r/d", "/r/a"]);
    let reversed = sort_projects(&ps, &vec![None; 4], SortKey::Size, true);
    assert_eq!(roots(&reversed), vec!["/r/a", "/r/d", "/r/c", "/r/b"]);
}

#[test]
fn name_sorts_by_name_or_root() {
    let sorted = sort_projects(&sample(), &vec![None; 4], SortKey::Name, false);
    assert_eq!(roots(&sorted), vec!["/r/b", "/r/c", "/r/d", "/r/a"]);
}

#[test]
fn type_sorts_by_ecosystem() {
    let sorted = sort_projects(&sample(), &vec![None; 4], SortKey::Type, false);
    assert_eq!(roots(&sorted), vec!["/r/b", "/r/d", "/r/c", "/r/a"]);
}

#[test]
fn age_sorts_oldest_first_unknown_last() {
    let mods = vec![Some(300), None, Some(100), Some(200)];
    assert_eq!(sort_order(&sample(), &mods, SortKey::Age), vec![2, 3, 0, 1]);
}

#[test]
fn sort_key_names() {
    assert_eq!(SortKey::from_name("size"), Some(SortKey::Size));
    assert_eq!(SortKey::from_name("age"), Some(SortKey::Age));
    assert_eq!(SortKey::from_name("name"), Some(SortKey::Name));
    assert_eq!(SortKey::from_name("type"), Some(SortKey::Type));
    assert_eq!(SortKey::from_name("Size"), None);
}
