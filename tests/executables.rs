use clean_dev_dirs::executables::{keep_copied, output_dirs, preserve_executables, CandidateFile};
use clean_dev_dirs::project::{BuildArtifacts, Project, ProjectType};

const ROOT: &str = "/tmp/project";

fn create_test_project(kind: ProjectType) -> Project {
    let build_dir = match kind {
        ProjectType::Rust => "target",
        ProjectType::Python => "__pycache__",
        ProjectType::Node => "node_modules",
        ProjectType::Go => "vendor",
    };
    Project::new(
        kind,
        ROOT.to_string(),
        BuildArtifacts { path: format!("{ROOT}/{build_dir}"), size: 0 },
        Some("test-project".to_string()),
    )
}

fn file(rel_path: &str, mode: Option<u32>) -> CandidateFile {
    CandidateFile { rel_path: rel_path.to_string(), mode }
}

#[test]
fn test_preserve_rust_executables_unix() {
    let project = create_test_project(ProjectType::Rust);
    let release = vec![
        file("my-binary", Some(0o755)),
        file("my-binary.d", Some(0o644)),
    ];
    let result = preserve_executables(&project, &vec![release, vec![]]);

    assert_eq!(result.len(), 1);
    assert_eq!(result[0].destination, format!("{ROOT}/bin/release/my-binary"));
    assert_eq!(result[0].source, format!("{ROOT}/target/release/my-binary"));
}

#[test]
fn test_preserve_rust_executables_windows() {
    let project = create_test_project(ProjectType::Rust);
    let release = vec![file("my-binary.exe", None), file("my-binary.d", None)];
    let result = preserve_executables(&project, &vec![release, vec![]]);

    assert_eq!(result.len(), 1);
    assert_eq!(result[0].destination, format!("{ROOT}/bin/release/my-binary.exe"));
}

#[test]
fn test_preserve_rust_skips_non_executable_unix() {
    let project = create_test_project(ProjectType::Rust);
    let release = vec![file("some-file", Some(0o644))];
    let result = preserve_executables(&project, &vec![release, vec![]]);
    assert!(result.is_empty());
}

#[test]
fn test_preserve_rust_skips_non_executable_windows() {
    let project = create_test_project(ProjectType::Rust);
    let release = vec![file("some-file.txt", None)];
    let result = preserve_executables(&project, &vec![release, vec![]]);
    assert!(result.is_empty());
}

#[test]
fn test_node_is_noop() {
    let project = create_test_project(ProjectType::Node);
    assert!(output_dirs(&project).is_empty());
    let result = preserve_executables(&project, &vec![]);
    assert!(result.is_empty());
}

#[test]
fn test_go_is_noop() {
    let project = create_test_project(ProjectType::Go);
    assert!(output_dirs(&project).is_empty());
    let result = preserve_executables(&project, &vec![]);
    assert!(result.is_empty());
}

#[test]
fn test_preserve_rust_no_profile_dirs() {
    let project = create_test_project(ProjectType::Rust);
    let result = preserve_executables(&project, &vec![vec![], vec![]]);
    assert!(result.is_empty());
}

#[test]
fn rust_output_dirs_are_the_profiles() {
    let dirs = output_dirs(&create_test_project(ProjectType::Rust));
    assert_eq!(dirs.len(), 2);
    assert_eq!(dirs[0].path, format!("{ROOT}/target/release"));
    assert!(!dirs[0].recursive);
    assert_eq!(dirs[1].path, format!("{ROOT}/target/debug"));
}

#[test]
fn rust_metadata_is_never_preserved() {
    let project = create_test_project(ProjectType::Rust);
    let debug = vec![
        file("libx.rlib", Some(0o755)),
        file("libx.so", Some(0o755)),
        file("tool", Some(0o100)),
        file(".hidden", Some(0o755)),
    ];
    let result = preserve_executables(&project, &vec![vec![], debug]);
    assert_eq!(result.len(), 2);
    assert_eq!(result[0].destination, format!("{ROOT}/bin/debug/tool"));
    assert_eq!(result[1].destination, format!("{ROOT}/bin/debug/.hidden"));
}

#[test]
fn python_wheels_and_extensions_go_to_bin() {
    let project = create_test_project(ProjectType::Python);
    let dirs = output_dirs(&project);
    assert_eq!(dirs[0].path, format!("{ROOT}/dist"));
    assert_eq!(dirs[1].path, format!("{ROOT}/build"));
    assert!(dirs[1].recursive);
    let dist = vec![file("pkg-1.0-py3-none-any.whl", None), file("pkg-1.0.tar.gz", None)];
    let build = vec![file("lib/pkg/fast.so", None), file("lib/pkg/fast.pyd", None), file("x.py", None)];
    let result = preserve_executables(&project, &vec![dist, build]);
    assert_eq!(result.len(), 3);
    assert_eq!(result[0].destination, format!("{ROOT}/bin/pkg-1.0-py3-none-any.whl"));
    assert_eq!(result[1].destination, format!("{ROOT}/bin/fast.so"));
    assert_eq!(result[1].source, format!("{ROOT}/build/lib/pkg/fast.so"));
    assert_eq!(result[2].destination, format!("{ROOT}/bin/fast.pyd"));
}

#[test]
fn preserving_twice_gives_the_same_destinations() {
    let project = create_test_project(ProjectType::Rust);
    let listing = || vec![vec![file("app", Some(0o755))], vec![]];
    let first = preserve_executables(&project, &listing());
    let second = preserve_executables(&project, &listing());
    assert_eq!(first.len(), 1);
    assert_eq!(first[0].destination, second[0].destination);
}

#[test]
fn only_successful_copies_are_kept() {
    let project = create_test_project(ProjectType::Rust);
    let release = vec![file("a", Some(0o755)), file("b", Some(0o755))];
    let planned = preserve_executables(&project, &vec![release, vec![]]);
    let kept = keep_copied(planned, &vec![false, true]);
    assert_eq!(kept.len(), 1);
    assert_eq!(kept[0].destination, format!("{ROOT}/bin/release/b"));
}

#[test]
fn end_to_end_preserves_one_executable_and_not_the_rlib() {
    let project = create_test_project(ProjectType::Rust);
    let release = vec![file("my-app", Some(0o755)), file("libmy_app.rlib", Some(0o644))];
    let planned = preserve_executables(&project, &vec![release, vec![]]);
    let preserved = keep_copied(planned, &vec![true]);
    assert_eq!(preserved.len(), 1);
    assert_eq!(preserved[0].destination, format!("{ROOT}/bin/release/my-app"));
}
