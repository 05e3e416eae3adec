use clean_dev_dirs::config::file::{config_file_path, expand_tilde, expand_tilde_with, FileConfig};
use clean_dev_dirs::config::{ExecutionOptions, FilterOptions, ProjectFilter};
use clean_dev_dirs::sorting::SortKey;

#[test]
fn test_execution_options_creation() {
    let exec_opts = ExecutionOptions { dry_run: true, interactive: false };

    assert!(exec_opts.dry_run);
    assert!(!exec_opts.interactive);
}

#[test]
fn execution_test_execution_options_clone() {
    let original = ExecutionOptions { dry_run: true, interactive: false };
    let cloned = original.clone();

    assert_eq!(original.dry_run, cloned.dry_run);
    assert_eq!(original.interactive, cloned.interactive);
}

#[test]
fn filter_test_project_filter_equality() {
    assert_eq!(ProjectFilter::All, ProjectFilter::All);
    assert_eq!(ProjectFilter::Rust, ProjectFilter::Rust);
    assert_eq!(ProjectFilter::Node, ProjectFilter::Node);
    assert_eq!(ProjectFilter::Python, ProjectFilter::Python);
    assert_eq!(ProjectFilter::Go, ProjectFilter::Go);

    assert_ne!(ProjectFilter::All, ProjectFilter::Rust);
    assert_ne!(ProjectFilter::Rust, ProjectFilter::Node);
    assert_ne!(ProjectFilter::Node, ProjectFilter::Python);
    assert_ne!(ProjectFilter::Python, ProjectFilter::Go);
}

#[test]
fn filter_test_project_filter_copy() {
    let original = ProjectFilter::Rust;
    let copied = original;

    assert_eq!(original, copied);
}

#[test]
fn test_project_filter_default() {
    let default_filter = ProjectFilter::default();
    assert_eq!(default_filter, ProjectFilter::All);
}

#[test]
fn filter_test_filter_options_creation() {
    let filter_opts = FilterOptions { keep_size: "100MB".to_string(), keep_days: 30 };

    assert_eq!(filter_opts.keep_size, "100MB");
    assert_eq!(filter_opts.keep_days, 30);
}

#[test]
fn filter_test_filter_options_clone() {
    let original = FilterOptions { keep_size: "100MB".to_string(), keep_days: 30 };
    let cloned = original.clone();

    assert_eq!(original.keep_size, cloned.keep_size);
    assert_eq!(original.keep_days, cloned.keep_days);
}

#[test]
fn test_default_file_config() {
    let config = FileConfig::default();

    assert!(config.project_type.is_none());
    assert!(config.dir.is_none());
    assert!(config.filtering.keep_size.is_none());
    assert!(config.filtering.keep_days.is_none());
    assert!(config.filtering.sort.is_none());
    assert!(config.filtering.reverse.is_none());
    assert!(config.scanning.threads.is_none());
    assert!(config.scanning.verbose.is_none());
    assert!(config.scanning.skip.is_none());
    assert!(config.scanning.ignore.is_none());
    assert!(config.execution.keep_executables.is_none());
    assert!(config.execution.interactive.is_none());
    assert!(config.execution.dry_run.is_none());
    assert!(config.execution.use_trash.is_none());
}

#[test]
fn test_config_path_returns_expected_suffix() {
    let path = FileConfig::config_path();
    if let Some(p) = path {
        assert!(p.ends_with("clean-dev-dirs/config.toml"));
    }
}

#[test]
fn test_expand_tilde_with_home() {
    let expanded = expand_tilde("~/Projects");

    if let Some(home) = dirs::home_dir() {
        assert_eq!(std::path::PathBuf::from(expanded), home.join("Projects"));
    }
}

#[test]
fn test_expand_tilde_absolute_path_unchanged() {
    let expanded = expand_tilde("/absolute/path");
    assert_eq!(expanded, "/absolute/path");
}

#[test]
fn test_expand_tilde_relative_path_unchanged() {
    let expanded = expand_tilde("relative/path");
    assert_eq!(expanded, "relative/path");
}

#[test]
fn test_expand_tilde_bare() {
    let expanded = expand_tilde("~");

    if let Some(home) = dirs::home_dir() {
        assert_eq!(std::path::PathBuf::from(expanded), home);
    }
}

#[test]
fn expand_tilde_with_given_home() {
    let home = Some("/home/me".to_string());
    assert_eq!(expand_tilde_with("~", home.clone()), "/home/me");
    assert_eq!(expand_tilde_with("~/", home.clone()), "/home/me");
    assert_eq!(expand_tilde_with("~/Projects", home.clone()), "/home/me/Projects");
    assert_eq!(expand_tilde_with("~//a/b", home.clone()), "/home/me/a/b");
    assert_eq!(expand_tilde_with("~other/x", home.clone()), "~other/x");
    assert_eq!(expand_tilde_with("~/Projects", None), "~/Projects");
}

#[test]
fn file_settings_under_command_line_flags() {
    let mut config = FileConfig::default();
    let p = config.clean_policy(false, false);
    assert!(!p.keep_executables);
    assert!(p.use_trash);

    config.execution.use_trash = Some(false);
    config.execution.keep_executables = Some(true);
    let p = config.clean_policy(false, false);
    assert!(p.keep_executables);
    assert!(!p.use_trash);

    config.execution.use_trash = Some(true);
    assert!(!config.clean_policy(false, true).use_trash);
}

#[test]
fn file_sort_order() {

    let mut config = FileConfig::default();
    assert_eq!(config.sort_order(), (SortKey::Size, false));
    config.filtering.sort = Some("age".to_string());
    config.filtering.reverse = Some(true);
    assert_eq!(config.sort_order(), (SortKey::Age, true));
    config.filtering.sort = Some("bogus".to_string());
    assert_eq!(config.sort_order(), (SortKey::Size, true));
}

#[test]
fn config_file_in_directory() {
    assert_eq!(config_file_path("/home/me/.config"), "/home/me/.config/clean-dev-dirs/config.toml");
    assert_eq!(config_file_path("/cfg/"), "/cfg/clean-dev-dirs/config.toml");
}
