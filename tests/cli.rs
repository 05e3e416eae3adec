use clap::{Arg, ArgAction, Command};
use clean_dev_dirs::config::ProjectFilter as Ecosystems;
use clean_dev_dirs::cli::{
    Cli, ExecutionArgs, ExecutionOptions, FilterOptions, FilteringArgs, ProjectFilter, ProjectTypeArgs,
    ScanOptions, ScanningArgs,
};

fn flag(id: &'static str, long: &'static str) -> Arg {
    Arg::new(id).long(long).action(ArgAction::SetTrue)
}

/// Parses a command line into the library's options.
fn parse_from(args: &[&str]) -> Cli {
    let matches = Command::new("clean-dev-dirs")
        .arg(Arg::new("dir").default_value("."))
        .arg(flag("rust_only", "rust-only").conflicts_with_all(["node_only", "python_only", "go_only"]))
        .arg(flag("node_only", "node-only").conflicts_with_all(["rust_only", "python_only", "go_only"]))
        .arg(flag("python_only", "python-only").conflicts_with_all(["rust_only", "node_only", "go_only"]))
        .arg(flag("go_only", "go-only").conflicts_with_all(["rust_only", "node_only", "python_only"]))
        .arg(flag("yes", "yes").short('y'))
        .arg(flag("dry_run", "dry-run"))
        .arg(flag("interactive", "interactive").short('i'))
        .arg(flag("keep_executables", "keep-executables"))
        .arg(flag("permanent", "permanent"))
        .arg(Arg::new("keep_size").short('s').long("keep-size").default_value("0"))
        .arg(Arg::new("keep_days").short('d').long("keep-days").default_value("0"))
        .arg(Arg::new("threads").short('t').long("threads").default_value("0"))
        .arg(flag("verbose", "verbose").short('v'))
        .arg(Arg::new("ignore").long("ignore").action(ArgAction::Append))
        .arg(Arg::new("skip").long("skip").action(ArgAction::Append))
        .try_get_matches_from(args.iter().copied())
        .unwrap();
    let text = |id: &str| matches.get_one::<String>(id).unwrap().clone();
    let list = |id: &str| -> Vec<String> {
        matches.get_many::<String>(id).map(|v| v.cloned().collect()).unwrap_or_default()
    };
    Cli {
        dir: text("dir"),
        project_type: ProjectTypeArgs {
            rust_only: matches.get_flag("rust_only"),
            node_only: matches.get_flag("node_only"),
            python_only: matches.get_flag("python_only"),
            go_only: matches.get_flag("go_only"),
        },
        execution: ExecutionArgs {
            yes: matches.get_flag("yes"),
            dry_run: matches.get_flag("dry_run"),
            interactive: matches.get_flag("interactive"),
            keep_executables: matches.get_flag("keep_executables"),
            permanent: matches.get_flag("permanent"),
        },
        filtering: FilteringArgs {
            keep_size: text("keep_size"),
            keep_days: text("keep_days").parse().unwrap(),
        },
        scanning: ScanningArgs {
            threads: text("threads").parse().unwrap(),
            verbose: matches.get_flag("verbose"),
            ignore: list("ignore"),
            skip: list("skip"),
        },
    }
}

#[test]
fn test_default_values() {
    let args = parse_from(&["clean-dev-dirs"]);

    assert_eq!(args.dir, ".");
    assert_eq!(args.project_filter(), ProjectFilter::All);

    let exec_opts = args.execution_options();
    assert!(!exec_opts.dry_run);
    assert!(!exec_opts.interactive);

    let scan_opts = args.scan_options();
    assert!(!scan_opts.verbose);
    assert_eq!(scan_opts.threads, 0);
    assert!(scan_opts.skip.is_empty());

    let filter_opts = args.filter_options();
    assert_eq!(filter_opts.keep_size, "0");
    assert_eq!(filter_opts.keep_days, 0);
}

#[test]
fn test_project_filters() {
    let rust_args = parse_from(&["clean-dev-dirs", "--rust-only"]);
    assert_eq!(rust_args.project_filter(), ProjectFilter::RustOnly);

    let node_args = parse_from(&["clean-dev-dirs", "--node-only"]);
    assert_eq!(node_args.project_filter(), ProjectFilter::NodeOnly);

    let python_args = parse_from(&["clean-dev-dirs", "--python-only"]);
    assert_eq!(python_args.project_filter(), ProjectFilter::PythonOnly);

    let go_args = parse_from(&["clean-dev-dirs", "--go-only"]);
    assert_eq!(go_args.project_filter(), ProjectFilter::GoOnly);

    let all_args = parse_from(&["clean-dev-dirs"]);
    assert_eq!(all_args.project_filter(), ProjectFilter::All);
}

#[test]
fn test_execution_options() {
    let args = parse_from(&["clean-dev-dirs", "--dry-run", "--interactive", "--yes"]);
    let exec_opts = args.execution_options();

    assert!(exec_opts.dry_run);
    assert!(exec_opts.interactive);
}

#[test]
fn test_scanning_options() {
    let args = parse_from(&[
        "clean-dev-dirs",
        "--verbose",
        "--threads",
        "8",
        "--skip",
        "node_modules",
        "--skip",
        ".git",
    ]);
    let scan_opts = args.scan_options();

    assert!(scan_opts.verbose);
    assert_eq!(scan_opts.threads, 8);
    assert_eq!(scan_opts.skip.len(), 2);
    assert!(scan_opts.skip.contains(&"node_modules".to_string()));
    assert!(scan_opts.skip.contains(&".git".to_string()));
}

#[test]
fn test_filtering_options() {
    let args = parse_from(&["clean-dev-dirs", "--keep-size", "100MB", "--keep-days", "30"]);
    let filter_opts = args.filter_options();

    assert_eq!(filter_opts.keep_size, "100MB");
    assert_eq!(filter_opts.keep_days, 30);
}

#[test]
fn test_custom_directory() {
    let args = parse_from(&["clean-dev-dirs", "/custom/path"]);
    assert_eq!(args.dir, "/custom/path");
}

#[test]
fn cli_test_project_filter_equality() {
    assert_eq!(ProjectFilter::All, ProjectFilter::All);
    assert_eq!(ProjectFilter::RustOnly, ProjectFilter::RustOnly);
    assert_eq!(ProjectFilter::NodeOnly, ProjectFilter::NodeOnly);
    assert_eq!(ProjectFilter::PythonOnly, ProjectFilter::PythonOnly);
    assert_eq!(ProjectFilter::GoOnly, ProjectFilter::GoOnly);

    assert_ne!(ProjectFilter::All, ProjectFilter::RustOnly);
    assert_ne!(ProjectFilter::RustOnly, ProjectFilter::NodeOnly);
    assert_ne!(ProjectFilter::NodeOnly, ProjectFilter::PythonOnly);
    assert_ne!(ProjectFilter::PythonOnly, ProjectFilter::GoOnly);
}

#[test]
fn cli_test_execution_options_clone() {
    let original = ExecutionOptions { dry_run: true, interactive: false };
    let cloned = original.clone();

    assert_eq!(original.dry_run, cloned.dry_run);
    assert_eq!(original.interactive, cloned.interactive);
}

#[test]
fn cli_test_filter_options_clone() {
    let original = FilterOptions { keep_size: "100MB".to_string(), keep_days: 30 };
    let cloned = original.clone();

    assert_eq!(original.keep_size, cloned.keep_size);
    assert_eq!(original.keep_days, cloned.keep_days);
}

#[test]
fn test_scan_options_clone() {
    let original = ScanOptions { verbose: true, threads: 4, skip: vec!["test".to_string()] };
    let cloned = original.clone();

    assert_eq!(original.verbose, cloned.verbose);
    assert_eq!(original.threads, cloned.threads);
    assert_eq!(original.skip, cloned.skip);
}

#[test]
fn cli_test_project_filter_copy() {
    let original = ProjectFilter::RustOnly;
    let copied = original;

    assert_eq!(original, copied);
}

#[test]
fn test_short_flags() {
    let args = parse_from(&["clean-dev-dirs", "-s", "50MB", "-d", "7", "-t", "2", "-v", "-i", "-y"]);

    let filter_opts = args.filter_options();
    assert_eq!(filter_opts.keep_size, "50MB");
    assert_eq!(filter_opts.keep_days, 7);

    let scan_opts = args.scan_options();
    assert_eq!(scan_opts.threads, 2);
    assert!(scan_opts.verbose);

    let exec_opts = args.execution_options();
    assert!(exec_opts.interactive);
}

#[test]
fn test_multiple_skip_directories() {
    let args = parse_from(&[
        "clean-dev-dirs",
        "--skip",
        "node_modules",
        "--skip",
        ".git",
        "--skip",
        "target",
        "--skip",
        "__pycache__",
    ]);

    let scan_opts = args.scan_options();
    assert_eq!(scan_opts.skip.len(), 4);

    let expected_dirs = vec!["node_modules", ".git", "target", "__pycache__"];

    for expected_dir in expected_dirs {
        assert!(scan_opts.skip.contains(&expected_dir.to_string()));
    }
}

#[test]
fn test_complex_size_formats() {
    let test_cases = vec![("100KB", "100KB"), ("1.5MB", "1.5MB"), ("2GiB", "2GiB"), ("500000", "500000")];

    for (input, expected) in test_cases {
        let args = parse_from(&["clean-dev-dirs", "--keep-size", input]);
        let filter_opts = args.filter_options();
        assert_eq!(filter_opts.keep_size, expected);
    }
}

#[test]
fn test_zero_values() {
    let args = parse_from(&["clean-dev-dirs", "--keep-size", "0", "--keep-days", "0", "--threads", "0"]);

    let filter_opts = args.filter_options();
    assert_eq!(filter_opts.keep_size, "0");
    assert_eq!(filter_opts.keep_days, 0);

    let scan_opts = args.scan_options();
    assert_eq!(scan_opts.threads, 0);
}

#[test]
fn cli_filter_maps_to_scanner_filter() {
    assert_eq!(ProjectFilter::All.ecosystems(), Ecosystems::All);
    assert_eq!(ProjectFilter::RustOnly.ecosystems(), Ecosystems::Rust);
    assert_eq!(ProjectFilter::NodeOnly.ecosystems(), Ecosystems::Node);
    assert_eq!(ProjectFilter::PythonOnly.ecosystems(), Ecosystems::Python);
    assert_eq!(ProjectFilter::GoOnly.ecosystems(), Ecosystems::Go);
}

#[test]
fn cli_clean_policy_defaults_to_trash() {
    let args = parse_from(&["clean-dev-dirs"]);
    let policy = args.clean_policy();
    assert!(!policy.keep_executables);
    assert!(policy.use_trash);

    let args = parse_from(&["clean-dev-dirs", "--keep-executables", "--permanent"]);
    let policy = args.clean_policy();
    assert!(policy.keep_executables);
    assert!(!policy.use_trash);
}
