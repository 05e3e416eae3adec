//! The command-line options, as plain values.
//!
//! Parsing the command line is the caller's business; these types hold what
//! it found, and their methods turn it into the options of each stage.

use vstd::prelude::*;
use crate::cleaner::CleanPolicy;
pub use crate::config::{ExecutionOptions, FilterOptions, ScanOptions};

verus! {

/// The ecosystem restriction chosen on the command line.
#[derive(Clone, Copy, Debug, PartialEq, Eq, Structural)]
pub enum ProjectFilter {
    /// Every supported ecosystem.
    All,
    /// `--rust-only`.
    RustOnly,
    /// `--node-only`.
    NodeOnly,
    /// `--python-only`.
    PythonOnly,
    /// `--go-only`.
    GoOnly,
}

impl ProjectFilter {
    /// The scanner's filter for this choice.
    pub fn ecosystems(self) -> (r: crate::config::ProjectFilter)
        ensures
            self == ProjectFilter::All ==> r == crate::config::ProjectFilter::All,
            self == ProjectFilter::RustOnly ==> r == crate::config::ProjectFilter::Rust,
            self == ProjectFilter::NodeOnly ==> r == crate::config::ProjectFilter::Node,
            self == ProjectFilter::PythonOnly ==> r == crate::config::ProjectFilter::Python,
            self == ProjectFilter::GoOnly ==> r == crate::config::ProjectFilter::Go,
    {
        match self {
            ProjectFilter::All => crate::config::ProjectFilter::All,
            ProjectFilter::RustOnly => crate::config::ProjectFilter::Rust,
            ProjectFilter::NodeOnly => crate::config::ProjectFilter::Node,
            ProjectFilter::PythonOnly => crate::config::ProjectFilter::Python,
            ProjectFilter::GoOnly => crate::config::ProjectFilter::Go,
        }
    }
}

/// Size and age options.
#[derive(Clone, Debug)]
pub struct FilteringArgs {
    /// `--keep-size`: smallest build-directory size considered.
    pub keep_size: String,
    /// `--keep-days`: minimum age in days; 0 turns it off.
    pub keep_days: u32,
}

/// Execution options.
#[derive(Clone, Debug)]
pub struct ExecutionArgs {
    /// `--yes`: clean without asking.
    pub yes: bool,
    /// `--dry-run`: report without deleting.
    pub dry_run: bool,
    /// `--interactive`: pick the projects to clean.
    pub interactive: bool,
    /// `--keep-executables`: copy compiled outputs out before removal.
    pub keep_executables: bool,
    /// `--permanent`: delete instead of moving to the trash.
    pub permanent: bool,
}

/// Ecosystem options; at most one of them is set.
#[derive(Clone, Debug)]
pub struct ProjectTypeArgs {
    pub rust_only: bool,
    pub node_only: bool,
    pub python_only: bool,
    pub go_only: bool,
}

/// Traversal options.
#[derive(Clone, Debug)]
pub struct ScanningArgs {
    /// `--threads`: worker-pool size; 0 uses every processor.
    pub threads: usize,
    /// `--verbose`: show access errors.
    pub verbose: bool,
    /// `--ignore`: directories to ignore.
    pub ignore: Vec<String>,
    /// `--skip`: skip patterns.
    pub skip: Vec<String>,
}

/// Everything given on the command line.
#[derive(Clone, Debug)]
pub struct Cli {
    /// The directory to search for projects.
    pub dir: String,
    pub project_type: ProjectTypeArgs,
    pub execution: ExecutionArgs,
    pub filtering: FilteringArgs,
    pub scanning: ScanningArgs,
}

impl Cli {
    /// The ecosystem restriction: the first of `--rust-only`, `--node-only`,
    /// `--python-only`, `--go-only` that is set, else all ecosystems.
    pub fn project_filter(&self) -> (r: ProjectFilter)
        ensures
            r == (if self.project_type.rust_only {
                ProjectFilter::RustOnly
            } else if self.project_type.node_only {
                ProjectFilter::NodeOnly
            } else if self.project_type.python_only {
                ProjectFilter::PythonOnly
            } else if self.project_type.go_only {
                ProjectFilter::GoOnly
            } else {
                ProjectFilter::All
            }),
    {
        if self.project_type.rust_only {
            ProjectFilter::RustOnly
        } else if self.project_type.node_only {
            ProjectFilter::NodeOnly
        } else if self.project_type.python_only {
            ProjectFilter::PythonOnly
        } else if self.project_type.go_only {
            ProjectFilter::GoOnly
        } else {
            ProjectFilter::All
        }
    }

    /// The dry-run and interactive flags.
    pub fn execution_options(&self) -> (r: ExecutionOptions)
        ensures
            r.dry_run == self.execution.dry_run,
            r.interactive == self.execution.interactive,
    {
        ExecutionOptions { dry_run: self.execution.dry_run, interactive: self.execution.interactive }
    }

    /// How build directories are removed.
    pub fn clean_policy(&self) -> (r: CleanPolicy)
        ensures
            r.keep_executables == self.execution.keep_executables,
            r.use_trash == !self.execution.permanent,
    {
        CleanPolicy { keep_executables: self.execution.keep_executables, use_trash: !self.execution.permanent }
    }

    /// The traversal options.
    pub fn scan_options(&self) -> (r: ScanOptions)
        ensures
            r.verbose == self.scanning.verbose,
            r.threads == self.scanning.threads,
            r.skip@.map_values(|s: String| s@) == self.scanning.skip@.map_values(|s: String| s@),
    {
        let mut skip: Vec<String> = Vec::new();
        let mut i: usize = 0;
        while i < self.scanning.skip.len()
            invariant
                i <= self.scanning.skip@.len(),
                skip@.map_values(|s: String| s@) == self.scanning.skip@.take(i as int).map_values(|s: String| s@),
            decreases self.scanning.skip@.len() - i,
        {
            let ghost before = skip@;
            let s = self.scanning.skip[i].clone();
            let ghost sv = s@;
            skip.push(s);
            assert(skip@.map_values(|s: String| s@) =~= before.map_values(|s: String| s@).push(sv));
            assert(self.scanning.skip@.take(i as int + 1) =~= self.scanning.skip@.take(i as int).push(self.scanning.skip@[i as int]));
            assert(skip@.map_values(|s: String| s@) =~= self.scanning.skip@.take(i as int + 1).map_values(|s: String| s@));
            i = i + 1;
        }
        assert(self.scanning.skip@.take(self.scanning.skip@.len() as int) =~= self.scanning.skip@);
        ScanOptions { verbose: self.scanning.verbose, threads: self.scanning.threads, skip }
    }

    /// The size and age criteria.
    pub fn filter_options(&self) -> (r: FilterOptions)
        ensures
            r.keep_size@ == self.filtering.keep_size@,
            r.keep_days == self.filtering.keep_days,
    {
        FilterOptions { keep_size: self.filtering.keep_size.clone(), keep_days: self.filtering.keep_days }
    }
}

} // verus!
