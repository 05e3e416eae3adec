//! Locates development-project build directories beneath a root, classifies
//! the owning projects by ecosystem, measures and filters them, and plans
//! their removal.
//!
//! The crate holds the decisions, over plain values: the caller walks the
//! file system, reads files, copies and deletes, and hands the library what
//! it saw. The only outside calls made here parse JSON, upper-case text and
//! look up the user's directories.

pub mod cleaner;
pub mod cli;
pub mod config;
pub mod executables;
pub mod filtering;
pub mod names;
pub mod paths;
pub mod project;
pub mod projects;
pub mod scanner;
pub mod sorting;
pub mod text;
pub mod utils;

pub use cleaner::Cleaner;
pub use config::{ExecutionOptions, FilterOptions, ProjectFilter, ScanOptions};
pub use filtering::filter_projects;
pub use project::{BuildArtifacts, Project, ProjectType};
pub use projects::Projects;
pub use scanner::Scanner;
pub use utils::parse_size;
