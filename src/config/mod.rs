//! Options that steer scanning, filtering and cleanup.

pub mod execution;
pub mod file;
pub mod filter;
pub mod scan;

pub use execution::ExecutionOptions;
pub use filter::{FilterOptions, ProjectFilter};
pub use scan::ScanOptions;
