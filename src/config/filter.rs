//! Which projects are considered.

use vstd::prelude::*;

verus! {

/// Restricts scanning and cleaning to one ecosystem, or none.
#[derive(Clone, Copy, Debug, PartialEq, Eq, Structural)]
pub enum ProjectFilter {
    /// Every supported ecosystem.
    All,
    /// Rust projects only.
    Rust,
    /// Node.js projects only.
    Node,
    /// Python projects only.
    Python,
    /// Go projects only.
    Go,
}

impl Default for ProjectFilter {
    fn default() -> (r: ProjectFilter)
        ensures
            r == ProjectFilter::All,
    {
        ProjectFilter::All
    }
}

/// Size and age criteria of the filtering stage.
#[derive(Clone, Debug)]
pub struct FilterOptions {
    /// Smallest build-directory size that is kept, as a size string (`"100MB"`).
    pub keep_size: String,
    /// Only build directories last modified at least this many days ago are
    /// kept; `0` turns the age criterion off.
    pub keep_days: u32,
}

} // verus!
