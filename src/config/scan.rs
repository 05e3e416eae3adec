//! How the directory tree is traversed.

use vstd::prelude::*;

verus! {

/// Traversal behaviour of the scanner.
#[derive(Clone, Debug)]
pub struct ScanOptions {
    /// Collect and show non-fatal access errors.
    pub verbose: bool,
    /// Size of the worker pool; `0` uses every available processor.
    pub threads: usize,
    /// Skip patterns: an entry is pruned when one of its path components,
    /// relative to the scan root, holds one of them as a substring.
    pub skip: Vec<String>,
}

} // verus!
