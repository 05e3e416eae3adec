//! How a cleanup run is carried out.

use vstd::prelude::*;

verus! {

/// Cleanup execution behaviour.
#[derive(Clone, Debug)]
pub struct ExecutionOptions {
    /// Report what would be freed without deleting anything.
    pub dry_run: bool,
    /// Let the user pick the projects to clean.
    pub interactive: bool,
}

} // verus!
