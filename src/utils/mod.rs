//! Helpers shared by the pipeline stages.

pub mod size;

pub use size::parse_size;
