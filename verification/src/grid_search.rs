//! Exhaustive search over a discretized parameter space.

pub mod grid_search;
pub mod parameter;
