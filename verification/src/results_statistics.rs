//! Portfolio-level statistics over per-ticker outcomes.

pub mod average_roi;
pub mod monte_carlo;
pub mod profitable_investment;
