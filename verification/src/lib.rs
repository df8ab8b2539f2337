//! A deterministic, replayable backtesting engine for daily price series.
//!
//! Prices, indicator values and cash are carried as fixed-point integers
//! ("ticks"); the caller chooses the tick size. Percentages are carried in
//! basis points (one hundredth of a percent). This keeps every recurrence
//! exact and lets each computation be stated and proved precisely.

use vstd::prelude::*;

pub mod broker_fee;
pub mod chained_strategy;
pub mod grid_search;
pub mod math;
pub mod results_statistics;
pub mod runner;
pub mod stock_data;
pub mod stop_loss_strategy;
pub mod strategies;
pub mod strategy_simulator;
pub mod take_profit_strategy;
pub mod technical_indicator;
pub mod utils;

verus! {

/// Largest bar price (in ticks) the engine accepts.
pub const PRICE_LIMIT: i64 = 1_000_000_000;

/// Largest indicator length the engine accepts.
pub const LENGTH_LIMIT: usize = 10_000;

/// Basis points in one whole: percentages are carried as `x` bp = `x / 100` %.
pub const BP_SCALE: i64 = 10_000;

/// Largest channel width multiplier, in hundredths (100 = one ATR).
pub const CHANNEL_SIZE_LIMIT: i64 = 100_000;

/// Largest relative threshold a strategy accepts, in basis points either way.
pub const PCT_LIMIT: i64 = 1_000_000;

/// Largest bound and step of a grid-search axis.
pub const AXIS_LIMIT: i64 = 1_000_000_000_000;

/// Upper bound for every price an indicator or a signal can produce:
/// a Keltner band reaches at most `PRICE_LIMIT + CHANNEL_SIZE_LIMIT/100 * PRICE_LIMIT`.
pub open spec fn price_cap() -> int {
    PRICE_LIMIT as int + (CHANNEL_SIZE_LIMIT as int / 100) * PRICE_LIMIT as int
}

} // verus!
