//! The concrete investing strategies: each wraps one or more indicators and
//! turns their state into buy and sell decisions.

pub mod arima;
pub mod ema_crossover_strategy;
pub mod ema_long_term_trend;
pub mod growing_ema_investing_strategy;
pub mod keltner_channel_investing_strategy;
pub mod macd_divergence_strategy;
pub mod macd_strategy;
pub mod rsi_strategy;
