//! Stateful indicator primitives: recurrence computations over a price stream.

pub mod atr;
pub mod ema;
pub mod keltner_channel;
pub mod macd;
pub mod percent_off_ath;
pub mod rsi;
