//! One daily price bar. Prices are fixed-point ticks; the trading date is a
//! day number under any calendar the caller chooses, since the engine only
//! ever compares dates.

use vstd::prelude::*;

use crate::PRICE_LIMIT;

verus! {

#[derive(Clone)]
pub struct StockPriceInfo {
    pub ticker: String,
    pub per: String,
    pub date: i64,
    pub time: String,
    pub open: i64,
    pub high: i64,
    pub low: i64,
    pub close: i64,
    pub vol: i64,
    pub openint: u32,
}

impl StockPriceInfo {
    /// A bar the engine accepts: positive prices within the engine's limit,
    /// with the low not above the high.
    pub open spec fn valid(&self) -> bool {
        &&& 1 <= self.open <= PRICE_LIMIT
        &&& 1 <= self.low <= self.high <= PRICE_LIMIT
        &&& 1 <= self.close <= PRICE_LIMIT
    }
}

} // verus!
