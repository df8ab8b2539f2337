//! Decisions around a one-step time-series forecast. The forecast itself is
//! computed by a remote service outside this library; the caller records each
//! close, asks the service for the next value, and hands it in here as a plain
//! number. The decision rule: buy at the open while the forecast exceeds
//! yesterday's close, and offer to sell at every close.

use vstd::prelude::*;

use crate::stock_data::StockPriceInfo;
use crate::PRICE_LIMIT;

verus! {

#[derive(Clone, Copy, PartialEq, Eq, Structural, Debug)]
pub struct ArimaResult {
    pub close_price: i64,
    pub forecast: i64,
}

/// The price history a forecasting service is fed: every close seen so far,
/// oldest first.
pub struct ArimaStrategy {
    pub history: Vec<i64>,
}

impl ArimaStrategy {
    pub fn new() -> (r: ArimaStrategy)
        ensures
            r.history@ == Seq::<i64>::empty(),
    {
        ArimaStrategy { history: Vec::new() }
    }

    /// Record today's close after the forecast for today was made, and pair
    /// the forecast with yesterday's close for the signal checks.
    pub fn calculation(&mut self, forecast: Option<i64>, stock_price_info: &StockPriceInfo,
        yesterday: &Option<StockPriceInfo>) -> (r: ArimaResult)
        ensures
            final(self).history@ == old(self).history@.push(stock_price_info.close),
            r == (ArimaResult {
                close_price: match *yesterday {
                    Some(y) => y.close,
                    None => 0i64,
                },
                forecast: match forecast {
                    Some(f) => f,
                    None => 0i64,
                },
            }),
    {
        self.history.push(stock_price_info.close);
        let yesterday_close_price = match yesterday {
            Some(y) => y.close,
            None => 0i64,
        };
        match forecast {
            Some(f) => ArimaResult { close_price: yesterday_close_price, forecast: f },
            None => ArimaResult { close_price: yesterday_close_price, forecast: 0i64 },
        }
    }

    /// Buy at the open while the forecast exceeds yesterday's close.
    pub fn buy_signal(&self, stock_price_info: &StockPriceInfo, indicator: &ArimaResult) -> (r:
        Option<i64>)
        requires
            stock_price_info.valid(),
        ensures
            r == if indicator.forecast > indicator.close_price {
                Some(stock_price_info.open)
            } else {
                None::<i64>
            },
            r matches Some(p) ==> 1 <= p <= PRICE_LIMIT,
    {
        if indicator.forecast > indicator.close_price {
            Some(stock_price_info.open)
        } else {
            None
        }
    }

    /// Offer to sell at every close.
    pub fn sell_signal(&self, stock_price_info: &StockPriceInfo) -> (r: Option<i64>)
        requires
            stock_price_info.valid(),
        ensures
            r == Some(stock_price_info.close),
    {
        Some(stock_price_info.close)
    }
}

} // verus!
