//! Stop-loss triggers: exit a long position once the day's low falls to a
//! fixed fraction of the last buy price.

use vstd::prelude::*;

use crate::stock_data::StockPriceInfo;
use crate::{price_cap, BP_SCALE, PRICE_LIMIT};

verus! {

/// A stop-loss rule. A fired trigger names the exit price, which always lies
/// within the engine's price cap.
pub trait StopLossTrigger: Sized {
    spec fn spec_should_trigger(&self, bar: StockPriceInfo, last_buy_price: i64) -> Option<i64>;

    fn should_trigger_stop_loss(&self, stock_price_info: &StockPriceInfo, last_buy_price: i64) -> (r:
        Option<i64>)
        requires
            stock_price_info.valid(),
            0 <= last_buy_price <= PRICE_LIMIT,
        ensures
            r == self.spec_should_trigger(*stock_price_info, last_buy_price),
            r matches Some(p) ==> 0 <= p <= price_cap(),
    ;
}

/// Fires when the day's low reaches `last_buy_price * (1 - percentage)`; the
/// percentage is carried in basis points. Comparison is by cross
/// multiplication with the basis-point scale, so it is exact.
pub struct PercentageStopLoss {
    pub stop_loss_percentage: u32,
}

impl PercentageStopLoss {
    pub fn new(stop_loss_percentage: u32) -> (r: Self)
        ensures
            r.stop_loss_percentage == stop_loss_percentage,
    {
        Self { stop_loss_percentage }
    }
}

/// Whether `low <= last_buy_price * (1 - percentage)`, in basis points.
pub open spec fn stop_loss_hit(percentage: u32, low: i64, last_buy_price: i64) -> bool {
    low as int * BP_SCALE as int <= last_buy_price as int * (BP_SCALE as int - percentage as int)
}

impl StopLossTrigger for PercentageStopLoss {
    open spec fn spec_should_trigger(&self, bar: StockPriceInfo, last_buy_price: i64) -> Option<
        i64,
    > {
        if stop_loss_hit(self.stop_loss_percentage, bar.low, last_buy_price) {
            Some(bar.low)
        } else {
            None
        }
    }

    fn should_trigger_stop_loss(&self, stock_price_info: &StockPriceInfo, last_buy_price: i64) -> (r:
        Option<i64>)
        ensures
            r == self.spec_should_trigger(*stock_price_info, last_buy_price),
            r matches Some(p) ==> 0 <= p <= price_cap(),
    {
        proof {
            assert(-(0x1_0000_0000int * PRICE_LIMIT as int) <= last_buy_price as int * (
            BP_SCALE as int - self.stop_loss_percentage as int) <= 0x1_0000_0000int
                * PRICE_LIMIT as int) by (nonlinear_arith)
                requires
                    0 <= last_buy_price <= PRICE_LIMIT,
                    -0x1_0000_0000int < (BP_SCALE as int - self.stop_loss_percentage as int) <= BP_SCALE as int,
            ;
        }
        let threshold = last_buy_price * (BP_SCALE - self.stop_loss_percentage as i64);
        if stock_price_info.low * BP_SCALE <= threshold {
            Some(stock_price_info.low)
        } else {
            None
        }
    }
}

/// Never fires.
pub struct NoStopLoss;

impl StopLossTrigger for NoStopLoss {
    open spec fn spec_should_trigger(&self, bar: StockPriceInfo, last_buy_price: i64) -> Option<
        i64,
    > {
        None
    }

    fn should_trigger_stop_loss(&self, stock_price_info: &StockPriceInfo, last_buy_price: i64) -> (r:
        Option<i64>)
        ensures
            r == self.spec_should_trigger(*stock_price_info, last_buy_price),
            r matches Some(p) ==> 0 <= p <= price_cap(),
    {
        None
    }
}

} // verus!
