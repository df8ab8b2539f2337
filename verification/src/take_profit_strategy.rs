//! Take-profit triggers: exit a long position once the day's high reaches a
//! fixed multiple of the last buy price.

use vstd::prelude::*;

use crate::stock_data::StockPriceInfo;
use crate::{price_cap, BP_SCALE, PRICE_LIMIT};

verus! {

/// A take-profit rule. A fired trigger names the exit price, which always
/// lies within the engine's price cap.
pub trait TakeProfitTrigger: Sized {
    spec fn spec_should_trigger(&self, bar: StockPriceInfo, last_buy_price: i64) -> Option<i64>;

    fn should_trigger_take_profit(&self, stock_price_info: &StockPriceInfo, last_buy_price: i64) -> (r:
        Option<i64>)
        requires
            stock_price_info.valid(),
            0 <= last_buy_price <= PRICE_LIMIT,
        ensures
            r == self.spec_should_trigger(*stock_price_info, last_buy_price),
            r matches Some(p) ==> 0 <= p <= price_cap(),
    ;
}

/// Fires when the day's high reaches `last_buy_price * percentage`, the
/// multiple carried in basis points (12_000 exits at a 20% gain). Comparison
/// is by cross multiplication with the basis-point scale, so it is exact.
pub struct PercentageTakeProfit {
    pub take_profit_percentage: u32,
}

impl PercentageTakeProfit {
    pub fn new(take_profit_percentage: u32) -> (r: Self)
        ensures
            r.take_profit_percentage == take_profit_percentage,
    {
        Self { take_profit_percentage }
    }
}

/// Whether `high >= last_buy_price * percentage`, in basis points.
pub open spec fn take_profit_hit(percentage: u32, high: i64, last_buy_price: i64) -> bool {
    high as int * BP_SCALE as int >= last_buy_price as int * percentage as int
}

impl TakeProfitTrigger for PercentageTakeProfit {
    open spec fn spec_should_trigger(&self, bar: StockPriceInfo, last_buy_price: i64) -> Option<
        i64,
    > {
        if take_profit_hit(self.take_profit_percentage, bar.high, last_buy_price) {
            Some(bar.high)
        } else {
            None
        }
    }

    fn should_trigger_take_profit(&self, stock_price_info: &StockPriceInfo, last_buy_price: i64) -> (r:
        Option<i64>)
        ensures
            r == self.spec_should_trigger(*stock_price_info, last_buy_price),
            r matches Some(p) ==> 0 <= p <= price_cap(),
    {
        proof {
            assert(0 <= last_buy_price as int * self.take_profit_percentage as int
                <= 0x1_0000_0000int * PRICE_LIMIT as int) by (nonlinear_arith)
                requires
                    0 <= last_buy_price <= PRICE_LIMIT,
                    0 <= (self.take_profit_percentage as int) < 0x1_0000_0000int,
            ;
        }
        let threshold = last_buy_price * (self.take_profit_percentage as i64);
        if stock_price_info.high * BP_SCALE >= threshold {
            Some(stock_price_info.high)
        } else {
            None
        }
    }
}

/// Never fires.
pub struct NoTakeProfit;

impl TakeProfitTrigger for NoTakeProfit {
    open spec fn spec_should_trigger(&self, bar: StockPriceInfo, last_buy_price: i64) -> Option<
        i64,
    > {
        None
    }

    fn should_trigger_take_profit(&self, stock_price_info: &StockPriceInfo, last_buy_price: i64) -> (r:
        Option<i64>)
        ensures
            r == self.spec_should_trigger(*stock_price_info, last_buy_price),
            r matches Some(p) ==> 0 <= p <= price_cap(),
    {
        None
    }
}

} // verus!
