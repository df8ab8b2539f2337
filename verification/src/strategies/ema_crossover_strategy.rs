//! Buys while the short EMA stands above the long one, sells once it falls
//! below.

use vstd::prelude::*;

use crate::stock_data::StockPriceInfo;
use crate::strategy_simulator::InvestingStrategy;
use crate::technical_indicator::ema::{ema_next, Ema};
use crate::{LENGTH_LIMIT, PRICE_LIMIT};

verus! {

pub struct EmaCrossoverStrategy {
    pub ema_short: Ema,
    pub ema_long: Ema,
}

#[derive(Clone, Copy, PartialEq, Eq, Structural, Debug)]
pub struct EmaCrossoverResult {
    pub ema_short: i64,
    pub ema_long: i64,
}

impl EmaCrossoverResult {
    /// The two averages in order: short, long.
    pub fn to_row(&self) -> (r: Vec<i64>)
        ensures
            r@ == seq![self.ema_short, self.ema_long],
    {
        let mut r: Vec<i64> = Vec::new();
        r.push(self.ema_short);
        r.push(self.ema_long);
        proof {
            assert(r@ =~= seq![self.ema_short, self.ema_long]);
        }
        r
    }
}

impl EmaCrossoverStrategy {
    pub fn new(ema_short_length: usize, ema_long_length: usize) -> (r: Self)
        requires
            1 <= ema_short_length <= LENGTH_LIMIT,
            1 <= ema_long_length <= LENGTH_LIMIT,
        ensures
            r.wf(),
            r.ema_short.length == ema_short_length,
            r.ema_long.length == ema_long_length,
            r.ema_short.current_ema == 0,
            r.ema_long.current_ema == 0,
    {
        Self { ema_short: Ema::new(ema_short_length), ema_long: Ema::new(ema_long_length) }
    }
}

impl EmaCrossoverStrategy {
    /// The state one bar leaves behind: both averages advance exactly once,
    /// fed the close.
    pub open spec fn spec_step(self, today: StockPriceInfo) -> Self {
        Self {
            ema_short: Ema {
                length: self.ema_short.length,
                current_ema: ema_next(
                    self.ema_short.current_ema as int,
                    today.close as int,
                    self.ema_short.length as int,
                ) as i64,
            },
            ema_long: Ema {
                length: self.ema_long.length,
                current_ema: ema_next(
                    self.ema_long.current_ema as int,
                    today.close as int,
                    self.ema_long.length as int,
                ) as i64,
            },
        }
    }
}

impl InvestingStrategy<EmaCrossoverResult> for EmaCrossoverStrategy {
    open spec fn wf(&self) -> bool {
        &&& self.ema_short.wf()
        &&& self.ema_long.wf()
    }

    open spec fn indicator_wf(&self, indicator: EmaCrossoverResult) -> bool {
        true
    }

    open spec fn spec_indicator(&self, today: StockPriceInfo, yesterday: Option<StockPriceInfo>)
        -> EmaCrossoverResult {
        EmaCrossoverResult {
            ema_short: ema_next(
                self.ema_short.current_ema as int,
                today.close as int,
                self.ema_short.length as int,
            ) as i64,
            ema_long: ema_next(
                self.ema_long.current_ema as int,
                today.close as int,
                self.ema_long.length as int,
            ) as i64,
        }
    }

    open spec fn calculation_post(&self, post: Self, today: StockPriceInfo, yesterday: Option<
        StockPriceInfo,
    >) -> bool {
        post == self.spec_step(today)
    }

    open spec fn spec_buy_signal(&self, today: StockPriceInfo, indicator: EmaCrossoverResult)
        -> Option<i64> {
        if indicator.ema_short > indicator.ema_long {
            Some(today.close)
        } else {
            None
        }
    }

    open spec fn spec_sell_signal(&self, today: StockPriceInfo, indicator: EmaCrossoverResult)
        -> Option<i64> {
        if indicator.ema_short < indicator.ema_long {
            Some(today.close)
        } else {
            None
        }
    }

    fn calculation(&mut self, stock_price_info: &StockPriceInfo, yesterday: &Option<
        StockPriceInfo,
    >) -> (r: EmaCrossoverResult)
        ensures
            final(self).wf(),
            r == old(self).spec_indicator(*stock_price_info, *yesterday),
            old(self).calculation_post(*final(self), *stock_price_info, *yesterday),
            final(self).indicator_wf(r),
    {
        let new_ema_short = self.ema_short.next(stock_price_info.close);
        let new_ema_long = self.ema_long.next(stock_price_info.close);
        EmaCrossoverResult { ema_short: new_ema_short, ema_long: new_ema_long }
    }

    fn buy_signal(&self, stock_price_info: &StockPriceInfo, indicator: &EmaCrossoverResult) -> (r:
        Option<i64>)
        ensures
            r == self.spec_buy_signal(*stock_price_info, *indicator),
            r matches Some(p) ==> 1 <= p <= PRICE_LIMIT,
    {
        if indicator.ema_short > indicator.ema_long {
            Some(stock_price_info.close)
        } else {
            None
        }
    }

    fn sell_signal(&self, stock_price_info: &StockPriceInfo, indicator: &EmaCrossoverResult) -> (r:
        Option<i64>)
        ensures
            r == self.spec_sell_signal(*stock_price_info, *indicator),
            r matches Some(p) ==> 0 <= p <= crate::price_cap(),
    {
        if indicator.ema_short < indicator.ema_long {
            Some(stock_price_info.close)
        } else {
            None
        }
    }
}

} // verus!
