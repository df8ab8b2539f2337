//! Buys while its EMA climbs steeply enough, sells once the EMA sags.
//!
//! Steepness is often configured as an angle: the slope's arc tangent, in
//! degrees, against an angle threshold. The arc tangent and the degree
//! scaling are both strictly increasing, so comparing the raw slope against
//! the tangent of that angle decides identically; the thresholds here are
//! therefore slopes in ticks per day, and a caller configured in degrees
//! converts once.

use vstd::prelude::*;

use crate::stock_data::StockPriceInfo;
use crate::strategy_simulator::InvestingStrategy;
use crate::technical_indicator::ema::{ema_next, Ema};
use crate::{LENGTH_LIMIT, PRICE_LIMIT};

verus! {

#[derive(Clone, Copy, PartialEq, Eq, Structural, Debug)]
pub struct EmaStrategyResult {
    pub yesterday_buy: i64,
    pub yesterday_sell: i64,
    pub today_buy: i64,
    pub today_sell: i64,
}

pub struct GrowingEmaStrategy {
    pub buy_ema: Ema,
    pub sell_ema: Ema,
    pub buy_inclination: i64,
    pub sell_inclination: i64,
}

impl GrowingEmaStrategy {
    pub fn new(ema_length: usize, buy_inclination: i64, sell_inclination: i64) -> (r: Self)
        requires
            1 <= ema_length <= LENGTH_LIMIT,
        ensures
            r.wf(),
            r.buy_ema.length == ema_length,
            r.sell_ema.length == ema_length,
            r.buy_ema.current_ema == 0,
            r.sell_ema.current_ema == 0,
            r.buy_inclination == buy_inclination,
            r.sell_inclination == sell_inclination,
    {
        Self {
            buy_ema: Ema::new(ema_length),
            sell_ema: Ema::new(ema_length),
            buy_inclination,
            sell_inclination,
        }
    }

    pub fn with_separate_buy_sell_ema(
        buy_ema_length: usize,
        sell_ema_length: usize,
        buy_inclination: i64,
        sell_inclination: i64,
    ) -> (r: Self)
        requires
            1 <= buy_ema_length <= LENGTH_LIMIT,
            1 <= sell_ema_length <= LENGTH_LIMIT,
        ensures
            r.wf(),
            r.buy_ema.length == buy_ema_length,
            r.sell_ema.length == sell_ema_length,
            r.buy_ema.current_ema == 0,
            r.sell_ema.current_ema == 0,
            r.buy_inclination == buy_inclination,
            r.sell_inclination == sell_inclination,
    {
        Self {
            buy_ema: Ema::new(buy_ema_length),
            sell_ema: Ema::new(sell_ema_length),
            buy_inclination,
            sell_inclination,
        }
    }
}

impl GrowingEmaStrategy {
    /// The state one bar leaves behind: both averages advance exactly once,
    /// fed the close; the thresholds never change.
    pub open spec fn spec_step(self, today: StockPriceInfo) -> Self {
        Self {
            buy_ema: Ema {
                length: self.buy_ema.length,
                current_ema: ema_next(
                    self.buy_ema.current_ema as int,
                    today.close as int,
                    self.buy_ema.length as int,
                ) as i64,
            },
            sell_ema: Ema {
                length: self.sell_ema.length,
                current_ema: ema_next(
                    self.sell_ema.current_ema as int,
                    today.close as int,
                    self.sell_ema.length as int,
                ) as i64,
            },
            ..self
        }
    }
}

impl InvestingStrategy<EmaStrategyResult> for GrowingEmaStrategy {
    open spec fn wf(&self) -> bool {
        &&& self.buy_ema.wf()
        &&& self.sell_ema.wf()
    }

    open spec fn indicator_wf(&self, indicator: EmaStrategyResult) -> bool {
        &&& -PRICE_LIMIT <= indicator.yesterday_buy <= PRICE_LIMIT
        &&& -PRICE_LIMIT <= indicator.yesterday_sell <= PRICE_LIMIT
        &&& -PRICE_LIMIT <= indicator.today_buy <= PRICE_LIMIT
        &&& -PRICE_LIMIT <= indicator.today_sell <= PRICE_LIMIT
    }

    open spec fn spec_indicator(&self, today: StockPriceInfo, yesterday: Option<StockPriceInfo>)
        -> EmaStrategyResult {
        EmaStrategyResult {
            yesterday_buy: self.buy_ema.current_ema,
            yesterday_sell: self.sell_ema.current_ema,
            today_buy: ema_next(
                self.buy_ema.current_ema as int,
                today.close as int,
                self.buy_ema.length as int,
            ) as i64,
            today_sell: ema_next(
                self.sell_ema.current_ema as int,
                today.close as int,
                self.sell_ema.length as int,
            ) as i64,
        }
    }

    open spec fn calculation_post(&self, post: Self, today: StockPriceInfo, yesterday: Option<
        StockPriceInfo,
    >) -> bool {
        post == self.spec_step(today)
    }

    open spec fn spec_buy_signal(&self, today: StockPriceInfo, indicator: EmaStrategyResult)
        -> Option<i64> {
        if indicator.today_buy - indicator.yesterday_buy > self.buy_inclination {
            Some(today.close)
        } else {
            None
        }
    }

    open spec fn spec_sell_signal(&self, today: StockPriceInfo, indicator: EmaStrategyResult)
        -> Option<i64> {
        if indicator.today_sell - indicator.yesterday_sell < self.sell_inclination {
            Some(today.close)
        } else {
            None
        }
    }

    fn calculation(&mut self, stock_price_info: &StockPriceInfo, yesterday: &Option<
        StockPriceInfo,
    >) -> (r: EmaStrategyResult)
        ensures
            final(self).wf(),
            r == old(self).spec_indicator(*stock_price_info, *yesterday),
            old(self).calculation_post(*final(self), *stock_price_info, *yesterday),
            final(self).indicator_wf(r),
    {
        let yesterday_buy = self.buy_ema.current();
        let yesterday_sell = self.sell_ema.current();
        EmaStrategyResult {
            yesterday_buy,
            yesterday_sell,
            today_buy: self.buy_ema.next(stock_price_info.close),
            today_sell: self.sell_ema.next(stock_price_info.close),
        }
    }

    fn buy_signal(&self, stock_price_info: &StockPriceInfo, indicator: &EmaStrategyResult) -> (r:
        Option<i64>)
        ensures
            r == self.spec_buy_signal(*stock_price_info, *indicator),
            r matches Some(p) ==> 1 <= p <= PRICE_LIMIT,
    {
        if indicator.today_buy - indicator.yesterday_buy > self.buy_inclination {
            Some(stock_price_info.close)
        } else {
            None
        }
    }

    fn sell_signal(&self, stock_price_info: &StockPriceInfo, indicator: &EmaStrategyResult) -> (r:
        Option<i64>)
        ensures
            r == self.spec_sell_signal(*stock_price_info, *indicator),
            r matches Some(p) ==> 0 <= p <= crate::price_cap(),
    {
        if indicator.today_sell - indicator.yesterday_sell < self.sell_inclination {
            Some(stock_price_info.close)
        } else {
            None
        }
    }
}

} // verus!
