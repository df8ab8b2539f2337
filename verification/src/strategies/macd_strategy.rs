//! Buys while the MACD line stands above its signal line, sells once it falls
//! below.

use vstd::prelude::*;

use crate::stock_data::StockPriceInfo;
use crate::strategy_simulator::InvestingStrategy;
use crate::technical_indicator::ema::ema_next;
use crate::technical_indicator::macd::{macd_step_state, Macd, MACDResult};
use crate::{LENGTH_LIMIT, PRICE_LIMIT};

verus! {

pub struct MACDStrategy {
    pub macd: Macd,
}

impl MACDStrategy {
    pub fn new(slow_period: usize, fast_period: usize, signal_period: usize) -> (r: Self)
        requires
            1 <= slow_period <= LENGTH_LIMIT,
            1 <= fast_period <= LENGTH_LIMIT,
            1 <= signal_period <= LENGTH_LIMIT,
        ensures
            r.wf(),
            r.macd.slow_period_ema.length == slow_period,
            r.macd.fast_period_ema.length == fast_period,
            r.macd.signal_period_ema.length == signal_period,
            r.macd.slow_period_ema.current_ema == 0,
            r.macd.fast_period_ema.current_ema == 0,
            r.macd.signal_period_ema.current_ema == 0,
    {
        Self { macd: Macd::new(slow_period, fast_period, signal_period) }
    }

    pub fn default() -> (r: Self)
        ensures
            r.wf(),
            r.macd.slow_period_ema.length == 26,
            r.macd.fast_period_ema.length == 12,
            r.macd.signal_period_ema.length == 9,
            r.macd.slow_period_ema.current_ema == 0,
            r.macd.fast_period_ema.current_ema == 0,
            r.macd.signal_period_ema.current_ema == 0,
    {
        MACDStrategy { macd: Macd::default() }
    }
}

/// The MACD line and signal line one price step produces.
pub open spec fn macd_step_result(m: Macd, price: i64) -> MACDResult {
    let fast = ema_next(m.fast_period_ema.current_ema as int, price as int, m.fast_period_ema.length as int);
    let slow = ema_next(m.slow_period_ema.current_ema as int, price as int, m.slow_period_ema.length as int);
    let line = fast - slow;
    MACDResult {
        macd_line: line as i64,
        signal_line: ema_next(
            m.signal_period_ema.current_ema as int,
            line,
            m.signal_period_ema.length as int,
        ) as i64,
    }
}

impl InvestingStrategy<MACDResult> for MACDStrategy {
    open spec fn wf(&self) -> bool {
        self.macd.wf()
    }

    open spec fn indicator_wf(&self, indicator: MACDResult) -> bool {
        true
    }

    open spec fn spec_indicator(&self, today: StockPriceInfo, yesterday: Option<StockPriceInfo>)
        -> MACDResult {
        macd_step_result(self.macd, today.close)
    }

    open spec fn calculation_post(&self, post: Self, today: StockPriceInfo, yesterday: Option<
        StockPriceInfo,
    >) -> bool {
        post == (MACDStrategy { macd: macd_step_state(self.macd, today.close) })
    }

    open spec fn spec_buy_signal(&self, today: StockPriceInfo, indicator: MACDResult) -> Option<
        i64,
    > {
        if indicator.macd_line > indicator.signal_line {
            Some(today.close)
        } else {
            None
        }
    }

    open spec fn spec_sell_signal(&self, today: StockPriceInfo, indicator: MACDResult) -> Option<
        i64,
    > {
        if indicator.macd_line < indicator.signal_line {
            Some(today.close)
        } else {
            None
        }
    }

    fn calculation(&mut self, stock_price_info: &StockPriceInfo, yesterday: &Option<
        StockPriceInfo,
    >) -> (r: MACDResult)
        ensures
            final(self).wf(),
            r == old(self).spec_indicator(*stock_price_info, *yesterday),
            old(self).calculation_post(*final(self), *stock_price_info, *yesterday),
            final(self).indicator_wf(r),
    {
        self.macd.next(stock_price_info.close)
    }

    fn buy_signal(&self, stock_price_info: &StockPriceInfo, indicator: &MACDResult) -> (r: Option<
        i64,
    >)
        ensures
            r == self.spec_buy_signal(*stock_price_info, *indicator),
            r matches Some(p) ==> 1 <= p <= PRICE_LIMIT,
    {
        if indicator.macd_line > indicator.signal_line {
            Some(stock_price_info.close)
        } else {
            None
        }
    }

    fn sell_signal(&self, stock_price_info: &StockPriceInfo, indicator: &MACDResult) -> (r: Option<
        i64,
    >)
        ensures
            r == self.spec_sell_signal(*stock_price_info, *indicator),
            r matches Some(p) ==> 0 <= p <= crate::price_cap(),
    {
        if indicator.macd_line < indicator.signal_line {
            Some(stock_price_info.close)
        } else {
            None
        }
    }
}

} // verus!
