//! Buys when the close runs far enough above a long EMA, sells once the EMA
//! runs far enough above the close. The distances are relative and carried in
//! basis points; comparisons are by cross multiplication, so they are exact,
//! and an EMA still at zero counts as infinitely far below any positive
//! close, as a division by that zero would.

use vstd::prelude::*;

use crate::stock_data::StockPriceInfo;
use crate::strategy_simulator::InvestingStrategy;
use crate::technical_indicator::ema::{ema_next, Ema};
use crate::{BP_SCALE, LENGTH_LIMIT, PCT_LIMIT, PRICE_LIMIT};

verus! {

pub struct EmaLongTermTrendStrategy {
    pub ema: Ema,
    pub buy_percentage_diff_from_ema: i64,
    pub sell_percentage_diff_from_ema: i64,
}

#[derive(Clone, Copy, PartialEq, Eq, Structural, Debug)]
pub struct EmaLongTermTrendResult {
    pub ema: i64,
}

impl EmaLongTermTrendStrategy {
    pub fn new(
        ema_length: usize,
        buy_percentage_diff_from_ema: i64,
        sell_percentage_diff_from_ema: i64,
    ) -> (r: Self)
        requires
            1 <= ema_length <= LENGTH_LIMIT,
            -PCT_LIMIT <= buy_percentage_diff_from_ema <= PCT_LIMIT,
            -PCT_LIMIT <= sell_percentage_diff_from_ema <= PCT_LIMIT,
        ensures
            r.wf(),
            r.ema.length == ema_length,
            r.ema.current_ema == 0,
            r.buy_percentage_diff_from_ema == buy_percentage_diff_from_ema,
            r.sell_percentage_diff_from_ema == sell_percentage_diff_from_ema,
    {
        Self {
            ema: Ema::new(ema_length),
            buy_percentage_diff_from_ema,
            sell_percentage_diff_from_ema,
        }
    }
}

impl EmaLongTermTrendStrategy {
    /// The state one bar leaves behind: the average advances exactly once,
    /// fed the close; the thresholds never change.
    pub open spec fn spec_step(self, today: StockPriceInfo) -> Self {
        Self {
            ema: Ema {
                length: self.ema.length,
                current_ema: ema_next(
                    self.ema.current_ema as int,
                    today.close as int,
                    self.ema.length as int,
                ) as i64,
            },
            ..self
        }
    }
}

/// Whether `(close - ema) / ema > threshold`, the threshold in basis points.
pub open spec fn above_ema_by(close: i64, ema: i64, threshold_bp: i64) -> bool {
    (close - ema) * BP_SCALE as int > threshold_bp * ema
}

/// Whether `(ema - close) / close > threshold`, the threshold in basis points.
pub open spec fn below_ema_by(close: i64, ema: i64, threshold_bp: i64) -> bool {
    (ema - close) * BP_SCALE as int > threshold_bp * close
}

impl InvestingStrategy<EmaLongTermTrendResult> for EmaLongTermTrendStrategy {
    open spec fn wf(&self) -> bool {
        &&& self.ema.wf()
        &&& 0 <= self.ema.current_ema
        &&& -PCT_LIMIT <= self.buy_percentage_diff_from_ema <= PCT_LIMIT
        &&& -PCT_LIMIT <= self.sell_percentage_diff_from_ema <= PCT_LIMIT
    }

    open spec fn indicator_wf(&self, indicator: EmaLongTermTrendResult) -> bool {
        0 <= indicator.ema <= PRICE_LIMIT
    }

    open spec fn spec_indicator(&self, today: StockPriceInfo, yesterday: Option<StockPriceInfo>)
        -> EmaLongTermTrendResult {
        EmaLongTermTrendResult {
            ema: ema_next(
                self.ema.current_ema as int,
                today.close as int,
                self.ema.length as int,
            ) as i64,
        }
    }

    open spec fn calculation_post(&self, post: Self, today: StockPriceInfo, yesterday: Option<
        StockPriceInfo,
    >) -> bool {
        post == self.spec_step(today)
    }

    open spec fn spec_buy_signal(&self, today: StockPriceInfo, indicator: EmaLongTermTrendResult)
        -> Option<i64> {
        if above_ema_by(today.close, indicator.ema, self.buy_percentage_diff_from_ema) {
            Some(today.close)
        } else {
            None
        }
    }

    open spec fn spec_sell_signal(&self, today: StockPriceInfo, indicator: EmaLongTermTrendResult)
        -> Option<i64> {
        if below_ema_by(today.close, indicator.ema, self.sell_percentage_diff_from_ema) {
            Some(today.close)
        } else {
            None
        }
    }

    fn calculation(&mut self, stock_price_info: &StockPriceInfo, yesterday: &Option<
        StockPriceInfo,
    >) -> (r: EmaLongTermTrendResult)
        ensures
            final(self).wf(),
            r == old(self).spec_indicator(*stock_price_info, *yesterday),
            old(self).calculation_post(*final(self), *stock_price_info, *yesterday),
            final(self).indicator_wf(r),
    {
        let ema = self.ema.next(stock_price_info.close);
        proof {
            crate::technical_indicator::ema::lemma_ema_next_nonneg(
                old(self).ema.current_ema as int,
                stock_price_info.close as int,
                old(self).ema.length as int,
            );
        }
        EmaLongTermTrendResult { ema }
    }

    fn buy_signal(&self, stock_price_info: &StockPriceInfo, indicator: &EmaLongTermTrendResult) -> (r:
        Option<i64>)
        ensures
            r == self.spec_buy_signal(*stock_price_info, *indicator),
            r matches Some(p) ==> 1 <= p <= PRICE_LIMIT,
    {
        proof {
            assert(-(PCT_LIMIT as int * PRICE_LIMIT as int) <= self.buy_percentage_diff_from_ema
                as int * indicator.ema as int <= PCT_LIMIT as int * PRICE_LIMIT as int)
                by (nonlinear_arith)
                requires
                    -PCT_LIMIT <= self.buy_percentage_diff_from_ema <= PCT_LIMIT,
                    0 <= indicator.ema <= PRICE_LIMIT,
            ;
        }
        if (stock_price_info.close - indicator.ema) * BP_SCALE > self.buy_percentage_diff_from_ema
            * indicator.ema {
            Some(stock_price_info.close)
        } else {
            None
        }
    }

    fn sell_signal(&self, stock_price_info: &StockPriceInfo, indicator: &EmaLongTermTrendResult) -> (r:
        Option<i64>)
        ensures
            r == self.spec_sell_signal(*stock_price_info, *indicator),
            r matches Some(p) ==> 0 <= p <= crate::price_cap(),
    {
        proof {
            assert(-(PCT_LIMIT as int * PRICE_LIMIT as int) <= self.sell_percentage_diff_from_ema
                as int * stock_price_info.close as int <= PCT_LIMIT as int * PRICE_LIMIT as int)
                by (nonlinear_arith)
                requires
                    -PCT_LIMIT <= self.sell_percentage_diff_from_ema <= PCT_LIMIT,
                    0 <= stock_price_info.close <= PRICE_LIMIT,
            ;
        }
        if (indicator.ema - stock_price_info.close) * BP_SCALE
            > self.sell_percentage_diff_from_ema * stock_price_info.close {
            Some(stock_price_info.close)
        } else {
            None
        }
    }
}

} // verus!
