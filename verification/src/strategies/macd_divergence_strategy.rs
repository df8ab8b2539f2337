//! Bullish MACD divergence: the price sets ever lower local minima while the
//! MACD line at those minima rises.
//!
//! Only the last two local minima, the MACD values at them, and whether at
//! least three minima were seen ever enter a decision, so exactly those are
//! carried in the per-day result.

use vstd::prelude::*;

use crate::stock_data::StockPriceInfo;
use crate::strategy_simulator::InvestingStrategy;
use crate::technical_indicator::macd::{macd_step_state, Macd, MACDResult};
use crate::strategies::macd_strategy::macd_step_result;
use crate::utils::rolling_window::RollingWindow;
use crate::PRICE_LIMIT;

verus! {

/// The last two local minima of the price and how many were seen so far (the
/// count saturates once it can no longer matter).
#[derive(Clone, Copy, PartialEq, Eq, Structural, Debug)]
pub struct LocalMinima {
    pub seen: u64,
    pub previous: i64,
    pub latest: i64,
}

/// The MACD values at the last two local minima.
#[derive(Clone, Copy, PartialEq, Eq, Structural, Debug)]
pub struct LocalMinimaMacd {
    pub previous: MACDResult,
    pub latest: MACDResult,
}

#[derive(Clone, Copy, PartialEq, Eq, Structural, Debug)]
pub struct MACDDivergenceResult {
    pub local_minimas: LocalMinima,
    pub local_minima_macd: LocalMinimaMacd,
    pub current_macd_result: MACDResult,
}

pub struct MACDDivergence {
    pub macd: Macd,
    pub last_three_price: RollingWindow<i64>,
    pub result: MACDDivergenceResult,
}

/// Whether a three-price window has a strict local minimum in its middle.
pub open spec fn window_has_minimum(w: Seq<i64>) -> bool {
    w.len() == 3 && w[0] > w[1] && w[1] < w[2]
}

/// The accumulated divergence record after one more minimum at price `m`.
pub open spec fn record_minimum(r: MACDDivergenceResult, m: i64, macd: MACDResult)
    -> MACDDivergenceResult {
    MACDDivergenceResult {
        local_minimas: LocalMinima {
            seen: if r.local_minimas.seen < u64::MAX {
                (r.local_minimas.seen + 1) as u64
            } else {
                r.local_minimas.seen
            },
            previous: r.local_minimas.latest,
            latest: m,
        },
        local_minima_macd: LocalMinimaMacd { previous: r.local_minima_macd.latest, latest: macd },
        current_macd_result: macd,
    }
}

/// The divergence record one price step produces.
pub open spec fn divergence_step(d: MACDDivergence, price: i64) -> MACDDivergenceResult {
    let macd_result = macd_step_result(d.macd, price);
    let w = crate::technical_indicator::rsi::contents_after_push(
        d.last_three_price@,
        3,
        price,
    );
    if window_has_minimum(w) {
        record_minimum(d.result, w[1], macd_result)
    } else {
        d.result
    }
}

impl MACDDivergence {
    pub open spec fn wf(&self) -> bool {
        &&& self.macd.wf()
        &&& self.last_three_price.max_size == 3
        &&& self.last_three_price@.len() <= 3
        &&& forall|i: int|
            0 <= i < self.last_three_price@.len() ==> 1 <= #[trigger] self.last_three_price@[i]
                <= PRICE_LIMIT
        &&& 0 <= self.result.local_minimas.previous <= PRICE_LIMIT
        &&& 0 <= self.result.local_minimas.latest <= PRICE_LIMIT
    }

    fn new() -> (r: Self)
        ensures
            r.wf(),
            r.macd.slow_period_ema.length == 26,
            r.macd.fast_period_ema.length == 12,
            r.macd.signal_period_ema.length == 9,
            r.macd.slow_period_ema.current_ema == 0,
            r.macd.fast_period_ema.current_ema == 0,
            r.macd.signal_period_ema.current_ema == 0,
            r.last_three_price@ == Seq::<i64>::empty(),
            r.result == (MACDDivergenceResult {
                local_minimas: LocalMinima { seen: 0u64, previous: 0i64, latest: 0i64 },
                local_minima_macd: LocalMinimaMacd {
                    previous: MACDResult { macd_line: 0i64, signal_line: 0i64 },
                    latest: MACDResult { macd_line: 0i64, signal_line: 0i64 },
                },
                current_macd_result: MACDResult { macd_line: 0i64, signal_line: 0i64 },
            }),
    {
        MACDDivergence {
            result: MACDDivergenceResult {
                local_minimas: LocalMinima { seen: 0u64, previous: 0i64, latest: 0i64 },
                local_minima_macd: LocalMinimaMacd {
                    previous: MACDResult { macd_line: 0i64, signal_line: 0i64 },
                    latest: MACDResult { macd_line: 0i64, signal_line: 0i64 },
                },
                current_macd_result: MACDResult { macd_line: 0i64, signal_line: 0i64 },
            },
            macd: Macd::default(),
            last_three_price: RollingWindow::new(3),
        }
    }

    pub fn next(&mut self, price: i64) -> (r: MACDDivergenceResult)
        requires
            old(self).wf(),
            1 <= price <= PRICE_LIMIT,
        ensures
            final(self).wf(),
            r == divergence_step(*old(self), price),
            final(self).result == r,
            final(self).macd == macd_step_state(old(self).macd, price),
            final(self).last_three_price.max_size == old(self).last_three_price.max_size,
            final(self).last_three_price@ == crate::technical_indicator::rsi::contents_after_push(
                old(self).last_three_price@,
                3,
                price,
            ),
    {
        let macd_result = self.macd.next(price);
        self.last_three_price.add(price);
        if self.is_local_minima() {
            let middle = *self.last_three_price.get(1).unwrap();
            self.result = MACDDivergenceResult {
                local_minimas: LocalMinima {
                    seen: if self.result.local_minimas.seen < u64::MAX {
                        self.result.local_minimas.seen + 1
                    } else {
                        self.result.local_minimas.seen
                    },
                    previous: self.result.local_minimas.latest,
                    latest: middle,
                },
                local_minima_macd: LocalMinimaMacd {
                    previous: self.result.local_minima_macd.latest,
                    latest: macd_result,
                },
                current_macd_result: macd_result,
            };
        }
        self.result
    }

    fn is_local_minima(&self) -> (r: bool)
        ensures
            r == window_has_minimum(self.last_three_price@),
    {
        let first = self.last_three_price.get(0);
        let middle = self.last_three_price.get(1);
        let last = self.last_three_price.get(2);
        if self.last_three_price.as_slice().len() == 3 {
            match (first, middle, last) {
                (Some(f), Some(m), Some(l)) => *f > *m && *m < *l,
                _ => false,
            }
        } else {
            false
        }
    }
}

pub struct MACDDivergenceStrategy {
    pub macd_divergence: MACDDivergence,
}

impl MACDDivergenceStrategy {
    pub fn default() -> (r: Self)
        ensures
            r.wf(),
            r.macd_divergence.last_three_price@ == Seq::<i64>::empty(),
            r.macd_divergence.result.local_minimas.seen == 0,
    {
        MACDDivergenceStrategy { macd_divergence: MACDDivergence::new() }
    }
}

impl InvestingStrategy<MACDDivergenceResult> for MACDDivergenceStrategy {
    open spec fn wf(&self) -> bool {
        self.macd_divergence.wf()
    }

    open spec fn indicator_wf(&self, indicator: MACDDivergenceResult) -> bool {
        &&& 0 <= indicator.local_minimas.previous <= PRICE_LIMIT
        &&& 0 <= indicator.local_minimas.latest <= PRICE_LIMIT
    }

    open spec fn spec_indicator(&self, today: StockPriceInfo, yesterday: Option<StockPriceInfo>)
        -> MACDDivergenceResult {
        divergence_step(self.macd_divergence, today.close)
    }

    open spec fn calculation_post(&self, post: Self, today: StockPriceInfo, yesterday: Option<
        StockPriceInfo,
    >) -> bool {
        // The three-price window sits in a growable container, so its
        // post-state is pinned through its view; everything else is pinned
        // exactly.
        &&& post.macd_divergence.macd == macd_step_state(self.macd_divergence.macd, today.close)
        &&& post.macd_divergence.last_three_price@
            == crate::technical_indicator::rsi::contents_after_push(
            self.macd_divergence.last_three_price@,
            3,
            today.close,
        )
        &&& post.macd_divergence.last_three_price.max_size
            == self.macd_divergence.last_three_price.max_size
        &&& post.macd_divergence.result == divergence_step(self.macd_divergence, today.close)
    }

    open spec fn spec_buy_signal(&self, today: StockPriceInfo, indicator: MACDDivergenceResult)
        -> Option<i64> {
        if indicator.local_minimas.seen > 2 && indicator.local_minimas.previous
            - indicator.local_minimas.latest > 2 && indicator.local_minima_macd.latest.macd_line
            > indicator.local_minima_macd.previous.macd_line {
            Some(today.close)
        } else {
            None
        }
    }

    open spec fn spec_sell_signal(&self, today: StockPriceInfo, indicator: MACDDivergenceResult)
        -> Option<i64> {
        if indicator.current_macd_result.macd_line > indicator.current_macd_result.signal_line {
            Some(today.close)
        } else {
            None
        }
    }

    fn calculation(&mut self, stock_price_info: &StockPriceInfo, yesterday: &Option<
        StockPriceInfo,
    >) -> (r: MACDDivergenceResult)
        ensures
            final(self).wf(),
            r == old(self).spec_indicator(*stock_price_info, *yesterday),
            old(self).calculation_post(*final(self), *stock_price_info, *yesterday),
            final(self).indicator_wf(r),
    {
        self.macd_divergence.next(stock_price_info.close)
    }

    fn buy_signal(&self, stock_price_info: &StockPriceInfo, indicator: &MACDDivergenceResult) -> (r:
        Option<i64>)
        ensures
            r == self.spec_buy_signal(*stock_price_info, *indicator),
            r matches Some(p) ==> 1 <= p <= PRICE_LIMIT,
    {
        if indicator.local_minimas.seen > 2 && indicator.local_minimas.previous
            - indicator.local_minimas.latest > 2 && indicator.local_minima_macd.latest.macd_line
            > indicator.local_minima_macd.previous.macd_line {
            Some(stock_price_info.close)
        } else {
            None
        }
    }

    fn sell_signal(&self, stock_price_info: &StockPriceInfo, indicator: &MACDDivergenceResult) -> (r:
        Option<i64>)
        ensures
            r == self.spec_sell_signal(*stock_price_info, *indicator),
            r matches Some(p) ==> 0 <= p <= crate::price_cap(),
    {
        if indicator.current_macd_result.macd_line > indicator.current_macd_result.signal_line {
            Some(stock_price_info.close)
        } else {
            None
        }
    }
}

} // verus!
