//! Buys when the RSI dips below a lower band, sells once it climbs over a
//! higher band. Both bands are in hundredths of a point, like the index
//! itself; a day without a finite index (see the RSI module) fires neither
//! signal, as a comparison on a non-finite value would not.

use vstd::prelude::*;

use crate::stock_data::StockPriceInfo;
use crate::strategy_simulator::InvestingStrategy;
use crate::technical_indicator::rsi::{contents_after_push, rsi_of, Rsi, RsiResult};
use crate::{LENGTH_LIMIT, PRICE_LIMIT};

verus! {

pub struct RsiStrategy {
    pub rsi: Rsi,
    pub lower_band: i64,
    pub higher_band: i64,
}

impl RsiStrategy {
    pub fn new(length: usize, lower_band: i64, higher_band: i64) -> (r: Self)
        requires
            1 <= length <= LENGTH_LIMIT,
        ensures
            r.wf(),
            r.rsi.capacity() == length + 1,
            r.rsi.contents() == Seq::<i64>::empty(),
            r.lower_band == lower_band,
            r.higher_band == higher_band,
    {
        RsiStrategy { rsi: Rsi::new(length), lower_band, higher_band }
    }
}

impl InvestingStrategy<RsiResult> for RsiStrategy {
    open spec fn wf(&self) -> bool {
        self.rsi.wf()
    }

    open spec fn indicator_wf(&self, indicator: RsiResult) -> bool {
        true
    }

    open spec fn spec_indicator(&self, today: StockPriceInfo, yesterday: Option<StockPriceInfo>)
        -> RsiResult {
        RsiResult {
            rsi_line: match rsi_of(
                contents_after_push(self.rsi.contents(), self.rsi.capacity(), today.close),
            ) {
                Some(v) => Some(v as i64),
                None => None::<i64>,
            },
        }
    }

    open spec fn calculation_post(&self, post: Self, today: StockPriceInfo, yesterday: Option<
        StockPriceInfo,
    >) -> bool {
        // The ring buffer is opaque, so its post-state is pinned through its
        // contents; the bands never change.
        &&& post.rsi.contents() == contents_after_push(
            self.rsi.contents(),
            self.rsi.capacity(),
            today.close,
        )
        &&& post.rsi.capacity() == self.rsi.capacity()
        &&& post.lower_band == self.lower_band
        &&& post.higher_band == self.higher_band
    }

    open spec fn spec_buy_signal(&self, today: StockPriceInfo, indicator: RsiResult) -> Option<
        i64,
    > {
        match indicator.rsi_line {
            Some(v) => if v < self.lower_band {
                Some(today.close)
            } else {
                None
            },
            None => None,
        }
    }

    open spec fn spec_sell_signal(&self, today: StockPriceInfo, indicator: RsiResult) -> Option<
        i64,
    > {
        match indicator.rsi_line {
            Some(v) => if v > self.higher_band {
                Some(today.close)
            } else {
                None
            },
            None => None,
        }
    }

    fn calculation(&mut self, stock_price_info: &StockPriceInfo, yesterday: &Option<
        StockPriceInfo,
    >) -> (r: RsiResult)
        ensures
            final(self).wf(),
            r == old(self).spec_indicator(*stock_price_info, *yesterday),
            old(self).calculation_post(*final(self), *stock_price_info, *yesterday),
            final(self).indicator_wf(r),
    {
        self.rsi.next(stock_price_info.close)
    }

    fn buy_signal(&self, stock_price_info: &StockPriceInfo, indicator: &RsiResult) -> (r: Option<
        i64,
    >)
        ensures
            r == self.spec_buy_signal(*stock_price_info, *indicator),
            r matches Some(p) ==> 1 <= p <= PRICE_LIMIT,
    {
        match indicator.rsi_line {
            Some(v) => if v < self.lower_band {
                Some(stock_price_info.close)
            } else {
                None
            },
            None => None,
        }
    }

    fn sell_signal(&self, stock_price_info: &StockPriceInfo, indicator: &RsiResult) -> (r: Option<
        i64,
    >)
        ensures
            r == self.spec_sell_signal(*stock_price_info, *indicator),
            r matches Some(p) ==> 0 <= p <= crate::price_cap(),
    {
        match indicator.rsi_line {
            Some(v) => if v > self.higher_band {
                Some(stock_price_info.close)
            } else {
                None
            },
            None => None,
        }
    }
}

} // verus!
