//! Average true range: an EMA over the daily true range.

use vstd::prelude::*;

use crate::technical_indicator::ema::{ema_next, Ema};
use crate::{LENGTH_LIMIT, PRICE_LIMIT};

verus! {

/// The true range of a day: the widest of today's full span and the two gaps
/// from yesterday's close. All three spans count; a range reduced to the two
/// gaps alone would report zero volatility on any day inside yesterday's
/// close, however wide the day itself traded.
pub open spec fn true_range(today_high: int, today_low: int, yesterday_close: int) -> int {
    let full_span = today_high - today_low;
    let gap_up = today_high - yesterday_close;
    let gap_down = yesterday_close - today_low;
    if full_span >= gap_up && full_span >= gap_down {
        full_span
    } else if gap_up >= gap_down {
        gap_up
    } else {
        gap_down
    }
}

pub struct Atr {
    pub atr_ema: Ema,
}

impl Atr {
    pub open spec fn wf(&self) -> bool {
        &&& self.atr_ema.wf()
        &&& 0 <= self.atr_ema.current_ema
    }

    pub open spec fn current_atr(&self) -> int {
        self.atr_ema.current_ema as int
    }

    pub fn new(length: usize) -> (r: Self)
        requires
            1 <= length <= LENGTH_LIMIT,
        ensures
            r.wf(),
            r.atr_ema.length == length,
            r.current_atr() == 0,
    {
        Self { atr_ema: Ema::new(length) }
    }

    pub fn next(&mut self, today_high: i64, today_low: i64, yesterday_close: i64) -> (r: i64)
        requires
            old(self).wf(),
            0 <= today_low <= today_high <= PRICE_LIMIT,
            0 <= yesterday_close <= PRICE_LIMIT,
        ensures
            final(self).wf(),
            final(self).atr_ema.length == old(self).atr_ema.length,
            final(self).current_atr() == ema_next(
                old(self).current_atr(),
                true_range(today_high as int, today_low as int, yesterday_close as int),
                old(self).atr_ema.length as int,
            ),
            r == final(self).current_atr(),
    {
        let full_span = today_high - today_low;
        let gap_up = today_high - yesterday_close;
        let gap_down = yesterday_close - today_low;
        let tr = if full_span >= gap_up && full_span >= gap_down {
            full_span
        } else if gap_up >= gap_down {
            gap_up
        } else {
            gap_down
        };
        let r = self.atr_ema.next(tr);
        proof {
            crate::technical_indicator::ema::lemma_ema_next_nonneg(
                old(self).current_atr(),
                tr as int,
                old(self).atr_ema.length as int,
            );
        }
        r
    }

    pub fn current(&self) -> (r: i64)
        ensures
            r == self.current_atr(),
    {
        self.atr_ema.current()
    }
}

} // verus!
