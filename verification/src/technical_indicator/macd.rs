//! Moving average convergence divergence: the gap between a fast and a slow
//! EMA of the price, with a further EMA of that gap as the signal line.

use vstd::prelude::*;

use crate::technical_indicator::ema::{ema_next, Ema};
use crate::{LENGTH_LIMIT, PRICE_LIMIT};

verus! {

pub struct Macd {
    pub slow_period_ema: Ema,
    pub fast_period_ema: Ema,
    pub signal_period_ema: Ema,
}

#[derive(Clone, Copy, PartialEq, Eq, Structural, Debug)]
pub struct MACDResult {
    pub macd_line: i64,
    pub signal_line: i64,
}

/// The MACD state one price step leaves behind: the two price EMAs advance on
/// the price, the signal EMA on the line between them.
pub open spec fn macd_step_state(m: Macd, price: i64) -> Macd {
    let fast = ema_next(m.fast_period_ema.current_ema as int, price as int, m.fast_period_ema.length as int);
    let slow = ema_next(m.slow_period_ema.current_ema as int, price as int, m.slow_period_ema.length as int);
    Macd {
        slow_period_ema: Ema { length: m.slow_period_ema.length, current_ema: slow as i64 },
        fast_period_ema: Ema { length: m.fast_period_ema.length, current_ema: fast as i64 },
        signal_period_ema: Ema {
            length: m.signal_period_ema.length,
            current_ema: ema_next(
                m.signal_period_ema.current_ema as int,
                fast - slow,
                m.signal_period_ema.length as int,
            ) as i64,
        },
    }
}

impl Macd {
    pub open spec fn wf(&self) -> bool {
        &&& self.slow_period_ema.wf()
        &&& self.fast_period_ema.wf()
        &&& self.signal_period_ema.wf()
        &&& 0 <= self.slow_period_ema.current_ema
        &&& 0 <= self.fast_period_ema.current_ema
    }

    /// With equal fast and slow periods the two price EMAs can never diverge.
    pub open spec fn equal_period_state(&self) -> bool {
        &&& self.fast_period_ema.length == self.slow_period_ema.length
        &&& self.fast_period_ema.current_ema == self.slow_period_ema.current_ema
    }

    pub fn new(slow_period: usize, fast_period: usize, signal_period: usize) -> (r: Self)
        requires
            1 <= slow_period <= LENGTH_LIMIT,
            1 <= fast_period <= LENGTH_LIMIT,
            1 <= signal_period <= LENGTH_LIMIT,
        ensures
            r.wf(),
            r.slow_period_ema.length == slow_period,
            r.fast_period_ema.length == fast_period,
            r.signal_period_ema.length == signal_period,
            r.slow_period_ema.current_ema == 0,
            r.fast_period_ema.current_ema == 0,
            r.signal_period_ema.current_ema == 0,
            slow_period == fast_period ==> r.equal_period_state(),
    {
        Self {
            slow_period_ema: Ema::new(slow_period),
            fast_period_ema: Ema::new(fast_period),
            signal_period_ema: Ema::new(signal_period),
        }
    }

    pub fn default() -> (r: Self)
        ensures
            r.wf(),
            r.slow_period_ema.length == 26,
            r.fast_period_ema.length == 12,
            r.signal_period_ema.length == 9,
            r.slow_period_ema.current_ema == 0,
            r.fast_period_ema.current_ema == 0,
            r.signal_period_ema.current_ema == 0,
    {
        Self {
            slow_period_ema: Ema::new(26),
            fast_period_ema: Ema::new(12),
            signal_period_ema: Ema::new(9),
        }
    }

    pub fn next(&mut self, price: i64) -> (r: MACDResult)
        requires
            old(self).wf(),
            0 <= price <= PRICE_LIMIT,
        ensures
            final(self).wf(),
            *final(self) == macd_step_state(*old(self), price),
            final(self).slow_period_ema.length == old(self).slow_period_ema.length,
            final(self).fast_period_ema.length == old(self).fast_period_ema.length,
            final(self).signal_period_ema.length == old(self).signal_period_ema.length,
            final(self).fast_period_ema.current_ema == ema_next(
                old(self).fast_period_ema.current_ema as int,
                price as int,
                old(self).fast_period_ema.length as int,
            ),
            final(self).slow_period_ema.current_ema == ema_next(
                old(self).slow_period_ema.current_ema as int,
                price as int,
                old(self).slow_period_ema.length as int,
            ),
            r.macd_line == final(self).fast_period_ema.current_ema
                - final(self).slow_period_ema.current_ema,
            final(self).signal_period_ema.current_ema == ema_next(
                old(self).signal_period_ema.current_ema as int,
                r.macd_line as int,
                old(self).signal_period_ema.length as int,
            ),
            r.signal_line == final(self).signal_period_ema.current_ema,
            // With equal fast and slow periods the MACD line is always zero,
            // and the state the next day is again an equal-period state.
            old(self).equal_period_state() ==> r.macd_line == 0 && final(self).equal_period_state(),
    {
        let fast_ema = self.fast_period_ema.next(price);
        proof {
            crate::technical_indicator::ema::lemma_ema_next_nonneg(
                old(self).fast_period_ema.current_ema as int,
                price as int,
                old(self).fast_period_ema.length as int,
            );
        }
        let slow_ema = self.slow_period_ema.next(price);
        proof {
            crate::technical_indicator::ema::lemma_ema_next_nonneg(
                old(self).slow_period_ema.current_ema as int,
                price as int,
                old(self).slow_period_ema.length as int,
            );
        }
        let macd_line = fast_ema - slow_ema;
        let signal_line = self.signal_period_ema.next(macd_line);
        MACDResult { macd_line, signal_line }
    }
}

} // verus!
