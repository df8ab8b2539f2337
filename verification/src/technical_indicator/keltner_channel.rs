//! Keltner channel: a volatility band around an EMA, sized by a multiple of
//! the average true range. The multiple is carried in hundredths, so a
//! `channel_size` of 300 places the bands three ATRs away from the EMA.

use vstd::prelude::*;

use crate::technical_indicator::atr::{true_range, Atr};
use crate::technical_indicator::ema::{ema_next, Ema};
use crate::{CHANNEL_SIZE_LIMIT, LENGTH_LIMIT, PRICE_LIMIT};

verus! {

/// Half the width of the channel: `channel_size` hundredths of the ATR.
pub open spec fn band_width(channel_size: int, atr: int) -> int {
    (channel_size * atr) / 100
}

/// The half width is never negative and never exceeds the widest channel the
/// engine accepts around the largest price.
pub proof fn lemma_band_width_bounds(channel_size: int, atr: int)
    requires
        0 <= channel_size <= CHANNEL_SIZE_LIMIT,
        0 <= atr <= PRICE_LIMIT,
    ensures
        0 <= band_width(channel_size, atr) <= (CHANNEL_SIZE_LIMIT / 100) * PRICE_LIMIT,
{
    assert(0 <= channel_size * atr <= CHANNEL_SIZE_LIMIT * PRICE_LIMIT) by (nonlinear_arith)
        requires
            0 <= channel_size <= CHANNEL_SIZE_LIMIT,
            0 <= atr <= PRICE_LIMIT,
    ;
    crate::math::lemma_div_ordered(channel_size * atr, CHANNEL_SIZE_LIMIT * PRICE_LIMIT, 100);
    crate::math::lemma_div_ordered(0, channel_size * atr, 100);
    assert((CHANNEL_SIZE_LIMIT * PRICE_LIMIT) / 100 == (CHANNEL_SIZE_LIMIT / 100) * PRICE_LIMIT)
        by {
        crate::math::lemma_div_exact((CHANNEL_SIZE_LIMIT / 100) * PRICE_LIMIT, 100);
        assert(100 * ((CHANNEL_SIZE_LIMIT / 100) * PRICE_LIMIT) == CHANNEL_SIZE_LIMIT
            * PRICE_LIMIT) by {
            vstd::arithmetic::mul::lemma_mul_is_associative(
                100,
                CHANNEL_SIZE_LIMIT / 100,
                PRICE_LIMIT as int,
            );
        }
    }
}

pub struct KeltnerChannel {
    pub channel_size: i64,
    pub ema: Ema,
    pub atr: Atr,
}

#[derive(Clone, Copy, PartialEq, Eq, Structural, Debug)]
pub struct KeltnerChannelResult {
    pub ema: i64,
    pub upper_band: i64,
    pub lower_band: i64,
}

impl KeltnerChannelResult {
    /// The three channel values in ascending order: lower band, EMA, upper band.
    pub fn to_row(&self) -> (r: Vec<i64>)
        ensures
            r@ == seq![self.lower_band, self.ema, self.upper_band],
    {
        let mut r: Vec<i64> = Vec::new();
        r.push(self.lower_band);
        r.push(self.ema);
        r.push(self.upper_band);
        proof {
            assert(r@ =~= seq![self.lower_band, self.ema, self.upper_band]);
        }
        r
    }
}

impl KeltnerChannel {
    /// The channel state one bar leaves behind: the EMA advances on the
    /// price, the ATR on the bar's true range; the width multiplier never
    /// changes.
    pub open spec fn spec_step(
        self,
        price: i64,
        today_high: i64,
        today_low: i64,
        yesterday_close: i64,
    ) -> Self {
        KeltnerChannel {
            channel_size: self.channel_size,
            ema: Ema {
                length: self.ema.length,
                current_ema: ema_next(
                    self.ema.current_ema as int,
                    price as int,
                    self.ema.length as int,
                ) as i64,
            },
            atr: Atr {
                atr_ema: Ema {
                    length: self.atr.atr_ema.length,
                    current_ema: ema_next(
                        self.atr.current_atr(),
                        true_range(today_high as int, today_low as int, yesterday_close as int),
                        self.atr.atr_ema.length as int,
                    ) as i64,
                },
            },
        }
    }

    pub open spec fn wf(&self) -> bool {
        &&& self.ema.wf()
        &&& self.atr.wf()
        &&& 0 <= self.ema.current_ema
        &&& 0 <= self.channel_size <= CHANNEL_SIZE_LIMIT
    }

    /// The result recomputed from the stored EMA and ATR states.
    pub open spec fn spec_current(&self) -> KeltnerChannelResult {
        let width = band_width(self.channel_size as int, self.atr.current_atr());
        KeltnerChannelResult {
            ema: self.ema.current_ema,
            upper_band: (self.ema.current_ema + width) as i64,
            lower_band: (self.ema.current_ema - width) as i64,
        }
    }

    pub fn new(length: usize, channel_size: i64) -> (r: Self)
        requires
            1 <= length <= LENGTH_LIMIT,
            0 <= channel_size <= CHANNEL_SIZE_LIMIT,
        ensures
            r.wf(),
            r.channel_size == channel_size,
            r.ema.length == length,
            r.atr.atr_ema.length == length,
            r.ema.current_ema == 0,
            r.atr.current_atr() == 0,
    {
        Self { channel_size, ema: Ema::new(length), atr: Atr::new(length) }
    }

    pub fn current(&self) -> (r: KeltnerChannelResult)
        requires
            self.wf(),
        ensures
            r == self.spec_current(),
            r.upper_band - r.ema == r.ema - r.lower_band,
    {
        let width = self.compute_band_width();
        KeltnerChannelResult {
            ema: self.ema.current(),
            upper_band: self.ema.current() + width,
            lower_band: self.ema.current() - width,
        }
    }

    pub fn next(
        &mut self,
        price: i64,
        today_high: i64,
        today_low: i64,
        yesterday_close: i64,
    ) -> (r: KeltnerChannelResult)
        requires
            old(self).wf(),
            0 <= price <= PRICE_LIMIT,
            0 <= today_low <= today_high <= PRICE_LIMIT,
            0 <= yesterday_close <= PRICE_LIMIT,
        ensures
            final(self).wf(),
            *final(self) == old(self).spec_step(price, today_high, today_low, yesterday_close),
            final(self).channel_size == old(self).channel_size,
            final(self).ema.length == old(self).ema.length,
            final(self).atr.atr_ema.length == old(self).atr.atr_ema.length,
            final(self).ema.current_ema == ema_next(
                old(self).ema.current_ema as int,
                price as int,
                old(self).ema.length as int,
            ),
            final(self).atr.current_atr() == ema_next(
                old(self).atr.current_atr(),
                true_range(today_high as int, today_low as int, yesterday_close as int),
                old(self).atr.atr_ema.length as int,
            ),
            r == final(self).spec_current(),
            r.upper_band - r.ema == r.ema - r.lower_band,
    {
        let ema = self.ema.next(price);
        proof {
            crate::technical_indicator::ema::lemma_ema_next_nonneg(
                old(self).ema.current_ema as int,
                price as int,
                old(self).ema.length as int,
            );
        }
        let _ = self.atr.next(today_high, today_low, yesterday_close);
        let width = self.compute_band_width();
        KeltnerChannelResult { ema, upper_band: ema + width, lower_band: ema - width }
    }

    /// Half the channel width for the current ATR state.
    fn compute_band_width(&self) -> (r: i64)
        requires
            self.wf(),
        ensures
            r == band_width(self.channel_size as int, self.atr.current_atr()),
            0 <= r <= (CHANNEL_SIZE_LIMIT / 100) * PRICE_LIMIT,
    {
        proof {
            let cs = self.channel_size as int;
            let atr = self.atr.current_atr();
            assert(0 <= cs * atr <= CHANNEL_SIZE_LIMIT * PRICE_LIMIT) by (nonlinear_arith)
                requires
                    0 <= cs <= CHANNEL_SIZE_LIMIT,
                    0 <= atr <= PRICE_LIMIT,
            ;
        }
        let scaled = (self.channel_size as u64) * (self.atr.current() as u64);
        let width = (scaled / 100) as i64;
        proof {
            lemma_band_width_bounds(self.channel_size as int, self.atr.current_atr());
        }
        width
    }
}

} // verus!
