//! Percentage distance of the current price from the running all-time high,
//! reported in basis points (one hundredth of a percent), rounded toward
//! zero. The resolution is one basis point: a price less than one
//! ten-thousandth below the high still reports zero, so a zero reading means
//! "at or within a basis point of the high", not "exactly at a new high".

use vstd::prelude::*;

use crate::{BP_SCALE, PRICE_LIMIT};

verus! {

/// How far `price` sits below the high, in basis points of the high.
pub open spec fn percent_off(ath: int, price: int) -> int {
    ((ath - price) * BP_SCALE) / ath
}

pub struct PercentOffAth {
    pub ath: i64,
    pub current_percent_off_ath: i64,
}

impl PercentOffAth {
    pub open spec fn wf(&self) -> bool {
        &&& 0 <= self.ath <= PRICE_LIMIT
        &&& 0 <= self.current_percent_off_ath <= BP_SCALE
    }

    pub fn new() -> (r: Self)
        ensures
            r.wf(),
            r.ath == 0,
            r.current_percent_off_ath == 0,
    {
        Self { ath: 0i64, current_percent_off_ath: 0i64 }
    }

    pub fn next(&mut self, price: i64) -> (r: i64)
        requires
            old(self).wf(),
            1 <= price <= PRICE_LIMIT,
        ensures
            final(self).wf(),
            final(self).ath == if price >= old(self).ath { price as int } else { old(self).ath as int },
            final(self).current_percent_off_ath == percent_off(final(self).ath as int, price as int),
            r == final(self).current_percent_off_ath,
    {
        if price >= self.ath {
            self.ath = price;
        }
        let gap = ((self.ath - price) as u64) * 10000u64;
        let pct = (gap / (self.ath as u64)) as i64;
        proof {
            let a = self.ath as int;
            let p = price as int;
            assert((a - p) * BP_SCALE <= a * BP_SCALE) by {
                vstd::arithmetic::mul::lemma_mul_inequality(a - p, a, BP_SCALE as int);
                vstd::arithmetic::mul::lemma_mul_is_commutative(a - p, BP_SCALE as int);
                vstd::arithmetic::mul::lemma_mul_is_commutative(a, BP_SCALE as int);
            }
            assert(0 <= (a - p) * BP_SCALE) by {
                vstd::arithmetic::mul::lemma_mul_nonnegative(a - p, BP_SCALE as int);
            }
            crate::math::lemma_div_ordered(0, (a - p) * BP_SCALE, a);
            crate::math::lemma_div_ordered((a - p) * BP_SCALE, a * BP_SCALE, a);
            assert((a * BP_SCALE) / a == BP_SCALE) by {
                crate::math::lemma_div_exact(BP_SCALE as int, a);
            }
        }
        self.current_percent_off_ath = pct;
        pct
    }
}

} // verus!
