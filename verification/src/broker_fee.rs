//! Broker fee capability: the cost of a buy or a sell as a function of the
//! share count and the price per share.

use vstd::prelude::*;

use crate::{price_cap, BP_SCALE};

verus! {

/// A fee schedule. Every fee is non-negative and never exceeds the notional
/// value of the trade, and a trade of zero shares costs nothing.
pub trait BrokerFee: Sized {
    spec fn wf(&self) -> bool;

    spec fn spec_buy_fee(&self, shares: usize, price_per_share: i64) -> int;

    spec fn spec_sell_fee(&self, shares: usize, price_per_share: i64) -> int;

    fn buy_fee(&self, shares: usize, price_per_share: i64) -> (r: i128)
        requires
            self.wf(),
            0 <= price_per_share <= price_cap(),
        ensures
            r as int == self.spec_buy_fee(shares, price_per_share),
            0 <= r as int <= shares as int * price_per_share as int,
    ;

    fn sell_fee(&self, shares: usize, price_per_share: i64) -> (r: i128)
        requires
            self.wf(),
            0 <= price_per_share <= price_cap(),
        ensures
            r as int == self.spec_sell_fee(shares, price_per_share),
            0 <= r as int <= shares as int * price_per_share as int,
    ;
}

/// A linear fee: a fixed fraction of the notional value, the same for buying
/// and for selling. The fraction is carried in basis points.
pub struct PricePercentageFee {
    pub percentage: u32,
}

impl PricePercentageFee {
    pub fn new(percentage: u32) -> (r: Self)
        requires
            percentage <= BP_SCALE,
        ensures
            r.percentage == percentage,
            r.wf(),
    {
        Self { percentage }
    }
}

/// The linear fee value: `percentage` basis points of `shares * price`.
pub open spec fn percentage_fee(percentage: u32, shares: usize, price_per_share: i64) -> int {
    (shares as int * price_per_share as int * percentage as int) / BP_SCALE as int
}

impl BrokerFee for PricePercentageFee {
    open spec fn wf(&self) -> bool {
        self.percentage <= BP_SCALE
    }

    open spec fn spec_buy_fee(&self, shares: usize, price_per_share: i64) -> int {
        percentage_fee(self.percentage, shares, price_per_share)
    }

    open spec fn spec_sell_fee(&self, shares: usize, price_per_share: i64) -> int {
        percentage_fee(self.percentage, shares, price_per_share)
    }

    fn buy_fee(&self, shares: usize, price_per_share: i64) -> (r: i128)
        ensures
            r as int == self.spec_buy_fee(shares, price_per_share),
            0 <= r as int <= shares as int * price_per_share as int,
    {
        compute_percentage_fee(self.percentage, shares, price_per_share)
    }

    fn sell_fee(&self, shares: usize, price_per_share: i64) -> (r: i128)
        ensures
            r as int == self.spec_sell_fee(shares, price_per_share),
            0 <= r as int <= shares as int * price_per_share as int,
    {
        compute_percentage_fee(self.percentage, shares, price_per_share)
    }
}

fn compute_percentage_fee(percentage: u32, shares: usize, price_per_share: i64) -> (r: i128)
    requires
        percentage <= BP_SCALE,
        0 <= price_per_share <= price_cap(),
    ensures
        r as int == percentage_fee(percentage, shares, price_per_share),
        0 <= r as int <= shares as int * price_per_share as int,
{
    proof {
        assert(shares as int * price_per_share as int <= 0x1_0000_0000_0000_0000 * price_cap())
            by (nonlinear_arith)
            requires
                0 <= (shares as int) < 0x1_0000_0000_0000_0000,
                0 <= price_per_share <= price_cap(),
        ;
    }
    let notional = (shares as u128) * (price_per_share as u128);
    proof {
        assert(notional as int * percentage as int <= notional as int * BP_SCALE)
            by (nonlinear_arith)
            requires
                0 <= notional as int,
                0 <= percentage <= BP_SCALE,
        ;
    }
    let scaled = notional * (percentage as u128);
    let fee = scaled / 10000u128;
    proof {
        let n = notional as int;
        vstd::arithmetic::div_mod::lemma_div_pos_is_pos(n * percentage as int, BP_SCALE as int);
        vstd::arithmetic::div_mod::lemma_div_is_ordered(
            n * percentage as int,
            n * BP_SCALE as int,
            BP_SCALE as int,
        );
        assert((n * BP_SCALE as int) / BP_SCALE as int == n) by {
            vstd::arithmetic::mul::lemma_mul_is_commutative(n, BP_SCALE as int);
            crate::math::lemma_div_exact(n, BP_SCALE as int);
        }
    }
    fee as i128
}

} // verus!
