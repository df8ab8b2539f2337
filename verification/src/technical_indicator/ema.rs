//! Exponential moving average over a fixed-point price stream.
//!
//! The smoothing factor is the rational `k = 2 / (length + 1)`, so one step of
//! the recurrence `price * k + state * (1 - k)` is carried out exactly as
//! `(2 * price + (length - 1) * state) / (length + 1)`, rounded toward
//! negative infinity. The state starts at 0 before any input, so the first
//! call yields `price * k`, not `price`.

use vstd::prelude::*;

use crate::math::div_floor_i64;
use crate::{LENGTH_LIMIT, PRICE_LIMIT};

verus! {

/// One step of the EMA recurrence with smoothing `2 / (length + 1)`.
pub open spec fn ema_next(state: int, price: int, length: int) -> int {
    (2 * price + (length - 1) * state) / (length + 1)
}

pub struct Ema {
    pub length: usize,
    pub current_ema: i64,
}

impl Ema {
    pub open spec fn wf(&self) -> bool {
        &&& 1 <= self.length <= LENGTH_LIMIT
        &&& -PRICE_LIMIT <= self.current_ema <= PRICE_LIMIT
    }

    pub fn new(length: usize) -> (r: Self)
        requires
            1 <= length <= LENGTH_LIMIT,
        ensures
            r.wf(),
            r.length == length,
            r.current_ema == 0,
    {
        Self { length, current_ema: 0i64 }
    }

    pub fn next(&mut self, price: i64) -> (r: i64)
        requires
            old(self).wf(),
            -PRICE_LIMIT <= price <= PRICE_LIMIT,
        ensures
            final(self).wf(),
            final(self).length == old(self).length,
            final(self).current_ema == ema_next(
                old(self).current_ema as int,
                price as int,
                old(self).length as int,
            ),
            r == final(self).current_ema,
    {
        let l = self.length as i64;
        proof {
            assert(-((LENGTH_LIMIT as int) * (PRICE_LIMIT as int)) <= (l - 1) * self.current_ema
                <= (LENGTH_LIMIT as int) * (PRICE_LIMIT as int)) by (nonlinear_arith)
                requires
                    1 <= l <= LENGTH_LIMIT,
                    -PRICE_LIMIT <= self.current_ema <= PRICE_LIMIT,
            ;
            lemma_ema_next_within(self.current_ema as int, price as int, l as int, PRICE_LIMIT as int);
        }
        let num = 2 * price + (l - 1) * self.current_ema;
        let new_ema = div_floor_i64(num, l + 1);
        self.current_ema = new_ema;
        new_ema
    }

    pub fn current(&self) -> (r: i64)
        ensures
            r == self.current_ema,
    {
        self.current_ema
    }
}

/// One EMA step stays within any symmetric bound that holds of its inputs.
pub proof fn lemma_ema_next_within(state: int, price: int, length: int, b: int)
    requires
        1 <= length,
        0 <= b,
        -b <= state <= b,
        -b <= price <= b,
    ensures
        -b <= ema_next(state, price, length) <= b,
{
    let num = 2 * price + (length - 1) * state;
    assert(-((length - 1) * b) <= (length - 1) * state <= (length - 1) * b) by {
        vstd::arithmetic::mul::lemma_mul_inequality(-b, state, length - 1);
        vstd::arithmetic::mul::lemma_mul_inequality(state, b, length - 1);
        vstd::arithmetic::mul::lemma_mul_is_commutative(length - 1, state);
        vstd::arithmetic::mul::lemma_mul_is_commutative(length - 1, b);
        vstd::arithmetic::mul::lemma_mul_is_commutative(length - 1, -b);
        vstd::arithmetic::mul::lemma_mul_unary_negation(length - 1, b);
    }
    assert((length + 1) * b == (length - 1) * b + 2 * b) by {
        vstd::arithmetic::mul::lemma_mul_is_distributive_add_other_way(b, length - 1, 2);
    }
    crate::math::lemma_div_within(num, length + 1, b);
}

/// One EMA step over non-negative inputs stays non-negative.
pub proof fn lemma_ema_next_nonneg(state: int, price: int, length: int)
    requires
        1 <= length,
        0 <= state,
        0 <= price,
    ensures
        0 <= ema_next(state, price, length),
{
    let num = 2 * price + (length - 1) * state;
    assert(0 <= (length - 1) * state) by {
        vstd::arithmetic::mul::lemma_mul_nonnegative(length - 1, state);
    }
    crate::math::lemma_div_ordered(0, num, length + 1);
    crate::math::lemma_div_exact(0, length + 1);
    assert((length + 1) * 0 == 0);
}

/// A constant stream is a fixed point: once the state equals the price, one
/// more step of the recurrence returns exactly that price.
pub proof fn lemma_ema_constant_is_fixed_point(price: int, length: int)
    requires
        1 <= length,
    ensures
        ema_next(price, price, length) == price,
{
    assert(2 * price + (length - 1) * price == (length + 1) * price) by {
        vstd::arithmetic::mul::lemma_mul_is_distributive_add_other_way(price, length - 1, 2);
    }
    crate::math::lemma_div_exact(price, length + 1);
}

/// Fed a constant price, the EMA moves toward that price and never overshoots:
/// the new state lies between the old state and the price, and it moves
/// strictly whenever twice the remaining distance is at least `length + 1`.
/// So the distance to the price never grows, it shrinks until only the
/// fixed-point rounding remainder is left, and equality, once reached, is
/// kept.
pub proof fn lemma_ema_converges_to_constant(state: int, price: int, length: int)
    requires
        1 <= length,
    ensures
        state <= price ==> state <= ema_next(state, price, length) <= price,
        price <= state ==> price <= ema_next(state, price, length) <= state,
        2 * (price - state) >= length + 1 ==> state < ema_next(state, price, length),
        2 * (state - price) >= length + 1 ==> ema_next(state, price, length) < state,
{
    lemma_ema_strict_progress(state, price, length);
    let num = 2 * price + (length - 1) * state;
    assert(num == (length + 1) * state + 2 * (price - state)) by {
        vstd::arithmetic::mul::lemma_mul_is_distributive_add_other_way(state, length - 1, 2);
        vstd::arithmetic::mul::lemma_mul_is_distributive_sub(2, price, state);
    }
    if state <= price {
        assert((length + 1) * state <= num) by {
            vstd::arithmetic::mul::lemma_mul_inequality(0, price - state, 2);
        }
        assert(num <= (length + 1) * price) by {
            // 2 * (price - state) <= (length + 1) * (price - state)
            vstd::arithmetic::mul::lemma_mul_inequality(2, length + 1, price - state);
            vstd::arithmetic::mul::lemma_mul_is_commutative(length + 1, price - state);
            vstd::arithmetic::mul::lemma_mul_is_distributive_sub((length + 1), price, state);
            vstd::arithmetic::mul::lemma_mul_is_commutative(length + 1, price);
            vstd::arithmetic::mul::lemma_mul_is_commutative(length + 1, state);
        }
        crate::math::lemma_div_ordered((length + 1) * state, num, length + 1);
        crate::math::lemma_div_ordered(num, (length + 1) * price, length + 1);
        crate::math::lemma_div_exact(state, length + 1);
        crate::math::lemma_div_exact(price, length + 1);
    } else {
        assert(num <= (length + 1) * state) by {
            vstd::arithmetic::mul::lemma_mul_inequality(price - state, 0, 2);
        }
        assert((length + 1) * price <= num) by {
            vstd::arithmetic::mul::lemma_mul_inequality(2, length + 1, state - price);
            vstd::arithmetic::mul::lemma_mul_is_commutative(length + 1, state - price);
            vstd::arithmetic::mul::lemma_mul_is_distributive_sub((length + 1), state, price);
            vstd::arithmetic::mul::lemma_mul_is_commutative(length + 1, price);
            vstd::arithmetic::mul::lemma_mul_is_commutative(length + 1, state);
        }
        crate::math::lemma_div_ordered((length + 1) * price, num, length + 1);
        crate::math::lemma_div_ordered(num, (length + 1) * state, length + 1);
        crate::math::lemma_div_exact(state, length + 1);
        crate::math::lemma_div_exact(price, length + 1);
    }
}

/// One step moves strictly whenever twice the remaining distance covers one
/// whole smoothing denominator.
proof fn lemma_ema_strict_progress(state: int, price: int, length: int)
    requires
        1 <= length,
    ensures
        2 * (price - state) >= length + 1 ==> state < ema_next(state, price, length),
        2 * (state - price) >= length + 1 ==> ema_next(state, price, length) < state,
{
    let num = 2 * price + (length - 1) * state;
    assert(num == (length + 1) * state + 2 * (price - state)) by {
        vstd::arithmetic::mul::lemma_mul_is_distributive_add_other_way(state, length - 1, 2);
        vstd::arithmetic::mul::lemma_mul_is_distributive_sub(2, price, state);
    }
    if 2 * (price - state) >= length + 1 {
        assert((length + 1) * (state + 1) <= num) by {
            vstd::arithmetic::mul::lemma_mul_is_distributive_add(length + 1, state, 1);
        }
        crate::math::lemma_div_ordered((length + 1) * (state + 1), num, length + 1);
        crate::math::lemma_div_exact(state + 1, length + 1);
    }
    if 2 * (state - price) >= length + 1 {
        assert(num <= (length + 1) * (state - 1)) by {
            vstd::arithmetic::mul::lemma_mul_is_distributive_sub(length + 1, state, 1);
        }
        crate::math::lemma_div_ordered(num, (length + 1) * (state - 1), length + 1);
        crate::math::lemma_div_exact(state - 1, length + 1);
    }
}

} // verus!
