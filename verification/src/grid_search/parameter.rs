//! One axis of a search space: the values from `min` to `max` inclusive in
//! steps of `step`. The values are generated from the index, so the count is
//! exactly `(max - min) / step + 1` whenever the range is not empty; there is
//! no accumulation drift to admit or drop a boundary value.

use vstd::prelude::*;

use crate::AXIS_LIMIT;

verus! {

pub struct Parameter {
    pub min: i64,
    pub max: i64,
    pub step: i64,
}

impl Parameter {
    /// An axis the engine accepts: a positive step, and bounds small enough
    /// that stepping once past `max` cannot overflow.
    pub open spec fn wf(&self) -> bool {
        &&& 1 <= self.step <= AXIS_LIMIT
        &&& -AXIS_LIMIT <= self.min <= AXIS_LIMIT
        &&& -AXIS_LIMIT <= self.max <= AXIS_LIMIT
    }

    /// How many values the axis has.
    pub open spec fn count(&self) -> int {
        if self.min > self.max {
            0
        } else {
            (self.max - self.min) / self.step as int + 1
        }
    }

    pub fn new(min: i64, max: i64, step: i64) -> (r: Self)
        requires
            1 <= step <= AXIS_LIMIT,
            -AXIS_LIMIT <= min <= AXIS_LIMIT,
            -AXIS_LIMIT <= max <= AXIS_LIMIT,
        ensures
            r.wf(),
            r == (Parameter { min, max, step }),
    {
        Parameter { min, max, step }
    }

    pub fn values(&self) -> (r: Vec<i64>)
        requires
            self.wf(),
        ensures
            r@.len() == self.count(),
            forall|i: int|
                0 <= i < r@.len() ==> #[trigger] r@[i] == self.min + i * self.step,
    {
        let mut values: Vec<i64> = Vec::new();
        let mut current = self.min;
        proof {
            if self.min <= self.max {
                vstd::arithmetic::div_mod::lemma_div_pos_is_pos(
                    self.max - self.min,
                    self.step as int,
                );
            }
        }
        while current <= self.max
            invariant
                self.wf(),
                values@.len() <= self.count(),
                current == self.min + values@.len() * self.step,
                values@.len() > 0 ==> self.min + (values@.len() - 1) * self.step <= self.max,
                forall|i: int|
                    0 <= i < values@.len() ==> #[trigger] values@[i] == self.min + i * self.step,
            decreases self.max + self.step - current,
        {
            proof {
                let k = values@.len() as int;
                assert((k + 1) * self.step == k * self.step + self.step) by {
                    vstd::arithmetic::mul::lemma_mul_is_distributive_add_other_way(
                        self.step as int,
                        k,
                        1,
                    );
                }
                // current <= max, so k more than fits the count.
                assert(k + 1 <= self.count()) by {
                    assert(k * self.step <= self.max - self.min);
                    vstd::arithmetic::div_mod::lemma_div_is_ordered(
                        k * self.step,
                        self.max - self.min,
                        self.step as int,
                    );
                    crate::math::lemma_div_exact(k, self.step as int);
                    vstd::arithmetic::mul::lemma_mul_is_commutative(k, self.step as int);
                }
            }
            values.push(current);
            current = current + self.step;
        }
        proof {
            let k = values@.len() as int;
            if self.min > self.max {
                assert(k == 0);
            } else {
                // current overshot: min + k*step > max >= min + (k-1)*step, so
                // k - 1 is exactly the quotient of (max - min) by step.
                assert(k >= 1);
                let x = self.max - self.min;
                let r = x - (k - 1) * self.step;
                assert((k - 1) * self.step == k * self.step - self.step) by {
                    vstd::arithmetic::mul::lemma_mul_is_distributive_sub_other_way(
                        self.step as int,
                        k,
                        1,
                    );
                }
                assert(0 <= r < self.step);
                vstd::arithmetic::div_mod::lemma_fundamental_div_mod_converse(
                    x,
                    self.step as int,
                    k - 1,
                    r,
                );
            }
        }
        values
    }
}

} // verus!
