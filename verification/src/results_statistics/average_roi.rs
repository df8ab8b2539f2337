//! The mean of a set of per-ticker outcomes.

use vstd::prelude::*;

verus! {

/// The sum of a sequence of outcomes.
pub open spec fn outcomes_sum(s: Seq<i64>) -> int
    decreases s.len(),
{
    if s.len() == 0 {
        0
    } else {
        outcomes_sum(s.drop_last()) + s.last()
    }
}

/// The mean outcome, rounded toward negative infinity.
pub fn average_return_of_investment(rois: &Vec<i64>) -> (r: i64)
    requires
        1 <= rois@.len() <= 0x7fff_ffff_ffff_ffff,
    ensures
        r == outcomes_sum(rois@) / rois@.len() as int,
{
    let n = rois.len();
    let mut sum: i128 = 0;
    let mut i: usize = 0;
    while i < n
        invariant
            0 <= i <= n,
            n == rois@.len() <= 0x7fff_ffff_ffff_ffff,
            sum == outcomes_sum(rois@.take(i as int)),
            i as int * (i64::MIN as int) <= sum <= i as int * (i64::MAX as int),
        decreases n - i,
    {
        proof {
            assert(rois@.take(i + 1).drop_last() =~= rois@.take(i as int));
            assert(rois@.take(i + 1).last() == rois@[i as int]);
            assert((i + 1) * (i64::MIN as int) == i as int * (i64::MIN as int) + (i64::MIN as int))
                by {
                vstd::arithmetic::mul::lemma_mul_is_distributive_add_other_way(
                    i64::MIN as int,
                    i as int,
                    1,
                );
            }
            assert((i + 1) * (i64::MAX as int) == i as int * (i64::MAX as int) + (i64::MAX as int))
                by {
                vstd::arithmetic::mul::lemma_mul_is_distributive_add_other_way(
                    i64::MAX as int,
                    i as int,
                    1,
                );
            }
        }
        sum = sum + (rois[i] as i128);
        i = i + 1;
    }
    proof {
        assert(rois@.take(n as int) =~= rois@);
        let total = sum as int;
        let len = n as int;
        // The mean lies between the smallest and the largest representable
        // outcome, so it fits the result type.
        assert(len * (i64::MIN as int) <= total <= len * (i64::MAX as int)) by {
            vstd::arithmetic::mul::lemma_mul_is_commutative(len, i64::MIN as int);
            vstd::arithmetic::mul::lemma_mul_is_commutative(len, i64::MAX as int);
        }
        vstd::arithmetic::div_mod::lemma_div_is_ordered(len * (i64::MIN as int), total, len);
        vstd::arithmetic::div_mod::lemma_div_is_ordered(total, len * (i64::MAX as int), len);
        crate::math::lemma_div_exact(i64::MIN as int, len);
        crate::math::lemma_div_exact(i64::MAX as int, len);
    }
    let avg = if sum >= 0 {
        ((sum as u128) / (n as u128)) as i128
    } else {
        proof {
            crate::math::lemma_neg_ceil_is_floor(sum as int, n as int);
        }
        -((((-sum) as u128 + (n as u128 - 1)) / (n as u128)) as i128)
    };
    avg as i64
}

} // verus!
