//! How many per-ticker outcomes beat the initial investment.

use vstd::prelude::*;

verus! {

/// How many elements of `s` are strictly greater than `threshold`.
pub open spec fn count_above(s: Seq<i64>, threshold: i64) -> int
    decreases s.len(),
{
    if s.len() == 0 {
        0
    } else {
        count_above(s.drop_last(), threshold) + if s.last() > threshold {
            1int
        } else {
            0int
        }
    }
}

pub fn number_of_profitable_investments(rois: &Vec<i64>, initial_investment: i64) -> (r: usize)
    ensures
        r == count_above(rois@, initial_investment),
        r <= rois@.len(),
{
    let n = rois.len();
    let mut count: usize = 0;
    let mut i: usize = 0;
    while i < n
        invariant
            0 <= i <= n,
            n == rois@.len(),
            count == count_above(rois@.take(i as int), initial_investment),
            count <= i,
        decreases n - i,
    {
        proof {
            assert(rois@.take(i + 1).drop_last() =~= rois@.take(i as int));
            assert(rois@.take(i + 1).last() == rois@[i as int]);
        }
        if rois[i] > initial_investment {
            count = count + 1;
        }
        i = i + 1;
    }
    proof {
        assert(rois@.take(n as int) =~= rois@);
    }
    count
}

} // verus!
