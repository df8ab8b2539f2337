//! Floor division on signed fixed-point values.

use vstd::prelude::*;

verus! {

/// Floor division of `n` by a positive `d`; agrees with `int` division,
/// which is Euclidean and therefore flooring for a positive divisor.
pub fn div_floor_i64(n: i64, d: i64) -> (r: i64)
    requires
        1 <= d,
        i64::MIN < n,
    ensures
        r == n as int / d as int,
{
    if n >= 0 {
        let q = (n as u64) / (d as u64);
        q as i64
    } else {
        let m = (-n) as u64;
        let du = d as u64;
        let q = (m + (du - 1)) / du;
        proof {
            lemma_neg_ceil_is_floor(n as int, d as int);
            assert(q as int == (m as int + (d - 1)) / d as int);
        }
        -(q as i64)
    }
}

/// A quotient lies within `[-b, b]` whenever the dividend lies within `[-d*b, d*b]`.
pub proof fn lemma_div_within(num: int, d: int, b: int)
    requires
        1 <= d,
        0 <= b,
        -(d * b) <= num <= d * b,
    ensures
        -b <= num / d <= b,
{
    vstd::arithmetic::div_mod::lemma_div_is_ordered(-(d * b), num, d);
    vstd::arithmetic::div_mod::lemma_div_is_ordered(num, d * b, d);
    vstd::arithmetic::div_mod::lemma_div_multiples_vanish(b, d);
    vstd::arithmetic::div_mod::lemma_div_multiples_vanish(-b, d);
    assert(d * (-b) == -(d * b)) by {
        vstd::arithmetic::mul::lemma_mul_unary_negation(d, b);
    }
}

/// Division by a positive divisor keeps order.
pub proof fn lemma_div_ordered(x: int, y: int, d: int)
    requires
        1 <= d,
        x <= y,
    ensures
        x / d <= y / d,
{
    vstd::arithmetic::div_mod::lemma_div_is_ordered(x, y, d);
}

/// A multiple of the divisor divides exactly.
pub proof fn lemma_div_exact(a: int, d: int)
    requires
        1 <= d,
    ensures
        (d * a) / d == a,
{
    vstd::arithmetic::div_mod::lemma_div_multiples_vanish(a, d);
}

/// For a positive divisor, negating the ceiling of `-n / d` gives the floor of `n / d`.
pub proof fn lemma_neg_ceil_is_floor(n: int, d: int)
    requires
        n < 0,
        1 <= d,
    ensures
        -((-n + (d - 1)) / d) == n / d,
        0 < (-n + (d - 1)) / d <= -n,
{
    let m = -n;
    let q = (m + (d - 1)) / d;
    vstd::arithmetic::div_mod::lemma_fundamental_div_mod(m + (d - 1), d);
    vstd::arithmetic::div_mod::lemma_mod_bound(m + (d - 1), d);
    vstd::arithmetic::div_mod::lemma_fundamental_div_mod(n, d);
    vstd::arithmetic::div_mod::lemma_mod_bound(n, d);
    let r = (m + (d - 1)) % d;
    assert(m + (d - 1) == d * q + r);
    let s = n % d;
    assert(n == d * (n / d) + s);
    // d*q + r = d - 1 - n = d - 1 - d*(n/d) - s, so d*(q + n/d) = d - 1 - s - r.
    assert(d * q + d * (n / d) == d - 1 - s - r) by {
        assert(d * q == m + (d - 1) - r);
        assert(d * (n / d) == n - s);
    }
    assert(d * (q + n / d) == d - 1 - s - r) by {
        vstd::arithmetic::mul::lemma_mul_is_distributive_add(d, q, n / d);
    }
    // 0 <= s, r <= d - 1 gives -(d - 1) <= d*(q + n/d) <= d - 1, hence q + n/d == 0.
    assert(q + n / d == 0) by {
        let k = q + n / d;
        if k >= 1 {
            vstd::arithmetic::mul::lemma_mul_inequality(1, k, d);
            assert(d * k >= d * 1) by {
                vstd::arithmetic::mul::lemma_mul_is_commutative(d, k);
            }
            assert(false);
        }
        if k <= -1 {
            vstd::arithmetic::mul::lemma_mul_inequality(k, -1, d);
            assert(d * k <= d * (-1)) by {
                vstd::arithmetic::mul::lemma_mul_is_commutative(d, k);
            }
            assert(false);
        }
    }
    assert(q > 0) by {
        vstd::arithmetic::div_mod::lemma_div_non_zero(m + (d - 1), d);
    }
    assert(q <= m) by {
        assert(m + (d - 1) <= m * d) by {
            vstd::arithmetic::mul::lemma_mul_nonnegative(m - 1, d - 1);
            assert((m - 1) * (d - 1) == m * d - m - d + 1) by {
                vstd::arithmetic::mul::lemma_mul_is_distributive_sub_other_way(d - 1, m, 1);
                vstd::arithmetic::mul::lemma_mul_is_distributive_sub(m, d, 1);
                vstd::arithmetic::mul::lemma_mul_is_commutative(m - 1, d - 1);
                vstd::arithmetic::mul::lemma_mul_is_commutative(m, d - 1);
            }
        }
        vstd::arithmetic::div_mod::lemma_div_is_ordered(m + (d - 1), m * d, d);
        assert(m * d / d == m) by {
            vstd::arithmetic::div_mod::lemma_div_by_multiple(m, d);
        }
    }
}

} // verus!
