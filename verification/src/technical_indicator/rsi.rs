//! Relative strength index over the last `length + 1` prices, kept in a ring
//! buffer of fixed capacity.
//!
//! Successive price differences are split into losses (negative differences)
//! and gains (non-negative differences), each summed with its sign, and the
//! index is `100 - 100 / (1 + gains / losses)`, which over those signed sums
//! equals `100 * gains / (gains + losses)`. The result is reported in
//! hundredths of a point. When the signed sums cancel exactly the ratio has
//! no finite value; the result is then `None`, and every threshold comparison
//! on it is false, as a comparison on a non-finite number would be.

use vstd::prelude::*;

use ringbuf::traits::{Consumer, RingBuffer};

use crate::{LENGTH_LIMIT, PRICE_LIMIT};

verus! {

/// A heap-backed ring buffer of prices from the ringbuf crate. Verus cannot
/// read the crate's type, so the buffer is held opaquely and is known only
/// through `rb_contents` and `rb_capacity` and the trusted wrappers below.
#[verifier::external_body]
pub struct PriceRing {
    rb: ringbuf::LocalRb<ringbuf::storage::Heap<i64>>,
}

/// The prices a ring buffer holds, oldest first.
pub uninterp spec fn rb_contents(rb: PriceRing) -> Seq<i64>;

/// The capacity a ring buffer was created with.
pub uninterp spec fn rb_capacity(rb: PriceRing) -> nat;

/// Relies on ringbuf's `LocalRb::new`: an empty ring buffer with the given
/// capacity (`new` panics on capacity zero).
#[verifier::external_body]
fn rb_new(capacity: usize) -> (r: PriceRing)
    requires
        1 <= capacity,
    ensures
        rb_contents(r) == Seq::<i64>::empty(),
        rb_capacity(r) == capacity,
{
    PriceRing { rb: ringbuf::LocalRb::<ringbuf::storage::Heap<i64>>::new(capacity) }
}

/// Relies on ringbuf's `RingBuffer::push_overwrite`: appends the element,
/// first dropping the oldest one when the buffer is full.
#[verifier::external_body]
fn rb_push_overwrite(rb: &mut PriceRing, value: i64)
    ensures
        rb_capacity(*final(rb)) == rb_capacity(*old(rb)),
        rb_contents(*final(rb)) == if rb_contents(*old(rb)).len() < rb_capacity(*old(rb)) {
            rb_contents(*old(rb)).push(value)
        } else {
            rb_contents(*old(rb)).drop_first().push(value)
        },
{
    rb.rb.push_overwrite(value);
}

/// Relies on ringbuf's `Consumer::iter`: yields the stored items, oldest first.
#[verifier::external_body]
fn rb_to_vec(rb: &PriceRing) -> (r: Vec<i64>)
    ensures
        r@ == rb_contents(*rb),
{
    rb.rb.iter().copied().collect()
}

/// What the ring buffer holds after one more price: appended, with the
/// oldest price dropped first when the buffer is already full.
pub open spec fn contents_after_push(s: Seq<i64>, capacity: nat, price: i64) -> Seq<i64> {
    if s.len() < capacity {
        s.push(price)
    } else {
        s.drop_first().push(price)
    }
}

/// Signed sum of the non-negative successive differences of `s`.
pub open spec fn gains_sum(s: Seq<i64>) -> int
    decreases s.len(),
{
    if s.len() < 2 {
        0
    } else {
        gains_sum(s.drop_last()) + if s[s.len() - 1] >= s[s.len() - 2] {
            s[s.len() - 1] - s[s.len() - 2]
        } else {
            0
        }
    }
}

/// Signed sum of the negative successive differences of `s`.
pub open spec fn losses_sum(s: Seq<i64>) -> int
    decreases s.len(),
{
    if s.len() < 2 {
        0
    } else {
        losses_sum(s.drop_last()) + if s[s.len() - 1] < s[s.len() - 2] {
            s[s.len() - 1] - s[s.len() - 2]
        } else {
            0
        }
    }
}

/// `100 * gains / (gains + losses)` in hundredths of a point, rounded toward
/// zero; no finite value when the signed sums cancel.
pub open spec fn rsi_value(gains: int, losses: int) -> Option<int> {
    let d = gains + losses;
    if d == 0 {
        None
    } else if d > 0 {
        Some((10000 * gains) / d)
    } else {
        Some(-((10000 * gains) / (-d)))
    }
}

/// The index over the prices currently held.
pub open spec fn rsi_of(s: Seq<i64>) -> Option<int> {
    rsi_value(gains_sum(s), losses_sum(s))
}

pub struct Rsi {
    pub last_prices_ring_buffer: PriceRing,
}

#[derive(Clone, Copy, PartialEq, Eq, Structural, Debug)]
pub struct RsiResult {
    pub rsi_line: Option<i64>,
}

impl Rsi {
    pub open spec fn contents(&self) -> Seq<i64> {
        rb_contents(self.last_prices_ring_buffer)
    }

    pub open spec fn capacity(&self) -> nat {
        rb_capacity(self.last_prices_ring_buffer)
    }

    pub open spec fn wf(&self) -> bool {
        &&& 1 <= self.capacity() <= LENGTH_LIMIT + 1
        &&& self.contents().len() <= self.capacity()
        &&& forall|i: int|
            0 <= i < self.contents().len() ==> 1 <= #[trigger] self.contents()[i] <= PRICE_LIMIT
    }

    pub fn new(length: usize) -> (r: Self)
        requires
            1 <= length <= LENGTH_LIMIT,
        ensures
            r.wf(),
            r.capacity() == length + 1,
            r.contents() == Seq::<i64>::empty(),
    {
        Rsi { last_prices_ring_buffer: rb_new(length + 1) }
    }

    pub fn next(&mut self, price: i64) -> (r: RsiResult)
        requires
            old(self).wf(),
            1 <= price <= PRICE_LIMIT,
        ensures
            final(self).wf(),
            final(self).capacity() == old(self).capacity(),
            final(self).contents() == contents_after_push(
                old(self).contents(),
                old(self).capacity(),
                price,
            ),
            r.rsi_line == match rsi_of(final(self).contents()) {
                Some(v) => Some(v as i64),
                None => None::<i64>,
            },
    {
        rb_push_overwrite(&mut self.last_prices_ring_buffer, price);
        let prices = rb_to_vec(&self.last_prices_ring_buffer);
        let ghost c = self.contents();
        let n = prices.len();
        let mut gains: i64 = 0;
        let mut losses: i64 = 0;
        let mut i: usize = 1;
        if n >= 2 {
            while i < n
                invariant
                    1 <= i <= n,
                    n == c.len(),
                    prices@ == c,
                    forall|j: int| 0 <= j < c.len() ==> 1 <= #[trigger] c[j] <= PRICE_LIMIT,
                    n <= LENGTH_LIMIT + 1,
                    gains == gains_sum(c.take(i as int)),
                    losses == losses_sum(c.take(i as int)),
                    0 <= gains <= (i - 1) * (PRICE_LIMIT as int),
                    -((i - 1) * (PRICE_LIMIT as int)) <= losses <= 0,
                decreases n - i,
            {
                proof {
                    lemma_sums_step(c, i as int);
                    assert((i - 1) * (PRICE_LIMIT as int) + PRICE_LIMIT as int
                        == (i as int) * (PRICE_LIMIT as int)) by {
                        vstd::arithmetic::mul::lemma_mul_is_distributive_add_other_way(
                            PRICE_LIMIT as int,
                            i - 1,
                            1,
                        );
                    }
                }
                let diff = prices[i] - prices[i - 1];
                if diff < 0 {
                    losses = losses + diff;
                } else {
                    gains = gains + diff;
                }
                i = i + 1;
            }
            proof {
                assert(c.take(n as int) =~= c);
            }
        } else {
            proof {
                assert(gains_sum(c) == 0 && losses_sum(c) == 0);
            }
        }
        proof {
            vstd::arithmetic::mul::lemma_mul_inequality(
                n - 1,
                LENGTH_LIMIT as int,
                PRICE_LIMIT as int,
            );
        }
        let d = gains + losses;
        let rsi_line = if d == 0 {
            None
        } else if d > 0 {
            let scaled = 10000u64 * (gains as u64);
            proof {
                vstd::arithmetic::div_mod::lemma_div_pos_is_pos(10000 * gains, d as int);
                vstd::arithmetic::div_mod::lemma_div_nonincreasing(10000 * gains, d as int);
            }
            Some((scaled / (d as u64)) as i64)
        } else {
            let scaled = 10000u64 * (gains as u64);
            proof {
                vstd::arithmetic::div_mod::lemma_div_pos_is_pos(10000 * gains, -(d as int));
                vstd::arithmetic::div_mod::lemma_div_nonincreasing(10000 * gains, -(d as int));
            }
            Some(-((scaled / ((-d) as u64)) as i64))
        };
        RsiResult { rsi_line }
    }
}

/// Extending a prefix by one price adds exactly one signed difference to one
/// of the two sums.
proof fn lemma_sums_step(s: Seq<i64>, i: int)
    requires
        1 <= i < s.len(),
    ensures
        gains_sum(s.take(i + 1)) == gains_sum(s.take(i)) + if s[i] >= s[i - 1] {
            s[i] - s[i - 1]
        } else {
            0
        },
        losses_sum(s.take(i + 1)) == losses_sum(s.take(i)) + if s[i] < s[i - 1] {
            s[i] - s[i - 1]
        } else {
            0
        },
{
    assert(s.take(i + 1).drop_last() =~= s.take(i));
    assert(s.take(i + 1)[i] == s[i]);
    assert(s.take(i + 1)[i - 1] == s[i - 1]);
}

} // verus!
