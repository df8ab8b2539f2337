//! Monte Carlo resampling: repeated random sub-samples, drawn without
//! replacement from the per-ticker outcomes, each reduced to the sum of the
//! outcomes it picked. The sums are returned in a wider type, so no draw can
//! overflow.

use vstd::prelude::*;

use rand::rngs::ThreadRng;

verus! {

#[verifier::external_type_specification]
#[verifier::external_body]
pub struct ExThreadRng(ThreadRng);

/// Relies on rand's `thread_rng`: a handle to the thread-local generator.
#[verifier::external_body]
fn fresh_rng() -> ThreadRng {
    rand::thread_rng()
}

/// Relies on rand's `seq::index::sample`: exactly `amount` distinct indices
/// drawn from `0..length` (`sample` panics when `amount` exceeds `length`).
/// Which indices come back depends on the generator, so nothing more is
/// assumed of them.
#[verifier::external_body]
fn sample_indices(rng: &mut ThreadRng, length: usize, amount: usize) -> (r: Vec<usize>)
    requires
        amount <= length,
    ensures
        r@.len() == amount,
        forall|i: int| 0 <= i < r@.len() ==> #[trigger] r@[i] < length,
        forall|i: int, j: int| 0 <= i < j < r@.len() ==> r@[i] != r@[j],
{
    rand::seq::index::sample(rng, length, amount).into_vec()
}

/// A draw: `amount` distinct positions of a population of `length`.
pub open spec fn valid_draw(idxs: Seq<usize>, amount: int, length: int) -> bool {
    &&& idxs.len() == amount
    &&& forall|i: int| 0 <= i < idxs.len() ==> (#[trigger] idxs[i]) < length
    &&& forall|i: int, j: int| 0 <= i < j < idxs.len() ==> idxs[i] != idxs[j]
}

/// The sum of the outcomes at the drawn positions.
pub open spec fn drawn_sum(rois: Seq<i64>, idxs: Seq<usize>) -> int
    decreases idxs.len(),
{
    if idxs.len() == 0 {
        0
    } else {
        drawn_sum(rois, idxs.drop_last()) + rois[idxs.last() as int]
    }
}

/// Whether `v` is the sum of some draw of `amount` distinct outcomes.
pub open spec fn is_draw_sum(rois: Seq<i64>, amount: int, v: i128) -> bool {
    exists|idxs: Seq<usize>|
        valid_draw(idxs, amount, rois.len() as int) && v == drawn_sum(rois, idxs)
}

/// The sampling error: more distinct outcomes were asked for than exist.
#[derive(Clone, Copy, PartialEq, Eq, Structural, Debug)]
pub enum MonteCarloError {
    SampleLargerThanPopulation,
}

/// Each returned value is the sum of exactly `how_much_to_pick` distinct
/// outcomes of `rois`, and there is one value per simulation. Asking for more
/// distinct outcomes than the population holds is the one error.
pub fn monte_carlo_simulation(rois: &Vec<i64>, num_simulations: usize, how_much_to_pick: usize)
    -> (r: Result<Vec<i128>, MonteCarloError>)
    requires
        rois@.len() <= 0x7fff_ffff_ffff_ffff,
    ensures
        r is Ok <==> how_much_to_pick <= rois@.len(),
        r matches Ok(outcome) ==> outcome@.len() == num_simulations && forall|k: int|
            0 <= k < outcome@.len() ==> is_draw_sum(
                rois@,
                how_much_to_pick as int,
                #[trigger] outcome@[k],
            ),
{
    if how_much_to_pick > rois.len() {
        return Err(MonteCarloError::SampleLargerThanPopulation);
    }
    let mut rng = fresh_rng();
    let mut outcome: Vec<i128> = Vec::new();
    let mut sim: usize = 0;
    while sim < num_simulations
        invariant
            rois@.len() <= 0x7fff_ffff_ffff_ffff,
            how_much_to_pick <= rois@.len(),
            0 <= sim <= num_simulations,
            outcome@.len() == sim,
            forall|k: int|
                0 <= k < outcome@.len() ==> is_draw_sum(
                    rois@,
                    how_much_to_pick as int,
                    #[trigger] outcome@[k],
                ),
        decreases num_simulations - sim,
    {
        let picked = sample_indices(&mut rng, rois.len(), how_much_to_pick);
        let mut picked_roi: i128 = 0;
        let mut j: usize = 0;
        while j < picked.len()
            invariant
                rois@.len() <= 0x7fff_ffff_ffff_ffff,
                0 <= j <= picked@.len(),
                picked@.len() <= rois@.len(),
                forall|i: int| 0 <= i < picked@.len() ==> (#[trigger] picked@[i]) < rois@.len(),
                picked_roi == drawn_sum(rois@, picked@.take(j as int)),
                j as int * (i64::MIN as int) <= picked_roi <= j as int * (i64::MAX as int),
            decreases picked@.len() - j,
        {
            proof {
                assert(picked@.take(j + 1).drop_last() =~= picked@.take(j as int));
                assert(picked@.take(j + 1).last() == picked@[j as int]);
                assert((j + 1) * (i64::MIN as int) == j as int * (i64::MIN as int) + (
                i64::MIN as int)) by {
                    vstd::arithmetic::mul::lemma_mul_is_distributive_add_other_way(
                        i64::MIN as int,
                        j as int,
                        1,
                    );
                }
                assert((j + 1) * (i64::MAX as int) == j as int * (i64::MAX as int) + (
                i64::MAX as int)) by {
                    vstd::arithmetic::mul::lemma_mul_is_distributive_add_other_way(
                        i64::MAX as int,
                        j as int,
                        1,
                    );
                }
            }
            picked_roi = picked_roi + (rois[picked[j]] as i128);
            j = j + 1;
        }
        proof {
            assert(picked@.take(picked@.len() as int) =~= picked@);
            assert(valid_draw(picked@, how_much_to_pick as int, rois@.len() as int));
        }
        let ghost outcome_before = outcome@;
        outcome.push(picked_roi);
        proof {
            assert forall|k: int|
                0 <= k < outcome@.len() implies is_draw_sum(
                rois@,
                how_much_to_pick as int,
                #[trigger] outcome@[k],
            ) by {
                if k == outcome@.len() - 1 {
                    assert(valid_draw(picked@, how_much_to_pick as int, rois@.len() as int)
                        && outcome@[k] == drawn_sum(rois@, picked@));
                } else {
                    assert(outcome@[k] == outcome_before[k]);
                }
            }
        }
        sim = sim + 1;
    }
    Ok(outcome)
}

} // verus!
