//! Exhaustive Cartesian enumeration over independent axes, evaluating a
//! caller-supplied objective at every point. Points are visited in
//! lexicographic order, the first axis outermost.

use vstd::prelude::*;

use crate::grid_search::parameter::Parameter;

verus! {

pub open spec fn params_wf(params: Seq<Parameter>) -> bool {
    forall|i: int| 0 <= i < params.len() ==> (#[trigger] params[i]).wf()
}

/// The values of one axis, in order.
pub open spec fn axis_values(p: Parameter) -> Seq<i64> {
    Seq::new(p.count() as nat, |i: int| (p.min + i * p.step) as i64)
}

/// Every grid point that starts with `prefix` and continues through `params`,
/// in lexicographic order with the first remaining axis outermost.
pub open spec fn points_from(prefix: Seq<i64>, params: Seq<Parameter>) -> Seq<Seq<i64>>
    decreases params.len(), 0nat,
{
    if params.len() == 0 {
        seq![prefix]
    } else {
        points_from_vals(prefix, axis_values(params.first()), params.drop_first())
    }
}

/// The points over `params` whose next coordinate runs through `vals`.
pub open spec fn points_from_vals(prefix: Seq<i64>, vals: Seq<i64>, params: Seq<Parameter>)
    -> Seq<Seq<i64>>
    decreases params.len(), vals.len() + 1nat,
{
    if vals.len() == 0 {
        Seq::<Seq<i64>>::empty()
    } else {
        points_from(prefix.push(vals.first()), params) + points_from_vals(
            prefix,
            vals.drop_first(),
            params,
        )
    }
}

/// The whole grid: every combination of one value per axis.
pub open spec fn grid_points(params: Seq<Parameter>) -> Seq<Seq<i64>> {
    points_from(Seq::<i64>::empty(), params)
}

/// The product of the per-axis counts.
pub open spec fn count_product(params: Seq<Parameter>) -> int
    decreases params.len(),
{
    if params.len() == 0 {
        1
    } else {
        params.first().count() * count_product(params.drop_first())
    }
}

/// The grid has exactly one point per combination: its size is the product of
/// the per-axis counts, whatever prefix the points extend.
pub proof fn lemma_points_from_len(prefix: Seq<i64>, params: Seq<Parameter>)
    requires
        params_wf(params),
    ensures
        points_from(prefix, params).len() == count_product(params),
    decreases params.len(), 0nat,
{
    if params.len() == 0 {
    } else {
        let first = params.first();
        assert(params[0].wf());
        if first.min <= first.max {
            vstd::arithmetic::div_mod::lemma_div_pos_is_pos(
                first.max - first.min,
                first.step as int,
            );
        }
        assert(params_wf(params.drop_first())) by {
            assert forall|i: int| 0 <= i < params.drop_first().len() implies (#[trigger] params.drop_first()[i]).wf() by {
                assert(params.drop_first()[i] == params[i + 1]);
            }
        }
        lemma_points_from_vals_len(prefix, axis_values(params.first()), params.drop_first());
        assert(axis_values(params.first()).len() == params.first().count());
    }
}

pub proof fn lemma_points_from_vals_len(prefix: Seq<i64>, vals: Seq<i64>, params: Seq<Parameter>)
    requires
        params_wf(params),
    ensures
        points_from_vals(prefix, vals, params).len() == vals.len() * count_product(params),
    decreases params.len(), vals.len() + 1nat,
{
    if vals.len() == 0 {
        assert(0int * count_product(params) == 0) by (nonlinear_arith);
    } else {
        lemma_points_from_len(prefix.push(vals.first()), params);
        lemma_points_from_vals_len(prefix, vals.drop_first(), params);
        assert(vals.len() * count_product(params) == count_product(params) + (vals.len() - 1)
            * count_product(params)) by {
            vstd::arithmetic::mul::lemma_mul_is_distributive_sub_other_way(
                count_product(params),
                vals.len() as int,
                1,
            );
        }
    }
}

/// The size of the whole grid is the product of the per-axis counts.
pub proof fn lemma_grid_points_count(params: Seq<Parameter>)
    requires
        params_wf(params),
    ensures
        grid_points(params).len() == count_product(params),
{
    lemma_points_from_len(Seq::<i64>::empty(), params);
}

pub struct GridSearch {
    pub parameters: Vec<Parameter>,
}

impl GridSearch {
    pub fn new(parameters: Vec<Parameter>) -> (r: Self)
        ensures
            r.parameters == parameters,
    {
        GridSearch { parameters }
    }

    /// Evaluate `f` at every grid point. The result holds one row per point,
    /// in lexicographic order: the point's coordinates and what `f` returned
    /// for them.
    pub fn search<T, F: Fn(&Vec<i64>) -> T>(&self, f: F) -> (r: Vec<(Vec<i64>, T)>)
        requires
            params_wf(self.parameters@),
            forall|v: &Vec<i64>| call_requires(f, (v,)),
        ensures
            r@.len() == grid_points(self.parameters@).len(),
            forall|i: int|
                0 <= i < r@.len() ==> (#[trigger] r@[i]).0@ == grid_points(self.parameters@)[i]
                    && call_ensures(f, (&r@[i].0,), r@[i].1),
    {
        let mut results: Vec<(Vec<i64>, T)> = Vec::new();
        let prefix: Vec<i64> = Vec::new();
        proof {
            assert(self.parameters@.skip(0) =~= self.parameters@);
        }
        Self::grid_recursive(&self.parameters, prefix, &f, &mut results);
        results
    }

    /// Walk the remaining axes in order, extending `prefix` with one value of
    /// the next axis per branch, and evaluate `f` at every completed point.
    fn grid_recursive<T, F: Fn(&Vec<i64>) -> T>(
        params: &Vec<Parameter>,
        prefix: Vec<i64>,
        f: &F,
        results: &mut Vec<(Vec<i64>, T)>,
    )
        requires
            params_wf(params@.skip(prefix@.len() as int)),
            prefix@.len() <= params@.len(),
            forall|v: &Vec<i64>| call_requires(*f, (v,)),
        ensures
            final(results)@.len() == old(results)@.len() + points_from(
                prefix@,
                params@.skip(prefix@.len() as int),
            ).len(),
            forall|i: int|
                0 <= i < old(results)@.len() ==> final(results)@[i] == old(results)@[i],
            forall|i: int|
                old(results)@.len() <= i < final(results)@.len() ==> (#[trigger] final(results)@[i]).0@
                    == points_from(prefix@, params@.skip(prefix@.len() as int))[i - old(results)@.len()]
                    && call_ensures(*f, (&final(results)@[i].0,), final(results)@[i].1),
        decreases params@.len() - prefix@.len(),
    {
        let depth = prefix.len();
        if depth == params.len() {
            proof {
                assert(params@.skip(depth as int) =~= Seq::<Parameter>::empty());
            }
            let out = f(&prefix);
            results.push((prefix, out));
        } else {
            let ghost rest = params@.skip(depth as int + 1);
            let ghost here = params@.skip(depth as int);
            proof {
                assert(here.first() == params@[depth as int]);
                assert(here.drop_first() =~= rest);
                assert(here[0].wf());
            }
            let vals = params[depth].values();
            let mut j: usize = 0;
            while j < vals.len()
                invariant
                    params_wf(here),
                    here == params@.skip(depth as int),
                    rest == params@.skip(depth as int + 1),
                    here.len() > 0,
                    here.first() == params@[depth as int],
                    here.drop_first() == rest,
                    depth == prefix@.len(),
                    depth < params@.len(),
                    vals@ == axis_values(params@[depth as int]),
                    forall|v: &Vec<i64>| call_requires(*f, (v,)),
                    0 <= j <= vals@.len(),
                    results@.len() == old(results)@.len() + points_from_vals(
                        prefix@,
                        vals@.take(j as int),
                        rest,
                    ).len(),
                    forall|i: int|
                        0 <= i < old(results)@.len() ==> results@[i] == old(results)@[i],
                    forall|i: int|
                        old(results)@.len() <= i < results@.len() ==> (#[trigger] results@[i]).0@
                            == points_from_vals(prefix@, vals@.take(j as int), rest)[i - old(
                            results,
                        )@.len()] && call_ensures(*f, (&results@[i].0,), results@[i].1),
                decreases vals@.len() - j,
            {
                let mut branch_prefix: Vec<i64> = Vec::new();
                let mut k: usize = 0;
                while k < prefix.len()
                    invariant
                        0 <= k <= prefix@.len(),
                        branch_prefix@ == prefix@.take(k as int),
                    decreases prefix@.len() - k,
                {
                    branch_prefix.push(prefix[k]);
                    k = k + 1;
                }
                proof {
                    assert(prefix@.take(prefix@.len() as int) =~= prefix@);
                }
                branch_prefix.push(vals[j]);
                let ghost results_before = results@;
                Self::grid_recursive(params, branch_prefix, f, results);
                proof {
                    lemma_points_from_vals_step(prefix@, vals@, j as int, rest);
                }
                j = j + 1;
            }
            proof {
                assert(vals@.take(vals@.len() as int) =~= vals@);
            }
        }
    }
}

/// Taking one more axis value appends exactly that branch's points.
proof fn lemma_points_from_vals_step(prefix: Seq<i64>, vals: Seq<i64>, j: int, params: Seq<
    Parameter,
>)
    requires
        0 <= j < vals.len(),
    ensures
        points_from_vals(prefix, vals.take(j + 1), params) == points_from_vals(
            prefix,
            vals.take(j),
            params,
        ) + points_from(prefix.push(vals[j]), params),
    decreases j,
{
    if j == 0 {
        assert(vals.take(1).first() == vals[0]);
        assert(vals.take(1).drop_first() =~= vals.take(0));
        assert(points_from_vals(prefix, vals.take(0), params) =~= Seq::<Seq<i64>>::empty());
        assert(points_from_vals(prefix, vals.take(1), params) =~= points_from(
            prefix.push(vals[0]),
            params,
        ) + points_from_vals(prefix, vals.take(0), params));
        assert(points_from_vals(prefix, vals.take(1), params) =~= points_from_vals(
            prefix,
            vals.take(0),
            params,
        ) + points_from(prefix.push(vals[0]), params));
    } else {
        let sub = vals.drop_first();
        assert(vals.take(j + 1).first() == vals[0]);
        assert(vals.take(j + 1).drop_first() =~= sub.take(j));
        assert(vals.take(j).first() == vals[0]);
        assert(vals.take(j).drop_first() =~= sub.take(j - 1));
        lemma_points_from_vals_step(prefix, sub, j - 1, params);
        assert(sub[j - 1] == vals[j]);
        assert(points_from_vals(prefix, vals.take(j + 1), params) == points_from(
            prefix.push(vals[0]),
            params,
        ) + points_from_vals(prefix, sub.take(j), params));
        assert(points_from_vals(prefix, vals.take(j), params) == points_from(
            prefix.push(vals[0]),
            params,
        ) + points_from_vals(prefix, sub.take(j - 1), params));
        assert((points_from(prefix.push(vals[0]), params) + points_from_vals(
            prefix,
            sub.take(j - 1),
            params,
        )) + points_from(prefix.push(vals[j]), params) =~= points_from(prefix.push(vals[0]), params)
            + (points_from_vals(prefix, sub.take(j - 1), params) + points_from(
            prefix.push(vals[j]),
            params,
        )));
    }
}

} // verus!
