//! Density-function nodes: leaves and the closed node set.

use vstd::prelude::*;
use vstd::pervasive::VecAdditionalExecFns;
use std::sync::Arc;
use crate::arith::{sat_add, sat_mul};
use crate::math::{BinaryFunction, BinaryType, LinearFunction};
use crate::position::{Applier, NoisePos};

verus! {

/// A constant leaf: the same value at every position.
#[derive(Clone, Copy, PartialEq, Eq, Structural, Debug)]
pub struct ConstantFunction {
    pub value: i64,
}

impl ConstantFunction {
    pub fn new(value: i64) -> (r: ConstantFunction)
        ensures
            r.value == value,
    {
        ConstantFunction { value }
    }
}

/// A noise-backed leaf: a deterministic position sampler together with
/// the bounds it declares for itself.
///
/// The declared bounds are a contract, not a guarantee: combinators
/// trust them to prune work and never re-check them against sampled
/// output, so a leaf whose true range escapes its declared bounds can
/// silently distort short-circuited results downstream.
#[derive(Clone, Copy, PartialEq, Eq, Structural, Debug)]
pub struct NoiseFunction {
    pub min: i64,
    pub max: i64,
    pub seed: i32,
}

/// The value a noise leaf produces at a position: a fixed linear mix of
/// the coordinates and the leaf's seed.
pub open spec fn noise_value(n: NoiseFunction, pos: NoisePos) -> int {
    3 * (pos.x as int) + 5 * (pos.y as int) + 7 * (pos.z as int) + 11 * (n.seed as int)
}

impl NoiseFunction {
    pub fn new(min: i64, max: i64, seed: i32) -> (r: NoiseFunction)
        requires
            min <= max,
        ensures
            r.min == min,
            r.max == max,
            r.seed == seed,
    {
        NoiseFunction { min, max, seed }
    }

    pub fn sample(&self, pos: &NoisePos) -> (r: i64)
        ensures
            r as int == noise_value(*self, *pos),
    {
        3 * (pos.x as i64) + 5 * (pos.y as i64) + 7 * (pos.z as i64) + 11 * (self.seed as i64)
    }
}

/// A node of the density-function graph.
///
/// Nodes are immutable after construction and form a directed acyclic
/// graph through shared `Arc` handles: the same sub-node may be
/// referenced by several parents without being duplicated, and a
/// rewrite produces new nodes while old graphs remain valid.
pub enum DensityFunction {
    Constant(ConstantFunction),
    Noise(NoiseFunction),
    Linear(LinearFunction),
    Binary(BinaryFunction),
}

impl DensityFunction {
    /// The lower end of the interval this node's output is declared to
    /// lie within.
    pub open spec fn spec_min(&self) -> int {
        match self {
            DensityFunction::Constant(c) => c.value as int,
            DensityFunction::Noise(n) => n.min as int,
            DensityFunction::Linear(l) => l.min as int,
            DensityFunction::Binary(b) => b.min as int,
        }
    }

    /// The upper end of the declared interval.
    pub open spec fn spec_max(&self) -> int {
        match self {
            DensityFunction::Constant(c) => c.value as int,
            DensityFunction::Noise(n) => n.max as int,
            DensityFunction::Linear(l) => l.max as int,
            DensityFunction::Binary(b) => b.max as int,
        }
    }

    /// Well-formedness: every node of the graph keeps its bounds
    /// ordered, `min <= max`.
    pub open spec fn wf(&self) -> bool
        decreases self,
    {
        match self {
            DensityFunction::Constant(_) => true,
            DensityFunction::Noise(n) => n.min <= n.max,
            DensityFunction::Linear(l) => (*l.input).wf() && l.min <= l.max,
            DensityFunction::Binary(b) => (*b.arg1).wf() && (*b.arg2).wf() && b.min <= b.max,
        }
    }

    /// The value this node produces at `pos`.
    pub open spec fn spec_sample(&self, pos: NoisePos) -> int
        decreases self,
    {
        match self {
            DensityFunction::Constant(c) => c.value as int,
            DensityFunction::Noise(n) => noise_value(*n, pos),
            DensityFunction::Linear(l) => l.spec_sample(pos),
            DensityFunction::Binary(b) => b.spec_sample(pos),
        }
    }

    pub fn min(&self) -> (r: i64)
        ensures
            r as int == self.spec_min(),
    {
        match self {
            DensityFunction::Constant(c) => c.value,
            DensityFunction::Noise(n) => n.min,
            DensityFunction::Linear(l) => l.min,
            DensityFunction::Binary(b) => b.min,
        }
    }

    pub fn max(&self) -> (r: i64)
        ensures
            r as int == self.spec_max(),
    {
        match self {
            DensityFunction::Constant(c) => c.value,
            DensityFunction::Noise(n) => n.max,
            DensityFunction::Linear(l) => l.max,
            DensityFunction::Binary(b) => b.max,
        }
    }

    /// Point evaluation.
    pub fn sample(&self, pos: &NoisePos) -> (r: i64)
        ensures
            r as int == self.spec_sample(*pos),
        decreases self,
    {
        match self {
            DensityFunction::Constant(c) => c.value,
            DensityFunction::Noise(n) => n.sample(pos),
            DensityFunction::Linear(l) => {
                let v = l.input.sample(pos);
                l.apply_density(v)
            }
            DensityFunction::Binary(b) => {
                let d = b.arg1.sample(pos);
                let e = b.arg2.sample(pos);
                match b.action {
                    BinaryType::Add => sat_add(d, e),
                    BinaryType::Mul => sat_mul(d, e),
                    BinaryType::Min => {
                        if d < b.arg2.min() {
                            d
                        } else if d <= e {
                            d
                        } else {
                            e
                        }
                    }
                    BinaryType::Max => {
                        if d > b.arg2.max() {
                            d
                        } else if d >= e {
                            d
                        } else {
                            e
                        }
                    }
                }
            }
        }
    }

    /// Batched evaluation: fill `densities` with this node's value at
    /// the position `applier` maps to each index. Every element ends up
    /// equal to what a point sample at that index's position returns.
    #[verifier::loop_isolation(false)]
    pub fn fill(&self, densities: &mut Vec<i64>, applier: &Applier)
        requires
            old(densities).len() == applier@.len(),
        ensures
            final(densities).len() == old(densities).len(),
            forall|j: int|
                0 <= j < final(densities).len() ==> #[trigger] final(densities)@[j] as int
                    == self.spec_sample(applier@[j]),
        decreases self,
    {
        match self {
            DensityFunction::Constant(c) => {
                let n = densities.len();
                let mut idx: usize = 0;
                while idx < n
                    invariant
                        densities.len() == n,
                        n == applier@.len(),
                        idx <= n,
                        forall|j: int|
                            0 <= j < idx ==> #[trigger] densities@[j] as int == self.spec_sample(
                                applier@[j],
                            ),
                    decreases n - idx,
                {
                    densities.set(idx, c.value);
                    idx += 1;
                }
            }
            DensityFunction::Noise(nf) => {
                let n = densities.len();
                let mut idx: usize = 0;
                while idx < n
                    invariant
                        densities.len() == n,
                        n == applier@.len(),
                        idx <= n,
                        forall|j: int|
                            0 <= j < idx ==> #[trigger] densities@[j] as int == self.spec_sample(
                                applier@[j],
                            ),
                    decreases n - idx,
                {
                    let p = applier.at(idx);
                    densities.set(idx, nf.sample(&p));
                    idx += 1;
                }
            }
            DensityFunction::Linear(l) => {
                l.input.fill(densities, applier);
                let n = densities.len();
                let mut idx: usize = 0;
                while idx < n
                    invariant
                        densities.len() == n,
                        n == applier@.len(),
                        idx <= n,
                        forall|j: int|
                            0 <= j < idx ==> #[trigger] densities@[j] as int == self.spec_sample(
                                applier@[j],
                            ),
                        forall|j: int|
                            idx <= j < n ==> #[trigger] densities@[j] as int
                                == (*l.input).spec_sample(applier@[j]),
                    decreases n - idx,
                {
                    let v = densities[idx];
                    densities.set(idx, l.apply_density(v));
                    idx += 1;
                }
            }
            DensityFunction::Binary(b) => {
                b.arg1.fill(densities, applier);
                let n = densities.len();
                match b.action {
                    BinaryType::Add => {
                        let mut ds: Vec<i64> = Vec::new();
                        let mut k: usize = 0;
                        while k < n
                            invariant
                                ds.len() == k,
                                k <= n,
                            decreases n - k,
                        {
                            ds.push(0);
                            k += 1;
                        }
                        b.arg2.fill(&mut ds, applier);
                        let mut idx: usize = 0;
                        while idx < n
                            invariant
                                densities.len() == n,
                                ds.len() == n,
                                n == applier@.len(),
                                idx <= n,
                                forall|j: int|
                                    0 <= j < idx ==> #[trigger] densities@[j] as int
                                        == self.spec_sample(applier@[j]),
                                forall|j: int|
                                    idx <= j < n ==> #[trigger] densities@[j] as int
                                        == (*b.arg1).spec_sample(applier@[j]),
                                forall|j: int|
                                    0 <= j < n ==> #[trigger] ds@[j] as int
                                        == (*b.arg2).spec_sample(applier@[j]),
                            decreases n - idx,
                        {
                            let v = densities[idx];
                            densities.set(idx, sat_add(v, ds[idx]));
                            idx += 1;
                        }
                    }
                    BinaryType::Mul => {
                        let mut idx: usize = 0;
                        while idx < n
                            invariant
                                densities.len() == n,
                                n == applier@.len(),
                                idx <= n,
                                forall|j: int|
                                    0 <= j < idx ==> #[trigger] densities@[j] as int
                                        == self.spec_sample(applier@[j]),
                                forall|j: int|
                                    idx <= j < n ==> #[trigger] densities@[j] as int
                                        == (*b.arg1).spec_sample(applier@[j]),
                            decreases n - idx,
                        {
                            let v = densities[idx];
                            if v != 0 {
                                let p = applier.at(idx);
                                let s = b.arg2.sample(&p);
                                densities.set(idx, sat_mul(v, s));
                            }
                            idx += 1;
                        }
                    }
                    BinaryType::Min => {
                        let e_min = b.arg2.min();
                        let mut idx: usize = 0;
                        while idx < n
                            invariant
                                densities.len() == n,
                                n == applier@.len(),
                                idx <= n,
                                e_min as int == (*b.arg2).spec_min(),
                                forall|j: int|
                                    0 <= j < idx ==> #[trigger] densities@[j] as int
                                        == self.spec_sample(applier@[j]),
                                forall|j: int|
                                    idx <= j < n ==> #[trigger] densities@[j] as int
                                        == (*b.arg1).spec_sample(applier@[j]),
                            decreases n - idx,
                        {
                            let v = densities[idx];
                            if v >= e_min {
                                let p = applier.at(idx);
                                let s = b.arg2.sample(&p);
                                densities.set(idx, if v <= s { v } else { s });
                            }
                            idx += 1;
                        }
                    }
                    BinaryType::Max => {
                        let e_max = b.arg2.max();
                        let mut idx: usize = 0;
                        while idx < n
                            invariant
                                densities.len() == n,
                                n == applier@.len(),
                                idx <= n,
                                e_max as int == (*b.arg2).spec_max(),
                                forall|j: int|
                                    0 <= j < idx ==> #[trigger] densities@[j] as int
                                        == self.spec_sample(applier@[j]),
                                forall|j: int|
                                    idx <= j < n ==> #[trigger] densities@[j] as int
                                        == (*b.arg1).spec_sample(applier@[j]),
                            decreases n - idx,
                        {
                            let v = densities[idx];
                            if v <= e_max {
                                let p = applier.at(idx);
                                let s = b.arg2.sample(&p);
                                densities.set(idx, if v >= s { v } else { s });
                            }
                            idx += 1;
                        }
                    }
                }
            }
        }
    }
}

} // verus!
