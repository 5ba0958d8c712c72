//! Linear and binary combinators, their bound propagation, and the
//! binary factory with its algebraic folding.

use vstd::prelude::*;
use vstd::pervasive::VecAdditionalExecFns;
use std::sync::Arc;
use crate::arith::{sat64, sat_add, sat_mul};
use crate::density::DensityFunction;
use crate::position::{Applier, NoisePos};

verus! {

/// The transform a linear combinator applies to its child's value.
#[derive(Clone, Copy, PartialEq, Eq, Structural, Debug)]
pub enum LinearType {
    Mul,
    Add,
}

/// A unary combinator applying `x + arg` or `x * arg` to one child.
pub struct LinearFunction {
    pub action: LinearType,
    pub input: Arc<DensityFunction>,
    pub min: i64,
    pub max: i64,
    pub arg: i64,
}

/// The operator of a binary combinator.
#[derive(Clone, Copy, PartialEq, Eq, Structural, Debug)]
pub enum BinaryType {
    Mul,
    Add,
    Min,
    Max,
}

/// A binary combinator over two children. Built through
/// [`BinaryFunction::create`], which folds a constant operand of add or
/// multiply into a cheaper linear combinator.
pub struct BinaryFunction {
    pub action: BinaryType,
    pub arg1: Arc<DensityFunction>,
    pub arg2: Arc<DensityFunction>,
    pub min: i64,
    pub max: i64,
}

/// Lower bound of a linear combinator over a child with bounds
/// `[child_min, child_max]`: add shifts the bound; multiply scales it,
/// taking the opposite end when `arg` is negative, since multiplying by
/// a negative number reverses order.
pub open spec fn linear_min_bound(action: LinearType, arg: int, child_min: int, child_max: int) -> int {
    match action {
        LinearType::Add => sat64(child_min + arg),
        LinearType::Mul => if arg >= 0 {
            sat64(child_min * arg)
        } else {
            sat64(child_max * arg)
        },
    }
}

/// Upper bound of a linear combinator; see [`linear_min_bound`].
pub open spec fn linear_max_bound(action: LinearType, arg: int, child_min: int, child_max: int) -> int {
    match action {
        LinearType::Add => sat64(child_max + arg),
        LinearType::Mul => if arg >= 0 {
            sat64(child_max * arg)
        } else {
            sat64(child_min * arg)
        },
    }
}

/// Lower bound of a binary combinator, by case analysis over the
/// children's intervals `[d, f]` and `[e, g]`.
pub open spec fn binary_min_bound(action: BinaryType, d: int, e: int, f: int, g: int) -> int {
    match action {
        BinaryType::Add => sat64(d + e),
        BinaryType::Mul => if d > 0 && e > 0 {
            sat64(d * e)
        } else if f < 0 && g < 0 {
            sat64(f * g)
        } else {
            if sat64(d * g) <= sat64(f * e) {
                sat64(d * g)
            } else {
                sat64(f * e)
            }
        },
        BinaryType::Min => if d <= e {
            d
        } else {
            e
        },
        BinaryType::Max => if d >= e {
            d
        } else {
            e
        },
    }
}

/// Upper bound of a binary combinator; see [`binary_min_bound`].
pub open spec fn binary_max_bound(action: BinaryType, d: int, e: int, f: int, g: int) -> int {
    match action {
        BinaryType::Add => sat64(f + g),
        BinaryType::Mul => if d > 0 && e > 0 {
            sat64(f * g)
        } else if f < 0 && g < 0 {
            sat64(d * e)
        } else {
            if sat64(d * e) >= sat64(f * g) {
                sat64(d * e)
            } else {
                sat64(f * g)
            }
        },
        BinaryType::Min => if f <= g {
            f
        } else {
            g
        },
        BinaryType::Max => if f >= g {
            f
        } else {
            g
        },
    }
}

/// The value a binary combinator produces from its children's sampled
/// values `d` and `e`, given child2's declared bounds. Min and max
/// short-circuit on child2's static bound: when child1's value already
/// lies beyond it, child2's value is not consulted.
pub open spec fn binary_combine(action: BinaryType, d: int, e: int, e_min: int, e_max: int) -> int {
    match action {
        BinaryType::Add => sat64(d + e),
        BinaryType::Mul => sat64(d * e),
        BinaryType::Min => if d < e_min {
            d
        } else if d <= e {
            d
        } else {
            e
        },
        BinaryType::Max => if d > e_max {
            d
        } else if d >= e {
            d
        } else {
            e
        },
    }
}

/// The linear transform a folded add or multiply becomes.
pub open spec fn fold_action(action: BinaryType) -> LinearType {
    match action {
        BinaryType::Add => LinearType::Add,
        _ => LinearType::Mul,
    }
}

/// Ordered child bounds give ordered linear bounds.
pub proof fn lemma_linear_bounds_ordered(action: LinearType, arg: int, child_min: int, child_max: int)
    requires
        child_min <= child_max,
    ensures
        linear_min_bound(action, arg, child_min, child_max)
            <= linear_max_bound(action, arg, child_min, child_max),
{
    match action {
        LinearType::Add => {}
        LinearType::Mul => {
            if arg >= 0 {
                assert(child_min * arg <= child_max * arg) by (nonlinear_arith)
                    requires
                        child_min <= child_max,
                        arg >= 0,
                ;
            } else {
                assert(child_max * arg <= child_min * arg) by (nonlinear_arith)
                    requires
                        child_min <= child_max,
                        arg < 0,
                ;
            }
        }
    }
}

/// Ordered child bounds give ordered binary bounds, for every operator.
pub proof fn lemma_binary_bounds_ordered(action: BinaryType, d: int, e: int, f: int, g: int)
    requires
        d <= f,
        e <= g,
    ensures
        binary_min_bound(action, d, e, f, g) <= binary_max_bound(action, d, e, f, g),
{
    match action {
        BinaryType::Mul => {
            if d > 0 && e > 0 {
                assert(d * e <= f * g) by (nonlinear_arith)
                    requires
                        0 < d <= f,
                        0 < e <= g,
                ;
            } else if f < 0 && g < 0 {
                assert(f * g <= d * e) by (nonlinear_arith)
                    requires
                        d <= f < 0,
                        e <= g < 0,
                ;
            } else {
                if d <= 0 {
                    assert(d * g <= d * e) by (nonlinear_arith)
                        requires
                            d <= 0,
                            e <= g,
                    ;
                } else {
                    assert(f * e <= f * g) by (nonlinear_arith)
                        requires
                            f > 0,
                            e <= g,
                    ;
                }
            }
        }
        _ => {}
    }
}

/// What [`BinaryFunction::create`] builds from an operator and two
/// children: a node carrying the combined bounds, which is a folded
/// linear combinator when the operator is add or multiply and a child
/// is a constant leaf, and a binary node otherwise.
pub open spec fn creates(
    action: BinaryType,
    arg1: DensityFunction,
    arg2: DensityFunction,
    r: DensityFunction,
) -> bool {
    let d = arg1.spec_min();
    let e = arg2.spec_min();
    let f = arg1.spec_max();
    let g = arg2.spec_max();
    let h = binary_min_bound(action, d, e, f, g);
    let i = binary_max_bound(action, d, e, f, g);
    if (action is Add || action is Mul) && arg1 is Constant {
        &&& r matches DensityFunction::Linear(l)
        &&& l.action == fold_action(action)
        &&& *l.input == arg2
        &&& arg1 matches DensityFunction::Constant(c) && l.arg == c.value
        &&& l.min as int == h
        &&& l.max as int == i
    } else if (action is Add || action is Mul) && arg2 is Constant {
        &&& r matches DensityFunction::Linear(l)
        &&& l.action == fold_action(action)
        &&& *l.input == arg1
        &&& arg2 matches DensityFunction::Constant(c) && l.arg == c.value
        &&& l.min as int == h
        &&& l.max as int == i
    } else {
        &&& r matches DensityFunction::Binary(b)
        &&& b.action == action
        &&& *b.arg1 == arg1
        &&& *b.arg2 == arg2
        &&& b.min as int == h
        &&& b.max as int == i
    }
}

impl LinearFunction {
    /// Build a linear combinator over `input`. Bounds follow the sign
    /// rule: add shifts both child bounds by `arg`; multiply scales
    /// them by `arg`, swapping the two ends when `arg` is negative.
    pub fn new(action: LinearType, input: Arc<DensityFunction>, arg: i64) -> (r: LinearFunction)
        ensures
            r.action == action,
            r.input == input,
            r.arg == arg,
            r.min as int == linear_min_bound(
                action,
                arg as int,
                (*input).spec_min(),
                (*input).spec_max(),
            ),
            r.max as int == linear_max_bound(
                action,
                arg as int,
                (*input).spec_min(),
                (*input).spec_max(),
            ),
            (*input).wf() ==> DensityFunction::Linear(r).wf(),
    {
        let d = input.min();
        let e = input.max();
        let (f, g) = match action {
            LinearType::Add => (sat_add(d, arg), sat_add(e, arg)),
            LinearType::Mul => {
                if arg >= 0 {
                    (sat_mul(d, arg), sat_mul(e, arg))
                } else {
                    (sat_mul(e, arg), sat_mul(d, arg))
                }
            }
        };
        proof {
            if (*input).wf() {
                lemma_linear_bounds_ordered(action, arg as int, d as int, e as int);
            }
        }
        LinearFunction { action, input, min: f, max: g, arg }
    }

    /// The fixed transform applied to the child's value.
    pub open spec fn spec_apply_density(&self, density: int) -> int {
        match self.action {
            LinearType::Mul => sat64(density * self.arg as int),
            LinearType::Add => sat64(density + self.arg as int),
        }
    }

    /// The value this combinator produces at `pos`.
    pub open spec fn spec_sample(&self, pos: NoisePos) -> int
        decreases self,
    {
        self.spec_apply_density((*self.input).spec_sample(pos))
    }

    pub fn apply_density(&self, density: i64) -> (r: i64)
        ensures
            r as int == self.spec_apply_density(density as int),
    {
        match self.action {
            LinearType::Mul => sat_mul(density, self.arg),
            LinearType::Add => sat_add(density, self.arg),
        }
    }

    /// Point evaluation: the transform applied to the child's sample.
    pub fn sample(&self, pos: &NoisePos) -> (r: i64)
        ensures
            r as int == self.spec_sample(*pos),
    {
        let v = self.input.sample(pos);
        self.apply_density(v)
    }

    /// Batched evaluation: fill with the child, then apply the
    /// transform to every element in place — a single pass, with no
    /// scratch buffer.
    #[verifier::loop_isolation(false)]
    pub fn fill(&self, densities: &mut Vec<i64>, applier: &Applier)
        requires
            old(densities).len() == applier@.len(),
        ensures
            final(densities).len() == old(densities).len(),
            forall|j: int|
                0 <= j < final(densities).len() ==> #[trigger] final(densities)@[j] as int
                    == self.spec_sample(applier@[j]),
    {
        self.input.fill(densities, applier);
        let n = densities.len();
        let mut idx: usize = 0;
        while idx < n
            invariant
                densities.len() == n,
                n == applier@.len(),
                idx <= n,
                forall|j: int|
                    0 <= j < idx ==> #[trigger] densities@[j] as int == self.spec_sample(
                        applier@[j],
                    ),
                forall|j: int|
                    idx <= j < n ==> #[trigger] densities@[j] as int == (*self.input).spec_sample(
                        applier@[j],
                    ),
            decreases n - idx,
        {
            let v = densities[idx];
            densities.set(idx, self.apply_density(v));
            idx += 1;
        }
    }

    pub fn min(&self) -> (r: i64)
        ensures
            r == self.min,
    {
        self.min
    }

    pub fn max(&self) -> (r: i64)
        ensures
            r == self.max,
    {
        self.max
    }
}

impl BinaryFunction {
    /// The non-overlap diagnostic the factory reports for min and max
    /// operators: it suggests a likely misauthored graph, and never
    /// alters evaluation. The comparison is deliberately asymmetric
    /// between the two children.
    pub fn non_overlapping(arg1: &DensityFunction, arg2: &DensityFunction) -> (r: bool)
        ensures
            r == (arg1.spec_min() >= arg2.spec_min() || arg2.spec_min() >= arg1.spec_max()),
    {
        let d = arg1.min();
        let e = arg2.min();
        let f = arg1.max();
        d >= e || e >= f
    }

    /// Factory for binary combinators. It computes the combined bounds
    /// by case analysis over the children's intervals, and folds an add
    /// or multiply with a constant-leaf operand into an equivalent
    /// linear combinator carrying those bounds. Callers wanting the
    /// min/max non-overlap diagnostic evaluate [`Self::non_overlapping`]
    /// beside this call; it does not change what is built.
    pub fn create(
        action: BinaryType,
        arg1: Arc<DensityFunction>,
        arg2: Arc<DensityFunction>,
    ) -> (r: DensityFunction)
        ensures
            creates(action, *arg1, *arg2, r),
            (*arg1).wf() && (*arg2).wf() ==> r.wf(),
            r.spec_min() == binary_min_bound(
                action,
                (*arg1).spec_min(),
                (*arg2).spec_min(),
                (*arg1).spec_max(),
                (*arg2).spec_max(),
            ),
            r.spec_max() == binary_max_bound(
                action,
                (*arg1).spec_min(),
                (*arg2).spec_min(),
                (*arg1).spec_max(),
                (*arg2).spec_max(),
            ),
            forall|pos: NoisePos| #[trigger]
                r.spec_sample(pos) == binary_combine(
                    action,
                    (*arg1).spec_sample(pos),
                    (*arg2).spec_sample(pos),
                    (*arg2).spec_min(),
                    (*arg2).spec_max(),
                ),
    {
        let d = arg1.min();
        let e = arg2.min();
        let f = arg1.max();
        let g = arg2.max();

        let h = match action {
            BinaryType::Add => sat_add(d, e),
            BinaryType::Mul => {
                if d > 0 && e > 0 {
                    sat_mul(d, e)
                } else if f < 0 && g < 0 {
                    sat_mul(f, g)
                } else {
                    let p = sat_mul(d, g);
                    let q = sat_mul(f, e);
                    if p <= q {
                        p
                    } else {
                        q
                    }
                }
            }
            BinaryType::Min => {
                if d <= e {
                    d
                } else {
                    e
                }
            }
            BinaryType::Max => {
                if d >= e {
                    d
                } else {
                    e
                }
            }
        };

        let i = match action {
            BinaryType::Add => sat_add(f, g),
            BinaryType::Mul => {
                if d > 0 && e > 0 {
                    sat_mul(f, g)
                } else if f < 0 && g < 0 {
                    sat_mul(d, e)
                } else {
                    let p = sat_mul(d, e);
                    let q = sat_mul(f, g);
                    if p >= q {
                        p
                    } else {
                        q
                    }
                }
            }
            BinaryType::Min => {
                if f <= g {
                    f
                } else {
                    g
                }
            }
            BinaryType::Max => {
                if f >= g {
                    f
                } else {
                    g
                }
            }
        };

        proof {
            if (*arg1).wf() && (*arg2).wf() {
                lemma_binary_bounds_ordered(action, d as int, e as int, f as int, g as int);
            }
        }

        match action {
            BinaryType::Mul | BinaryType::Add => {
                let lin_action = match action {
                    BinaryType::Add => LinearType::Add,
                    _ => LinearType::Mul,
                };

                if let DensityFunction::Constant(func) = &*arg1 {
                    let value = func.value;
                    let r = DensityFunction::Linear(
                        LinearFunction { action: lin_action, input: arg2, min: h, max: i, arg: value },
                    );
                    proof {
                        assert forall|pos: NoisePos| #[trigger]
                            r.spec_sample(pos) == binary_combine(
                                action,
                                (*arg1).spec_sample(pos),
                                (*arg2).spec_sample(pos),
                                (*arg2).spec_min(),
                                (*arg2).spec_max(),
                            ) by {
                            assert((*arg2).spec_sample(pos) * (value as int) == (value as int)
                                * (*arg2).spec_sample(pos));
                        }
                    }
                    return r;
                }

                if let DensityFunction::Constant(func) = &*arg2 {
                    let value = func.value;
                    let r = DensityFunction::Linear(
                        LinearFunction { action: lin_action, input: arg1, min: h, max: i, arg: value },
                    );
                    return r;
                }

                DensityFunction::Binary(BinaryFunction { action, arg1, arg2, min: h, max: i })
            }
            _ => DensityFunction::Binary(BinaryFunction { action, arg1, arg2, min: h, max: i }),
        }
    }

    /// The value this combinator produces at `pos`.
    pub open spec fn spec_sample(&self, pos: NoisePos) -> int
        decreases self,
    {
        binary_combine(
            self.action,
            (*self.arg1).spec_sample(pos),
            (*self.arg2).spec_sample(pos),
            (*self.arg2).spec_min(),
            (*self.arg2).spec_max(),
        )
    }

    /// Point evaluation: combine both children's samples, min and max
    /// short-circuiting on child2's static bound.
    pub fn sample(&self, pos: &NoisePos) -> (r: i64)
        ensures
            r as int == self.spec_sample(*pos),
    {
        let d = self.arg1.sample(pos);
        let e = self.arg2.sample(pos);
        match self.action {
            BinaryType::Add => sat_add(d, e),
            BinaryType::Mul => sat_mul(d, e),
            BinaryType::Min => {
                if d < self.arg2.min() {
                    d
                } else if d <= e {
                    d
                } else {
                    e
                }
            }
            BinaryType::Max => {
                if d > self.arg2.max() {
                    d
                } else if d >= e {
                    d
                } else {
                    e
                }
            }
        }
    }

    pub fn min(&self) -> (r: i64)
        ensures
            r == self.min,
    {
        self.min
    }

    pub fn max(&self) -> (r: i64)
        ensures
            r == self.max,
    {
        self.max
    }
}

} // verus!
