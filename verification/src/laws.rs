//! General properties of the density-function graph, stated and proved
//! once for every input.

use vstd::prelude::*;
use crate::density::{ConstantFunction, DensityFunction};
use crate::math::{
    creates, fold_action, linear_max_bound, linear_min_bound,
    BinaryFunction, BinaryType,
};
use crate::position::NoisePos;

verus! {

/// Every well-formed node keeps its bounds ordered: `min() <= max()`.
pub proof fn lemma_bounds_ordered(node: DensityFunction)
    requires
        node.wf(),
    ensures
        node.spec_min() <= node.spec_max(),
{
}

/// Folding equivalence, constant on the left: a binary add or multiply
/// whose first operand is a constant leaf `c` over a well-formed node
/// `x` builds exactly the linear combinator with `arg = c.value`
/// wrapping `x`, bounds included — so its samples, fills, and bounds
/// all coincide with that combinator's.
pub proof fn lemma_folding_equivalence_left(
    action: BinaryType,
    c: ConstantFunction,
    x: DensityFunction,
    r: DensityFunction,
)
    requires
        action is Add || action is Mul,
        x.wf(),
        creates(action, DensityFunction::Constant(c), x, r),
    ensures
        r matches DensityFunction::Linear(l) && l.action == fold_action(action) && *l.input == x
            && l.arg == c.value && l.min as int == linear_min_bound(
            fold_action(action),
            c.value as int,
            x.spec_min(),
            x.spec_max(),
        ) && l.max as int == linear_max_bound(
            fold_action(action),
            c.value as int,
            x.spec_min(),
            x.spec_max(),
        ),
{
    let cv = c.value as int;
    let e = x.spec_min();
    let g = x.spec_max();
    if action is Mul {
        if cv >= 0 {
            assert(cv * e <= cv * g) by (nonlinear_arith)
                requires
                    e <= g,
                    cv >= 0,
            ;
        } else {
            assert(cv * g <= cv * e) by (nonlinear_arith)
                requires
                    e <= g,
                    cv < 0,
            ;
        }
    }
}

/// Folding equivalence, constant on the right: symmetric to the left
/// rule, for a non-constant first operand.
pub proof fn lemma_folding_equivalence_right(
    action: BinaryType,
    x: DensityFunction,
    c: ConstantFunction,
    r: DensityFunction,
)
    requires
        action is Add || action is Mul,
        x.wf(),
        !(x is Constant),
        creates(action, x, DensityFunction::Constant(c), r),
    ensures
        r matches DensityFunction::Linear(l) && l.action == fold_action(action) && *l.input == x
            && l.arg == c.value && l.min as int == linear_min_bound(
            fold_action(action),
            c.value as int,
            x.spec_min(),
            x.spec_max(),
        ) && l.max as int == linear_max_bound(
            fold_action(action),
            c.value as int,
            x.spec_min(),
            x.spec_max(),
        ),
{
    let cv = c.value as int;
    let d = x.spec_min();
    let f = x.spec_max();
    if action is Mul {
        if cv >= 0 {
            assert(d * cv <= f * cv) by (nonlinear_arith)
                requires
                    d <= f,
                    cv >= 0,
            ;
        } else {
            assert(f * cv <= d * cv) by (nonlinear_arith)
                requires
                    d <= f,
                    cv < 0,
            ;
        }
    }
}

/// Multiply skip rule: where child1's value is exactly zero at a
/// position, the multiply combinator's output there is zero, whatever
/// child2 produces.
pub proof fn lemma_multiply_skip(b: BinaryFunction, pos: NoisePos)
    requires
        b.action is Mul,
        (*b.arg1).spec_sample(pos) == 0,
    ensures
        DensityFunction::Binary(b).spec_sample(pos) == 0,
{
}

/// Min skip rule: where child1's value at a position is already below
/// child2's static minimum bound, the min combinator returns child1's
/// value unchanged, without consulting child2.
pub proof fn lemma_min_skip(b: BinaryFunction, pos: NoisePos)
    requires
        b.action is Min,
        (*b.arg1).spec_sample(pos) < (*b.arg2).spec_min(),
    ensures
        DensityFunction::Binary(b).spec_sample(pos) == (*b.arg1).spec_sample(pos),
{
}

/// Max skip rule: where child1's value at a position is already above
/// child2's static maximum bound, the max combinator returns child1's
/// value unchanged, without consulting child2.
pub proof fn lemma_max_skip(b: BinaryFunction, pos: NoisePos)
    requires
        b.action is Max,
        (*b.arg1).spec_sample(pos) > (*b.arg2).spec_max(),
    ensures
        DensityFunction::Binary(b).spec_sample(pos) == (*b.arg1).spec_sample(pos),
{
}

} // verus!
