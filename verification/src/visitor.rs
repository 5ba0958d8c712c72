//! Graph rewriting: a pure post-order transform over a density graph.
//!
//! Children are rewritten first; a combinator is then reconstructed
//! from the rewritten children (re-running the factory's algebraic
//! folding for binary combinators), and the visitor is finally given
//! the chance to replace a leaf or a freshly built binary node
//! wholesale. Rewriting never mutates the old graph: it produces new
//! nodes, and unchanged shared sub-graphs keep their handles.

use vstd::prelude::*;
use std::sync::Arc;
use crate::density::{ConstantFunction, DensityFunction};
use crate::math::{creates, linear_max_bound, linear_min_bound, BinaryFunction, LinearFunction};

verus! {

/// A graph transform. `spec_apply` is the mathematical description of
/// the substitution the visitor makes on a single node; the executable
/// `apply` must implement exactly that substitution, and must hand back
/// a well-formed node when given one.
pub trait Visitor {
    spec fn spec_apply(&self, node: DensityFunction) -> DensityFunction;

    fn apply(&self, node: &Arc<DensityFunction>) -> (r: Arc<DensityFunction>)
        requires
            (**node).wf(),
        ensures
            (*r).wf(),
            *r == self.spec_apply(**node),
    ;
}

/// Relies on `Arc::clone`: the returned handle refers to the same node.
#[verifier::external_body]
fn clone_node(node: &Arc<DensityFunction>) -> (r: Arc<DensityFunction>)
    ensures
        r == *node,
{
    Arc::clone(node)
}

/// How a post-order rewrite of `orig` through `v` relates to its result
/// `r`: leaves are handed to the visitor directly; a linear combinator
/// is rebuilt over its rewritten child with recomputed bounds; a binary
/// combinator is reconstructed from its rewritten children through the
/// factory and the visitor then has the last word on the built node.
pub open spec fn rewrites_to<V: Visitor>(orig: DensityFunction, v: &V, r: DensityFunction) -> bool
    decreases orig,
{
    match orig {
        DensityFunction::Constant(_) => r == v.spec_apply(orig),
        DensityFunction::Noise(_) => r == v.spec_apply(orig),
        DensityFunction::Linear(l) => r matches DensityFunction::Linear(l2) && l2.action
            == l.action && l2.arg == l.arg && rewrites_to(*l.input, v, *l2.input) && l2.min as int
            == linear_min_bound(
            l.action,
            l.arg as int,
            (*l2.input).spec_min(),
            (*l2.input).spec_max(),
        ) && l2.max as int == linear_max_bound(
            l.action,
            l.arg as int,
            (*l2.input).spec_min(),
            (*l2.input).spec_max(),
        ),
        DensityFunction::Binary(b) => exists|ri1: DensityFunction, ri2: DensityFunction, mid: DensityFunction|
            rewrites_to(*b.arg1, v, ri1) && rewrites_to(*b.arg2, v, ri2) && #[trigger] creates(
                b.action,
                ri1,
                ri2,
                mid,
            ) && r == v.spec_apply(mid),
    }
}

impl DensityFunction {
    /// Rewrite the graph under `node` bottom-up through `visitor`,
    /// producing a new well-formed graph and leaving the old one
    /// untouched.
    pub fn apply<V: Visitor>(node: &Arc<DensityFunction>, visitor: &V) -> (r: Arc<
        DensityFunction,
    >)
        requires
            (**node).wf(),
        ensures
            (*r).wf(),
            rewrites_to(**node, visitor, *r),
        decreases **node,
    {
        match &**node {
            DensityFunction::Constant(_) => visitor.apply(node),
            DensityFunction::Noise(_) => visitor.apply(node),
            DensityFunction::Linear(l) => {
                let new_input = DensityFunction::apply(&l.input, visitor);
                let rebuilt = LinearFunction::new(l.action, new_input, l.arg);
                Arc::new(DensityFunction::Linear(rebuilt))
            }
            DensityFunction::Binary(b) => {
                let new1 = DensityFunction::apply(&b.arg1, visitor);
                let new2 = DensityFunction::apply(&b.arg2, visitor);
                let mid = Arc::new(BinaryFunction::create(b.action, new1, new2));
                visitor.apply(&mid)
            }
        }
    }
}

/// A visitor that replaces nothing: rewriting with it re-folds the
/// graph and otherwise hands every node back unchanged.
pub struct NoopVisitor;

impl Visitor for NoopVisitor {
    open spec fn spec_apply(&self, node: DensityFunction) -> DensityFunction {
        node
    }

    fn apply(&self, node: &Arc<DensityFunction>) -> (r: Arc<DensityFunction>) {
        clone_node(node)
    }
}

/// A visitor that substitutes every noise leaf with a constant leaf of
/// a fixed value, specializing a graph for a context where the noise
/// input is pinned.
pub struct ReplaceNoiseVisitor {
    pub value: i64,
}

impl Visitor for ReplaceNoiseVisitor {
    open spec fn spec_apply(&self, node: DensityFunction) -> DensityFunction {
        match node {
            DensityFunction::Noise(_) => DensityFunction::Constant(
                ConstantFunction { value: self.value },
            ),
            _ => node,
        }
    }

    fn apply(&self, node: &Arc<DensityFunction>) -> (r: Arc<DensityFunction>) {
        match &**node {
            DensityFunction::Noise(_) => Arc::new(
                DensityFunction::Constant(ConstantFunction { value: self.value }),
            ),
            _ => clone_node(node),
        }
    }
}

} // verus!
