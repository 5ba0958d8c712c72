//! Tests of graph rewriting through visitors.

use std::sync::Arc;

use pumpkin_world::density::{ConstantFunction, DensityFunction, NoiseFunction};
use pumpkin_world::math::{BinaryFunction, BinaryType};
use pumpkin_world::position::NoisePos;
use pumpkin_world::visitor::{NoopVisitor, ReplaceNoiseVisitor};

fn pos(x: i32, y: i32, z: i32) -> NoisePos {
    NoisePos { x, y, z }
}

fn constant(value: i64) -> Arc<DensityFunction> {
    Arc::new(DensityFunction::Constant(ConstantFunction::new(value)))
}

fn noise(min: i64, max: i64, seed: i32) -> Arc<DensityFunction> {
    Arc::new(DensityFunction::Noise(NoiseFunction::new(min, max, seed)))
}

#[test]
fn noop_rewrite_keeps_samples_and_bounds() {
    let graph = Arc::new(BinaryFunction::create(
        BinaryType::Max,
        noise(-64, 64, 11),
        noise(-32, 32, 22),
    ));
    let rewritten = DensityFunction::apply(&graph, &NoopVisitor);
    assert_eq!(rewritten.min(), graph.min());
    assert_eq!(rewritten.max(), graph.max());
    for p in [pos(0, 0, 0), pos(3, -1, 4), pos(-2, 7, 18)] {
        assert_eq!(rewritten.sample(&p), graph.sample(&p));
    }
}

#[test]
fn replacing_noise_specializes_the_graph() {
    // add(noise, 10) folds to a linear combinator; substituting the
    // noise leaf with the constant 7 pins the whole graph to 17, with
    // bounds recomputed for the rewritten child.
    let graph = Arc::new(BinaryFunction::create(
        BinaryType::Add,
        noise(-64, 64, 5),
        constant(10),
    ));
    assert!(matches!(*graph, DensityFunction::Linear(_)));
    let rewritten = DensityFunction::apply(&graph, &ReplaceNoiseVisitor { value: 7 });
    assert_eq!(rewritten.min(), 17);
    assert_eq!(rewritten.max(), 17);
    assert_eq!(rewritten.sample(&pos(9, -9, 3)), 17);
    // The old graph is untouched and still usable.
    assert_eq!(graph.min(), -54);
    assert_eq!(graph.max(), 74);
}

#[test]
fn rewriting_refolds_new_constants() {
    // mul(noise, noise) is a binary node; once both leaves become the
    // same constant, reconstruction through the factory folds the node
    // into a linear combinator again.
    let graph = Arc::new(BinaryFunction::create(
        BinaryType::Mul,
        noise(-4, 4, 1),
        noise(-4, 4, 2),
    ));
    assert!(matches!(*graph, DensityFunction::Binary(_)));
    let rewritten = DensityFunction::apply(&graph, &ReplaceNoiseVisitor { value: 3 });
    assert!(matches!(*rewritten, DensityFunction::Linear(_)));
    assert_eq!(rewritten.sample(&pos(1, 2, 3)), 9);
    assert_eq!(rewritten.min(), 9);
    assert_eq!(rewritten.max(), 9);
}
