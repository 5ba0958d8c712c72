//! Tests of graph construction, bounds, sampling, and filling.

use std::sync::Arc;

use pumpkin_world::density::{ConstantFunction, DensityFunction, NoiseFunction};
use pumpkin_world::math::{BinaryFunction, BinaryType, LinearFunction, LinearType};
use pumpkin_world::position::{Applier, NoisePos};

fn pos(x: i32, y: i32, z: i32) -> NoisePos {
    NoisePos { x, y, z }
}

fn constant(value: i64) -> Arc<DensityFunction> {
    Arc::new(DensityFunction::Constant(ConstantFunction::new(value)))
}

fn noise(min: i64, max: i64, seed: i32) -> Arc<DensityFunction> {
    Arc::new(DensityFunction::Noise(NoiseFunction::new(min, max, seed)))
}

fn fill_over(node: &DensityFunction, positions: Vec<NoisePos>) -> Vec<i64> {
    let mut densities = vec![0i64; positions.len()];
    let applier = Applier::new(positions);
    node.fill(&mut densities, &applier);
    densities
}

#[test]
fn bounds_ordered_for_constructed_nodes() {
    let nodes = vec![
        constant(7),
        noise(-64, 64, 3),
        Arc::new(DensityFunction::Linear(LinearFunction::new(
            LinearType::Mul,
            noise(-1, 1, 0),
            -2,
        ))),
        Arc::new(BinaryFunction::create(BinaryType::Mul, noise(-1, 2, 1), noise(3, 4, 2))),
        Arc::new(BinaryFunction::create(BinaryType::Min, noise(0, 1, 1), noise(2, 3, 2))),
        Arc::new(BinaryFunction::create(BinaryType::Max, noise(0, 1, 1), noise(2, 3, 2))),
    ];
    for node in nodes {
        assert!(node.min() <= node.max());
    }
}

#[test]
fn two_constants_added_fold_to_linear() {
    let folded = BinaryFunction::create(BinaryType::Add, constant(5), constant(-3));
    assert_eq!(folded.min(), 2);
    assert_eq!(folded.max(), 2);
    assert!(matches!(folded, DensityFunction::Linear(_)));
    assert_eq!(folded.sample(&pos(0, 0, 0)), 2);
    assert_eq!(folded.sample(&pos(17, -4, 123)), 2);
}

#[test]
fn folded_node_equals_explicit_linear_combinator() {
    let x = noise(-8, 8, 5);
    let folded = BinaryFunction::create(BinaryType::Mul, constant(3), Arc::clone(&x));
    let explicit = DensityFunction::Linear(LinearFunction::new(LinearType::Mul, x, 3));
    assert_eq!(folded.min(), explicit.min());
    assert_eq!(folded.max(), explicit.max());
    let positions = vec![pos(0, 0, 0), pos(1, 2, 3), pos(-5, 9, -11), pos(100, -100, 7)];
    for p in &positions {
        assert_eq!(folded.sample(p), explicit.sample(p));
    }
    assert_eq!(fill_over(&folded, positions.clone()), fill_over(&explicit, positions));
}

#[test]
fn linear_sign_rule_swaps_bounds_for_negative_arg() {
    let l = LinearFunction::new(LinearType::Mul, noise(-1, 1, 0), -2);
    assert_eq!(l.min(), -2);
    assert_eq!(l.max(), 2);
    let l = LinearFunction::new(LinearType::Mul, noise(-1, 1, 0), 2);
    assert_eq!(l.min(), -2);
    assert_eq!(l.max(), 2);
    let l = LinearFunction::new(LinearType::Mul, noise(2, 5, 0), -3);
    assert_eq!(l.min(), -15);
    assert_eq!(l.max(), -6);
    let l = LinearFunction::new(LinearType::Add, noise(2, 5, 0), -3);
    assert_eq!(l.min(), -1);
    assert_eq!(l.max(), 2);
}

#[test]
fn binary_add_bounds_are_sums() {
    let r = BinaryFunction::create(BinaryType::Add, noise(-1, 2, 1), noise(3, 4, 2));
    assert_eq!(r.min(), 2);
    assert_eq!(r.max(), 6);
}

#[test]
fn binary_mul_bounds_by_sign_cases() {
    let both_positive = BinaryFunction::create(BinaryType::Mul, noise(1, 2, 1), noise(3, 4, 2));
    assert_eq!(both_positive.min(), 3);
    assert_eq!(both_positive.max(), 8);

    let both_negative = BinaryFunction::create(BinaryType::Mul, noise(-4, -2, 1), noise(-3, -1, 2));
    assert_eq!(both_negative.min(), 2);
    assert_eq!(both_negative.max(), 12);

    let mixed = BinaryFunction::create(BinaryType::Mul, noise(-1, 2, 1), noise(3, 4, 2));
    assert_eq!(mixed.min(), -4);
    assert_eq!(mixed.max(), 8);
}

#[test]
fn min_max_bounds_are_pointwise() {
    let r = BinaryFunction::create(BinaryType::Min, noise(0, 3, 1), noise(2, 5, 2));
    assert_eq!(r.min(), 0);
    assert_eq!(r.max(), 3);
    let r = BinaryFunction::create(BinaryType::Max, noise(0, 3, 1), noise(2, 5, 2));
    assert_eq!(r.min(), 2);
    assert_eq!(r.max(), 5);
}

#[test]
fn fill_matches_sample_for_every_combinator() {
    let positions = vec![pos(0, 0, 0), pos(1, 2, 3), pos(-5, 9, -11), pos(100, -100, 7)];
    let graphs = vec![
        BinaryFunction::create(BinaryType::Add, noise(-10, 10, 1), noise(-10, 10, 2)),
        BinaryFunction::create(BinaryType::Mul, noise(-10, 10, 1), noise(-10, 10, 2)),
        BinaryFunction::create(BinaryType::Min, noise(-10, 10, 1), noise(-10, 10, 2)),
        BinaryFunction::create(BinaryType::Max, noise(-10, 10, 1), noise(-10, 10, 2)),
        DensityFunction::Linear(LinearFunction::new(LinearType::Add, noise(-10, 10, 1), 9)),
        DensityFunction::Linear(LinearFunction::new(LinearType::Mul, noise(-10, 10, 1), -4)),
    ];
    for graph in graphs {
        let filled = fill_over(&graph, positions.clone());
        for (i, p) in positions.iter().enumerate() {
            assert_eq!(filled[i], graph.sample(p));
        }
    }
}

#[test]
fn two_noise_leaves_added_fill_as_sampled() {
    let graph = BinaryFunction::create(BinaryType::Add, noise(-64, 64, 11), noise(-64, 64, 22));
    let positions = vec![pos(0, 0, 0), pos(4, 8, 15), pos(-16, 23, -42), pos(7, -7, 7)];
    let filled = fill_over(&graph, positions.clone());
    assert_eq!(filled.len(), 4);
    for (i, p) in positions.iter().enumerate() {
        assert_eq!(filled[i], graph.sample(p));
    }
}

#[test]
fn multiply_fill_keeps_zero_where_child1_is_zero() {
    // At the origin the first leaf samples to exactly zero.
    let child1 = noise(-100, 100, 0);
    assert_eq!(child1.sample(&pos(0, 0, 0)), 0);
    let graph = BinaryFunction::create(BinaryType::Mul, child1, noise(-100, 100, 9));
    let positions = vec![pos(0, 0, 0), pos(1, 1, 1)];
    let filled = fill_over(&graph, positions);
    assert_eq!(filled[0], 0);
    assert_eq!(graph.sample(&pos(0, 0, 0)), 0);
}

#[test]
fn min_skips_child2_when_child1_below_its_bound() {
    // child1's values at these positions lie below child2's declared
    // minimum, so the fill keeps child1's values unchanged.
    let child1 = noise(0, 1, 0);
    let child2 = noise(2, 3, 0);
    assert!(BinaryFunction::non_overlapping(&child1, &child2));
    let graph = BinaryFunction::create(BinaryType::Min, Arc::clone(&child1), child2);
    let positions = vec![pos(0, 0, 0), pos(-1, 0, 0), pos(0, -1, 0)];
    let filled = fill_over(&graph, positions.clone());
    for (i, p) in positions.iter().enumerate() {
        assert!(child1.sample(p) < 2);
        assert_eq!(filled[i], child1.sample(p));
        assert_eq!(graph.sample(p), child1.sample(p));
    }
}

#[test]
fn max_skips_child2_when_child1_above_its_bound() {
    let child1 = noise(5, 9, 1);
    let child2 = noise(-3, -2, 0);
    let graph = BinaryFunction::create(BinaryType::Max, Arc::clone(&child1), child2);
    let p = pos(1, 1, 1);
    assert!(child1.sample(&p) > -2);
    assert_eq!(graph.sample(&p), child1.sample(&p));
    let filled = fill_over(&graph, vec![p]);
    assert_eq!(filled[0], child1.sample(&p));
}

#[test]
fn overlap_diagnostic_is_asymmetric() {
    let low = noise(0, 1, 0);
    let high = noise(2, 3, 0);
    assert!(BinaryFunction::non_overlapping(&low, &high));
    assert!(BinaryFunction::non_overlapping(&high, &low));
    let a = noise(0, 10, 0);
    let b = noise(5, 15, 0);
    assert!(!BinaryFunction::non_overlapping(&a, &b));
    assert!(BinaryFunction::non_overlapping(&b, &a));
}

#[test]
fn addition_saturates_at_range_end() {
    let folded = BinaryFunction::create(BinaryType::Add, constant(i64::MAX), constant(5));
    assert_eq!(folded.min(), i64::MAX);
    assert_eq!(folded.max(), i64::MAX);
    assert_eq!(folded.sample(&pos(0, 0, 0)), i64::MAX);
}

#[test]
fn per_kind_sample_and_fill_agree_with_node_dispatch() {
    let positions = vec![pos(0, 0, 0), pos(2, -3, 5)];
    let applier = Applier::new(positions.clone());

    let l = LinearFunction::new(LinearType::Add, noise(-10, 10, 1), 9);
    let node = DensityFunction::Linear(LinearFunction::new(LinearType::Add, noise(-10, 10, 1), 9));
    assert_eq!(l.sample(&pos(2, -3, 5)), node.sample(&pos(2, -3, 5)));
    let mut direct = vec![0i64; positions.len()];
    l.fill(&mut direct, &applier);
    assert_eq!(direct, fill_over(&node, positions.clone()));

    let min_node = BinaryFunction::create(BinaryType::Min, noise(-10, 10, 1), noise(-10, 10, 2));
    let same = BinaryFunction::create(BinaryType::Min, noise(-10, 10, 1), noise(-10, 10, 2));
    if let DensityFunction::Binary(b) = min_node {
        for p in &positions {
            assert_eq!(b.sample(p), same.sample(p));
        }
    } else {
        panic!("min of two noise leaves must stay a binary node");
    }
}

#[test]
fn applier_maps_index_to_position() {
    let positions = vec![pos(1, 2, 3), pos(4, 5, 6)];
    let applier = Applier::new(positions);
    assert_eq!(applier.len(), 2);
    assert_eq!(applier.at(0), pos(1, 2, 3));
    assert_eq!(applier.at(1), pos(4, 5, 6));
}
