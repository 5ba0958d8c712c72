//! World-generator selection.

use vstd::prelude::*;
use std::sync::Arc;
use crate::density::{ConstantFunction, DensityFunction, NoiseFunction};
use crate::math::{BinaryFunction, BinaryType};

verus! {

/// A world seed.
#[derive(Clone, Copy, PartialEq, Eq, Structural, Debug)]
pub struct Seed(pub u64);

/// Compass direction.
#[derive(Clone, Copy, PartialEq, Eq, Structural, Debug)]
pub enum Direction {
    North,
    NorthEast,
    East,
    SouthEast,
    South,
    SouthWest,
    West,
    NorthWest,
}

/// A world generator: the density graph that shapes terrain for its
/// seed. The graph is built once here and is read-only afterwards;
/// chunk producers share it and drive `sample`/`fill` against it.
pub struct WorldGenerator {
    pub seed: Seed,
    pub density: Arc<DensityFunction>,
}

impl WorldGenerator {
    /// The generator's graph is well formed.
    pub open spec fn wf(&self) -> bool {
        (*self.density).wf()
    }
}

/// Pick the world generator for a seed: a plains-style generator whose
/// graph adds a seed-derived noise leaf to a constant base height.
pub fn get_world_gen(seed: Seed) -> (r: WorldGenerator)
    ensures
        r.wf(),
        r.seed == seed,
{
    let noise_seed = (seed.0 % 0x8000_0000) as i32;
    let noise = Arc::new(DensityFunction::Noise(NoiseFunction::new(-64, 64, noise_seed)));
    let base = Arc::new(DensityFunction::Constant(ConstantFunction::new(64)));
    let graph = BinaryFunction::create(BinaryType::Add, noise, base);
    WorldGenerator { seed, density: Arc::new(graph) }
}

} // verus!
