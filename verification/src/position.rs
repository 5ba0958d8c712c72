//! Block positions and the batched positional context.

use vstd::prelude::*;

verus! {

/// A block coordinate used for point sampling.
#[derive(Clone, Copy, PartialEq, Eq, Structural, Debug)]
pub struct NoisePos {
    pub x: i32,
    pub y: i32,
    pub z: i32,
}

/// Batched positional context: a pure mapping from an array index in
/// `[0, n)` to the coordinate the element at that index stands for.
pub struct Applier {
    pub positions: Vec<NoisePos>,
}

impl View for Applier {
    type V = Seq<NoisePos>;

    open spec fn view(&self) -> Seq<NoisePos> {
        self.positions@
    }
}

impl Applier {
    pub fn new(positions: Vec<NoisePos>) -> (r: Applier)
        ensures
            r@ == positions@,
    {
        Applier { positions }
    }

    pub fn len(&self) -> (r: usize)
        ensures
            r == self@.len(),
    {
        self.positions.len()
    }

    /// The coordinate mapped to `index`.
    pub fn at(&self, index: usize) -> (r: NoisePos)
        requires
            index < self@.len(),
        ensures
            r == self@[index as int],
    {
        self.positions[index]
    }
}

} // verus!
