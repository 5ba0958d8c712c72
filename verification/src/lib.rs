//! Density-function evaluation engine for procedural voxel terrain.
//!
//! A terrain shape is described by an immutable, persistent graph of
//! density functions over block positions: constant and noise leaves,
//! unary linear combinators, and binary combinators (add, multiply,
//! min, max). Every node carries a precomputed `[min, max]` interval
//! that combinators use to prune work during evaluation. Graphs can be
//! evaluated one position at a time (`sample`) or over a batch of
//! positions (`fill`), and rewritten bottom-up through a visitor.

pub mod arith;
pub mod biome_coords;
pub mod config;
pub mod density;
pub mod laws;
pub mod math;
pub mod position;
pub mod visitor;
pub mod world_gen;
