//! Conversions between block, biome, and chunk coordinate scales.
//!
//! Biome granularity is block granularity shifted right by two; a chunk
//! spans four biome cells, so chunk and block scales sit two shifts
//! apart on each side of the biome scale.

use vstd::prelude::*;

verus! {

/// Block coordinate to biome-cell coordinate.
pub fn from_block(coord: i32) -> (r: i32)
    ensures
        r == coord >> 2u32,
{
    coord >> 2u32
}

/// Biome-cell coordinate to block coordinate.
pub fn to_block(coord: i32) -> (r: i32)
    ensures
        r == coord << 2u32,
{
    coord << 2u32
}

/// Chunk coordinate to biome-cell coordinate.
pub fn from_chunk(coord: i32) -> (r: i32)
    ensures
        r == coord << 2u32,
{
    coord << 2u32
}

/// Biome-cell coordinate to chunk coordinate.
pub fn to_chunk(coord: i32) -> (r: i32)
    ensures
        r == coord >> 2u32,
{
    coord >> 2u32
}

} // verus!
