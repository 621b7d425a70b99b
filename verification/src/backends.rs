//! The SIMD instruction sets that noise is computed with, by the number of
//! lanes their vectors hold. The lane count of the 32-bit floating-point vectors is
//! the width by which a noise grid is walked (see [`crate::sampling`]).
use vstd::prelude::*;

verus! {

/// The lane counts of the vector types of an instruction set.
#[derive(Debug, Copy, Clone, PartialEq, Eq)]
pub struct Lanes {
    pub int8: usize,
    pub int16: usize,
    pub int32: usize,
    pub int64: usize,
    pub float32: usize,
    pub float64: usize,
}

/// The lane counts of 128-bit vectors.
pub open spec fn lanes_128() -> Lanes {
    Lanes { int8: 16, int16: 8, int32: 4, int64: 2, float32: 4, float64: 2 }
}

/// The lane counts of 256-bit vectors.
pub open spec fn lanes_256() -> Lanes {
    Lanes { int8: 32, int16: 16, int32: 8, int64: 4, float32: 8, float64: 4 }
}

fn lanes_of_bits(bits: usize) -> (r: Lanes)
    requires
        bits == 128 || bits == 256,
    ensures
        bits == 128 ==> r == lanes_128(),
        bits == 256 ==> r == lanes_256(),
{
    Lanes { int8: bits / 8, int16: bits / 16, int32: bits / 32, int64: bits / 64, float32: bits / 32, float64: bits / 64 }
}

/// SSE2: 128-bit vectors.
#[derive(Debug, Copy, Clone, PartialEq, Eq)]
pub struct Sse2;

/// SSE4.1: 128-bit vectors.
#[derive(Debug, Copy, Clone, PartialEq, Eq)]
pub struct Sse41;

/// AVX2: 256-bit vectors.
#[derive(Debug, Copy, Clone, PartialEq, Eq)]
pub struct Avx2;

/// NEON: 128-bit vectors.
#[derive(Debug, Copy, Clone, PartialEq, Eq)]
pub struct Neon;

/// WebAssembly SIMD: 128-bit vectors.
#[derive(Debug, Copy, Clone, PartialEq, Eq)]
pub struct Wasm;

impl Sse2 {
    pub fn lanes() -> (r: Lanes)
        ensures
            r == lanes_128(),
    {
        lanes_of_bits(128)
    }
}

impl Sse41 {
    pub fn lanes() -> (r: Lanes)
        ensures
            r == lanes_128(),
    {
        lanes_of_bits(128)
    }
}

impl Avx2 {
    pub fn lanes() -> (r: Lanes)
        ensures
            r == lanes_256(),
    {
        lanes_of_bits(256)
    }
}

impl Neon {
    pub fn lanes() -> (r: Lanes)
        ensures
            r == lanes_128(),
    {
        lanes_of_bits(128)
    }
}

impl Wasm {
    pub fn lanes() -> (r: Lanes)
        ensures
            r == lanes_128(),
    {
        lanes_of_bits(128)
    }
}

/// A 32-bit float vector and a 32-bit integer vector of the same instruction
/// set hold the same number of lanes, so a float lane can be converted to an
/// integer lane in place, and every vector has at least one lane.
pub proof fn lemma_lane_counts_match()
    ensures
        lanes_128().float32 == lanes_128().int32 && lanes_128().float64 == lanes_128().int64,
        lanes_256().float32 == lanes_256().int32 && lanes_256().float64 == lanes_256().int64,
        lanes_128().float32 > 0 && lanes_256().float32 > 0,
{
}

} // verus!
