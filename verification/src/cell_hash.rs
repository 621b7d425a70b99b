//! Hashes of cellular-noise cells, one 64-bit lane at a time.
use vstd::prelude::*;

verus! {

/// `a * b` in 64-bit two's complement arithmetic, wrapping on overflow.
pub open spec fn wmul(a: i64, b: i64) -> i64 {
    vstd::wrapping::i64_specs::wrapping_mul(a, b)
}

/// The cube of the mixed coordinates times 60493, wrapping on overflow.
pub open spec fn spec_scramble(h: i64) -> i64 {
    wmul(wmul(wmul(h, h), 60493), h)
}

/// The hash of the two-dimensional cell `(x, y)`.
pub open spec fn spec_hash_2d(seed: i64, x: i64, y: i64) -> i64 {
    spec_scramble(y ^ (x ^ seed))
}

/// The hash of the three-dimensional cell `(x, y, z)`.
pub open spec fn spec_hash_3d(seed: i64, x: i64, y: i64, z: i64) -> i64 {
    spec_scramble(z ^ (y ^ (x ^ seed)))
}

fn scramble(h: i64) -> (r: i64)
    ensures
        r == spec_scramble(h),
{
    h.wrapping_mul(h).wrapping_mul(60493).wrapping_mul(h)
}

/// The hash of the two-dimensional cell `(x, y)`.
pub fn hash_2d(seed: i64, x: i64, y: i64) -> (r: i64)
    ensures
        r == spec_hash_2d(seed, x, y),
{
    let mut hash = x ^ seed;
    hash = y ^ hash;
    scramble(hash)
}

/// The hash of the three-dimensional cell `(x, y, z)`.
pub fn hash_3d(seed: i64, x: i64, y: i64, z: i64) -> (r: i64)
    ensures
        r == spec_hash_3d(seed, x, y, z),
{
    let mut hash = x ^ seed;
    hash = y ^ hash;
    hash = z ^ hash;
    scramble(hash)
}

/// The two-dimensional hash does not depend on the order of its coordinates,
/// nor on which of them the seed is mixed into.
pub proof fn lemma_hash_2d_symmetric(seed: i64, x: i64, y: i64)
    ensures
        spec_hash_2d(seed, x, y) == spec_hash_2d(seed, y, x),
        spec_hash_2d(seed, x, y) == spec_hash_2d(x, seed, y),
{
    assert(y ^ (x ^ seed) == x ^ (y ^ seed)) by (bit_vector);
    assert(y ^ (x ^ seed) == y ^ (seed ^ x)) by (bit_vector);
}

/// A three-dimensional cell whose z coordinate is 0 hashes like the
/// two-dimensional cell of its x and y.
pub proof fn lemma_hash_3d_flat(seed: i64, x: i64, y: i64)
    ensures
        spec_hash_3d(seed, x, y, 0) == spec_hash_2d(seed, x, y),
{
    let h = y ^ (x ^ seed);
    assert(0i64 ^ h == h) by (bit_vector);
}

/// The three-dimensional hash mixes its coordinates and the seed alike: it
/// does not depend on their order, nor on which of the four is the seed.
pub proof fn lemma_hash_3d_symmetric(seed: i64, x: i64, y: i64, z: i64)
    ensures
        spec_hash_3d(seed, x, y, z) == spec_hash_3d(seed, z, y, x),
        spec_hash_3d(seed, x, y, z) == spec_hash_3d(seed, x, z, y),
        spec_hash_3d(seed, x, y, z) == spec_hash_3d(seed, y, x, z),
        spec_hash_3d(seed, x, y, z) == spec_hash_3d(z, x, y, seed),
{
    assert(z ^ (y ^ (x ^ seed)) == x ^ (y ^ (z ^ seed))) by (bit_vector);
    assert(z ^ (y ^ (x ^ seed)) == y ^ (z ^ (x ^ seed))) by (bit_vector);
    assert(z ^ (y ^ (x ^ seed)) == z ^ (x ^ (y ^ seed))) by (bit_vector);
    assert(z ^ (y ^ (x ^ seed)) == seed ^ (y ^ (x ^ z))) by (bit_vector);
}

/// The number of values of a 64-bit integer.
pub open spec fn word() -> int {
    0x1_0000_0000_0000_0000
}

proof fn lemma_wmul(a: i64, b: i64) -> (k: int)
    ensures
        wmul(a, b) == a * b + k * word(),
{
    let x = a * b;
    vstd::arithmetic::div_mod::lemma_fundamental_div_mod(x, word());
    vstd::arithmetic::div_mod::lemma_mod_bound(x, word());
    let r = x % word();
    assert(x == word() * (x / word()) + r);
    assert(word() * (x / word()) == (x / word()) * word()) by (nonlinear_arith);
    if r > i64::MAX {
        -(x / word()) - 1
    } else {
        -(x / word())
    }
}

/// Scrambling is the cube of the mixed value times 60493, taken modulo
/// 2^64 and read as a signed 64-bit integer.
pub proof fn lemma_scramble_is_cube(h: i64)
    ensures
        (spec_scramble(h) - (h as int) * (h as int) * (h as int) * 60493) % word() == 0,
{
    let k1 = lemma_wmul(h, h);
    let a = wmul(h, h);
    let k2 = lemma_wmul(a, 60493);
    let b = wmul(a, 60493);
    let k3 = lemma_wmul(b, h);
    let hh = h as int;
    let big = (k1 * 60493 + k2) * hh + k3;
    assert(spec_scramble(h) - hh * hh * hh * 60493 == big * word()) by (nonlinear_arith)
        requires
            a == hh * hh + k1 * word(),
            b == a * 60493 + k2 * word(),
            spec_scramble(h) == b * hh + k3 * word(),
            big == (k1 * 60493 + k2) * hh + k3,
    ;
    vstd::arithmetic::div_mod::lemma_mod_multiples_basic(big, word());
}

/// Each cell hash is the cube of the exclusive or of the seed and the
/// coordinates, times 60493, modulo 2^64.
pub proof fn lemma_hash_is_cube_of_xor(seed: i64, x: i64, y: i64, z: i64)
    ensures
        ({
            let m = (seed ^ x ^ y) as int;
            (spec_hash_2d(seed, x, y) - m * m * m * 60493) % word() == 0
        }),
        ({
            let m = (seed ^ x ^ y ^ z) as int;
            (spec_hash_3d(seed, x, y, z) - m * m * m * 60493) % word() == 0
        }),
{
    assert(y ^ (x ^ seed) == seed ^ x ^ y) by (bit_vector);
    assert(z ^ (y ^ (x ^ seed)) == seed ^ x ^ y ^ z) by (bit_vector);
    lemma_scramble_is_cube(y ^ (x ^ seed));
    lemma_scramble_is_cube(z ^ (y ^ (x ^ seed)));
}

} // verus!
