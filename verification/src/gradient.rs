//! Gradient selection from a lattice hash. Each gradient is a vector of small
//! integers; the noise value at a corner is its dot product with the offset
//! of the sampled point from that corner.
use vstd::prelude::*;

verus! {

/// The low bits of the corner hash mixed with the seed: `(seed ^ hash) & mask`,
/// with the seed truncated to 32 bits.
pub open spec fn mixed(seed: i64, hash: i32, mask: i32) -> i32 {
    (seed as i32 ^ hash) & mask
}

proof fn lemma_mixed_range(seed: i64, hash: i32, mask: i32)
    requires
        mask == 7 || mask == 15 || mask == 31,
    ensures
        0 <= mixed(seed, hash, mask) <= mask,
{
    let s = seed as i32;
    assert(0 <= (s ^ hash) & mask <= mask) by (bit_vector)
        requires
            mask == 7i32 || mask == 15i32 || mask == 31i32,
    ;
}

/// Bit `b` of a small non-negative value.
pub open spec fn bit(h: int, b: int) -> bool {
    (h / pow2(b)) % 2 == 1
}

/// Powers of two up to 16.
pub open spec fn pow2(b: int) -> int {
    if b <= 0 {
        1
    } else if b == 1 {
        2
    } else if b == 2 {
        4
    } else if b == 3 {
        8
    } else {
        16
    }
}

proof fn lemma_bits(h: i32)
    requires
        0 <= h < 32,
    ensures
        ((h & 1) == 0) == !bit(h as int, 0),
        ((h & 2) == 0) == !bit(h as int, 1),
        ((h & 4) == 0) == !bit(h as int, 2),
        ((h & 8) == 0) == !bit(h as int, 3),
        (h & 7) as int == (h as int) % 8,
{
    assert(((h & 1) == 0) == ((h as int) % 2 != 1)) by (bit_vector)
        requires
            0 <= h < 32,
    ;
    assert(((h & 2) == 0) == (((h as int) / 2) % 2 != 1)) by (bit_vector)
        requires
            0 <= h < 32,
    ;
    assert(((h & 4) == 0) == (((h as int) / 4) % 2 != 1)) by (bit_vector)
        requires
            0 <= h < 32,
    ;
    assert(((h & 8) == 0) == (((h as int) / 8) % 2 != 1)) by (bit_vector)
        requires
            0 <= h < 32,
    ;
    assert((h & 7) as int == (h as int) % 8) by (bit_vector)
        requires
            0 <= h < 32,
    ;
}

/// The one-dimensional gradient: one of `0..=7` or its negation, chosen by
/// the low four bits of the mixed hash; bit 3 picks the sign.
pub open spec fn spec_grad1(seed: i64, hash: i32) -> int {
    let h = mixed(seed, hash, 15) as int;
    if bit(h, 3) {
        -(h % 8)
    } else {
        h % 8
    }
}

/// The one-dimensional gradient of a corner.
pub fn grad1(seed: i64, hash: i32) -> (r: i32)
    ensures
        r as int == spec_grad1(seed, hash),
{
    let h = ((seed as i32) ^ hash) & 15;
    proof {
        lemma_mixed_range(seed, hash, 15);
        lemma_bits(h);
    }
    let v = h & 7;
    if h & 8 == 0 {
        v
    } else {
        -v
    }
}

/// The two-dimensional gradient: `(±1, ±2)` when the low three bits of the
/// mixed hash are below 4, `(±2, ±1)` otherwise. Bit 0 signs the component
/// of magnitude 1 and bit 1 the one of magnitude 2.
pub open spec fn spec_grad2(seed: i64, hash: i32) -> (int, int) {
    let h = mixed(seed, hash, 7) as int;
    let s0 = if bit(h, 0) {
        -1int
    } else {
        1
    };
    let s1 = if bit(h, 1) {
        -1int
    } else {
        1
    };
    if h < 4 {
        (s0, 2 * s1)
    } else {
        (2 * s1, s0)
    }
}

/// The two-dimensional gradient of a corner.
pub fn grad2(seed: i64, hash: i32) -> (r: [i32; 2])
    ensures
        (r[0] as int, r[1] as int) == spec_grad2(seed, hash),
{
    let h = (hash ^ (seed as i32)) & 7;
    proof {
        let s = seed as i32;
        assert((hash ^ s) & 7i32 == (s ^ hash) & 7i32) by (bit_vector);
        lemma_mixed_range(seed, hash, 7);
        lemma_bits(h);
    }
    let small = h < 4;
    let (x_magnitude, y_magnitude): (i32, i32) = if small {
        (1, 2)
    } else {
        (2, 1)
    };
    let x_positive = if small {
        h & 1 == 0
    } else {
        h & 2 == 0
    };
    let y_positive = if small {
        h & 2 == 0
    } else {
        h & 1 == 0
    };
    let gx = if x_positive {
        x_magnitude
    } else {
        -x_magnitude
    };
    let gy = if y_positive {
        y_magnitude
    } else {
        -y_magnitude
    };
    [gx, gy]
}

/// The four-dimensional gradient as coefficients on `(x, y, z, t)`: three of
/// the four axes get `±1` and one gets 0. The first term reads x when the
/// low five bits of the mixed hash are below 24 and y otherwise, the second y
/// below 16 and z otherwise, the third z below 8 and t otherwise; bits 0, 1
/// and 2 sign the three terms.
pub open spec fn spec_grad4(seed: i64, hash: i32) -> [int; 4] {
    let h = mixed(seed, hash, 31) as int;
    let su = if bit(h, 0) {
        -1int
    } else {
        1
    };
    let sv = if bit(h, 1) {
        -1int
    } else {
        1
    };
    let sw = if bit(h, 2) {
        -1int
    } else {
        1
    };
    let u = if h < 24 {
        0int
    } else {
        1
    };
    let v = if h < 16 {
        1int
    } else {
        2
    };
    let w = if h < 8 {
        2int
    } else {
        3
    };
    [
        (if u == 0 { su } else { 0 }),
        (if u == 1 { su } else { 0 }) + (if v == 1 { sv } else { 0 }),
        (if v == 2 { sv } else { 0 }) + (if w == 2 { sw } else { 0 }),
        (if w == 3 { sw } else { 0 }),
    ]
}

/// The four-dimensional gradient of a corner, as coefficients on the four
/// offset components.
pub fn grad4(seed: i64, hash: i32) -> (r: [i32; 4])
    ensures
        forall|a: int| 0 <= a < 4 ==> #[trigger] r[a] as int == spec_grad4(seed, hash)[a],
{
    let h = ((seed as i32) ^ hash) & 31;
    proof {
        lemma_mixed_range(seed, hash, 31);
        lemma_bits(h);
    }
    let su: i32 = if h & 1 == 0 {
        1
    } else {
        -1
    };
    let sv: i32 = if h & 2 == 0 {
        1
    } else {
        -1
    };
    let sw: i32 = if h & 4 == 0 {
        1
    } else {
        -1
    };
    let mut c: [i32; 4] = [0, 0, 0, 0];
    if h < 24 {
        c[0] = su;
    } else {
        c[1] = su;
    }
    if h < 16 {
        c[1] = c[1] + sv;
    } else {
        c[2] = sv;
    }
    if h < 8 {
        c[2] = c[2] + sw;
    } else {
        c[3] = sw;
    }
    c
}

/// Every one-dimensional gradient has magnitude at most 7.
pub proof fn lemma_grad1_bounded(seed: i64, hash: i32)
    ensures
        -7 <= spec_grad1(seed, hash) <= 7,
{
    lemma_mixed_range(seed, hash, 15);
}

/// Every two-dimensional gradient has one component of magnitude 1 and one of
/// magnitude 2, and the eight values of the mixed hash give eight distinct
/// gradients.
pub proof fn lemma_grad2_directions(seed1: i64, hash1: i32, seed2: i64, hash2: i32)
    ensures
        ({
            let (gx, gy) = spec_grad2(seed1, hash1);
            (gx == 1 || gx == -1 || gx == 2 || gx == -2) && (gy == 1 || gy == -1 || gy == 2
                || gy == -2) && (gx == 1 || gx == -1) != (gy == 1 || gy == -1)
        }),
        spec_grad2(seed1, hash1) == spec_grad2(seed2, hash2) ==> mixed(seed1, hash1, 7) == mixed(
            seed2,
            hash2,
            7,
        ),
{
    lemma_mixed_range(seed1, hash1, 7);
    lemma_mixed_range(seed2, hash2, 7);
}

/// Every four-dimensional gradient reads exactly three of the four axes,
/// each with coefficient `±1`, and leaves the fourth at 0.
pub proof fn lemma_grad4_three_axes(seed: i64, hash: i32)
    ensures
        ({
            let c = spec_grad4(seed, hash);
            &&& forall|a: int| 0 <= a < 4 ==> (#[trigger] c[a] == -1 || c[a] == 0 || c[a] == 1)
            &&& (if c[0] == 0 { 1int } else { 0 }) + (if c[1] == 0 { 1int } else { 0 }) + (if c[2]
                == 0 { 1int } else { 0 }) + (if c[3] == 0 { 1int } else { 0 }) == 1
        }),
{
    lemma_mixed_range(seed, hash, 31);
}

/// The one-dimensional gradient in terms of the bits of the mixed hash
/// `m = (seed ^ hash) & 15`: its magnitude is the low three bits of `m`, and
/// it is negative exactly when bit 3 of `m` is set.
pub proof fn lemma_grad1_bits(seed: i64, hash: i32)
    ensures
        ({
            let m = (seed as i32 ^ hash) & 15i32;
            spec_grad1(seed, hash) == if m & 8i32 == 0 {
                (m & 7i32) as int
            } else {
                -((m & 7i32) as int)
            }
        }),
{
    lemma_mixed_range(seed, hash, 15);
    lemma_bits((seed as i32 ^ hash) & 15i32);
}

/// The two-dimensional gradient in terms of the bits of the mixed hash
/// `m = (seed ^ hash) & 7`: the component of magnitude 1 is x when `m < 4`
/// and y otherwise, the other one has magnitude 2; bit 0 of `m` makes the
/// first negative and bit 1 the second.
pub proof fn lemma_grad2_bits(seed: i64, hash: i32)
    ensures
        ({
            let m = (seed as i32 ^ hash) & 7i32;
            let (gx, gy) = spec_grad2(seed, hash);
            let (one, two) = if m < 4 {
                (gx, gy)
            } else {
                (gy, gx)
            };
            &&& one == if m & 1i32 != 0 {
                -1int
            } else {
                1
            }
            &&& two == if m & 2i32 != 0 {
                -2int
            } else {
                2
            }
        }),
{
    lemma_mixed_range(seed, hash, 7);
    lemma_bits((seed as i32 ^ hash) & 7i32);
}

/// The four-dimensional gradient in terms of the bits of the mixed hash
/// `m = (seed ^ hash) & 31`: the first term reads x when `m < 24` and y
/// otherwise, the second y when `m < 16` and z otherwise, the third z when
/// `m < 8` and t otherwise. Bit 0 of `m` negates the first term, bit 1 the
/// second and bit 2 the third; the axis no term reads gets 0.
pub proof fn lemma_grad4_bits(seed: i64, hash: i32)
    ensures
        ({
            let m = (seed as i32 ^ hash) & 31i32;
            let c = spec_grad4(seed, hash);
            let first: int = if m < 24 {
                0
            } else {
                1
            };
            let second: int = if m < 16 {
                1
            } else {
                2
            };
            let third: int = if m < 8 {
                2
            } else {
                3
            };
            &&& c[first] == if m & 1i32 != 0 {
                -1int
            } else {
                1
            }
            &&& c[second] == if m & 2i32 != 0 {
                -1int
            } else {
                1
            }
            &&& c[third] == if m & 4i32 != 0 {
                -1int
            } else {
                1
            }
            &&& forall|a: int|
                0 <= a < 4 && a != first && a != second && a != third ==> #[trigger] c[a] == 0
        }),
{
    lemma_mixed_range(seed, hash, 31);
    lemma_bits((seed as i32 ^ hash) & 31i32);
}

} // verus!
