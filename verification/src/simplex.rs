//! The integer half of simplex noise: which lattice corners surround a point
//! and which permutation-table hash each corner receives.
//!
//! The floating-point half (skewing the input, the distance falloff and the
//! gradient dot products) takes the lattice cell and the ordering of the
//! in-cell offsets as inputs here, and feeds the hashes back into the
//! gradient selection of [`crate::gradient`].
use vstd::prelude::*;

use crate::perm::{lemma_perm_range, lemma_perm_repeats, perm, perm_at};

verus! {

/// A lattice coordinate reduced to the period of the permutation table.
pub open spec fn lattice(i: i32) -> int {
    (i as int) % 256
}

proof fn lemma_low_byte(i: i32)
    ensures
        0 <= (i & 255i32) < 256,
        (i & 255i32) as int == lattice(i),
{
    assert(0 <= (i & 255i32) < 256) by (bit_vector);
    assert((i & 255i32) as int == (i as int) % 256) by (bit_vector);
}

fn low_byte(i: i32) -> (r: usize)
    ensures
        r as int == lattice(i),
        r < 256,
{
    proof {
        lemma_low_byte(i);
    }
    (i & 0xff) as usize
}

/// The hash of the corner `(ii + di, jj + dj)` of a two-dimensional cell.
pub open spec fn corner_2d(ii: int, jj: int, di: int, dj: int) -> int {
    perm_at(ii + di + perm_at(jj + dj))
}

/// The hash of the corner `(ii + di, jj + dj, kk + dk, ll + dl)` of a
/// four-dimensional cell.
pub open spec fn corner_4d(
    ii: int,
    jj: int,
    kk: int,
    ll: int,
    di: int,
    dj: int,
    dk: int,
    dl: int,
) -> int {
    perm_at(ii + di + perm_at(jj + dj + perm_at(kk + dk + perm_at(ll + dl))))
}

/// The hashes of the two lattice points around `i0` on a line: the point
/// itself and its right neighbour.
pub fn simplex_1d_hashes(i0: i32) -> (r: (i32, i32))
    ensures
        r.0 as int == perm_at(lattice(i0)),
        r.1 as int == perm_at((i0 as int + 1) % 256),
{
    let i = low_byte(i0);
    let next = (i + 1) % 256;
    proof {
        assert(((i0 as int % 256) + 1) % 256 == (i0 as int + 1) % 256) by (nonlinear_arith);
    }
    (perm(i), perm(next))
}

/// The hashes of the three corners of the two-dimensional simplex that holds
/// a point of the cell `(i, j)`: the cell origin, the middle corner reached
/// by one step along x (when `step_x`) and along y (when `step_y`), and the
/// far corner `(i + 1, j + 1)`. The walk takes the x step when the in-cell
/// offset along x is at least the one along y, and the y step when it is
/// strictly smaller.
pub fn simplex_2d_hashes(i: i32, j: i32, step_x: bool, step_y: bool) -> (r: [i32; 3])
    ensures
        r[0] as int == corner_2d(lattice(i), lattice(j), 0, 0),
        r[1] as int == corner_2d(
            lattice(i),
            lattice(j),
            if step_x {
                1
            } else {
                0
            },
            if step_y {
                1
            } else {
                0
            },
        ),
        r[2] as int == corner_2d(lattice(i), lattice(j), 1, 1),
{
    proof {
        lemma_perm_range();
    }
    let ii = low_byte(i);
    let jj = low_byte(j);
    let di: usize = if step_x {
        1
    } else {
        0
    };
    let dj: usize = if step_y {
        1
    } else {
        0
    };
    let g0 = perm(ii + perm(jj) as usize);
    let g1 = perm(ii + di + perm(jj + dj) as usize);
    let g2 = perm(ii + 1 + perm(jj + 1) as usize);
    [g0, g1, g2]
}

/// The rank of each of the four in-cell offsets `(x, y, z, w)`: the number of
/// pairwise comparisons it wins. A comparison `a > b` that fails is won by
/// `b`, so ties go to the later axis.
pub open spec fn spec_ranks(
    x_gt_y: bool,
    x_gt_z: bool,
    x_gt_w: bool,
    y_gt_z: bool,
    y_gt_w: bool,
    z_gt_w: bool,
) -> [int; 4] {
    [
        (if x_gt_y { 1int } else { 0 }) + (if x_gt_z { 1int } else { 0 }) + (if x_gt_w { 1int } else { 0 }),
        (if x_gt_y { 0int } else { 1 }) + (if y_gt_z { 1int } else { 0 }) + (if y_gt_w { 1int } else { 0 }),
        (if x_gt_z { 0int } else { 1 }) + (if y_gt_z { 0int } else { 1 }) + (if z_gt_w { 1int } else { 0 }),
        (if x_gt_w { 0int } else { 1 }) + (if y_gt_w { 0int } else { 1 }) + (if z_gt_w { 0int } else { 1 }),
    ]
}

/// Ranks the four in-cell offsets from their six pairwise comparisons.
pub fn simplex_4d_ranks(
    x_gt_y: bool,
    x_gt_z: bool,
    x_gt_w: bool,
    y_gt_z: bool,
    y_gt_w: bool,
    z_gt_w: bool,
) -> (r: [i32; 4])
    ensures
        forall|a: int|
            0 <= a < 4 ==> #[trigger] r[a] as int == spec_ranks(
                x_gt_y,
                x_gt_z,
                x_gt_w,
                y_gt_z,
                y_gt_w,
                z_gt_w,
            )[a],
{
    let mut rank_x: i32 = 0;
    let mut rank_y: i32 = 0;
    let mut rank_z: i32 = 0;
    let mut rank_w: i32 = 0;
    if x_gt_y {
        rank_x = rank_x + 1;
    } else {
        rank_y = rank_y + 1;
    }
    if x_gt_z {
        rank_x = rank_x + 1;
    } else {
        rank_z = rank_z + 1;
    }
    if x_gt_w {
        rank_x = rank_x + 1;
    } else {
        rank_w = rank_w + 1;
    }
    if y_gt_z {
        rank_y = rank_y + 1;
    } else {
        rank_z = rank_z + 1;
    }
    if y_gt_w {
        rank_y = rank_y + 1;
    } else {
        rank_w = rank_w + 1;
    }
    if z_gt_w {
        rank_z = rank_z + 1;
    } else {
        rank_w = rank_w + 1;
    }
    [rank_x, rank_y, rank_z, rank_w]
}

/// Whether an axis of the given rank is stepped along at the `n`-th corner
/// of the walk through a four-dimensional simplex (`n` from 1 to 3): the
/// axes of the `n` highest ranks are.
pub open spec fn steps(rank: int, n: int) -> int {
    if rank > 3 - n {
        1
    } else {
        0
    }
}

fn step(rank: i32, n: i32) -> (r: usize)
    requires
        1 <= n <= 3,
    ensures
        r as int == steps(rank as int, n as int),
{
    if rank > 3 - n {
        1
    } else {
        0
    }
}

/// The hash of the corner `(di, dj, dk, dl)` of the cell `(ii, jj, kk, ll)`.
fn corner_hash_4d(
    ii: usize,
    jj: usize,
    kk: usize,
    ll: usize,
    di: usize,
    dj: usize,
    dk: usize,
    dl: usize,
) -> (r: i32)
    requires
        ii < 256,
        jj < 256,
        kk < 256,
        ll < 256,
        di <= 1,
        dj <= 1,
        dk <= 1,
        dl <= 1,
    ensures
        r as int == corner_4d(
            ii as int,
            jj as int,
            kk as int,
            ll as int,
            di as int,
            dj as int,
            dk as int,
            dl as int,
        ),
{
    let lp = perm(ll + dl) as usize;
    let kp = perm(kk + dk + lp) as usize;
    let jp = perm(jj + dj + kp) as usize;
    perm(ii + di + jp)
}

/// The hashes of the five corners of the four-dimensional simplex that holds
/// a point of the cell `(i, j, k, l)`, given the ranks of its in-cell offsets:
/// the cell origin, the three corners that add one axis at a time in rank
/// order, and the far corner `(i + 1, j + 1, k + 1, l + 1)`.
pub fn simplex_4d_hashes(i: i32, j: i32, k: i32, l: i32, ranks: [i32; 4]) -> (r: [i32; 5])
    ensures
        r[0] as int == corner_4d(lattice(i), lattice(j), lattice(k), lattice(l), 0, 0, 0, 0),
        forall|n: int|
            1 <= n <= 3 ==> #[trigger] r[n] as int == corner_4d(
                lattice(i),
                lattice(j),
                lattice(k),
                lattice(l),
                steps(ranks[0] as int, n),
                steps(ranks[1] as int, n),
                steps(ranks[2] as int, n),
                steps(ranks[3] as int, n),
            ),
        r[4] as int == corner_4d(lattice(i), lattice(j), lattice(k), lattice(l), 1, 1, 1, 1),
{
    let ii = low_byte(i);
    let jj = low_byte(j);
    let kk = low_byte(k);
    let ll = low_byte(l);
    let g0 = corner_hash_4d(ii, jj, kk, ll, 0, 0, 0, 0);
    let g1 = corner_hash_4d(
        ii,
        jj,
        kk,
        ll,
        step(ranks[0], 1),
        step(ranks[1], 1),
        step(ranks[2], 1),
        step(ranks[3], 1),
    );
    let g2 = corner_hash_4d(
        ii,
        jj,
        kk,
        ll,
        step(ranks[0], 2),
        step(ranks[1], 2),
        step(ranks[2], 2),
        step(ranks[3], 2),
    );
    let g3 = corner_hash_4d(
        ii,
        jj,
        kk,
        ll,
        step(ranks[0], 3),
        step(ranks[1], 3),
        step(ranks[2], 3),
        step(ranks[3], 3),
    );
    let g4 = corner_hash_4d(ii, jj, kk, ll, 1, 1, 1, 1);
    let r = [g0, g1, g2, g3, g4];
    assert(forall|n: int| 1 <= n <= 3 ==> r[n] == [g1, g2, g3][n - 1]);
    r
}

/// Whenever the six comparisons come from four values, the ranks are the
/// numbers 0 to 3 in some order: each axis gets a distinct rank.
pub proof fn lemma_ranks_are_permutation(x: int, y: int, z: int, w: int)
    ensures
        ({
            let r = spec_ranks(x > y, x > z, x > w, y > z, y > w, z > w);
            &&& forall|a: int| 0 <= a < 4 ==> 0 <= #[trigger] r[a] <= 3
            &&& forall|a: int, b: int|
                0 <= a < 4 && 0 <= b < 4 && a != b ==> #[trigger] r[a] != #[trigger] r[b]
        }),
{
}

/// Along the walk through the simplex each corner keeps the steps of the one
/// before and, when the ranks are distinct, adds exactly one axis: the `n`-th
/// corner has stepped along `n` axes.
pub proof fn lemma_walk_adds_one_axis(ranks: [int; 4], n: int)
    requires
        1 <= n <= 3,
        forall|a: int| 0 <= a < 4 ==> 0 <= #[trigger] ranks[a] <= 3,
        forall|a: int, b: int|
            0 <= a < 4 && 0 <= b < 4 && a != b ==> #[trigger] ranks[a] != #[trigger] ranks[b],
    ensures
        forall|a: int| 0 <= a < 4 && n < 3 ==> steps(#[trigger] ranks[a], n) <= steps(ranks[a], n + 1),
        steps(ranks[0], n) + steps(ranks[1], n) + steps(ranks[2], n) + steps(ranks[3], n) == n,
{
    assert(ranks[0] != ranks[1] && ranks[0] != ranks[2] && ranks[0] != ranks[3]);
    assert(ranks[1] != ranks[2] && ranks[1] != ranks[3] && ranks[2] != ranks[3]);
    assert(0 <= ranks[0] <= 3 && 0 <= ranks[1] <= 3 && 0 <= ranks[2] <= 3 && 0 <= ranks[3] <= 3);
}

proof fn lemma_step_wraps(i: int, d: int, p: int)
    requires
        0 <= d <= 1,
        0 <= p < 256,
    ensures
        perm_at(i % 256 + d + p) == perm_at((i + d) % 256 + p),
{
    lemma_perm_repeats();
    if i % 256 + d == 256 {
        assert((i + d) % 256 == 0);
        assert(perm_at(p + 256) == perm_at(p));
        assert(i % 256 + d + p == p + 256);
    } else {
        assert((i + d) % 256 == i % 256 + d);
    }
}

/// A stepped corner of a two-dimensional cell hashes like the origin of the
/// cell it lands in: the corner `(i + di, j + dj)` of the cell `(i, j)` is
/// the same lattice point as the origin of the cell `(i + di, j + dj)`.
pub proof fn lemma_corner_2d_is_cell_origin(i: int, j: int, di: int, dj: int)
    requires
        0 <= di <= 1,
        0 <= dj <= 1,
    ensures
        corner_2d(i % 256, j % 256, di, dj) == corner_2d((i + di) % 256, (j + dj) % 256, 0, 0),
{
    lemma_perm_range();
    lemma_step_wraps(j, dj, 0);
    let p = perm_at((j + dj) % 256);
    assert(0 <= (j + dj) % 256 < 256);
    lemma_step_wraps(i, di, p);
}

/// A stepped corner of a four-dimensional cell hashes like the origin of the
/// cell it lands in.
pub proof fn lemma_corner_4d_is_cell_origin(
    i: int,
    j: int,
    k: int,
    l: int,
    di: int,
    dj: int,
    dk: int,
    dl: int,
)
    requires
        0 <= di <= 1,
        0 <= dj <= 1,
        0 <= dk <= 1,
        0 <= dl <= 1,
    ensures
        corner_4d(i % 256, j % 256, k % 256, l % 256, di, dj, dk, dl) == corner_4d(
            (i + di) % 256,
            (j + dj) % 256,
            (k + dk) % 256,
            (l + dl) % 256,
            0,
            0,
            0,
            0,
        ),
{
    lemma_perm_range();
    assert(0 <= (l + dl) % 256 < 256);
    lemma_step_wraps(l, dl, 0);
    let pl = perm_at((l + dl) % 256);
    lemma_step_wraps(k, dk, pl);
    assert(0 <= (k + dk) % 256 + pl < 512);
    let pk = perm_at((k + dk) % 256 + pl);
    lemma_step_wraps(j, dj, pk);
    assert(0 <= (j + dj) % 256 + pk < 512);
    let pj = perm_at((j + dj) % 256 + pk);
    lemma_step_wraps(i, di, pj);
}

/// The ranks order the four offsets: an axis ranks below another exactly
/// when its offset is smaller, or equal and the axis comes first.
pub proof fn lemma_ranks_order_offsets(x: int, y: int, z: int, w: int)
    ensures
        ({
            let v = [x, y, z, w];
            let r = spec_ranks(x > y, x > z, x > w, y > z, y > w, z > w);
            forall|a: int, b: int|
                0 <= a < 4 && 0 <= b < 4 && a != b ==> (#[trigger] r[a] < #[trigger] r[b] <==> (v[a]
                    < v[b] || (v[a] == v[b] && a < b)))
        }),
{
    let v = [x, y, z, w];
    let r = spec_ranks(x > y, x > z, x > w, y > z, y > w, z > w);
    assert forall|a: int, b: int| 0 <= a < 4 && 0 <= b < 4 && a != b implies (#[trigger] r[a]
        < #[trigger] r[b] <==> (v[a] < v[b] || (v[a] == v[b] && a < b))) by {
        assert(a == 0 || a == 1 || a == 2 || a == 3);
        assert(b == 0 || b == 1 || b == 2 || b == 3);
    }
}

} // verus!
