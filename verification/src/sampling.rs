//! The order in which a noise grid is sampled one vector of lanes at a time.
//!
//! A grid is walked row by row along the x axis. Each row is covered by a
//! number of full vectors of `width` lanes, followed, when the row length is
//! not a multiple of the width, by one partial vector of which only the first
//! lanes are kept. A [`Batch`] records where the lanes of one vector land in
//! the flat output and which grid cell its first lane samples.
use vstd::prelude::*;

use crate::noise_dim::NoiseDim;

verus! {

/// One vector of samples: the lanes `0..count` are written to the output
/// cells `offset..offset + count`; lane `l` samples the cell whose x index is
/// `x + l` in the row `(y, z, w)`.
#[derive(Debug, Copy, Clone, PartialEq, Eq)]
pub struct Batch {
    pub offset: usize,
    pub count: usize,
    pub x: usize,
    pub y: usize,
    pub z: usize,
    pub w: usize,
}

/// One batch for a partial vector, or none.
pub open spec fn tail_batches(tail: int) -> int {
    if tail > 0 {
        1
    } else {
        0
    }
}

/// The `j`-th batch of a row that starts at output cell `base`, made of
/// `full` full vectors of `width` lanes followed by `tail` single lanes.
pub open spec fn spec_batch(
    width: int,
    full: int,
    tail: int,
    base: int,
    j: int,
    y: int,
    z: int,
    w: int,
) -> Batch {
    Batch {
        offset: (base + j * width) as usize,
        count: (if j < full {
            width
        } else {
            tail
        }) as usize,
        x: (j * width) as usize,
        y: y as usize,
        z: z as usize,
        w: w as usize,
    }
}

/// All batches of one row.
pub open spec fn row_seq(
    width: int,
    full: int,
    tail: int,
    base: int,
    y: int,
    z: int,
    w: int,
) -> Seq<Batch> {
    Seq::new(
        (full + tail_batches(tail)) as nat,
        |j: int| spec_batch(width, full, tail, base, j, y, z, w),
    )
}

/// The batches of the first `rows` rows of a plane; each row writes
/// `row_len` cells.
pub open spec fn plane_seq(
    width: int,
    full: int,
    tail: int,
    row_len: int,
    base: int,
    rows: nat,
    z: int,
    w: int,
) -> Seq<Batch>
    decreases rows,
{
    if rows == 0 {
        Seq::empty()
    } else {
        plane_seq(width, full, tail, row_len, base, (rows - 1) as nat, z, w) + row_seq(
            width,
            full,
            tail,
            base + (rows - 1) * row_len,
            rows - 1,
            z,
            w,
        )
    }
}

/// The batches of the first `planes` planes of a volume of `rows` rows each.
pub open spec fn volume_seq(
    width: int,
    full: int,
    tail: int,
    row_len: int,
    base: int,
    rows: nat,
    planes: nat,
    w: int,
) -> Seq<Batch>
    decreases planes,
{
    if planes == 0 {
        Seq::empty()
    } else {
        volume_seq(width, full, tail, row_len, base, rows, (planes - 1) as nat, w) + plane_seq(
            width,
            full,
            tail,
            row_len,
            base + (planes - 1) * (rows * row_len),
            rows,
            planes - 1,
            w,
        )
    }
}

/// The batches of the first `volumes` volumes of `planes` planes each.
pub open spec fn hyper_seq(
    width: int,
    full: int,
    tail: int,
    row_len: int,
    base: int,
    rows: nat,
    planes: nat,
    volumes: nat,
) -> Seq<Batch>
    decreases volumes,
{
    if volumes == 0 {
        Seq::empty()
    } else {
        hyper_seq(width, full, tail, row_len, base, rows, planes, (volumes - 1) as nat)
            + volume_seq(
            width,
            full,
            tail,
            row_len,
            base + (volumes - 1) * (planes * (rows * row_len)),
            rows,
            planes,
            volumes - 1,
        )
    }
}

/// Sampling order of a one-dimensional grid: a single row along x.
pub open spec fn spec_plan_1d(dim: NoiseDim, width: int) -> Seq<Batch> {
    let x = dim.spec_x() as int;
    row_seq(width, x / width, x % width, 0, 0, 0, 0)
}

/// Sampling order of a two-dimensional grid: the rows `y = 0, 1, ...`.
pub open spec fn spec_plan_2d(dim: NoiseDim, width: int) -> Seq<Batch> {
    let x = dim.spec_x() as int;
    plane_seq(width, x / width, x % width, x, 0, dim.spec_y() as nat, 0, 0)
}

/// Sampling order of a three-dimensional grid: planes along z, rows along y.
pub open spec fn spec_plan_3d(dim: NoiseDim, width: int) -> Seq<Batch> {
    let x = dim.spec_x() as int;
    volume_seq(width, x / width, x % width, x, 0, dim.spec_y() as nat, dim.spec_z() as nat, 0)
}

/// Number of full vectors per row in the four-dimensional walk. The walk
/// counts them from the w extent, not from the x extent.
pub open spec fn full_4d(dim: NoiseDim, width: int) -> int {
    (dim.spec_w() as int) / width
}

/// Number of cells written per row in the four-dimensional walk.
pub open spec fn row_len_4d(dim: NoiseDim, width: int) -> int {
    full_4d(dim, width) * width + (dim.spec_x() as int) % width
}

/// Number of cells written by the whole four-dimensional walk.
pub open spec fn total_4d(dim: NoiseDim, width: int) -> int {
    (dim.spec_w() as int) * ((dim.spec_z() as int) * ((dim.spec_y() as int) * row_len_4d(
        dim,
        width,
    )))
}

/// Sampling order of a four-dimensional grid: volumes along w, planes along
/// z, rows along y.
pub open spec fn spec_plan_4d(dim: NoiseDim, width: int) -> Seq<Batch> {
    hyper_seq(
        width,
        full_4d(dim, width),
        (dim.spec_x() as int) % width,
        row_len_4d(dim, width),
        0,
        dim.spec_y() as nat,
        dim.spec_z() as nat,
        dim.spec_w() as nat,
    )
}

/// The batches cover the output cells `start..end`, each one starting where
/// the previous one ended.
pub open spec fn tiles(s: Seq<Batch>, start: int, end: int) -> bool {
    &&& s.len() == 0 ==> start == end
    &&& s.len() > 0 ==> {
        &&& s[0].offset == start
        &&& s[s.len() - 1].offset + s[s.len() - 1].count == end
    }
    &&& forall|k: int|
        0 <= k < s.len() - 1 ==> #[trigger] s[k].offset + s[k].count == s[k + 1].offset
}

/// Every batch keeps at least one lane and at most a whole vector.
pub open spec fn well_sized(s: Seq<Batch>, width: int) -> bool {
    forall|k: int| 0 <= k < s.len() ==> 0 < #[trigger] s[k].count <= width
}

proof fn lemma_tiles_concat(a: Seq<Batch>, b: Seq<Batch>, start: int, mid: int, end: int)
    requires
        tiles(a, start, mid),
        tiles(b, mid, end),
    ensures
        tiles(a + b, start, end),
{
    let s = a + b;
    if a.len() == 0 {
        assert(s =~= b);
    } else if b.len() == 0 {
        assert(s =~= a);
    } else {
        assert forall|k: int| 0 <= k < s.len() - 1 implies #[trigger] s[k].offset + s[k].count
            == s[k + 1].offset by {
            if k < a.len() - 1 {
                assert(s[k] == a[k] && s[k + 1] == a[k + 1]);
            } else if k == a.len() - 1 {
                assert(s[k] == a[k] && s[k + 1] == b[0]);
            } else {
                let i = k - a.len();
                assert(s[k] == b[i] && s[k + 1] == b[i + 1]);
            }
        }
    }
}

proof fn lemma_well_sized_concat(a: Seq<Batch>, b: Seq<Batch>, width: int)
    requires
        well_sized(a, width),
        well_sized(b, width),
    ensures
        well_sized(a + b, width),
{
    let s = a + b;
    assert forall|k: int| 0 <= k < s.len() implies 0 < #[trigger] s[k].count <= width by {
        if k < a.len() {
            assert(s[k] == a[k]);
        } else {
            assert(s[k] == b[k - a.len()]);
        }
    }
}

proof fn lemma_row(width: int, full: int, tail: int, base: int, y: int, z: int, w: int)
    requires
        width > 0,
        full >= 0,
        0 <= tail < width,
        base >= 0,
        base + full * width + tail <= usize::MAX,
    ensures
        tiles(row_seq(width, full, tail, base, y, z, w), base, base + full * width + tail),
        well_sized(row_seq(width, full, tail, base, y, z, w), width),
{
    let s = row_seq(width, full, tail, base, y, z, w);
    assert forall|j: int| 0 <= j <= full implies #[trigger] (j * width) <= full * width by {
        assert(j * width <= full * width) by (nonlinear_arith)
            requires
                0 <= j <= full,
                width > 0,
        ;
    }
    assert forall|k: int| 0 <= k < s.len() - 1 implies #[trigger] s[k].offset + s[k].count
        == s[k + 1].offset by {
        assert((k + 1) * width == k * width + width) by (nonlinear_arith);
        assert((k + 1) * width <= full * width);
        assert(k * width >= 0) by (nonlinear_arith)
            requires
                k >= 0,
                width > 0,
        ;
    }
    if s.len() > 0 {
        let last = s.len() - 1;
        if tail > 0 {
            assert(s[last].offset == base + full * width);
        } else {
            assert((full - 1) * width + width == full * width) by (nonlinear_arith);
            assert((full - 1) * width <= full * width);
            assert((full - 1) * width >= 0) by (nonlinear_arith)
                requires
                    full >= 1,
                    width > 0,
            ;
        }
    } else {
        assert(full == 0);
        assert(full * width == 0);
    }
}

proof fn lemma_plane(
    width: int,
    full: int,
    tail: int,
    row_len: int,
    base: int,
    rows: nat,
    z: int,
    w: int,
)
    requires
        width > 0,
        full >= 0,
        0 <= tail < width,
        row_len == full * width + tail,
        base >= 0,
        base + rows * row_len <= usize::MAX,
    ensures
        tiles(plane_seq(width, full, tail, row_len, base, rows, z, w), base, base + rows * row_len),
        well_sized(plane_seq(width, full, tail, row_len, base, rows, z, w), width),
    decreases rows,
{
    if rows == 0 {
        assert(rows * row_len == 0) by (nonlinear_arith)
            requires
                rows == 0,
        ;
    } else {
        let r = (rows - 1) as nat;
        assert(r * row_len + row_len == rows * row_len) by (nonlinear_arith)
            requires
                r == rows - 1,
        ;
        assert(r * row_len >= 0) by (nonlinear_arith)
            requires
                row_len >= 0,
        ;
        assert(full * width >= 0) by (nonlinear_arith)
            requires
                full >= 0,
                width > 0,
        ;
        lemma_plane(width, full, tail, row_len, base, r, z, w);
        lemma_row(width, full, tail, base + r * row_len, r as int, z, w);
        lemma_tiles_concat(
            plane_seq(width, full, tail, row_len, base, r, z, w),
            row_seq(width, full, tail, base + r * row_len, r as int, z, w),
            base,
            base + r * row_len,
            base + rows * row_len,
        );
        lemma_well_sized_concat(
            plane_seq(width, full, tail, row_len, base, r, z, w),
            row_seq(width, full, tail, base + r * row_len, r as int, z, w),
            width,
        );
    }
}

proof fn lemma_volume(
    width: int,
    full: int,
    tail: int,
    row_len: int,
    base: int,
    rows: nat,
    planes: nat,
    w: int,
)
    requires
        width > 0,
        full >= 0,
        0 <= tail < width,
        row_len == full * width + tail,
        base >= 0,
        base + planes * (rows * row_len) <= usize::MAX,
    ensures
        tiles(
            volume_seq(width, full, tail, row_len, base, rows, planes, w),
            base,
            base + planes * (rows * row_len),
        ),
        well_sized(volume_seq(width, full, tail, row_len, base, rows, planes, w), width),
    decreases planes,
{
    let p = rows * row_len;
    if planes == 0 {
        assert(planes * p == 0) by (nonlinear_arith)
            requires
                planes == 0,
        ;
    } else {
        let q = (planes - 1) as nat;
        assert(full * width >= 0) by (nonlinear_arith)
            requires
                full >= 0,
                width > 0,
        ;
        assert(p >= 0) by (nonlinear_arith)
            requires
                row_len >= 0,
                p == rows * row_len,
        ;
        assert(q * p + p == planes * p) by (nonlinear_arith)
            requires
                q == planes - 1,
        ;
        assert(q * p >= 0) by (nonlinear_arith)
            requires
                p >= 0,
        ;
        lemma_volume(width, full, tail, row_len, base, rows, q, w);
        lemma_plane(width, full, tail, row_len, base + q * p, rows, q as int, w);
        lemma_tiles_concat(
            volume_seq(width, full, tail, row_len, base, rows, q, w),
            plane_seq(width, full, tail, row_len, base + q * p, rows, q as int, w),
            base,
            base + q * p,
            base + planes * p,
        );
        lemma_well_sized_concat(
            volume_seq(width, full, tail, row_len, base, rows, q, w),
            plane_seq(width, full, tail, row_len, base + q * p, rows, q as int, w),
            width,
        );
    }
}

proof fn lemma_hyper(
    width: int,
    full: int,
    tail: int,
    row_len: int,
    base: int,
    rows: nat,
    planes: nat,
    volumes: nat,
)
    requires
        width > 0,
        full >= 0,
        0 <= tail < width,
        row_len == full * width + tail,
        base >= 0,
        base + volumes * (planes * (rows * row_len)) <= usize::MAX,
    ensures
        tiles(
            hyper_seq(width, full, tail, row_len, base, rows, planes, volumes),
            base,
            base + volumes * (planes * (rows * row_len)),
        ),
        well_sized(hyper_seq(width, full, tail, row_len, base, rows, planes, volumes), width),
    decreases volumes,
{
    let v = planes * (rows * row_len);
    if volumes == 0 {
        assert(volumes * v == 0) by (nonlinear_arith)
            requires
                volumes == 0,
        ;
    } else {
        let q = (volumes - 1) as nat;
        assert(full * width >= 0) by (nonlinear_arith)
            requires
                full >= 0,
                width > 0,
        ;
        assert(v >= 0) by (nonlinear_arith)
            requires
                row_len >= 0,
                v == planes * (rows * row_len),
        ;
        assert(q * v + v == volumes * v) by (nonlinear_arith)
            requires
                q == volumes - 1,
        ;
        assert(q * v >= 0) by (nonlinear_arith)
            requires
                v >= 0,
        ;
        lemma_hyper(width, full, tail, row_len, base, rows, planes, q);
        lemma_volume(width, full, tail, row_len, base + q * v, rows, planes, q as int);
        lemma_tiles_concat(
            hyper_seq(width, full, tail, row_len, base, rows, planes, q),
            volume_seq(width, full, tail, row_len, base + q * v, rows, planes, q as int),
            base,
            base + q * v,
            base + volumes * v,
        );
        lemma_well_sized_concat(
            hyper_seq(width, full, tail, row_len, base, rows, planes, q),
            volume_seq(width, full, tail, row_len, base + q * v, rows, planes, q as int),
            width,
        );
    }
}

/// The batch stays inside its row of `row_len` cells, its row lies in a grid
/// of `rows` rows, `planes` planes and `volumes` volumes, and its first lane
/// is written to the flat index of the cell it samples.
pub open spec fn placed(b: Batch, row_len: int, rows: int, planes: int, volumes: int) -> bool {
    &&& b.x + b.count <= row_len
    &&& b.y < rows
    &&& b.z < planes
    &&& b.w < volumes
    &&& b.offset == b.x + row_len * (b.y + rows * (b.z + planes * b.w))
}

/// Every batch of the sequence is placed in the given grid.
pub open spec fn all_placed(s: Seq<Batch>, row_len: int, rows: int, planes: int, volumes: int) -> bool {
    forall|k: int| 0 <= k < s.len() ==> placed(#[trigger] s[k], row_len, rows, planes, volumes)
}

proof fn lemma_placed_concat(
    a: Seq<Batch>,
    b: Seq<Batch>,
    row_len: int,
    rows: int,
    planes: int,
    volumes: int,
)
    requires
        all_placed(a, row_len, rows, planes, volumes),
        all_placed(b, row_len, rows, planes, volumes),
    ensures
        all_placed(a + b, row_len, rows, planes, volumes),
{
    let s = a + b;
    assert forall|k: int| 0 <= k < s.len() implies placed(
        #[trigger] s[k],
        row_len,
        rows,
        planes,
        volumes,
    ) by {
        if k < a.len() {
            assert(s[k] == a[k]);
        } else {
            assert(s[k] == b[k - a.len()]);
        }
    }
}

proof fn lemma_row_placed(
    width: int,
    full: int,
    tail: int,
    row_len: int,
    base: int,
    y: int,
    z: int,
    w: int,
    rows: int,
    planes: int,
    volumes: int,
)
    requires
        width > 0,
        full >= 0,
        0 <= tail < width,
        row_len == full * width + tail,
        0 <= y < rows <= usize::MAX,
        0 <= z < planes <= usize::MAX,
        0 <= w < volumes <= usize::MAX,
        base == row_len * (y + rows * (z + planes * w)),
        base >= 0,
        base + row_len <= usize::MAX,
    ensures
        all_placed(row_seq(width, full, tail, base, y, z, w), row_len, rows, planes, volumes),
{
    let s = row_seq(width, full, tail, base, y, z, w);
    assert forall|k: int| 0 <= k < s.len() implies placed(
        #[trigger] s[k],
        row_len,
        rows,
        planes,
        volumes,
    ) by {
        assert(0 <= k * width <= full * width) by (nonlinear_arith)
            requires
                0 <= k <= full,
                width > 0,
        ;
        if k < full {
            assert(k * width + width <= full * width) by (nonlinear_arith)
                requires
                    0 <= k < full,
                    width > 0,
            ;
        }
    }
}

proof fn lemma_plane_placed(
    width: int,
    full: int,
    tail: int,
    row_len: int,
    base: int,
    n: nat,
    z: int,
    w: int,
    rows: int,
    planes: int,
    volumes: int,
)
    requires
        width > 0,
        full >= 0,
        0 <= tail < width,
        row_len == full * width + tail,
        n <= rows <= usize::MAX,
        0 <= z < planes <= usize::MAX,
        0 <= w < volumes <= usize::MAX,
        base == row_len * (rows * (z + planes * w)),
        base >= 0,
        base + n * row_len <= usize::MAX,
    ensures
        all_placed(plane_seq(width, full, tail, row_len, base, n, z, w), row_len, rows, planes, volumes),
    decreases n,
{
    if n > 0 {
        let r = (n - 1) as nat;
        assert(full * width >= 0) by (nonlinear_arith)
            requires
                full >= 0,
                width > 0,
        ;
        assert(r * row_len + row_len == n * row_len && r * row_len >= 0) by (nonlinear_arith)
            requires
                r == n - 1,
                row_len >= 0,
        ;
        assert(base + r * row_len == row_len * (r + rows * (z + planes * w))) by (nonlinear_arith)
            requires
                base == row_len * (rows * (z + planes * w)),
        ;
        lemma_plane_placed(width, full, tail, row_len, base, r, z, w, rows, planes, volumes);
        lemma_row_placed(
            width,
            full,
            tail,
            row_len,
            base + r * row_len,
            r as int,
            z,
            w,
            rows,
            planes,
            volumes,
        );
        lemma_placed_concat(
            plane_seq(width, full, tail, row_len, base, r, z, w),
            row_seq(width, full, tail, base + r * row_len, r as int, z, w),
            row_len,
            rows,
            planes,
            volumes,
        );
    }
}

proof fn lemma_volume_placed(
    width: int,
    full: int,
    tail: int,
    row_len: int,
    base: int,
    rows: nat,
    n: nat,
    w: int,
    planes: int,
    volumes: int,
)
    requires
        width > 0,
        full >= 0,
        0 <= tail < width,
        row_len == full * width + tail,
        rows <= usize::MAX,
        n <= planes <= usize::MAX,
        0 <= w < volumes <= usize::MAX,
        base == row_len * (rows * (planes * w)),
        base >= 0,
        base + n * (rows * row_len) <= usize::MAX,
    ensures
        all_placed(
            volume_seq(width, full, tail, row_len, base, rows, n, w),
            row_len,
            rows as int,
            planes,
            volumes,
        ),
    decreases n,
{
    if n > 0 {
        let q = (n - 1) as nat;
        let p = rows * row_len;
        assert(full * width >= 0) by (nonlinear_arith)
            requires
                full >= 0,
                width > 0,
        ;
        assert(p >= 0 && q * p >= 0 && q * p + p == n * p) by (nonlinear_arith)
            requires
                row_len >= 0,
                p == rows * row_len,
                q == n - 1,
        ;
        assert(base + q * p == row_len * (rows * (q + planes * w))) by (nonlinear_arith)
            requires
                base == row_len * (rows * (planes * w)),
                p == rows * row_len,
        ;
        assert(base + q * p + rows * row_len <= usize::MAX);
        lemma_volume_placed(width, full, tail, row_len, base, rows, q, w, planes, volumes);
        lemma_plane_placed(
            width,
            full,
            tail,
            row_len,
            base + q * p,
            rows,
            q as int,
            w,
            rows as int,
            planes,
            volumes,
        );
        lemma_placed_concat(
            volume_seq(width, full, tail, row_len, base, rows, q, w),
            plane_seq(width, full, tail, row_len, base + q * p, rows, q as int, w),
            row_len,
            rows as int,
            planes,
            volumes,
        );
    }
}

proof fn lemma_hyper_placed(
    width: int,
    full: int,
    tail: int,
    row_len: int,
    rows: nat,
    planes: nat,
    n: nat,
    volumes: int,
)
    requires
        width > 0,
        full >= 0,
        0 <= tail < width,
        row_len == full * width + tail,
        rows <= usize::MAX,
        planes <= usize::MAX,
        n <= volumes <= usize::MAX,
        n * (planes * (rows * row_len)) <= usize::MAX,
    ensures
        all_placed(
            hyper_seq(width, full, tail, row_len, 0, rows, planes, n),
            row_len,
            rows as int,
            planes as int,
            volumes,
        ),
    decreases n,
{
    if n > 0 {
        let q = (n - 1) as nat;
        let v = planes * (rows * row_len);
        assert(full * width >= 0) by (nonlinear_arith)
            requires
                full >= 0,
                width > 0,
        ;
        assert(v >= 0 && q * v >= 0 && q * v + v == n * v) by (nonlinear_arith)
            requires
                row_len >= 0,
                v == planes * (rows * row_len),
                q == n - 1,
        ;
        assert(q * v == row_len * (rows * (planes * q))) by (nonlinear_arith)
            requires
                v == planes * (rows * row_len),
        ;
        assert(q * v + planes * (rows * row_len) <= usize::MAX);
        lemma_hyper_placed(width, full, tail, row_len, rows, planes, q, volumes);
        lemma_volume_placed(
            width,
            full,
            tail,
            row_len,
            q * v,
            rows,
            planes,
            q as int,
            planes as int,
            volumes,
        );
        assert(0 + q * v == q * v);
        lemma_placed_concat(
            hyper_seq(width, full, tail, row_len, 0, rows, planes, q),
            volume_seq(width, full, tail, row_len, q * v, rows, planes, q as int),
            row_len,
            rows as int,
            planes as int,
            volumes,
        );
    }
}

proof fn lemma_div_mod(x: int, width: int)
    requires
        x >= 0,
        width > 0,
    ensures
        (x / width) * width + x % width == x,
        x / width >= 0,
        0 <= x % width < width,
{
    vstd::arithmetic::div_mod::lemma_fundamental_div_mod(x, width);
    assert(width * (x / width) == (x / width) * width) by (nonlinear_arith);
}

/// The one-dimensional walk writes every cell of the x row exactly once, in
/// order, no vector is empty or wider than `width` lanes, and each lane
/// writes the cell whose x index it samples.
pub proof fn lemma_plan_1d_covers_row(dim: NoiseDim, width: int)
    requires
        width > 0,
        dim.size_fits(),
    ensures
        tiles(spec_plan_1d(dim, width), 0, dim.spec_x() as int),
        well_sized(spec_plan_1d(dim, width), width),
        all_placed(spec_plan_1d(dim, width), dim.spec_x() as int, 1, 1, 1),
{
    let x = dim.spec_x() as int;
    lemma_div_mod(x, width);
    lemma_row(width, x / width, x % width, 0, 0, 0, 0);
    assert(x * (0 + 1 * (0 + 1 * 0)) == 0) by (nonlinear_arith);
    lemma_row_placed(width, x / width, x % width, x, 0, 0, 0, 0, 1, 1, 1);
}

/// The two-dimensional walk writes the cells `0..x * y` exactly once, in
/// order, no vector is empty or wider than `width` lanes, and each lane
/// writes the flat index `x + x_extent * y` of the cell it samples.
pub proof fn lemma_plan_2d_covers_plane(dim: NoiseDim, width: int)
    requires
        width > 0,
        dim.size_fits(),
    ensures
        tiles(spec_plan_2d(dim, width), 0, dim.spec_x() * dim.spec_y()),
        well_sized(spec_plan_2d(dim, width), width),
        all_placed(spec_plan_2d(dim, width), dim.spec_x() as int, dim.spec_y() as int, 1, 1),
{
    let x = dim.spec_x() as int;
    let y = dim.spec_y() as int;
    lemma_div_mod(x, width);
    assert(y * x == x * y) by (nonlinear_arith);
    lemma_plane(width, x / width, x % width, x, 0, y as nat, 0, 0);
    assert(x * (y * (0 + 1 * 0)) == 0) by (nonlinear_arith);
    lemma_plane_placed(width, x / width, x % width, x, 0, y as nat, 0, 0, y, 1, 1);
}

/// The three-dimensional walk writes the cells `0..x * y * z` exactly once,
/// in order, no vector is empty or wider than `width` lanes, and each lane
/// writes the flat index `x + x_extent * (y + y_extent * z)` of the cell it
/// samples.
pub proof fn lemma_plan_3d_covers_volume(dim: NoiseDim, width: int)
    requires
        width > 0,
        dim.size_fits(),
    ensures
        tiles(spec_plan_3d(dim, width), 0, dim.spec_x() * dim.spec_y() * dim.spec_z()),
        well_sized(spec_plan_3d(dim, width), width),
        all_placed(
            spec_plan_3d(dim, width),
            dim.spec_x() as int,
            dim.spec_y() as int,
            dim.spec_z() as int,
            1,
        ),
{
    let x = dim.spec_x() as int;
    let y = dim.spec_y() as int;
    let z = dim.spec_z() as int;
    lemma_div_mod(x, width);
    assert(z * (y * x) == x * y * z) by (nonlinear_arith);
    lemma_volume(width, x / width, x % width, x, 0, y as nat, z as nat, 0);
    assert(x * (y * (z * 0)) == 0) by (nonlinear_arith);
    lemma_volume_placed(width, x / width, x % width, x, 0, y as nat, z as nat, 0, z, 1);
}

/// The four-dimensional walk writes the cells `0..total_4d` exactly once, in
/// order, with no empty or over-wide vector. When the w and x extents hold
/// the same number of whole vectors, that range is exactly the grid.
pub proof fn lemma_plan_4d_covers(dim: NoiseDim, width: int)
    requires
        width > 0,
        total_4d(dim, width) <= usize::MAX,
    ensures
        tiles(spec_plan_4d(dim, width), 0, total_4d(dim, width)),
        well_sized(spec_plan_4d(dim, width), width),
        all_placed(
            spec_plan_4d(dim, width),
            row_len_4d(dim, width),
            dim.spec_y() as int,
            dim.spec_z() as int,
            dim.spec_w() as int,
        ),
        (dim.spec_w() as int) / width == (dim.spec_x() as int) / width ==> total_4d(dim, width)
            == dim.spec_size(),
{
    let x = dim.spec_x() as int;
    let wx = dim.spec_w() as int;
    lemma_div_mod(x, width);
    lemma_div_mod(wx, width);
    assert(full_4d(dim, width) * width >= 0) by (nonlinear_arith)
        requires
            full_4d(dim, width) >= 0,
            width > 0,
    ;
    lemma_hyper(
        width,
        full_4d(dim, width),
        x % width,
        row_len_4d(dim, width),
        0,
        dim.spec_y() as nat,
        dim.spec_z() as nat,
        dim.spec_w() as nat,
    );
    lemma_hyper_placed(
        width,
        full_4d(dim, width),
        x % width,
        row_len_4d(dim, width),
        dim.spec_y() as nat,
        dim.spec_z() as nat,
        dim.spec_w() as nat,
        dim.spec_w() as int,
    );
    if wx / width == x / width {
        assert(row_len_4d(dim, width) == x);
        let y = dim.spec_y() as int;
        let z = dim.spec_z() as int;
        assert(wx * (z * (y * x)) == x * y * z * wx) by (nonlinear_arith);
    }
}

/// Appends the batches of one row that starts at output cell `base`.
fn push_row(
    plan: &mut Vec<Batch>,
    width: usize,
    full: usize,
    tail: usize,
    base: usize,
    y: usize,
    z: usize,
    w: usize,
)
    requires
        width > 0,
        tail < width,
        base + full * width + tail <= usize::MAX,
    ensures
        final(plan)@ == old(plan)@ + row_seq(
            width as int,
            full as int,
            tail as int,
            base as int,
            y as int,
            z as int,
            w as int,
        ),
{
    let ghost start = plan@;
    let ghost row = row_seq(
        width as int,
        full as int,
        tail as int,
        base as int,
        y as int,
        z as int,
        w as int,
    );
    let mut j: usize = 0;
    let mut x: usize = 0;
    while j < full
        invariant
            width > 0,
            tail < width,
            base + full * width + tail <= usize::MAX,
            j <= full,
            x == j * width,
            plan@ == start + row.subrange(0, j as int),
            row == row_seq(
                width as int,
                full as int,
                tail as int,
                base as int,
                y as int,
                z as int,
                w as int,
            ),
        decreases full - j,
    {
        assert((j + 1) * width <= full * width) by (nonlinear_arith)
            requires
                j < full,
                width > 0,
        ;
        assert((j + 1) * width == j * width + width) by (nonlinear_arith);
        plan.push(Batch { offset: base + x, count: width, x, y, z, w });
        assert(row[j as int] == spec_batch(
            width as int,
            full as int,
            tail as int,
            base as int,
            j as int,
            y as int,
            z as int,
            w as int,
        ));
        assert(row.subrange(0, j + 1) =~= row.subrange(0, j as int).push(row[j as int]));
        x = x + width;
        j = j + 1;
    }
    if tail > 0 {
        plan.push(Batch { offset: base + x, count: tail, x, y, z, w });
        assert(row.subrange(0, j + 1) =~= row.subrange(0, j as int).push(row[j as int]));
        assert(row.subrange(0, j + 1) =~= row);
    } else {
        assert(row.subrange(0, j as int) =~= row);
    }
}

/// The sampling order of the one-dimensional walk for vectors of `width`
/// lanes: the full vectors of the x row, then the partial one, if any.
pub fn plan_1d(dim: NoiseDim, width: usize) -> (plan: Vec<Batch>)
    requires
        width > 0,
        dim.size_fits(),
    ensures
        plan@ == spec_plan_1d(dim, width as int),
{
    let x = dim.x_extent();
    proof {
        lemma_div_mod(x as int, width as int);
    }
    let mut plan: Vec<Batch> = Vec::new();
    push_row(&mut plan, width, x / width, x % width, 0, 0, 0, 0);
    assert(plan@ =~= spec_plan_1d(dim, width as int));
    plan
}

/// The sampling order of the two-dimensional walk: one row per y index.
pub fn plan_2d(dim: NoiseDim, width: usize) -> (plan: Vec<Batch>)
    requires
        width > 0,
        dim.size_fits(),
    ensures
        plan@ == spec_plan_2d(dim, width as int),
{
    let x = dim.x_extent();
    let rows = dim.y_extent();
    proof {
        lemma_div_mod(x as int, width as int);
        assert(rows * x == x * rows) by (nonlinear_arith);
    }
    let full = x / width;
    let tail = x % width;
    let mut plan: Vec<Batch> = Vec::new();
    let mut base: usize = 0;
    let mut yi: usize = 0;
    while yi < rows
        invariant
            width > 0,
            full * width + tail == x,
            tail < width,
            rows * x <= usize::MAX,
            yi <= rows,
            base == yi * x,
            full == x / width,
            tail == x % width,
            x == dim.spec_x(),
            rows == dim.spec_y(),
            plan@ == plane_seq(
                width as int,
                full as int,
                tail as int,
                x as int,
                0,
                yi as nat,
                0,
                0,
            ),
        decreases rows - yi,
    {
        assert(yi * x + x <= rows * x) by (nonlinear_arith)
            requires
                yi < rows,
                x >= 0,
        ;
        assert((yi + 1) * x == yi * x + x) by (nonlinear_arith);
        push_row(&mut plan, width, full, tail, base, yi, 0, 0);
        base = base + x;
        yi = yi + 1;
    }
    plan
}

/// The sampling order of the three-dimensional walk: for each z index, one
/// row per y index.
pub fn plan_3d(dim: NoiseDim, width: usize) -> (plan: Vec<Batch>)
    requires
        width > 0,
        dim.size_fits(),
    ensures
        plan@ == spec_plan_3d(dim, width as int),
{
    let x = dim.x_extent();
    let rows = dim.y_extent();
    let planes = dim.z_extent();
    proof {
        lemma_div_mod(x as int, width as int);
        assert(planes * (rows * x) == x * rows * planes) by (nonlinear_arith);
    }
    let full = x / width;
    let tail = x % width;
    let ghost plane_len = rows * x;
    let mut plan: Vec<Batch> = Vec::new();
    let mut base: usize = 0;
    let mut zi: usize = 0;
    while zi < planes
        invariant
            width > 0,
            full * width + tail == x,
            tail < width,
            plane_len == rows * x,
            planes * plane_len <= usize::MAX,
            zi <= planes,
            base == zi * plane_len,
            full == x / width,
            tail == x % width,
            x == dim.spec_x(),
            rows == dim.spec_y(),
            planes == dim.spec_z(),
            plan@ == volume_seq(
                width as int,
                full as int,
                tail as int,
                x as int,
                0,
                rows as nat,
                zi as nat,
                0,
            ),
        decreases planes - zi,
    {
        assert(zi * plane_len + plane_len <= planes * plane_len) by (nonlinear_arith)
            requires
                zi < planes,
                plane_len >= 0,
        ;
        assert((zi + 1) * plane_len == zi * plane_len + plane_len) by (nonlinear_arith);
        assert(plane_len >= 0) by (nonlinear_arith)
            requires
                plane_len == rows * x,
        ;
        let ghost before = plan@;
        let plane_base = base;
        let mut yi: usize = 0;
        while yi < rows
            invariant
                width > 0,
                full * width + tail == x,
                tail < width,
                plane_len == rows * x,
                plane_base + plane_len <= usize::MAX,
                yi <= rows,
                base == plane_base + yi * x,
                plan@ == before + plane_seq(
                    width as int,
                    full as int,
                    tail as int,
                    x as int,
                    plane_base as int,
                    yi as nat,
                    zi as int,
                    0,
                ),
            decreases rows - yi,
        {
            assert(yi * x + x <= rows * x) by (nonlinear_arith)
                requires
                    yi < rows,
                    x >= 0,
            ;
            assert((yi + 1) * x == yi * x + x) by (nonlinear_arith);
            push_row(&mut plan, width, full, tail, base, yi, zi, 0);
            proof {
                let p = plane_seq(
                    width as int,
                    full as int,
                    tail as int,
                    x as int,
                    plane_base as int,
                    (yi + 1) as nat,
                    zi as int,
                    0,
                );
                assert(p == plane_seq(
                    width as int,
                    full as int,
                    tail as int,
                    x as int,
                    plane_base as int,
                    yi as nat,
                    zi as int,
                    0,
                ) + row_seq(
                    width as int,
                    full as int,
                    tail as int,
                    plane_base + yi * x,
                    yi as int,
                    zi as int,
                    0,
                ));
                assert(plan@ =~= before + p);
            }
            base = base + x;
            yi = yi + 1;
        }
        assert(base == plane_base + plane_len);
        zi = zi + 1;
    }
    plan
}

/// The sampling order of the four-dimensional walk, or `None` when the
/// vector width is 0, the grid size overflows a machine word, or the cells
/// the walk writes cannot be counted in one.
pub fn checked_plan_4d(dim: NoiseDim, width: usize) -> (r: Option<Vec<Batch>>)
    ensures
        r is Some <==> (width > 0 && dim.size_fits() && row_len_4d(dim, width as int) <= usize::MAX
            && total_4d(dim, width as int) <= usize::MAX),
        r matches Some(p) ==> p@ == spec_plan_4d(dim, width as int),
{
    if width == 0 {
        return None;
    }
    if dim.checked_size().is_none() {
        return None;
    }
    let x = dim.x_extent();
    let y = dim.y_extent();
    let z = dim.z_extent();
    let w = dim.w_extent();
    proof {
        lemma_div_mod(w as int, width as int);
        lemma_div_mod(x as int, width as int);
        assert((w / width) * width <= w) by (nonlinear_arith)
            requires
                (w as int / width as int) * width + w as int % width as int == w,
                w as int % width as int >= 0,
        ;
    }
    let full = (w / width) * width;
    let row_len = match full.checked_add(x % width) {
        Some(v) => v,
        None => return None,
    };
    let ghost rl = row_len_4d(dim, width as int);
    assert(rl == row_len);
    if y == 0 || z == 0 || w == 0 {
        assert(total_4d(dim, width as int) == 0) by (nonlinear_arith)
            requires
                total_4d(dim, width as int) == w * (z * (y * rl)),
                y == 0 || z == 0 || w == 0,
        ;
        return Some(plan_4d(dim, width));
    }
    let a = match y.checked_mul(row_len) {
        Some(v) => v,
        None => {
            assert(w * (z * (y * rl)) > usize::MAX) by (nonlinear_arith)
                requires
                    y * rl > usize::MAX,
                    z >= 1,
                    w >= 1,
            ;
            return None;
        },
    };
    let b = match z.checked_mul(a) {
        Some(v) => v,
        None => {
            assert(w * (z * a) > usize::MAX) by (nonlinear_arith)
                requires
                    z * a > usize::MAX,
                    w >= 1,
            ;
            return None;
        },
    };
    match w.checked_mul(b) {
        Some(_) => Some(plan_4d(dim, width)),
        None => None,
    }
}

/// The sampling order of the four-dimensional walk: for each w index and z
/// index, one row per y index. Each row holds as many full vectors as the w
/// extent allows, followed by the partial vector that the x extent leaves.
pub fn plan_4d(dim: NoiseDim, width: usize) -> (plan: Vec<Batch>)
    requires
        width > 0,
        dim.size_fits(),
        row_len_4d(dim, width as int) <= usize::MAX,
        total_4d(dim, width as int) <= usize::MAX,
    ensures
        plan@ == spec_plan_4d(dim, width as int),
{
    let x = dim.x_extent();
    let rows = dim.y_extent();
    let planes = dim.z_extent();
    let volumes = dim.w_extent();
    proof {
        lemma_div_mod(x as int, width as int);
        lemma_div_mod(volumes as int, width as int);
    }
    let full = volumes / width;
    let tail = x % width;
    proof {
        assert(full * width <= volumes) by (nonlinear_arith)
            requires
                full * width + volumes % width == volumes,
                volumes % width >= 0,
        ;
    }
    let row_len = full * width + tail;
    let ghost plane_len = rows * row_len;
    let ghost volume_len = planes * plane_len;
    proof {
        assert(plane_len >= 0 && volume_len >= 0) by (nonlinear_arith)
            requires
                plane_len == rows * row_len,
                volume_len == planes * plane_len,
                row_len >= 0,
        ;
    }
    let mut plan: Vec<Batch> = Vec::new();
    let mut base: usize = 0;
    let mut wi: usize = 0;
    while wi < volumes
        invariant
            width > 0,
            full * width + tail == row_len,
            tail < width,
            plane_len == rows * row_len,
            volume_len == planes * plane_len,
            plane_len >= 0,
            volume_len >= 0,
            volumes * volume_len <= usize::MAX,
            wi <= volumes,
            base == wi * volume_len,
            full == volumes / width,
            tail == x % width,
            x == dim.spec_x(),
            rows == dim.spec_y(),
            planes == dim.spec_z(),
            volumes == dim.spec_w(),
            plan@ == hyper_seq(
                width as int,
                full as int,
                tail as int,
                row_len as int,
                0,
                rows as nat,
                planes as nat,
                wi as nat,
            ),
        decreases volumes - wi,
    {
        assert(wi * volume_len + volume_len <= volumes * volume_len) by (nonlinear_arith)
            requires
                wi < volumes,
                volume_len >= 0,
        ;
        assert((wi + 1) * volume_len == wi * volume_len + volume_len) by (nonlinear_arith);
        let ghost before_volume = plan@;
        let volume_base = base;
        let mut zi: usize = 0;
        while zi < planes
            invariant
                width > 0,
                full * width + tail == row_len,
                tail < width,
                plane_len == rows * row_len,
                volume_len == planes * plane_len,
                plane_len >= 0,
                volume_base + volume_len <= usize::MAX,
                zi <= planes,
                base == volume_base + zi * plane_len,
                plan@ == before_volume + volume_seq(
                    width as int,
                    full as int,
                    tail as int,
                    row_len as int,
                    volume_base as int,
                    rows as nat,
                    zi as nat,
                    wi as int,
                ),
            decreases planes - zi,
        {
            assert(zi * plane_len + plane_len <= planes * plane_len) by (nonlinear_arith)
                requires
                    zi < planes,
                    plane_len >= 0,
            ;
            assert((zi + 1) * plane_len == zi * plane_len + plane_len) by (nonlinear_arith);
            let ghost before_plane = plan@;
            let plane_base = base;
            let mut yi: usize = 0;
            while yi < rows
                invariant
                    width > 0,
                    full * width + tail == row_len,
                    tail < width,
                    plane_len == rows * row_len,
                    plane_base + plane_len <= usize::MAX,
                    yi <= rows,
                    base == plane_base + yi * row_len,
                    plan@ == before_plane + plane_seq(
                        width as int,
                        full as int,
                        tail as int,
                        row_len as int,
                        plane_base as int,
                        yi as nat,
                        zi as int,
                        wi as int,
                    ),
                decreases rows - yi,
            {
                assert(yi * row_len + row_len <= rows * row_len) by (nonlinear_arith)
                    requires
                        yi < rows,
                        row_len >= 0,
                ;
                assert((yi + 1) * row_len == yi * row_len + row_len) by (nonlinear_arith);
                push_row(&mut plan, width, full, tail, base, yi, zi, wi);
                assert(plan@ =~= before_plane + plane_seq(
                    width as int,
                    full as int,
                    tail as int,
                    row_len as int,
                    plane_base as int,
                    (yi + 1) as nat,
                    zi as int,
                    wi as int,
                ));
                base = base + row_len;
                yi = yi + 1;
            }
            assert(plan@ =~= before_volume + volume_seq(
                width as int,
                full as int,
                tail as int,
                row_len as int,
                volume_base as int,
                rows as nat,
                (zi + 1) as nat,
                wi as int,
            ));
            zi = zi + 1;
        }
        assert(plan@ =~= hyper_seq(
            width as int,
            full as int,
            tail as int,
            row_len as int,
            0,
            rows as nat,
            planes as nat,
            (wi + 1) as nat,
        ));
        wi = wi + 1;
    }
    plan
}

} // verus!
