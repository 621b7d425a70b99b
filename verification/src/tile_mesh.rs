//! The triangles of the meshes that draw a tile face and its highlight.
//!
//! The tile quad has four corners, top-left, top-right, bottom-left and
//! bottom-right. The highlight frame has the same four inner corners followed
//! by four outer ones, `bottom-left, top-left, bottom-right, top-right` in
//! both rings; its triangles fill the band between the rings.
use vstd::prelude::*;

verus! {

/// Every index names one of the `vertices` corners, the indices form whole
/// triangles, and no triangle repeats a corner.
pub open spec fn valid_triangles(indices: Seq<u16>, vertices: int) -> bool {
    &&& indices.len() % 3 == 0
    &&& forall|i: int| 0 <= i < indices.len() ==> (#[trigger] indices[i]) < vertices
    &&& forall|t: int|
        0 <= t < indices.len() / 3 ==> {
            &&& #[trigger] indices[3 * t] != indices[3 * t + 1]
            &&& indices[3 * t] != indices[3 * t + 2]
            &&& indices[3 * t + 1] != indices[3 * t + 2]
        }
}

/// The triangles of the tile quad.
pub open spec fn spec_tile_quad_indices() -> Seq<u16> {
    seq![0u16, 2, 1, 3, 1, 2]
}

/// The triangles of the highlight frame.
pub open spec fn spec_tile_highlight_indices() -> Seq<u16> {
    seq![0u16, 1, 5, 5, 4, 0, 1, 3, 7, 7, 5, 1, 3, 2, 6, 6, 7, 3, 2, 0, 4, 4, 6, 2]
}

/// The triangles of the tile quad.
pub fn tile_quad_indices() -> (r: Vec<u16>)
    ensures
        r@ == spec_tile_quad_indices(),
{
    let r = vec![0u16, 2, 1, 3, 1, 2];
    assert(r@ =~= spec_tile_quad_indices());
    r
}

/// The triangles of the highlight frame.
pub fn tile_highlight_indices() -> (r: Vec<u16>)
    ensures
        r@ == spec_tile_highlight_indices(),
{
    let r = vec![0u16, 1, 5, 5, 4, 0, 1, 3, 7, 7, 5, 1, 3, 2, 6, 6, 7, 3, 2, 0, 4, 4, 6, 2];
    assert(r@ =~= spec_tile_highlight_indices());
    r
}

/// Both meshes are made of whole, non-degenerate triangles over their
/// corners: four for the quad, eight for the frame.
pub proof fn lemma_tile_meshes_valid()
    ensures
        valid_triangles(spec_tile_quad_indices(), 4),
        valid_triangles(spec_tile_highlight_indices(), 8),
{
    let q = spec_tile_quad_indices();
    assert forall|t: int| 0 <= t < q.len() / 3 implies {
        &&& #[trigger] q[3 * t] != q[3 * t + 1]
        &&& q[3 * t] != q[3 * t + 2]
        &&& q[3 * t + 1] != q[3 * t + 2]
    } by {
        assert(t == 0 || t == 1);
    }
    let h = spec_tile_highlight_indices();
    assert forall|t: int| 0 <= t < h.len() / 3 implies {
        &&& #[trigger] h[3 * t] != h[3 * t + 1]
        &&& h[3 * t] != h[3 * t + 2]
        &&& h[3 * t + 1] != h[3 * t + 2]
    } by {
        assert(t == 0 || t == 1 || t == 2 || t == 3 || t == 4 || t == 5 || t == 6 || t == 7);
    }
}

/// Twice the signed area of the triangle `a, b, c` in the plane: positive
/// exactly when the corners run counter-clockwise.
pub open spec fn signed_area(a: (int, int), b: (int, int), c: (int, int)) -> int {
    (b.0 - a.0) * (c.1 - a.1) - (c.0 - a.0) * (b.1 - a.1)
}

/// The corners of the tile quad seen from the front (+z), in half-tile
/// units: top-left, top-right, bottom-left, bottom-right.
pub open spec fn quad_corner(i: int) -> (int, int) {
    if i == 0 {
        (-1, 1)
    } else if i == 1 {
        (1, 1)
    } else if i == 2 {
        (-1, -1)
    } else {
        (1, -1)
    }
}

/// The corners of the highlight frame seen from the front (+z): the inner
/// ring at half-size `inner`, the outer one at half-size `outer`, each in the
/// order bottom-left, top-left, bottom-right, top-right.
pub open spec fn highlight_corner(i: int, inner: int, outer: int) -> (int, int) {
    let e = if i < 4 {
        inner
    } else {
        outer
    };
    let k = i % 4;
    if k == 0 {
        (-e, -e)
    } else if k == 1 {
        (-e, e)
    } else if k == 2 {
        (e, -e)
    } else {
        (e, e)
    }
}

/// Every triangle of both meshes runs counter-clockwise seen from the front,
/// so none is culled as facing away, whatever the width of the frame.
pub proof fn lemma_tile_meshes_face_front(inner: int, outer: int)
    requires
        0 < inner < outer,
    ensures
        forall|t: int|
            0 <= t < 2 ==> signed_area(
                quad_corner(#[trigger] spec_tile_quad_indices()[3 * t] as int),
                quad_corner(spec_tile_quad_indices()[3 * t + 1] as int),
                quad_corner(spec_tile_quad_indices()[3 * t + 2] as int),
            ) > 0,
        forall|t: int|
            0 <= t < 8 ==> signed_area(
                highlight_corner(#[trigger] spec_tile_highlight_indices()[3 * t] as int, inner, outer),
                highlight_corner(spec_tile_highlight_indices()[3 * t + 1] as int, inner, outer),
                highlight_corner(spec_tile_highlight_indices()[3 * t + 2] as int, inner, outer),
            ) > 0,
{
    let q = spec_tile_quad_indices();
    assert forall|t: int| 0 <= t < 2 implies signed_area(
        quad_corner(#[trigger] q[3 * t] as int),
        quad_corner(q[3 * t + 1] as int),
        quad_corner(q[3 * t + 2] as int),
    ) > 0 by {
        assert(signed_area((-1int, 1int), (-1int, -1int), (1int, 1int)) == 4) by (nonlinear_arith);
        assert(signed_area((1int, -1int), (1int, 1int), (-1int, -1int)) == 4) by (nonlinear_arith);
        if t == 0 {
            assert(q[0] == 0 && q[1] == 2 && q[2] == 1);
        } else {
            assert(q[3] == 3 && q[4] == 1 && q[5] == 2);
        }
    }
    let h = spec_tile_highlight_indices();
    let s = inner;
    let e = outer;
    assert(2 * s * (e - s) > 0 && 2 * e * (e - s) > 0) by (nonlinear_arith)
        requires
            0 < s < e,
    ;
    assert(signed_area((-s, -s), (-s, s), (-e, e)) == 2 * s * (e - s)) by (nonlinear_arith);
    assert(signed_area((-e, e), (-e, -e), (-s, -s)) == 2 * e * (e - s)) by (nonlinear_arith);
    assert(signed_area((-s, s), (s, s), (e, e)) == 2 * s * (e - s)) by (nonlinear_arith);
    assert(signed_area((e, e), (-e, e), (-s, s)) == 2 * e * (e - s)) by (nonlinear_arith);
    assert(signed_area((s, s), (s, -s), (e, -e)) == 2 * s * (e - s)) by (nonlinear_arith);
    assert(signed_area((e, -e), (e, e), (s, s)) == 2 * e * (e - s)) by (nonlinear_arith);
    assert(signed_area((s, -s), (-s, -s), (-e, -e)) == 2 * s * (e - s)) by (nonlinear_arith);
    assert(signed_area((-e, -e), (e, -e), (s, -s)) == 2 * e * (e - s)) by (nonlinear_arith);
    assert forall|t: int| 0 <= t < 8 implies signed_area(
        highlight_corner(#[trigger] h[3 * t] as int, inner, outer),
        highlight_corner(h[3 * t + 1] as int, inner, outer),
        highlight_corner(h[3 * t + 2] as int, inner, outer),
    ) > 0 by {
        assert(t == 0 || t == 1 || t == 2 || t == 3 || t == 4 || t == 5 || t == 6 || t == 7);
    }
}

} // verus!
