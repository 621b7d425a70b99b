//! Which walks over a noise grid each kind of noise can be sampled by, and
//! which index settings the second-closest-point cellular noise accepts.
use vstd::prelude::*;

verus! {

/// The kinds of noise.
#[derive(Debug, Copy, Clone, PartialEq, Eq)]
pub enum NoiseKind {
    Fbm,
    Ridge,
    Turbulence,
    Gradient,
    Cellular,
    Cellular2,
}

/// The walks over a grid of one to four dimensions.
#[derive(Debug, Copy, Clone, PartialEq, Eq)]
pub enum Walk {
    OneD,
    TwoD,
    ThreeD,
    FourD,
}

/// Cellular noise is sampled in two and three dimensions only; the other
/// kinds in all four.
pub open spec fn spec_supports(kind: NoiseKind, walk: Walk) -> bool {
    match kind {
        NoiseKind::Cellular | NoiseKind::Cellular2 => walk == Walk::TwoD || walk == Walk::ThreeD,
        _ => true,
    }
}

/// Whether a grid of `kind` noise can be sampled by `walk`.
pub fn supports(kind: NoiseKind, walk: Walk) -> (r: bool)
    ensures
        r == spec_supports(kind, walk),
{
    match kind {
        NoiseKind::Cellular | NoiseKind::Cellular2 => match walk {
            Walk::TwoD | Walk::ThreeD => true,
            _ => false,
        },
        _ => true,
    }
}

/// The walk of a grid with `dim` axes.
pub fn walk_of_dim(dim: usize) -> (r: Option<Walk>)
    ensures
        dim == 1 <==> r == Some(Walk::OneD),
        dim == 2 <==> r == Some(Walk::TwoD),
        dim == 3 <==> r == Some(Walk::ThreeD),
        dim == 4 <==> r == Some(Walk::FourD),
        r is None <==> !(1 <= dim <= 4),
{
    match dim {
        1 => Some(Walk::OneD),
        2 => Some(Walk::TwoD),
        3 => Some(Walk::ThreeD),
        4 => Some(Walk::FourD),
        _ => None,
    }
}

/// The second-closest-point cellular noise keeps the four closest distances
/// and combines the one at `index0` with the one at `index1`; the first must
/// come before the second and both must be among those kept, with `index0`
/// at most 2.
pub open spec fn spec_cell2_indices_valid(index0: usize, index1: usize) -> bool {
    index0 <= 2 && index1 <= 3 && index0 < index1
}

/// Whether the index settings of a second-closest-point cellular noise are
/// valid.
pub fn cell2_indices_valid(index0: usize, index1: usize) -> (r: bool)
    ensures
        r == spec_cell2_indices_valid(index0, index1),
{
    !(index0 > 2 || index1 > 3 || index0 >= index1)
}

/// The default settings, indices 0 and 1, are valid, and valid settings only
/// ever read one of the four kept distances.
pub proof fn lemma_cell2_indices(index0: usize, index1: usize)
    ensures
        spec_cell2_indices_valid(0, 1),
        spec_cell2_indices_valid(index0, index1) ==> index0 < 4 && index1 < 4,
{
}

/// Every kind can be sampled in two and three dimensions; exactly the
/// cellular kinds cannot be sampled in one or four.
pub proof fn lemma_walks_by_kind(kind: NoiseKind)
    ensures
        spec_supports(kind, Walk::TwoD),
        spec_supports(kind, Walk::ThreeD),
        spec_supports(kind, Walk::OneD) <==> !(kind == NoiseKind::Cellular || kind
            == NoiseKind::Cellular2),
        spec_supports(kind, Walk::FourD) <==> !(kind == NoiseKind::Cellular || kind
            == NoiseKind::Cellular2),
{
}

/// The index settings are valid exactly when the first index comes before
/// the second and the second is one of the four kept distances.
pub proof fn lemma_cell2_indices_ordered(index0: usize, index1: usize)
    ensures
        spec_cell2_indices_valid(index0, index1) <==> index0 < index1 <= 3,
{
}

} // verus!
