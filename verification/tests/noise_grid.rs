use herbolution::noise_dim::NoiseDim;
use herbolution::noise_kind::{cell2_indices_valid, supports, walk_of_dim, NoiseKind, Walk};
use herbolution::sampling::{checked_plan_4d, plan_1d, plan_2d, plan_3d, plan_4d, Batch};

fn batch(offset: usize, count: usize, x: usize, y: usize, z: usize, w: usize) -> Batch {
    Batch { offset, count, x, y, z, w }
}

#[test]
fn new_1d_extents_and_size() {
    let d = NoiseDim::new_1d(7);
    assert_eq!(d.dim(), 1);
    assert_eq!((d.x_extent(), d.y_extent(), d.z_extent(), d.w_extent()), (7, 1, 1, 1));
    assert_eq!(d.size(), 7);
}

#[test]
fn new_2d_extents_and_size() {
    let d = NoiseDim::new_2d(3, 5);
    assert_eq!(d.dim(), 2);
    assert_eq!((d.x_extent(), d.y_extent(), d.z_extent(), d.w_extent()), (3, 5, 1, 1));
    assert_eq!(d.size(), 15);
}

#[test]
fn new_3d_extents_and_size() {
    let d = NoiseDim::new_3d(2, 3, 4);
    assert_eq!(d.dim(), 3);
    assert_eq!(d.w_extent(), 1);
    assert_eq!(d.size(), 24);
}

#[test]
fn new_4d_extents_and_size() {
    let d = NoiseDim::new_4d(2, 3, 4, 5);
    assert_eq!(d.dim(), 4);
    assert_eq!(d.size(), 120);
}

#[test]
fn zero_extent_gives_empty_grid() {
    assert_eq!(NoiseDim::new_3d(4, 0, 9).size(), 0);
    assert!(plan_2d(NoiseDim::new_2d(4, 0), 4).is_empty());
    assert!(plan_1d(NoiseDim::new_1d(0), 8).is_empty());
}

#[test]
fn equal_dims_compare_equal() {
    assert_eq!(NoiseDim::new_2d(3, 5), NoiseDim::new_2d(3, 5));
    assert_ne!(NoiseDim::new_2d(3, 5), NoiseDim::new_3d(3, 5, 1));
}

#[test]
fn plan_1d_full_vectors_then_tail() {
    let plan = plan_1d(NoiseDim::new_1d(10), 4);
    assert_eq!(plan, vec![batch(0, 4, 0, 0, 0, 0), batch(4, 4, 4, 0, 0, 0), batch(8, 2, 8, 0, 0, 0)]);
}

#[test]
fn plan_1d_exact_multiple_has_no_tail() {
    let plan = plan_1d(NoiseDim::new_1d(8), 4);
    assert_eq!(plan, vec![batch(0, 4, 0, 0, 0, 0), batch(4, 4, 4, 0, 0, 0)]);
}

#[test]
fn plan_1d_shorter_than_vector() {
    assert_eq!(plan_1d(NoiseDim::new_1d(3), 8), vec![batch(0, 3, 0, 0, 0, 0)]);
}

#[test]
fn plan_2d_rows_follow_each_other() {
    let plan = plan_2d(NoiseDim::new_2d(5, 2), 4);
    assert_eq!(
        plan,
        vec![batch(0, 4, 0, 0, 0, 0), batch(4, 1, 4, 0, 0, 0), batch(5, 4, 0, 1, 0, 0), batch(9, 1, 4, 1, 0, 0)]
    );
}

#[test]
fn plan_3d_planes_follow_each_other() {
    let plan = plan_3d(NoiseDim::new_3d(2, 2, 2), 4);
    assert_eq!(
        plan,
        vec![batch(0, 2, 0, 0, 0, 0), batch(2, 2, 0, 1, 0, 0), batch(4, 2, 0, 0, 1, 0), batch(6, 2, 0, 1, 1, 0)]
    );
}

fn assert_tiles(plan: &[Batch], end: usize, width: usize) {
    let mut next = 0;
    for b in plan {
        assert_eq!(b.offset, next);
        assert!(b.count > 0 && b.count <= width);
        next = b.offset + b.count;
    }
    assert_eq!(next, end);
}

#[test]
fn plans_cover_the_grid_once() {
    assert_tiles(&plan_1d(NoiseDim::new_1d(13), 4), 13, 4);
    assert_tiles(&plan_2d(NoiseDim::new_2d(13, 3), 8), 39, 8);
    assert_tiles(&plan_3d(NoiseDim::new_3d(6, 3, 2), 4), 36, 4);
    assert_tiles(&plan_4d(NoiseDim::new_4d(6, 3, 2, 5), 4), 180, 4);
}

#[test]
fn plan_4d_counts_full_vectors_from_w() {
    // The w extent holds two whole vectors of four lanes, the x extent one.
    let plan = plan_4d(NoiseDim::new_4d(5, 1, 1, 9), 4);
    assert_eq!(plan.len(), 27);
    assert_eq!(&plan[0..3], &[batch(0, 4, 0, 0, 0, 0), batch(4, 4, 4, 0, 0, 0), batch(8, 1, 8, 0, 0, 0)]);
    assert_eq!(plan[3], batch(9, 4, 0, 0, 0, 1));
    let last = plan[plan.len() - 1];
    assert_eq!(last.offset + last.count, 81);
    assert!(81 > NoiseDim::new_4d(5, 1, 1, 9).size());
}

#[test]
fn plan_4d_walks_w_then_z_then_y() {
    let plan = plan_4d(NoiseDim::new_4d(1, 2, 2, 2), 1);
    assert_eq!(plan.len(), 16);
    assert_eq!(plan[1], batch(1, 1, 1, 0, 0, 0));
    assert_eq!(plan[2], batch(2, 1, 0, 1, 0, 0));
    assert_eq!(plan[4], batch(4, 1, 0, 0, 1, 0));
    assert_eq!(plan[8], batch(8, 1, 0, 0, 0, 1));
}

#[test]
fn cellular_noise_walks() {
    assert!(!supports(NoiseKind::Cellular, Walk::OneD));
    assert!(supports(NoiseKind::Cellular, Walk::TwoD));
    assert!(supports(NoiseKind::Cellular2, Walk::ThreeD));
    assert!(!supports(NoiseKind::Cellular2, Walk::FourD));
    assert!(supports(NoiseKind::Fbm, Walk::OneD));
    assert!(supports(NoiseKind::Gradient, Walk::FourD));
    assert!(supports(NoiseKind::Ridge, Walk::FourD));
    assert!(supports(NoiseKind::Turbulence, Walk::OneD));
}

#[test]
fn walks_by_dimension() {
    assert_eq!(walk_of_dim(1), Some(Walk::OneD));
    assert_eq!(walk_of_dim(4), Some(Walk::FourD));
    assert_eq!(walk_of_dim(0), None);
    assert_eq!(walk_of_dim(5), None);
}

#[test]
fn cell2_index_settings() {
    assert!(cell2_indices_valid(0, 1));
    assert!(cell2_indices_valid(2, 3));
    assert!(!cell2_indices_valid(1, 1));
    assert!(!cell2_indices_valid(3, 3));
    assert!(!cell2_indices_valid(0, 4));
    assert!(!cell2_indices_valid(2, 1));
}

fn assert_placed(plan: &[Batch], row_len: usize, rows: usize, planes: usize, volumes: usize) {
    for b in plan {
        assert!(b.x + b.count <= row_len);
        assert!(b.y < rows && b.z < planes && b.w < volumes);
        assert_eq!(b.offset, b.x + row_len * (b.y + rows * (b.z + planes * b.w)));
    }
}

#[test]
fn batches_write_the_cells_they_sample() {
    assert_placed(&plan_1d(NoiseDim::new_1d(11), 4), 11, 1, 1, 1);
    assert_placed(&plan_2d(NoiseDim::new_2d(5, 3), 4), 5, 3, 1, 1);
    assert_placed(&plan_3d(NoiseDim::new_3d(6, 2, 3), 4), 6, 2, 3, 1);
    assert_placed(&plan_4d(NoiseDim::new_4d(5, 2, 2, 5), 4), 5, 2, 2, 5);
    let plan = plan_3d(NoiseDim::new_3d(3, 2, 2), 2);
    let last = plan[plan.len() - 1];
    assert_eq!((last.offset, last.x, last.y, last.z), (11, 2, 1, 1));
}

#[test]
fn checked_size_detects_overflow() {
    assert_eq!(NoiseDim::new_3d(2, 3, 4).checked_size(), Some(24));
    assert_eq!(NoiseDim::new_2d(usize::MAX, 2).checked_size(), None);
    assert_eq!(NoiseDim::new_3d(usize::MAX, 2, 0).checked_size(), None);
    assert_eq!(NoiseDim::new_2d(usize::MAX, 0).checked_size(), Some(0));
}

#[test]
fn checked_plan_4d_refuses_what_plan_4d_cannot_take() {
    let d = NoiseDim::new_4d(5, 2, 2, 5);
    assert_eq!(checked_plan_4d(d, 4), Some(plan_4d(d, 4)));
    assert_eq!(checked_plan_4d(d, 0), None);
    assert_eq!(checked_plan_4d(NoiseDim::new_4d(usize::MAX, 2, 1, 1), 4), None);
    let big = NoiseDim::new_4d(1, 1, 1, usize::MAX);
    assert_eq!(checked_plan_4d(big, 1), None);
    assert_eq!(checked_plan_4d(NoiseDim::new_4d(3, 0, 2, 2), 4), Some(Vec::new()));
}
