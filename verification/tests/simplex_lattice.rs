use herbolution::cell_hash::{hash_2d, hash_3d};
use herbolution::gradient::{grad1, grad2, grad4};
use herbolution::perm::{gather_32, gather_64, in_perm_range, perm, PERM};
use herbolution::simplex::{simplex_1d_hashes, simplex_2d_hashes, simplex_4d_hashes, simplex_4d_ranks};

fn p(i: i32) -> i32 {
    PERM[i as usize]
}

#[test]
fn perm_table_entries() {
    assert_eq!(perm(0), 151);
    assert_eq!(perm(1), 160);
    assert_eq!(perm(255), 180);
    assert_eq!(perm(256), 151);
    assert_eq!(perm(511), 180);
}

#[test]
fn perm_table_is_a_doubled_permutation() {
    let mut seen = [false; 256];
    for i in 0..256 {
        assert_eq!(PERM[i], PERM[i + 256]);
        assert!(!seen[PERM[i] as usize]);
        seen[PERM[i] as usize] = true;
    }
}

#[test]
fn perm_range_check() {
    assert!(in_perm_range(&[0, 511, 256]));
    assert!(!in_perm_range(&[0, 512]));
    assert!(in_perm_range(&[]));
}

#[test]
fn gather_lanes() {
    assert_eq!(gather_32(&[10, 20, 30], &[2, 0, 0, 1]), vec![30, 10, 10, 20]);
    assert_eq!(gather_64(&[-1, 5], &[1, 1]), vec![5, 5]);
    assert_eq!(gather_32(&PERM, &[0, 256, 511]), vec![151, 151, 180]);
}

#[test]
fn hashes_1d() {
    assert_eq!(simplex_1d_hashes(0), (151, 160));
    assert_eq!(simplex_1d_hashes(255), (180, 151));
    assert_eq!(simplex_1d_hashes(-1), (180, 151));
    assert_eq!(simplex_1d_hashes(i32::MAX), (180, 151));
    assert_eq!(simplex_1d_hashes(i32::MIN), (151, 160));
    assert_eq!(simplex_1d_hashes(258), (p(2), p(3)));
}

#[test]
fn hashes_2d() {
    let (i, j) = (3, -2);
    let (ii, jj) = (3, 254);
    let r = simplex_2d_hashes(i, j, true, false);
    assert_eq!(r[0], p(ii + p(jj)));
    assert_eq!(r[1], p(ii + 1 + p(jj)));
    assert_eq!(r[2], p(ii + 1 + p(jj + 1)));
    let s = simplex_2d_hashes(i, j, false, true);
    assert_eq!(s[1], p(ii + p(jj + 1)));
    assert_eq!(s[0], r[0]);
}

#[test]
fn hashes_2d_top_corner_of_table() {
    let r = simplex_2d_hashes(255, 255, true, true);
    assert_eq!(r[2], p(256 + p(256)));
}

#[test]
fn ranks_from_comparisons() {
    // x = 0.4, y = 0.1, z = 0.3, w = 0.2
    assert_eq!(simplex_4d_ranks(true, true, true, false, false, true), [3, 0, 2, 1]);
    // all equal: ties go to the later axis
    assert_eq!(simplex_4d_ranks(false, false, false, false, false, false), [0, 1, 2, 3]);
}

#[test]
fn hashes_4d() {
    let ranks = [3, 0, 2, 1];
    let r = simplex_4d_hashes(1, 2, 3, 4, ranks);
    let corner = |a: i32, b: i32, c: i32, d: i32| p(1 + a + p(2 + b + p(3 + c + p(4 + d))));
    assert_eq!(r[0], corner(0, 0, 0, 0));
    assert_eq!(r[1], corner(1, 0, 0, 0));
    assert_eq!(r[2], corner(1, 0, 1, 0));
    assert_eq!(r[3], corner(1, 0, 1, 1));
    assert_eq!(r[4], corner(1, 1, 1, 1));
}

#[test]
fn gradient_1d() {
    assert_eq!(grad1(0, 5), 5);
    assert_eq!(grad1(0, 13), -5);
    assert_eq!(grad1(0, 8), 0);
    assert_eq!(grad1(3, 5), 6);
    assert_eq!(grad1(0, 0x7f), -7);
    for h in 0..64 {
        assert!(grad1(7, h).abs() <= 7);
    }
}

#[test]
fn gradient_1d_seed_truncated_to_32_bits() {
    assert_eq!(grad1(1 << 32, 5), grad1(0, 5));
}

#[test]
fn gradient_2d() {
    assert_eq!(grad2(0, 0), [1, 2]);
    assert_eq!(grad2(0, 1), [-1, 2]);
    assert_eq!(grad2(0, 2), [1, -2]);
    assert_eq!(grad2(0, 3), [-1, -2]);
    assert_eq!(grad2(0, 4), [2, 1]);
    assert_eq!(grad2(0, 5), [2, -1]);
    assert_eq!(grad2(0, 6), [-2, 1]);
    assert_eq!(grad2(0, 7), [-2, -1]);
    assert_eq!(grad2(1, 1), [1, 2]);
}

#[test]
fn gradient_2d_directions_distinct() {
    let mut all: Vec<[i32; 2]> = (0..8).map(|h| grad2(0, h)).collect();
    all.sort();
    all.dedup();
    assert_eq!(all.len(), 8);
}

#[test]
fn gradient_4d() {
    assert_eq!(grad4(0, 0), [1, 1, 1, 0]);
    assert_eq!(grad4(0, 7), [-1, -1, -1, 0]);
    assert_eq!(grad4(0, 8), [1, 1, 0, 1]);
    assert_eq!(grad4(0, 16), [1, 0, 1, 1]);
    assert_eq!(grad4(0, 24), [0, 1, 1, 1]);
    assert_eq!(grad4(0, 31), [0, -1, -1, -1]);
    for h in 0..32 {
        let c = grad4(0, h);
        assert_eq!(c.iter().filter(|&&v| v == 0).count(), 1);
    }
}

#[test]
fn cell_hashes() {
    // h = 2 ^ (1 ^ 0) = 3; 3 * 3 * 60493 * 3
    assert_eq!(hash_2d(0, 1, 2), 1_633_311);
    assert_eq!(hash_2d(0, 2, 1), hash_2d(0, 1, 2));
    assert_eq!(hash_3d(0, 1, 2, 0), hash_2d(0, 1, 2));
    assert_eq!(hash_3d(5, 1, 2, 4), {
        let h: i64 = 4 ^ (2 ^ (1 ^ 5));
        h.wrapping_mul(h).wrapping_mul(60493).wrapping_mul(h)
    });
}

#[test]
fn cell_hash_wraps() {
    let h: i64 = i64::MAX ^ 0;
    let expected = h.wrapping_mul(h).wrapping_mul(60493).wrapping_mul(h);
    assert_eq!(hash_2d(0, i64::MAX, 0), expected);
}
