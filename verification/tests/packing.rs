use rgmin::manifold::centered::{self, CenteredMatrix};
use rgmin::manifold::euclidean_complex::EuclideanComplex;
use rgmin::manifold::multinomial_ds::MultinomialDoublyStochastic;
use rgmin::manifold::multinomial_sym::{self, MultinomialSymmetric};
use rgmin::manifold::{se3, so3};
use rgmin::manifold::positive::{self, Positive};
use rgmin::manifold::se_n::{self, SeN};
use rgmin::manifold::so_n::{self, SoN};
use rgmin::manifold::sphere_complex::{self, SphereComplex};
use rgmin::manifold::stiefel::StiefelNp;

fn abs_diff_sum(a: &[f64], b: &[f64]) -> f64 {
    assert_eq!(a.len(), b.len());
    a.iter().zip(b.iter()).map(|(x, y)| (x - y).abs()).sum()
}

#[test]
fn centered_pack_unpack_round_trips() {
    let a = vec![1.0, -1.0, 2.0, 0.5, -0.5, -2.0];
    let m = CenteredMatrix::new(2, 3, false);
    let x = m.pack(&a);
    assert_eq!(x, a);
    let back = m.unpack(&x).unwrap();
    assert!(abs_diff_sum(&back, &a) < 1e-15);
    let (n, flat) = (2usize, centered::unpack(&x, 2, 3).unwrap());
    assert_eq!(n, 2);
    let y = centered::pack(2, 3, flat);
    assert!(abs_diff_sum(&x, &y) < 1e-15);
    assert!(m.unpack(&[1.0, 0.0]).is_none());
    assert!(centered::unpack(&x, 3, 3).is_none());
    assert!(CenteredMatrix::new(0, 2, false).unpack(&[1.0, 2.0]).is_none());
}

#[test]
fn euclidean_complex_pack_unpack_round_trips() {
    let re = [1.0, 0.0, -1.0];
    let im = [0.0, 1.0, 0.5];
    let x = EuclideanComplex::pack(&re, &im);
    assert_eq!(x, vec![1.0, 0.0, 0.0, 1.0, -1.0, 0.5]);
    let (r2, i2) = EuclideanComplex::unpack(&x).unwrap();
    assert!(abs_diff_sum(&r2, &re) < 1e-15);
    assert!(abs_diff_sum(&i2, &im) < 1e-15);
    assert!(EuclideanComplex::unpack(&[1.0, 0.0, 0.0]).is_none());
}

#[test]
fn multinomial_sym_pack_unpack_round_trip() {
    let m = MultinomialSymmetric { n: 2 };
    let a = [0.2, 0.8, 0.8, 0.2];
    let p = m.pack(&a);
    let u = m.unpack(&p).expect("unpack");
    assert_eq!(p, vec![0.2, 0.8, 0.8, 0.2]);
    assert_eq!(u, a.to_vec());
    let (n, flat) = multinomial_sym::unpack(&p).expect("module unpack");
    assert_eq!(n, 2);
    assert_eq!(multinomial_sym::pack(n, flat), p);
}

#[test]
fn positive_pack_unpack_round_trips() {
    // The 2 x 2 matrix [[1, 3], [2, 4]], row-major.
    let mat = [1.0, 3.0, 2.0, 4.0];
    let x = Positive::pack(2, 2, &mat);
    assert_eq!(x, vec![1.0, 2.0, 3.0, 4.0]);
    let back = Positive { n: 4 }.unpack(&x, 2, 2).unwrap();
    assert!(abs_diff_sum(&back, &mat) < 1e-15);
    assert!(Positive { n: 4 }.unpack(&x, 3, 2).is_none());
    let v = [1.25, 0.5, 3.0];
    assert_eq!(positive::pack_vec(&v), v.to_vec());
    assert_eq!(positive::unpack_vec(&v), v.to_vec());
}

#[test]
fn se_n_pack_unpack_is_row_major_then_t() {
    let m = SeN::new(2).unwrap();
    let rot: [f64; 4] = [0.0, -1.0, 1.0, 0.0];
    let t = [3.0, 4.0];
    let x = m.pack(&rot, &t).unwrap();
    assert_eq!(x.len(), 6);
    let (ur, ut) = m.unpack(&x).unwrap();
    assert_eq!(ur, rot);
    assert_eq!(ut, t);
    assert!(m.pack(&[1.0, 0.0, 0.0], &t).is_none());
    let (n, flat_r, flat_t) = se_n::unpack(&x).unwrap();
    assert_eq!(n, 2);
    let y = se_n::pack(n, flat_r, flat_t);
    for i in 0..6 {
        assert!((x[i] - y[i]).abs() < 1e-15);
    }
    assert_eq!(se_n::side(6), Some(2));
    assert_eq!(se_n::side(12), Some(3));
    assert_eq!(se_n::side(20), Some(4));
    assert!(se_n::side(9).is_none());
    assert!(se_n::side(114).is_none());
}

#[test]
fn so_n_pack_unpack_is_row_major() {
    let m = SoN::new(2).unwrap();
    let mat: [f64; 4] = [0.0, -1.0, 1.0, 0.0];
    let x = m.pack(&mat).unwrap();
    assert_eq!(x.len(), 4);
    assert_eq!(m.unpack(&x).unwrap(), mat);
    assert!(m.pack(&[1.0, 0.0, 0.0]).is_none());
    let (n, flat) = so_n::unpack(&x).unwrap();
    assert_eq!(n, 2);
    let y = so_n::pack(n, flat);
    for i in 0..4 {
        assert!((x[i] - y[i]).abs() < 1e-15);
    }
}

#[test]
fn sphere_complex_pack_unpack_round_trips() {
    let re = [1.0, 0.0, -1.0];
    let im = [0.0, 1.0, 0.5];
    let x = SphereComplex::pack(&re, &im);
    assert_eq!(x, vec![1.0, 0.0, 0.0, 1.0, -1.0, 0.5]);
    let (r2, i2) = SphereComplex::unpack(&x).unwrap();
    assert!(abs_diff_sum(&r2, &re) < 1e-15);
    assert!(abs_diff_sum(&i2, &im) < 1e-15);
    assert!(SphereComplex::unpack(&[1.0, 0.0, 0.0]).is_none());
}

#[test]
fn pack_unpack_is_column_major() {
    let st = StiefelNp::new(3, 2).unwrap();
    let frame = [1.0, 0.0, 0.0, 0.0, 1.0, 0.0];
    let x = st.pack(&frame).unwrap();
    assert_eq!(x.len(), 6);
    assert_eq!(st.unpack(&x).unwrap(), frame);
    assert!(st.pack(&[1.0, 0.0, 0.0]).is_none());
}

#[test]
fn interleave_drops_the_longer_tail() {
    let x = sphere_complex::pack(&[1, 2, 3], &[10, 20]);
    assert_eq!(x, vec![1, 10, 2, 20]);
    assert_eq!(sphere_complex::unpack(&x), Some((vec![1, 2], vec![10, 20])));
    assert_eq!(sphere_complex::unpack::<i32>(&[]), Some((vec![], vec![])));
}

#[test]
fn column_major_layout_of_a_wide_matrix() {
    // 2 x 3, row-major [[1, 2, 3], [4, 5, 6]] packs column by column.
    let rows = [1, 2, 3, 4, 5, 6];
    let x = positive::pack(2, 3, &rows);
    assert_eq!(x, vec![1, 4, 2, 5, 3, 6]);
    assert_eq!(positive::unpack(&x, 2, 3), Some(rows.to_vec()));
    assert_eq!(positive::unpack(&x, 3, 2), Some(vec![1, 5, 4, 3, 2, 6]));
    assert_eq!(positive::unpack(&x, 0, 6), None);
    assert_eq!(positive::unpack(&x, usize::MAX, 2), None);
}

#[test]
fn se_n_split_keeps_the_blocks() {
    let x: Vec<u32> = (0..12).collect();
    let (n, r, t) = se_n::unpack(&x).unwrap();
    assert_eq!(n, 3);
    assert_eq!(r, (0..9).collect::<Vec<u32>>());
    assert_eq!(t, vec![9, 10, 11]);
    assert!(se_n::unpack(&x[..11]).is_none());
    assert!(SeN::new(3).unwrap().unpack(&x[..6]).is_none());
}

#[test]
fn centered_pack_of_a_wrong_length_is_empty() {
    assert_eq!(centered::pack(2, 3, vec![1, 2, 3]), Vec::<i32>::new());
    assert_eq!(centered::pack(usize::MAX, 2, vec![1]), Vec::<i32>::new());
    assert_eq!(centered::unpack(&[1, 2, 3, 4], 0, 4), None);
}

#[test]
fn multinomial_ds_pack_unpack_round_trip() {
    let m = MultinomialDoublyStochastic { n: 2 };
    // The 2 x 2 matrix [[0.7, 0.3], [0.3, 0.7]], row-major.
    let mat = [0.7, 0.3, 0.3, 0.7];
    let p = MultinomialDoublyStochastic::pack(2, 2, &mat);
    let u = m.unpack(&p, 0.0);
    assert_eq!(p, vec![0.7, 0.3, 0.3, 0.7]);
    assert!((u[0] - 0.7f64).abs() < 1e-15);
    assert!((u[1] - 0.3f64).abs() < 1e-15);
    assert!((u[2] - 0.3f64).abs() < 1e-15);
    assert!((u[3] - 0.7f64).abs() < 1e-15);
}

#[test]
fn multinomial_ds_unpack_of_a_wrong_length_is_zero() {
    let m = MultinomialDoublyStochastic { n: 2 };
    assert_eq!(m.unpack(&[1, 2, 3], 0), vec![0, 0, 0, 0]);
    assert_eq!(m.unpack(&[1, 2, 3, 4], 0), vec![1, 2, 3, 4]);
}

#[test]
fn so3_layout_is_row_major() {
    let r = [[0.0, -1.0, 0.0], [1.0, 0.0, 0.0], [0.0, 0.0, 1.0]];
    let x = so3::pack(r);
    assert_eq!(x, vec![0.0, -1.0, 0.0, 1.0, 0.0, 0.0, 0.0, 0.0, 1.0]);
    assert_eq!(so3::unpack(&x, 0.0), r);
    assert_eq!(so3::unpack(&x[..8], 0.0), [[0.0; 3]; 3]);
    assert_eq!(so3::unpack(&[1, 2, 3, 4, 5, 6, 7, 8, 9, 10], 0), [[1, 2, 3], [4, 5, 6], [7, 8, 9]]);
}

#[test]
fn se3_layout_is_row_major_then_t() {
    let r = [[0.0, -1.0, 0.0], [1.0, 0.0, 0.0], [0.0, 0.0, 1.0]];
    let t = [3.0, 4.0, 5.0];
    let x = se3::pack(r, t);
    assert_eq!(x, vec![0.0, -1.0, 0.0, 1.0, 0.0, 0.0, 0.0, 0.0, 1.0, 3.0, 4.0, 5.0]);
    assert_eq!(se3::unpack(&x, 0.0), (r, t));
    let (r9, t9) = se3::unpack(&x[..9], 0.0);
    assert_eq!(r9, r);
    assert_eq!(t9, [0.0; 3]);
}
