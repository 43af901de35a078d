use matrix_commitment_scheme::field::{GLFq, GOLDILOCKS_MODULUS};
use matrix_commitment_scheme::mat::Mat;
use matrix_commitment_scheme::matrix::{inner_product, Matrix};
use matrix_commitment_scheme::vector::Vector;

fn fm(rows: &[&[u64]]) -> Matrix<GLFq> {
    Matrix(rows.iter().map(|r| Vector(r.iter().map(|&v| GLFq::new(v)).collect())).collect())
}

fn fv(v: &[u64]) -> Vector<GLFq> {
    Vector(v.iter().map(|&x| GLFq::new(x)).collect())
}

fn vals(v: &Vector<GLFq>) -> Vec<u64> {
    v.0.iter().map(|x| x.value()).collect()
}

#[test]
fn matrix_transpose_and_flatten() {
    let m = Matrix(vec![Vector(vec![1, 2, 3]), Vector(vec![4, 5, 6])]);
    assert_eq!(m.flatten(), vec![1, 2, 3, 4, 5, 6]);
    let t = m.transpose();
    let rows: Vec<Vec<i32>> = t.rows().into_iter().map(|r| r.0).collect();
    assert_eq!(rows, vec![vec![1, 4], vec![2, 5], vec![3, 6]]);
    let empty: Matrix<u8> = Matrix(vec![]);
    assert_eq!(empty.transpose().rows().len(), 0);
}

#[test]
fn matrix_rows_gives_the_rows_back() {
    let m = Matrix(vec![Vector(vec![true]), Vector(vec![false, true])]);
    let rows = m.rows();
    assert_eq!(rows.len(), 2);
    assert_eq!(rows[1].0, vec![false, true]);
}

#[test]
fn mat_flatten_references() {
    let m = Mat(vec![vec![1u8, 2], vec![], vec![3]]);
    let f: Vec<u8> = m.flatten().into_iter().copied().collect();
    assert_eq!(f, vec![1, 2, 3]);
}

#[test]
fn matrix_bit_split_recomposes() {
    let m = fm(&[&[5, 1 << 40], &[u64::MAX - 100000, 0]]);
    let parts = m.clone().bit_split();
    assert_eq!(parts.len(), 64);
    for i in 0..2 {
        for j in 0..2 {
            let mut acc: u128 = 0;
            for (k, part) in parts.iter().enumerate() {
                if part.0[i].0[j] {
                    acc += 1u128 << k;
                }
            }
            assert_eq!(acc as u64, m.0[i].0[j].value());
        }
    }
    assert!(parts[0].0[0].0[0]);
    assert!(!parts[1].0[0].0[0]);
    assert!(parts[2].0[0].0[0]);
    assert!(parts[40].0[0].0[1]);
}

#[test]
fn matrix_add_elementwise() {
    let a = fm(&[&[1, GOLDILOCKS_MODULUS - 1], &[3, 4]]);
    let b = fm(&[&[10, 2], &[0, 0]]);
    let c = a.add(b);
    assert_eq!(vals(&c.0[0]), vec![11, 1]);
    assert_eq!(vals(&c.0[1]), vec![3, 4]);
}

#[test]
fn vector_add_elementwise() {
    let v = fv(&[1, 2, 3]).add(fv(&[GOLDILOCKS_MODULUS - 1, 5, 0]));
    assert_eq!(vals(&v), vec![0, 7, 3]);
}

#[test]
fn matrix_times_bool_vector_sums_selected_columns() {
    let m = fm(&[&[1, 2, 3], &[4, 5, 6]]);
    let v = m.clone().mul_bool_vector(&Vector(vec![true, false, true]));
    assert_eq!(vals(&v), vec![4, 10]);
    let z = m.mul_bool_vector(&Vector(vec![false, false, false]));
    assert_eq!(vals(&z), vec![0, 0]);
}

#[test]
fn matrix_times_vector_dot_products() {
    let m = fm(&[&[1, 2, 3], &[4, 5, 6]]);
    let v = m.mul_vector(fv(&[1, 0, 2]));
    assert_eq!(vals(&v), vec![7, 16]);
    let bools = m.clone().mul_bool_vector(&Vector(vec![true, false, true]));
    assert_eq!(vals(&bools), vals(&m.mul_vector(fv(&[1, 0, 1]))));
}

#[test]
fn inner_product_uses_common_prefix() {
    let a = vec![GLFq::new(2), GLFq::new(3), GLFq::new(4)];
    let b = vec![GLFq::new(5), GLFq::new(7)];
    assert_eq!(inner_product(&a, &b).value(), 31);
    assert_eq!(inner_product(&a, &vec![]).value(), 0);
}

#[test]
fn matrix_times_bool_vector_reads_short_rows_only_at_set_bits() {
    let m = fm(&[&[1, 2, 3], &[4]]);
    let v = m.mul_bool_vector(&Vector(vec![true, false, false]));
    assert_eq!(vals(&v), vec![1, 4]);
}
