use ark_std::rand::rngs::StdRng;
use ark_std::rand::SeedableRng;
use matrix_commitment_scheme::commit::{
    challenge_coeff, commit_with_columns, reject_sampling, Commit, CommitmentScheme, GL_D, GL_KAPPA,
};
use matrix_commitment_scheme::field::{GLFq, GLFqConfig, GOLDILOCKS_MODULUS};
use matrix_commitment_scheme::matrix::Matrix;
use matrix_commitment_scheme::rng::seed_digest;
use matrix_commitment_scheme::vector::Vector;

type Fq = GLFq;

fn same(a: &Matrix<Fq>, b: &Matrix<Fq>) -> bool {
    a.0.len() == b.0.len()
        && a.0.iter().zip(b.0.iter()).all(|(x, y)| {
            x.0.len() == y.0.len() && x.0.iter().zip(y.0.iter()).all(|(u, v)| u == v)
        })
}

fn test_rng() -> StdRng {
    let seed = [
        1, 0, 0, 0, 23, 0, 0, 0, 200, 1, 0, 0, 210, 30, 0, 0, 0, 0, 0, 0, 0, 0, 0, 0, 0, 0, 0, 0,
        0, 0, 0, 0,
    ];
    StdRng::from_seed(seed)
}

#[test]
fn random_linear_combination() {
    let mut rng = test_rng();

    let witness_len = 100;
    let a: Vec<Fq> = (0..witness_len).map(|_| Fq::random(&mut rng)).collect();
    let b: Vec<Fq> = (0..witness_len).map(|_| Fq::random(&mut rng)).collect();

    let r = Vector::<Fq>::challenge("aaaaaa").rot();

    let a = Matrix::<bool>::from(&a);
    let b = Matrix::<bool>::from(&b);

    let scheme = CommitmentScheme::new("seed".to_string());

    let com_a = scheme.commit(&a);
    let com_b = scheme.commit(&b);
    let com_c = com_a.add(Matrix(com_b.rows().into_iter().map(|rq| r.mul_vector(rq)).collect()));

    let a = Matrix(
        a.rows()
            .into_iter()
            .map(|rq| Vector(rq.0.into_iter().map(Fq::from_bool).collect()))
            .collect(),
    );

    let b = Matrix(
        b.rows()
            .into_iter()
            .map(|rq| Vector(rq.0.into_iter().map(Fq::from_bool).collect()))
            .collect(),
    );

    let c = a.add(Matrix(b.rows().into_iter().map(|rq| r.mul_vector(rq)).collect()));

    assert!(same(&com_c, &scheme.commit_test(&c)))
}

#[test]
fn commit_of_bits_equals_commit_of_field_bits() {
    let mut rng = StdRng::seed_from_u64(9);
    let z: Vec<Fq> = (0..5).map(|_| Fq::random(&mut rng)).collect();
    let bits = Matrix::<bool>::from(&z);
    let as_field = Matrix(
        bits.clone()
            .rows()
            .into_iter()
            .map(|r| Vector(r.0.into_iter().map(Fq::from_bool).collect()))
            .collect(),
    );
    let scheme = CommitmentScheme::<GLFqConfig>::new("x".to_string());
    let c1 = scheme.commit(&bits);
    let c2 = scheme.commit_test(&as_field);
    assert_eq!(c1.0.len(), GL_KAPPA);
    assert!(same(&c1, &c2));
}

#[test]
fn rot_of_x_shifts_and_folds() {
    // rot(X): column j is X^(j+1); X^54 = -X^27 - 1
    let mut coeffs = vec![Fq::zero(); GL_D];
    coeffs[1] = Fq::one();
    let m = Vector(coeffs).rot();
    assert_eq!(m.0.len(), GL_D);
    assert_eq!(m.0[1].0[0].value(), 1);
    assert_eq!(m.0[2].0[1].value(), 1);
    // column 53 is X^54 = -1 - X^27
    assert_eq!(m.0[0].0[53].value(), GOLDILOCKS_MODULUS - 1);
    assert_eq!(m.0[27].0[53].value(), GOLDILOCKS_MODULUS - 1);
    assert_eq!(m.0[1].0[53].value(), 0);
}

#[test]
fn rot_of_one_is_identity() {
    let mut coeffs = vec![Fq::zero(); GL_D];
    coeffs[0] = Fq::one();
    let m = Vector(coeffs).rot();
    for i in 0..GL_D {
        for j in 0..GL_D {
            assert_eq!(m.0[i].0[j].value(), if i == j { 1 } else { 0 });
        }
    }
}

#[test]
fn challenge_coefficients_are_small_and_seeded() {
    let c = Vector::<Fq>::challenge("aaaaaa");
    let d = Vector::<Fq>::challenge("aaaaaa");
    assert_eq!(c.0.len(), GL_D);
    for (x, y) in c.0.iter().zip(d.0.iter()) {
        let v = x.value();
        assert!(v == 0 || v == 1 || v == 2 || v == GOLDILOCKS_MODULUS - 1);
        assert_eq!(x, y);
    }
}

#[test]
fn bits_of_field_elements() {
    let v = Vector::<bool>::from(&Fq::new(0b110));
    assert_eq!(v.0.len(), GL_D);
    assert_eq!(&v.0[..4], &[false, true, true, false]);
    let m = Matrix::<bool>::from(&[Fq::new(1), Fq::new(2)]);
    assert_eq!(m.0.len(), 2);
    assert!(m.0[0].0[0] && !m.0[0].0[1]);
    assert!(!m.0[1].0[0] && m.0[1].0[1]);
}

#[test]
fn reject_sampling_columns_are_nonzero() {
    let col = reject_sampling::<GLFqConfig, 54>("seed", 0, 0);
    assert_eq!(col.0.len(), 54);
    assert!(col.0.iter().all(|x| x.value() != 0));
}

#[test]
fn seed_digest_is_sha256() {
    let d = seed_digest("abc");
    assert_eq!(
        d[..8],
        [0xba, 0x78, 0x16, 0xbf, 0x8f, 0x01, 0xcf, 0xea]
    );
}

#[test]
fn commit_rows_match_commit_row() {
    let z = Matrix::<bool>::from(&[Fq::new(3), Fq::new(12345)]);
    let scheme = CommitmentScheme::<GLFqConfig>::new("rows".to_string());
    let full = scheme.commit(&z);
    for r in [0usize, 7, 15] {
        let row = scheme.commit_row(&z, r);
        assert_eq!(row.0, full.0[r].0);
    }
}

#[test]
fn rotations_multiply_commutatively_and_commute() {
    let mut rng = StdRng::seed_from_u64(77);
    let a = Vector((0..GL_D).map(|_| Fq::random(&mut rng)).collect::<Vec<_>>());
    let b = Vector((0..GL_D).map(|_| Fq::random(&mut rng)).collect::<Vec<_>>());
    let v = Vector((0..GL_D).map(|_| Fq::random(&mut rng)).collect::<Vec<_>>());
    let ab = a.rot().mul_vector(b.clone());
    let ba = b.rot().mul_vector(a.clone());
    assert_eq!(ab.0, ba.0);
    let abv = a.rot().mul_vector(b.rot().mul_vector(v.clone()));
    let bav = b.rot().mul_vector(a.rot().mul_vector(v.clone()));
    assert_eq!(abv.0, bav.0);
    // X * X^53 = X^54 = -X^27 - 1
    let mut x = vec![Fq::zero(); GL_D];
    x[1] = Fq::one();
    let mut x53 = vec![Fq::zero(); GL_D];
    x53[53] = Fq::one();
    let prod = Vector(x).rot().mul_vector(Vector(x53));
    for (k, c) in prod.0.iter().enumerate() {
        let expected = if k == 0 || k == 27 { GOLDILOCKS_MODULUS - 1 } else { 0 };
        assert_eq!(c.value(), expected);
    }
}

#[test]
fn zero_rows_add_nothing_to_a_commitment() {
    let mut rng = StdRng::seed_from_u64(5);
    let z: Vec<Fq> = (0..3).map(|_| Fq::random(&mut rng)).collect();
    let z = Matrix::<bool>::from(&z);
    let mut rows = z.clone().rows();
    rows.push(Vector(vec![false; GL_D]));
    rows.push(Vector(vec![false; GL_D]));
    let z2 = Matrix(rows);
    let scheme = CommitmentScheme::<GLFqConfig>::new("seed".to_string());
    assert!(same(&scheme.commit(&z), &scheme.commit(&z2)));
    let zero = Matrix(vec![Vector(vec![false; GL_D])]);
    let com = scheme.commit(&zero);
    assert_eq!(com.0.len(), GL_KAPPA);
    assert!(com.0.iter().all(|row| row.0.iter().all(|c| c.value() == 0)));
}

#[test]
fn challenge_draws_map_to_coefficients() {
    let expected = [GOLDILOCKS_MODULUS - 1, 0, 1, 2];
    for (draw, want) in expected.iter().enumerate() {
        assert_eq!(challenge_coeff(draw as i32).value(), *want);
    }
}

#[test]
fn commit_with_columns_sums_rotated_columns() {
    // one column: X^0 = 1, witness row with bit 0 set gives the column itself
    let mut one = vec![Fq::zero(); GL_D];
    one[0] = Fq::one();
    let mut col = vec![Fq::zero(); GL_D];
    col[3] = Fq::new(7);
    col[10] = Fq::new(9);
    let mut bits = vec![false; GL_D];
    bits[0] = true;
    let z = Matrix(vec![Vector(bits)]);
    let res = commit_with_columns(&vec![Vector(col.clone())], &z);
    assert_eq!(res.0, col);
    // two columns add up
    let z2 = Matrix(vec![z.0[0].clone(), z.0[0].clone()]);
    let res2 = commit_with_columns(&vec![Vector(col.clone()), Vector(one)], &z2);
    let mut want = col;
    want[0] = Fq::one();
    assert_eq!(res2.0, want);
}
