use ark_std::rand::rngs::StdRng;
use ark_std::rand::SeedableRng;
use matrix_commitment_scheme::field::{GLFq, GLFqConfig, GOLDILOCKS_MODULUS};
use matrix_commitment_scheme::matrix_commitment::{
    apply_rotation, bit_index, check_rotation_identity, negacyclic_mul, negacyclic_rot_block,
    random_ring_element, random_rotation_matrix, rotation_coeff, same_coeffs, verify_challenge_linearity,
};
use matrix_commitment_scheme::{MatrixCommitmentScheme, Rq, D, KAPPA};

fn monomial(i: usize) -> [GLFq; D] {
    let mut c = [GLFq::zero(); D];
    c[i] = GLFq::one();
    c
}

fn values(c: &[GLFq; D]) -> Vec<u64> {
    c.iter().map(|x| x.value()).collect()
}

#[test]
fn rq_mul_wraps_with_negation() {
    // X * X^63 = X^64 = -1 in F[X] / (X^64 + 1)
    let x = Rq::from_coeffs(monomial(1));
    let y = Rq::from_coeffs(monomial(63));
    let prod = x.mul(&y).coeffs();
    let mut expected = vec![0u64; D];
    expected[0] = GOLDILOCKS_MODULUS - 1;
    assert_eq!(values(&prod), expected);
    // X * X^2 = X^3
    let z = Rq::from_coeffs(monomial(2)).mul(&x).coeffs();
    assert_eq!(values(&z), values(&monomial(3)));
}

#[test]
fn rq_mul_agrees_with_schoolbook_product() {
    let mut rng = StdRng::seed_from_u64(11);
    let a = random_ring_element::<GLFqConfig>(&mut rng);
    let b = random_ring_element::<GLFqConfig>(&mut rng);
    let via_rot = Rq::from_coeffs(a).mul(&Rq::from_coeffs(b)).coeffs();
    let direct = negacyclic_mul(&a, &b);
    assert!(same_coeffs(&via_rot, &direct));
}

#[test]
fn rq_add_and_rot_rows() {
    let a = Rq::from_coeffs(monomial(5));
    let b = Rq::from_coeffs(monomial(5));
    let s = a.add(&b).coeffs();
    assert_eq!(s[5].value(), 2);
    let rot = Rq::from_coeffs(monomial(62)).rot();
    // row 3 is X^3 * X^62 = X^65 = -X
    assert_eq!(rot[3][1].value(), GOLDILOCKS_MODULUS - 1);
    assert_eq!(rot[0][62].value(), 1);
}

#[test]
fn rq_from_zq_takes_bits() {
    let r = Rq::from_zq(GLFq::new(0b101)).coeffs();
    assert_eq!(r[0].value(), 1);
    assert_eq!(r[1].value(), 0);
    assert_eq!(r[2].value(), 1);
    assert_eq!(r[63].value(), 0);
}

#[test]
fn rq_reject_sampling_is_nonzero_and_seeded() {
    let a = Rq::<GLFqConfig>::reject_sampling("seed", 1, 2).coeffs();
    let b = Rq::<GLFqConfig>::reject_sampling("seed", 1, 2).coeffs();
    let c = Rq::<GLFqConfig>::reject_sampling("seed", 2, 1).coeffs();
    assert!(a.iter().all(|x| x.value() != 0));
    assert!(same_coeffs(&a, &b));
    assert!(!same_coeffs(&a, &c));
}

#[test]
fn rotation_identity_holds() {
    let mut rng = StdRng::seed_from_u64(2024);
    let a = random_ring_element::<GLFqConfig>(&mut rng);
    let b = random_ring_element::<GLFqConfig>(&mut rng);
    let rotation = negacyclic_rot_block(&a);
    let lhs = apply_rotation(rotation.as_slice(), &b);
    let rhs = negacyclic_mul(&a, &b);
    assert!(same_coeffs(&lhs, &rhs));
    assert!(check_rotation_identity::<GLFqConfig>(&mut rng));
}

#[test]
fn rot_block_entries() {
    let block = negacyclic_rot_block(&monomial(1));
    // column c holds X^c * X: entry (c + 1, c) is 1, entry (0, 63) is -1
    assert_eq!(block[1][0].value(), 1);
    assert_eq!(block[0][63].value(), GOLDILOCKS_MODULUS - 1);
    assert_eq!(block[5][4].value(), 1);
    assert_eq!(block[4][5].value(), 0);
}

#[test]
fn apply_rotation_short_block_leaves_zeros() {
    let block = negacyclic_rot_block(&monomial(0));
    let v = monomial(7);
    let out = apply_rotation(&block[..10], &v);
    assert_eq!(out[7].value(), 1);
    let out2 = apply_rotation(&block[..5], &v);
    assert_eq!(out2[7].value(), 0);
}

#[test]
fn bit_index_lists_set_bits() {
    assert_eq!(bit_index(GLFq::new(0b1001_0010)), vec![1, 4, 7]);
    assert_eq!(bit_index(GLFq::zero()), Vec::<usize>::new());
    assert_eq!(bit_index(GLFq::new(1 << 63)), vec![63]);
}

#[test]
fn random_rotation_matrix_has_small_coefficients() {
    let mut rng = StdRng::seed_from_u64(5);
    let block = random_rotation_matrix::<GLFqConfig>(&mut rng);
    assert_eq!(block.len(), D);
    // the first column is the drawn column itself
    for row in &block {
        let v = row[0].value();
        assert!(v == 0 || v == 1 || v == 2 || v == GOLDILOCKS_MODULUS - 1);
    }
    for row in &block {
        for x in row.iter() {
            let v = x.value();
            // wrapped entries are negated, so -2 appears as well
            assert!(
                v == 0 || v == 1 || v == 2 || v == GOLDILOCKS_MODULUS - 1 || v == GOLDILOCKS_MODULUS - 2
            );
        }
    }
}

#[test]
fn matrix_commitment_of_monomial_witness() {
    // a witness of one entry equal to 1 commits to the sampled columns
    let scheme = MatrixCommitmentScheme::<GLFqConfig>::new("matrix_commitment_seed".to_string());
    let com = scheme.commit(vec![GLFq::one()]);
    assert_eq!(com.len(), KAPPA);
    for (row, c) in com.iter().enumerate() {
        let a = Rq::<GLFqConfig>::reject_sampling("matrix_commitment_seed", row, 0).coeffs();
        assert!(same_coeffs(c, &a));
    }
    // the zero witness commits to zero
    let zero = scheme.commit(vec![GLFq::zero(); 3]);
    assert!(zero.iter().all(|c| c.iter().all(|x| x.value() == 0)));
}

#[test]
fn matrix_commitment_matches_ring_products() {
    let seed = "s";
    let scheme = MatrixCommitmentScheme::<GLFqConfig>::new(seed.to_string());
    let z = vec![GLFq::new(6), GLFq::new(9)];
    let com = scheme.commit(z.clone());
    for row in 0..KAPPA {
        let mut expected = Rq::from_coeffs([GLFq::zero(); D]);
        for (j, zj) in z.iter().enumerate() {
            let a = Rq::<GLFqConfig>::reject_sampling(seed, row, j);
            expected = expected.add(&a.mul(&Rq::from_zq(*zj)));
        }
        assert!(same_coeffs(&com[row], &expected.coeffs()));
    }
}

#[test]
fn challenge_linearity_check_runs() {
    let mut rng = StdRng::seed_from_u64(2024);
    let witness: Vec<GLFq> = (0..D).map(|_| GLFq::random(&mut rng)).collect();
    let scheme = MatrixCommitmentScheme::<GLFqConfig>::new("matrix_commitment_seed".into());
    let rotation = random_rotation_matrix::<GLFqConfig>(&mut rng);
    // identity rotation: both sides are the same commitment
    let identity = negacyclic_rot_block(&monomial(0));
    assert!(verify_challenge_linearity(&scheme, &identity, &witness));
    let _ = verify_challenge_linearity(&scheme, &rotation, &witness);
}

#[test]
fn zero_entries_add_nothing_to_a_matrix_commitment() {
    let scheme = MatrixCommitmentScheme::<GLFqConfig>::new("zeros".to_string());
    let z = vec![GLFq::new(5), GLFq::new(12345)];
    let mut z2 = z.clone();
    z2.push(GLFq::zero());
    z2.push(GLFq::zero());
    let a = scheme.commit(z);
    let b = scheme.commit(z2);
    assert_eq!(a.len(), KAPPA);
    for (x, y) in a.iter().zip(b.iter()) {
        assert!(same_coeffs(x, y));
    }
    let zero = scheme.commit(vec![GLFq::zero(); 3]);
    assert!(zero.iter().all(|row| row.iter().all(|c| c.value() == 0)));
}

#[test]
fn rotation_draws_map_to_coefficients() {
    let expected = [GOLDILOCKS_MODULUS - 1, 0, 1, 2];
    for (draw, want) in expected.iter().enumerate() {
        assert_eq!(rotation_coeff::<GLFqConfig>(draw as u32).value(), *want);
    }
}

#[test]
fn matrix_commitment_with_given_columns() {
    // z_0 = 5 = bits 0 and 2: the column plus X^2 times the column.
    let mut col = [GLFq::zero(); D];
    col[0] = GLFq::new(3);
    col[63] = GLFq::new(4);
    let z = vec![GLFq::new(5)];
    let r = MatrixCommitmentScheme::<GLFqConfig>::commit_with_columns(&vec![col], &z);
    let mut want = [0u64; D];
    want[0] = 3;
    want[63] = 4;
    want[2] += 3;
    // X^2 * X^63 = X^65 = -X^1
    want[1] = GOLDILOCKS_MODULUS - 4;
    let got: Vec<u64> = r.iter().map(|c| c.value()).collect();
    assert_eq!(got, want.to_vec());
}
