use ark_std::rand::rngs::StdRng;
use ark_std::rand::SeedableRng;
use matrix_commitment_scheme::field::{Fq, GLFq, GLFqConfig, ALMOST_GOLDILOCKS_MODULUS};
use matrix_commitment_scheme::fq2::Fq2;

fn rand_fq2(rng: &mut StdRng) -> Fq2<matrix_commitment_scheme::field::FqConfig> {
    Fq2::new(Fq::random(rng), Fq::random(rng))
}

fn fq2(a: u64, b: u64) -> Fq2<matrix_commitment_scheme::field::FqConfig> {
    Fq2::new(Fq::new(a), Fq::new(b))
}

#[test]
fn fq2_add_sub_roundtrip() {
    let mut rng = StdRng::seed_from_u64(1);
    let a = rand_fq2(&mut rng);
    let b = rand_fq2(&mut rng);

    let sum = a.add(&b);
    let diff = sum.sub(&b);
    assert_eq!(diff, a);

    let mut assign_sum = a;
    assign_sum.add_assign(&b);
    assert_eq!(assign_sum, sum);

    let mut assign_diff = sum;
    assign_diff.sub_assign(&b);
    assert_eq!(assign_diff, a);
}

#[test]
fn fq2_mul_matches_formula() {
    let mut rng = StdRng::seed_from_u64(2);
    let a = rand_fq2(&mut rng);
    let b = rand_fq2(&mut rng);

    let prod = a.mul(&b);

    let expected = {
        let (ac, bd) = (a.c0.mul(&b.c0), a.c1.mul(&b.c1));
        let three_bd = bd.add(&bd).add(&bd);
        let c0 = ac.add(&three_bd);
        let c1 = a.c0.add(&a.c1).mul(&b.c0.add(&b.c1)).sub(&ac).sub(&bd);
        Fq2::new(c0, c1)
    };
    assert_eq!(prod, expected);

    let mut assign = a;
    assign.mul_assign(&b);
    assert_eq!(assign, prod);
}

#[test]
fn fq2_mul_small_values() {
    // (1 + 2u)(3 + 4u) = (3 + 3*8) + (4 + 6)u = 27 + 10u
    let prod = fq2(1, 2).mul(&fq2(3, 4));
    assert_eq!(prod, fq2(27, 10));
    // u * u = 3
    assert_eq!(fq2(0, 1).mul(&fq2(0, 1)), fq2(3, 0));
}

#[test]
fn fq2_inverse_exists_for_nonzero() {
    let mut rng = StdRng::seed_from_u64(3);
    for _ in 0..32 {
        let candidate = loop {
            let a = rand_fq2(&mut rng);
            if a != Fq2::zero() {
                break a;
            }
        };
        let inv = candidate.inv().expect("inverse should exist");
        let check = candidate.mul(&inv);
        assert_eq!(check, Fq2::one());
    }
}

#[test]
fn fq2_inverse_of_zero_is_none() {
    assert!(Fq2::<matrix_commitment_scheme::field::FqConfig>::zero().inv().is_none());
}

#[test]
fn fq2_pow_matches_repeated_mul() {
    let mut rng = StdRng::seed_from_u64(4);
    let base = rand_fq2(&mut rng);
    let mut manual = Fq2::one();
    for _ in 0..5 {
        manual.mul_assign(&base);
    }
    assert_eq!(base.pow_u64(5), manual);
    assert_eq!(base.pow_u64(0), Fq2::one());
    assert_eq!(base.pow_u64(1), base);
}

#[test]
fn fq2_pow_over_several_words() {
    // exponent 2^64 + 3 given as two words
    let base = fq2(2, 1);
    let lhs = base.pow(&[3, 1]);
    let mut x = base;
    for _ in 0..64 {
        x = x.mul(&x);
    }
    let rhs = x.mul(&base.pow_u64(3));
    assert_eq!(lhs, rhs);
    assert_eq!(base.pow(&[]), Fq2::one());
}

#[test]
fn fq2_fermat_on_base_field_elements() {
    // a^(p-1) = 1 in the base field for nonzero a.
    let a = Fq2::from_base(Fq::new(5));
    assert_eq!(a.pow_u64(ALMOST_GOLDILOCKS_MODULUS - 1), Fq2::one());
}

#[test]
fn fq2_sum_trait_accumulates() {
    let mut rng = StdRng::seed_from_u64(5);
    let values: Vec<_> = (0..16).map(|_| rand_fq2(&mut rng)).collect();
    let iter_sum = Fq2::sum(&values);
    let manual = values.iter().fold(Fq2::zero(), |acc, value| acc.add(value));
    assert_eq!(iter_sum, manual);
}

#[test]
fn fq2_constants_and_scalars() {
    assert_eq!(Fq2::<matrix_commitment_scheme::field::FqConfig>::two(), fq2(2, 0));
    assert_eq!(fq2(3, 4).neg(), fq2(ALMOST_GOLDILOCKS_MODULUS - 3, ALMOST_GOLDILOCKS_MODULUS - 4));
    assert_eq!(fq2(3, 4).mul_base(&Fq::new(5)), fq2(15, 20));
    let mut x = fq2(3, 4);
    x.mul_base_assign(&Fq::new(2));
    assert_eq!(x, fq2(6, 8));
    assert_eq!(Fq2::from_base(Fq::new(9)), fq2(9, 0));
}

#[test]
fn goldilocks_extension_element_with_zero_norm_has_no_inverse() {
    // 281474976579584^2 = 3 modulo the Goldilocks prime, so s + u has norm 0.
    let x = Fq2::<GLFqConfig>::new(GLFq::new(281474976579584), GLFq::one());
    assert!(x.inv().is_none());
    let y = Fq2::<GLFqConfig>::new(GLFq::new(2), GLFq::one());
    let yi = y.inv().expect("norm 1 is invertible");
    assert_eq!(y.mul(&yi), Fq2::<GLFqConfig>::one());
}

#[test]
fn almost_goldilocks_nonzero_elements_invert() {
    for (a, b) in [(0u64, 1u64), (1, 0), (5, 7), (ALMOST_GOLDILOCKS_MODULUS - 1, 3)] {
        let x = fq2(a, b);
        let xi = x.inv().expect("every nonzero element is invertible");
        assert_eq!(x.mul(&xi), Fq2::one());
        assert_eq!(xi.mul(&x), Fq2::one());
    }
}

#[test]
fn fq2_pow_ignores_high_zero_words_and_splits_two_words() {
    let x = fq2(5, 9);
    assert_eq!(x.pow(&[7u64, 0u64]), x.pow(&[7u64]));
    assert_eq!(x.pow(&[]), Fq2::one());
    assert_eq!(x.pow(&[11u64]), x.pow_u64(11));
    let (lo, hi) = (3u64, 2u64);
    let split = x.pow_u64(lo).mul(&x.pow_u64(hi).pow(&[0u64, 1u64]));
    assert_eq!(x.pow(&[lo, hi]), split);
}

#[test]
fn fq2_inverse_is_conjugate_over_norm() {
    let x = fq2(5, 7);
    let y = x.inv().expect("invertible");
    let a2 = x.c0.mul(&x.c0);
    let b2 = x.c1.mul(&x.c1);
    let norm = a2.sub(&b2.add(&b2).add(&b2));
    let dinv = norm.inverse().expect("nonzero norm");
    assert_eq!(y, Fq2::new(x.c0.mul(&dinv), x.c1.neg().mul(&dinv)));
    assert_eq!(y.mul(&x), Fq2::one());
    assert_eq!(x.mul(&y), Fq2::one());
}
