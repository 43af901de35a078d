use ark_std::rand::rngs::StdRng;
use ark_std::rand::SeedableRng;
use matrix_commitment_scheme::field::{
    AGFq, Fq, GLFq, ALMOST_GOLDILOCKS_MODULUS, GOLDILOCKS_MODULUS,
};

#[test]
fn field_new_reduces_modulo_p() {
    assert_eq!(GLFq::new(GOLDILOCKS_MODULUS).value(), 0);
    assert_eq!(GLFq::new(GOLDILOCKS_MODULUS + 5).value(), 5);
    assert_eq!(AGFq::new(u64::MAX).value(), u64::MAX - ALMOST_GOLDILOCKS_MODULUS);
    assert_eq!(Fq::new(7).value(), 7);
}

#[test]
fn field_add_sub_neg_mul_exact_values() {
    let p = GOLDILOCKS_MODULUS;
    let a = GLFq::new(p - 1);
    let b = GLFq::new(3);
    assert_eq!(a.add(&b).value(), 2);
    assert_eq!(b.sub(&a).value(), 4);
    assert_eq!(a.sub(&b).value(), p - 4);
    assert_eq!(b.neg().value(), p - 3);
    assert_eq!(GLFq::zero().neg().value(), 0);
    // (p - 1)^2 = 1 (mod p)
    assert_eq!(a.mul(&a).value(), 1);
    assert_eq!(GLFq::new(1 << 32).mul(&GLFq::new(1 << 32)).value(), (1u64 << 32) - 1);
}

#[test]
fn field_inverse_of_two_and_of_zero() {
    let two = GLFq::new(2);
    let inv = two.inverse().expect("two is invertible");
    assert_eq!(inv.value(), (GOLDILOCKS_MODULUS + 1) / 2);
    assert_eq!(two.mul(&inv).value(), 1);
    assert!(GLFq::zero().inverse().is_none());
    let x = AGFq::new(123456789);
    let xi = x.inverse().unwrap();
    assert_eq!(x.mul(&xi).value(), 1);
}

#[test]
fn field_inverse_of_minus_one_is_itself() {
    let m = GLFq::one().neg();
    assert_eq!(m.inverse().unwrap().value(), GOLDILOCKS_MODULUS - 1);
}

#[test]
fn field_bits_and_booleans() {
    let v = GLFq::new(0b1011);
    assert!(v.get_bit(0));
    assert!(v.get_bit(1));
    assert!(!v.get_bit(2));
    assert!(v.get_bit(3));
    assert!(!v.get_bit(63));
    assert!(GLFq::new(1u64 << 63).get_bit(63));
    assert_eq!(GLFq::from_bool(true).value(), 1);
    assert_eq!(GLFq::from_bool(false).value(), 0);
    assert!(GLFq::zero().is_zero());
    assert!(!GLFq::one().is_zero());
}

#[test]
fn field_random_elements_are_canonical() {
    let mut rng = StdRng::seed_from_u64(7);
    for _ in 0..100 {
        let x = GLFq::random(&mut rng);
        assert!(x.value() < GOLDILOCKS_MODULUS);
        let y = AGFq::random_nonzero(&mut rng);
        assert!(y.value() != 0 && y.value() < ALMOST_GOLDILOCKS_MODULUS);
    }
}

#[test]
fn field_equality_compares_residues() {
    assert_eq!(GLFq::new(5), GLFq::new(GOLDILOCKS_MODULUS + 5));
    assert_ne!(GLFq::new(5), GLFq::new(6));
}

#[test]
fn field_random_draws_vary() {
    let mut rng = StdRng::seed_from_u64(99);
    let draws: Vec<u64> = (0..20).map(|_| GLFq::random(&mut rng).value()).collect();
    assert!(draws.iter().any(|&x| x != draws[0]));
    let nz: Vec<u64> = (0..20).map(|_| GLFq::random_nonzero(&mut rng).value()).collect();
    assert!(nz.iter().any(|&x| x != 1));
}
