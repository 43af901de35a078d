use matrix_commitment_scheme::field::{Fq, FqConfig, ALMOST_GOLDILOCKS_MODULUS};
use matrix_commitment_scheme::fq2::Fq2;
use matrix_commitment_scheme::reduction::ccs::{all_bool_patterns, coeffs_from_evaluation, powers_of, r_hat};
use matrix_commitment_scheme::reduction::random_linear_combination::challenge;
use matrix_commitment_scheme::reduction::Transcript;

type E = Fq2<FqConfig>;

fn fq2(a: u64, b: u64) -> E {
    Fq2::new(Fq::new(a), Fq::new(b))
}

#[test]
fn powers_of_gamma() {
    let p = powers_of(fq2(3, 0), 4);
    assert_eq!(p, vec![fq2(1, 0), fq2(3, 0), fq2(9, 0), fq2(27, 0)]);
    assert!(powers_of(fq2(3, 0), 0).is_empty());
}

#[test]
fn round_polynomial_from_two_evaluations() {
    let (a, b) = coeffs_from_evaluation(fq2(4, 1), fq2(10, 3));
    assert_eq!(a, fq2(6, 2));
    assert_eq!(b, fq2(4, 1));
    // s(1) = a + b
    assert_eq!(a.add(&b), fq2(10, 3));
    let (a2, _) = coeffs_from_evaluation(fq2(5, 0), fq2(2, 0));
    assert_eq!(a2, fq2(ALMOST_GOLDILOCKS_MODULUS - 3, 0));
}

#[test]
fn r_hat_tensor_and_sum() {
    let r = [fq2(2, 0), fq2(5, 0)];
    let v = r_hat(&r);
    // [2*5, 2*(1-5), (1-2)*5, (1-2)*(1-5)] = [10, -8, -5, 4]
    let p = ALMOST_GOLDILOCKS_MODULUS;
    assert_eq!(v, vec![fq2(10, 0), fq2(p - 8, 0), fq2(p - 5, 0), fq2(4, 0)]);
    assert_eq!(Fq2::sum(&v), Fq2::one());
    assert_eq!(r_hat::<FqConfig>(&[]), vec![Fq2::one()]);
    let w = r_hat(&[fq2(7, 3), fq2(1, 9), fq2(4, 4)]);
    assert_eq!(w.len(), 8);
    assert_eq!(Fq2::sum(&w), Fq2::one());
}

#[test]
fn bool_patterns_last_coordinate_fastest() {
    let pats = all_bool_patterns::<FqConfig>(2);
    let z = fq2(0, 0);
    let o = fq2(1, 0);
    assert_eq!(pats, vec![vec![z, z], vec![z, o], vec![o, z], vec![o, o]]);
    assert_eq!(all_bool_patterns::<FqConfig>(0), vec![Vec::<E>::new()]);
    assert_eq!(all_bool_patterns::<FqConfig>(5).len(), 32);
}

#[test]
fn transcript_draws_challenges() {
    let mut t = Transcript::<FqConfig>::new("somthing seeed");
    let v = t.get_vec(5);
    assert_eq!(v.len(), 5);
    let mut t2 = Transcript::<FqConfig>::new("somthing seeed");
    assert_eq!(t2.get_vec(5), v);
    let mut out = vec![Fq2::zero(); 3];
    t.fill(&mut out);
    assert_eq!(out.len(), 3);
    let _ = t.get();
}

#[test]
fn random_linear_combination_challenges_are_empty() {
    assert!(challenge::<E>().is_empty());
}
