use ark_std::rand::rngs::StdRng;
use ark_std::rand::SeedableRng;
use matrix_commitment_scheme::field::{Fq, FqConfig, ALMOST_GOLDILOCKS_MODULUS};
use matrix_commitment_scheme::fq2::Fq2;
use matrix_commitment_scheme::mle::{bits, eq, mle};

type E = Fq2<FqConfig>;

fn fq2(a: u64, b: u64) -> E {
    Fq2::new(Fq::new(a), Fq::new(b))
}

#[test]
fn mle_interpolates_on_the_hypercube() {
    let mut rng = StdRng::seed_from_u64(3);
    let values: Vec<E> = (0..8).map(|_| Fq2::new(Fq::random(&mut rng), Fq::random(&mut rng))).collect();
    let f = mle(values.clone());
    for (j, v) in values.iter().enumerate() {
        let point = bits::<FqConfig>(j, 3);
        assert_eq!(f.evaluate(&point), *v);
    }
}

#[test]
fn mle_of_linear_function() {
    // values [a, b] give a(1 - x) + b x: at x = 2 that is 2b - a
    let f = mle(vec![fq2(5, 0), fq2(9, 0)]);
    assert_eq!(f.evaluate(&[fq2(2, 0)]), fq2(13, 0));
    let g = mle(vec![fq2(7, 1)]);
    assert_eq!(g.evaluate(&[]), fq2(7, 1));
}

#[test]
fn eq_and_bits() {
    let b = bits::<FqConfig>(0b101, 3);
    assert_eq!(b, vec![fq2(1, 0), fq2(0, 0), fq2(1, 0)]);
    assert_eq!(eq(&b, &b), Fq2::one());
    let c = bits::<FqConfig>(0b100, 3);
    assert_eq!(eq(&b, &c), Fq2::zero());
    // eq(x, e) for one coordinate: e x + (1 - x)(1 - e); x = 3, e = 2 gives 6 + 2 = 8
    assert_eq!(eq(&[fq2(3, 0)], &[fq2(2, 0)]), fq2(8, 0));
    assert_eq!(eq::<FqConfig>(&[], &[]), Fq2::one());
    let _ = ALMOST_GOLDILOCKS_MODULUS;
}
