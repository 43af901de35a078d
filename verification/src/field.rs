//! Prime fields `Z/pZ` with a modulus below `2^64`, stored as canonical
//! `u64` representatives.
use crate::certificates::{lemma_almost_goldilocks_invertible, lemma_goldilocks_invertible};
use crate::prime::is_prime;
use crate::rng::rng_gen_range;
use ark_std::rand::rngs::StdRng;
use core::marker::PhantomData;
use vstd::arithmetic::div_mod::*;
use vstd::arithmetic::mul::*;
use vstd::arithmetic::power2::*;
use vstd::prelude::*;
use vstd::std_specs::cmp::PartialEqSpecImpl;

verus! {

/// A 64-bit modulus `p` (`2^63 < p < 2^64`) that fixes the field `Z/pZ`.
pub trait FieldConfig: Copy {
    /// The modulus as a mathematical integer.
    spec fn spec_modulus() -> nat;

    /// Every modulus used here has exactly 64 bits.
    proof fn lemma_modulus_range()
        ensures
            2 <= Self::spec_modulus() <= u64::MAX,
            0x8000000000000000 < Self::spec_modulus(),
    ;

    fn modulus() -> (p: u64)
        ensures
            p as nat == Self::spec_modulus(),
    ;

    /// The modulus is prime: every nonzero residue has an inverse.
    proof fn lemma_modulus_prime()
        ensures
            is_prime(Self::spec_modulus()),
            forall|a: nat| 0 < a < Self::spec_modulus() ==> #[trigger] is_invertible_mod(a, Self::spec_modulus()),
    ;
}

/// The bit length of every configured modulus.
pub const MODULUS_BIT_SIZE: usize = 64;

/// The Goldilocks modulus `2^64 - 2^32 + 1`.
pub const GOLDILOCKS_MODULUS: u64 = 18446744069414584321u64;

/// The "almost Goldilocks" modulus `(2^64 - 2^32 + 1) - 32`.
pub const ALMOST_GOLDILOCKS_MODULUS: u64 = 18446744069414584289u64;

/// Configuration of the almost Goldilocks field.
#[derive(Clone, Copy, Debug, PartialEq, Eq, Structural)]
pub struct FqConfig;

/// Configuration of the almost Goldilocks field.
#[derive(Clone, Copy, Debug, PartialEq, Eq, Structural)]
pub struct AGFqConfig;

/// Configuration of the Goldilocks field.
#[derive(Clone, Copy, Debug, PartialEq, Eq, Structural)]
pub struct GLFqConfig;

impl FieldConfig for FqConfig {
    open spec fn spec_modulus() -> nat {
        ALMOST_GOLDILOCKS_MODULUS as nat
    }

    proof fn lemma_modulus_range() {
    }

    fn modulus() -> (p: u64) {
        ALMOST_GOLDILOCKS_MODULUS
    }

    proof fn lemma_modulus_prime() {
        lemma_almost_goldilocks_invertible();
    }
}

impl FieldConfig for AGFqConfig {
    open spec fn spec_modulus() -> nat {
        ALMOST_GOLDILOCKS_MODULUS as nat
    }

    proof fn lemma_modulus_range() {
    }

    fn modulus() -> (p: u64) {
        ALMOST_GOLDILOCKS_MODULUS
    }

    proof fn lemma_modulus_prime() {
        lemma_almost_goldilocks_invertible();
    }
}

impl FieldConfig for GLFqConfig {
    open spec fn spec_modulus() -> nat {
        GOLDILOCKS_MODULUS as nat
    }

    proof fn lemma_modulus_range() {
    }

    fn modulus() -> (p: u64) {
        GOLDILOCKS_MODULUS
    }

    proof fn lemma_modulus_prime() {
        lemma_goldilocks_invertible();
    }
}

/// An element of `Z/pZ`, held as its canonical representative in `[0, p)`.
#[derive(Copy, Debug, Eq)]
pub struct Fp<C: FieldConfig> {
    val: u64,
    config: PhantomData<C>,
}

/// The almost Goldilocks field.
pub type Fq = Fp<FqConfig>;

/// The almost Goldilocks field.
pub type AlmostGoldilocksField = Fp<AGFqConfig>;

/// The almost Goldilocks field.
pub type AGFq = AlmostGoldilocksField;

/// The Goldilocks field.
pub type GLFq = Fp<GLFqConfig>;

/// Bit `i` (counting from the least significant bit) of `v`.
pub open spec fn bit_of(v: nat, i: nat) -> bool {
    (v / pow2(i)) % 2 == 1
}

/// The inverse of `a` modulo `p` in `[0, p)`, where one exists.
pub open spec fn inverse_mod(a: nat, p: nat) -> nat {
    choose|w: nat| w < p && #[trigger] ((a * w) % p) == 1
}

/// An inverse below `p` is unique: it is `inverse_mod(a, p)`.
pub proof fn lemma_inverse_mod_unique(a: nat, p: nat, w: nat)
    requires
        p >= 2,
        w < p,
        (a * w) % p == 1,
    ensures
        inverse_mod(a, p) == w,
{
    let v = inverse_mod(a, p);
    assert(v < p && ((a * v) % p) == 1);
    let pi = p as int;
    // v = v * (a w) = (a v) * w = w  (mod p)
    lemma_mul_mod_noop_right(v as int, (a * w) as int, pi);
    lemma_mul_mod_noop_left((a * v) as int, w as int, pi);
    assert((v as int) * ((a * w) as int) == ((a * v) as int) * (w as int)) by (nonlinear_arith);
    lemma_small_mod(v, p);
    lemma_small_mod(w, p);
    assert(v as int * 1 == v);
    assert(1 * (w as int) == w);
}

/// `a` has a multiplicative inverse modulo `p`.
pub open spec fn is_invertible_mod(a: nat, p: nat) -> bool {
    exists|w: nat| #[trigger] ((a * w) % p) == 1
}

impl<C: FieldConfig> View for Fp<C> {
    type V = nat;

    closed spec fn view(&self) -> nat {
        self.val as nat
    }
}

impl<C: FieldConfig> Fp<C> {
    #[verifier::type_invariant]
    spec fn is_canonical(self) -> bool {
        self.val < C::spec_modulus()
    }

    /// The element `v mod p`.
    pub fn new(v: u64) -> (r: Self)
        ensures
            r@ == v as nat % C::spec_modulus(),
    {
        proof {
            C::lemma_modulus_range();
        }
        let p = C::modulus();
        Fp { val: v % p, config: PhantomData }
    }

    pub fn zero() -> (r: Self)
        ensures
            r@ == 0,
    {
        proof {
            C::lemma_modulus_range();
        }
        Fp { val: 0, config: PhantomData }
    }

    pub fn one() -> (r: Self)
        ensures
            r@ == 1,
    {
        proof {
            C::lemma_modulus_range();
        }
        Fp { val: 1, config: PhantomData }
    }

    /// `0` for `false` and `1` for `true`.
    pub fn from_bool(b: bool) -> (r: Self)
        ensures
            r@ == (if b { 1nat } else { 0nat }),
    {
        if b {
            Self::one()
        } else {
            Self::zero()
        }
    }

    /// A uniformly drawn element of the field.
    pub fn random(rng: &mut StdRng) -> (r: Self)
        ensures
            r@ < C::spec_modulus(),
    {
        proof {
            C::lemma_modulus_range();
        }
        let v = rng_gen_range(rng, 0, C::modulus());
        Fp { val: v, config: PhantomData }
    }

    /// A uniformly drawn nonzero element of the field.
    pub fn random_nonzero(rng: &mut StdRng) -> (r: Self)
        ensures
            0 < r@ < C::spec_modulus(),
    {
        proof {
            C::lemma_modulus_range();
        }
        let v = rng_gen_range(rng, 1, C::modulus());
        Fp { val: v, config: PhantomData }
    }

    /// The canonical representative in `[0, p)`.
    pub fn value(&self) -> (v: u64)
        ensures
            v as nat == self@,
            self@ < C::spec_modulus(),
    {
        proof {
            use_type_invariant(self);
        }
        self.val
    }

    pub fn is_zero(&self) -> (b: bool)
        ensures
            b == (self@ == 0),
    {
        self.val == 0
    }

    /// Bit `i` of the canonical representative.
    pub fn get_bit(&self, i: usize) -> (b: bool)
        requires
            i < 64,
        ensures
            b == bit_of(self@, i as nat),
    {
        let v = self.val;
        let shifted = v >> (i as u64);
        proof {
            vstd::bits::lemma_u64_shr_is_div(v, i as u64);
            assert(shifted & 1 == shifted % 2) by (bit_vector);
        }
        shifted & 1 == 1
    }

    pub fn add(&self, rhs: &Self) -> (r: Self)
        ensures
            r@ == (self@ + rhs@) % C::spec_modulus(),
    {
        proof {
            use_type_invariant(self);
            use_type_invariant(rhs);
            C::lemma_modulus_range();
        }
        let p = C::modulus();
        let s: u128 = self.val as u128 + rhs.val as u128;
        let r = (s % (p as u128)) as u64;
        Fp { val: r, config: PhantomData }
    }

    pub fn sub(&self, rhs: &Self) -> (r: Self)
        ensures
            r@ == (self@ - rhs@) % (C::spec_modulus() as int),
    {
        proof {
            use_type_invariant(self);
            use_type_invariant(rhs);
            C::lemma_modulus_range();
        }
        let p = C::modulus();
        let s: u128 = self.val as u128 + (p - rhs.val) as u128;
        let r = (s % (p as u128)) as u64;
        proof {
            let pi = p as int;
            lemma_mod_add_multiples_vanish(self@ - rhs@, pi);
        }
        Fp { val: r, config: PhantomData }
    }

    pub fn neg(&self) -> (r: Self)
        ensures
            r@ == (-(self@ as int)) % (C::spec_modulus() as int),
    {
        let z = Self::zero();
        z.sub(self)
    }

    pub fn mul(&self, rhs: &Self) -> (r: Self)
        ensures
            r@ == (self@ * rhs@) % C::spec_modulus(),
    {
        proof {
            use_type_invariant(self);
            use_type_invariant(rhs);
            C::lemma_modulus_range();
            lemma_mul_upper_bound(self.val as int, u64::MAX as int, rhs.val as int, u64::MAX as int);
        }
        let p = C::modulus();
        let s: u128 = self.val as u128 * rhs.val as u128;
        let r = (s % (p as u128)) as u64;
        Fp { val: r, config: PhantomData }
    }

    /// The multiplicative inverse, found with the extended Euclidean
    /// algorithm; `None` exactly when `self` is zero.
    pub fn inverse(&self) -> (r: Option<Self>)
        ensures
            r is Some ==> (self@ * r->0@) % C::spec_modulus() == 1,
            r is Some ==> r->0@ == inverse_mod(self@, C::spec_modulus()),
            r is None <==> !is_invertible_mod(self@, C::spec_modulus()),
            r is None <==> self@ == 0,
    {
        proof {
            use_type_invariant(self);
            C::lemma_modulus_range();
            C::lemma_modulus_prime();
            if self@ == 0 {
                assert forall|w: nat| #[trigger] ((self@ * w) % C::spec_modulus()) != 1 by {
                    lemma_small_mod(0, C::spec_modulus());
                }
            } else {
                assert(is_invertible_mod(self@, C::spec_modulus()));
            }
        }
        let p = C::modulus();
        let a = self.val;
        let ghost pi = p as int;
        let ghost ai = a as int;
        // r0 == t0 * a and r1 == t1 * a (mod p)
        let mut r0: u64 = p;
        let mut r1: u64 = a;
        let mut t0: u64 = 0;
        let mut t1: u64 = 1;
        proof {
            lemma_mod_self_0(pi);
            lemma_small_mod(a as nat, p as nat);
            lemma_small_mod(1, p as nat);
            lemma_small_mod(0, p as nat);
            assert((0 * ai) % pi == 0);
        }
        while r1 != 0
            invariant
                p as nat == C::spec_modulus(),
                2 <= p,
                a < p,
                pi == p,
                ai == a,
                0 < r0,
                t0 < p,
                t1 < p,
                (t0 * ai) % pi == (r0 as int) % pi,
                (t1 * ai) % pi == (r1 as int) % pi,
                forall|d: int|
                    d > 0 && #[trigger] (r0 as int % d) == 0 && r1 as int % d == 0 ==> ai % d == 0
                        && pi % d == 0,
            decreases r1,
        {
            let q = r0 / r1;
            let r2 = r0 % r1;
            proof {
                lemma_mul_upper_bound(q as int, u64::MAX as int, t1 as int, u64::MAX as int);
            }
            let qt = ((q as u128 * t1 as u128) % (p as u128)) as u64;
            let t2 = ((t0 as u128 + (p - qt) as u128) % (p as u128)) as u64;
            proof {
                lemma_fundamental_div_mod(r0 as int, r1 as int);
                assert(r2 == r0 - q * r1);
                lemma_mul_upper_bound(q as int, u64::MAX as int, t1 as int, u64::MAX as int);
                lemma_invariant_step(pi, ai, r0 as int, r1 as int, q as int, t0 as int, t1 as int, qt as int, t2 as int);
                assert forall|d: int|
                    d > 0 && #[trigger] (r1 as int % d) == 0 && r2 as int % d == 0 implies ai % d
                    == 0 && pi % d == 0 by {
                    lemma_divisor_step(r0 as int, r1 as int, q as int, d);
                }
            }
            r0 = r1;
            r1 = r2;
            t0 = t1;
            t1 = t2;
        }
        proof {
            assert(r0 as int % r0 as int == 0) by { lemma_mod_self_0(r0 as int); }
            assert(0int % r0 as int == 0) by { lemma_small_mod(0, r0 as nat); }
        }
        if r0 == 1 {
            proof {
                lemma_small_mod(1, p as nat);
                lemma_mul_is_commutative(ai, t0 as int);
            }
            let inv = Fp { val: t0, config: PhantomData };
            proof {
                assert((self@ * inv@) % C::spec_modulus() == 1);
                assert(is_invertible_mod(self@, C::spec_modulus()));
                lemma_inverse_mod_unique(self@, C::spec_modulus(), inv@);
            }
            Some(inv)
        } else {
            proof {
                assert forall|w: nat| #[trigger] ((a as nat * w) % (p as nat)) != 1 by {
                    lemma_no_inverse(pi, ai, r0 as int, w as int);
                }
                assert(!is_invertible_mod(self@, C::spec_modulus()));
            }
            None
        }
    }
}

/// One step of the extended Euclidean algorithm keeps `r == t * a (mod p)`.
proof fn lemma_invariant_step(p: int, a: int, r0: int, r1: int, q: int, t0: int, t1: int, qt: int, t2: int)
    requires
        p > 0,
        0 <= t0 < p,
        0 <= t1 < p,
        (t0 * a) % p == r0 % p,
        (t1 * a) % p == r1 % p,
        qt == (q * t1) % p,
        t2 == (t0 + (p - qt)) % p,
    ensures
        (t2 * a) % p == (r0 - q * r1) % p,
{
    // t2 == t0 - q * t1 (mod p)
    lemma_mod_bound(q * t1, p);
    assert(t2 == (t0 - q * t1) % p) by {
        lemma_mod_add_multiples_vanish(t0 - qt, p);
        lemma_sub_mod_noop_right(t0, q * t1, p);
    }
    lemma_mul_mod_noop_left(t0 - q * t1, a, p);
    assert((t0 - q * t1) * a == t0 * a - q * (t1 * a)) by (nonlinear_arith);
    // t0 * a - q * (t1 * a) == r0 - q * r1 (mod p)
    lemma_sub_mod_noop(t0 * a, q * (t1 * a), p);
    lemma_mul_mod_noop_right(q, t1 * a, p);
    lemma_mul_mod_noop_right(q, r1, p);
    lemma_sub_mod_noop(r0, q * r1, p);
}

/// A common divisor of `r1` and `r0 % r1` divides `r0`.
proof fn lemma_divisor_step(r0: int, r1: int, q: int, d: int)
    requires
        d > 0,
        r1 % d == 0,
        (r0 - q * r1) % d == 0,
    ensures
        r0 % d == 0,
{
    lemma_fundamental_div_mod(r1, d);
    lemma_fundamental_div_mod(r0 - q * r1, d);
    let k1 = r1 / d;
    let k2 = (r0 - q * r1) / d;
    assert(r0 == d * (k2 + q * k1)) by (nonlinear_arith)
        requires
            r1 == d * k1,
            r0 - q * r1 == d * k2,
    ;
    lemma_mod_multiples_basic(k2 + q * k1, d);
    lemma_mul_is_commutative(d, k2 + q * k1);
}

/// A common divisor `g > 1` of `a` and `p` rules out an inverse of `a`.
proof fn lemma_no_inverse(p: int, a: int, g: int, w: int)
    requires
        p > 0,
        g > 1,
        a % g == 0,
        p % g == 0,
        w >= 0,
    ensures
        (a * w) % p != 1,
{
    if (a * w) % p == 1 {
        lemma_fundamental_div_mod(a * w, p);
        lemma_fundamental_div_mod(a, g);
        lemma_fundamental_div_mod(p, g);
        let ka = a / g;
        let kp = p / g;
        let k = (a * w) / p;
        assert(1 == g * (ka * w - kp * k)) by (nonlinear_arith)
            requires
                a * w == p * k + 1,
                a == g * ka,
                p == g * kp,
        ;
        let m = ka * w - kp * k;
        assert(false) by (nonlinear_arith)
            requires
                1 == g * m,
                g > 1,
        ;
    }
}

impl<C: FieldConfig> Clone for Fp<C> {
    fn clone(&self) -> (r: Self)
        ensures
            r == *self,
    {
        *self
    }
}

impl<C: FieldConfig> PartialEq for Fp<C> {
    fn eq(&self, other: &Self) -> (r: bool) {
        self.val == other.val
    }
}

impl<C: FieldConfig> PartialEqSpecImpl for Fp<C> {
    open spec fn obeys_eq_spec() -> bool {
        true
    }

    open spec fn eq_spec(&self, other: &Self) -> bool {
        self@ == other@
    }
}

} // verus!
