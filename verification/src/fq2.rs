//! The quadratic extension `F[u] / (u^2 - 3)` of a prime field.
use crate::field::{inverse_mod, is_invertible_mod, FieldConfig, Fp};
use vstd::arithmetic::div_mod::*;
use vstd::arithmetic::mul::*;
use vstd::arithmetic::power2::*;
use vstd::prelude::*;
use vstd::std_specs::cmp::PartialEqSpecImpl;

verus! {

/// A pair of canonical residues `(c0, c1)` standing for `c0 + c1 * u`.
pub type Fq2Value = (nat, nat);

/// `x + y` in `F[u] / (u^2 - 3)` modulo `p`.
pub open spec fn fq2_add(p: nat, x: Fq2Value, y: Fq2Value) -> Fq2Value {
    ((x.0 + y.0) % p, (x.1 + y.1) % p)
}

/// `x - y` modulo `p`.
pub open spec fn fq2_sub(p: nat, x: Fq2Value, y: Fq2Value) -> Fq2Value {
    (((x.0 - y.0) % (p as int)) as nat, ((x.1 - y.1) % (p as int)) as nat)
}

/// `-x` modulo `p`.
pub open spec fn fq2_neg(p: nat, x: Fq2Value) -> Fq2Value {
    (((-(x.0 as int)) % (p as int)) as nat, ((-(x.1 as int)) % (p as int)) as nat)
}

/// `(a + b u)(c + d u) = (ac + 3bd) + (ad + bc) u` modulo `p`.
pub open spec fn fq2_mul(p: nat, x: Fq2Value, y: Fq2Value) -> Fq2Value {
    ((x.0 * y.0 + 3 * (x.1 * y.1)) % p, (x.0 * y.1 + x.1 * y.0) % p)
}

/// `x * s` for a base-field scalar `s`, modulo `p`.
pub open spec fn fq2_scale(p: nat, x: Fq2Value, s: nat) -> Fq2Value {
    ((x.0 * s) % p, (x.1 * s) % p)
}

/// The multiplicative identity `1 + 0 u`.
pub open spec fn fq2_one() -> Fq2Value {
    (1nat, 0nat)
}

/// `x^e`, as `e` repeated multiplications starting from one.
pub open spec fn fq2_pow(p: nat, x: Fq2Value, e: nat) -> Fq2Value
    decreases e,
{
    if e == 0 {
        fq2_one()
    } else {
        fq2_mul(p, fq2_pow(p, x, (e - 1) as nat), x)
    }
}

/// The sum of the elements of `s`, added from the front, starting from zero.
pub open spec fn fq2_sum(p: nat, s: Seq<Fq2Value>) -> Fq2Value
    decreases s.len(),
{
    if s.len() == 0 {
        (0nat, 0nat)
    } else {
        fq2_add(p, fq2_sum(p, s.drop_last()), s.last())
    }
}

/// The norm `a^2 - 3 b^2` of `a + b u`, modulo `p`.
pub open spec fn fq2_norm(p: nat, x: Fq2Value) -> nat {
    ((x.0 * x.0 - 3 * (x.1 * x.1)) % (p as int)) as nat
}

/// `(a - b u) * d`: the conjugate of `a + b u` scaled by `d`, modulo `p`.
pub open spec fn fq2_conj_scale(p: nat, x: Fq2Value, d: nat) -> Fq2Value {
    ((x.0 * d) % p, (((-(x.1 as int)) % (p as int)) * d % (p as int)) as nat)
}

/// Both components lie in `[0, p)`.
pub open spec fn fq2_canonical(p: nat, x: Fq2Value) -> bool {
    x.0 < p && x.1 < p
}

/// The number written by the little-endian 64-bit words `ws`.
pub open spec fn words_value(ws: Seq<u64>) -> nat
    decreases ws.len(),
{
    if ws.len() == 0 {
        0
    } else {
        words_value(ws.drop_last()) + (ws.last() as nat) * pow2((64 * (ws.len() - 1)) as nat)
    }
}

/// `x = c0 + c1 * u`, where `u^2 = 3`.
#[derive(Copy, Debug, Eq)]
pub struct Fq2<C: FieldConfig> {
    pub c0: Fp<C>,
    pub c1: Fp<C>,
}

impl<C: FieldConfig> View for Fq2<C> {
    type V = Fq2Value;

    open spec fn view(&self) -> Fq2Value {
        (self.c0@, self.c1@)
    }
}

impl<C: FieldConfig> Clone for Fq2<C> {
    fn clone(&self) -> (r: Self)
        ensures
            r == *self,
    {
        *self
    }
}

impl<C: FieldConfig> PartialEq for Fq2<C> {
    fn eq(&self, other: &Self) -> (r: bool) {
        self.c0 == other.c0 && self.c1 == other.c1
    }
}

impl<C: FieldConfig> PartialEqSpecImpl for Fq2<C> {
    open spec fn obeys_eq_spec() -> bool {
        true
    }

    open spec fn eq_spec(&self, other: &Self) -> bool {
        self@ == other@
    }
}

// ---------------------------------------------------------------------------
// Arithmetic lemmas
// ---------------------------------------------------------------------------

/// `(a % p) * b + 3 * ((c % p) * d)` and `a * b + 3 * (c * d)` agree modulo `p`.
proof fn lemma_mod_lin_left(p: int, a: int, b: int, c: int, d: int, k: int)
    requires
        p > 0,
    ensures
        ((a % p) * b + k * ((c % p) * d)) % p == (a * b + k * (c * d)) % p,
{
    lemma_mul_mod_noop_left(a, b, p);
    lemma_mul_mod_noop_left(c, d, p);
    lemma_mul_mod_noop_right(k, (c % p) * d, p);
    lemma_mul_mod_noop_right(k, c * d, p);
    lemma_add_mod_noop((a % p) * b, k * ((c % p) * d), p);
    lemma_add_mod_noop(a * b, k * (c * d), p);
}

/// Right-hand version of `lemma_mod_lin_left`.
proof fn lemma_mod_lin_right(p: int, a: int, b: int, c: int, d: int, k: int)
    requires
        p > 0,
    ensures
        (a * (b % p) + k * (c * (d % p))) % p == (a * b + k * (c * d)) % p,
{
    lemma_mul_mod_noop_right(a, b, p);
    lemma_mul_mod_noop_right(c, d, p);
    lemma_mul_mod_noop_right(k, c * (d % p), p);
    lemma_mul_mod_noop_right(k, c * d, p);
    lemma_add_mod_noop(a * (b % p), k * (c * (d % p)), p);
    lemma_add_mod_noop(a * b, k * (c * d), p);
}

/// Multiplication in `F[u] / (u^2 - 3)` is associative.
pub proof fn lemma_fq2_mul_assoc(p: nat, x: Fq2Value, y: Fq2Value, z: Fq2Value)
    requires
        p > 0,
    ensures
        fq2_mul(p, fq2_mul(p, x, y), z) == fq2_mul(p, x, fq2_mul(p, y, z)),
{
    let pi = p as int;
    let (x0, x1, y0, y1, z0, z1) = (x.0 as int, x.1 as int, y.0 as int, y.1 as int, z.0 as int, z.1 as int);
    let u0 = x0 * y0 + 3 * (x1 * y1);
    let u1 = x0 * y1 + x1 * y0;
    let v0 = y0 * z0 + 3 * (y1 * z1);
    let v1 = y0 * z1 + y1 * z0;
    lemma_mod_lin_left(pi, u0, z0, u1, z1, 3);
    lemma_mod_lin_left(pi, u0, z1, u1, z0, 1);
    lemma_mod_lin_right(pi, x0, v0, x1, v1, 3);
    lemma_mod_lin_right(pi, x0, v1, x1, v0, 1);
    assert(u0 * z0 == x0 * (y0 * z0) + 3 * (x1 * (y1 * z0))) by (nonlinear_arith)
        requires u0 == x0 * y0 + 3 * (x1 * y1);
    assert(u1 * z1 == x0 * (y1 * z1) + x1 * (y0 * z1)) by (nonlinear_arith)
        requires u1 == x0 * y1 + x1 * y0;
    assert(x0 * v0 == x0 * (y0 * z0) + 3 * (x0 * (y1 * z1))) by (nonlinear_arith)
        requires v0 == y0 * z0 + 3 * (y1 * z1);
    assert(x1 * v1 == x1 * (y0 * z1) + x1 * (y1 * z0)) by (nonlinear_arith)
        requires v1 == y0 * z1 + y1 * z0;
    assert(u0 * z1 == x0 * (y0 * z1) + 3 * (x1 * (y1 * z1))) by (nonlinear_arith)
        requires u0 == x0 * y0 + 3 * (x1 * y1);
    assert(u1 * z0 == x0 * (y1 * z0) + x1 * (y0 * z0)) by (nonlinear_arith)
        requires u1 == x0 * y1 + x1 * y0;
    assert(x0 * v1 == x0 * (y0 * z1) + x0 * (y1 * z0)) by (nonlinear_arith)
        requires v1 == y0 * z1 + y1 * z0;
    assert(x1 * v0 == x1 * (y0 * z0) + 3 * (x1 * (y1 * z1))) by (nonlinear_arith)
        requires v0 == y0 * z0 + 3 * (y1 * z1);
    assert(u0 * z0 + 3 * (u1 * z1) == x0 * v0 + 3 * (x1 * v1));
    assert(u0 * z1 + 1 * (u1 * z0) == x0 * v1 + 1 * (x1 * v0));
}

/// Multiplication in `F[u] / (u^2 - 3)` is commutative.
pub proof fn lemma_fq2_mul_comm(p: nat, x: Fq2Value, y: Fq2Value)
    ensures
        fq2_mul(p, x, y) == fq2_mul(p, y, x),
{
    lemma_mul_is_commutative(x.0 as int, y.0 as int);
    lemma_mul_is_commutative(x.1 as int, y.1 as int);
    lemma_mul_is_commutative(x.0 as int, y.1 as int);
    lemma_mul_is_commutative(x.1 as int, y.0 as int);
}

/// One is a neutral element for canonical values.
pub proof fn lemma_fq2_mul_one(p: nat, x: Fq2Value)
    requires
        fq2_canonical(p, x),
    ensures
        fq2_mul(p, x, fq2_one()) == x,
        fq2_mul(p, fq2_one(), x) == x,
{
    lemma_small_mod(x.0, p);
    lemma_small_mod(x.1, p);
}

/// Every power is canonical.
pub proof fn lemma_fq2_pow_canonical(p: nat, x: Fq2Value, e: nat)
    requires
        p >= 2,
    ensures
        fq2_canonical(p, fq2_pow(p, x, e)),
{
    if e > 0 {
        let q = fq2_pow(p, x, (e - 1) as nat);
        lemma_mod_bound((q.0 * x.0 + 3 * (q.1 * x.1)) as int, p as int);
        lemma_mod_bound((q.0 * x.1 + q.1 * x.0) as int, p as int);
    }
}

/// `x^m * x^n == x^(m + n)`.
pub proof fn lemma_fq2_pow_add(p: nat, x: Fq2Value, m: nat, n: nat)
    requires
        p >= 2,
    ensures
        fq2_mul(p, fq2_pow(p, x, m), fq2_pow(p, x, n)) == fq2_pow(p, x, m + n),
    decreases n,
{
    if n == 0 {
        lemma_fq2_pow_canonical(p, x, m);
        lemma_fq2_mul_one(p, fq2_pow(p, x, m));
    } else {
        lemma_fq2_pow_add(p, x, m, (n - 1) as nat);
        lemma_fq2_mul_assoc(p, fq2_pow(p, x, m), fq2_pow(p, x, (n - 1) as nat), x);
        assert((m + n - 1) as nat == m + (n - 1) as nat);
    }
}

/// `x^1 == x` for canonical `x`, and `x^0` is one.
pub proof fn lemma_fq2_pow_small(p: nat, x: Fq2Value)
    requires
        fq2_canonical(p, x),
    ensures
        fq2_pow(p, x, 0) == fq2_one(),
        fq2_pow(p, x, 1) == x,
{
    lemma_fq2_mul_one(p, x);
    assert(fq2_pow(p, x, 1) == fq2_mul(p, fq2_pow(p, x, 0), x));
}

/// `x^(2^k) * x^(2^k) == x^(2^(k+1))`.
proof fn lemma_fq2_pow_square(p: nat, x: Fq2Value, k: nat)
    requires
        p >= 2,
    ensures
        fq2_mul(p, fq2_pow(p, x, pow2(k)), fq2_pow(p, x, pow2(k))) == fq2_pow(p, x, pow2(k + 1)),
{
    lemma_fq2_pow_add(p, x, pow2(k), pow2(k));
    lemma_pow2_unfold(k + 1);
}

/// `(x^m)^k == x^(m k)`.
pub proof fn lemma_fq2_pow_mul(p: nat, x: Fq2Value, m: nat, k: nat)
    requires
        p >= 2,
    ensures
        fq2_pow(p, fq2_pow(p, x, m), k) == fq2_pow(p, x, m * k),
    decreases k,
{
    if k > 0 {
        let j = (k - 1) as nat;
        lemma_fq2_pow_mul(p, x, m, j);
        lemma_fq2_pow_add(p, x, m * j, m);
        assert(m * j + m == m * k) by (nonlinear_arith)
            requires
                j + 1 == k,
        ;
        assert(fq2_pow(p, fq2_pow(p, x, m), k) == fq2_mul(p, fq2_pow(p, fq2_pow(p, x, m), j), fq2_pow(p, x, m)));
    } else {
        assert(m * k == 0) by (nonlinear_arith)
            requires
                k == 0,
        ;
    }
}

/// A high word of zero does not change the exponent: `x^(ws ++ [0]) == x^ws`.
pub proof fn lemma_words_value_trailing_zero(ws: Seq<u64>)
    ensures
        words_value(ws.push(0u64)) == words_value(ws),
{
    let ws0 = ws.push(0u64);
    assert(ws0.drop_last() =~= ws);
    assert(ws0.last() == 0u64);
    assert((ws0.last() as nat) * pow2((64 * (ws0.len() - 1)) as nat) == 0);
}

/// `x.pow(ws ++ [0]) == x.pow(ws)`: a high zero word leaves the power unchanged.
pub proof fn lemma_fq2_pow_trailing_zero_word(p: nat, x: Fq2Value, ws: Seq<u64>)
    ensures
        fq2_pow(p, x, words_value(ws.push(0u64))) == fq2_pow(p, x, words_value(ws)),
{
    lemma_words_value_trailing_zero(ws);
}

/// Two words `[lo, hi]` give the exponent `lo + hi 2^64`, so
/// `x^[lo, hi] == x^lo * (x^hi)^(2^64)`.
pub proof fn lemma_fq2_pow_two_words(p: nat, x: Fq2Value, lo: u64, hi: u64)
    requires
        p >= 2,
    ensures
        words_value(seq![lo, hi]) == lo + hi * pow2(64),
        fq2_pow(p, x, words_value(seq![lo, hi])) == fq2_mul(
            p,
            fq2_pow(p, x, lo as nat),
            fq2_pow(p, fq2_pow(p, x, hi as nat), pow2(64)),
        ),
{
    let ws = seq![lo, hi];
    assert(ws.drop_last() =~= seq![lo]);
    assert(seq![lo].drop_last() =~= Seq::<u64>::empty());
    lemma2_to64();
    assert(words_value(Seq::<u64>::empty()) == 0);
    assert(seq![lo].last() == lo);
    assert(words_value(seq![lo]) == words_value(Seq::<u64>::empty()) + (lo as nat) * pow2(0));
    assert(words_value(seq![lo]) == lo);
    assert(words_value(ws) == lo + hi * pow2(64));
    lemma_fq2_pow_mul(p, x, hi as nat, pow2(64));
    lemma_mul_is_commutative(hi as int, pow2(64) as int);
    lemma_fq2_pow_add(p, x, lo as nat, (hi * pow2(64)) as nat);
}

/// Multiplication distributes over addition.
pub proof fn lemma_fq2_mul_distrib(p: nat, x: Fq2Value, t: Fq2Value, u: Fq2Value)
    requires
        p > 0,
    ensures
        fq2_add(p, fq2_mul(p, x, t), fq2_mul(p, x, u)) == fq2_mul(p, x, fq2_add(p, t, u)),
{
    let pi = p as int;
    let (x0, x1, t0, t1, u0, u1) = (x.0 as int, x.1 as int, t.0 as int, t.1 as int, u.0 as int, u.1 as int);
    lemma_mod_lin_right(pi, x0, t0 + u0, x1, t1 + u1, 3);
    lemma_mod_lin_right(pi, x0, t1 + u1, x1, t0 + u0, 1);
    lemma_add_mod_noop(x0 * t0 + 3 * (x1 * t1), x0 * u0 + 3 * (x1 * u1), pi);
    lemma_add_mod_noop(x0 * t1 + x1 * t0, x0 * u1 + x1 * u0, pi);
    assert(x0 * (t0 + u0) + 3 * (x1 * (t1 + u1)) == (x0 * t0 + 3 * (x1 * t1)) + (x0 * u0 + 3 * (x1 * u1)))
        by (nonlinear_arith);
    assert(x0 * (t1 + u1) + 1 * (x1 * (t0 + u0)) == (x0 * t1 + x1 * t0) + (x0 * u1 + x1 * u0))
        by (nonlinear_arith);
}

/// Addition is associative.
pub proof fn lemma_fq2_add_assoc(p: nat, x: Fq2Value, y: Fq2Value, z: Fq2Value)
    requires
        p > 0,
    ensures
        fq2_add(p, fq2_add(p, x, y), z) == fq2_add(p, x, fq2_add(p, y, z)),
{
    let pi = p as int;
    let (x0, x1, y0, y1, z0, z1) = (x.0 as int, x.1 as int, y.0 as int, y.1 as int, z.0 as int, z.1 as int);
    lemma_add_mod_noop_right(z0, x0 + y0, pi);
    lemma_add_mod_noop_right(x0, y0 + z0, pi);
    lemma_add_mod_noop_right(z1, x1 + y1, pi);
    lemma_add_mod_noop_right(x1, y1 + z1, pi);
    assert((x0 + y0) % pi + z0 == z0 + (x0 + y0) % pi);
    assert((x1 + y1) % pi + z1 == z1 + (x1 + y1) % pi);
    assert(z0 + (x0 + y0) == x0 + (y0 + z0));
    assert(z1 + (x1 + y1) == x1 + (y1 + z1));
}

/// Adding `y` and then subtracting it gives back a canonical `x`.
pub proof fn lemma_fq2_add_sub_roundtrip(p: nat, x: Fq2Value, y: Fq2Value)
    requires
        p > 0,
        fq2_canonical(p, x),
    ensures
        fq2_sub(p, fq2_add(p, x, y), y) == x,
{
    let pi = p as int;
    lemma_sub_mod_noop((x.0 + y.0) as int, y.0 as int, pi);
    lemma_mod_twice((x.0 + y.0) as int, pi);
    lemma_sub_mod_noop((x.0 + y.0) as int % pi, y.0 as int, pi);
    lemma_sub_mod_noop((x.1 + y.1) as int, y.1 as int, pi);
    lemma_mod_twice((x.1 + y.1) as int, pi);
    lemma_sub_mod_noop((x.1 + y.1) as int % pi, y.1 as int, pi);
    lemma_small_mod(x.0, p);
    lemma_small_mod(x.1, p);
}

/// Multiplying by the inverse formula `(a - b u) / (a^2 - 3 b^2)` gives one.
proof fn lemma_fq2_inverse(p: nat, x: Fq2Value, n: nat, w: nat)
    requires
        p >= 2,
        n == fq2_norm(p, x),
        (n * w) % p == 1,
    ensures
        fq2_mul(p, x, (((x.0 * w) % p), (((-(x.1 as int)) % (p as int)) * w % (p as int)) as nat))
            == fq2_one(),
{
    let pi = p as int;
    let (a, b, wi) = (x.0 as int, x.1 as int, w as int);
    let c = (a * wi) % pi;
    let nb = (-b) % pi;
    let d = (nb * wi) % pi;
    // first component: a * c + 3 * (b * d) == (a^2 - 3 b^2) * w == n * w
    lemma_mod_lin_right(pi, a, a * wi, b, nb * wi, 3);
    lemma_mul_mod_noop_left(-b, wi, pi);
    lemma_mul_mod_noop_right(b, nb * wi, pi);
    lemma_mul_mod_noop_right(b, (-b) * wi, pi);
    lemma_mul_mod_noop_right(3, b * (nb * wi), pi);
    lemma_mul_mod_noop_right(3, b * ((-b) * wi), pi);
    lemma_add_mod_noop(a * (a * wi), 3 * (b * (nb * wi)), pi);
    lemma_add_mod_noop(a * (a * wi), 3 * (b * ((-b) * wi)), pi);
    assert(a * (a * wi) + 3 * (b * ((-b) * wi)) == (a * a - 3 * (b * b)) * wi) by (nonlinear_arith);
    lemma_mul_mod_noop_left(a * a - 3 * (b * b), wi, pi);
    // second component: a * d + b * c == a * (-b) * w + b * a * w == 0
    lemma_mod_lin_right(pi, a, nb * wi, b, a * wi, 1);
    lemma_mul_mod_noop_right(a, nb * wi, pi);
    lemma_mul_mod_noop_right(a, (-b) * wi, pi);
    lemma_add_mod_noop(a * (nb * wi), 1 * (b * (a * wi)), pi);
    lemma_add_mod_noop(a * ((-b) * wi), 1 * (b * (a * wi)), pi);
    assert(a * ((-b) * wi) + 1 * (b * (a * wi)) == 0) by (nonlinear_arith);
    lemma_small_mod(0, p);
    lemma_small_mod(1, p);
}

// ---------------------------------------------------------------------------
// Operations
// ---------------------------------------------------------------------------

impl<C: FieldConfig> Fq2<C> {
    pub fn new(c0: Fp<C>, c1: Fp<C>) -> (r: Self)
        ensures
            r.c0 == c0,
            r.c1 == c1,
    {
        Self { c0, c1 }
    }

    /// The element `value + 0 u` of the base field.
    pub fn from_base(value: Fp<C>) -> (r: Self)
        ensures
            r@ == (value@, 0nat),
    {
        Self::new(value, Fp::zero())
    }

    pub fn zero() -> (r: Self)
        ensures
            r@ == (0nat, 0nat),
    {
        Self { c0: Fp::zero(), c1: Fp::zero() }
    }

    pub fn one() -> (r: Self)
        ensures
            r@ == fq2_one(),
    {
        Self { c0: Fp::one(), c1: Fp::zero() }
    }

    pub fn two() -> (r: Self)
        ensures
            r@ == (2nat % C::spec_modulus(), 0nat),
    {
        let one = Fp::<C>::one();
        Self { c0: one.add(&one), c1: Fp::zero() }
    }

    /// Both components are canonical.
    fn check_canonical(&self)
        ensures
            fq2_canonical(C::spec_modulus(), self@),
    {
        let _ = self.c0.value();
        let _ = self.c1.value();
    }

    pub fn add(&self, rhs: &Self) -> (r: Self)
        ensures
            r@ == fq2_add(C::spec_modulus(), self@, rhs@),
    {
        Self { c0: self.c0.add(&rhs.c0), c1: self.c1.add(&rhs.c1) }
    }

    pub fn add_assign(&mut self, rhs: &Self)
        ensures
            final(self)@ == fq2_add(C::spec_modulus(), old(self)@, rhs@),
    {
        self.c0 = self.c0.add(&rhs.c0);
        self.c1 = self.c1.add(&rhs.c1);
    }

    pub fn sub(&self, rhs: &Self) -> (r: Self)
        ensures
            r@ == fq2_sub(C::spec_modulus(), self@, rhs@),
    {
        Self { c0: self.c0.sub(&rhs.c0), c1: self.c1.sub(&rhs.c1) }
    }

    pub fn sub_assign(&mut self, rhs: &Self)
        ensures
            final(self)@ == fq2_sub(C::spec_modulus(), old(self)@, rhs@),
    {
        self.c0 = self.c0.sub(&rhs.c0);
        self.c1 = self.c1.sub(&rhs.c1);
    }

    pub fn neg(&self) -> (r: Self)
        ensures
            r@ == fq2_neg(C::spec_modulus(), self@),
    {
        Self { c0: self.c0.neg(), c1: self.c1.neg() }
    }

    /// Karatsuba product with three base-field multiplications.
    pub fn mul(&self, rhs: &Self) -> (r: Self)
        ensures
            r@ == fq2_mul(C::spec_modulus(), self@, rhs@),
    {
        let (a, b) = (self.c0, self.c1);
        let (c, d) = (rhs.c0, rhs.c1);
        let t0 = a.mul(&c);
        let t1 = b.mul(&d);
        let t2 = a.add(&b).mul(&c.add(&d));
        let three_t1 = t1.add(&t1).add(&t1);
        let c0 = t0.add(&three_t1);
        let c1 = t2.sub(&t0).sub(&t1);
        proof {
            C::lemma_modulus_range();
            lemma_karatsuba(C::spec_modulus() as int, a@ as int, b@ as int, c@ as int, d@ as int);
        }
        Self { c0, c1 }
    }

    pub fn mul_assign(&mut self, rhs: &Self)
        ensures
            final(self)@ == fq2_mul(C::spec_modulus(), old(self)@, rhs@),
    {
        let r = self.mul(rhs);
        self.c0 = r.c0;
        self.c1 = r.c1;
    }

    /// Multiplication by a base-field scalar.
    pub fn mul_base(&self, s: &Fp<C>) -> (r: Self)
        ensures
            r@ == fq2_scale(C::spec_modulus(), self@, s@),
    {
        Self { c0: self.c0.mul(s), c1: self.c1.mul(s) }
    }

    pub fn mul_base_assign(&mut self, s: &Fp<C>)
        ensures
            final(self)@ == fq2_scale(C::spec_modulus(), old(self)@, s@),
    {
        self.c0 = self.c0.mul(s);
        self.c1 = self.c1.mul(s);
    }

    /// `self^e`, where `exp` holds `e` as little-endian 64-bit words.
    pub fn pow(&self, exp: &[u64]) -> (r: Self)
        ensures
            r@ == fq2_pow(C::spec_modulus(), self@, words_value(exp@)),
    {
        self.pow_from_bits(exp)
    }

    pub fn pow_u64(&self, exp: u64) -> (r: Self)
        ensures
            r@ == fq2_pow(C::spec_modulus(), self@, exp as nat),
    {
        let words = [exp];
        proof {
            let ws = words@;
            assert(ws.drop_last().len() == 0);
            assert(ws.last() == exp);
            assert(pow2(0) == 1) by { lemma2_to64(); }
            assert(ws.len() == 1);
            assert(words_value(ws.drop_last()) == 0);
            assert((64 * (ws.len() - 1)) as nat == 0);
            assert(words_value(ws) == words_value(ws.drop_last()) + (exp as nat) * pow2(0));
            assert(words_value(ws) == exp as nat);
        }
        self.pow(&words)
    }

    /// Square-and-multiply over the bits of `bits`, least significant first.
    fn pow_from_bits(&self, bits: &[u64]) -> (r: Self)
        ensures
            r@ == fq2_pow(C::spec_modulus(), self@, words_value(bits@)),
    {
        let ghost p = C::spec_modulus();
        let ghost x = self@;
        self.check_canonical();
        proof {
            C::lemma_modulus_range();
            lemma_fq2_pow_small(p, x);
            lemma2_to64();
        }
        let mut acc = Self::one();
        let mut base = *self;
        let mut w: usize = 0;
        while w < bits.len()
            invariant
                p == C::spec_modulus(),
                p >= 2,
                x == self@,
                w <= bits@.len(),
                acc@ == fq2_pow(p, x, words_value(bits@.take(w as int))),
                base@ == fq2_pow(p, x, pow2((64 * w) as nat)),
            decreases bits@.len() - w,
        {
            let word = bits[w];
            let mut mask = word;
            let ghost e_w = words_value(bits@.take(w as int));
            let ghost s = pow2((64 * w) as nat);
            let ghost mut lo: nat = 0;
            let mut j: u32 = 0;
            proof {
                lemma_pow2_pos((64 * w) as nat);
                assert(pow2(0) == 1) by { lemma2_to64(); }
            }
            while j < 64
                invariant
                    p == C::spec_modulus(),
                    p >= 2,
                    x == self@,
                    j <= 64,
                    s == pow2((64 * w) as nat),
                    s > 0,
                    word as nat == lo + pow2(j as nat) * mask,
                    lo < pow2(j as nat),
                    acc@ == fq2_pow(p, x, e_w + lo * s),
                    base@ == fq2_pow(p, x, pow2((64 * w + j) as nat)),
                decreases 64 - j,
            {
                let ghost old_lo = lo;
                let ghost old_mask = mask;
                assert(mask & 1 == mask % 2) by (bit_vector);
                assert(mask >> 1 == mask / 2) by (bit_vector);
                proof {
                    lemma_pow2_adds((64 * w) as nat, j as nat);
                    lemma_pow2_unfold((j + 1) as nat);
                    lemma_fundamental_div_mod(mask as int, 2);
                }
                if mask & 1 == 1 {
                    proof {
                        lemma_fq2_pow_add(p, x, e_w + lo * s, pow2((64 * w + j) as nat));
                        assert(e_w + lo * s + pow2((64 * w + j) as nat) == e_w + (lo + pow2(j as nat)) * s)
                            by (nonlinear_arith)
                            requires
                                pow2((64 * w + j) as nat) == s * pow2(j as nat),
                        ;
                        lo = lo + pow2(j as nat);
                    }
                    acc = acc.mul(&base);
                }
                proof {
                    lemma_fq2_pow_square(p, x, (64 * w + j) as nat);
                    assert(word as nat == lo + pow2((j + 1) as nat) * (old_mask / 2)) by (nonlinear_arith)
                        requires
                            word as nat == old_lo + pow2(j as nat) * old_mask,
                            old_mask == 2 * (old_mask / 2) + old_mask % 2,
                            pow2((j + 1) as nat) == 2 * pow2(j as nat),
                            old_mask % 2 == 1 ==> lo == old_lo + pow2(j as nat),
                            old_mask % 2 == 0 ==> lo == old_lo,
                    ;
                    assert(lo < pow2((j + 1) as nat));
                }
                base = base.mul(&base);
                mask = mask >> 1;
                j = j + 1;
            }
            proof {
                assert(pow2(64) == 0x10000000000000000) by { lemma2_to64(); }
                assert(mask == 0) by (nonlinear_arith)
                    requires
                        word as nat == lo + pow2(64) * mask,
                        pow2(64) == 0x10000000000000000,
                        word <= u64::MAX,
                ;
                assert(lo == word as nat);
                let t = bits@.take(w + 1);
                assert(t.drop_last() == bits@.take(w as int));
                assert(t.last() == word);
                assert(words_value(t) == e_w + word * s);
                lemma_mul_is_commutative(word as int, s as int);
                assert((64 * w + 64) as nat == (64 * (w + 1)) as nat);
            }
            w = w + 1;
        }
        proof {
            assert(bits@.take(bits@.len() as int) == bits@);
        }
        acc
    }

    /// `(a + b u)^{-1} = (a - b u) / (a^2 - 3 b^2)`; `None` exactly when the
    /// norm `a^2 - 3 b^2` is zero.
    pub fn inv(&self) -> (r: Option<Self>)
        ensures
            r is Some ==> fq2_mul(C::spec_modulus(), self@, r->0@) == fq2_one(),
            r is Some ==> fq2_mul(C::spec_modulus(), r->0@, self@) == fq2_one(),
            r is Some ==> r->0@ == fq2_conj_scale(
                C::spec_modulus(),
                self@,
                inverse_mod(fq2_norm(C::spec_modulus(), self@), C::spec_modulus()),
            ),
            r is None <==> !is_invertible_mod(fq2_norm(C::spec_modulus(), self@), C::spec_modulus()),
            r is None <==> fq2_norm(C::spec_modulus(), self@) == 0,
    {
        let a2 = self.c0.mul(&self.c0);
        let b2 = self.c1.mul(&self.c1);
        let three_b2 = b2.add(&b2).add(&b2);
        let denom = a2.sub(&three_b2);
        proof {
            C::lemma_modulus_range();
            lemma_norm(C::spec_modulus() as int, self.c0@ as int, self.c1@ as int);
        }
        match denom.inverse() {
            None => None,
            Some(inv) => {
                let r = Self { c0: self.c0.mul(&inv), c1: self.c1.neg().mul(&inv) };
                proof {
                    lemma_fq2_inverse(C::spec_modulus(), self@, denom@, inv@);
                    assert(r@ == fq2_conj_scale(C::spec_modulus(), self@, inv@));
                    lemma_fq2_mul_comm(C::spec_modulus(), self@, r@);
                }
                Some(r)
            },
        }
    }

    /// The sum of `values`, accumulated from zero.
    pub fn sum(values: &[Self]) -> (r: Self)
        ensures
            r@ == fq2_sum(C::spec_modulus(), values@.map_values(|v: Self| v@)),
    {
        let ghost vs = values@.map_values(|v: Self| v@);
        let mut acc = Self::zero();
        let mut i: usize = 0;
        while i < values.len()
            invariant
                i <= values@.len(),
                vs == values@.map_values(|v: Self| v@),
                acc@ == fq2_sum(C::spec_modulus(), vs.take(i as int)),
            decreases values@.len() - i,
        {
            proof {
                assert(vs.take(i + 1).drop_last() == vs.take(i as int));
            }
            acc = acc.add(&values[i]);
            i = i + 1;
        }
        proof {
            assert(vs.take(values@.len() as int) == vs);
        }
        acc
    }
}

/// The Karatsuba combination equals the schoolbook product modulo `p`.
proof fn lemma_karatsuba(p: int, a: int, b: int, c: int, d: int)
    requires
        p > 0,
    ensures
        ((a * c) % p + ((((b * d) % p + (b * d) % p) % p + (b * d) % p) % p)) % p
            == (a * c + 3 * (b * d)) % p,
        (((((a + b) % p) * ((c + d) % p)) % p - (a * c) % p) % p - (b * d) % p) % p
            == (a * d + b * c) % p,
{
    let bd = b * d;
    lemma_add_mod_noop(bd, bd, p);
    lemma_add_mod_noop(bd + bd, bd, p);
    lemma_mod_twice(bd, p);
    lemma_add_mod_noop((bd + bd) % p, bd, p);
    lemma_add_mod_noop(bd + bd, bd % p, p);
    lemma_add_mod_noop_right(bd + bd, bd, p);
    lemma_add_mod_noop(a * c, bd + bd + bd, p);
    lemma_mod_twice(a * c, p);
    assert(bd + bd + bd == 3 * bd);
    lemma_mul_mod_noop((a + b), (c + d), p);
    lemma_sub_mod_noop((a + b) * (c + d), a * c, p);
    lemma_sub_mod_noop(((a + b) * (c + d)) % p, a * c, p);
    lemma_mod_twice((a + b) * (c + d), p);
    lemma_sub_mod_noop((a + b) * (c + d) - a * c, bd, p);
    lemma_sub_mod_noop(((a + b) * (c + d) - a * c) % p, bd, p);
    lemma_mod_twice((a + b) * (c + d) - a * c, p);
    assert((a + b) * (c + d) - a * c - b * d == a * d + b * c) by (nonlinear_arith);
}

/// The norm computed as `a*a - (b*b + b*b + b*b)` with reductions is `a^2 - 3 b^2 mod p`.
proof fn lemma_norm(p: int, a: int, b: int)
    requires
        p > 0,
    ensures
        (((a * a) % p - ((((b * b) % p + (b * b) % p) % p + (b * b) % p) % p)) % p)
            == (a * a - 3 * (b * b)) % p,
{
    let bb = b * b;
    lemma_add_mod_noop(bb, bb, p);
    lemma_mod_twice(bb, p);
    lemma_add_mod_noop((bb + bb) % p, bb, p);
    lemma_add_mod_noop(bb + bb, bb, p);
    lemma_sub_mod_noop(a * a, 3 * bb, p);
    lemma_mod_twice(a * a, p);
    lemma_mod_twice(3 * bb, p);
    lemma_sub_mod_noop(a * a, bb + bb + bb, p);
}

} // verus!
