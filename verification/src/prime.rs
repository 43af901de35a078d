//! Primality of the field moduli, by Lucas certificates: a generator `g` with
//! `g^(n-1) = 1` and `g^((n-1)/q) != 1` for every prime factor `q` of `n - 1`
//! has order `n - 1`, so its powers reach every nonzero residue and every
//! nonzero residue is invertible.
use crate::field::is_invertible_mod;
use vstd::arithmetic::div_mod::*;
use vstd::arithmetic::mul::*;
use vstd::arithmetic::power::*;
use vstd::arithmetic::power2::*;
use vstd::prelude::*;
use vstd::set_lib::*;

verus! {

/// `n` is prime: it exceeds one and has no divisor strictly between one and
/// itself.
pub open spec fn is_prime(n: nat) -> bool {
    &&& n > 1
    &&& forall|d: nat| 1 < d < n ==> #[trigger] (n % d) != 0
}

/// `b^e mod n`, by repeated squaring.
#[verifier::opaque]
pub open spec fn pow_mod(b: nat, e: nat, n: nat) -> nat
    decreases e,
{
    if e == 0 {
        1nat % n
    } else {
        let h = pow_mod(b, e / 2, n);
        let h2 = (h * h) % n;
        if e % 2 == 0 {
            h2
        } else {
            (h2 * b) % n
        }
    }
}

/// Repeated squaring computes `b^e mod n`.
proof fn lemma_pow_mod(b: nat, e: nat, n: nat)
    requires
        n > 0,
    ensures
        pow_mod(b, e, n) == pow(b as int, e) % (n as int),
    decreases e,
{
    reveal(pow_mod);
    lemma_pow0(b as int);
    if e > 0 {
        let k = e / 2;
        lemma_pow_mod(b, k, n);
        let h = pow(b as int, k);
        lemma_pow_adds(b as int, k, k);
        lemma_mul_mod_noop(h, h, n as int);
        if e % 2 == 1 {
            lemma_pow_adds(b as int, (k + k) as nat, 1);
            lemma_pow1(b as int);
            lemma_mul_mod_noop_general(h * h, b as int, n as int);
            assert(e == (k + k) + 1);
        } else {
            assert(e == k + k);
        }
    }
}

/// `g^e mod n` as an integer.
spec fn pw(g: int, e: nat, n: int) -> int {
    pow(g, e) % n
}

/// `g^(a+b) = g^a * g^b` modulo `n`.
proof fn lemma_pw_add(g: int, a: nat, b: nat, n: int)
    requires
        n > 0,
    ensures
        pw(g, a + b, n) == (pw(g, a, n) * pw(g, b, n)) % n,
{
    lemma_pow_adds(g, a, b);
    lemma_mul_mod_noop(pow(g, a), pow(g, b), n);
}

/// `g^(a*t) = (g^a)^t` modulo `n`; a power of one is one.
proof fn lemma_pw_one_mul(g: int, a: nat, t: nat, n: int)
    requires
        n > 1,
        pw(g, a, n) == 1,
    ensures
        pw(g, a * t, n) == 1,
{
    lemma_pow_multiplies(g, a, t);
    lemma_pow_mod_noop(pow(g, a), t, n);
    lemma1_pow(t);
    lemma_small_mod(1, n as nat);
}

/// The greatest common divisor, by Euclid's algorithm.
pub open spec fn gcd(a: nat, b: nat) -> nat
    decreases b,
{
    if b == 0 {
        a
    } else {
        gcd(b, a % b)
    }
}

/// `gcd(a, b)` divides both and is a combination `a x + b y`.
proof fn lemma_gcd(a: nat, b: nat) -> (xy: (int, int))
    ensures
        gcd(a, b) == a * xy.0 + b * xy.1,
        a > 0 ==> gcd(a, b) > 0,
        gcd(a, b) > 0 ==> a % gcd(a, b) == 0 && b % gcd(a, b) == 0,
    decreases b,
{
    if b == 0 {
        if a > 0 {
            lemma_mod_self_0(a as int);
            lemma_small_mod(0, a);
        }
        (1, 0)
    } else {
        let r = a % b;
        let q = a / b;
        lemma_fundamental_div_mod(a as int, b as int);
        let (x, y) = lemma_gcd(b, r);
        let g = gcd(b, r);
        assert(g > 0) by {
            if g == 0 {
                assert(b % g == 0);
            }
        }
        assert(a * y + b * (x - q * y) == b * x + r * y) by (nonlinear_arith)
            requires
                a == b * q + r,
        ;
        lemma_mod_self_0(g as int);
        assert(a % g == 0) by {
            // a = b q + r with g | b and g | r
            lemma_fundamental_div_mod(b as int, g as int);
            lemma_fundamental_div_mod(r as int, g as int);
            let bb = b as int / g as int;
            let rr = r as int / g as int;
            assert(a == g * (bb * q + rr)) by (nonlinear_arith)
                requires
                    a == b * q + r,
                    b == g * bb,
                    r == g * rr,
            ;
            lemma_mod_multiples_basic(bb * q + rr, g as int);
            lemma_mul_is_commutative(g as int, bb * q + rr);
        }
        (y, x - q * y)
    }
}

/// `g^a = 1` and `g^b = 1` give `g^(a mod b) = 1`.
proof fn lemma_pw_one_mod(g: int, a: nat, b: nat, n: int)
    requires
        n > 1,
        b > 0,
        pw(g, a, n) == 1,
        pw(g, b, n) == 1,
    ensures
        pw(g, a % b, n) == 1,
{
    lemma_fundamental_div_mod(a as int, b as int);
    let t = a / b;
    let r = a % b;
    lemma_mul_is_commutative(b as int, t as int);
    lemma_pw_one_mul(g, b, t, n);
    assert(a == b * t + r);
    lemma_pw_add(g, b * t, r, n);
    lemma_mod_bound(pow(g, r), n);
    lemma_small_mod(pw(g, r, n) as nat, n as nat);
}

/// `g^a = 1` and `g^b = 1` give `g^gcd(a, b) = 1`.
proof fn lemma_pw_one_gcd(g: int, a: nat, b: nat, n: int)
    requires
        n > 1,
        pw(g, a, n) == 1,
        pw(g, b, n) == 1,
    ensures
        pw(g, gcd(a, b), n) == 1,
    decreases b,
{
    if b > 0 {
        lemma_pw_one_mod(g, a, b, n);
        lemma_mod_bound(a as int, b as int);
        lemma_pw_one_gcd(g, b, a % b, n);
    }
}

/// A positive `d` that divides `q > 0` is at most `q`.
proof fn lemma_divisor_le(q: nat, d: nat)
    requires
        q > 0,
        d > 0,
        q % d == 0,
    ensures
        d <= q,
{
    if d > q {
        lemma_small_mod(q, d);
    }
}

/// Euclid's lemma in the form used here: if `t` divides `q m` for a prime
/// `q`, then `q` divides `t` or `t` divides `m`.
proof fn lemma_gauss(t: nat, q: nat, m: nat)
    requires
        is_prime(q),
        t > 0,
        (q * m) % t == 0,
    ensures
        t % q == 0 || m % t == 0,
{
    let (x, y) = lemma_gcd(t, q);
    let g = gcd(t, q);
    lemma_divisor_le(q, g);
    if g == q {
    } else if g == 1 {
        lemma_fundamental_div_mod((q * m) as int, t as int);
        let c = (q * m) as int / t as int;
        assert(m == t * (x * m + c * y)) by (nonlinear_arith)
            requires
                t * x + q * y == 1,
                q * m == t * c,
        ;
        lemma_mod_multiples_basic(x * m + c * y, t as int);
        lemma_mul_is_commutative(t as int, x * m + c * y);
    } else {
        assert(q % g != 0);
    }
}

/// The product of a sequence.
pub open spec fn product(s: Seq<nat>) -> nat
    decreases s.len(),
{
    if s.len() == 0 {
        1
    } else {
        product(s.drop_last()) * s.last()
    }
}

/// A divisor `t > 1` of a product of primes is divisible by one of them.
proof fn lemma_prime_factor(t: nat, qs: Seq<nat>) -> (i: int)
    requires
        t > 1,
        product(qs) % t == 0,
        forall|j: int| 0 <= j < qs.len() ==> is_prime(#[trigger] qs[j]),
    ensures
        0 <= i < qs.len(),
        t % qs[i] == 0,
    decreases qs.len(),
{
    if qs.len() == 0 {
        lemma_small_mod(1, t);
        0
    } else {
        let rest = qs.drop_last();
        let q = qs.last();
        assert(is_prime(qs[qs.len() - 1]));
        lemma_mul_is_commutative(product(rest) as int, q as int);
        lemma_gauss(t, q, product(rest));
        if t % q == 0 {
            qs.len() - 1
        } else {
            let i = lemma_prime_factor(t, rest);
            assert(rest[i] == qs[i]);
            i
        }
    }
}

/// No power `g^k` with `0 < k < n - 1` is one.
proof fn lemma_no_early_one(n: nat, g: nat, qs: Seq<nat>, k: nat)
    requires
        n > 2,
        product(qs) == n - 1,
        forall|j: int| 0 <= j < qs.len() ==> is_prime(#[trigger] qs[j]),
        pw(g as int, (n - 1) as nat, n as int) == 1,
        forall|j: int| 0 <= j < qs.len() ==> pw(g as int, ((n - 1) as nat / #[trigger] qs[j]) as nat, n as int) != 1,
        0 < k < n - 1,
    ensures
        pw(g as int, k, n as int) != 1,
{
    if pw(g as int, k, n as int) == 1 {
        let m = (n - 1) as nat;
        let (x, y) = lemma_gcd(m, k);
        let d = gcd(m, k);
        lemma_pw_one_gcd(g as int, m, k, n as int);
        lemma_divisor_le(k, d);
        lemma_fundamental_div_mod(m as int, d as int);
        let t = m / d;
        assert(m == d * t);
        assert(t > 1) by {
            if t <= 1 {
                assert(d * t <= d) by (nonlinear_arith)
                    requires
                        t <= 1,
                        d > 0,
                ;
            }
        }
        lemma_mul_is_commutative(d as int, t as int);
        lemma_mod_multiples_basic(d as int, t as int);
        let i = lemma_prime_factor(t, qs);
        let q = qs[i];
        lemma_fundamental_div_mod(t as int, q as int);
        let s = t / q;
        assert(t == q * s);
        assert(m == q * (d * s)) by (nonlinear_arith)
            requires
                m == d * t,
                t == q * s,
        ;
        lemma_div_multiples_vanish((d * s) as int, q as int);
        assert(m / q == d * s);
        lemma_pw_one_mul(g as int, d, s, n as int);
        assert(pw(g as int, (m / q) as nat, n as int) != 1);
    }
}

/// Lucas: a generator certificate for `n` makes every nonzero residue
/// modulo `n` invertible.
pub proof fn lemma_lucas(n: nat, g: nat, qs: Seq<nat>)
    requires
        n > 2,
        product(qs) == n - 1,
        forall|j: int| 0 <= j < qs.len() ==> is_prime(#[trigger] qs[j]),
        pow_mod(g, (n - 1) as nat, n) == 1,
        forall|j: int| 0 <= j < qs.len() ==> pow_mod(g, ((n - 1) as nat / #[trigger] qs[j]) as nat, n) != 1,
    ensures
        forall|a: nat| 0 < a < n ==> #[trigger] is_invertible_mod(a, n),
        forall|a: nat| 0 < a < n ==> #[trigger] pow(a as int, (n - 1) as nat) % (n as int) == 1,
{
    let m = (n - 1) as nat;
    let gi = g as int;
    let ni = n as int;
    lemma_pow_mod(g, m, n);
    assert forall|j: int| 0 <= j < qs.len() implies pw(gi, (m / #[trigger] qs[j]) as nat, ni) != 1 by {
        lemma_pow_mod(g, (m / qs[j]) as nat, n);
    }
    let f = |k: int| pw(gi, k as nat, ni);
    let xs = set_int_range(0, m as int);
    // distinct powers
    assert forall|i: int, j: int| xs.contains(i) && xs.contains(j) && #[trigger] f(i) == #[trigger] f(j) implies i == j by {
        if i != j {
            let (lo, hi) = if i < j { (i as nat, j as nat) } else { (j as nat, i as nat) };
            let c = (m - lo) as nat;
            let e = (hi - lo) as nat;
            assert(pw(gi, lo, ni) == pw(gi, hi, ni));
            lemma_pw_add(gi, c, lo, ni);
            lemma_pw_add(gi, c, hi, ni);
            lemma_pw_add(gi, m, e, ni);
            assert(c + hi == m + e);
            assert(c + lo == m);
            assert(pw(gi, c + hi, ni) == 1);
            assert(pw(gi, m + e, ni) == 1);
            assert(pw(gi, m, ni) == 1);
            assert((pw(gi, m, ni) * pw(gi, e, ni)) % ni == 1);
            assert(1 * pw(gi, e, ni) == pw(gi, e, ni));
            lemma_mod_bound(pow(gi, e), ni);
            lemma_small_mod(pw(gi, e, ni) as nat, n);
            assert(pw(gi, e, ni) == 1);
            lemma_no_early_one(n, g, qs, e);
        }
    }
    let ys = xs.map(f);
    lemma_int_range(0, m as int);
    lemma_map_size(xs, ys, f);
    let rs = set_int_range(1, n as int);
    lemma_int_range(1, n as int);
    assert forall|v: int| ys.contains(v) implies rs.contains(v) by {
        let k = choose|k: int| xs.contains(k) && f(k) == v;
        lemma_mod_bound(pow(gi, k as nat), ni);
        assert(0 <= v < ni);
        if v == 0 {
            lemma_pw_add(gi, k as nat, (m - k) as nat, ni);
            assert(k as nat + (m - k) as nat == m);
            assert(pw(gi, k as nat, ni) == 0);
            assert(0 * pw(gi, (m - k) as nat, ni) == 0);
            lemma_small_mod(0, n);
            assert(pw(gi, m, ni) == 0);
        }
    }
    lemma_subset_equality(ys, rs);
    assert forall|a: nat| 0 < a < n implies #[trigger] is_invertible_mod(a, n) by {
        assert(rs.contains(a as int));
        let k = choose|k: int| xs.contains(k) && f(k) == a as int;
        lemma_pw_add(gi, k as nat, (m - k) as nat, ni);
        assert(k as nat + (m - k) as nat == m);
        let w = pw(gi, (m - k) as nat, ni);
        lemma_mod_bound(pow(gi, (m - k) as nat), ni);
        assert((a * (w as nat)) % n == 1);
    }
    assert forall|a: nat| 0 < a < n implies #[trigger] pow(a as int, m) % (n as int) == 1 by {
        assert(rs.contains(a as int));
        let k = choose|k: int| xs.contains(k) && f(k) == a as int;
        let kn = k as nat;
        lemma_pow_mod_noop(pow(gi, kn), m, ni);
        lemma_pow_multiplies(gi, kn, m);
        lemma_mul_is_commutative(kn as int, m as int);
        lemma_pw_one_mul(gi, m, kn, ni);
    }
}

/// A modulus whose nonzero residues are all invertible is prime.
pub proof fn lemma_prime_of_invertible(n: nat)
    requires
        n > 1,
        forall|a: nat| 0 < a < n ==> #[trigger] is_invertible_mod(a, n),
    ensures
        is_prime(n),
{
    assert forall|d: nat| 1 < d < n implies #[trigger] (n % d) != 0 by {
        if n % d == 0 {
            assert(is_invertible_mod(d, n));
            let w = choose|w: nat| #[trigger] ((d * w) % n) == 1;
            lemma_fundamental_div_mod((d * w) as int, n as int);
            lemma_fundamental_div_mod(n as int, d as int);
            let h = (d * w) as int / n as int;
            let c = n as int / d as int;
            assert(d * (w - c * h) == 1) by (nonlinear_arith)
                requires
                    d * w == n * h + 1,
                    n == d * c,
            ;
            assert(false) by (nonlinear_arith)
                requires
                    d * (w - c * h) == 1,
                    d > 1,
            ;
        }
    }
}

/// A `q` below `b * b` with no divisor in `(1, b)` is prime.
pub proof fn lemma_prime_below(q: nat, b: nat)
    requires
        q > 1,
        q < b * b,
        forall|d: nat| 1 < d < b ==> #[trigger] (q % d) != 0,
    ensures
        is_prime(q),
{
    assert forall|d: nat| 1 < d < q implies #[trigger] (q % d) != 0 by {
        if q % d == 0 {
            lemma_fundamental_div_mod(q as int, d as int);
            let e = q / d;
            assert(q == d * e);
            if d >= b {
                assert(1 < e < b) by (nonlinear_arith)
                    requires
                        q == d * e,
                        d >= b,
                        q < b * b,
                        1 < d < q,
                ;
                lemma_mul_is_commutative(d as int, e as int);
                lemma_mod_multiples_basic(d as int, e as int);
                assert(q % e == 0);
            }
        }
    }
}

/// One step of repeated squaring on known values: with `e = 2 eh + odd`,
/// `h = b^eh mod n`, `h * h = k1 n + h2` and, for odd `e`, `h2 * b = k2 n + v`
/// (else `v = h2`), `b^e mod n = v`.
pub proof fn lemma_pow_mod_step(b: nat, e: nat, eh: nat, odd: bool, n: nat, h: nat, k1: nat, h2: nat, k2: nat, v: nat)
    requires
        n > 0,
        e > 0,
        e == 2 * eh + (if odd { 1nat } else { 0nat }),
        pow_mod(b, eh, n) == h,
        h * h == k1 * n + h2,
        h2 < n,
        odd ==> h2 * b == k2 * n + v,
        !odd ==> v == h2,
        v < n,
    ensures
        pow_mod(b, e, n) == v,
{
    reveal(pow_mod);
    lemma_fundamental_div_mod_converse(e as int, 2, eh as int, (if odd { 1int } else { 0int }));
    lemma_fundamental_div_mod_converse((h * h) as int, n as int, k1 as int, h2 as int);
    assert(h2 == (h * h) % n);
    assert(e / 2 == eh);
    assert(pow_mod(b, e, n) == (if e % 2 == 0 { (h * h) % n } else { (((h * h) % n) * b) % n }));
    if odd {
        lemma_fundamental_div_mod_converse((h2 * b) as int, n as int, k2 as int, v as int);
        assert(v == (h2 * b) % n);
    }
}

/// `b^0 mod n` is one for `n > 1`.
pub proof fn lemma_pow_mod_zero(b: nat, n: nat)
    requires
        n > 1,
    ensures
        pow_mod(b, 0, n) == 1,
{
    reveal(pow_mod);
    lemma_small_mod(1, n);
}

/// `pow_mod` agrees with `pow`.
pub proof fn lemma_pow_mod_is_pow(b: nat, e: nat, n: nat)
    requires
        n > 0,
    ensures
        pow_mod(b, e, n) == pow(b as int, e) % (n as int),
{
    lemma_pow_mod(b, e, n);
}

/// `product(s.push(x)) == product(s) * x`.
pub proof fn lemma_product_push(s: Seq<nat>, x: nat)
    ensures
        product(s.push(x)) == product(s) * x,
{
    assert(s.push(x).drop_last() =~= s);
}

/// A product of `k` twos is `2^k`.
pub proof fn lemma_product_twos(k: nat)
    ensures
        product(Seq::new(k, |i: int| 2nat)) == pow2(k),
    decreases k,
{
    if k > 0 {
        let s = Seq::new(k, |i: int| 2nat);
        assert(s.drop_last() =~= Seq::new((k - 1) as nat, |i: int| 2nat));
        lemma_product_twos((k - 1) as nat);
        lemma_pow2_unfold(k);
        lemma_mul_is_commutative(2, pow2((k - 1) as nat) as int);
    } else {
        lemma_pow2(0);
        lemma_pow0(2);
    }
}

} // verus!
