//! Multilinear extensions over `F[u] / (u^2 - 3)`: the vector of values on
//! the Boolean hypercube, evaluated anywhere through the `eq` polynomial.
use crate::field::{bit_of, FieldConfig, Fp};
use crate::fq2::{
    fq2_add, fq2_canonical, fq2_mul, fq2_one, fq2_sub, fq2_sum, lemma_fq2_mul_one, Fq2, Fq2Value,
};
use vstd::arithmetic::div_mod::*;
use vstd::arithmetic::power2::*;
use vstd::prelude::*;

verus! {

/// The Boolean point of `idx`: coordinate `i` is bit `i` of `idx` (least
/// significant first), as `1 + 0u` or `0 + 0u`.
pub open spec fn bits_spec(v: nat, len: nat) -> Seq<Fq2Value> {
    Seq::new(len, |i: int| if bit_of(v, i as nat) { fq2_one() } else { (0nat, 0nat) })
}

/// `e_i x_i + (1 - x_i)(1 - e_i)`.
pub open spec fn eq_factor(p: nat, x: Fq2Value, e: Fq2Value) -> Fq2Value {
    fq2_add(p, fq2_mul(p, e, x), fq2_mul(p, fq2_sub(p, fq2_one(), x), fq2_sub(p, fq2_one(), e)))
}

/// `prod_{i < n} eq_factor(x_i, e_i)`, multiplied from the front starting at one.
pub open spec fn eq_spec(p: nat, x: Seq<Fq2Value>, e: Seq<Fq2Value>, n: nat) -> Fq2Value
    decreases n,
{
    if n == 0 {
        fq2_one()
    } else {
        fq2_mul(p, eq_spec(p, x, e, (n - 1) as nat), eq_factor(p, x[n - 1], e[n - 1]))
    }
}

/// The terms `v[idx] * eq(x, bits(idx))` of the extension at `x`.
pub open spec fn mle_terms(p: nat, v: Seq<Fq2Value>, x: Seq<Fq2Value>) -> Seq<Fq2Value> {
    Seq::new(
        v.len(),
        |idx: int| fq2_mul(p, v[idx], eq_spec(p, x, bits_spec(idx as nat, x.len()), x.len())),
    )
}

/// The multilinear extension of `v` evaluated at `x`.
pub open spec fn mle_spec(p: nat, v: Seq<Fq2Value>, x: Seq<Fq2Value>) -> Fq2Value {
    fq2_sum(p, mle_terms(p, v, x))
}

/// The multilinear extension of a vector of `2^n` values.
pub struct Mle<C: FieldConfig> {
    vector: Vec<Fq2<C>>,
}

impl<C: FieldConfig> Mle<C> {
    /// The values on the hypercube.
    pub closed spec fn values(&self) -> Seq<Fq2Value> {
        self.vector@.map_values(|v: Fq2<C>| v@)
    }

    /// Evaluates the extension at `x`; the vector has `2^x.len()` values.
    pub fn evaluate(&self, x: &[Fq2<C>]) -> (r: Fq2<C>)
        requires
            x@.len() < usize::BITS,
            self.values().len() == pow2(x@.len() as nat),
        ensures
            r@ == mle_spec(C::spec_modulus(), self.values(), x@.map_values(|y: Fq2<C>| y@)),
    {
        let ghost p = C::spec_modulus();
        let ghost xs = x@.map_values(|y: Fq2<C>| y@);
        let ghost vs = self.values();
        let n = x.len();
        let size = self.vector.len();
        let mut acc = Fq2::<C>::zero();
        let mut idx: usize = 0;
        while idx < size
            invariant
                p == C::spec_modulus(),
                xs == x@.map_values(|y: Fq2<C>| y@),
                vs == self.values(),
                vs.len() == size,
                n == x@.len(),
                n < usize::BITS,
                size == self.vector@.len(),
                idx <= size,
                acc@ == fq2_sum(p, mle_terms(p, vs, xs).take(idx as int)),
            decreases size - idx,
        {
            let b = bits::<C>(idx, n);
            proof {
                assert(b@.map_values(|y: Fq2<C>| y@).len() == n);
            }
            let e = eq(x, b.as_slice());
            let t = self.vector[idx].mul(&e);
            proof {
                assert(b@.map_values(|y: Fq2<C>| y@) == bits_spec(idx as nat, n as nat));
                assert(mle_terms(p, vs, xs).take(idx + 1).drop_last() == mle_terms(p, vs, xs).take(idx as int));
                assert(mle_terms(p, vs, xs).take(idx + 1).last() == t@);
            }
            acc = acc.add(&t);
            idx = idx + 1;
        }
        proof {
            assert(mle_terms(p, vs, xs).take(size as int) == mle_terms(p, vs, xs));
        }
        acc
    }
}

/// The multilinear extension of `vector`.
pub fn mle<C: FieldConfig>(vector: Vec<Fq2<C>>) -> (r: Mle<C>)
    ensures
        r.values() == vector@.map_values(|v: Fq2<C>| v@),
{
    Mle { vector }
}

/// The Boolean point of `v` with `len` coordinates.
pub fn bits<C: FieldConfig>(v: usize, len: usize) -> (r: Vec<Fq2<C>>)
    requires
        len <= 64,
    ensures
        r@.map_values(|y: Fq2<C>| y@) == bits_spec(v as nat, len as nat),
{
    let one = Fp::<C>::one();
    let zero = Fp::<C>::zero();
    let mut out: Vec<Fq2<C>> = Vec::with_capacity(len);
    let mut i: usize = 0;
    while i < len
        invariant
            len <= 64,
            i <= len,
            one@ == 1,
            zero@ == 0,
            out@.len() == i,
            forall|k: int| 0 <= k < i ==> (#[trigger] out@[k])@ == bits_spec(v as nat, len as nat)[k],
        decreases len - i,
    {
        let x: u64 = v as u64;
        let shifted = x >> (i as u64);
        proof {
            vstd::bits::lemma_u64_shr_is_div(x, i as u64);
            assert(shifted & 1 == shifted % 2) by (bit_vector);
        }
        let bit = if shifted & 1 == 1 { one } else { zero };
        out.push(Fq2::new(bit, zero));
        i = i + 1;
    }
    proof {
        assert(out@.map_values(|y: Fq2<C>| y@) =~= bits_spec(v as nat, len as nat));
    }
    out
}

/// `eq(x, e) = prod_i (e_i x_i + (1 - x_i)(1 - e_i))`.
pub fn eq<C: FieldConfig>(x: &[Fq2<C>], e: &[Fq2<C>]) -> (r: Fq2<C>)
    requires
        x@.len() == e@.len(),
    ensures
        r@ == eq_spec(
            C::spec_modulus(),
            x@.map_values(|y: Fq2<C>| y@),
            e@.map_values(|y: Fq2<C>| y@),
            x@.len() as nat,
        ),
{
    let ghost p = C::spec_modulus();
    let ghost xs = x@.map_values(|y: Fq2<C>| y@);
    let ghost es = e@.map_values(|y: Fq2<C>| y@);
    let one = Fq2::<C>::one();
    let mut acc = Fq2::<C>::one();
    let mut i: usize = 0;
    while i < x.len()
        invariant
            p == C::spec_modulus(),
            xs == x@.map_values(|y: Fq2<C>| y@),
            es == e@.map_values(|y: Fq2<C>| y@),
            x@.len() == e@.len(),
            one@ == fq2_one(),
            i <= x@.len(),
            acc@ == eq_spec(p, xs, es, i as nat),
        decreases x@.len() - i,
    {
        let x_i = x[i];
        let e_i = e[i];
        let t = e_i.mul(&x_i).add(&one.sub(&x_i).mul(&one.sub(&e_i)));
        acc = acc.mul(&t);
        i = i + 1;
    }
    acc
}

/// Bit `i + 1` of `a` is bit `i` of `a / 2`.
proof fn lemma_bit_of_half(a: nat, i: nat)
    ensures
        bit_of(a, i + 1) == bit_of(a / 2, i),
{
    lemma_pow2_unfold(i + 1);
    lemma_pow2_pos(i);
    lemma_div_denominator(a as int, 2, pow2(i) as int);
    vstd::arithmetic::mul::lemma_mul_is_commutative(2, pow2(i) as int);
}

/// Two numbers below `2^n` with the same low `n` bits are equal.
pub proof fn lemma_bits_unique(a: nat, b: nat, n: nat)
    requires
        a < pow2(n),
        b < pow2(n),
        forall|i: nat| i < n ==> #[trigger] bit_of(a, i) == bit_of(b, i),
    ensures
        a == b,
    decreases n,
{
    if n == 0 {
        lemma2_to64();
    } else {
        lemma_pow2_unfold(n);
        assert forall|i: nat| i < (n - 1) as nat implies #[trigger] bit_of(a / 2, i) == bit_of(b / 2, i) by {
            lemma_bit_of_half(a, i);
            lemma_bit_of_half(b, i);
            assert(bit_of(a, i + 1) == bit_of(b, i + 1));
        }
        lemma_fundamental_div_mod(a as int, 2);
        lemma_fundamental_div_mod(b as int, 2);
        lemma_lt_halves(a, (n - 1) as nat);
        lemma_lt_halves(b, (n - 1) as nat);
        lemma_bits_unique(a / 2, b / 2, (n - 1) as nat);
        lemma2_to64();
        assert(bit_of(a, 0) == bit_of(b, 0));
        assert(a / pow2(0) == a);
        assert(b / pow2(0) == b);
    }
}

proof fn lemma_lt_halves(a: nat, m: nat)
    requires
        a < 2 * pow2(m),
    ensures
        a / 2 < pow2(m),
{
    vstd::arithmetic::div_mod::lemma_div_by_multiple_is_strongly_ordered(a as int, 2 * pow2(m) as int, pow2(m) as int, 2);
}

/// The factor `e x + (1 - x)(1 - e)` on Boolean coordinates is `1` when they
/// agree and `0` when they differ.
proof fn lemma_eq_factor_bool(p: nat, x: bool, e: bool)
    requires
        p >= 2,
    ensures
        eq_factor(
            p,
            if x { fq2_one() } else { (0nat, 0nat) },
            if e { fq2_one() } else { (0nat, 0nat) },
        ) == (if x == e { fq2_one() } else { (0nat, 0nat) }),
{
    lemma_small_mod(0, p);
    lemma_small_mod(1, p);
    lemma_mod_self_0(p as int);
    let one = fq2_one();
    let zero = (0nat, 0nat);
    assert(fq2_sub(p, one, one) == zero);
    assert(fq2_sub(p, one, zero) == one);
    assert(fq2_mul(p, one, one) == one);
    assert(fq2_mul(p, one, zero) == zero);
    assert(fq2_mul(p, zero, one) == zero);
    assert(fq2_mul(p, zero, zero) == zero);
    assert(fq2_add(p, one, zero) == one);
    assert(fq2_add(p, zero, one) == one);
    assert(fq2_add(p, zero, zero) == zero);
}

/// `eq` on two Boolean points is `1` when all coordinates agree, else `0`.
proof fn lemma_eq_bool_points(p: nat, a: nat, b: nat, len: nat, n: nat)
    requires
        p >= 2,
        n <= len,
    ensures
        eq_spec(p, bits_spec(a, len), bits_spec(b, len), n) == (if (forall|i: nat|
            i < n ==> #[trigger] bit_of(a, i) == bit_of(b, i)) {
            fq2_one()
        } else {
            (0nat, 0nat)
        }),
    decreases n,
{
    if n == 0 {
    } else {
        let m = (n - 1) as nat;
        lemma_eq_bool_points(p, a, b, len, m);
        lemma_eq_factor_bool(p, bit_of(a, m), bit_of(b, m));
        let prev = eq_spec(p, bits_spec(a, len), bits_spec(b, len), m);
        let f = eq_factor(p, bits_spec(a, len)[m as int], bits_spec(b, len)[m as int]);
        lemma_fq2_mul_one(p, fq2_one());
        lemma_small_mod(0, p);
        if forall|i: nat| i < n ==> #[trigger] bit_of(a, i) == bit_of(b, i) {
            assert(forall|i: nat| i < m ==> #[trigger] bit_of(a, i) == bit_of(b, i));
        } else {
            let w = choose|i: nat| i < n && !(#[trigger] bit_of(a, i) == bit_of(b, i));
            if w == m {
                assert(f == (0nat, 0nat));
            } else {
                assert(!(forall|i: nat| i < m ==> #[trigger] bit_of(a, i) == bit_of(b, i)));
                assert(prev == (0nat, 0nat));
            }
        }
    }
}

/// Partial sums of the terms: zero before `j`, `v[j]` from `j` on.
proof fn lemma_single_term_sum(p: nat, t: Seq<Fq2Value>, j: int, m: int)
    requires
        p >= 2,
        0 <= j < t.len(),
        0 <= m <= t.len(),
        fq2_canonical(p, t[j]),
        forall|i: int| 0 <= i < t.len() && i != j ==> #[trigger] t[i] == (0nat, 0nat),
    ensures
        fq2_sum(p, t.take(m)) == (if m > j { t[j] } else { (0nat, 0nat) }),
    decreases m,
{
    lemma_small_mod(0, p);
    if m > 0 {
        lemma_single_term_sum(p, t, j, m - 1);
        assert(t.take(m).drop_last() == t.take(m - 1));
        assert(t.take(m).last() == t[m - 1]);
        lemma_small_mod(t[j].0, p);
        lemma_small_mod(t[j].1, p);
    }
}

/// The multilinear extension takes the value `v[j]` at the Boolean point of
/// `j`: it interpolates `v` on the hypercube.
pub proof fn lemma_mle_interpolates(p: nat, v: Seq<Fq2Value>, n: nat, j: nat)
    requires
        p >= 2,
        v.len() == pow2(n),
        j < pow2(n),
        forall|i: int| 0 <= i < v.len() ==> fq2_canonical(p, #[trigger] v[i]),
    ensures
        mle_spec(p, v, bits_spec(j, n)) == v[j as int],
{
    let x = bits_spec(j, n);
    let t = mle_terms(p, v, x);
    assert forall|i: int| 0 <= i < t.len() && i != j implies #[trigger] t[i] == (0nat, 0nat) by {
        lemma_eq_bool_points(p, j, i as nat, n, n);
        let all_equal = forall|k: nat| k < n ==> #[trigger] bit_of(j, k) == bit_of(i as nat, k);
        if all_equal {
            lemma_bits_unique(j, i as nat, n);
        }
        assert(!all_equal);
        lemma_small_mod(0, p);
        assert(x.len() == n);
        assert(eq_spec(p, x, bits_spec(i as nat, n), n) == (0nat, 0nat));
        assert(t[i] == fq2_mul(p, v[i], (0nat, 0nat)));
        assert(v[i].0 * 0 == 0 && v[i].1 * 0 == 0);
        assert(fq2_mul(p, v[i], (0nat, 0nat)) == (0nat, 0nat));
    }
    lemma_eq_bool_points(p, j, j, n, n);
    lemma_fq2_mul_one(p, v[j as int]);
    assert(t[j as int] == v[j as int]);
    lemma_single_term_sum(p, t, j as int, t.len() as int);
    assert(t.take(t.len() as int) == t);
}

} // verus!
