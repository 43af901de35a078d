//! Helpers of the CCS reduction: powers of a challenge, the linear round
//! polynomial of sumcheck, the tensor `r_hat` and the Boolean hypercube.
use crate::field::{bit_of, FieldConfig, Fp};
use crate::fq2::{
    fq2_add, fq2_canonical, fq2_mul, fq2_one, fq2_pow, fq2_sub, fq2_sum, lemma_fq2_add_assoc,
    lemma_fq2_mul_distrib, lemma_fq2_mul_one, Fq2, Fq2Value,
};
use vstd::arithmetic::div_mod::*;
use vstd::arithmetic::power2::*;
use vstd::prelude::*;

verus! {

/// `[x * t, x * (1 - t)]` for every `x` of `v`, in order.
pub open spec fn expand(p: nat, v: Seq<Fq2Value>, t: Fq2Value) -> Seq<Fq2Value> {
    Seq::new(
        2 * v.len(),
        |i: int|
            if i % 2 == 0 {
                fq2_mul(p, v[i / 2], t)
            } else {
                fq2_mul(p, v[i / 2], fq2_sub(p, fq2_one(), t))
            },
    )
}

/// `r_hat(r) = (r_1, 1 - r_1) (x) ... (x) (r_m, 1 - r_m)`.
pub open spec fn r_hat_spec(p: nat, r: Seq<Fq2Value>) -> Seq<Fq2Value>
    decreases r.len(),
{
    if r.len() == 0 {
        seq![fq2_one()]
    } else {
        expand(p, r_hat_spec(p, r.drop_last()), r.last())
    }
}

/// The Boolean point of `k` with `n` coordinates, most significant bit first.
pub open spec fn pattern_spec(k: nat, n: nat) -> Seq<Fq2Value> {
    Seq::new(n, |i: int| if bit_of(k, (n - 1 - i) as nat) { fq2_one() } else { (0nat, 0nat) })
}

/// The first `n` powers `1, gamma, gamma^2, ...`.
pub fn powers_of<C: FieldConfig>(gamma: Fq2<C>, n: usize) -> (r: Vec<Fq2<C>>)
    ensures
        r@.len() == n,
        forall|i: int| 0 <= i < n ==> (#[trigger] r@[i])@ == fq2_pow(C::spec_modulus(), gamma@, i as nat),
{
    let mut out: Vec<Fq2<C>> = Vec::with_capacity(n);
    let mut cur = Fq2::<C>::one();
    let mut i: usize = 0;
    while i < n
        invariant
            i <= n,
            out@.len() == i,
            cur@ == fq2_pow(C::spec_modulus(), gamma@, i as nat),
            forall|k: int| 0 <= k < i ==> (#[trigger] out@[k])@ == fq2_pow(C::spec_modulus(), gamma@, k as nat),
        decreases n - i,
    {
        out.push(cur);
        cur = cur.mul(&gamma);
        i = i + 1;
    }
    out
}

/// The linear polynomial `a x + b` with value `eval_at_0` at `0` and
/// `eval_at_1` at `1`, as `(a, b)`.
pub fn coeffs_from_evaluation<C: FieldConfig>(eval_at_0: Fq2<C>, eval_at_1: Fq2<C>) -> (r: (Fq2<C>, Fq2<C>))
    ensures
        r.0@ == fq2_sub(C::spec_modulus(), eval_at_1@, eval_at_0@),
        r.1 == eval_at_0,
{
    let a = eval_at_1.sub(&eval_at_0);
    let b = eval_at_0;
    (a, b)
}

/// The round polynomial `a x + b` of `coeffs_from_evaluation` takes the two
/// given values at `0` and `1`.
pub proof fn lemma_round_polynomial(p: nat, e0: Fq2Value, e1: Fq2Value)
    requires
        p >= 2,
        fq2_canonical(p, e0),
        fq2_canonical(p, e1),
    ensures
        fq2_add(p, fq2_mul(p, (0nat, 0nat), fq2_sub(p, e1, e0)), e0) == e0,
        fq2_add(p, fq2_mul(p, fq2_one(), fq2_sub(p, e1, e0)), e0) == e1,
{
    let a = fq2_sub(p, e1, e0);
    lemma_small_mod(0, p);
    lemma_small_mod(e0.0, p);
    lemma_small_mod(e0.1, p);
    lemma_mod_bound(e1.0 - e0.0, p as int);
    lemma_mod_bound(e1.1 - e0.1, p as int);
    lemma_fq2_mul_one(p, a);
    // a + e0 == e1
    let pi = p as int;
    lemma_add_mod_noop(e1.0 - e0.0, e0.0 as int, pi);
    lemma_add_mod_noop(e1.1 - e0.1, e0.1 as int, pi);
    lemma_mod_twice(e0.0 as int, pi);
    lemma_mod_twice(e0.1 as int, pi);
    lemma_small_mod(e1.0, p);
    lemma_small_mod(e1.1, p);
}

/// `r_hat(r)`: the `2^m` products `prod_i (r_i or 1 - r_i)`, expanded one
/// coordinate at a time with `r_i` before `1 - r_i`.
pub fn r_hat<C: FieldConfig>(r: &[Fq2<C>]) -> (v: Vec<Fq2<C>>)
    requires
        r@.len() < usize::BITS,
    ensures
        v@.map_values(|y: Fq2<C>| y@) == r_hat_spec(C::spec_modulus(), r@.map_values(|y: Fq2<C>| y@)),
        v@.len() == pow2(r@.len() as nat),
{
    let ghost p = C::spec_modulus();
    let ghost rs = r@.map_values(|y: Fq2<C>| y@);
    let one = Fq2::<C>::one();
    let mut v: Vec<Fq2<C>> = Vec::new();
    v.push(one);
    proof {
        lemma2_to64();
        assert(v@.map_values(|y: Fq2<C>| y@) =~= r_hat_spec(p, rs.take(0)));
    }
    let mut k: usize = 0;
    while k < r.len()
        invariant
            p == C::spec_modulus(),
            rs == r@.map_values(|y: Fq2<C>| y@),
            r@.len() < usize::BITS,
            one@ == fq2_one(),
            k <= r@.len(),
            v@.len() == pow2(k as nat),
            v@.map_values(|y: Fq2<C>| y@) == r_hat_spec(p, rs.take(k as int)),
        decreases r@.len() - k,
    {
        let t = r[k];
        let ghost vs = v@.map_values(|y: Fq2<C>| y@);
        proof {
            lemma_pow2_unfold((k + 1) as nat);
            vstd::arithmetic::power2::lemma_pow2_strictly_increases((k + 1) as nat, usize::BITS as nat);
            assert(pow2(usize::BITS as nat) - 1 <= usize::MAX) by {
                lemma2_to64();
                if usize::BITS == 32 {
                    assert(pow2(32) == 0x100000000);
                } else {
                    assert(pow2(64) == 0x10000000000000000);
                }
            }
        }
        let mut next: Vec<Fq2<C>> = Vec::with_capacity(v.len() * 2);
        let mut j: usize = 0;
        while j < v.len()
            invariant
                p == C::spec_modulus(),
                one@ == fq2_one(),
                vs == v@.map_values(|y: Fq2<C>| y@),
                j <= v@.len(),
                next@.len() == 2 * j,
                forall|i: int| 0 <= i < 2 * j ==> (#[trigger] next@[i])@ == expand(p, vs, t@)[i],
            decreases v@.len() - j,
        {
            let x = v[j];
            next.push(x.mul(&t));
            next.push(x.mul(&one.sub(&t)));
            proof {
                assert((2 * j) / 2 == j);
                assert((2 * j + 1) / 2 == j);
                assert((2 * j) % 2 == 0);
                assert((2 * j + 1) % 2 == 1);
            }
            j = j + 1;
        }
        proof {
            assert(rs.take(k + 1).drop_last() == rs.take(k as int));
            assert(rs.take(k + 1).last() == t@);
            assert(next@.map_values(|y: Fq2<C>| y@) =~= expand(p, vs, t@));
        }
        v = next;
        k = k + 1;
    }
    proof {
        assert(rs.take(r@.len() as int) == rs);
    }
    v
}

/// The entries of `r_hat(r)` sum to one: `sum_x prod_i (r_i or 1 - r_i) =
/// prod_i (r_i + 1 - r_i) = 1`.
pub proof fn lemma_r_hat_sums_to_one(p: nat, r: Seq<Fq2Value>)
    requires
        p >= 2,
        forall|i: int| 0 <= i < r.len() ==> fq2_canonical(p, #[trigger] r[i]),
    ensures
        fq2_sum(p, r_hat_spec(p, r)) == fq2_one(),
    decreases r.len(),
{
    if r.len() == 0 {
        let s = seq![fq2_one()];
        assert(r_hat_spec(p, r) == s);
        assert(s.drop_last() =~= Seq::<Fq2Value>::empty());
        assert(s.last() == fq2_one());
        lemma_small_mod(0, p);
        lemma_small_mod(1, p);
        assert(s.drop_last().len() == 0);
        assert(fq2_sum(p, s.drop_last()) == (0nat, 0nat));
        assert(fq2_sum(p, s) == fq2_add(p, (0nat, 0nat), fq2_one()));
    } else {
        let rest = r.drop_last();
        lemma_r_hat_sums_to_one(p, rest);
        lemma_r_hat_canonical(p, rest);
        let v = r_hat_spec(p, rest);
        lemma_expand_sum(p, v, r.last(), v.len() as int);
        assert(expand(p, v, r.last()).take(2 * v.len() as int) == expand(p, v, r.last()));
        assert(v.take(v.len() as int) == v);
    }
}

/// Every entry of `r_hat` is canonical.
proof fn lemma_r_hat_canonical(p: nat, r: Seq<Fq2Value>)
    requires
        p >= 2,
    ensures
        forall|i: int| 0 <= i < r_hat_spec(p, r).len() ==> fq2_canonical(p, #[trigger] r_hat_spec(p, r)[i]),
    decreases r.len(),
{
    if r.len() > 0 {
        let v = r_hat_spec(p, r.drop_last());
        assert forall|i: int| 0 <= i < r_hat_spec(p, r).len() implies fq2_canonical(p, #[trigger] r_hat_spec(p, r)[i]) by {
            let t = r.last();
            let u = if i % 2 == 0 { t } else { fq2_sub(p, fq2_one(), t) };
            let x = v[i / 2];
            lemma_mod_bound((x.0 * u.0 + 3 * (x.1 * u.1)) as int, p as int);
            lemma_mod_bound((x.0 * u.1 + x.1 * u.0) as int, p as int);
        }
    }
}

/// Summing the first `2m` entries of `expand(v, t)` gives the sum of the
/// first `m` entries of `v`.
proof fn lemma_expand_sum(p: nat, v: Seq<Fq2Value>, t: Fq2Value, m: int)
    requires
        p >= 2,
        fq2_canonical(p, t),
        0 <= m <= v.len(),
        forall|i: int| 0 <= i < v.len() ==> fq2_canonical(p, #[trigger] v[i]),
    ensures
        fq2_sum(p, expand(p, v, t).take(2 * m)) == fq2_sum(p, v.take(m)),
    decreases m,
{
    let e = expand(p, v, t);
    if m == 0 {
        assert(e.take(0) =~= Seq::<Fq2Value>::empty());
        assert(v.take(0) =~= Seq::<Fq2Value>::empty());
    } else {
        lemma_expand_sum(p, v, t, m - 1);
        let x = v[m - 1];
        let u = fq2_sub(p, fq2_one(), t);
        let s = fq2_sum(p, e.take(2 * m - 2));
        assert(e.take(2 * m).drop_last() == e.take(2 * m - 1));
        assert(e.take(2 * m - 1).drop_last() == e.take(2 * m - 2));
        assert((2 * m - 1) / 2 == m - 1);
        assert((2 * m - 2) / 2 == m - 1);
        assert(e.take(2 * m).last() == fq2_mul(p, x, u));
        assert(e.take(2 * m - 1).last() == fq2_mul(p, x, t));
        assert(e.take(2 * m).len() > 0);
        assert(e.take(2 * m - 1).len() > 0);
        assert(fq2_sum(p, e.take(2 * m - 1)) == fq2_add(p, s, fq2_mul(p, x, t)));
        assert(fq2_sum(p, e.take(2 * m)) == fq2_add(p, fq2_add(p, s, fq2_mul(p, x, t)), fq2_mul(p, x, u)));
        lemma_fq2_add_assoc(p, s, fq2_mul(p, x, t), fq2_mul(p, x, u));
        lemma_fq2_mul_distrib(p, x, t, u);
        lemma_one_split(p, t);
        lemma_fq2_mul_one(p, x);
        assert(fq2_add(p, fq2_mul(p, x, t), fq2_mul(p, x, u)) == x);
        assert(v.take(m).drop_last() == v.take(m - 1));
        assert(v.take(m).last() == x);
        assert(fq2_sum(p, v.take(m)) == fq2_add(p, fq2_sum(p, v.take(m - 1)), x));
    }
}

/// `t + (1 - t) == 1` for canonical `t`.
proof fn lemma_one_split(p: nat, t: Fq2Value)
    requires
        p >= 2,
        fq2_canonical(p, t),
    ensures
        fq2_add(p, t, fq2_sub(p, fq2_one(), t)) == fq2_one(),
{
    let pi = p as int;
    lemma_add_mod_noop(t.0 as int, 1 - t.0, pi);
    lemma_add_mod_noop(t.1 as int, 0 - t.1, pi);
    lemma_small_mod(t.0, p);
    lemma_small_mod(t.1, p);
    lemma_small_mod(1, p);
    lemma_small_mod(0, p);
    lemma_mod_twice(1 - t.0, pi);
    lemma_mod_twice(0 - t.1, pi);
    lemma_mod_bound(1 - t.0, pi);
    lemma_mod_bound(0 - t.1, pi);
}

/// All `2^n` Boolean points with `n` coordinates, in the order of the
/// n-fold Cartesian product of `[false, true]` (last coordinate fastest).
pub fn all_bool_patterns<C: FieldConfig>(n: usize) -> (r: Vec<Vec<Fq2<C>>>)
    requires
        n < usize::BITS,
    ensures
        r@.len() == pow2(n as nat),
        forall|k: int| 0 <= k < r@.len() ==> (#[trigger] r@[k])@.map_values(|y: Fq2<C>| y@) == pattern_spec(k as nat, n as nat),
{
    let one = Fp::<C>::one();
    let zero = Fp::<C>::zero();
    let mut count: usize = 1;
    let mut t: usize = 0;
    proof {
        lemma2_to64();
    }
    while t < n
        invariant
            t <= n,
            n < usize::BITS,
            count == pow2(t as nat),
        decreases n - t,
    {
        proof {
            lemma_pow2_unfold((t + 1) as nat);
            vstd::arithmetic::power2::lemma_pow2_strictly_increases((t + 1) as nat, usize::BITS as nat);
            assert(pow2(usize::BITS as nat) - 1 <= usize::MAX) by {
                lemma2_to64();
                if usize::BITS == 32 {
                    assert(pow2(32) == 0x100000000);
                } else {
                    assert(pow2(64) == 0x10000000000000000);
                }
            }
        }
        count = count * 2;
        t = t + 1;
    }
    let mut out: Vec<Vec<Fq2<C>>> = Vec::with_capacity(count);
    let mut k: usize = 0;
    while k < count
        invariant
            count == pow2(n as nat),
            n < usize::BITS,
            one@ == 1,
            zero@ == 0,
            k <= count,
            out@.len() == k,
            forall|s: int| 0 <= s < k ==> (#[trigger] out@[s])@.map_values(|y: Fq2<C>| y@) == pattern_spec(s as nat, n as nat),
        decreases count - k,
    {
        let mut point: Vec<Fq2<C>> = Vec::with_capacity(n);
        let mut i: usize = 0;
        while i < n
            invariant
                n < usize::BITS,
                one@ == 1,
                zero@ == 0,
                i <= n,
                point@.len() == i,
                forall|c: int| 0 <= c < i ==> (#[trigger] point@[c])@ == pattern_spec(k as nat, n as nat)[c],
            decreases n - i,
        {
            let shift = (n - 1 - i) as u64;
            let x = k as u64;
            let shifted = x >> shift;
            proof {
                vstd::bits::lemma_u64_shr_is_div(x, shift);
                assert(shifted & 1 == shifted % 2) by (bit_vector);
            }
            let b = if shifted & 1 == 1 { one } else { zero };
            point.push(Fq2::new(b, zero));
            i = i + 1;
        }
        proof {
            assert(point@.map_values(|y: Fq2<C>| y@) =~= pattern_spec(k as nat, n as nat));
        }
        out.push(point);
        k = k + 1;
    }
    out
}

} // verus!
