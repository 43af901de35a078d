//! Elements of the cyclotomic ring `R_q = F[X] / (X^D + 1)`, held as their
//! `D` coefficients, with the negacyclic product.
use crate::field::{bit_of, FieldConfig, Fp};
use crate::rng::{sampling_message, sampling_seed, sha256, std_rng_from_seed};
use vstd::utf8::encode_utf8;
use crate::sums::{sum_range, sum_to};
use crate::vector::values;
use crate::D;
use vstd::arithmetic::div_mod::*;
use vstd::arithmetic::mul::*;
use vstd::prelude::*;

verus! {

/// `q` is what `Rq::from_digest` yields on the SHA-256 digest of
/// `(seed, row, column)`: the column `(row, column)` of the public matrix of
/// `seed`.
pub open spec fn is_sampled_ring<C: FieldConfig>(seed: Seq<char>, row: nat, column: nat, q: Rq<C>) -> bool {
    exists|d: [u8; 32]|
        d@ == sha256(sampling_message(encode_utf8(seed), row, column)) && #[trigger] call_ensures(
            Rq::<C>::from_digest,
            (d,),
            q,
        )
}

/// Law: the column `(row, column)` that `Rq::reject_sampling` returns is the
/// one the generator seeded with the digest of exactly that
/// `(seed, row, column)` yields.
pub proof fn lemma_rq_reject_sampling_uses_its_digest<C: FieldConfig>(seed: &str, row: usize, column: usize, r: Rq<C>)
    requires
        call_ensures(Rq::<C>::reject_sampling, (seed, row, column), r),
    ensures
        is_sampled_ring::<C>(seed@, row as nat, column as nat, r),
{
}

/// `(k - j) mod D` for `0 <= k, j < D`.
pub open spec fn wrap(k: int, j: int) -> int {
    if j <= k {
        k - j
    } else {
        k - j + D
    }
}

/// The contribution of `b[j]` to coefficient `k` of `a * b` in
/// `Z[X] / (X^D + 1)`: `a[(k - j) mod D] * b[j]`, negated when it wraps.
pub open spec fn nega_term(a: Seq<nat>, b: Seq<nat>, k: int, j: int) -> int {
    if j <= k {
        (a[wrap(k, j)] * b[j]) as int
    } else {
        -(a[wrap(k, j)] * b[j])
    }
}

/// Coefficient `k` of the negacyclic product `a * b` over the integers.
pub open spec fn negacyclic_coeff(a: Seq<nat>, b: Seq<nat>, k: int) -> int {
    sum_to(|j: int| nega_term(a, b, k, j), D as int)
}

/// `x` or `-x`.
pub open spec fn signed(negate: bool, x: int) -> int {
    if negate {
        -x
    } else {
        x
    }
}

/// Reducing a signed factor before multiplying does not change the residue.
pub proof fn lemma_signed_mul_mod(p: int, negate: bool, x: int, y: int)
    requires
        p > 0,
    ensures
        ((signed(negate, x) % p) * y) % p == signed(negate, x * y) % p,
{
    lemma_mul_mod_noop_left(signed(negate, x), y, p);
    if negate {
        lemma_mul_unary_negation(x, y);
    }
}

/// `(x * y) mod p`, negated when `negate` holds.
pub fn signed_mul<C: FieldConfig>(x: &Fp<C>, y: &Fp<C>, negate: bool) -> (r: Fp<C>)
    ensures
        r@ == signed(negate, (x@ * y@) as int) % (C::spec_modulus() as int),
{
    let t = x.mul(y);
    proof {
        C::lemma_modulus_range();
        lemma_sub_mod_noop(0, (x@ * y@) as int, C::spec_modulus() as int);
        lemma_small_mod(0, C::spec_modulus());
    }
    if negate {
        t.neg()
    } else {
        t
    }
}

/// `acc + t (mod p)` tracks the integer sum of the terms.
pub proof fn lemma_accumulate(p: int, s: int, t: int)
    requires
        p > 0,
    ensures
        ((s % p) + (t % p)) % p == (s + t) % p,
{
    lemma_add_mod_noop(s, t, p);
}

/// A ring element `sum_i c_i X^i` of `F[X] / (X^D + 1)`.
pub struct Rq<C: FieldConfig>([Fp<C>; D]);

impl<C: FieldConfig> View for Rq<C> {
    type V = Seq<nat>;

    /// The residues of the coefficients, lowest degree first.
    closed spec fn view(&self) -> Seq<nat> {
        values(self.0@)
    }
}

impl<C: FieldConfig> Rq<C> {
    pub fn from_coeffs(coeffs: [Fp<C>; D]) -> (r: Self)
        ensures
            r@ == values(coeffs@),
    {
        Rq(coeffs)
    }

    pub fn coeffs(&self) -> (r: [Fp<C>; D])
        ensures
            values(r@) == self@,
    {
        self.0
    }

    /// The negacyclic rotation matrix: row `i` holds the coefficients of
    /// `X^i * self`, with the wrapped-around entries negated.
    pub fn rot(&self) -> (r: [[Fp<C>; D]; D])
        ensures
            forall|i: int, j: int|
                0 <= i < D && 0 <= j < D ==> #[trigger] r@[i]@[j]@ == signed(
                    j < i,
                    self@[wrap(j, i)] as int,
                ) % (C::spec_modulus() as int),
    {
        let ghost a = self@;
        let ghost p = C::spec_modulus() as int;
        proof {
            C::lemma_modulus_range();
        }
        let mut out = [[Fp::<C>::zero();D];D];
        let mut i: usize = 0;
        while i < D
            invariant
                a == self@,
                p == C::spec_modulus() as int,
                p >= 2,
                i <= D,
                forall|s: int, j: int|
                    0 <= s < i && 0 <= j < D ==> #[trigger] out@[s]@[j]@ == signed(
                        j < s,
                        a[wrap(j, s)] as int,
                    ) % p,
            decreases D - i,
        {
            let mut row = [Fp::<C>::zero();D];
            let mut j: usize = 0;
            while j < D
                invariant
                    a == self@,
                    p == C::spec_modulus() as int,
                    p >= 2,
                    i < D,
                    j <= D,
                    forall|t: int|
                        0 <= t < j ==> #[trigger] row@[t]@ == signed(t < i, a[wrap(t, i as int)] as int) % p,
                decreases D - j,
            {
                let idx = (j + D - i) % D;
                let v = self.0[idx];
                let _ = v.value();
                proof {
                    assert(idx == wrap(j as int, i as int));
                    assert(a[wrap(j as int, i as int)] == v@);
                    lemma_small_mod(v@, p as nat);
                }
                if j < i {
                    row[j] = v.neg();
                } else {
                    row[j] = v;
                }
                j = j + 1;
            }
            out[i] = row;
            i = i + 1;
        }
        out
    }

    /// `self * rhs` in `F[X] / (X^D + 1)`, computed as `sum_i rhs_i * (X^i * self)`.
    pub fn mul(&self, rhs: &Self) -> (r: Self)
        ensures
            forall|k: int|
                0 <= k < D ==> #[trigger] r@[k] == negacyclic_coeff(self@, rhs@, k) % (
                C::spec_modulus() as int),
    {
        let ghost a = self@;
        let ghost b = rhs@;
        let ghost p = C::spec_modulus() as int;
        proof {
            C::lemma_modulus_range();
        }
        let rot = self.rot();
        let mut c = [Fp::<C>::zero();D];
        proof {
            assert forall|k: int| 0 <= k < D implies #[trigger] c@[k]@ == sum_range(
                |j: int| nega_term(a, b, k, j),
                0,
                0,
            ) % p by {
                lemma_small_mod(0, p as nat);
            }
        }
        let mut i: usize = 0;
        while i < D
            invariant
                a == self@,
                b == rhs@,
                p == C::spec_modulus() as int,
                p >= 2,
                i <= D,
                forall|s: int, j: int|
                    0 <= s < D && 0 <= j < D ==> #[trigger] rot@[s]@[j]@ == signed(
                        j < s,
                        a[wrap(j, s)] as int,
                    ) % p,
                forall|k: int|
                    0 <= k < D ==> #[trigger] c@[k]@ == sum_range(
                        |j: int| nega_term(a, b, k, j),
                        0,
                        i as int,
                    ) % p,
            decreases D - i,
        {
            let b_i = rhs.0[i];
            let mut j: usize = 0;
            while j < D
                invariant
                    a == self@,
                    b == rhs@,
                    b_i@ == b[i as int],
                    p == C::spec_modulus() as int,
                    p >= 2,
                    i < D,
                    j <= D,
                    forall|s: int, t: int|
                        0 <= s < D && 0 <= t < D ==> #[trigger] rot@[s]@[t]@ == signed(
                            t < s,
                            a[wrap(t, s)] as int,
                        ) % p,
                    forall|k: int|
                        0 <= k < j ==> #[trigger] c@[k]@ == sum_range(
                            |t: int| nega_term(a, b, k, t),
                            0,
                            i + 1,
                        ) % p,
                    forall|k: int|
                        j <= k < D ==> #[trigger] c@[k]@ == sum_range(
                            |t: int| nega_term(a, b, k, t),
                            0,
                            i as int,
                        ) % p,
                decreases D - j,
            {
                let r_ij = rot[i][j];
                let t = r_ij.mul(&b_i);
                let cj = c[j];
                let ghost s = sum_range(|t: int| nega_term(a, b, j as int, t), 0, i as int);
                proof {
                    assert(r_ij@ == signed((j as int) < (i as int), a[wrap(j as int, i as int)] as int) % p);
                    lemma_signed_mul_mod(p, (j as int) < (i as int), a[wrap(j as int, i as int)] as int, b[i as int] as int);
                    assert(t@ == nega_term(a, b, j as int, i as int) % p);
                    lemma_accumulate(p, s, nega_term(a, b, j as int, i as int));
                    lemma_mod_twice(s, p);
                }
                c[j] = cj.add(&t);
                j = j + 1;
            }
            i = i + 1;
        }
        Rq(c)
    }

    /// Coefficient-wise sum.
    pub fn add(&self, rhs: &Self) -> (r: Self)
        ensures
            forall|k: int| 0 <= k < D ==> #[trigger] r@[k] == (self@[k] + rhs@[k]) % C::spec_modulus(),
    {
        let mut c = self.0;
        let mut i: usize = 0;
        while i < D
            invariant
                i <= D,
                forall|k: int| 0 <= k < i ==> #[trigger] c@[k]@ == (self@[k] + rhs@[k]) % C::spec_modulus(),
                forall|k: int| i <= k < D ==> #[trigger] c@[k] == self.0@[k],
            decreases D - i,
        {
            let ci = c[i];
            c[i] = ci.add(&rhs.0[i]);
            i = i + 1;
        }
        Rq(c)
    }

    /// The ring element the generator seeded with `digest` yields: `D`
    /// nonzero coefficients, drawn one after another from that generator.
    pub fn from_digest(digest: [u8; 32]) -> (r: Self)
        ensures
            forall|i: int| 0 <= i < D ==> 0 < #[trigger] r@[i] < C::spec_modulus(),
    {
        let mut rng = std_rng_from_seed(digest);
        let mut c = [Fp::<C>::zero();D];
        let mut i: usize = 0;
        while i < D
            invariant
                i <= D,
                forall|k: int| 0 <= k < i ==> 0 < #[trigger] c@[k]@ < C::spec_modulus(),
            decreases D - i,
        {
            c[i] = Fp::random_nonzero(&mut rng);
            i = i + 1;
        }
        Rq(c)
    }

    /// The column `(row, column)` of the public commitment matrix: a
    /// generator seeded with `sampling_seed(seed, row, column)` draws `D`
    /// nonzero coefficients.
    pub fn reject_sampling(seed: &str, row: usize, column: usize) -> (r: Self)
        ensures
            forall|i: int| 0 <= i < D ==> 0 < #[trigger] r@[i] < C::spec_modulus(),
            is_sampled_ring::<C>(seed@, row as nat, column as nat, r),
    {
        let digest = sampling_seed(seed, row, column);
        let r = Self::from_digest(digest);
        proof {
            assert(call_ensures(Self::from_digest, (digest,), r));
        }
        r
    }

    /// The ring element whose coefficient `i` is bit `i` of `zq`.
    pub fn from_zq(zq: Fp<C>) -> (r: Self)
        ensures
            forall|i: int| 0 <= i < D ==> #[trigger] r@[i] == (if bit_of(zq@, i as nat) { 1nat } else { 0nat }),
    {
        let mut c = [Fp::<C>::zero();D];
        let mut i: usize = 0;
        while i < D
            invariant
                i <= D,
                forall|k: int| 0 <= k < i ==> #[trigger] c@[k]@ == (if bit_of(zq@, k as nat) { 1nat } else { 0nat }),
                forall|k: int| i <= k < D ==> #[trigger] c@[k]@ == 0,
            decreases D - i,
        {
            if zq.get_bit(i) {
                c[i] = Fp::one();
            }
            i = i + 1;
        }
        Rq(c)
    }
}

} // verus!
