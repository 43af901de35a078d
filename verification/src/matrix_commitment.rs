//! The matrix commitment over `F[X] / (X^D + 1)`: each row of the
//! commitment is `sum_j A[row][j] * bits(z_j)`, where the columns `A[row][j]`
//! are sampled from a public seed and `bits(z_j)` is the ring element whose
//! coefficients are the bits of the witness entry `z_j`. Also the negacyclic
//! rotation block, its action on vectors, and the schoolbook negacyclic
//! product it stands for.
use crate::field::{bit_of, FieldConfig, Fp, MODULUS_BIT_SIZE};
use crate::matrix::{dot, lemma_dot_is_sum};
use crate::rng::{draw_u32, is_u32_chain, std_rng_seed_from_u64};
use crate::rq::{
    is_sampled_ring, negacyclic_coeff, nega_term, signed, signed_mul, wrap, lemma_accumulate, lemma_signed_mul_mod, Rq,
};
use crate::sums::{
    lemma_sum_congruent, lemma_sum_ext, lemma_sum_negacyclic_reindex, lemma_sum_split, lemma_sum_zero, sum_range, sum_to,
};
use crate::vector::values;
use crate::{D, KAPPA};
use ark_std::rand::rngs::StdRng;
use core::marker::PhantomData;
use vstd::arithmetic::div_mod::*;
use vstd::prelude::*;

verus! {

/// The number of witness entries that a commitment reads.
pub const M: usize = 134217728;

/// Entry `(r, c)` of the negacyclic rotation block of `a`:
/// `(-1)^[r < c] * a[(r - c) mod D]`.
pub open spec fn rot_block_entry(a: Seq<nat>, r: int, c: int) -> int {
    signed(r < c, a[wrap(r, c)] as int)
}

/// The contribution of `a[i]` to coefficient `k` of `a * b`:
/// `a[i] * b[(k - i) mod D]`, negated when it wraps.
pub open spec fn nega_term_by_left(a: Seq<nat>, b: Seq<nat>, k: int, i: int) -> int {
    signed(k < i, (a[i] * b[wrap(k, i)]) as int)
}

/// The indices `i < n` at which `v` has a set bit, in increasing order.
pub open spec fn set_bits(v: nat, n: nat) -> Seq<usize>
    decreases n,
{
    if n == 0 {
        Seq::empty()
    } else if bit_of(v, (n - 1) as nat) {
        set_bits(v, (n - 1) as nat).push((n - 1) as usize)
    } else {
        set_bits(v, (n - 1) as nat)
    }
}

/// The coefficients `bit_of(v, j)` read as `0` and `1`.
pub open spec fn bit_coeffs(v: nat) -> Seq<nat> {
    Seq::new(D as nat, |j: int| if bit_of(v, j as nat) { 1nat } else { 0nat })
}

/// Coefficient `k` of `sum_{b in shifts, b < D} X^b * a` over the integers.
pub open spec fn shifted_sum(a: Seq<nat>, shifts: Seq<usize>, k: int) -> int
    decreases shifts.len(),
{
    if shifts.len() == 0 {
        0
    } else {
        shifted_sum(a, shifts.drop_last(), k) + (if (shifts.last() as int) < D {
            rot_block_entry(a, k, shifts.last() as int)
        } else {
            0
        })
    }
}

/// Coefficient `k` of `sum_{j < n} cols[j] * bits(z[j])` over the integers.
pub open spec fn commitment_coeff(cols: Seq<Seq<nat>>, z: Seq<nat>, n: int, k: int) -> int {
    sum_to(|j: int| shifted_sum(cols[j], set_bits(z[j], MODULUS_BIT_SIZE as nat), k), n)
}

/// The number of witness entries that a commitment of `z` reads.
pub open spec fn committed_len(len: nat) -> nat {
    if len <= M { len } else { M as nat }
}

/// `n` columns of `D` coefficients, each a nonzero residue below `p`.
pub open spec fn admissible_columns(cols: Seq<Seq<nat>>, n: nat, p: int) -> bool {
    &&& cols.len() == n
    &&& forall|j: int, i: int| 0 <= j < cols.len() && 0 <= i < D ==> 0 < (#[trigger] cols[j][i]) < p
    &&& forall|j: int| 0 <= j < cols.len() ==> (#[trigger] cols[j]).len() == D
}

/// The commitment row `sum_{j < n} cols[j] * bits(z[j])`, reduced modulo `p`.
pub open spec fn commitment_row_of(cols: Seq<Seq<nat>>, z: Seq<nat>, n: nat, p: int) -> Seq<nat> {
    Seq::new(D as nat, |k: int| (commitment_coeff(cols, z, n as int, k) % p) as nat)
}

/// `row` is the commitment row `sum_{j < n} cols[j] * bits(z[j])` (mod `p`)
/// for `n` admissible columns.
pub open spec fn is_commitment_row(cols: Seq<Seq<nat>>, n: nat, z: Seq<nat>, row: Seq<nat>, p: int) -> bool {
    &&& admissible_columns(cols, n, p)
    &&& row.len() == D
    &&& forall|k: int| 0 <= k < D ==> #[trigger] row[k] == commitment_coeff(cols, z, n as int, k) % p
}

/// `c` is the coefficient sequence of the sampled column `(row, column)` of
/// the public matrix of `seed`.
pub open spec fn is_sampled_coeffs<C: FieldConfig>(seed: Seq<char>, row: nat, column: nat, c: Seq<nat>) -> bool {
    exists|q: Rq<C>| #[trigger] is_sampled_ring::<C>(seed, row, column, q) && q@ == c
}

/// `cols` are the first `n` columns of row `row` of the public matrix of
/// `seed`, as coefficient sequences.
pub open spec fn is_seeded_coeff_columns<C: FieldConfig>(seed: Seq<char>, row: nat, n: nat, cols: Seq<Seq<nat>>) -> bool {
    &&& cols.len() == n
    &&& forall|j: int| 0 <= j < n ==> #[trigger] is_sampled_coeffs::<C>(seed, row, j as nat, cols[j])
}

/// `r` is row `row` of the commitment of the first `n` entries of `z` under
/// the public matrix of `seed`: `sum_{j < n} A[row][j] * bits(z_j)` (mod `p`)
/// with each `A[row][j]` the sampled column `(row, j)`.
pub open spec fn is_seeded_row<C: FieldConfig>(seed: Seq<char>, row: nat, n: nat, z: Seq<nat>, r: Seq<nat>) -> bool {
    exists|cols: Seq<Seq<nat>>|
        #[trigger] is_seeded_coeff_columns::<C>(seed, row, n, cols) && r == commitment_row_of(
            cols,
            z,
            n,
            C::spec_modulus() as int,
        )
}

/// `row` is a commitment row of `z` for some admissible columns.
pub open spec fn is_committed_row(n: nat, z: Seq<nat>, row: Seq<nat>, p: int) -> bool {
    exists|cols: Seq<Seq<nat>>| #[trigger] is_commitment_row(cols, n, z, row, p)
}

/// Zero has no set bit.
proof fn lemma_set_bits_zero(n: nat)
    ensures
        set_bits(0, n) == Seq::<usize>::empty(),
    decreases n,
{
    if n > 0 {
        lemma_set_bits_zero((n - 1) as nat);
        vstd::arithmetic::power2::lemma_pow2_pos((n - 1) as nat);
        assert(0nat / vstd::arithmetic::power2::pow2((n - 1) as nat) == 0);
        assert(!bit_of(0, (n - 1) as nat));
    }
}

/// Zero entries add nothing to a commitment: with the same columns, the
/// commitment of the first `m` entries of `z2` equals that of the first `n`
/// entries of `z` when the two agree below `n` and `z2` is zero from `n` to
/// `m`. In particular a zero witness commits to zero.
pub proof fn lemma_zero_entries_add_nothing(cols: Seq<Seq<nat>>, z: Seq<nat>, z2: Seq<nat>, n: int, m: int, k: int)
    requires
        0 <= n <= m,
        forall|j: int| 0 <= j < n ==> #[trigger] z2[j] == z[j],
        forall|j: int| n <= j < m ==> #[trigger] z2[j] == 0,
    ensures
        commitment_coeff(cols, z2, m, k) == commitment_coeff(cols, z, n, k),
{
    let f = |j: int| shifted_sum(cols[j], set_bits(z[j], MODULUS_BIT_SIZE as nat), k);
    let f2 = |j: int| shifted_sum(cols[j], set_bits(z2[j], MODULUS_BIT_SIZE as nat), k);
    lemma_sum_split(f2, 0, n, m);
    assert forall|j: int| n <= j < m implies #[trigger] f2(j) == 0 by {
        lemma_set_bits_zero(MODULUS_BIT_SIZE as nat);
    }
    lemma_sum_zero(f2, n, m);
    lemma_sum_ext(f2, f, 0, n);
}

/// The challenge coefficient a draw in `0..4` selects:
/// `0 -> -1`, `1 -> 0`, `2 -> 1`, `3 -> 2` (as residues modulo `p`).
pub open spec fn coeff_of_draw(p: nat, draw: int) -> nat {
    if draw == 0 {
        (p - 1) as nat
    } else if draw == 1 {
        0
    } else if draw == 2 {
        1
    } else {
        2nat % p
    }
}

/// The coefficients `-1, 0, 1, 2` of a challenge.
pub open spec fn is_challenge_coeff(p: nat, c: nat) -> bool {
    c == (p - 1) as nat || c == 0 || c == 1 || c == 2nat % p
}

/// `sum_{b in set_bits(v)} X^b * a` is the ring product `a * bits(v)`.
pub proof fn lemma_shifted_sum_is_product(a: Seq<nat>, v: nat, k: int)
    requires
        0 <= k < D,
        a.len() == D,
    ensures
        shifted_sum(a, set_bits(v, MODULUS_BIT_SIZE as nat), k) == negacyclic_coeff(a, bit_coeffs(v), k),
{
    lemma_shifted_prefix(a, v, k, D as nat);
    lemma_sum_ext(
        |j: int| nega_term(a, bit_coeffs(v), k, j),
        |j: int| nega_term(a, bit_coeffs(v), k, j),
        0,
        D as int,
    );
}

proof fn lemma_shifted_prefix(a: Seq<nat>, v: nat, k: int, n: nat)
    requires
        0 <= k < D,
        n <= D,
    ensures
        shifted_sum(a, set_bits(v, n), k) == sum_range(|j: int| nega_term(a, bit_coeffs(v), k, j), 0, n as int),
    decreases n,
{
    if n > 0 {
        lemma_shifted_prefix(a, v, k, (n - 1) as nat);
        let j = (n - 1) as int;
        let prev = set_bits(v, (n - 1) as nat);
        if bit_of(v, j as nat) {
            assert(set_bits(v, n) == prev.push(j as usize));
            assert(set_bits(v, n).drop_last() == prev);
            assert(bit_coeffs(v)[j] == 1);
            assert(nega_term(a, bit_coeffs(v), k, j) == rot_block_entry(a, k, j));
        } else {
            assert(bit_coeffs(v)[j] == 0);
            assert(nega_term(a, bit_coeffs(v), k, j) == 0);
        }
    }
}

/// `rot(a) * cf(b) == cf(a * b)`: applying the rotation block of `a` to the
/// coefficients of `b` gives the coefficients of the negacyclic product.
pub proof fn lemma_rotation_identity(p: nat, block_row: Seq<nat>, a: Seq<nat>, b: Seq<nat>, r: int)
    requires
        p > 0,
        0 <= r < D,
        block_row.len() == D,
        forall|c: int| 0 <= c < D ==> #[trigger] block_row[c] == rot_block_entry(a, r, c) % (p as int),
    ensures
        dot(block_row, b, D as nat) % (p as int) == negacyclic_coeff(a, b, r) % (p as int),
{
    let pi = p as int;
    lemma_dot_is_sum(block_row, b, D as nat);
    let f = |j: int| (block_row[j] * b[j]) as int;
    let g = |j: int| nega_term(a, b, r, j);
    assert forall|c: int| 0 <= c < D implies #[trigger] f(c) % pi == g(c) % pi by {
        lemma_signed_mul_mod(pi, r < c, a[wrap(r, c)] as int, b[c] as int);
    }
    lemma_sum_congruent(f, g, 0, D as int, pi);
}

/// The sum of the left-indexed terms equals the negacyclic coefficient.
proof fn lemma_left_reindex(a: Seq<nat>, b: Seq<nat>, k: int)
    requires
        0 <= k < D,
    ensures
        sum_range(|i: int| nega_term_by_left(a, b, k, i), 0, D as int) == negacyclic_coeff(a, b, k),
{
    let f = |i: int| nega_term_by_left(a, b, k, i);
    lemma_sum_negacyclic_reindex(f, D as int, k);
    let g = |j: int|
        if j <= k {
            f(k - j)
        } else {
            f(k - j + D)
        };
    assert forall|j: int| 0 <= j < D implies #[trigger] g(j) == (|t: int| nega_term(a, b, k, t))(j) by {
        if j <= k {
            assert(wrap(k, k - j) == j);
            assert(wrap(k, j) == k - j);
        } else {
            assert(wrap(k, k - j + D) == j);
            assert(wrap(k, j) == k - j + D);
        }
    }
    lemma_sum_ext(g, |t: int| nega_term(a, b, k, t), 0, D as int);
}

/// The negacyclic rotation block of `base_column`: entry `(r, c)` is
/// `(-1)^[r < c] * base_column[(r - c) mod D]`.
pub fn negacyclic_rot_block<C: FieldConfig>(base_column: &[Fp<C>; D]) -> (r: Vec<[Fp<C>; D]>)
    ensures
        r@.len() == D,
        forall|i: int, j: int|
            0 <= i < D && 0 <= j < D ==> #[trigger] r@[i]@[j]@ == rot_block_entry(
                values(base_column@),
                i,
                j,
            ) % (C::spec_modulus() as int),
{
    let ghost a = values(base_column@);
    let ghost p = C::spec_modulus() as int;
    proof {
        C::lemma_modulus_range();
    }
    let mut block: Vec<[Fp<C>; D]> = Vec::with_capacity(D);
    let mut row_idx: usize = 0;
    while row_idx < D
        invariant
            a == values(base_column@),
            p == C::spec_modulus() as int,
            p >= 2,
            row_idx <= D,
            block@.len() == row_idx,
            forall|i: int, j: int|
                0 <= i < row_idx && 0 <= j < D ==> #[trigger] block@[i]@[j]@ == rot_block_entry(a, i, j)
                    % p,
        decreases D - row_idx,
    {
        let mut row = [Fp::<C>::zero();D];
        let mut col_idx: usize = 0;
        while col_idx < D
            invariant
                a == values(base_column@),
                p == C::spec_modulus() as int,
                p >= 2,
                row_idx < D,
                col_idx <= D,
                forall|j: int| 0 <= j < col_idx ==> #[trigger] row@[j]@ == rot_block_entry(a, row_idx as int, j) % p,
            decreases D - col_idx,
        {
            let offset = if row_idx >= col_idx { row_idx - col_idx } else { row_idx + D - col_idx };
            let v = base_column[offset];
            let _ = v.value();
            proof {
                assert(offset == wrap(row_idx as int, col_idx as int));
                lemma_small_mod(v@, p as nat);
            }
            if row_idx < col_idx {
                row[col_idx] = v.neg();
            } else {
                row[col_idx] = v;
            }
            col_idx = col_idx + 1;
        }
        block.push(row);
        row_idx = row_idx + 1;
    }
    block
}

/// Applies a `D x D` (or shorter) rotation block to a ring element's
/// coefficients; rows beyond the block stay zero.
pub fn apply_rotation<C: FieldConfig>(rotation: &[[Fp<C>; D]], vector: &[Fp<C>; D]) -> (r: [Fp<C>; D])
    requires
        rotation@.len() <= D,
    ensures
        forall|i: int|
            0 <= i < rotation@.len() ==> #[trigger] r@[i]@ == dot(values(rotation@[i]@), values(vector@), D as nat)
                % (C::spec_modulus() as int),
        forall|i: int| rotation@.len() <= i < D ==> #[trigger] r@[i]@ == 0,
{
    let ghost p = C::spec_modulus() as int;
    proof {
        C::lemma_modulus_range();
    }
    let mut result = [Fp::<C>::zero();D];
    let mut row_idx: usize = 0;
    while row_idx < rotation.len()
        invariant
            p == C::spec_modulus() as int,
            p >= 2,
            rotation@.len() <= D,
            row_idx <= rotation@.len(),
            forall|i: int|
                0 <= i < row_idx ==> #[trigger] result@[i]@ == dot(values(rotation@[i]@), values(vector@), D as nat) % p,
            forall|i: int| row_idx <= i < D ==> #[trigger] result@[i]@ == 0,
        decreases rotation@.len() - row_idx,
    {
        let row = &rotation[row_idx];
        let mut acc = Fp::<C>::zero();
        proof {
            lemma_small_mod(0, p as nat);
        }
        let mut col_idx: usize = 0;
        while col_idx < D
            invariant
                p == C::spec_modulus() as int,
                p >= 2,
                row@ == rotation@[row_idx as int]@,
                col_idx <= D,
                acc@ == dot(values(row@), values(vector@), col_idx as nat) % p,
            decreases D - col_idx,
        {
            let t = row[col_idx].mul(&vector[col_idx]);
            let ghost d = dot(values(row@), values(vector@), col_idx as nat);
            proof {
                lemma_accumulate(p, d, (row@[col_idx as int]@ * vector@[col_idx as int]@) as int);
                lemma_mod_twice(d, p);
                lemma_mod_twice((row@[col_idx as int]@ * vector@[col_idx as int]@) as int, p);
            }
            acc = acc.add(&t);
            col_idx = col_idx + 1;
        }
        result[row_idx] = acc;
        row_idx = row_idx + 1;
    }
    result
}

/// The schoolbook product of `a` and `b` in `F[X] / (X^D + 1)`.
pub fn negacyclic_mul<C: FieldConfig>(a: &[Fp<C>; D], b: &[Fp<C>; D]) -> (r: [Fp<C>; D])
    ensures
        forall|k: int|
            0 <= k < D ==> #[trigger] r@[k]@ == negacyclic_coeff(values(a@), values(b@), k) % (
            C::spec_modulus() as int),
{
    let ghost av = values(a@);
    let ghost bv = values(b@);
    let ghost p = C::spec_modulus() as int;
    proof {
        C::lemma_modulus_range();
    }
    let mut result = [Fp::<C>::zero();D];
    proof {
        assert forall|k: int| 0 <= k < D implies #[trigger] result@[k]@ == sum_range(
            |t: int| nega_term_by_left(av, bv, k, t),
            0,
            0,
        ) % p by {
            lemma_small_mod(0, p as nat);
        }
    }
    let mut i: usize = 0;
    while i < D
        invariant
            av == values(a@),
            bv == values(b@),
            p == C::spec_modulus() as int,
            p >= 2,
            i <= D,
            forall|k: int|
                0 <= k < D ==> #[trigger] result@[k]@ == sum_range(
                    |t: int| nega_term_by_left(av, bv, k, t),
                    0,
                    i as int,
                ) % p,
        decreases D - i,
    {
        let mut j: usize = 0;
        while j < D
            invariant
                av == values(a@),
                bv == values(b@),
                p == C::spec_modulus() as int,
                p >= 2,
                i < D,
                j <= D,
                forall|k: int|
                    0 <= k < D ==> #[trigger] result@[k]@ == (if wrap(k, i as int) < j {
                        sum_range(|t: int| nega_term_by_left(av, bv, k, t), 0, i + 1)
                    } else {
                        sum_range(|t: int| nega_term_by_left(av, bv, k, t), 0, i as int)
                    }) % p,
            decreases D - j,
        {
            let idx = (i + j) % D;
            let negate = i + j >= D;
            let t = signed_mul(&a[i], &b[j], negate);
            let cur = result[idx];
            let ghost s = sum_range(|t: int| nega_term_by_left(av, bv, idx as int, t), 0, i as int);
            proof {
                assert(wrap(idx as int, i as int) == j);
                assert(negate == ((idx as int) < (i as int)));
                assert(t@ == nega_term_by_left(av, bv, idx as int, i as int) % p);
                lemma_accumulate(p, s, nega_term_by_left(av, bv, idx as int, i as int));
                lemma_mod_twice(s, p);
                assert forall|k: int| 0 <= k < D && k != idx implies (wrap(k, i as int) < j + 1 <==> wrap(k, i as int) < j) by {
                    if wrap(k, i as int) == j {
                        assert(k == idx);
                    }
                }
            }
            result[idx] = cur.add(&t);
            j = j + 1;
        }
        i = i + 1;
    }
    proof {
        assert forall|k: int| 0 <= k < D implies #[trigger] result@[k]@ == negacyclic_coeff(av, bv, k) % p by {
            lemma_left_reindex(av, bv, k);
        }
    }
    result
}

/// The indices of the set bits of `element`, in increasing order.
pub fn bit_index<C: FieldConfig>(element: Fp<C>) -> (r: Vec<usize>)
    ensures
        r@ == set_bits(element@, MODULUS_BIT_SIZE as nat),
{
    let bit_len = MODULUS_BIT_SIZE;
    let mut out: Vec<usize> = Vec::new();
    let mut i: usize = 0;
    while i < bit_len
        invariant
            bit_len == MODULUS_BIT_SIZE,
            i <= bit_len,
            out@ == set_bits(element@, i as nat),
        decreases bit_len - i,
    {
        if element.get_bit(i) {
            out.push(i);
        }
        i = i + 1;
    }
    out
}

/// Adds `X^shift * column` to `aggregate` in `F[X] / (X^D + 1)`; shifts of
/// `D` or more add nothing.
pub fn add_rotated_column<C: FieldConfig>(aggregate: &mut [Fp<C>; D], column: &[Fp<C>; D], shift: usize)
    ensures
        forall|k: int|
            0 <= k < D ==> #[trigger] final(aggregate)@[k]@ == (old(aggregate)@[k]@ + (if (shift as int) < D {
                rot_block_entry(values(column@), k, shift as int)
            } else {
                0
            })) % (C::spec_modulus() as int),
{
    let ghost p = C::spec_modulus() as int;
    proof {
        C::lemma_modulus_range();
    }
    if shift >= D {
        let mut i: usize = 0;
        while i < D
            invariant
                i <= D,
                p == C::spec_modulus() as int,
                p >= 2,
                aggregate@ == old(aggregate)@,
                forall|k: int| 0 <= k < i ==> #[trigger] aggregate@[k]@ == (aggregate@[k]@ as int + 0) % p,
            decreases D - i,
        {
            let _ = aggregate[i].value();
            proof {
                lemma_small_mod(aggregate@[i as int]@, p as nat);
            }
            i = i + 1;
        }
        return;
    }
    let ghost a = values(column@);
    let mut row_idx: usize = 0;
    while row_idx < D
        invariant
            p == C::spec_modulus() as int,
            p >= 2,
            shift < D,
            a == values(column@),
            row_idx <= D,
            forall|k: int|
                0 <= k < row_idx ==> #[trigger] aggregate@[k]@ == (old(aggregate)@[k]@ + rot_block_entry(a, k, shift as int)) % p,
            forall|k: int| row_idx <= k < D ==> #[trigger] aggregate@[k] == old(aggregate)@[k],
        decreases D - row_idx,
    {
        let offset = if row_idx >= shift { row_idx - shift } else { row_idx + D - shift };
        let v = column[offset];
        let term = if row_idx < shift { v.neg() } else { v };
        let cur = aggregate[row_idx];
        let _ = cur.value();
        let _ = v.value();
        proof {
            assert(offset == wrap(row_idx as int, shift as int));
            lemma_small_mod(v@, p as nat);
            lemma_small_mod(cur@, p as nat);
            lemma_accumulate(p, cur@ as int, rot_block_entry(a, row_idx as int, shift as int));
        }
        aggregate[row_idx] = cur.add(&term);
        row_idx = row_idx + 1;
    }
}

/// A matrix commitment whose public matrix is derived from `seed`.
pub struct MatrixCommitmentScheme<C: FieldConfig> {
    seed: String,
    _marker: PhantomData<C>,
}

impl<C: FieldConfig> MatrixCommitmentScheme<C> {
    pub fn new(seed: String) -> (r: Self)
        ensures
            r.seed() == seed@,
    {
        MatrixCommitmentScheme { seed, _marker: PhantomData }
    }

    /// The seed of the public matrix.
    pub closed spec fn seed(&self) -> Seq<char> {
        self.seed@
    }

    /// `sum_{j < n} cols[j] * bits(z_j)` for the `n` given columns: coefficient
    /// `k` is `commitment_coeff(used, z, n, k) mod p`.
    pub fn commit_with_columns(cols: &Vec<[Fp<C>; D]>, z: &Vec<Fp<C>>) -> (r: [Fp<C>; D])
        requires
            cols@.len() <= z@.len(),
        ensures
            forall|k: int|
                0 <= k < D ==> #[trigger] r@[k]@ == commitment_coeff(
                    block_rows(cols@),
                    values(z@),
                    cols@.len() as int,
                    k,
                ) % (C::spec_modulus() as int),
    {
        let ghost p = C::spec_modulus() as int;
        let ghost zv = values(z@);
        proof {
            C::lemma_modulus_range();
        }
        let n = cols.len();
        let ghost cv = block_rows(cols@);
        let mut aggregate = [Fp::<C>::zero();D];
        let ghost mut used: Seq<Seq<nat>> = Seq::empty();
        proof {
            assert forall|k: int| 0 <= k < D implies #[trigger] aggregate@[k]@ == commitment_coeff(used, zv, 0, k) % p by {
                lemma_small_mod(0, p as nat);
            }
        }
        let mut column: usize = 0;
        while column < n
            invariant
                p == C::spec_modulus() as int,
                p >= 2,
                zv == values(z@),
                n == cols@.len(),
                cv == block_rows(cols@),
                n <= z@.len(),
                column <= n,
                used.len() == column,
                forall|j: int| 0 <= j < used.len() ==> #[trigger] used[j] == cv[j],
                forall|k: int|
                    0 <= k < D ==> #[trigger] aggregate@[k]@ == commitment_coeff(used, zv, column as int, k) % p,
            decreases n - column,
        {
            let rq_column = cols[column];
            let element = z[column];
            let ghost col_vals = values(rq_column@);
            let ghost old_cols = used;
            proof {
                used = used.push(col_vals);
                assert forall|j: int| 0 <= j < column implies #[trigger] used[j] == old_cols[j] by {}
                assert forall|k: int| 0 <= k < D implies #[trigger] commitment_coeff(old_cols, zv, column as int, k)
                    == commitment_coeff(used, zv, column as int, k) by {
                    lemma_sum_ext(
                        |j: int| shifted_sum(old_cols[j], set_bits(zv[j], MODULUS_BIT_SIZE as nat), k),
                        |j: int| shifted_sum(used[j], set_bits(zv[j], MODULUS_BIT_SIZE as nat), k),
                        0,
                        column as int,
                    );
                }
            }
            let bits = bit_index(element);
            let mut t: usize = 0;
            proof {
                assert forall|k: int| 0 <= k < D implies #[trigger] aggregate@[k]@ == (commitment_coeff(used, zv, column as int, k)
                    + shifted_sum(col_vals, bits@.take(0), k)) % p by {
                    assert(bits@.take(0).len() == 0);
                }
            }
            while t < bits.len()
                invariant
                    p == C::spec_modulus() as int,
                    p >= 2,
                    t <= bits@.len(),
                    col_vals == values(rq_column@),
                    forall|k: int|
                        0 <= k < D ==> #[trigger] aggregate@[k]@ == (commitment_coeff(used, zv, column as int, k)
                            + shifted_sum(col_vals, bits@.take(t as int), k)) % p,
                decreases bits@.len() - t,
            {
                add_rotated_column(&mut aggregate, &rq_column, bits[t]);
                proof {
                    let tk = bits@.take(t + 1);
                    assert(tk.drop_last() == bits@.take(t as int));
                    assert(tk.last() == bits@[t as int]);
                    assert forall|k: int| 0 <= k < D implies #[trigger] aggregate@[k]@ == (commitment_coeff(used, zv, column as int, k)
                        + shifted_sum(col_vals, tk, k)) % p by {
                        let c = commitment_coeff(used, zv, column as int, k);
                        let s = shifted_sum(col_vals, bits@.take(t as int), k);
                        let e = if (bits@[t as int] as int) < D { rot_block_entry(col_vals, k, bits@[t as int] as int) } else { 0 };
                        lemma_add_mod_noop(c + s, e, p);
                        lemma_mod_twice(c + s, p);
                        lemma_add_mod_noop((c + s) % p, e, p);
                        lemma_mod_twice(e, p);
                    }
                }
                t = t + 1;
            }
            proof {
                assert(bits@.take(bits@.len() as int) == bits@);
                assert forall|k: int| 0 <= k < D implies #[trigger] aggregate@[k]@ == commitment_coeff(used, zv, column + 1, k) % p by {
                    assert(used[column as int] == col_vals);
                }
            }
            column = column + 1;
        }
        proof {
            assert(used =~= cv);
        }
        aggregate
    }

    /// Row `row` of the commitment of the first `min(z.len(), M)` entries of
    /// `z`: `sum_j A[row][j] * bits(z_j)` for columns `A[row][j]` drawn with
    /// `Rq::reject_sampling(seed, row, j)`, all of whose coefficients are
    /// nonzero, summed by `commit_with_columns`.
    pub fn commit_row(&self, z: &Vec<Fp<C>>, row: usize) -> (r: [Fp<C>; D])
        ensures
            is_committed_row(committed_len(z@.len()), values(z@), values(r@), C::spec_modulus() as int),
            is_seeded_row::<C>(self.seed(), row as nat, committed_len(z@.len()), values(z@), values(r@)),
    {
        let n = if z.len() <= M { z.len() } else { M };
        let columns = self.sample_columns(row, n);
        let r = Self::commit_with_columns(&columns, z);
        proof {
            let cv = block_rows(columns@);
            let p = C::spec_modulus() as int;
            assert(is_commitment_row(cv, n as nat, values(z@), values(r@), p));
            assert(values(r@) =~= commitment_row_of(cv, values(z@), n as nat, p));
            assert(is_seeded_coeff_columns::<C>(self.seed(), row as nat, n as nat, cv));
        }
        r
    }

    /// The first `n` columns of row `row` of the public matrix, each drawn
    /// with `Rq::reject_sampling(seed, row, j)`: nonzero residues below `p`.
    pub fn sample_columns(&self, row: usize, n: usize) -> (r: Vec<[Fp<C>; D]>)
        ensures
            r@.len() == n,
            admissible_columns(block_rows(r@), n as nat, C::spec_modulus() as int),
            is_seeded_coeff_columns::<C>(self.seed(), row as nat, n as nat, block_rows(r@)),
    {
        let seed = self.seed.as_str();
        let mut columns: Vec<[Fp<C>; D]> = Vec::with_capacity(n);
        let mut column: usize = 0;
        while column < n
            invariant
                column <= n,
                columns@.len() == column,
                forall|j: int, i: int| 0 <= j < column && 0 <= i < D ==> 0 < (#[trigger] columns@[j][i])@ < C::spec_modulus(),
                seed@ == self.seed(),
                forall|j: int| 0 <= j < column ==> #[trigger] is_sampled_coeffs::<C>(self.seed(), row as nat, j as nat, values(columns@[j]@)),
            decreases n - column,
        {
            let sampled = Rq::<C>::reject_sampling(seed, row, column);
            let coeffs = sampled.coeffs();
            proof {
                assert forall|i: int| 0 <= i < D implies 0 < (#[trigger] coeffs@[i])@ < C::spec_modulus() by {
                    assert(values(coeffs@)[i] == sampled@[i]);
                }
                assert(is_sampled_coeffs::<C>(self.seed(), row as nat, column as nat, values(coeffs@)));
            }
            let ghost old_columns = columns@;
            columns.push(coeffs);
            proof {
                assert forall|j: int| 0 <= j < column + 1 implies #[trigger] is_sampled_coeffs::<C>(
                    self.seed(),
                    row as nat,
                    j as nat,
                    values(columns@[j]@),
                ) by {
                    if j < column {
                        assert(columns@[j] == old_columns[j]);
                    }
                }
            }
            column = column + 1;
        }
        proof {
            let cv = block_rows(columns@);
            assert forall|j: int, i: int| 0 <= j < cv.len() && 0 <= i < D implies 0 < (#[trigger] cv[j][i]) < C::spec_modulus() by {
                assert(cv[j][i] == columns@[j]@[i]@);
            }
            assert forall|j: int| 0 <= j < n implies #[trigger] is_sampled_coeffs::<C>(self.seed(), row as nat, j as nat, cv[j]) by {
                assert(cv[j] == values(columns@[j]@));
            }
        }
        columns
    }

    /// Commits to the first `min(z.len(), M)` entries of `z`: row `r` is
    /// `commit_row(z, r)`.
    pub fn commit(&self, z: Vec<Fp<C>>) -> (r: Vec<[Fp<C>; D]>)
        ensures
            r@.len() == KAPPA,
            forall|row: int|
                0 <= row < KAPPA ==> is_committed_row(
                    committed_len(z@.len()),
                    values(z@),
                    values(#[trigger] r@[row]@),
                    C::spec_modulus() as int,
                ),
            forall|row: int|
                0 <= row < KAPPA ==> is_seeded_row::<C>(
                    self.seed(),
                    row as nat,
                    committed_len(z@.len()),
                    values(z@),
                    values(#[trigger] r@[row]@),
                ),
    {
        let ghost p = C::spec_modulus() as int;
        let ghost zv = values(z@);
        let ghost n = committed_len(z@.len());
        let mut rows: Vec<[Fp<C>; D]> = Vec::with_capacity(KAPPA);
        let mut row: usize = 0;
        while row < KAPPA
            invariant
                p == C::spec_modulus() as int,
                zv == values(z@),
                n == committed_len(z@.len()),
                row <= KAPPA,
                rows@.len() == row,
                forall|s: int|
                    0 <= s < row ==> is_committed_row(n, zv, values(#[trigger] rows@[s]@), p),
                forall|s: int|
                    0 <= s < row ==> is_seeded_row::<C>(self.seed(), s as nat, n, zv, values(#[trigger] rows@[s]@)),
            decreases KAPPA - row,
        {
            let aggregate = self.commit_row(&z, row);
            let ghost old_rows = rows@;
            rows.push(aggregate);
            proof {
                assert forall|s: int| 0 <= s < row + 1 implies is_committed_row(n, zv, values(#[trigger] rows@[s]@), p)
                    && is_seeded_row::<C>(self.seed(), s as nat, n, zv, values(rows@[s]@)) by {
                    if s < row {
                        assert(rows@[s] == old_rows[s]);
                    }
                }
            }
            row = row + 1;
        }
        rows
    }
}

/// The coefficient a draw `0..4` of the rotation challenge selects.
pub fn rotation_coeff<C: FieldConfig>(draw: u32) -> (c: Fp<C>)
    requires
        draw < 4,
    ensures
        c@ == coeff_of_draw(C::spec_modulus(), draw as int),
        is_challenge_coeff(C::spec_modulus(), c@),
{
    let ghost p = C::spec_modulus();
    proof {
        C::lemma_modulus_range();
        lemma_small_mod(1, p);
        lemma_mod_self_0(p as int);
        lemma_sub_mod_noop(0, 1, p as int);
        lemma_small_mod(0, p);
        lemma_mod_add_multiples_vanish(-1, p as int);
        lemma_small_mod((p - 1) as nat, p);
    }
    if draw == 0 {
        Fp::<C>::one().neg()
    } else if draw == 1 {
        Fp::<C>::zero()
    } else if draw == 2 {
        Fp::<C>::one()
    } else {
        Fp::<C>::new(2)
    }
}

/// `r` is the rotation block of a base column whose coefficient `i` is
/// `coeff_of_draw` of `draws[i] mod 4`.
pub open spec fn is_rotation_of_draws<C: FieldConfig>(draws: Seq<u32>, r: Seq<[Fp<C>; D]>) -> bool {
    &&& draws.len() == D
    &&& r.len() == D
    &&& forall|i: int, j: int|
        0 <= i < D && 0 <= j < D ==> #[trigger] r[i]@[j]@ == rot_block_entry(
            Seq::new(D as nat, |k: int| coeff_of_draw(C::spec_modulus(), (draws[k] % 4) as int)),
            i,
            j,
        ) % (C::spec_modulus() as int)
}

/// A challenge rotation block: the rotation block of a column whose
/// coefficients are drawn from `{-1, 0, 1, 2}`, coefficient `i` from the
/// `i`-th of `D` successive `next_u32` draws of `rng` (taken modulo `4`).
pub fn random_rotation_matrix<C: FieldConfig>(rng: &mut StdRng) -> (r: Vec<[Fp<C>; D]>)
    ensures
        r@.len() == D,
        exists|base: Seq<nat>|
            {
                &&& base.len() == D
                &&& forall|i: int| 0 <= i < D ==> #[trigger] is_challenge_coeff(C::spec_modulus(), base[i])
                &&& forall|i: int, j: int|
                    0 <= i < D && 0 <= j < D ==> #[trigger] r@[i]@[j]@ == rot_block_entry(base, i, j) % (
                    C::spec_modulus() as int)
            },
        exists|draws: Seq<u32>, states: Seq<StdRng>|
            #![trigger is_u32_chain(draws, states)]
            is_u32_chain(draws, states) && states[0] == *old(rng) && states[D as int] == *final(rng)
                && is_rotation_of_draws::<C>(draws, r@),
{
    let ghost p = C::spec_modulus();
    proof {
        C::lemma_modulus_range();
        lemma_small_mod(1, p);
    }
    let mut g = std_rng_seed_from_u64(0);
    std::mem::swap(rng, &mut g);
    let ghost mut states: Seq<StdRng> = seq![g];
    let ghost mut draws: Seq<u32> = Seq::empty();
    proof {
        assert(states[0] == *old(rng));
    }
    let mut column = [Fp::<C>::zero();D];
    let mut i: usize = 0;
    while i < D
        invariant
            p == C::spec_modulus(),
            p >= 2,
            i <= D,
            forall|k: int| 0 <= k < i ==> #[trigger] is_challenge_coeff(p, column@[k]@),
            draws.len() == i,
            states.len() == i + 1,
            states[i as int] == g,
            states[0] == *old(rng),
            forall|k: int|
                #![trigger draws[k]]
                0 <= k < i ==> call_ensures(draw_u32, (states[k],), (draws[k], states[k + 1])),
            forall|k: int| 0 <= k < i ==> (#[trigger] column@[k])@ == coeff_of_draw(p, (draws[k] % 4) as int),
        decreases D - i,
    {
        let (raw, next) = draw_u32(g);
        proof {
            let old_states = states;
            let old_draws = draws;
            draws = draws.push(raw);
            states = states.push(next);
            assert forall|k: int|
                #![trigger draws[k]]
                0 <= k < i + 1 implies call_ensures(draw_u32, (states[k],), (draws[k], states[k + 1])) by {
                if k < i {
                    assert(states[k] == old_states[k] && states[k + 1] == old_states[k + 1] && draws[k] == old_draws[k]);
                }
            }
        }
        g = next;
        let draw = raw % 4;
        let element = rotation_coeff::<C>(draw);
        column[i] = element;
        i = i + 1;
    }
    *rng = g;
    let block = negacyclic_rot_block(&column);
    proof {
        assert(values(column@).len() == D);
        assert forall|k: int| 0 <= k < D implies #[trigger] is_challenge_coeff(C::spec_modulus(), values(column@)[k]) by {}
        let base = Seq::new(D as nat, |k: int| coeff_of_draw(p, (draws[k] % 4) as int));
        assert(values(column@) =~= base);
        assert(is_u32_chain(draws, states));
        assert(is_rotation_of_draws::<C>(draws, block@));
    }
    block
}

/// Law: the base column of `random_rotation_matrix` takes its coefficient `i`
/// from the `i`-th of `D` successive `next_u32` draws of the given generator,
/// which is left just after the last draw.
pub proof fn lemma_rotation_matrix_draws_in_turn<C: FieldConfig>(rng: &mut StdRng, r: Vec<[Fp<C>; D]>)
    requires
        call_ensures(random_rotation_matrix::<C>, (rng,), r),
    ensures
        exists|draws: Seq<u32>, states: Seq<StdRng>|
            #![trigger is_u32_chain(draws, states)]
            is_u32_chain(draws, states) && states[0] == *old(rng) && states[D as int] == *final(rng)
                && is_rotation_of_draws::<C>(draws, r@),
{
}

/// Law: row `row` of the matrix commitment of `z` sums the sampled columns
/// `(row, j)` of the public matrix of the scheme's seed, for `j` below
/// `min(z.len(), M)`.
pub proof fn lemma_commit_row_uses_its_row<C: FieldConfig>(
    scheme: &MatrixCommitmentScheme<C>,
    z: &Vec<Fp<C>>,
    row: usize,
    r: [Fp<C>; D],
)
    requires
        call_ensures(MatrixCommitmentScheme::<C>::commit_row, (scheme, z, row), r),
    ensures
        is_seeded_row::<C>(scheme.seed(), row as nat, committed_len(z@.len()), values(z@), values(r@)),
{
}

/// A ring element with uniformly drawn coefficients.
pub fn random_ring_element<C: FieldConfig>(rng: &mut StdRng) -> (r: [Fp<C>; D])
    ensures
        forall|k: int| 0 <= k < D ==> #[trigger] r@[k]@ < C::spec_modulus(),
{
    proof {
        C::lemma_modulus_range();
    }
    let mut element = [Fp::<C>::zero();D];
    let mut i: usize = 0;
    while i < D
        invariant
            i <= D,
            2 <= C::spec_modulus(),
            forall|k: int| 0 <= k < D ==> #[trigger] element@[k]@ < C::spec_modulus(),
        decreases D - i,
    {
        element[i] = Fp::random(rng);
        i = i + 1;
    }
    element
}

/// Whether two ring elements have the same coefficients.
pub fn same_coeffs<C: FieldConfig>(x: &[Fp<C>; D], y: &[Fp<C>; D]) -> (r: bool)
    ensures
        r == (values(x@) == values(y@)),
{
    let mut i: usize = 0;
    while i < D
        invariant
            i <= D,
            forall|k: int| 0 <= k < i ==> #[trigger] x@[k]@ == y@[k]@,
        decreases D - i,
    {
        if x[i] != y[i] {
            proof {
                assert(values(x@)[i as int] != values(y@)[i as int]);
            }
            return false;
        }
        i = i + 1;
    }
    proof {
        assert(values(x@) =~= values(y@));
    }
    true
}

/// Checks `rot(a) * cf(b) == cf(a * b)` on two random ring elements; it
/// always holds.
pub fn check_rotation_identity<C: FieldConfig>(rng: &mut StdRng) -> (r: bool)
    ensures
        r,
{
    let a = random_ring_element::<C>(rng);
    let b = random_ring_element::<C>(rng);
    let rotation = negacyclic_rot_block(&a);
    let lhs = apply_rotation(rotation.as_slice(), &b);
    let rhs = negacyclic_mul(&a, &b);
    proof {
        C::lemma_modulus_range();
        assert forall|k: int| 0 <= k < D implies #[trigger] values(lhs@)[k] == values(rhs@)[k] by {
            lemma_rotation_identity(C::spec_modulus(), values(rotation@[k]@), values(a@), values(b@), k);
        }
        assert(values(lhs@) =~= values(rhs@));
    }
    same_coeffs(&lhs, &rhs)
}

/// The rows of a list of ring elements, as coefficient sequences.
pub open spec fn block_rows<C: FieldConfig>(rows: Seq<[Fp<C>; D]>) -> Seq<Seq<nat>> {
    Seq::new(rows.len(), |i: int| values(rows[i]@))
}

/// `rot * v` (mod `p`) for a block of at most `D` rows; the rows past the
/// block are zero.
pub open spec fn rotated(rot: Seq<Seq<nat>>, v: Seq<nat>, p: int) -> Seq<nat> {
    Seq::new(D as nat, |i: int| if i < rot.len() { (dot(rot[i], v, D as nat) % p) as nat } else { 0nat })
}

/// `a` holds `KAPPA` admissible sets of `D` columns, one per commitment row,
/// and `r` says whether, for every row, rotating the commitment of `z` under
/// that row's columns gives the commitment of `rot * z` under the same columns.
pub open spec fn is_linearity_outcome(rot: Seq<Seq<nat>>, z: Seq<nat>, p: int, a: Seq<Seq<Seq<nat>>>, r: bool) -> bool {
    &&& a.len() == KAPPA
    &&& forall|i: int| 0 <= i < KAPPA ==> admissible_columns(#[trigger] a[i], D as nat, p)
    &&& r == (forall|i: int|
        0 <= i < KAPPA ==> rotated(rot, commitment_row_of(#[trigger] a[i], z, D as nat, p), p) == commitment_row_of(
            a[i],
            rotated(rot, z, p),
            D as nat,
            p,
        ))
}

/// Compares `rotation * commit(witness)` with `commit(rotation * witness)`,
/// row by row, both committed with the same public columns: the result says
/// whether every rotated commitment row equals the matching row of the
/// commitment of the rotated witness.
pub fn verify_challenge_linearity<C: FieldConfig>(
    scheme: &MatrixCommitmentScheme<C>,
    rotation: &[[Fp<C>; D]],
    witness: &[Fp<C>],
) -> (r: bool)
    requires
        witness@.len() == D,
        rotation@.len() <= D,
    ensures
        exists|a: Seq<Seq<Seq<nat>>>|
            #[trigger] is_linearity_outcome(block_rows(rotation@), values(witness@), C::spec_modulus() as int, a, r)
                && forall|i: int| 0 <= i < KAPPA ==> #[trigger] is_seeded_coeff_columns::<C>(scheme.seed(), i as nat, D as nat, a[i]),
{
    let ghost p = C::spec_modulus() as int;
    let ghost rot = block_rows(rotation@);
    let ghost zv = values(witness@);
    let mut witness_vec: Vec<Fp<C>> = Vec::with_capacity(D);
    let mut witness_array = [Fp::<C>::zero();D];
    let mut i: usize = 0;
    while i < D
        invariant
            witness@.len() == D,
            i <= D,
            witness_vec@.len() == i,
            forall|k: int| 0 <= k < i ==> #[trigger] witness_vec@[k] == witness@[k],
            forall|k: int| 0 <= k < i ==> #[trigger] witness_array@[k] == witness@[k],
        decreases D - i,
    {
        witness_vec.push(witness[i]);
        witness_array[i] = witness[i];
        i = i + 1;
    }
    proof {
        assert(values(witness_vec@) =~= zv);
        assert(values(witness_array@) =~= zv);
    }
    let challenged_witness = apply_rotation(rotation, &witness_array);
    let mut challenged: Vec<Fp<C>> = Vec::with_capacity(D);
    let mut j: usize = 0;
    while j < D
        invariant
            j <= D,
            challenged@.len() == j,
            forall|k: int| 0 <= k < j ==> #[trigger] challenged@[k] == challenged_witness@[k],
        decreases D - j,
    {
        challenged.push(challenged_witness[j]);
        j = j + 1;
    }
    proof {
        assert(values(challenged@) =~= values(challenged_witness@));
        assert(values(challenged_witness@) =~= rotated(rot, zv, p));
    }
    let ghost rz = rotated(rot, zv, p);
    let ghost mut a: Seq<Seq<Seq<nat>>> = Seq::empty();
    let mut all_equal = true;
    let mut row: usize = 0;
    while row < KAPPA
        invariant
            p == C::spec_modulus() as int,
            rot == block_rows(rotation@),
            rotation@.len() <= D,
            witness_vec@.len() == D,
            challenged@.len() == D,
            values(witness_vec@) == zv,
            values(challenged@) == rz,
            row <= KAPPA,
            a.len() == row,
            forall|t: int| 0 <= t < row ==> admissible_columns(#[trigger] a[t], D as nat, p),
            forall|t: int| 0 <= t < row ==> #[trigger] is_seeded_coeff_columns::<C>(scheme.seed(), t as nat, D as nat, a[t]),
            all_equal == (forall|t: int|
                0 <= t < row ==> rotated(rot, commitment_row_of(#[trigger] a[t], zv, D as nat, p), p)
                    == commitment_row_of(a[t], rz, D as nat, p)),
        decreases KAPPA - row,
    {
        let ghost prev_a = a;
        let cols = scheme.sample_columns(row, D);
        let ghost cv = block_rows(cols@);
        let com = MatrixCommitmentScheme::<C>::commit_with_columns(&cols, &witness_vec);
        let lhs = apply_rotation(rotation, &com);
        let rhs = MatrixCommitmentScheme::<C>::commit_with_columns(&cols, &challenged);
        let same = same_coeffs(&lhs, &rhs);
        proof {
            assert(values(com@) =~= commitment_row_of(cv, zv, D as nat, p));
            assert(values(lhs@) =~= rotated(rot, commitment_row_of(cv, zv, D as nat, p), p));
            assert(values(rhs@) =~= commitment_row_of(cv, rz, D as nat, p));
            let old_a = a;
            a = a.push(cv);
            assert forall|t: int| 0 <= t < row implies #[trigger] a[t] == old_a[t] by {}
            assert forall|t: int| 0 <= t < row + 1 implies #[trigger] is_seeded_coeff_columns::<C>(scheme.seed(), t as nat, D as nat, a[t]) by {
                if t < row {
                    assert(a[t] == old_a[t]);
                }
            }
            assert(a[row as int] == cv);
        }
        let ghost old_all = all_equal;
        all_equal = all_equal && same;
        proof {
            let ok_cv = rotated(rot, commitment_row_of(cv, zv, D as nat, p), p) == commitment_row_of(cv, rz, D as nat, p);
            assert(same == ok_cv);
            if all_equal {
                assert forall|t: int| 0 <= t < row + 1 implies rotated(rot, commitment_row_of(#[trigger] a[t], zv, D as nat, p), p)
                    == commitment_row_of(a[t], rz, D as nat, p) by {
                    if t == row {
                        assert(a[t] == cv);
                    }
                }
            } else if !same {
                assert(a[row as int] == cv);
                assert(!(rotated(rot, commitment_row_of(a[row as int], zv, D as nat, p), p)
                    == commitment_row_of(a[row as int], rz, D as nat, p)));
            } else {
                assert(!old_all);
                let t = choose|t: int| 0 <= t < row && !(rotated(rot, commitment_row_of(#[trigger] prev_a[t], zv, D as nat, p), p)
                    == commitment_row_of(prev_a[t], rz, D as nat, p));
                assert(a[t] == prev_a[t]);
                assert(!(rotated(rot, commitment_row_of(a[t], zv, D as nat, p), p) == commitment_row_of(a[t], rz, D as nat, p)));
            }
        }
        row = row + 1;
    }
    proof {
        assert(is_linearity_outcome(rot, zv, p, a, all_equal));
    }
    all_equal
}

} // verus!
