//! The outside randomness and hashing that sampling relies on: the seeded
//! standard generator of `rand` (through `ark_std`), SHA-256 of `sha2`, and
//! hashing a string with std's default hasher.
use ark_std::rand::rngs::StdRng;
use ark_std::rand::{Rng, RngCore, SeedableRng};
use sha2::{Digest, Sha256};
use std::collections::hash_map::DefaultHasher;
use std::hash::Hash;
use vstd::prelude::*;
use vstd::string::StringSliceAdditionalSpecFns;

verus! {

/// The seeded generator `rand::rngs::StdRng`; its state is opaque here.
#[verifier::external_type_specification]
#[verifier::external_body]
pub struct ExStdRng(StdRng);

/// Calls `StdRng::from_seed`. Nothing is stated of the generator it returns:
/// `rand` documents its output stream as not reproducible across versions.
#[verifier::external_body]
pub(crate) fn std_rng_from_seed(seed: [u8; 32]) -> StdRng {
    StdRng::from_seed(seed)
}

/// Calls `SeedableRng::seed_from_u64` for `StdRng`. Nothing is stated of the
/// generator it returns.
#[verifier::external_body]
pub(crate) fn std_rng_seed_from_u64(state: u64) -> StdRng {
    StdRng::seed_from_u64(state)
}

/// Calls `Rng::gen_range(low..high)`, which panics on an empty range (hence
/// the `requires`) and otherwise returns a value of the range. Which value
/// comes back depends on the generator's state and is not stated.
#[verifier::external_body]
pub(crate) fn rng_gen_range(rng: &mut StdRng, low: u64, high: u64) -> (r: u64)
    requires
        low < high,
    ensures
        low <= r < high,
{
    rng.gen_range(low..high)
}

/// Calls `Rng::gen_range(low..high)` on an `i32` range, which rand samples
/// from 32-bit draws; it panics on an empty range (hence the `requires`) and
/// otherwise returns a value of the range. Which value comes back depends on
/// the generator's state and is not stated.
#[verifier::external_body]
pub(crate) fn rng_gen_range_i32(rng: &mut StdRng, low: i32, high: i32) -> (r: i32)
    requires
        low < high,
    ensures
        low <= r < high,
{
    rng.gen_range(low..high)
}

/// Calls `RngCore::next_u32`; any `u32` may come back.
#[verifier::external_body]
pub(crate) fn rng_next_u32(rng: &mut StdRng) -> u32 {
    rng.next_u32()
}

/// A generator seeded with `digest`.
pub fn seeded_generator(digest: [u8; 32]) -> StdRng {
    std_rng_from_seed(digest)
}

/// One draw from `low..high` as an `i32`, and the generator after it.
pub fn draw_i32(rng: StdRng, low: i32, high: i32) -> (r: (i32, StdRng))
    requires
        low < high,
    ensures
        low <= r.0 < high,
{
    let mut g = rng;
    let v = rng_gen_range_i32(&mut g, low, high);
    (v, g)
}

/// One `next_u32` draw, and the generator after it.
pub fn draw_u32(rng: StdRng) -> (r: (u32, StdRng)) {
    let mut g = rng;
    let v = rng_next_u32(&mut g);
    (v, g)
}

/// `states` run the generator seeded with `digest` through the draws
/// `draws` from `low..high`: `states[0]` is that generator, and draw `i` and
/// `states[i + 1]` are what `draw_i32` gives from `states[i]`.
pub open spec fn is_i32_chain(digest: [u8; 32], low: i32, high: i32, draws: Seq<i32>, states: Seq<StdRng>) -> bool {
    &&& states.len() == draws.len() + 1
    &&& call_ensures(seeded_generator, (digest,), states[0])
    &&& forall|i: int|
        #![trigger draws[i]]
        0 <= i < draws.len() ==> call_ensures(draw_i32, (states[i], low, high), (draws[i], states[i + 1]))
}

/// `draws` are the first `draws.len()` values of `low..high` drawn one after
/// another from a single generator seeded with `digest`.
pub open spec fn is_i32_stream(digest: [u8; 32], low: i32, high: i32, draws: Seq<i32>) -> bool {
    exists|states: Seq<StdRng>| #[trigger] is_i32_chain(digest, low, high, draws, states)
}

/// `states` run a generator from `states[0]` through the `next_u32` draws
/// `draws`: draw `i` and `states[i + 1]` are what `draw_u32` gives from
/// `states[i]`.
pub open spec fn is_u32_chain(draws: Seq<u32>, states: Seq<StdRng>) -> bool {
    &&& states.len() == draws.len() + 1
    &&& forall|i: int| #![trigger draws[i]] 0 <= i < draws.len() ==> call_ensures(draw_u32, (states[i],), (draws[i], states[i + 1]))
}

/// The SHA-256 digest of a byte string.
pub uninterp spec fn sha256(data: Seq<u8>) -> Seq<u8>;

/// Calls `Sha256::digest` of `sha2`; the 32 bytes returned are the digest of
/// `data`, a function of `data` alone.
#[verifier::external_body]
pub(crate) fn sha256_digest(data: &[u8]) -> (r: [u8; 32])
    ensures
        r@ == sha256(data@),
{
    let mut out = [0u8; 32];
    out.copy_from_slice(&Sha256::digest(data));
    out
}

/// Calls `Hash::hash` of `str` with the given hasher. Nothing is stated of
/// the hasher's new state: std does not document which bytes `str` feeds it.
#[verifier::external_body]
pub(crate) fn hash_str(s: &str, hasher: &mut DefaultHasher) {
    s.hash(hasher)
}

/// The `n` little-endian bytes of `x`.
pub open spec fn le_bytes(x: nat, n: nat) -> Seq<u8>
    decreases n,
{
    if n == 0 {
        Seq::empty()
    } else {
        seq![(x % 256) as u8] + le_bytes(x / 256, (n - 1) as nat)
    }
}

/// The number of bytes of a `usize`.
pub open spec fn usize_bytes() -> nat {
    (usize::BITS / 8) as nat
}

/// The bytes that `usize::to_le_bytes` gives for `x`.
pub fn usize_to_le_bytes(x: usize) -> (r: Vec<u8>)
    ensures
        r@ == le_bytes(x as nat, usize_bytes()),
{
    let n: u32 = usize::BITS / 8;
    let mut out: Vec<u8> = Vec::new();
    let mut y: usize = x;
    let mut i: u32 = 0;
    while i < n
        invariant
            n == usize::BITS / 8,
            i <= n,
            out@ + le_bytes(y as nat, (n - i) as nat) == le_bytes(x as nat, n as nat),
        decreases n - i,
    {
        let ghost rest = le_bytes(y as nat, (n - i) as nat);
        let b = (y % 256) as u8;
        proof {
            assert(rest == seq![b] + le_bytes((y / 256) as nat, (n - i - 1) as nat));
            assert(out@.push(b) + le_bytes((y / 256) as nat, (n - i - 1) as nat) == out@ + rest);
        }
        out.push(b);
        y = y / 256;
        i = i + 1;
    }
    proof {
        assert(le_bytes(y as nat, 0) == Seq::<u8>::empty());
        assert(out@ + Seq::<u8>::empty() == out@);
    }
    out
}

/// The bytes hashed to seed the generator for entry `(row, column)`:
/// the UTF-8 bytes of `seed`, then `row` and `column` in little-endian order.
pub open spec fn sampling_message(seed: Seq<u8>, row: nat, column: nat) -> Seq<u8> {
    seed + le_bytes(row, usize_bytes()) + le_bytes(column, usize_bytes())
}

/// The SHA-256 digest that seeds the generator for entry `(row, column)`.
pub fn sampling_seed(seed: &str, row: usize, column: usize) -> (r: [u8; 32])
    ensures
        r@ == sha256(sampling_message(seed.spec_bytes(), row as nat, column as nat)),
{
    let bytes = seed.as_bytes();
    let mut msg: Vec<u8> = Vec::new();
    let mut i: usize = 0;
    while i < bytes.len()
        invariant
            i <= bytes@.len(),
            msg@ == bytes@.take(i as int),
        decreases bytes@.len() - i,
    {
        msg.push(bytes[i]);
        proof {
            assert(bytes@.take(i + 1) == bytes@.take(i as int).push(bytes@[i as int]));
        }
        i = i + 1;
    }
    proof {
        assert(bytes@.take(bytes@.len() as int) == bytes@);
    }
    let row_bytes = usize_to_le_bytes(row);
    let col_bytes = usize_to_le_bytes(column);
    append_bytes(&mut msg, &row_bytes);
    append_bytes(&mut msg, &col_bytes);
    proof {
        assert(msg@ == sampling_message(seed.spec_bytes(), row as nat, column as nat));
    }
    sha256_digest(msg.as_slice())
}

/// Appends `src` to `dst`.
fn append_bytes(dst: &mut Vec<u8>, src: &Vec<u8>)
    ensures
        final(dst)@ == old(dst)@ + src@,
{
    let ghost start = dst@;
    let mut i: usize = 0;
    while i < src.len()
        invariant
            i <= src@.len(),
            dst@ == start + src@.take(i as int),
        decreases src@.len() - i,
    {
        dst.push(src[i]);
        proof {
            assert(src@.take(i + 1) == src@.take(i as int).push(src@[i as int]));
        }
        i = i + 1;
    }
    proof {
        assert(src@.take(src@.len() as int) == src@);
    }
}

/// The digest of `seed`'s UTF-8 bytes.
pub fn seed_digest(seed: &str) -> (r: [u8; 32])
    ensures
        r@ == sha256(seed.spec_bytes()),
{
    sha256_digest(seed.as_bytes())
}

} // verus!
