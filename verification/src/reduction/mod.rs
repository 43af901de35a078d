//! Reductions of the folding scheme: the transcript that draws challenges,
//! the CCS sumcheck helpers and the random linear combination.
pub mod ccs;
pub mod random_linear_combination;

use crate::field::{FieldConfig, Fp};
use crate::fq2::{fq2_canonical, Fq2};
use crate::rng::{hash_str, std_rng_seed_from_u64};
use ark_std::rand::rngs::StdRng;
use core::marker::PhantomData;
use std::collections::hash_map::DefaultHasher;
use std::hash::Hasher;
use vstd::prelude::*;

verus! {

/// A source of challenges seeded from a string.
pub struct Transcript<C: FieldConfig> {
    rng: StdRng,
    seed: Ghost<Seq<char>>,
    _f: PhantomData<C>,
}

impl<C: FieldConfig> Transcript<C> {
    /// The string the transcript was seeded from.
    pub closed spec fn seed(&self) -> Seq<char> {
        self.seed@
    }

    /// A transcript whose generator is seeded with the default hash of `seed`.
    pub fn new(seed: &str) -> (r: Self)
        ensures
            r.seed() == seed@,
    {
        let mut h = DefaultHasher::new();
        hash_str(seed, &mut h);
        let s = h.finish();
        Transcript { rng: std_rng_seed_from_u64(s), seed: Ghost(seed@), _f: PhantomData }
    }

    /// The next challenge and the transcript after it: both components of
    /// the challenge are drawn, one after the other, from the transcript's
    /// generator.
    pub fn next(self) -> (r: (Fq2<C>, Self))
        ensures
            fq2_canonical(C::spec_modulus(), r.0@),
            r.1.seed() == self.seed(),
    {
        let mut t = self;
        let c0 = Fp::random(&mut t.rng);
        let c1 = Fp::random(&mut t.rng);
        (Fq2::new(c0, c1), t)
    }

    /// A challenge in `F[u] / (u^2 - 3)` with both components drawn
    /// uniformly: the challenge `next` gives, the transcript advancing with it.
    pub fn get(&mut self) -> (r: Fq2<C>)
        ensures
            fq2_canonical(C::spec_modulus(), r@),
            final(self).seed() == old(self).seed(),
            call_ensures(Transcript::<C>::next, (*old(self),), (r, *final(self))),
    {
        let mut t = Transcript { rng: std_rng_seed_from_u64(0), seed: Ghost(self.seed@), _f: PhantomData };
        std::mem::swap(self, &mut t);
        let (c, after) = t.next();
        *self = after;
        c
    }

    /// `len` challenges: the next `len` challenges of the transcript, in order.
    pub fn get_vec(&mut self, len: usize) -> (r: Vec<Fq2<C>>)
        ensures
            r@.len() == len,
            forall|k: int| 0 <= k < len ==> fq2_canonical(C::spec_modulus(), (#[trigger] r@[k])@),
            final(self).seed() == old(self).seed(),
            is_transcript_run(*old(self), r@, *final(self)),
    {
        let ghost mut states: Seq<Self> = seq![*self];
        let mut out: Vec<Fq2<C>> = Vec::with_capacity(len);
        let mut i: usize = 0;
        while i < len
            invariant
                i <= len,
                out@.len() == i,
                forall|k: int| 0 <= k < i ==> fq2_canonical(C::spec_modulus(), (#[trigger] out@[k])@),
                self.seed() == old(self).seed(),
                is_transcript_chain(states, out@),
                states[0] == *old(self),
                states[i as int] == *self,
            decreases len - i,
        {
            let c = self.get();
            proof {
                let old_states = states;
                states = states.push(*self);
                assert forall|k: int| #![trigger out@.push(c)[k]] 0 <= k < i + 1 implies call_ensures(
                    Transcript::<C>::next,
                    (states[k],),
                    (out@.push(c)[k], states[k + 1]),
                ) by {
                    if k < i {
                        assert(states[k] == old_states[k] && states[k + 1] == old_states[k + 1]);
                        assert(out@.push(c)[k] == out@[k]);
                    }
                }
            }
            out.push(c);
            i = i + 1;
        }
        proof {
            assert(is_transcript_run(*old(self), out@, *self));
        }
        out
    }

    /// Overwrites every entry of `out` with a fresh challenge: entry `k`
    /// becomes the `k`-th next challenge of the transcript.
    pub fn fill(&mut self, out: &mut [Fq2<C>])
        ensures
            final(out)@.len() == old(out)@.len(),
            final(self).seed() == old(self).seed(),
            forall|k: int| 0 <= k < final(out)@.len() ==> fq2_canonical(C::spec_modulus(), #[trigger] final(out)@[k]@),
            is_transcript_run(*old(self), final(out)@, *final(self)),
    {
        let ghost mut states: Seq<Self> = seq![*self];
        let mut i: usize = 0;
        while i < out.len()
            invariant
                i <= out@.len(),
                out@.len() == old(out)@.len(),
                self.seed() == old(self).seed(),
                forall|k: int| 0 <= k < i ==> fq2_canonical(C::spec_modulus(), #[trigger] out@[k]@),
                is_transcript_chain(states, out@.take(i as int)),
                states[0] == *old(self),
                states[i as int] == *self,
            decreases out@.len() - i,
        {
            let c = self.get();
            let ghost before = out@;
            out[i] = c;
            proof {
                let old_states = states;
                states = states.push(*self);
                assert(out@.take(i + 1) =~= before.take(i as int).push(c));
                assert forall|k: int| #![trigger out@.take(i + 1)[k]] 0 <= k < i + 1 implies call_ensures(
                    Transcript::<C>::next,
                    (states[k],),
                    (out@.take(i + 1)[k], states[k + 1]),
                ) by {
                    if k < i {
                        assert(states[k] == old_states[k] && states[k + 1] == old_states[k + 1]);
                        assert(out@.take(i + 1)[k] == before.take(i as int)[k]);
                    }
                }
            }
            i = i + 1;
        }
        proof {
            assert(out@.take(out@.len() as int) =~= out@);
            assert(is_transcript_run(*old(self), out@, *self));
        }
    }
}

/// `states` step the transcript through the challenges `outs`: challenge
/// `k` and `states[k + 1]` are what `next` gives from `states[k]`.
pub open spec fn is_transcript_chain<C: FieldConfig>(states: Seq<Transcript<C>>, outs: Seq<Fq2<C>>) -> bool {
    &&& states.len() == outs.len() + 1
    &&& forall|k: int|
        #![trigger outs[k]]
        0 <= k < outs.len() ==> call_ensures(Transcript::<C>::next, (states[k],), (outs[k], states[k + 1]))
}

/// Starting from `start`, the transcript yields the challenges `outs`, one
/// `next` step each, and ends at `end`.
pub open spec fn is_transcript_run<C: FieldConfig>(start: Transcript<C>, outs: Seq<Fq2<C>>, end: Transcript<C>) -> bool {
    exists|states: Seq<Transcript<C>>|
        #[trigger] is_transcript_chain(states, outs) && states[0] == start && states[outs.len() as int] == end
}

/// Law: `fill` writes, in order, the successive challenges of the
/// transcript: entry `k` of `out` is the `k`-th `next` challenge from the
/// transcript's state before the call, which ends at the state after it.
pub proof fn lemma_fill_runs_the_transcript<C: FieldConfig>(t: &mut Transcript<C>, out: &mut [Fq2<C>])
    requires
        call_ensures(Transcript::<C>::fill, (t, out), ()),
    ensures
        is_transcript_run(*old(t), final(out)@, *final(t)),
{
}

/// Law: `get_vec(len)` returns, in order, the next `len` challenges of the
/// transcript from its state before the call.
pub proof fn lemma_get_vec_runs_the_transcript<C: FieldConfig>(t: &mut Transcript<C>, len: usize, r: Vec<Fq2<C>>)
    requires
        call_ensures(Transcript::<C>::get_vec, (t, len), r),
    ensures
        r@.len() == len,
        is_transcript_run(*old(t), r@, *final(t)),
{
}

} // verus!
