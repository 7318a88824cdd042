//! The pseudo-random generator behind every stochastic artifact.
//!
//! Samples are exact fractions: a numerator over [`UNIT_DENOMINATOR`]. In
//! single precision the unit sample with numerator `n` is the number whose
//! bit pattern is [`unit_bits`]` (n)`, less one.

use vstd::prelude::*;

verus! {

/// Multiplier of the linear-congruential step.
pub const LCG_MULTIPLIER: u32 = 1664525;

/// Increment of the linear-congruential step.
pub const LCG_INCREMENT: u32 = 1013904223;

/// Denominator of every sample: 2^23, one more than the largest numerator of
/// a unit sample.
pub const UNIT_DENOMINATOR: u32 = 0x80_0000;

/// The generator state that follows `state`:
/// `state * 1664525 + 1013904223` modulo 2^32.
pub open spec fn lcg_next(state: u32) -> u32 {
    ((state as int * 1664525 + 1013904223) % 0x1_0000_0000) as u32
}

/// The state reached from `seed` after `draws` steps.
pub open spec fn state_after(seed: u32, draws: nat) -> u32
    decreases draws,
{
    if draws == 0 {
        seed
    } else {
        lcg_next(state_after(seed, (draws - 1) as nat))
    }
}

/// Numerator of the unit sample read off `state`: its upper 23 bits.
pub open spec fn unit_numerator(state: u32) -> u32 {
    (state as int / 512) as u32
}

/// Numerator of the signed sample read off `state`: twice the unit sample,
/// less one.
pub open spec fn signed_numerator(state: u32) -> i32 {
    (2 * (state as int / 512) - 0x80_0000) as i32
}

/// Numerator of the unit sample with index `index` (from 0) in the stream
/// that starts at `seed`.
pub open spec fn unit_sample_at(seed: u32, index: nat) -> u32 {
    unit_numerator(state_after(seed, index + 1))
}

/// The first `count` unit samples of the stream that starts at `seed`.
pub open spec fn unit_stream(seed: u32, count: nat) -> Seq<u32> {
    Seq::new(count, |i: int| unit_sample_at(seed, i as nat))
}

/// Bit pattern of one: sign and exponent of every single-precision number
/// in [1, 2).
pub const ONE_BITS: u32 = 0x3f80_0000;

/// The bit pattern of the single-precision number `1 + numerator / 2^23`:
/// the numerator as the fraction of a number in [1, 2). The unit sample is
/// that number less one.
pub fn unit_bits(numerator: u32) -> (bits: u32)
    requires
        numerator < UNIT_DENOMINATOR,
    ensures
        bits == ONE_BITS + numerator,
        ONE_BITS <= bits < 0x4000_0000,
{
    assert(numerator | 0x3f80_0000 == 0x3f80_0000 + numerator) by (bit_vector)
        requires
            numerator < 0x80_0000,
    ;
    numerator | ONE_BITS
}

/// A 32-bit linear-congruential pseudo-random generator.
#[derive(Debug)]
pub struct SimpleRng {
    state: u32,
}

impl Clone for SimpleRng {
    /// A second generator in the same state.
    fn clone(&self) -> (copy: Self)
        ensures
            copy@ == self@,
    {
        Self { state: self.state }
    }
}

impl View for SimpleRng {
    type V = u32;

    /// The current state.
    closed spec fn view(&self) -> u32 {
        self.state
    }
}

impl SimpleRng {
    /// A generator whose state is `seed`.
    pub fn new(seed: u32) -> (rng: Self)
        ensures
            rng@ == seed,
    {
        Self { state: seed }
    }

    /// Steps the generator and returns the numerator of a sample in [0, 1).
    pub fn next_f32(&mut self) -> (numerator: u32)
        ensures
            final(self)@ == lcg_next(old(self)@),
            numerator == unit_numerator(final(self)@),
            numerator < UNIT_DENOMINATOR,
    {
        let state: u32 = self.step();
        assert(state >> 9 == state / 512) by (bit_vector);
        state >> 9
    }

    /// Steps the generator and returns the new state.
    fn step(&mut self) -> (state: u32)
        ensures
            final(self)@ == lcg_next(old(self)@),
            state == final(self)@,
    {
        let product: u32 = self.state.wrapping_mul(LCG_MULTIPLIER);
        self.state = product.wrapping_add(LCG_INCREMENT);
        self.state
    }

    /// Steps the generator and returns the numerator of a sample in [-1, 1).
    pub fn next_signed(&mut self) -> (numerator: i32)
        ensures
            final(self)@ == lcg_next(old(self)@),
            numerator == signed_numerator(final(self)@),
            -(UNIT_DENOMINATOR as int) <= numerator < UNIT_DENOMINATOR as int,
    {
        let unit: u32 = self.next_f32();
        let doubled: i32 = (unit as i32) * 2;
        doubled - 0x80_0000
    }

    /// Draws `count` unit samples in a row.
    pub fn take_samples(&mut self, count: usize) -> (samples: Vec<u32>)
        ensures
            samples@ == unit_stream(old(self)@, count as nat),
            final(self)@ == state_after(old(self)@, count as nat),
    {
        let mut samples: Vec<u32> = Vec::new();
        let mut drawn: usize = 0;
        while drawn < count
            invariant
                drawn <= count,
                samples@ == unit_stream(old(self)@, drawn as nat),
                self@ == state_after(old(self)@, drawn as nat),
            decreases count - drawn,
        {
            let sample: u32 = self.next_f32();
            samples.push(sample);
            drawn = drawn + 1;
            assert(samples@ =~= unit_stream(old(self)@, drawn as nat));
        }
        samples
    }
}

/// Two generators in the same state produce the same samples, however many
/// are drawn, and end in the same state.
pub proof fn lemma_stream_reproducible(first: SimpleRng, second: SimpleRng, count: nat)
    requires
        first@ == second@,
    ensures
        unit_stream(first@, count) == unit_stream(second@, count),
        state_after(first@, count) == state_after(second@, count),
{
}

/// Every unit sample of a stream lies in [0, 1): its numerator is below the
/// denominator.
pub proof fn lemma_unit_samples_in_range(seed: u32, index: nat)
    ensures
        unit_sample_at(seed, index) < UNIT_DENOMINATOR,
{
}

/// Drawing `first` samples and then `second` more reaches the state that
/// `first + second` draws reach.
pub proof fn lemma_state_split(seed: u32, first: nat, second: nat)
    ensures
        state_after(state_after(seed, first), second) == state_after(seed, first + second),
    decreases second,
{
    if second > 0 {
        lemma_state_split(seed, first, (second - 1) as nat);
    }
}

/// The samples drawn after the first `first` continue the stream: the first
/// `first + second` samples are the first `first` followed by the first
/// `second` of the generator left behind.
pub proof fn lemma_stream_split(seed: u32, first: nat, second: nat)
    ensures
        unit_stream(seed, first + second) == unit_stream(seed, first) + unit_stream(
            state_after(seed, first),
            second,
        ),
{
    let tail = unit_stream(state_after(seed, first), second);
    assert forall|i: int| 0 <= i < second implies #[trigger] tail[i] == unit_sample_at(
        seed,
        (first + i) as nat,
    ) by {
        lemma_state_split(seed, first, (i + 1) as nat);
    }
    assert(unit_stream(seed, first + second) =~= unit_stream(seed, first) + tail);
}

} // verus!
