//! White noise: every sample is an independent uniform draw over the full
//! amplitude range, with no memory between samples.

use vstd::prelude::*;
use crate::rng::rng_draw;
use crate::rng::rng_from_entropy;
use crate::sample::amp_in_range;
use crate::sample::AMP_ONE;
use crate::sample::SAMPLE_RATE;

verus! {

/// A white noise generator.
pub struct WhiteNoise {
    rng: rand::rngs::StdRng,
}

impl WhiteNoise {
    /// A fresh generator, seeded from the entropy source.
    pub fn new() -> WhiteNoise {
        WhiteNoise { rng: rng_from_entropy() }
    }

    /// The next sample: an independent uniform draw over [-AMP_ONE, AMP_ONE].
    pub fn next_sample(&mut self) -> (s: i64)
        ensures
            amp_in_range(s as int),
    {
        rng_draw(&mut self.rng, -AMP_ONE, AMP_ONE)
    }

    /// Samples per second of the produced stream.
    pub fn sample_rate(&self) -> (r: u32)
        ensures
            r == SAMPLE_RATE,
    {
        SAMPLE_RATE
    }

    /// The stream is single-channel.
    pub fn channel_count(&self) -> (r: u16)
        ensures
            r == 1,
    {
        1
    }

    /// The stream has no internal span boundary.
    pub fn current_span_len(&self) -> (r: Option<usize>)
        ensures
            r is None,
    {
        None
    }

    /// The stream is infinite: it has no total length in samples.
    pub fn total_duration(&self) -> (r: Option<u64>)
        ensures
            r is None,
    {
        None
    }
}

} // verus!
