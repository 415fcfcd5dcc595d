//! Brown noise: a leaky random-walk integrator. Every tick draws a small
//! uniform step, adds it to the integrator, clamps the integrator into the
//! valid amplitude range so the walk cannot drift without bound, and emits
//! the integrator scaled down — the walk's low-frequency emphasis makes its
//! excursions larger than white or pink noise at equal gain.

use vstd::prelude::*;
use crate::rng::rng_draw;
use crate::rng::rng_from_entropy;
use crate::sample::amp_in_range;
use crate::sample::clamp_amp;
use crate::sample::clamp_amp_spec;
use crate::sample::div_amp;
use crate::sample::div_trunc;
use crate::sample::lemma_div_trunc_bound;
use crate::sample::AMP_ONE;
use crate::sample::SAMPLE_RATE;

verus! {

/// Magnitude bound of one random-walk step: AMP_ONE / 32.
pub const BROWN_STEP: i64 = 2048;

/// The emitted sample is the integrator divided by this.
pub const BROWN_OUTPUT_DIV: i64 = 8;

/// A brown noise generator.
pub struct BrownNoise {
    /// Source of the uniform draws.
    pub rng: rand::rngs::StdRng,
    /// The random-walk position, kept within [-AMP_ONE, AMP_ONE].
    pub integrator: i64,
    /// The last emitted sample: the integrator, scaled down.
    pub output: i64,
}

impl BrownNoise {
    /// Well-formed: the walk is in range and the output is its scaled image.
    pub open spec fn wf(&self) -> bool {
        &&& amp_in_range(self.integrator as int)
        &&& self.output == div_trunc(self.integrator as int, BROWN_OUTPUT_DIV as int)
    }

    /// A fresh generator: the walk starts at zero.
    pub fn new() -> (g: BrownNoise)
        ensures
            g.wf(),
            g.integrator == 0,
            g.output == 0,
    {
        BrownNoise { rng: rng_from_entropy(), integrator: 0, output: 0 }
    }

    /// One tick of the walk: add a small uniform step to the integrator,
    /// clamp it into the amplitude range, and emit it scaled down.
    pub fn next_sample(&mut self) -> (s: i64)
        requires
            old(self).wf(),
        ensures
            final(self).wf(),
            clamp_amp_spec(old(self).integrator - BROWN_STEP) <= final(self).integrator
                <= clamp_amp_spec(old(self).integrator + BROWN_STEP),
            s == final(self).output,
            s == div_trunc(final(self).integrator as int, BROWN_OUTPUT_DIV as int),
            -(AMP_ONE / 8) <= s <= AMP_ONE / 8,
            amp_in_range(s as int),
    {
        let d = rng_draw(&mut self.rng, -BROWN_STEP, BROWN_STEP);
        self.integrator = clamp_amp(self.integrator + d);
        proof {
            lemma_div_trunc_bound(
                self.integrator as int,
                BROWN_OUTPUT_DIV as int,
                (AMP_ONE / 8) as int,
            );
        }
        self.output = div_amp(self.integrator, BROWN_OUTPUT_DIV);
        self.output
    }

    /// Samples per second of the produced stream.
    pub fn sample_rate(&self) -> (r: u32)
        ensures
            r == SAMPLE_RATE,
    {
        SAMPLE_RATE
    }

    /// The stream is single-channel.
    pub fn channel_count(&self) -> (r: u16)
        ensures
            r == 1,
    {
        1
    }

    /// The stream has no internal span boundary.
    pub fn current_span_len(&self) -> (r: Option<usize>)
        ensures
            r is None,
    {
        None
    }

    /// The stream is infinite: it has no total length in samples.
    pub fn total_duration(&self) -> (r: Option<u64>)
        ensures
            r is None,
    {
        None
    }
}

} // verus!
