//! The selectable signals, and the noise generators behind one tagged union.
//! A generator is picked when playback starts and replaced, never mutated,
//! when the selection changes. The sine tone is a pure fixed-frequency
//! waveform synthesized by the audio backend, so it needs no state here and
//! has no variant.

use vstd::prelude::*;
use crate::brown::BrownNoise;
use crate::pink::PinkNoise;
use crate::sample::amp_in_range;
use crate::sample::apply_gain;
use crate::sample::scaled;
use crate::sample::GAIN_ONE;
use crate::white::WhiteNoise;

verus! {

/// The selectable signal variants.
#[derive(Clone, Copy, PartialEq, Eq, Structural, Debug)]
pub enum SoundType {
    SineWave,
    WhiteNoise,
    PinkNoise,
    BrownNoise,
}

/// Base attenuation of white noise (the fixed-point image of 0.3): raw
/// uniform noise is perceived as much louder than the other signals, so it
/// is scaled down before the volume stage to balance them.
pub const WHITE_BASE_GAIN: i64 = 19660;

/// The fixed base gain of each signal, applied before the session volume.
pub open spec fn base_gain_spec(sound: SoundType) -> int {
    if sound == SoundType::WhiteNoise {
        WHITE_BASE_GAIN as int
    } else {
        GAIN_ONE as int
    }
}

/// The exec counterpart of `base_gain_spec`.
pub fn base_gain(sound: SoundType) -> (g: i64)
    ensures
        g == base_gain_spec(sound),
        0 <= g <= GAIN_ONE,
{
    if sound == SoundType::WhiteNoise {
        WHITE_BASE_GAIN
    } else {
        GAIN_ONE
    }
}

/// A running noise generator.
pub enum Generator {
    White(WhiteNoise),
    Pink(PinkNoise),
    Brown(BrownNoise),
}

impl Generator {
    /// Well-formedness of the wrapped generator's state.
    pub open spec fn wf(&self) -> bool {
        match self {
            Generator::White(_) => true,
            Generator::Pink(p) => p.wf(),
            Generator::Brown(b) => b.wf(),
        }
    }

    /// Which selection this generator serves.
    pub open spec fn serves(&self, sound: SoundType) -> bool {
        match self {
            Generator::White(_) => sound == SoundType::WhiteNoise,
            Generator::Pink(_) => sound == SoundType::PinkNoise,
            Generator::Brown(_) => sound == SoundType::BrownNoise,
        }
    }

    /// A fresh generator for the selected signal, re-seeded from entropy.
    /// The sine tone is the audio backend's, so it gets none.
    pub fn new(sound: SoundType) -> (g: Option<Generator>)
        ensures
            match g {
                Some(gen) => gen.wf() && gen.serves(sound),
                None => sound == SoundType::SineWave,
            },
    {
        match sound {
            SoundType::SineWave => None,
            SoundType::WhiteNoise => Some(Generator::White(WhiteNoise::new())),
            SoundType::PinkNoise => Some(Generator::Pink(PinkNoise::new())),
            SoundType::BrownNoise => Some(Generator::Brown(BrownNoise::new())),
        }
    }

    /// The next raw sample of whichever generator is wrapped.
    pub fn next_sample(&mut self) -> (s: i64)
        requires
            old(self).wf(),
        ensures
            final(self).wf(),
            forall|sound: SoundType| old(self).serves(sound) ==> final(self).serves(sound),
            amp_in_range(s as int),
    {
        match self {
            Generator::White(w) => w.next_sample(),
            Generator::Pink(p) => p.next_sample(),
            Generator::Brown(b) => b.next_sample(),
        }
    }

    /// One pull of the playback chain: the next raw sample with the signal's
    /// base gain and then the session volume applied.
    pub fn next_mixed_sample(&mut self, sound: SoundType, volume: i64) -> (s: i64)
        requires
            old(self).wf(),
            old(self).serves(sound),
            0 <= volume <= GAIN_ONE,
        ensures
            final(self).wf(),
            final(self).serves(sound),
            exists|raw: int|
                amp_in_range(raw) && s == scaled(
                    scaled(raw, base_gain_spec(sound)),
                    volume as int,
                ),
            amp_in_range(s as int),
    {
        let raw = self.next_sample();
        let g = base_gain(sound);
        let levelled = apply_gain(raw, g);
        apply_gain(levelled, volume)
    }
}

} // verus!
