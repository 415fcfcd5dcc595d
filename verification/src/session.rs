//! The playback session state machine: Stopped or Playing, plus the current
//! selection and volume. The session owns the decisions; acquiring the
//! output device and moving samples to it are the audio layer's part, which
//! it performs as the returned directives say. Only one stream can be live:
//! a start while playing directs no new stream.

use vstd::prelude::*;
use crate::generator::SoundType;
use crate::sample::GAIN_ONE;

verus! {

/// Why playback could not start.
#[derive(Clone, Copy, PartialEq, Eq, Structural, Debug)]
pub enum AudioError {
    /// No output audio device could be acquired.
    DeviceUnavailable,
}

/// What the audio layer is to do after a successful `play` call.
#[derive(Clone, Copy, PartialEq, Eq, Structural, Debug)]
pub enum PlayDirective {
    /// Playback was already running: keep the live stream, build nothing.
    AlreadyPlaying,
    /// Build a fresh stream for `sound` with gain `volume` and start it.
    Begin { sound: SoundType, volume: i64 },
}

/// A gain clamped into [0, GAIN_ONE]: out-of-range volume requests are
/// silently brought to the nearest bound.
pub open spec fn clamped_gain(v: int) -> int {
    if v < 0 {
        0
    } else if v > GAIN_ONE {
        GAIN_ONE as int
    } else {
        v
    }
}

/// The playback session.
pub struct AudioState {
    /// Whether an output device handle is held (it is kept across stops).
    pub has_device: bool,
    /// Whether a stream is live.
    pub is_playing: bool,
    /// The selected signal.
    pub sound_type: SoundType,
    /// The current volume, a fixed-point gain in [0, GAIN_ONE].
    pub volume: i64,
}

impl AudioState {
    /// Well-formed: the volume is a valid gain, and a playing session holds
    /// an output device.
    pub open spec fn wf(&self) -> bool {
        &&& 0 <= self.volume <= GAIN_ONE
        &&& self.is_playing ==> self.has_device
    }

    /// A new session: stopped, no device yet, the sine tone selected, and
    /// the volume at half scale.
    pub fn new() -> (s: AudioState)
        ensures
            s.wf(),
            !s.is_playing,
            !s.has_device,
            s.sound_type == SoundType::SineWave,
            s.volume == GAIN_ONE / 2,
    {
        AudioState {
            has_device: false,
            is_playing: false,
            sound_type: SoundType::SineWave,
            volume: 32768,
        }
    }

    /// Select the signal that the next start will play.
    pub fn set_sound_type(&mut self, sound_type: SoundType)
        ensures
            final(self).sound_type == sound_type,
            final(self).has_device == old(self).has_device,
            final(self).is_playing == old(self).is_playing,
            final(self).volume == old(self).volume,
    {
        self.sound_type = sound_type;
    }

    /// Set the volume, silently clamping out-of-range requests into
    /// [0, GAIN_ONE]. Returns whether a stream is live, so the caller can
    /// re-apply the gain to it at once.
    pub fn set_volume(&mut self, volume: i64) -> (live: bool)
        ensures
            final(self).volume == clamped_gain(volume as int),
            live == old(self).is_playing,
            final(self).has_device == old(self).has_device,
            final(self).is_playing == old(self).is_playing,
            final(self).sound_type == old(self).sound_type,
            old(self).wf() ==> final(self).wf(),
    {
        self.volume = if volume < 0 {
            0
        } else if volume > GAIN_ONE {
            GAIN_ONE
        } else {
            volume
        };
        self.is_playing
    }

    /// Start playback. `device_ok` says whether the audio layer could
    /// acquire an output device (ignored when one is already held). Without
    /// a device the start fails and the session stays stopped. While already
    /// playing, a start changes nothing and directs no new stream, so a
    /// second concurrent stream or a doubled gain stage cannot arise.
    /// Otherwise the session moves to Playing and the caller is directed to
    /// build a fresh stream with the current selection and volume.
    pub fn play(&mut self, device_ok: bool) -> (r: Result<PlayDirective, AudioError>)
        requires
            old(self).wf(),
        ensures
            final(self).wf(),
            final(self).sound_type == old(self).sound_type,
            final(self).volume == old(self).volume,
            final(self).has_device == (old(self).has_device || device_ok),
            !old(self).has_device && !device_ok ==> r == Err::<PlayDirective, AudioError>(
                AudioError::DeviceUnavailable,
            ) && final(self).is_playing == old(self).is_playing,
            (old(self).has_device || device_ok) && old(self).is_playing
                ==> final(self).is_playing && r == Ok::<PlayDirective, AudioError>(
                PlayDirective::AlreadyPlaying,
            ),
            (old(self).has_device || device_ok) && !old(self).is_playing
                ==> final(self).is_playing && (r == Ok::<PlayDirective, AudioError>(
                PlayDirective::Begin { sound: old(self).sound_type, volume: old(self).volume },
            )),
    {
        if !(self.has_device || device_ok) {
            return Err(AudioError::DeviceUnavailable);
        }
        self.has_device = true;
        if self.is_playing {
            return Ok(PlayDirective::AlreadyPlaying);
        }
        self.is_playing = true;
        Ok(PlayDirective::Begin { sound: self.sound_type, volume: self.volume })
    }

    /// Stop playback: a no-op when already stopped. Returns whether a stream
    /// was live and must now be released. The next start builds a fresh
    /// stream: the deterministic sine tone restarts from phase zero, and the
    /// noise generators are constructed anew, re-seeded from entropy.
    pub fn stop(&mut self) -> (had_stream: bool)
        ensures
            !final(self).is_playing,
            had_stream == old(self).is_playing,
            final(self).has_device == old(self).has_device,
            final(self).sound_type == old(self).sound_type,
            final(self).volume == old(self).volume,
            old(self).wf() ==> final(self).wf(),
    {
        let was = self.is_playing;
        self.is_playing = false;
        was
    }
}

} // verus!
