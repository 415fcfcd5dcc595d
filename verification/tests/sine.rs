//! The sine tone is the audio backend's own source; these tests hold it to
//! the waveform the playback layer assumes, and run the end-to-end start
//! scenario through the session and the fixed-point gain stage.

use noisebox::sample::apply_gain;
use noisebox::sample::AMP_ONE;
use noisebox::sample::GAIN_ONE;
use noisebox::session::AudioState;
use noisebox::session::PlayDirective;
use noisebox::generator::SoundType;
use rodio::source::SineWave;
use rodio::Source;

#[test]
fn sine_matches_the_formula() {
    // sample n of a tone at frequency f is sin(2*pi*f*n/rate) to floating
    // point tolerance, for any fixed test frequency
    for &freq in &[40.0f32, 200.0f32, 440.0f32] {
        let mut tone = SineWave::new(freq);
        let rate = tone.sample_rate() as f32;
        for n in 0..400 {
            let got = tone.next().unwrap();
            let expected = (std::f32::consts::TAU * freq * n as f32 / rate).sin();
            assert!(
                (got - expected).abs() < 1e-3,
                "freq {freq} sample {n}: got {got}, expected {expected}"
            );
        }
    }
}

#[test]
fn sine_samples_stay_in_range() {
    let mut tone = SineWave::new(40.0);
    for _ in 0..10_000 {
        let s = tone.next().unwrap();
        assert!((-1.0..=1.0).contains(&s));
    }
}

#[test]
fn sine_start_scenario() {
    // start(Sine, 0.5)
    let mut session = AudioState::new();
    session.set_sound_type(SoundType::SineWave);
    session.set_volume(GAIN_ONE / 2);
    let directive = session.play(true).unwrap();
    let (sound, volume) = match directive {
        PlayDirective::Begin { sound, volume } => (sound, volume),
        PlayDirective::AlreadyPlaying => panic!("fresh session reported a live stream"),
    };
    assert_eq!(sound, SoundType::SineWave);
    assert_eq!(volume, GAIN_ONE / 2);

    let mut tone = SineWave::new(40.0);
    let rate = tone.sample_rate();

    // sample 0 is sin(0) = 0, exactly
    let first = tone.next().unwrap();
    assert_eq!(first, 0.0);
    // ... and 0 after the gain as well
    assert_eq!(apply_gain((first * AMP_ONE as f32) as i64, volume), 0);

    // the sample a quarter period in is close to 1.0 before the gain
    let quarter = (rate / 40 / 4) as usize;
    let mut tone = SineWave::new(40.0);
    let mut peak = 0.0f32;
    // sample index `quarter` is the (quarter + 1)-th draw
    for _ in 0..=quarter {
        peak = tone.next().unwrap();
    }
    assert!((peak - 1.0).abs() < 1e-3, "peak was {peak}");

    // ... and close to 0.5 after the volume gain
    let fixed = (peak * AMP_ONE as f32) as i64;
    let scaled = apply_gain(fixed, volume);
    let heard = scaled as f32 / AMP_ONE as f32;
    assert!((heard - 0.5).abs() < 1e-3, "after gain: {heard}");
}
