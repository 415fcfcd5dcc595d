use noisebox::brown::BrownNoise;
use noisebox::generator::Generator;
use noisebox::generator::SoundType;
use noisebox::pink::PinkNoise;
use noisebox::sample::AMP_ONE;
use noisebox::sample::GAIN_ONE;
use noisebox::white::WhiteNoise;

#[test]
fn white_samples_stay_in_range() {
    let mut w = WhiteNoise::new();
    for _ in 0..10_000 {
        let s = w.next_sample();
        assert!(-AMP_ONE <= s && s <= AMP_ONE);
    }
}

#[test]
fn white_stream_metadata() {
    let w = WhiteNoise::new();
    assert_eq!(w.sample_rate(), 44_100);
    assert_eq!(w.channel_count(), 1);
    assert_eq!(w.current_span_len(), None);
    assert_eq!(w.total_duration(), None);
}

#[test]
fn pink_samples_stay_in_range() {
    let mut p = PinkNoise::new();
    for _ in 0..10_000 {
        let s = p.next_sample();
        assert!(-AMP_ONE <= s && s <= AMP_ONE);
    }
}

#[test]
fn pink_running_sum_matches_resummation() {
    let mut p = PinkNoise::new();
    assert_eq!(p.resummed(), p.running_sum);
    for tick in 1..=65_536u32 {
        p.next_sample();
        if tick % 4_096 == 0 {
            // independent O(16) resummations at checkpoints
            assert_eq!(p.resummed(), p.running_sum);
            let direct: i64 = p.rows.iter().sum();
            assert_eq!(direct, p.running_sum);
        }
    }
}

#[test]
fn pink_row_update_schedule() {
    let mut p = PinkNoise::new();
    assert_eq!(p.counter, 0);
    let mut updates = [0u32; 16];
    for _ in 0..65_536u32 {
        let before = p.rows.clone();
        p.next_sample();
        match PinkNoise::scheduled_row(p.counter) {
            Some(k) => {
                updates[k] += 1;
                // every row but the scheduled one is untouched
                for i in 0..16 {
                    if i != k {
                        assert_eq!(p.rows[i], before[i]);
                    }
                }
            }
            None => {
                // the wrapped counter refreshes no row at all
                assert_eq!(p.rows, before);
            }
        }
    }
    assert_eq!(p.counter, 65_536);
    // row k is refreshed once every 2^(k+1) ticks: 32768 times for row 0,
    // 2048 times for row 4, once for row 15; the one remaining tick (the
    // counter value 65536, with 16 trailing zeros) refreshes no row.
    for k in 0..16 {
        assert_eq!(updates[k], 65_536 >> (k + 1));
    }
    assert_eq!(updates.iter().sum::<u32>(), 65_535);
}

#[test]
fn pink_stream_metadata() {
    let p = PinkNoise::new();
    assert_eq!(p.sample_rate(), 44_100);
    assert_eq!(p.channel_count(), 1);
    assert_eq!(p.current_span_len(), None);
    assert_eq!(p.total_duration(), None);
}

#[test]
fn brown_samples_stay_in_range() {
    let mut b = BrownNoise::new();
    assert_eq!(b.integrator, 0);
    assert_eq!(b.output, 0);
    let mut prev = b.integrator;
    for _ in 0..10_000 {
        let s = b.next_sample();
        // the emitted sample is the integrator scaled down by 8
        assert!(-AMP_ONE / 8 <= s && s <= AMP_ONE / 8);
        assert_eq!(s, b.output);
        assert_eq!(s, b.integrator / 8);
        // the walk stays in range and moves by at most one step per tick
        assert!(-AMP_ONE <= b.integrator && b.integrator <= AMP_ONE);
        assert!((b.integrator - prev).abs() <= 2_048);
        prev = b.integrator;
    }
}

#[test]
fn brown_stream_metadata() {
    let b = BrownNoise::new();
    assert_eq!(b.sample_rate(), 44_100);
    assert_eq!(b.channel_count(), 1);
    assert_eq!(b.current_span_len(), None);
    assert_eq!(b.total_duration(), None);
}

#[test]
fn generator_union_serves_each_selection() {
    assert!(Generator::new(SoundType::SineWave).is_none());
    assert!(matches!(
        Generator::new(SoundType::WhiteNoise),
        Some(Generator::White(_))
    ));
    assert!(matches!(
        Generator::new(SoundType::PinkNoise),
        Some(Generator::Pink(_))
    ));
    assert!(matches!(
        Generator::new(SoundType::BrownNoise),
        Some(Generator::Brown(_))
    ));
}

#[test]
fn white_base_gain_attenuates_the_mix() {
    // at full volume the white chain is still scaled by the 0.3 base gain:
    // were the gain stage handing its input through, full-range draws would
    // exceed this bound almost surely over 10000 samples
    let mut g = Generator::new(SoundType::WhiteNoise).unwrap();
    for _ in 0..10_000 {
        let s = g.next_mixed_sample(SoundType::WhiteNoise, GAIN_ONE);
        assert!(-19_660 <= s && s <= 19_660);
    }
}

#[test]
fn mixed_samples_honour_the_volume() {
    // at zero volume every mixed sample is exactly zero
    let mut g = Generator::new(SoundType::PinkNoise).unwrap();
    for _ in 0..1_000 {
        assert_eq!(g.next_mixed_sample(SoundType::PinkNoise, 0), 0);
    }
    // at half volume a full-range sample can reach at most half scale
    let mut g = Generator::new(SoundType::BrownNoise).unwrap();
    for _ in 0..1_000 {
        let s = g.next_mixed_sample(SoundType::BrownNoise, GAIN_ONE / 2);
        assert!(-AMP_ONE / 2 <= s && s <= AMP_ONE / 2);
    }
}
