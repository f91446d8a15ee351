use synth::{fill_frames, FrequencyError, Interval, Mixer, Oscillator, SineWave};

fn sine_sample(w: &SineWave) -> f32 {
    (w.clock() as f32 / w.period() as f32 * std::f32::consts::PI * 2.0).sin()
}

#[test]
fn semitones_of_every_interval() {
    let all = [
        Interval::Unison,
        Interval::MinorSecond,
        Interval::MajorSecond,
        Interval::MinorThird,
        Interval::MajorThird,
        Interval::Fourth,
        Interval::DiminishedFifth,
        Interval::Fifth,
        Interval::MinorSixth,
        Interval::MajorSixth,
        Interval::MinorSeventh,
        Interval::MajorSeventh,
        Interval::Octave,
    ];
    for (k, i) in all.iter().enumerate() {
        assert_eq!(i.semitones(), k as u32);
    }
}

#[test]
fn unison_and_octave_span_zero_and_twelve() {
    assert_eq!(Interval::Unison.semitones(), 0);
    assert_eq!(Interval::Octave.semitones(), 12);
}

#[test]
fn major_triad_is_root_third_fifth() {
    assert_eq!(
        Interval::major_triad(),
        [Interval::Unison, Interval::MajorThird, Interval::Fifth]
    );
}

#[test]
fn zero_frequency_is_refused() {
    assert!(matches!(SineWave::new(0, 44100), Err(FrequencyError::NotPositive)));
}

#[test]
fn nyquist_frequency_is_refused() {
    assert!(matches!(SineWave::new(22_050_000, 44100), Err(FrequencyError::AboveNyquist)));
    assert!(matches!(SineWave::new(30_000_000, 44100), Err(FrequencyError::AboveNyquist)));
    assert!(matches!(SineWave::new(1, 0), Err(FrequencyError::AboveNyquist)));
}

#[test]
fn just_below_nyquist_gives_period_two() {
    let w = SineWave::new(22_049_999, 44100).unwrap();
    assert_eq!(w.period(), 2);
    assert_eq!(w.clock(), 0);
}

#[test]
fn a440_at_44100_has_period_100() {
    let w = SineWave::new(440_000, 44100).unwrap();
    assert_eq!(w.period(), 100);
    assert_eq!(w.clock(), 0);
}

#[test]
fn period_rounds_to_nearest() {
    // 44100 / 554.365 = 79.55...
    assert_eq!(SineWave::new(554_365, 44100).unwrap().period(), 80);
    // 44100 / 588 = 75 exactly
    assert_eq!(SineWave::new(588_000, 44100).unwrap().period(), 75);
    // 48000 / 1000.5 = 47.976...
    assert_eq!(SineWave::new(1_000_500, 48000).unwrap().period(), 48);
    // 10 / 4 = 2.5 rounds up
    assert_eq!(SineWave::new(4_000, 10).unwrap().period(), 3);
}

#[test]
fn a440_returns_to_phase_zero_after_one_period() {
    let mut w = SineWave::new(440_000, 44100).unwrap();
    let first = sine_sample(&w);
    let mut cycle = Vec::new();
    for _ in 0..100 {
        w.step();
        cycle.push(sine_sample(&w));
    }
    assert_eq!(w.clock(), 0);
    assert!((sine_sample(&w) - 0.0).abs() < 1e-6);
    assert_eq!(sine_sample(&w), first);
    for k in 0..100 {
        w.step();
        assert_eq!(sine_sample(&w), cycle[k]);
    }
}

#[test]
fn step_advances_and_wraps() {
    let mut w = SineWave::new(4_000, 10).unwrap();
    assert_eq!(w.period(), 3);
    w.step();
    assert_eq!(w.clock(), 1);
    w.step();
    assert_eq!(w.clock(), 2);
    w.step();
    assert_eq!(w.clock(), 0);
    assert_eq!(w.period(), 3);
}

#[test]
fn sine_samples_stay_in_unit_range() {
    let mut w = SineWave::new(3_000_000, 44100).unwrap();
    for _ in 0..1000 {
        w.step();
        let s = sine_sample(&w);
        assert!((-1.0..=1.0).contains(&s));
    }
}

#[test]
fn mixer_steps_every_voice_once() {
    let voices = vec![
        SineWave::new(4_000, 10).unwrap(),
        SineWave::new(440_000, 44100).unwrap(),
        SineWave::new(2_000, 10).unwrap(),
    ];
    let mut m = Mixer::new(voices);
    assert_eq!(m.len(), 3);
    m.step();
    let clocks: Vec<u64> = m.voices().iter().map(|w| w.clock()).collect();
    assert_eq!(clocks, vec![1, 1, 1]);
    m.step();
    m.step();
    let clocks: Vec<u64> = m.voices().iter().map(|w| w.clock()).collect();
    let periods: Vec<u64> = m.voices().iter().map(|w| w.period()).collect();
    assert_eq!(periods, vec![3, 100, 5]);
    assert_eq!(clocks, vec![0, 3, 3]);
}

#[test]
fn fill_frames_repeats_each_sample_across_channels() {
    let mut w = SineWave::new(4_000, 10).unwrap();
    let mut out = [0u64; 8];
    fill_frames(&mut out, 2, &mut w, &|s: &SineWave| s.clock());
    assert_eq!(out, [1, 1, 2, 2, 0, 0, 1, 1]);
    assert_eq!(w.clock(), 1);
}

#[test]
fn fill_frames_one_step_per_frame() {
    let mut w = SineWave::new(440_000, 44100).unwrap();
    let mut out = [0u64; 12];
    fill_frames(&mut out, 3, &mut w, &|s: &SineWave| s.clock());
    assert_eq!(out, [1, 1, 1, 2, 2, 2, 3, 3, 3, 4, 4, 4]);
    assert_eq!(w.clock(), 4);
}

#[test]
fn fill_frames_empty_buffer_leaves_source() {
    let mut w = SineWave::new(440_000, 44100).unwrap();
    let mut out: [i16; 0] = [];
    fill_frames(&mut out, 2, &mut w, &|s: &SineWave| s.clock() as i16);
    assert_eq!(w.clock(), 0);
}

#[test]
fn fill_frames_converts_to_i16() {
    let mut w = SineWave::new(11_025_000, 44100).unwrap();
    assert_eq!(w.period(), 4);
    let mut out = [7i16; 8];
    let to_i16 = |s: &SineWave| (sine_sample(s) * i16::MAX as f32).round() as i16;
    fill_frames(&mut out, 2, &mut w, &to_i16);
    assert_eq!(out, [32767, 32767, 0, 0, -32767, -32767, 0, 0]);
}

#[test]
fn fill_frames_from_mixer() {
    let mut m = Mixer::new(vec![
        SineWave::new(4_000, 10).unwrap(),
        SineWave::new(2_000, 10).unwrap(),
    ]);
    let mut out = [0u64; 4];
    let sum = |m: &Mixer| m.voices().iter().map(|w| w.clock()).sum::<u64>();
    fill_frames(&mut out, 1, &mut m, &sum);
    assert_eq!(out, [2, 4, 3, 5]);
}

#[test]
fn rounded_period_is_within_half_a_sample() {
    for &(freq, rate) in &[(554_365u64, 44100u32), (659_255, 44100), (1_000_500, 48000), (4_000, 10)] {
        let p = SineWave::new(freq, rate).unwrap().period() as i128;
        let err = 2 * (p * freq as i128 - 1000 * rate as i128);
        assert!(err.abs() <= freq as i128);
    }
}
