use faust_sine::ConfigError;
use faust_sine::ParamIndex;
use faust_sine::ProcessError;
use faust_sine::mydsp;

fn expected_sine(i: usize) -> f64 {
    (i as f64 * 2.0 * std::f64::consts::PI / 65536.0).sin()
}

#[test]
fn table_matches_sine() {
    let table = mydsp::class_init(44100);
    let mut i: usize = 0;
    while i < 65536 {
        let got = f32::from_bits(table.sine_at(i)) as f64;
        let want = expected_sine(i);
        assert!(
            (got - want).abs() < 1e-4,
            "entry {} is {} but the sine there is {}",
            i,
            got,
            want
        );
        i += 1;
    }
}

#[test]
fn table_cardinal_points() {
    let table = mydsp::class_init(48000);
    assert_eq!(table.sine_at(0), 0);
    assert!((f32::from_bits(table.sine_at(16384)) - 1.0).abs() < 1e-4);
    assert!(f32::from_bits(table.sine_at(32768)).abs() < 1e-4);
    assert!((f32::from_bits(table.sine_at(49152)) + 1.0).abs() < 1e-4);
}

#[test]
fn scaled_table_is_sine_with_gain() {
    let table = mydsp::class_init(48000);
    for i in [0usize, 1, 150, 4096, 16384, 32768, 49152, 65535] {
        let sine = f32::from_bits(table.sine_at(i));
        let scaled = f32::from_bits(table.scaled_at(i));
        assert!((scaled - 0.2 * sine).abs() < 1e-7);
    }
    // The gain-scaled peak is 0.2, not 1.0: neither table hands the phase
    // index or the raw sine back unchanged.
    assert!((f32::from_bits(table.scaled_at(16384)) - 0.2).abs() < 1e-4);
}

#[test]
fn reset_zeroes_phase_slots() {
    let mut dsp = mydsp::new();
    let table = dsp.init(44100).unwrap();
    for _ in 0..17 {
        dsp.step(&table);
    }
    assert_ne!(dsp.phase_prev, 0);
    dsp.instance_clear();
    assert_eq!(dsp.phase_cur, 0);
    assert_eq!(dsp.phase_prev, 0);
}

#[test]
fn first_step_depends_only_on_increment() {
    let mut a = mydsp::new();
    let table = a.init(48000).unwrap();
    for _ in 0..5 {
        a.step(&table);
    }
    a.instance_clear();
    let mut b = mydsp::new();
    b.instance_init(48000).unwrap();
    assert_eq!(a.step(&table), b.step(&table));
}

#[test]
fn phase_stays_in_range() {
    let mut dsp = mydsp::new();
    let table = dsp.init(192000).unwrap();
    for _ in 0..1000 {
        dsp.step(&table);
        assert!(dsp.phase_cur < dsp.rate_clamped);
        assert!(dsp.phase_prev < dsp.rate_clamped);
    }
}

#[test]
fn steps_are_deterministic() {
    let mut a = mydsp::new();
    let table = a.init(44100).unwrap();
    let mut b = mydsp::new();
    b.instance_init(44100).unwrap();
    for _ in 0..256 {
        assert_eq!(a.step(&table), b.step(&table));
    }
}

#[test]
fn reference_scenario_at_192k() {
    let mut dsp = mydsp::new();
    let table = dsp.init(192000).unwrap();
    assert_eq!(dsp.rate_clamped, 192000);
    let out = dsp.step(&table);
    // The first phase is 440 / 192000, about 0.00229167.
    assert_eq!(dsp.phase_cur, 440);
    // floor(65536 * 440 / 192000) = 150.
    assert_eq!(out, table.scaled_at(150));
    assert!((f32::from_bits(table.sine_at(150)) - 0.0143805).abs() < 1e-6);
    assert!((f32::from_bits(out) - 0.0028761).abs() < 1e-6);
}

#[test]
fn compute_fills_the_declared_channel() {
    let mut dsp = mydsp::new();
    let table = dsp.init(44100).unwrap();
    let inputs: Vec<Vec<u32>> = Vec::new();
    let mut outputs = vec![vec![7u32; 64]];
    let r = dsp.compute(&table, 32, &inputs, &mut outputs);
    assert!(r.is_ok());
    let mut witness = mydsp::new();
    witness.instance_init(44100).unwrap();
    for i in 0..32 {
        assert_eq!(outputs[0][i], witness.step(&table));
    }
    for i in 32..64 {
        assert_eq!(outputs[0][i], 7u32);
    }
}

#[test]
fn compute_with_zero_count_changes_nothing() {
    let mut dsp = mydsp::new();
    let table = dsp.init(44100).unwrap();
    let inputs: Vec<Vec<u32>> = Vec::new();
    let mut outputs = vec![vec![3u32; 8]];
    let r = dsp.compute(&table, 0, &inputs, &mut outputs);
    assert!(r.is_ok());
    assert_eq!(dsp.phase_prev, 0);
    assert_eq!(outputs[0], vec![3u32; 8]);
}

#[test]
fn compute_without_outputs_is_fatal() {
    let mut dsp = mydsp::new();
    let table = dsp.init(44100).unwrap();
    let inputs: Vec<Vec<u32>> = Vec::new();
    let mut outputs: Vec<Vec<u32>> = Vec::new();
    let before_prev = dsp.phase_prev;
    let r = dsp.compute(&table, 16, &inputs, &mut outputs);
    assert_eq!(r, Err(ProcessError::MissingOutput));
    assert_eq!(dsp.phase_prev, before_prev);
    assert!(outputs.is_empty());
}

#[test]
fn compute_with_short_buffer_is_fatal() {
    let mut dsp = mydsp::new();
    let table = dsp.init(44100).unwrap();
    let inputs: Vec<Vec<u32>> = Vec::new();
    let mut outputs = vec![vec![0u32; 10]];
    let r = dsp.compute(&table, 20, &inputs, &mut outputs);
    assert_eq!(r, Err(ProcessError::ShortBuffer));
    assert_eq!(outputs[0], vec![0u32; 10]);
}

#[test]
fn params_always_absent() {
    let mut dsp = mydsp::new();
    dsp.instance_init(44100).unwrap();
    for i in [-1i32, 0, 1, 7, 1000] {
        assert!(dsp.get_param(ParamIndex(i)).is_none());
    }
    let before = (dsp.sample_rate, dsp.freq_num, dsp.rate_clamped, dsp.phase_prev);
    dsp.set_param(ParamIndex(3), 0x3F800000);
    let after = (dsp.sample_rate, dsp.freq_num, dsp.rate_clamped, dsp.phase_prev);
    assert_eq!(before, after);
}

#[test]
fn non_positive_rate_is_rejected() {
    let mut dsp = mydsp::new();
    dsp.instance_init(44100).unwrap();
    let before = (dsp.sample_rate, dsp.freq_num, dsp.rate_clamped);
    assert_eq!(dsp.instance_constants(0), Err(ConfigError::NonPositiveRate));
    assert_eq!(dsp.instance_init(-5), Err(ConfigError::NonPositiveRate));
    assert!(dsp.init(0).is_err());
    let after = (dsp.sample_rate, dsp.freq_num, dsp.rate_clamped);
    assert_eq!(before, after);
}

#[test]
fn sample_rate_is_clamped() {
    let mut dsp = mydsp::new();
    dsp.instance_init(500000).unwrap();
    assert_eq!(dsp.get_sample_rate(), 500000);
    assert_eq!(dsp.rate_clamped, 192000);
    dsp.instance_init(1).unwrap();
    assert_eq!(dsp.rate_clamped, 1);
    dsp.instance_init(44100).unwrap();
    assert_eq!(dsp.rate_clamped, 44100);
}

#[test]
fn rate_below_target_frequency_wraps_exactly() {
    // At 100 Hz the increment is 4.4 cycles per sample; the phase must
    // still stay normalized and index the table in range.
    let mut dsp = mydsp::new();
    let table = dsp.init(100).unwrap();
    assert_eq!(dsp.rate_clamped, 100);
    let out = dsp.step(&table);
    // (0 + 440) mod 100 = 40, so the phase is 0.4 of a cycle.
    assert_eq!(dsp.phase_cur, 40);
    assert_eq!(out, table.scaled_at(65536 * 40 / 100));
    for _ in 0..50 {
        dsp.step(&table);
        assert!(dsp.phase_cur < 100);
    }
}

#[test]
fn channel_counts() {
    let dsp = mydsp::new();
    assert_eq!(dsp.get_num_inputs(), 0);
    assert_eq!(dsp.get_num_outputs(), 1);
}
