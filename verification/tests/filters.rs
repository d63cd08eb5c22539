use white_noise::filters::HighPassFilter;

/// The coefficient of an RC high-pass with the given cutoff, sampled at the
/// given rate.
fn coefficient(sample_rate: u32, cutoff_frequency: f32) -> f32 {
    let dt = 1.0 / sample_rate as f32;
    let rc = 1.0 / (2.0 * std::f32::consts::PI * cutoff_frequency);
    rc / (rc + dt)
}

#[test]
fn test_highpass_filter() {
    let sample_rate = 44100;
    let cutoff_frequency = 100.0;

    let mut buffer = vec![0.0; 10000];
    // Add some low frequency content to the buffer
    for (i, sample) in buffer.iter_mut().enumerate() {
        *sample += (i as f32 / sample_rate as f32 * 2.0 * std::f32::consts::PI * 50.0).sin();
    }
    let before: f64 = buffer.iter().map(|&v| (v as f64) * (v as f64)).sum();

    let mut filter = HighPassFilter::new(coefficient(sample_rate, cutoff_frequency), 0.0);
    filter.process_buffer(&mut buffer);

    let after: f64 = buffer.iter().map(|&v| (v as f64) * (v as f64)).sum();

    let energy_loss = (before - after).abs() / before;

    // Verify that the high pass filter has significantly reduced the low frequency content
    println!(
        "Energy loss: {}%, before & after: {} / {} ",
        (energy_loss * 100.0).round(),
        before,
        after
    );

    assert!(
        energy_loss > 0.8,
        "High pass filter did not sufficiently reduce low frequency content"
    );
}

#[test]
fn test_highpass_filter_pass() {
    let sample_rate = 44100;
    let cutoff_frequency = 50.0;

    let mut buffer = vec![0.0; 10000];
    // Add some high frequency content to the buffer
    for (i, sample) in buffer.iter_mut().enumerate() {
        *sample += (i as f32 / sample_rate as f32 * 2.0 * std::f32::consts::PI * 500.0).sin();
    }
    let before: f64 = buffer.iter().map(|&v| (v as f64) * (v as f64)).sum();

    let mut filter = HighPassFilter::new(coefficient(sample_rate, cutoff_frequency), 0.0);
    filter.process_buffer(&mut buffer);

    let after: f64 = buffer.iter().map(|&v| (v as f64) * (v as f64)).sum();
    let energy_loss = (before - after).abs() / before;

    println!(
        "Energy left: {}%, before & after: {} / {} ",
        (energy_loss * 100.0).round(),
        before,
        after
    );

    assert!(
        energy_loss < 0.1,
        "High pass filter did not sufficiently reduce low frequency content"
    );
}

#[test]
fn recurrence_on_exact_fractions() {
    // alpha * (prev_output + input - prev_input), on values that single
    // precision holds exactly.
    let mut filter = HighPassFilter::new(0.5f32, 0.0);
    assert_eq!(filter.alpha(), 0.5);
    assert_eq!(filter.process(1.0), 0.5);
    assert_eq!(filter.process(2.0), 0.75);
    assert_eq!(filter.process(2.0), 0.375);
    assert_eq!(filter.process(-1.0), -1.3125);
}

#[test]
fn recurrence_on_integers() {
    let mut filter = HighPassFilter::new(3i64, 0);
    assert_eq!(filter.process(5), 15);
    assert_eq!(filter.process(7), 51);
    assert_eq!(filter.process(7), 153);
    let mut unit = HighPassFilter::new(1i64, 0);
    for x in [4i64, -9, 0, 12, 12] {
        assert_eq!(unit.process(x), x);
    }
}

#[test]
fn filter_starts_from_its_rest_level() {
    let mut filter = HighPassFilter::new(2i32, 10);
    // 2 * (10 + 10 - 10)
    assert_eq!(filter.process(10), 20);
    let mut other = HighPassFilter::new(2i32, 10);
    // 2 * (10 + 13 - 10)
    assert_eq!(other.process(13), 26);
}

#[test]
fn constant_input_dies_away() {
    let mut filter = HighPassFilter::new(0.5f64, 0.0);
    let mut last = f64::MAX;
    for _ in 0..40 {
        let out = filter.process(1.0);
        assert!(out.abs() < last);
        last = out.abs();
    }
    assert!(last < 1e-9);
}

#[test]
fn buffer_equals_sample_by_sample() {
    let inputs: Vec<f32> = (0..2000)
        .map(|i| ((i * 37 % 101) as f32 - 50.0) / 64.0)
        .collect();
    let alpha = coefficient(44100, 100.0);

    let mut one_by_one = HighPassFilter::new(alpha, 0.0);
    let expected: Vec<f32> = inputs.iter().map(|&x| one_by_one.process(x)).collect();

    let mut whole = HighPassFilter::new(alpha, 0.0);
    let mut buffer = inputs.clone();
    whole.process_buffer(&mut buffer);

    assert_eq!(buffer.len(), expected.len());
    for (a, b) in buffer.iter().zip(expected.iter()) {
        assert_eq!(a.to_bits(), b.to_bits());
    }
    // Both filters are left in the same state.
    assert_eq!(
        whole.process(0.25).to_bits(),
        one_by_one.process(0.25).to_bits()
    );
}

#[test]
fn buffer_keeps_the_state_between_calls() {
    let inputs: Vec<i64> = vec![3, -1, 4, 1, -5, 9, 2, -6];
    let mut whole = HighPassFilter::new(2i64, 0);
    let mut all = inputs.clone();
    whole.process_buffer(&mut all);

    let mut parts = HighPassFilter::new(2i64, 0);
    let mut first = inputs[..3].to_vec();
    let mut second = inputs[3..].to_vec();
    parts.process_buffer(&mut first);
    parts.process_buffer(&mut second);
    first.extend(second);
    assert_eq!(all, first);
    assert_eq!(all[0], 6);
    assert_eq!(all[1], 4);
    assert_eq!(all[2], 18);
}

#[test]
fn empty_buffer_leaves_the_filter_alone() {
    let mut filter = HighPassFilter::new(2i64, 0);
    assert_eq!(filter.process(5), 10);
    let mut nothing: Vec<i64> = Vec::new();
    filter.process_buffer(&mut nothing);
    assert!(nothing.is_empty());
    // 2 * (10 + 6 - 5)
    assert_eq!(filter.process(6), 22);
}
