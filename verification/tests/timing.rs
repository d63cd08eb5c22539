use white_noise::timing::{ConfigError, SampleRate};

#[test]
fn zero_sample_rate_is_refused() {
    assert_eq!(SampleRate::new(0).err(), Some(ConfigError::ZeroSampleRate));
}

#[test]
fn positive_sample_rate_is_kept() {
    let rate = SampleRate::new(44100).unwrap();
    assert_eq!(rate.hz(), 44100);
    let one = SampleRate::new(1).unwrap();
    assert_eq!(one.hz(), 1);
    let top = SampleRate::new(u32::MAX).unwrap();
    assert_eq!(top.hz(), u32::MAX);
}

#[test]
fn thirty_seconds_at_cd_rate() {
    let rate = SampleRate::new(44100).unwrap();
    assert_eq!(rate.samples_for(30000), Ok(1_323_000));
}

#[test]
fn sample_count_rounds_down() {
    let rate = SampleRate::new(44100).unwrap();
    assert_eq!(rate.samples_for(1), Ok(44));
    assert_eq!(rate.samples_for(0), Ok(0));
    assert_eq!(rate.samples_for(999), Ok(44055));
    let slow = SampleRate::new(1).unwrap();
    assert_eq!(slow.samples_for(999), Ok(0));
    assert_eq!(slow.samples_for(1000), Ok(1));
    assert_eq!(slow.samples_for(1999), Ok(1));
}

#[test]
fn intermediate_product_may_exceed_the_word() {
    // usize::MAX * 1000 does not fit in a word, the quotient does.
    let rate = SampleRate::new(1000).unwrap();
    assert_eq!(rate.samples_for(usize::MAX), Ok(usize::MAX));
    let half = SampleRate::new(500).unwrap();
    assert_eq!(half.samples_for(usize::MAX), Ok(usize::MAX / 2));
}

#[test]
fn uncountable_duration_is_refused() {
    let rate = SampleRate::new(1001).unwrap();
    assert_eq!(rate.samples_for(usize::MAX), Err(ConfigError::DurationTooLong));
    let top = SampleRate::new(u32::MAX).unwrap();
    assert_eq!(top.samples_for(usize::MAX), Err(ConfigError::DurationTooLong));
}

#[test]
fn every_error_has_its_own_sentence() {
    let all = [
        ConfigError::ZeroSampleRate,
        ConfigError::DurationTooLong,
        ConfigError::EmptyBuffer,
        ConfigError::LengthMismatch,
    ];
    for (i, a) in all.iter().enumerate() {
        assert!(!a.describe().is_empty());
        for b in all.iter().skip(i + 1) {
            assert_ne!(a.describe(), b.describe());
        }
    }
    assert_eq!(
        ConfigError::ZeroSampleRate.describe(),
        "the sample rate must be above zero"
    );
}
