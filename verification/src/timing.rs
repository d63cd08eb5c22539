//! From durations in milliseconds to counts of samples.

use vstd::prelude::*;

verus! {

/// Why a configuration is refused before any sample is produced.
#[derive(Clone, Copy, Debug, PartialEq, Eq, Structural)]
pub enum ConfigError {
    /// The sample rate is zero, so no duration corresponds to a sample count.
    ZeroSampleRate,
    /// A duration holds more samples than the machine can count.
    DurationTooLong,
    /// Ring reading was asked for on a buffer without samples.
    EmptyBuffer,
    /// The samples handed over are not as many as the plan calls for.
    LengthMismatch,
}

impl ConfigError {
    /// A sentence for the person who wrote the configuration.
    pub fn describe(&self) -> (r: &'static str)
        ensures
            r@ == describe_spec(*self)@,
    {
        match self {
            ConfigError::ZeroSampleRate => "the sample rate must be above zero",
            ConfigError::DurationTooLong => "the duration holds more samples than can be counted",
            ConfigError::EmptyBuffer => "a ring buffer needs at least one sample",
            ConfigError::LengthMismatch => "the number of samples differs from the planned size",
        }
    }
}

/// The sentence that goes with each error.
pub open spec fn describe_spec(e: ConfigError) -> &'static str {
    match e {
        ConfigError::ZeroSampleRate => "the sample rate must be above zero",
        ConfigError::DurationTooLong => "the duration holds more samples than can be counted",
        ConfigError::EmptyBuffer => "a ring buffer needs at least one sample",
        ConfigError::LengthMismatch => "the number of samples differs from the planned size",
    }
}

/// The number of whole samples that `duration_ms` milliseconds hold at
/// `sample_rate` samples per second.
pub open spec fn samples_in(sample_rate: nat, duration_ms: nat) -> nat {
    duration_ms * sample_rate / 1000
}

/// A sample rate that is known to be above zero.
#[derive(Clone, Copy, Debug)]
pub struct SampleRate {
    hz: u32,
}

impl View for SampleRate {
    type V = u32;

    closed spec fn view(&self) -> u32 {
        self.hz
    }
}

impl SampleRate {
    #[verifier::type_invariant]
    spec fn inv(&self) -> bool {
        self.hz > 0
    }

    /// Accepts every rate but zero.
    pub fn new(hz: u32) -> (r: Result<SampleRate, ConfigError>)
        ensures
            hz == 0 ==> r is Err && r->Err_0 == ConfigError::ZeroSampleRate,
            hz != 0 ==> r is Ok && r->Ok_0@ == hz,
    {
        if hz == 0 {
            Err(ConfigError::ZeroSampleRate)
        } else {
            Ok(SampleRate { hz })
        }
    }

    /// The rate in samples per second.
    pub fn hz(&self) -> (r: u32)
        ensures
            r == self@,
            r > 0,
    {
        proof {
            use_type_invariant(self);
        }
        self.hz
    }

    /// Counts the whole samples in a duration. The only failure is a count
    /// that does not fit in `usize`.
    pub fn samples_for(&self, duration_ms: usize) -> (r: Result<usize, ConfigError>)
        ensures
            samples_in(self@ as nat, duration_ms as nat) > usize::MAX ==> r is Err && r->Err_0
                == ConfigError::DurationTooLong,
            samples_in(self@ as nat, duration_ms as nat) <= usize::MAX ==> r is Ok && r->Ok_0
                == samples_in(self@ as nat, duration_ms as nat),
    {
        let rate = self.hz;
        assert(duration_ms as u128 * rate as u128 <= 0xffff_ffff_ffff_ffff * 0xffff_ffff)
            by (nonlinear_arith)
            requires
                duration_ms <= 0xffff_ffff_ffff_ffff,
                rate <= 0xffff_ffff,
        ;
        let product: u128 = duration_ms as u128 * rate as u128;
        let count: u128 = product / 1000;
        if count > usize::MAX as u128 {
            Err(ConfigError::DurationTooLong)
        } else {
            Ok(count as usize)
        }
    }
}

} // verus!
