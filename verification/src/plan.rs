//! The layout of one stream, decided once before the first sample: how many
//! samples the buffer and the fade-in hold, how the source is read, and at
//! which stage the high-pass filter runs.

use vstd::prelude::*;
use crate::noise::{NoiseBuffer, NoiseState};
use crate::timing::{samples_in, ConfigError, SampleRate};

verus! {

/// The stage at which the high-pass filter runs.
///
/// Filtering the stored buffer once costs nothing per tick, but the filter's
/// state at the end of the buffer does not match its state at the start, so
/// every wrap of the ring is audible as a click. Filtering each frame on its
/// way out has no such seam.
#[derive(Clone, Copy, Debug, PartialEq, Eq, Structural)]
pub enum FilterStage {
    /// Once, over the whole buffer, before it is stored.
    Batch,
    /// On every frame, after the fade-in.
    Live,
}

impl Default for FilterStage {
    fn default() -> (r: FilterStage)
        ensures
            r == FilterStage::Batch,
    {
        FilterStage::Batch
    }
}

/// How a stream comes by its raw samples.
#[derive(Clone, Copy, Debug, PartialEq, Eq, Structural)]
pub enum ReadMode {
    /// From a stored buffer, read cyclically.
    Ring,
    /// A new random value at every tick; nothing is stored or filtered.
    Fresh,
}

/// The mathematical content of a plan.
pub ghost struct PlanView {
    pub sample_rate: u32,
    pub buffer_size: usize,
    pub ramp_up_samples: usize,
    pub stage: FilterStage,
}

impl PlanView {
    /// A plan without buffer draws every sample anew.
    pub open spec fn mode(self) -> ReadMode {
        if self.buffer_size == 0 {
            ReadMode::Fresh
        } else {
            ReadMode::Ring
        }
    }
}

/// Whether both durations hold a number of samples that fits in `usize`.
pub open spec fn countable(sample_rate: u32, buffer_ms: usize, ramp_up_ms: usize) -> bool {
    &&& samples_in(sample_rate as nat, buffer_ms as nat) <= usize::MAX
    &&& samples_in(sample_rate as nat, ramp_up_ms as nat) <= usize::MAX
}

/// The plan that a valid configuration leads to.
pub open spec fn planned(
    sample_rate: u32,
    buffer_ms: usize,
    ramp_up_ms: usize,
    stage: FilterStage,
) -> PlanView {
    PlanView {
        sample_rate,
        buffer_size: samples_in(sample_rate as nat, buffer_ms as nat) as usize,
        ramp_up_samples: samples_in(sample_rate as nat, ramp_up_ms as nat) as usize,
        stage,
    }
}

/// A validated stream layout.
#[derive(Clone, Copy, Debug)]
pub struct StreamPlan {
    rate: SampleRate,
    buffer_size: usize,
    ramp_up_samples: usize,
    stage: FilterStage,
}

impl View for StreamPlan {
    type V = PlanView;

    closed spec fn view(&self) -> PlanView {
        PlanView {
            sample_rate: self.rate@,
            buffer_size: self.buffer_size,
            ramp_up_samples: self.ramp_up_samples,
            stage: self.stage,
        }
    }
}

impl StreamPlan {
    /// Lays a stream out from its sample rate and its two durations.
    ///
    /// A zero sample rate is refused first, then a duration whose samples
    /// cannot be counted. A buffer of zero samples is accepted and selects
    /// [`ReadMode::Fresh`].
    pub fn new(sample_rate: u32, buffer_ms: usize, ramp_up_ms: usize, stage: FilterStage) -> (r:
        Result<StreamPlan, ConfigError>)
        ensures
            sample_rate == 0 ==> r is Err && r->Err_0 == ConfigError::ZeroSampleRate,
            sample_rate != 0 && !countable(sample_rate, buffer_ms, ramp_up_ms) ==> r is Err
                && r->Err_0 == ConfigError::DurationTooLong,
            sample_rate != 0 && countable(sample_rate, buffer_ms, ramp_up_ms) ==> r is Ok
                && r->Ok_0@ == planned(sample_rate, buffer_ms, ramp_up_ms, stage),
    {
        let rate = match SampleRate::new(sample_rate) {
            Ok(rate) => rate,
            Err(e) => {
                return Err(e);
            },
        };
        let buffer_size = match rate.samples_for(buffer_ms) {
            Ok(n) => n,
            Err(e) => {
                return Err(e);
            },
        };
        let ramp_up_samples = match rate.samples_for(ramp_up_ms) {
            Ok(n) => n,
            Err(e) => {
                return Err(e);
            },
        };
        Ok(StreamPlan { rate, buffer_size, ramp_up_samples, stage })
    }

    /// Lays out a stream that must read from a ring: as [`StreamPlan::new`],
    /// but a buffer of zero samples is refused.
    pub fn ring(sample_rate: u32, buffer_ms: usize, ramp_up_ms: usize, stage: FilterStage) -> (r:
        Result<StreamPlan, ConfigError>)
        ensures
            sample_rate == 0 ==> r is Err && r->Err_0 == ConfigError::ZeroSampleRate,
            sample_rate != 0 && !countable(sample_rate, buffer_ms, ramp_up_ms) ==> r is Err
                && r->Err_0 == ConfigError::DurationTooLong,
            sample_rate != 0 && countable(sample_rate, buffer_ms, ramp_up_ms) && samples_in(
                sample_rate as nat,
                buffer_ms as nat,
            ) == 0 ==> r is Err && r->Err_0 == ConfigError::EmptyBuffer,
            sample_rate != 0 && countable(sample_rate, buffer_ms, ramp_up_ms) && samples_in(
                sample_rate as nat,
                buffer_ms as nat,
            ) != 0 ==> r is Ok && r->Ok_0@ == planned(sample_rate, buffer_ms, ramp_up_ms, stage)
                && r->Ok_0@.mode() == ReadMode::Ring,
    {
        match StreamPlan::new(sample_rate, buffer_ms, ramp_up_ms, stage) {
            Ok(plan) => {
                if plan.buffer_size == 0 {
                    Err(ConfigError::EmptyBuffer)
                } else {
                    Ok(plan)
                }
            },
            Err(e) => Err(e),
        }
    }

    /// The rate in samples per second; never zero.
    pub fn sample_rate(&self) -> (r: u32)
        ensures
            r == self@.sample_rate,
            r > 0,
    {
        self.rate.hz()
    }

    /// The number of samples that the buffer is to hold.
    pub fn buffer_size(&self) -> (r: usize)
        ensures
            r == self@.buffer_size,
    {
        self.buffer_size
    }

    /// The length of the fade-in, in ticks.
    pub fn ramp_up_samples(&self) -> (r: usize)
        ensures
            r == self@.ramp_up_samples,
    {
        self.ramp_up_samples
    }

    /// The stage that was asked for.
    pub fn stage(&self) -> (r: FilterStage)
        ensures
            r == self@.stage,
    {
        self.stage
    }

    /// How the stream comes by its raw samples.
    pub fn mode(&self) -> (r: ReadMode)
        ensures
            r == self@.mode(),
    {
        if self.buffer_size == 0 {
            ReadMode::Fresh
        } else {
            ReadMode::Ring
        }
    }

    /// Whether the generated buffer passes through the filter before it is
    /// stored.
    pub fn filters_buffer(&self) -> (r: bool)
        ensures
            r == (self@.mode() == ReadMode::Ring && self@.stage == FilterStage::Batch),
    {
        self.buffer_size != 0 && self.stage == FilterStage::Batch
    }

    /// Whether every frame passes through the filter on its way out.
    pub fn filters_output(&self) -> (r: bool)
        ensures
            r == (self@.mode() == ReadMode::Ring && self@.stage == FilterStage::Live),
    {
        self.buffer_size != 0 && self.stage == FilterStage::Live
    }

    /// Builds the noise source of this plan from the generated samples.
    ///
    /// The samples must be exactly as many as the plan's buffer holds: none
    /// for a plan that draws every sample anew.
    pub fn into_buffer<T: Copy>(&self, samples: Vec<T>) -> (r: Result<NoiseBuffer<T>, ConfigError>)
        ensures
            samples@.len() != self@.buffer_size ==> r is Err && r->Err_0
                == ConfigError::LengthMismatch,
            samples@.len() == self@.buffer_size ==> r is Ok && r->Ok_0@ == (NoiseState {
                samples: samples@,
                ramp_up_samples: self@.ramp_up_samples,
                tick: 0,
            }),
    {
        if samples.len() != self.buffer_size {
            Err(ConfigError::LengthMismatch)
        } else if self.buffer_size == 0 {
            let r = NoiseBuffer::unbuffered(self.ramp_up_samples);
            assert(r@.samples =~= samples@);
            Ok(r)
        } else {
            NoiseBuffer::new(samples, self.ramp_up_samples)
        }
    }
}

} // verus!
