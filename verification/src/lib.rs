//! The core of a streaming noise generator.
//!
//! [`plan`] lays a stream out from its sample rate and durations, [`noise`]
//! hands out one stored sample per tick, round a ring, [`envelope`] says
//! which share of the amplitude the fade-in lets through at each tick, and
//! [`filters`] removes what lies below a cutoff frequency. Random draws,
//! floating-point constants and the audio device are the caller's business.

pub mod envelope;
pub mod filters;
pub mod noise;
pub mod plan;
pub mod timing;
