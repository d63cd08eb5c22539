//! The linear fade-in: which share of a sample's amplitude each tick lets
//! through.
//!
//! Ticks are counted from one: the first sample that a stream hands out is
//! tick 1. With a ramp of `R` ticks, tick `k` lets `k / R` of the amplitude
//! through while `k < R`, and all of it from tick `R` on. A ramp of zero
//! ticks switches the fade-in off.

use vstd::prelude::*;

verus! {

/// The share of a raw sample's amplitude that reaches the output.
#[derive(Clone, Copy, Debug, PartialEq, Eq, Structural)]
pub enum Gain {
    /// The sample passes unchanged.
    Full,
    /// The sample is scaled by `step / span`.
    Ramp { step: usize, span: usize },
}

impl Gain {
    /// The numerator of the share, the share being a fraction.
    pub open spec fn numerator(self) -> nat {
        match self {
            Gain::Full => 1,
            Gain::Ramp { step, span } => step as nat,
        }
    }

    /// The denominator of the share.
    pub open spec fn denominator(self) -> nat {
        match self {
            Gain::Full => 1,
            Gain::Ramp { step, span } => span as nat,
        }
    }

    /// Whether the sample passes unchanged.
    pub fn is_full(&self) -> (r: bool)
        ensures
            r == (*self == Gain::Full),
    {
        match self {
            Gain::Full => true,
            Gain::Ramp { .. } => false,
        }
    }
}

/// Whether tick `tick` still lies inside a ramp of `ramp` ticks.
pub open spec fn fading(ramp: nat, tick: nat) -> bool {
    ramp > 0 && tick < ramp
}

/// The gain of tick `tick` under a ramp of `ramp` ticks.
pub open spec fn gain_at(ramp: usize, tick: nat) -> Gain {
    if fading(ramp as nat, tick) {
        Gain::Ramp { step: tick as usize, span: ramp }
    } else {
        Gain::Full
    }
}

/// Computes the gain of one tick.
pub fn gain_for(ramp: usize, tick: usize) -> (r: Gain)
    ensures
        r == gain_at(ramp, tick as nat),
{
    if ramp > 0 && tick < ramp {
        Gain::Ramp { step: tick, span: ramp }
    } else {
        Gain::Full
    }
}

/// Inside the ramp, tick `k` lets exactly `k / ramp` through; from tick
/// `ramp` on the gain is full and stays full.
pub proof fn lemma_ramp_envelope(ramp: usize, k: nat)
    requires
        ramp > 0,
    ensures
        k < ramp ==> gain_at(ramp, k) == (Gain::Ramp { step: k as usize, span: ramp }),
        k < ramp ==> gain_at(ramp, k).numerator() == k && gain_at(ramp, k).denominator() == ramp,
        k >= ramp ==> gain_at(ramp, k) == Gain::Full,
        forall|later: nat| later >= k && k >= ramp ==> #[trigger] gain_at(ramp, later) == Gain::Full,
{
}

/// The share never falls from one tick to a later one, and never exceeds
/// one. Fractions are compared by cross-multiplication.
pub proof fn lemma_ramp_monotone(ramp: usize, earlier: nat, later: nat)
    requires
        earlier <= later,
    ensures
        gain_at(ramp, earlier).numerator() * gain_at(ramp, later).denominator() <= gain_at(
            ramp,
            later,
        ).numerator() * gain_at(ramp, earlier).denominator(),
        gain_at(ramp, later).numerator() <= gain_at(ramp, later).denominator(),
{
    let r = ramp as nat;
    if fading(r, later) {
        assert(earlier * r <= later * r) by (nonlinear_arith)
            requires
                earlier <= later,
        ;
    } else if fading(r, earlier) {
        assert(earlier * 1 <= 1 * r) by (nonlinear_arith)
            requires
                earlier < r,
        ;
    }
}

} // verus!
