//! A finite store of samples read as a ring, one sample per tick, with the
//! fade-in of the first ticks.
//!
//! The buffer never looks inside a sample: it hands out what was stored,
//! together with the gain that the tick calls for, and leaves the scaling to
//! the caller. A buffer without samples stands for a source that draws a new
//! value at every tick; it hands out no sample, only the gain.

use vstd::prelude::*;
use crate::envelope::{fading, gain_at, gain_for, Gain};
use crate::timing::ConfigError;

verus! {

/// What one tick hands out.
#[derive(Debug)]
pub struct Frame<T> {
    /// The stored sample that the tick reads, or `None` where the source
    /// keeps no samples and a new value is to be drawn.
    pub raw: Option<T>,
    /// The share of the amplitude that the fade-in lets through.
    pub gain: Gain,
}

/// The stored sample that the tick after `tick` earlier ones reads.
pub open spec fn raw_at<T>(samples: Seq<T>, tick: nat) -> Option<T> {
    if samples.len() == 0 {
        None
    } else {
        Some(samples[(tick % samples.len()) as int])
    }
}

/// The frame handed out after `tick` earlier ones. The tick is counted
/// before the fade-in is looked up, so this frame has the gain of tick
/// `tick + 1`.
pub open spec fn frame_at<T>(samples: Seq<T>, ramp: usize, tick: nat) -> Frame<T> {
    Frame { raw: raw_at(samples, tick), gain: gain_at(ramp, tick + 1) }
}

/// The mathematical state of a noise buffer.
pub ghost struct NoiseState<T> {
    /// The stored samples, in reading order.
    pub samples: Seq<T>,
    /// The length of the fade-in, in ticks.
    pub ramp_up_samples: usize,
    /// The number of frames handed out so far.
    pub tick: nat,
}

/// Where a buffer stands: the ring index of the next read, and the ticks
/// counted so far, which stop counting once the fade-in is over.
#[derive(Clone, Copy)]
struct Cursor {
    position: usize,
    elapsed: usize,
    tick: Ghost<nat>,
}

/// A noise source that replays its samples cyclically.
///
/// The logical tick counter grows without bound; the machine state holds
/// only what later frames depend on, so no call can overflow.
pub struct NoiseBuffer<T> {
    samples: Vec<T>,
    ramp_up_samples: usize,
    cursor: Cursor,
}

impl<T> View for NoiseBuffer<T> {
    type V = NoiseState<T>;

    closed spec fn view(&self) -> NoiseState<T> {
        NoiseState {
            samples: self.samples@,
            ramp_up_samples: self.ramp_up_samples,
            tick: self.cursor.tick@,
        }
    }
}

impl<T> NoiseBuffer<T> {
    #[verifier::type_invariant]
    spec fn inv(&self) -> bool {
        &&& self.samples@.len() > 0 ==> self.cursor.position == self.cursor.tick@
            % self.samples@.len()
        &&& self.samples@.len() == 0 ==> self.cursor.position == 0
        &&& self.cursor.elapsed <= self.ramp_up_samples
        &&& self.cursor.elapsed == if self.cursor.tick@ < self.ramp_up_samples {
            self.cursor.tick@
        } else {
            self.ramp_up_samples as nat
        }
    }

}

impl<T: Copy> NoiseBuffer<T> {
    /// A ring over `samples`, with a fade-in of `ramp_up_samples` ticks (zero
    /// for none). Refused exactly when there is no sample to read.
    pub fn new(samples: Vec<T>, ramp_up_samples: usize) -> (r: Result<Self, ConfigError>)
        ensures
            samples@.len() == 0 ==> r is Err && r->Err_0 == ConfigError::EmptyBuffer,
            samples@.len() > 0 ==> r is Ok && r->Ok_0@ == (NoiseState {
                samples: samples@,
                ramp_up_samples,
                tick: 0,
            }),
    {
        if samples.len() == 0 {
            return Err(ConfigError::EmptyBuffer);
        }
        proof {
            vstd::arithmetic::div_mod::lemma_small_mod(0, samples@.len());
        }
        Ok(
            NoiseBuffer {
                samples,
                ramp_up_samples,
                cursor: Cursor { position: 0, elapsed: 0, tick: Ghost(0) },
            },
        )
    }

    /// A source that keeps no samples: every frame asks for a new value.
    pub fn unbuffered(ramp_up_samples: usize) -> (r: Self)
        ensures
            r@ == (NoiseState { samples: Seq::<T>::empty(), ramp_up_samples, tick: 0 }),
    {
        NoiseBuffer {
            samples: Vec::new(),
            ramp_up_samples,
            cursor: Cursor { position: 0, elapsed: 0, tick: Ghost(0) },
        }
    }

    /// Hands out the next frame and counts the tick.
    pub fn next_sample(&mut self) -> (r: Frame<T>)
        ensures
            r == frame_at(old(self)@.samples, old(self)@.ramp_up_samples, old(self)@.tick),
            final(self)@ == (NoiseState { tick: old(self)@.tick + 1, ..old(self)@ }),
    {
        proof {
            use_type_invariant(&*self);
        }
        let size = self.samples.len();
        let at = self.cursor.position;
        let ghost tick = self.cursor.tick@;
        let raw = if size == 0 {
            None
        } else {
            Some(self.samples[at])
        };
        let position = if size == 0 || at + 1 == size {
            0
        } else {
            at + 1
        };
        let elapsed = if self.cursor.elapsed < self.ramp_up_samples {
            self.cursor.elapsed + 1
        } else {
            self.cursor.elapsed
        };
        proof {
            if size > 0 {
                lemma_ring_step(size as nat, tick);
            }
        }
        self.cursor = Cursor { position, elapsed, tick: Ghost(tick + 1) };
        Frame { raw, gain: gain_for(self.ramp_up_samples, elapsed) }
    }

    /// The number of stored samples; zero for a source without a buffer.
    pub fn buffer_size(&self) -> (r: usize)
        ensures
            r == self@.samples.len(),
    {
        self.samples.len()
    }

    /// The length of the fade-in, in ticks.
    pub fn ramp_up_samples(&self) -> (r: usize)
        ensures
            r == self@.ramp_up_samples,
    {
        self.ramp_up_samples
    }

    /// The ring index that the next frame reads; zero without a buffer.
    pub fn position(&self) -> (r: usize)
        ensures
            self@.samples.len() > 0 ==> r == self@.tick % self@.samples.len(),
            self@.samples.len() == 0 ==> r == 0,
    {
        proof {
            use_type_invariant(self);
        }
        self.cursor.position
    }
}

/// A ring of `B` samples repeats itself every `B` ticks: the stored sample
/// read at a tick is read again `B` ticks later, and once the fade-in is
/// over, or where there is none, the whole frame comes again.
pub proof fn lemma_ring_wrap<T>(samples: Seq<T>, ramp: usize, tick: nat)
    requires
        samples.len() > 0,
    ensures
        raw_at(samples, tick + samples.len()) == raw_at(samples, tick),
        !fading(ramp as nat, tick + 1) ==> frame_at(samples, ramp, tick + samples.len())
            == frame_at(samples, ramp, tick),
        ramp == 0 ==> frame_at(samples, ramp, tick + samples.len()) == frame_at(
            samples,
            ramp,
            tick,
        ),
{
    vstd::arithmetic::div_mod::lemma_mod_add_multiples_vanish(
        tick as int,
        samples.len() as int,
    );
    assert(tick + samples.len() == samples.len() + tick);
}

/// With a fade-in of `ramp` ticks, the `k`-th frame that a new source hands
/// out, counted from one, carries the gain `k / ramp` while `k < ramp`, and
/// full gain from the `ramp`-th frame on.
pub proof fn lemma_fade_in_frames<T>(samples: Seq<T>, ramp: usize, k: nat)
    requires
        ramp > 0,
        k >= 1,
    ensures
        k < ramp ==> frame_at(samples, ramp, (k - 1) as nat).gain == (Gain::Ramp {
            step: k as usize,
            span: ramp,
        }),
        k >= ramp ==> frame_at(samples, ramp, (k - 1) as nat).gain == Gain::Full,
{
}

/// A source without samples never hands one out, whatever the tick.
pub proof fn lemma_unbuffered_draws<T>(ramp: usize, tick: nat)
    ensures
        frame_at(Seq::<T>::empty(), ramp, tick).raw is None,
        frame_at(Seq::<T>::empty(), ramp, tick).gain == gain_at(ramp, tick + 1),
{
}

/// One step round a ring of `size` places: the place after `tick % size` is
/// `(tick + 1) % size`.
pub proof fn lemma_ring_step(size: nat, tick: nat)
    requires
        size > 0,
    ensures
        (tick + 1) % size == if tick % size + 1 == size {
            0
        } else {
            tick % size + 1
        },
{
    let q = (tick / size) as int;
    let m = (tick % size) as int;
    let d = size as int;
    vstd::arithmetic::div_mod::lemma_fundamental_div_mod(tick as int, d);
    if m + 1 == d {
        assert(tick + 1 == (q + 1) * d + 0) by (nonlinear_arith)
            requires
                tick == d * q + m,
                m + 1 == d,
        ;
        vstd::arithmetic::div_mod::lemma_fundamental_div_mod_converse(tick as int + 1, d, q + 1, 0);
    } else {
        assert(tick + 1 == q * d + (m + 1)) by (nonlinear_arith)
            requires
                tick == d * q + m,
        ;
        vstd::arithmetic::div_mod::lemma_fundamental_div_mod_converse(tick as int + 1, d, q, m + 1);
    }
}

} // verus!
