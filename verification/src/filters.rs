//! A one-pole recursive high-pass filter.
//!
//! The filter is written once for every number type that has `+`, `-` and
//! `*`. Its contract speaks of the operators through their specifications:
//! where a type's operators are functions of their operands, every output is
//! pinned down; where they are not known to be, the filter still runs, and
//! the contract says only what it remembers.

use vstd::prelude::*;
use std::ops::{Add, Mul, Sub};
use vstd::std_specs::ops::{AddSpec, MulSpec, SubSpec};

verus! {

/// The mathematical state of a filter: its coefficient and what it remembers
/// of the sample before.
pub ghost struct FilterState<T> {
    pub alpha: T,
    pub prev_input: T,
    pub prev_output: T,
}

/// Whether `+`, `-` and `*` on `T` are functions of their operands.
pub open spec fn exact<T: Add<Output = T> + Sub<Output = T> + Mul<Output = T>>() -> bool {
    T::obeys_add_spec() && T::obeys_sub_spec() && T::obeys_mul_spec()
}

/// Whether `+`, `-` and `*` on `T` accept every pair of operands.
pub open spec fn total<T: Add<Output = T> + Sub<Output = T> + Mul<Output = T>>() -> bool {
    &&& forall|a: T, b: T| #[trigger] a.add_req(b)
    &&& forall|a: T, b: T| #[trigger] a.sub_req(b)
    &&& forall|a: T, b: T| #[trigger] a.mul_req(b)
}

/// The change of the signal since the sample before, on top of the output
/// before: what the coefficient is applied to.
pub open spec fn carried<T: Add<Output = T> + Sub<Output = T> + Mul<Output = T>>(
    s: FilterState<T>,
    input: T,
) -> T {
    s.prev_output.add_spec(input).sub_spec(s.prev_input)
}

/// The output for `input` in state `s`:
/// `alpha * (prev_output + input - prev_input)`.
pub open spec fn output_of<T: Add<Output = T> + Sub<Output = T> + Mul<Output = T>>(
    s: FilterState<T>,
    input: T,
) -> T {
    s.alpha.mul_spec(carried(s, input))
}

/// The state after `input` in state `s`.
pub open spec fn step<T: Add<Output = T> + Sub<Output = T> + Mul<Output = T>>(
    s: FilterState<T>,
    input: T,
) -> FilterState<T> {
    FilterState { alpha: s.alpha, prev_input: input, prev_output: output_of(s, input) }
}

/// Whether the three operations of one step accept their operands.
pub open spec fn step_defined<T: Add<Output = T> + Sub<Output = T> + Mul<Output = T>>(
    s: FilterState<T>,
    input: T,
) -> bool {
    &&& s.prev_output.add_req(input)
    &&& s.prev_output.add_spec(input).sub_req(s.prev_input)
    &&& s.alpha.mul_req(carried(s, input))
}

/// The state after all of `inputs`, taken in order.
pub open spec fn run<T: Add<Output = T> + Sub<Output = T> + Mul<Output = T>>(
    s: FilterState<T>,
    inputs: Seq<T>,
) -> FilterState<T>
    decreases inputs.len(),
{
    if inputs.len() == 0 {
        s
    } else {
        step(run(s, inputs.drop_last()), inputs.last())
    }
}

/// The outputs for `inputs`, taken in order.
pub open spec fn outputs<T: Add<Output = T> + Sub<Output = T> + Mul<Output = T>>(
    s: FilterState<T>,
    inputs: Seq<T>,
) -> Seq<T>
    decreases inputs.len(),
{
    if inputs.len() == 0 {
        Seq::empty()
    } else {
        outputs(s, inputs.drop_last()).push(output_of(run(s, inputs.drop_last()), inputs.last()))
    }
}

/// Whether every step over `inputs` accepts its operands.
pub open spec fn run_defined<T: Add<Output = T> + Sub<Output = T> + Mul<Output = T>>(
    s: FilterState<T>,
    inputs: Seq<T>,
) -> bool
    decreases inputs.len(),
{
    if inputs.len() == 0 {
        true
    } else {
        run_defined(s, inputs.drop_last()) && step_defined(
            run(s, inputs.drop_last()),
            inputs.last(),
        )
    }
}

/// A high-pass filter with one pole.
pub struct HighPassFilter<T> {
    prev_input: T,
    prev_output: T,
    alpha: T,
}

impl<T> View for HighPassFilter<T> {
    type V = FilterState<T>;

    closed spec fn view(&self) -> FilterState<T> {
        FilterState {
            alpha: self.alpha,
            prev_input: self.prev_input,
            prev_output: self.prev_output,
        }
    }
}

impl<T: Copy + Add<Output = T> + Sub<Output = T> + Mul<Output = T>> HighPassFilter<T> {
    /// A filter with coefficient `alpha` that has seen nothing but `rest`,
    /// the zero level of the signal.
    pub fn new(alpha: T, rest: T) -> (r: Self)
        ensures
            r@ == (FilterState { alpha, prev_input: rest, prev_output: rest }),
    {
        HighPassFilter { prev_input: rest, prev_output: rest, alpha }
    }

    /// The coefficient.
    pub fn alpha(&self) -> (r: T)
        ensures
            r == self@.alpha,
    {
        self.alpha
    }

    /// Filters one sample and remembers it.
    pub fn process(&mut self, input: T) -> (r: T)
        requires
            total::<T>() || (exact::<T>() && step_defined(old(self)@, input)),
        ensures
            final(self)@ == (FilterState { alpha: old(self)@.alpha, prev_input: input, prev_output: r }),
            exact::<T>() ==> r == output_of(old(self)@, input),
    {
        let output = self.alpha * (self.prev_output + input - self.prev_input);
        self.prev_input = input;
        self.prev_output = output;
        output
    }

    /// Filters a buffer in place, sample by sample, in order.
    pub fn process_buffer(&mut self, buffer: &mut Vec<T>)
        requires
            total::<T>() || (exact::<T>() && run_defined(old(self)@, old(buffer)@)),
        ensures
            final(buffer)@.len() == old(buffer)@.len(),
            final(self)@.alpha == old(self)@.alpha,
            old(buffer)@.len() == 0 ==> final(self)@ == old(self)@,
            old(buffer)@.len() > 0 ==> final(self)@.prev_input == old(buffer)@.last(),
            old(buffer)@.len() > 0 ==> final(self)@.prev_output == final(buffer)@.last(),
            exact::<T>() ==> final(buffer)@ == outputs(old(self)@, old(buffer)@),
            exact::<T>() ==> final(self)@ == run(old(self)@, old(buffer)@),
    {
        let ghost start = self@;
        let ghost inputs = buffer@;
        let n = buffer.len();
        let mut i: usize = 0;
        while i < n
            invariant
                i <= n,
                n == inputs.len(),
                buffer@.len() == n,
                forall|j: int| i <= j < n ==> buffer@[j] == inputs[j],
                total::<T>() || (exact::<T>() && run_defined(start, inputs)),
                self@.alpha == start.alpha,
                i == 0 ==> self@ == start,
                i > 0 ==> self@.prev_input == inputs[i - 1] && self@.prev_output == buffer@[i - 1],
                exact::<T>() ==> self@ == run(start, inputs.take(i as int)),
                exact::<T>() ==> buffer@.take(i as int) == outputs(start, inputs.take(i as int)),
            decreases n - i,
        {
            proof {
                if !total::<T>() {
                    lemma_prefix_defined(start, inputs, i as int);
                }
                assert(inputs.take(i + 1).drop_last() == inputs.take(i as int));
            }
            let ghost before = buffer@;
            let output = self.process(buffer[i]);
            buffer[i] = output;
            proof {
                assert(buffer@.take(i + 1) == before.take(i as int).push(output));
            }
            i += 1;
        }
        proof {
            assert(inputs.take(n as int) == inputs);
            assert(buffer@.take(n as int) == buffer@);
        }
    }
}

/// Filtering a buffer is filtering its samples one after the other: there
/// are as many outputs as inputs, the output at `i` is the output of one
/// step on `inputs[i]` in the state that the samples before it have left,
/// and that step leads to the state in which the next sample is taken.
pub proof fn lemma_buffer_is_sample_by_sample<T: Add<Output = T> + Sub<Output = T> + Mul<Output = T>>(
    s: FilterState<T>,
    inputs: Seq<T>,
    i: int,
)
    requires
        0 <= i < inputs.len(),
    ensures
        outputs(s, inputs).len() == inputs.len(),
        outputs(s, inputs)[i] == output_of(run(s, inputs.take(i)), inputs[i]),
        run(s, inputs.take(i + 1)) == step(run(s, inputs.take(i)), inputs[i]),
    decreases inputs.len(),
{
    lemma_outputs_len(s, inputs);
    assert(inputs.take(i + 1).drop_last() == inputs.take(i));
    if i + 1 == inputs.len() {
        assert(inputs.take(i) == inputs.drop_last());
    } else {
        lemma_buffer_is_sample_by_sample(s, inputs.drop_last(), i);
        assert(inputs.drop_last().take(i) == inputs.take(i));
    }
}

/// Cutting a buffer in two changes nothing: filtering the first part and
/// then the second, with the state carried over, gives the outputs and the
/// final state of filtering the whole.
pub proof fn lemma_split_anywhere<T: Add<Output = T> + Sub<Output = T> + Mul<Output = T>>(
    s: FilterState<T>,
    first: Seq<T>,
    second: Seq<T>,
)
    ensures
        run(s, first + second) == run(run(s, first), second),
        outputs(s, first + second) == outputs(s, first) + outputs(run(s, first), second),
    decreases second.len(),
{
    if second.len() == 0 {
        assert(first + second == first);
        assert(outputs(s, first) + Seq::<T>::empty() == outputs(s, first));
    } else {
        lemma_split_anywhere(s, first, second.drop_last());
        assert((first + second).drop_last() == first + second.drop_last());
        assert((outputs(s, first) + outputs(run(s, first), second.drop_last())).push(
            output_of(run(run(s, first), second.drop_last()), second.last()),
        ) == outputs(s, first) + outputs(run(s, first), second));
    }
}

/// There is one output for each input.
pub proof fn lemma_outputs_len<T: Add<Output = T> + Sub<Output = T> + Mul<Output = T>>(
    s: FilterState<T>,
    inputs: Seq<T>,
)
    ensures
        outputs(s, inputs).len() == inputs.len(),
    decreases inputs.len(),
{
    if inputs.len() > 0 {
        lemma_outputs_len(s, inputs.drop_last());
    }
}

/// The filter never changes its coefficient.
pub proof fn lemma_alpha_is_kept<T: Add<Output = T> + Sub<Output = T> + Mul<Output = T>>(
    s: FilterState<T>,
    inputs: Seq<T>,
)
    ensures
        run(s, inputs).alpha == s.alpha,
    decreases inputs.len(),
{
    if inputs.len() > 0 {
        lemma_alpha_is_kept(s, inputs.drop_last());
    }
}

/// Where a whole run is defined, so is each of its steps, in the state that
/// the samples before it have left.
pub proof fn lemma_prefix_defined<T: Add<Output = T> + Sub<Output = T> + Mul<Output = T>>(
    s: FilterState<T>,
    inputs: Seq<T>,
    i: int,
)
    requires
        run_defined(s, inputs),
        0 <= i < inputs.len(),
    ensures
        run_defined(s, inputs.take(i)),
        step_defined(run(s, inputs.take(i)), inputs[i]),
    decreases inputs.len(),
{
    if i + 1 == inputs.len() {
        assert(inputs.take(i) == inputs.drop_last());
    } else {
        lemma_prefix_defined(s, inputs.drop_last(), i);
        assert(inputs.drop_last().take(i) == inputs.take(i));
    }
}

} // verus!
