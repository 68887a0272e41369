//! The recursive smoother itself: state, transitions, and their laws.

use vstd::prelude::*;
use crate::Error;
use crate::ieee::ONE_BITS;
use crate::ieee::add_bits;
use crate::ieee::div_bits;
use crate::ieee::double_add;
use crate::ieee::double_div;
use crate::ieee::double_from_u64;
use crate::ieee::double_mul;
use crate::ieee::double_sub;
use crate::ieee::mul_bits;
use crate::ieee::sub_bits;
use crate::ieee::u64_to_double_bits;
use crate::label::decimal_string;
use crate::label::spec_label;
use vstd::string::*;

verus! {

/// Mathematical state of a smoother; every contract speaks of this model.
///
/// `weight` and `current` are bit patterns of doubles; `current` is
/// meaningful only while `seeded` is true.
pub ghost struct Model {
    pub length: u32,
    pub weight: u64,
    pub seeded: bool,
    pub current: u64,
}

/// The smoothing weight `1 / (length + 1)`, as binary64 arithmetic yields it.
pub open spec fn weight_bits(length: u32) -> u64 {
    double_div(ONE_BITS, double_from_u64((length + 1) as u64))
}

/// A model is well formed when its period is positive and its weight is the
/// one derived from its period.
pub open spec fn model_wf(m: Model) -> bool {
    &&& m.length >= 1
    &&& m.weight == weight_bits(m.length)
}

/// The state a smoother of period `length` is in right after construction.
pub open spec fn fresh_model(length: u32) -> Model {
    Model { length, weight: weight_bits(length), seeded: false, current: 0 }
}

/// The recursive blend: `weight * sample + (1 - weight) * current`, in
/// binary64 arithmetic on bit patterns.
pub open spec fn blend_bits(weight: u64, sample: u64, current: u64) -> u64 {
    double_add(
        double_mul(weight, sample),
        double_mul(double_sub(ONE_BITS, weight), current),
    )
}

/// The output of feeding `sample` to a smoother in state `m`: the sample
/// itself on the first feed, the blend afterwards.
pub open spec fn step_value(m: Model, sample: u64) -> u64 {
    if m.seeded {
        blend_bits(m.weight, sample, m.current)
    } else {
        sample
    }
}

/// The state after feeding `sample` to a smoother in state `m`.
pub open spec fn step_model(m: Model, sample: u64) -> Model {
    Model { seeded: true, current: step_value(m, sample), ..m }
}

/// The state after a reset: unseeded again, period and weight untouched.
pub open spec fn reset_model(m: Model) -> Model {
    Model { seeded: false, current: 0, ..m }
}

/// The outputs of feeding `samples` in order to a smoother in state `m`.
pub open spec fn outputs_of(m: Model, samples: Seq<u64>) -> Seq<u64>
    decreases samples.len(),
{
    if samples.len() == 0 {
        Seq::empty()
    } else {
        seq![step_value(m, samples[0])] + outputs_of(step_model(m, samples[0]), samples.skip(1))
    }
}

/// A record that exposes a closing value, as the bit pattern of a double.
pub trait Close {
    /// The closing value this record exposes.
    spec fn spec_close(&self) -> u64;

    /// Returns the closing value.
    fn close(&self) -> (r: u64)
        ensures
            r == self.spec_close(),
    ;
}

/// A minimal record carrying a single closing value.
#[derive(Debug, Clone, Copy, PartialEq, Eq, Structural)]
pub struct Bar {
    close: u64,
}

impl Bar {
    /// A record whose closing value is zero.
    pub fn new() -> (r: Bar)
        ensures
            r.spec_close() == 0,
    {
        Bar { close: 0 }
    }

    /// This record with its closing value replaced by `value`.
    pub fn with_close(self, value: u64) -> (r: Bar)
        ensures
            r.spec_close() == value,
    {
        Bar { close: value }
    }
}

impl Close for Bar {
    closed spec fn spec_close(&self) -> u64 {
        self.close
    }

    fn close(&self) -> (r: u64)
        ensures
            r == self.spec_close(),
    {
        self.close
    }
}

/// A relative moving average: an exponential smoother whose weight is
/// `1 / (length + 1)`.
#[derive(Debug, Clone, Copy)]
pub struct RelativeMovingAverage {
    length: u32,
    k: u64,
    current: u64,
    is_new: bool,
}

impl View for RelativeMovingAverage {
    type V = Model;

    closed spec fn view(&self) -> Model {
        Model {
            length: self.length,
            weight: self.k,
            seeded: !self.is_new,
            current: self.current,
        }
    }
}

impl RelativeMovingAverage {
    /// A smoother is well formed when its model is.
    pub open spec fn wf(self) -> bool {
        model_wf(self@)
    }

    /// Builds a smoother with the given period, rejecting a period of zero.
    pub fn new(length: u32) -> (r: Result<Self, Error>)
        ensures
            length == 0 <==> r is Err,
            r is Err ==> r->Err_0 == Error::InvalidParameter,
            r is Ok ==> r->Ok_0.wf() && r->Ok_0@ == fresh_model(length),
    {
        if length == 0 {
            Err(Error::InvalidParameter)
        } else {
            let denominator: u64 = length as u64 + 1;
            let k = div_bits(ONE_BITS, u64_to_double_bits(denominator));
            Ok(RelativeMovingAverage { length, k, current: 0, is_new: true })
        }
    }

    /// Returns the configured period.
    pub fn length(&self) -> (r: u32)
        ensures
            r == self@.length,
    {
        self.length
    }

    /// Feeds one sample (the bit pattern of a double) and returns the updated
    /// smoothed value: the sample itself on the first feed since construction
    /// or the last reset, the recursive blend on every later feed.
    pub fn next(&mut self, input: u64) -> (r: u64)
        ensures
            final(self)@ == step_model(old(self)@, input),
            r == step_value(old(self)@, input),
            !old(self)@.seeded ==> r == input,
    {
        if self.is_new {
            self.is_new = false;
            self.current = input;
        } else {
            let kept = mul_bits(sub_bits(ONE_BITS, self.k), self.current);
            self.current = add_bits(mul_bits(self.k, input), kept);
        }
        self.current
    }

    /// Feeds the closing value of a structured record; behaves exactly as
    /// feeding that value directly.
    pub fn next_record<T: Close>(&mut self, input: &T) -> (r: u64)
        ensures
            final(self)@ == step_model(old(self)@, input.spec_close()),
            r == step_value(old(self)@, input.spec_close()),
    {
        self.next(input.close())
    }

    /// Returns the smoother to its pristine, unseeded state; the period and
    /// weight are untouched.
    pub fn reset(&mut self)
        ensures
            final(self)@ == reset_model(old(self)@),
    {
        self.current = 0;
        self.is_new = true;
    }

    /// The textual representation `EMA(<period>)`.
    pub fn label(&self) -> (r: String)
        ensures
            r@ == spec_label(self@.length),
    {
        let mut s = String::from_str("EMA(");
        let digits = decimal_string(self.length);
        s.append(digits.as_str());
        s.append(")");
        proof {
            assert(s@ =~= spec_label(self@.length));
        }
        s
    }
}

impl Default for RelativeMovingAverage {
    /// A smoother with the fixed default period of 9; never fails.
    fn default() -> (r: Self)
        ensures
            r.wf(),
            r@ == fresh_model(9),
    {
        RelativeMovingAverage::new(9).unwrap()
    }
}

/// Constructing with any period of at least 1 yields a well-formed, unseeded
/// smoother whose state is determined by the period alone.
pub proof fn lemma_fresh_model_wf(length: u32)
    requires
        length >= 1,
    ensures
        model_wf(fresh_model(length)),
        !fresh_model(length).seeded,
{
}

/// A default-constructed smoother and one explicitly constructed with period
/// 9 are in the very same state, and so produce the same outputs on every
/// sample sequence.
pub proof fn lemma_default_equals_new_9(d: RelativeMovingAverage, s: RelativeMovingAverage)
    requires
        d@ == fresh_model(9),
        s@ == fresh_model(9),
    ensures
        d@ == s@,
        forall|samples: Seq<u64>| outputs_of(d@, samples) == outputs_of(s@, samples),
{
}

/// The first sample fed after construction or after a reset is returned
/// unchanged, whatever the sample and whatever the period.
pub proof fn lemma_first_feed_identity(m: Model, sample: u64)
    requires
        !m.seeded,
    ensures
        step_value(m, sample) == sample,
        step_model(m, sample).current == sample,
{
}

/// A reset returns a well-formed smoother exactly to the state it had right
/// after construction, so feeding the first sample again reproduces the
/// first-call output exactly.
pub proof fn lemma_reset_restores_pristine(m: Model, sample: u64)
    requires
        model_wf(m),
    ensures
        reset_model(m) == fresh_model(m.length),
        step_value(reset_model(m), sample) == step_value(fresh_model(m.length), sample),
        step_value(reset_model(m), sample) == sample,
{
}

/// Determinism: two freshly constructed smoothers with the same period
/// produce identical output sequences on identical sample sequences.
pub proof fn lemma_fresh_outputs_deterministic(length: u32, a: Model, b: Model, samples: Seq<u64>)
    requires
        a == fresh_model(length),
        b == fresh_model(length),
    ensures
        outputs_of(a, samples) == outputs_of(b, samples),
{
}

} // verus!
