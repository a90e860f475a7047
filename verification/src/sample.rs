//! Minimal concrete units, a transition and a projection that exercise the
//! engine.
//!
//! These mirror the sample states a hierarchical pipeline is assembled from
//! in the test suite: a unit whose compute copies its input (and can be told
//! to fail), a transition that passes the value through (and can be told to
//! fail), and an identity projection for composite boundaries.

use vstd::prelude::*;

use crate::error;
use crate::state::State;
use crate::state_data::StateData;
use crate::super_state::Projection;
use crate::transition::Transition;

verus! {

/// The value bundle the sample units pass along.
#[derive(Debug, Clone, Copy, PartialEq, Eq, Structural, PartialOrd, Ord, Hash)]
pub struct SampleData {
    pub value: u64,
}

/// Partial update for [`SampleData`].
#[derive(Debug, Clone, Copy, PartialEq, Eq, Structural, PartialOrd, Ord, Hash)]
pub struct SampleDataUpdater {
    pub value: Option<u64>,
}

impl Default for SampleData {
    /// The default sample payload is zero.
    fn default() -> (data: Self)
        ensures
            data.value == 0,
    {
        SampleData { value: 0 }
    }
}

impl StateData for SampleData {
    type UpdateType = SampleDataUpdater;

    open spec fn merged_spec(&self, updates: SampleDataUpdater) -> Self {
        match updates.value {
            Some(value) => SampleData { value },
            None => *self,
        }
    }

    fn get_state(&self) -> (data: &Self) {
        self
    }

    fn update_state(&mut self, updates: SampleDataUpdater) {
        match updates.value {
            Some(value) => {
                self.value = value;
            }
            None => {}
        }
    }
}

/// Context of a sample unit: an inert tag.
#[derive(Debug, Clone, Copy, PartialEq, Eq, Structural, PartialOrd, Ord, Hash)]
pub struct SampleContext {
    pub tag: u64,
}

impl Default for SampleContext {
    /// The default tag is zero.
    fn default() -> (context: Self)
        ensures
            context.tag == 0,
    {
        SampleContext { tag: 0 }
    }
}

/// A unit whose compute copies its input to its output; `fail` makes the
/// fallible compute reject instead, leaving the output untouched.
#[derive(Debug, Clone, Copy, PartialEq, Eq, Structural, PartialOrd, Ord, Hash)]
pub struct SampleUnit {
    input: SampleData,
    context: SampleContext,
    output: Option<SampleData>,
    fail: bool,
}

impl SampleUnit {
    /// Whether the fallible compute is set up to reject.
    pub closed spec fn fail_spec(&self) -> bool {
        self.fail
    }

    /// A fresh, pending sample unit.
    pub fn new(input: SampleData, context: SampleContext, fail: bool) -> (state: Self)
        ensures
            state.input_spec() == input,
            state.context_spec() == context,
            state.output_spec() is None,
            state.fail_spec() == fail,
    {
        SampleUnit { input, context, output: None, fail }
    }
}

impl Default for SampleUnit {
    /// A default-constructed unit is pending and set up to succeed.
    fn default() -> (state: Self)
        ensures
            state.output_spec() is None,
            state.input_spec() == (SampleData { value: 0 }),
            state.context_spec() == (SampleContext { tag: 0 }),
            !state.fail_spec(),
    {
        SampleUnit {
            input: SampleData { value: 0 },
            context: SampleContext { tag: 0 },
            output: None,
            fail: false,
        }
    }
}

impl State for SampleUnit {
    type InputData = SampleData;

    type OutputData = SampleData;

    type Context = SampleContext;

    closed spec fn input_spec(&self) -> SampleData {
        self.input
    }

    closed spec fn context_spec(&self) -> SampleContext {
        self.context
    }

    closed spec fn output_spec(&self) -> Option<SampleData> {
        self.output
    }

    open spec fn name_spec(&self) -> Seq<char> {
        "Sample Unit"@
    }

    open spec fn compute_spec(&self, next: Self, result: Result<(), error::State>) -> bool {
        match result {
            Ok(_) => !self.fail_spec(),
            Err(e) => self.fail_spec() && e == error::State::InvalidInputData,
        }
    }

    fn get_state_name(&self) -> (name: &str) {
        "Sample Unit"
    }

    fn get_input_data(&self) -> (input: &SampleData) {
        &self.input
    }

    fn get_context_data(&self) -> (context: &SampleContext) {
        &self.context
    }

    fn get_output_data(&self) -> (output: Option<&SampleData>) {
        match &self.output {
            Some(output) => Some(output),
            None => None,
        }
    }

    fn has_output_data_been_computed(&self) -> (computed: bool) {
        self.output.is_some()
    }

    /// The infallible compute copies the input to the output.
    fn compute_output_data(&mut self)
        ensures
            final(self).output_spec() == Some(old(self).input_spec()),
            final(self).fail_spec() == old(self).fail_spec(),
    {
        self.output = Some(self.input);
    }

    /// Succeeds — copying the input to the output — exactly when the unit is
    /// not set up to fail; a rejection is an invalid-input unit error and
    /// leaves everything unchanged.
    fn try_compute_output_data(&mut self) -> (result: Result<(), error::State>)
        ensures
            final(self).fail_spec() == old(self).fail_spec(),
            result is Ok <==> !old(self).fail_spec(),
            result is Ok ==> final(self).output_spec() == Some(old(self).input_spec()),
            result matches Err(e) ==> e == error::State::InvalidInputData && *final(self) == *old(
                self,
            ),
    {
        if self.fail {
            Err(error::State::InvalidInputData)
        } else {
            self.output = Some(self.input);
            Ok(())
        }
    }

    fn reset(&mut self) {
        self.output = None;
    }

    fn reset_with_input_data(&mut self, input: SampleData) {
        self.input = input;
        self.output = None;
    }
}

/// A transition that passes the sample value through unchanged; `fail` makes
/// it reject with a conversion error instead.
#[derive(Debug, Clone, Copy, PartialEq, Eq, Structural, PartialOrd, Ord, Hash)]
pub struct SampleStep {
    pub fail: bool,
}

impl Default for SampleStep {
    /// The default step is set up to succeed.
    fn default() -> (step: Self)
        ensures
            !step.fail,
    {
        SampleStep { fail: false }
    }
}

impl Transition for SampleStep {
    type PriorOutput = SampleData;

    type NextInput = SampleData;

    type NextContext = SampleContext;

    open spec fn apply_spec(&self, prior_output: SampleData, next_context: SampleContext) -> Result<
        SampleData,
        error::Transition,
    > {
        if self.fail {
            Err(error::Transition::FailedOutputConversion)
        } else {
            Ok(prior_output)
        }
    }

    open spec fn name_spec(&self) -> Seq<char> {
        "Sample Step"@
    }

    fn get_transition_name(&self) -> (name: &str) {
        "Sample Step"
    }

    fn apply(&self, prior_output: &SampleData, next_context: &SampleContext) -> (result: Result<
        SampleData,
        error::Transition,
    >) {
        if self.fail {
            Err(error::Transition::FailedOutputConversion)
        } else {
            Ok(*prior_output)
        }
    }
}

/// The identity projection for composites built from sample units.
#[derive(Debug, Clone, Copy, PartialEq, Eq, Structural, PartialOrd, Ord, Hash, Default)]
pub struct SampleProjection {}

impl Projection for SampleProjection {
    type Source = SampleData;

    type Target = SampleData;

    open spec fn project_spec(&self, source: SampleData) -> SampleData {
        source
    }

    fn project(&self, source: &SampleData) -> (target: SampleData) {
        *source
    }
}

} // verus!

