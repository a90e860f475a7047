//! The processing-unit ("state") contract.
//!
//! A processing unit is one pipeline stage: it holds one input, one read-only
//! context and an optional output, and exposes an infallible and a fallible
//! compute operation. The output is `None` until a compute succeeds; neither
//! compute ever changes the input, the context or the unit's name.

use vstd::prelude::*;

use crate::error;

verus! {

/// One pipeline stage: the unit of work of the engine.
///
/// Concrete stages implement this trait; pipelines and composite units drive
/// their stages through it. The spec functions are the mathematical model of
/// a unit: its input, context, optional output and name. The contracts state
/// the data-holder invariants every stage must keep:
///
/// - accessors report exactly the model,
/// - a compute step never changes input, context or name,
/// - a successful fallible compute leaves an output behind, and a failed one
///   leaves the output exactly as it was.
pub trait State: Sized {
    /// The payload the unit transforms.
    type InputData;

    /// The result of a successful compute.
    type OutputData;

    /// Read-only configuration and reference data, fixed at construction.
    type Context;

    /// The unit's current input.
    spec fn input_spec(&self) -> Self::InputData;

    /// The unit's context.
    spec fn context_spec(&self) -> Self::Context;

    /// The unit's output: `None` until a compute has succeeded since
    /// construction or the last reset.
    spec fn output_spec(&self) -> Option<Self::OutputData>;

    /// The unit's name, used for error attribution.
    spec fn name_spec(&self) -> Seq<char>;

    /// The allowed outcomes of the fallible compute: which final state and
    /// result may follow from `self`. Every implementation defines this to
    /// pin its own compute — in particular, which errors it can produce —
    /// and [`State::try_compute_output_data`] promises to stay inside it, so
    /// an orchestrator can state that a surfaced unit error really came from
    /// the failing unit.
    spec fn compute_spec(&self, next: Self, result: Result<(), error::State>) -> bool;

    /// The unit's name; every concrete unit type is uniquely named.
    fn get_state_name(&self) -> (name: &str)
        ensures
            name@ == self.name_spec(),
    ;

    /// Read access to the input; always available, never fails.
    fn get_input_data(&self) -> (input: &Self::InputData)
        ensures
            *input == self.input_spec(),
    ;

    /// Read access to the context; always available.
    fn get_context_data(&self) -> (context: &Self::Context)
        ensures
            *context == self.context_spec(),
    ;

    /// The output: `None` before a successful compute, `Some` after.
    fn get_output_data(&self) -> (output: Option<&Self::OutputData>)
        ensures
            match output {
                Some(data) => self.output_spec() == Some(*data),
                None => self.output_spec() is None,
            },
    ;

    /// Whether the output has been computed; equivalent to
    /// `get_output_data()` being `Some`.
    fn has_output_data_been_computed(&self) -> (computed: bool)
        ensures
            computed == (self.output_spec() is Some),
    ;

    /// The synchronous, infallible compute step. For units whose real work
    /// can fail, this is a documented no-op and
    /// [`State::try_compute_output_data`] is the path that populates the
    /// output; callers must not assume this step populates the output.
    fn compute_output_data(&mut self)
        ensures
            final(self).input_spec() == old(self).input_spec(),
            final(self).context_spec() == old(self).context_spec(),
            final(self).name_spec() == old(self).name_spec(),
    ;

    /// The fallible compute step: the one real stages use.
    ///
    /// On success the output is populated; on failure the output is left
    /// exactly as it was, and the error identifies the originating unit.
    /// Input and context are never touched.
    fn try_compute_output_data(&mut self) -> (result: Result<(), error::State>)
        ensures
            final(self).input_spec() == old(self).input_spec(),
            final(self).context_spec() == old(self).context_spec(),
            final(self).name_spec() == old(self).name_spec(),
            result is Ok ==> final(self).output_spec() is Some,
            result is Err ==> final(self).output_spec() == old(self).output_spec(),
            old(self).compute_spec(*final(self), result),
    ;

    /// Clears the output, returning the unit to its pending state; input,
    /// context and name are kept.
    fn reset(&mut self)
        ensures
            final(self).input_spec() == old(self).input_spec(),
            final(self).context_spec() == old(self).context_spec(),
            final(self).name_spec() == old(self).name_spec(),
            final(self).output_spec() is None,
    ;

    /// Installs a new input and clears the output: the fresh, pending
    /// instance for the next run, keeping context and name. This is how an
    /// orchestrator feeds the value built by a transition into the next
    /// stage.
    fn reset_with_input_data(&mut self, input: Self::InputData)
        ensures
            final(self).input_spec() == input,
            final(self).context_spec() == old(self).context_spec(),
            final(self).name_spec() == old(self).name_spec(),
            final(self).output_spec() is None,
    ;
}

} // verus!
