//! Composite units: a processing unit whose computation is delegated to an
//! internally owned nested pipeline.
//!
//! A [`SuperState`] is structurally a processing unit — from the outside it
//! is indistinguishable from a leaf unit — but its output is computed by
//! running an internal two-stage pipeline to completion and projecting the
//! nested pipeline's terminal output into the composite's own output type.
//! Failures of any internal unit or transition propagate as the composite's
//! own unit error, wrapped with the composite's name prepended, so the full
//! path of nested names survives arbitrary nesting depth.

use vstd::prelude::*;

use crate::error;
use crate::error::ErrorKind;
use crate::machine::MachinePhase;
use crate::machine::Pipeline;
use crate::state::State;
use crate::transition::Transition;

verus! {

/// The mapping applied at a composite's boundary: conceptually a built-in
/// transition from the inner pipeline's terminal output to the composite's
/// own output type. It is pure: the result is a function of the source alone.
pub trait Projection: Sized {
    /// The terminal output type of the inner pipeline.
    type Source;

    /// The composite's output type.
    type Target;

    /// The mapping itself: what `project` must return.
    spec fn project_spec(&self, source: Self::Source) -> Self::Target;

    /// Maps the inner terminal output into the composite's output; returns
    /// exactly [`Projection::project_spec`] of it.
    fn project(&self, source: &Self::Source) -> (target: Self::Target)
        ensures
            target == self.project_spec(*source),
    ;
}

/// A processing unit computed by an internally owned two-stage pipeline.
///
/// Because a composite is itself a [`State`], it can stand as a stage inside
/// another composite's internal pipeline: nesting depth is unbounded.
pub struct SuperState<S1, T, S2, P, C> where
    S1: State,
    S2: State,
    T: Transition<
        PriorOutput = <S1 as State>::OutputData,
        NextInput = <S2 as State>::InputData,
        NextContext = <S2 as State>::Context,
    >,
    P: Projection<Source = <S2 as State>::OutputData>,
{
    name: String,
    context: C,
    output: Option<<P as Projection>::Target>,
    failure: Option<ErrorKind>,
    inner: Pipeline<S1, T, S2>,
    projection: P,
}

impl<S1, T, S2, P, C> SuperState<S1, T, S2, P, C> where
    S1: State,
    S2: State,
    T: Transition<
        PriorOutput = <S1 as State>::OutputData,
        NextInput = <S2 as State>::InputData,
        NextContext = <S2 as State>::Context,
    >,
    P: Projection<Source = <S2 as State>::OutputData>,
 {
    /// The internal pipeline.
    pub closed spec fn inner_spec(&self) -> Pipeline<S1, T, S2> {
        self.inner
    }

    /// The boundary projection.
    pub closed spec fn projection_spec(&self) -> P {
        self.projection
    }

    /// The recorded failure of an earlier run of the internal pipeline, if
    /// any.
    pub closed spec fn failure_spec(&self) -> Option<ErrorKind> {
        self.failure
    }

    /// Ready for its first computation: no output, no recorded failure, and a
    /// pending internal pipeline.
    pub open spec fn composite_ready(&self) -> bool {
        &&& self.output_spec() is None
        &&& self.failure_spec() is None
        &&& self.inner_spec().is_pending()
    }

    /// A fresh composite: the outer input is the inner initial unit's input,
    /// handed over at construction together with the parts of the internal
    /// pipeline.
    pub fn new(name: String, context: C, first: S1, transition: T, second: S2, projection: P) -> (
        state: Self)
        ensures
            state.name_spec() == name@,
            state.context_spec() == context,
            state.output_spec() is None,
            state.failure_spec() is None,
            state.projection_spec() == projection,
            state.inner_spec().first_spec() == first,
            state.inner_spec().transition_spec() == transition,
            state.inner_spec().second_spec() == second,
            state.inner_spec().phase_spec() == MachinePhase::NotStarted,
    {
        SuperState {
            name,
            context,
            output: None,
            failure: None,
            inner: Pipeline::new(first, transition, second),
            projection,
        }
    }

    /// Read access to the internal pipeline: every inner unit's output up to
    /// a failure point stays inspectable.
    pub fn inner(&self) -> (inner: &Pipeline<S1, T, S2>)
        ensures
            *inner == self.inner_spec(),
    {
        &self.inner
    }
}

impl<S1, T, S2, P, C> State for SuperState<S1, T, S2, P, C> where
    S1: State,
    S2: State,
    T: Transition<
        PriorOutput = <S1 as State>::OutputData,
        NextInput = <S2 as State>::InputData,
        NextContext = <S2 as State>::Context,
    >,
    P: Projection<Source = <S2 as State>::OutputData>,
 {
    type InputData = <S1 as State>::InputData;

    type OutputData = <P as Projection>::Target;

    type Context = C;

    closed spec fn input_spec(&self) -> <S1 as State>::InputData {
        self.inner.first_spec().input_spec()
    }

    closed spec fn context_spec(&self) -> C {
        self.context
    }

    closed spec fn output_spec(&self) -> Option<<P as Projection>::Target> {
        self.output
    }

    closed spec fn name_spec(&self) -> Seq<char> {
        self.name@
    }

    open spec fn compute_spec(
        &self,
        next: Self,
        result: Result<(), error::State>,
    ) -> bool {
        match result {
            Ok(_) => true,
            Err(e) => e matches error::State::InnerMachineFailed { state_name, source }
                && state_name@ == self.name_spec(),
        }
    }

    fn get_state_name(&self) -> (name: &str) {
        self.name.as_str()
    }

    fn get_input_data(&self) -> (input: &<S1 as State>::InputData) {
        self.inner.first().get_input_data()
    }

    fn get_context_data(&self) -> (context: &C) {
        &self.context
    }

    fn get_output_data(&self) -> (output: Option<&<P as Projection>::Target>) {
        match &self.output {
            Some(output) => Some(output),
            None => None,
        }
    }

    fn has_output_data_been_computed(&self) -> (computed: bool) {
        self.output.is_some()
    }

    /// A composite's real work is fallible (any inner stage may reject), so
    /// this placeholder changes nothing — in particular, callers must not
    /// assume it populates the output — and the fallible compute is the path
    /// that does the work.
    fn compute_output_data(&mut self)
        ensures
            *final(self) == *old(self),
    {
    }

    /// Runs the internal pipeline to its terminal unit and projects that
    /// unit's output into the composite's own output type.
    ///
    /// Law: on success, the composite's output equals the projection of its
    /// internal terminal unit's output — running the composite is
    /// observationally equivalent to running its internal pipeline and
    /// mapping the result. On failure, the error carries this composite's
    /// name and preserves the inner error unchanged underneath it.
    fn try_compute_output_data(&mut self) -> (result: Result<(), error::State>)
        ensures
            final(self).projection_spec() == old(self).projection_spec(),
            old(self).output_spec() is Some ==> result is Ok && *final(self) == *old(self),
            old(self).output_spec() is None ==> (old(self).failure_spec() matches Some(recorded)
                ==> (result matches Err(error::State::InnerMachineFailed { state_name, source })
                && state_name@ == old(self).name_spec() && *source == recorded && *final(self)
                == *old(self))),
            old(self).composite_ready() ==> match result {
                Ok(()) => {
                    &&& final(self).inner_spec().phase_spec() == MachinePhase::Completed
                    &&& final(self).inner_spec().second_spec().output_spec() matches Some(terminal)
                        && final(self).output_spec() == Some(
                        old(self).projection_spec().project_spec(terminal),
                    )
                },
                Err(composite_error) => {
                    &&& final(self).inner_spec().phase_spec() == MachinePhase::Failed
                    &&& composite_error matches error::State::InnerMachineFailed {
                        state_name,
                        source,
                    } && state_name@ == old(self).name_spec() && final(self).failure_spec()
                        == Some(*source) && *source matches ErrorKind::StateMachine(_)
                },
            },
    {
        if self.output.is_some() {
            return Ok(());
        }
        match &self.failure {
            Some(recorded) => {
                return Err(
                    error::State::InnerMachineFailed {
                        state_name: self.name.clone(),
                        source: Box::new(recorded.clone()),
                    },
                );
            }
            None => {}
        }
        match self.inner.run() {
            Ok(()) => {
                let terminal_output = self.inner.second().get_output_data().unwrap();
                let target = self.projection.project(terminal_output);
                self.output = Some(target);
                Ok(())
            }
            Err(inner_error) => {
                self.failure = Some(inner_error.clone());
                Err(
                    error::State::InnerMachineFailed {
                        state_name: self.name.clone(),
                        source: Box::new(inner_error),
                    },
                )
            }
        }
    }

    fn reset(&mut self) {
        self.inner.reset();
        self.output = None;
        self.failure = None;
    }

    fn reset_with_input_data(&mut self, input: <S1 as State>::InputData) {
        self.inner.reset_with_first_input(input);
        self.output = None;
        self.failure = None;
    }
}

} // verus!
