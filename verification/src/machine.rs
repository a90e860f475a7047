//! The pipeline orchestrator ("state machine").
//!
//! An orchestrator owns an ordered sequence of processing units and the
//! transitions connecting consecutive units, and drives them from the initial
//! unit to the terminal unit: each unit's fallible compute runs in turn, and
//! on success the transition builds the next unit's input from the prior
//! unit's output and that unit's own context. Units execute strictly in
//! sequence — a unit never begins before its predecessor's output is
//! available — and on the first failure the orchestrator stops advancing and
//! surfaces the error unchanged, while every already-computed output stays
//! inspectable.

use vstd::prelude::*;

use crate::error;
use crate::error::ErrorKind;
use crate::state::State;
use crate::transition::Transition;

verus! {

/// The phases of a pipeline run: a freshly built pipeline is `NotStarted`;
/// `run` moves it through `Running` to exactly one of the terminal phases
/// `Completed` or `Failed`.
#[derive(Debug, Clone, Copy, PartialEq, Eq, Structural, Hash)]
pub enum MachinePhase {
    NotStarted,
    Running,
    Completed,
    Failed,
}

/// The unit error `e` was genuinely produced by the unit now in state `post`:
/// some pending pre-state with `post`'s input, context and name allows the
/// outcome `(post, Err(e))` under that unit's own compute contract
/// ([`State::compute_spec`]). The orchestrators surface a failing unit's
/// error through this predicate, so a fabricated error cannot satisfy their
/// contracts.
pub open spec fn surfaced_by<S: State>(post: S, e: error::State) -> bool {
    exists|pre: S|
        {
            &&& pre.input_spec() == post.input_spec()
            &&& pre.context_spec() == post.context_spec()
            &&& pre.name_spec() == post.name_spec()
            &&& pre.output_spec() is None
            &&& #[trigger] pre.compute_spec(post, Err(e))
        }
}

/// A two-stage pipeline: an initial unit, the transition that adapts its
/// output, and the terminal unit.
pub struct Pipeline<S1, T, S2> where
    S1: State,
    S2: State,
    T: Transition<
        PriorOutput = <S1 as State>::OutputData,
        NextInput = <S2 as State>::InputData,
        NextContext = <S2 as State>::Context,
    >,
{
    first: S1,
    transition: T,
    second: S2,
    phase: MachinePhase,
}

impl<S1, T, S2> Pipeline<S1, T, S2> where
    S1: State,
    S2: State,
    T: Transition<
        PriorOutput = <S1 as State>::OutputData,
        NextInput = <S2 as State>::InputData,
        NextContext = <S2 as State>::Context,
    >,
 {
    /// The initial unit.
    pub closed spec fn first_spec(&self) -> S1 {
        self.first
    }

    /// The transition between the two units.
    pub closed spec fn transition_spec(&self) -> T {
        self.transition
    }

    /// The terminal unit.
    pub closed spec fn second_spec(&self) -> S2 {
        self.second
    }

    /// The phase of the run.
    pub closed spec fn phase_spec(&self) -> MachinePhase {
        self.phase
    }

    /// Ready to run: not yet started, with both units pending.
    pub open spec fn is_pending(&self) -> bool {
        &&& self.phase_spec() == MachinePhase::NotStarted
        &&& self.first_spec().output_spec() is None
        &&& self.second_spec().output_spec() is None
    }

    /// Assembles a pipeline from its units and the connecting transition.
    pub fn new(first: S1, transition: T, second: S2) -> (pipeline: Self)
        ensures
            pipeline.first_spec() == first,
            pipeline.transition_spec() == transition,
            pipeline.second_spec() == second,
            pipeline.phase_spec() == MachinePhase::NotStarted,
    {
        Pipeline { first, transition, second, phase: MachinePhase::NotStarted }
    }

    /// Read access to the initial unit (its output stays inspectable after a
    /// run, completed or failed).
    pub fn first(&self) -> (unit: &S1)
        ensures
            *unit == self.first_spec(),
    {
        &self.first
    }

    /// Read access to the terminal unit.
    pub fn second(&self) -> (unit: &S2)
        ensures
            *unit == self.second_spec(),
    {
        &self.second
    }

    /// The phase of the run.
    pub fn get_phase(&self) -> (phase: MachinePhase)
        ensures
            phase == self.phase_spec(),
    {
        self.phase
    }

    /// Whether the pipeline is ready to run.
    pub fn check_pending(&self) -> (pending: bool)
        ensures
            pending == self.is_pending(),
    {
        match self.phase {
            MachinePhase::NotStarted => !self.first.has_output_data_been_computed()
                && !self.second.has_output_data_been_computed(),
            _ => false,
        }
    }

    /// Resets both units and the phase, installing `input` as the initial
    /// unit's input: the pipeline is pending again.
    pub fn reset_with_first_input(&mut self, input: <S1 as State>::InputData)
        ensures
            final(self).is_pending(),
            final(self).transition_spec() == old(self).transition_spec(),
            final(self).first_spec().input_spec() == input,
            final(self).first_spec().context_spec() == old(self).first_spec().context_spec(),
            final(self).first_spec().name_spec() == old(self).first_spec().name_spec(),
            final(self).second_spec().input_spec() == old(self).second_spec().input_spec(),
            final(self).second_spec().context_spec() == old(self).second_spec().context_spec(),
            final(self).second_spec().name_spec() == old(self).second_spec().name_spec(),
    {
        self.first.reset_with_input_data(input);
        self.second.reset();
        self.phase = MachinePhase::NotStarted;
    }

    /// Resets both units and the phase, keeping every input: the pipeline is
    /// pending again.
    pub fn reset(&mut self)
        ensures
            final(self).is_pending(),
            final(self).transition_spec() == old(self).transition_spec(),
            final(self).first_spec().input_spec() == old(self).first_spec().input_spec(),
            final(self).first_spec().context_spec() == old(self).first_spec().context_spec(),
            final(self).first_spec().name_spec() == old(self).first_spec().name_spec(),
            final(self).second_spec().input_spec() == old(self).second_spec().input_spec(),
            final(self).second_spec().context_spec() == old(self).second_spec().context_spec(),
            final(self).second_spec().name_spec() == old(self).second_spec().name_spec(),
    {
        self.first.reset();
        self.second.reset();
        self.phase = MachinePhase::NotStarted;
    }

    /// Runs the pipeline to completion or first failure.
    ///
    /// Starting from the initial unit, executes the fallible compute; on
    /// success, applies the transition to build the terminal unit's input
    /// (combined with that unit's own context), advances, and finishes when
    /// the terminal unit completes (`Completed`) or any step fails
    /// (`Failed`). A pipeline that is not pending is refused as an invalid
    /// configuration and left unchanged.
    pub fn run(&mut self) -> (outcome: Result<(), ErrorKind>)
        ensures
            final(self).transition_spec() == old(self).transition_spec(),
            final(self).first_spec().input_spec() == old(self).first_spec().input_spec(),
            final(self).first_spec().context_spec() == old(self).first_spec().context_spec(),
            final(self).first_spec().name_spec() == old(self).first_spec().name_spec(),
            final(self).second_spec().context_spec() == old(self).second_spec().context_spec(),
            final(self).second_spec().name_spec() == old(self).second_spec().name_spec(),
            !old(self).is_pending() ==> {
                &&& outcome == Err::<(), ErrorKind>(
                    ErrorKind::StateMachine(error::StateMachine::InvalidConfiguration),
                )
                &&& *final(self) == *old(self)
            },
            old(self).is_pending() ==> {
                &&& (outcome is Ok <==> final(self).phase_spec() == MachinePhase::Completed)
                &&& (outcome is Err <==> final(self).phase_spec() == MachinePhase::Failed)
                &&& (outcome is Ok ==> {
                    &&& final(self).first_spec().output_spec() is Some
                    &&& final(self).second_spec().output_spec() is Some
                    &&& final(self).transition_spec().apply_spec(
                        final(self).first_spec().output_spec().unwrap(),
                        final(self).second_spec().context_spec(),
                    ) == Ok::<<S2 as State>::InputData, error::Transition>(
                        final(self).second_spec().input_spec(),
                    )
                })
                &&& (final(self).second_spec().output_spec() is Some
                    ==> final(self).first_spec().output_spec() is Some)
                &&& (final(self).first_spec().output_spec() is None ==> final(self).second_spec()
                    == old(self).second_spec())
                &&& (outcome matches Err(kind) ==> kind matches ErrorKind::StateMachine(_))
                &&& (outcome is Err && final(self).first_spec().output_spec() is None ==> outcome
                    matches Err(ErrorKind::StateMachine(error::StateMachine::State(_))))
                &&& (outcome matches Err(
                    ErrorKind::StateMachine(error::StateMachine::Transition(transition_error)),
                ) ==> {
                    &&& final(self).second_spec() == old(self).second_spec()
                    &&& final(self).first_spec().output_spec() is Some
                    &&& final(self).transition_spec().apply_spec(
                        final(self).first_spec().output_spec().unwrap(),
                        final(self).second_spec().context_spec(),
                    ) == Err::<<S2 as State>::InputData, error::Transition>(transition_error)
                })
                &&& (outcome matches Err(
                    ErrorKind::StateMachine(error::StateMachine::State(state_error)),
                ) ==> if final(self).first_spec().output_spec() is None {
                    old(self).first_spec().compute_spec(final(self).first_spec(), Err(state_error))
                } else {
                    &&& surfaced_by(final(self).second_spec(), state_error)
                    &&& final(self).transition_spec().apply_spec(
                        final(self).first_spec().output_spec().unwrap(),
                        final(self).second_spec().context_spec(),
                    ) == Ok::<<S2 as State>::InputData, error::Transition>(
                        final(self).second_spec().input_spec(),
                    )
                })
            },
    {
        if !self.check_pending() {
            return Err(ErrorKind::StateMachine(error::StateMachine::InvalidConfiguration));
        }
        self.phase = MachinePhase::Running;
        match self.first.try_compute_output_data() {
            Ok(()) => {}
            Err(state_error) => {
                self.phase = MachinePhase::Failed;
                return Err(ErrorKind::StateMachine(error::StateMachine::State(state_error)));
            }
        }
        let prior_output = self.first.get_output_data().unwrap();
        let next_input = match self.transition.apply(
            prior_output,
            self.second.get_context_data(),
        ) {
            Ok(input) => input,
            Err(transition_error) => {
                self.phase = MachinePhase::Failed;
                return Err(
                    ErrorKind::StateMachine(error::StateMachine::Transition(transition_error)),
                );
            }
        };
        self.second.reset_with_input_data(next_input);
        let ghost second_before = self.second;
        match self.second.try_compute_output_data() {
            Ok(()) => {
                self.phase = MachinePhase::Completed;
                Ok(())
            }
            Err(state_error) => {
                self.phase = MachinePhase::Failed;
                proof {
                    assert(second_before.compute_spec(
                        self.second,
                        Err::<(), error::State>(state_error),
                    ));
                }
                Err(ErrorKind::StateMachine(error::StateMachine::State(state_error)))
            }
        }
    }
}

/// A three-stage pipeline: three units connected by two transitions.
pub struct Pipeline3<S1, T1, S2, T2, S3> where
    S1: State,
    S2: State,
    S3: State,
    T1: Transition<
        PriorOutput = <S1 as State>::OutputData,
        NextInput = <S2 as State>::InputData,
        NextContext = <S2 as State>::Context,
    >,
    T2: Transition<
        PriorOutput = <S2 as State>::OutputData,
        NextInput = <S3 as State>::InputData,
        NextContext = <S3 as State>::Context,
    >,
{
    first: S1,
    first_transition: T1,
    second: S2,
    second_transition: T2,
    third: S3,
    phase: MachinePhase,
}

impl<S1, T1, S2, T2, S3> Pipeline3<S1, T1, S2, T2, S3> where
    S1: State,
    S2: State,
    S3: State,
    T1: Transition<
        PriorOutput = <S1 as State>::OutputData,
        NextInput = <S2 as State>::InputData,
        NextContext = <S2 as State>::Context,
    >,
    T2: Transition<
        PriorOutput = <S2 as State>::OutputData,
        NextInput = <S3 as State>::InputData,
        NextContext = <S3 as State>::Context,
    >,
 {
    /// The initial unit.
    pub closed spec fn first_spec(&self) -> S1 {
        self.first
    }

    /// The transition from the first to the second unit.
    pub closed spec fn first_transition_spec(&self) -> T1 {
        self.first_transition
    }

    /// The middle unit.
    pub closed spec fn second_spec(&self) -> S2 {
        self.second
    }

    /// The transition from the second to the third unit.
    pub closed spec fn second_transition_spec(&self) -> T2 {
        self.second_transition
    }

    /// The terminal unit.
    pub closed spec fn third_spec(&self) -> S3 {
        self.third
    }

    /// The phase of the run.
    pub closed spec fn phase_spec(&self) -> MachinePhase {
        self.phase
    }

    /// Ready to run: not yet started, with all three units pending.
    pub open spec fn is_pending(&self) -> bool {
        &&& self.phase_spec() == MachinePhase::NotStarted
        &&& self.first_spec().output_spec() is None
        &&& self.second_spec().output_spec() is None
        &&& self.third_spec().output_spec() is None
    }

    /// Assembles a three-stage pipeline from its units and transitions.
    pub fn new(
        first: S1,
        first_transition: T1,
        second: S2,
        second_transition: T2,
        third: S3,
    ) -> (pipeline: Self)
        ensures
            pipeline.first_spec() == first,
            pipeline.first_transition_spec() == first_transition,
            pipeline.second_spec() == second,
            pipeline.second_transition_spec() == second_transition,
            pipeline.third_spec() == third,
            pipeline.phase_spec() == MachinePhase::NotStarted,
    {
        Pipeline3 {
            first,
            first_transition,
            second,
            second_transition,
            third,
            phase: MachinePhase::NotStarted,
        }
    }

    /// Read access to the initial unit.
    pub fn first(&self) -> (unit: &S1)
        ensures
            *unit == self.first_spec(),
    {
        &self.first
    }

    /// Read access to the middle unit.
    pub fn second(&self) -> (unit: &S2)
        ensures
            *unit == self.second_spec(),
    {
        &self.second
    }

    /// Read access to the terminal unit.
    pub fn third(&self) -> (unit: &S3)
        ensures
            *unit == self.third_spec(),
    {
        &self.third
    }

    /// The phase of the run.
    pub fn get_phase(&self) -> (phase: MachinePhase)
        ensures
            phase == self.phase_spec(),
    {
        self.phase
    }

    /// Whether the pipeline is ready to run.
    pub fn check_pending(&self) -> (pending: bool)
        ensures
            pending == self.is_pending(),
    {
        match self.phase {
            MachinePhase::NotStarted => !self.first.has_output_data_been_computed()
                && !self.second.has_output_data_been_computed()
                && !self.third.has_output_data_been_computed(),
            _ => false,
        }
    }

    /// Runs the three stages strictly in sequence, to completion or first
    /// failure.
    ///
    /// The ordering guarantee of the engine, stated over the final values: a
    /// unit's output exists only if its predecessor's output exists, and if a
    /// unit never produced an output, every later unit is exactly as it was
    /// before the run — its compute was never invoked. A pipeline that is not
    /// pending is refused as an invalid configuration and left unchanged.
    pub fn run(&mut self) -> (outcome: Result<(), ErrorKind>)
        ensures
            final(self).first_transition_spec() == old(self).first_transition_spec(),
            final(self).second_transition_spec() == old(self).second_transition_spec(),
            final(self).first_spec().input_spec() == old(self).first_spec().input_spec(),
            final(self).first_spec().context_spec() == old(self).first_spec().context_spec(),
            final(self).first_spec().name_spec() == old(self).first_spec().name_spec(),
            final(self).second_spec().context_spec() == old(self).second_spec().context_spec(),
            final(self).second_spec().name_spec() == old(self).second_spec().name_spec(),
            final(self).third_spec().context_spec() == old(self).third_spec().context_spec(),
            final(self).third_spec().name_spec() == old(self).third_spec().name_spec(),
            !old(self).is_pending() ==> {
                &&& outcome == Err::<(), ErrorKind>(
                    ErrorKind::StateMachine(error::StateMachine::InvalidConfiguration),
                )
                &&& *final(self) == *old(self)
            },
            old(self).is_pending() ==> {
                &&& (outcome is Ok <==> final(self).phase_spec() == MachinePhase::Completed)
                &&& (outcome is Err <==> final(self).phase_spec() == MachinePhase::Failed)
                &&& (outcome is Ok ==> {
                    &&& final(self).first_spec().output_spec() is Some
                    &&& final(self).second_spec().output_spec() is Some
                    &&& final(self).third_spec().output_spec() is Some
                    &&& final(self).first_transition_spec().apply_spec(
                        final(self).first_spec().output_spec().unwrap(),
                        final(self).second_spec().context_spec(),
                    ) == Ok::<<S2 as State>::InputData, error::Transition>(
                        final(self).second_spec().input_spec(),
                    )
                    &&& final(self).second_transition_spec().apply_spec(
                        final(self).second_spec().output_spec().unwrap(),
                        final(self).third_spec().context_spec(),
                    ) == Ok::<<S3 as State>::InputData, error::Transition>(
                        final(self).third_spec().input_spec(),
                    )
                })
                &&& (final(self).second_spec().output_spec() is Some
                    ==> final(self).first_spec().output_spec() is Some)
                &&& (final(self).third_spec().output_spec() is Some
                    ==> final(self).second_spec().output_spec() is Some)
                &&& (final(self).first_spec().output_spec() is None ==> {
                    &&& final(self).second_spec() == old(self).second_spec()
                    &&& final(self).third_spec() == old(self).third_spec()
                })
                &&& (final(self).second_spec().output_spec() is None ==> final(self).third_spec()
                    == old(self).third_spec())
                &&& (outcome matches Err(kind) ==> kind matches ErrorKind::StateMachine(_))
                &&& (outcome is Err && final(self).first_spec().output_spec() is None ==> outcome
                    matches Err(ErrorKind::StateMachine(error::StateMachine::State(_))))
                &&& (outcome matches Err(
                    ErrorKind::StateMachine(error::StateMachine::Transition(transition_error)),
                ) ==> if final(self).second_spec().output_spec() is None {
                    &&& final(self).second_spec() == old(self).second_spec()
                    &&& final(self).first_spec().output_spec() is Some
                    &&& final(self).first_transition_spec().apply_spec(
                        final(self).first_spec().output_spec().unwrap(),
                        final(self).second_spec().context_spec(),
                    ) == Err::<<S2 as State>::InputData, error::Transition>(transition_error)
                } else {
                    &&& final(self).third_spec() == old(self).third_spec()
                    &&& final(self).second_transition_spec().apply_spec(
                        final(self).second_spec().output_spec().unwrap(),
                        final(self).third_spec().context_spec(),
                    ) == Err::<<S3 as State>::InputData, error::Transition>(transition_error)
                })
                &&& (outcome matches Err(
                    ErrorKind::StateMachine(error::StateMachine::State(state_error)),
                ) ==> if final(self).first_spec().output_spec() is None {
                    old(self).first_spec().compute_spec(final(self).first_spec(), Err(state_error))
                } else if final(self).second_spec().output_spec() is None {
                    &&& surfaced_by(final(self).second_spec(), state_error)
                    &&& final(self).first_transition_spec().apply_spec(
                        final(self).first_spec().output_spec().unwrap(),
                        final(self).second_spec().context_spec(),
                    ) == Ok::<<S2 as State>::InputData, error::Transition>(
                        final(self).second_spec().input_spec(),
                    )
                } else {
                    &&& surfaced_by(final(self).third_spec(), state_error)
                    &&& final(self).second_transition_spec().apply_spec(
                        final(self).second_spec().output_spec().unwrap(),
                        final(self).third_spec().context_spec(),
                    ) == Ok::<<S3 as State>::InputData, error::Transition>(
                        final(self).third_spec().input_spec(),
                    )
                })
            },
    {
        if !self.check_pending() {
            return Err(ErrorKind::StateMachine(error::StateMachine::InvalidConfiguration));
        }
        self.phase = MachinePhase::Running;
        match self.first.try_compute_output_data() {
            Ok(()) => {}
            Err(state_error) => {
                self.phase = MachinePhase::Failed;
                return Err(ErrorKind::StateMachine(error::StateMachine::State(state_error)));
            }
        }
        let first_output = self.first.get_output_data().unwrap();
        let second_input = match self.first_transition.apply(
            first_output,
            self.second.get_context_data(),
        ) {
            Ok(input) => input,
            Err(transition_error) => {
                self.phase = MachinePhase::Failed;
                return Err(
                    ErrorKind::StateMachine(error::StateMachine::Transition(transition_error)),
                );
            }
        };
        self.second.reset_with_input_data(second_input);
        let ghost second_before = self.second;
        match self.second.try_compute_output_data() {
            Ok(()) => {}
            Err(state_error) => {
                self.phase = MachinePhase::Failed;
                proof {
                    assert(second_before.compute_spec(
                        self.second,
                        Err::<(), error::State>(state_error),
                    ));
                }
                return Err(ErrorKind::StateMachine(error::StateMachine::State(state_error)));
            }
        }
        let second_output = self.second.get_output_data().unwrap();
        let third_input = match self.second_transition.apply(
            second_output,
            self.third.get_context_data(),
        ) {
            Ok(input) => input,
            Err(transition_error) => {
                self.phase = MachinePhase::Failed;
                return Err(
                    ErrorKind::StateMachine(error::StateMachine::Transition(transition_error)),
                );
            }
        };
        self.third.reset_with_input_data(third_input);
        let ghost third_before = self.third;
        match self.third.try_compute_output_data() {
            Ok(()) => {
                self.phase = MachinePhase::Completed;
                Ok(())
            }
            Err(state_error) => {
                self.phase = MachinePhase::Failed;
                proof {
                    assert(third_before.compute_spec(
                        self.third,
                        Err::<(), error::State>(state_error),
                    ));
                }
                Err(ErrorKind::StateMachine(error::StateMachine::State(state_error)))
            }
        }
    }
}

} // verus!
