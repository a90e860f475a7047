//! The typed error hierarchy of the pipeline engine.
//!
//! A top-level [`ErrorKind`] wraps exactly one scoped error — a
//! [`StateMachine`] error, which in turn wraps a [`State`] (unit) error, a
//! [`Transition`] error, or a configuration failure — plus the sentinel
//! [`ErrorKind::DowncastNotPossible`], returned when a top-level error is
//! narrowed into a scope that does not match its actual variant.

use vstd::prelude::*;

use crate::cik::CikError;

verus! {

/// A unit-scoped ("state") error: a failure attributable to one named
/// processing unit.
#[derive(Debug, PartialEq, Eq, PartialOrd, Ord, Hash)]
pub enum State {
    /// The unit's input was rejected before any domain validation applied.
    InvalidInputData,
    /// A raw CIK string failed format validation in the named unit.
    InvalidCikFormat { state_name: String, cause: CikError },
    /// The internal pipeline of the named composite unit failed; `source`
    /// preserves the inner error so that nested attribution chains survive
    /// arbitrary nesting depth.
    InnerMachineFailed { state_name: String, source: Box<ErrorKind> },
}

/// A transition-scoped error: the adapter between two units could not convert
/// the prior unit's output into the next unit's input.
#[derive(Debug, Clone, Copy, PartialEq, Eq, PartialOrd, Ord, Hash)]
pub enum Transition {
    /// The prior output held no value that the next input could be built from.
    FailedOutputConversion,
}

/// A state-machine-scoped error: everything that can go wrong during a
/// pipeline run.
#[derive(Debug, PartialEq, Eq, PartialOrd, Ord, Hash)]
pub enum StateMachine {
    /// A unit failed; carries the unit-scoped error.
    State(State),
    /// A transition failed; carries the transition-scoped error.
    Transition(Transition),
    /// The pipeline itself was unusable (for example, run on a machine that
    /// was not pending); fatal and not attributable to any single unit.
    InvalidConfiguration,
}

/// The top-level error enum for all pipeline errors.
///
/// This enum encapsulates errors from state machines, states, and
/// transitions, and provides conversions and downcasting for granular error
/// handling.
#[derive(Debug, PartialEq, Eq, PartialOrd, Ord, Hash)]
pub enum ErrorKind {
    /// State machine related error.
    StateMachine(StateMachine),
    /// Casting from [`ErrorKind`] to a more specific error type was not
    /// possible.
    DowncastNotPossible,
}

impl State {
    /// What [`State::message`] renders.
    pub open spec fn message_spec(&self) -> Seq<char>
        decreases self,
    {
        match self {
            State::InvalidInputData => "Invalid input data."@,
            State::InvalidCikFormat { state_name, cause } => "Invalid CIK format in state `"@
                + state_name@ + "`: "@ + cause.message_spec(),
            State::InnerMachineFailed { state_name, source } => "Inner state machine of `"@
                + state_name@ + "` failed: "@ + source.message_spec(),
        }
    }

    /// A human-readable description of the unit error, with the full chain of
    /// nested unit names.
    pub fn message(&self) -> (text: String)
        ensures
            text@ == self.message_spec(),
        decreases *self,
    {
        match self {
            State::InvalidInputData => String::from_str("Invalid input data."),
            State::InvalidCikFormat { state_name, cause } => {
                let mut text = String::from_str("Invalid CIK format in state `");
                text.append(state_name.as_str());
                text.append("`: ");
                let cause_text = cause.message();
                text.append(cause_text.as_str());
                text
            }
            State::InnerMachineFailed { state_name, source } => {
                let mut text = String::from_str("Inner state machine of `");
                text.append(state_name.as_str());
                text.append("` failed: ");
                let source_text = source.message();
                text.append(source_text.as_str());
                text
            }
        }
    }
}

impl Transition {
    /// What [`Transition::message`] renders.
    pub open spec fn message_spec(&self) -> Seq<char> {
        match self {
            Transition::FailedOutputConversion => (
            "Failed to convert the prior output into the next input."@),
        }
    }

    /// A human-readable description of the transition error.
    pub fn message(&self) -> (text: String)
        ensures
            text@ == self.message_spec(),
    {
        match self {
            Transition::FailedOutputConversion => String::from_str(
                "Failed to convert the prior output into the next input.",
            ),
        }
    }
}

impl StateMachine {
    /// What [`StateMachine::message`] renders.
    pub open spec fn message_spec(&self) -> Seq<char>
        decreases self,
    {
        match self {
            StateMachine::State(state) => "State error: '"@ + state.message_spec() + "'"@,
            StateMachine::Transition(transition) => "Transition error: '"@
                + transition.message_spec() + "'"@,
            StateMachine::InvalidConfiguration => "Invalid state machine configuration."@,
        }
    }

    /// A human-readable description of the state-machine error.
    pub fn message(&self) -> (text: String)
        ensures
            text@ == self.message_spec(),
        decreases *self,
    {
        match self {
            StateMachine::State(state) => {
                let mut text = String::from_str("State error: '");
                let state_text = state.message();
                text.append(state_text.as_str());
                text.append("'");
                text
            }
            StateMachine::Transition(transition) => {
                let mut text = String::from_str("Transition error: '");
                let transition_text = transition.message();
                text.append(transition_text.as_str());
                text.append("'");
                text
            }
            StateMachine::InvalidConfiguration => String::from_str(
                "Invalid state machine configuration.",
            ),
        }
    }
}

impl ErrorKind {
    /// What [`ErrorKind::message`] renders.
    pub open spec fn message_spec(&self) -> Seq<char>
        decreases self,
    {
        match self {
            ErrorKind::StateMachine(state_machine) => (
            "Problem occured during state machine execution: '"@ + state_machine.message_spec()
                + "'"@),
            ErrorKind::DowncastNotPossible => (
            "Failed to downcast error of type `ErrorKind` into more specific error."@),
        }
    }

    /// A human-readable description of the error.
    pub fn message(&self) -> (text: String)
        ensures
            text@ == self.message_spec(),
        decreases *self,
    {
        match self {
            ErrorKind::StateMachine(state_machine) => {
                let mut text = String::from_str(
                    "Problem occured during state machine execution: '",
                );
                let state_machine_text = state_machine.message();
                text.append(state_machine_text.as_str());
                text.append("'");
                text
            }
            ErrorKind::DowncastNotPossible => String::from_str(
                "Failed to downcast error of type `ErrorKind` into more specific error.",
            ),
        }
    }
}

impl Clone for State {
    /// Cloning preserves the value exactly.
    fn clone(&self) -> (other: Self)
        ensures
            other == *self,
        decreases *self,
    {
        match self {
            State::InvalidInputData => State::InvalidInputData,
            State::InvalidCikFormat { state_name, cause } => State::InvalidCikFormat {
                state_name: state_name.clone(),
                cause: *cause,
            },
            State::InnerMachineFailed { state_name, source } => State::InnerMachineFailed {
                state_name: state_name.clone(),
                source: Box::new((**source).clone()),
            },
        }
    }
}

impl Clone for StateMachine {
    /// Cloning preserves the value exactly.
    fn clone(&self) -> (other: Self)
        ensures
            other == *self,
        decreases *self,
    {
        match self {
            StateMachine::State(state) => StateMachine::State(state.clone()),
            StateMachine::Transition(transition) => StateMachine::Transition(*transition),
            StateMachine::InvalidConfiguration => StateMachine::InvalidConfiguration,
        }
    }
}

impl Clone for ErrorKind {
    /// Cloning preserves the value exactly.
    fn clone(&self) -> (other: Self)
        ensures
            other == *self,
        decreases *self,
    {
        match self {
            ErrorKind::StateMachine(state_machine) => ErrorKind::StateMachine(
                state_machine.clone(),
            ),
            ErrorKind::DowncastNotPossible => ErrorKind::DowncastNotPossible,
        }
    }
}

impl From<StateMachine> for ErrorKind {
    /// Converts a [`StateMachine`] error into an [`ErrorKind`].
    fn from(error: StateMachine) -> (kind: Self) {
        Self::StateMachine(error)
    }
}

impl vstd::std_specs::convert::FromSpecImpl<StateMachine> for ErrorKind {
    open spec fn obeys_from_spec() -> bool {
        true
    }

    open spec fn from_spec(error: StateMachine) -> Self {
        ErrorKind::StateMachine(error)
    }
}

impl TryFrom<ErrorKind> for StateMachine {
    type Error = ErrorKind;

    /// Attempts to narrow an [`ErrorKind`] into a [`StateMachine`] error.
    ///
    /// Returns `Ok` if the variant matches, or
    /// `Err(ErrorKind::DowncastNotPossible)` otherwise.
    fn try_from(value: ErrorKind) -> (result: Result<Self, Self::Error>) {
        match value {
            ErrorKind::StateMachine(state_machine) => Ok(state_machine),
            _ => Err(ErrorKind::DowncastNotPossible),
        }
    }
}

impl vstd::std_specs::convert::TryFromSpecImpl<ErrorKind> for StateMachine {
    open spec fn obeys_try_from_spec() -> bool {
        true
    }

    open spec fn try_from_spec(value: ErrorKind) -> Result<Self, Self::Error> {
        match value {
            ErrorKind::StateMachine(state_machine) => Ok(state_machine),
            _ => Err(ErrorKind::DowncastNotPossible),
        }
    }
}

impl TryFrom<ErrorKind> for State {
    type Error = ErrorKind;

    /// Attempts to narrow an [`ErrorKind`] into a [`State`] error.
    ///
    /// Returns `Ok` if the variant matches, or
    /// `Err(ErrorKind::DowncastNotPossible)` otherwise.
    fn try_from(value: ErrorKind) -> (result: Result<Self, Self::Error>) {
        match value {
            ErrorKind::StateMachine(StateMachine::State(state)) => Ok(state),
            _ => Err(ErrorKind::DowncastNotPossible),
        }
    }
}

impl vstd::std_specs::convert::TryFromSpecImpl<ErrorKind> for State {
    open spec fn obeys_try_from_spec() -> bool {
        true
    }

    open spec fn try_from_spec(value: ErrorKind) -> Result<Self, Self::Error> {
        match value {
            ErrorKind::StateMachine(StateMachine::State(state)) => Ok(state),
            _ => Err(ErrorKind::DowncastNotPossible),
        }
    }
}

impl TryFrom<ErrorKind> for Transition {
    type Error = ErrorKind;

    /// Attempts to narrow an [`ErrorKind`] into a [`Transition`] error.
    ///
    /// Returns `Ok` if the variant matches, or
    /// `Err(ErrorKind::DowncastNotPossible)` otherwise.
    fn try_from(value: ErrorKind) -> (result: Result<Self, Self::Error>) {
        match value {
            ErrorKind::StateMachine(StateMachine::Transition(transition)) => Ok(transition),
            _ => Err(ErrorKind::DowncastNotPossible),
        }
    }
}

impl vstd::std_specs::convert::TryFromSpecImpl<ErrorKind> for Transition {
    open spec fn obeys_try_from_spec() -> bool {
        true
    }

    open spec fn try_from_spec(value: ErrorKind) -> Result<Self, Self::Error> {
        match value {
            ErrorKind::StateMachine(StateMachine::Transition(transition)) => Ok(transition),
            _ => Err(ErrorKind::DowncastNotPossible),
        }
    }
}

/// Law: wrapping a state-machine-scoped error into the top-level error and
/// downcasting back to that scope always yields the original value.
pub proof fn lemma_state_machine_downcast_round_trip(error: StateMachine)
    ensures
        <StateMachine as vstd::std_specs::convert::TryFromSpec<ErrorKind>>::try_from_spec(
            <ErrorKind as vstd::std_specs::convert::FromSpec<StateMachine>>::from_spec(error),
        ) == Ok::<StateMachine, ErrorKind>(error),
{
}

/// Law: wrapping a unit-scoped error into the top-level error and downcasting
/// back to the unit scope always yields the original value.
pub proof fn lemma_state_downcast_round_trip(error: State)
    ensures
        <State as vstd::std_specs::convert::TryFromSpec<ErrorKind>>::try_from_spec(
            ErrorKind::StateMachine(StateMachine::State(error)),
        ) == Ok::<State, ErrorKind>(error),
{
}

/// Law: wrapping a transition-scoped error into the top-level error and
/// downcasting back to the transition scope always yields the original value.
pub proof fn lemma_transition_downcast_round_trip(error: Transition)
    ensures
        <Transition as vstd::std_specs::convert::TryFromSpec<ErrorKind>>::try_from_spec(
            ErrorKind::StateMachine(StateMachine::Transition(error)),
        ) == Ok::<Transition, ErrorKind>(error),
{
}

/// Law: downcasting is total and exhaustive — every top-level error either
/// narrows successfully into each scope or yields the sentinel
/// `DowncastNotPossible`, never a third outcome; and a mismatched scope always
/// yields the sentinel.
pub proof fn lemma_downcast_total(kind: ErrorKind)
    ensures
        <StateMachine as vstd::std_specs::convert::TryFromSpec<ErrorKind>>::try_from_spec(kind)
            matches Err(e) ==> e == ErrorKind::DowncastNotPossible,
        <State as vstd::std_specs::convert::TryFromSpec<ErrorKind>>::try_from_spec(kind)
            matches Err(e) ==> e == ErrorKind::DowncastNotPossible,
        <Transition as vstd::std_specs::convert::TryFromSpec<ErrorKind>>::try_from_spec(kind)
            matches Err(e) ==> e == ErrorKind::DowncastNotPossible,
        !(kind matches ErrorKind::StateMachine(StateMachine::State(_)))
            ==> <State as vstd::std_specs::convert::TryFromSpec<ErrorKind>>::try_from_spec(kind)
                == Err::<State, ErrorKind>(ErrorKind::DowncastNotPossible),
        !(kind matches ErrorKind::StateMachine(StateMachine::Transition(_)))
            ==> <Transition as vstd::std_specs::convert::TryFromSpec<ErrorKind>>::try_from_spec(
                kind,
            ) == Err::<Transition, ErrorKind>(ErrorKind::DowncastNotPossible),
{
}

} // verus!
