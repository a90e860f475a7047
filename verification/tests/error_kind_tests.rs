use sec::error::ErrorKind;
use sec::error::State;
use sec::error::StateMachine;
use sec::error::Transition;
use std::fmt::Debug;
use std::hash::Hash;

fn implements_auto_traits<T: Sized + Send + Sync + Unpin>() {}
#[test]
fn should_be_able_to_rely_auto_trait_implementation_when_using_errorkind() {
    implements_auto_traits::<ErrorKind>();
}

fn implements_send<T: Send>() {}
fn implements_sync<T: Sync>() {}

#[test]
fn should_have_implementend_send_when_using_errorkind() {
    implements_send::<ErrorKind>();
}

#[test]
fn should_implement_sync_when_using_errorkind() {
    implements_sync::<ErrorKind>();
}

#[test]
fn should_be_thread_safe_when_using_errorkind() {
    implements_send::<ErrorKind>();
    implements_sync::<ErrorKind>();
}

fn implements_sized<T: Sized>() {}
#[test]
fn should_be_able_to_rely_on_error_being_sized_when_using_errorkind() {
    implements_sized::<ErrorKind>();
}

fn implements_hash<T: Hash>() {}
#[test]
fn should_be_able_to_rely_on_hash_implementation_when_using_errorkind() {
    implements_hash::<ErrorKind>();
}

fn implements_partial_eq<T: PartialEq>() {}
#[test]
fn should_be_able_to_rely_on_partial_eq_implementation_when_using_errorkind() {
    implements_partial_eq::<ErrorKind>();
}

fn implements_eq<T: Eq>() {}
#[test]
fn should_be_able_to_rely_on_eq_implementation_when_using_errorkind() {
    implements_eq::<ErrorKind>();
}

fn implements_partial_ord<T: PartialOrd>() {}
#[test]
fn should_be_able_to_rely_on_partial_ord_implementation_when_using_errorkind() {
    implements_partial_ord::<ErrorKind>();
}

fn implements_ord<T: Ord>() {}
#[test]
fn should_be_able_to_rely_on_ord_implementation_when_using_errorkind() {
    implements_ord::<ErrorKind>();
}

fn implements_debug<T: Debug>() {}
#[test]
fn should_be_able_to_rely_on_debug_implementation_when_using_errorkind() {
    implements_debug::<ErrorKind>();
}

fn implements_clone<T: Clone>() {}
#[test]
fn should_be_able_to_rely_on_clone_implementation_when_using_errorkind() {
    implements_clone::<ErrorKind>();
}

fn implements_unpin<T: Unpin>() {}
#[test]
fn should_be_able_to_rely_on_unpin_implementation_when_using_errorkind() {
    implements_unpin::<ErrorKind>();
}

#[test]
fn should_be_able_to_create_state_machine_error_when_casting_from_specific_error_kind() {
    let _result: StateMachine = ErrorKind::StateMachine(StateMachine::InvalidConfiguration)
        .try_into()
        .expect("Should always be able to cast harcdcoded `ErrorKind` into `StateMachine` error.");
}

#[test]
fn should_be_able_to_create_state_error_when_casting_from_specific_error_kind_that_is_a_state() {
    let _result: State = ErrorKind::StateMachine(StateMachine::State(State::InvalidInputData))
        .try_into()
        .expect("Should always be able to cast provided harcdcoded `ErrorKind` into `State` error.");
}

#[test]
fn should_be_able_to_create_transition_error_when_casting_from_specific_error_kind_that_is_a_transition()
 {
    let _result: Transition =
        ErrorKind::StateMachine(StateMachine::Transition(Transition::FailedOutputConversion))
            .try_into()
            .expect(
                "Should always be able to cast provided harcdcoded `ErrorKind` into `Transition` error.",
            );
}

#[test]
fn should_be_able_to_create_state_machine_error_when_using_enum_directly() {
    let _result = StateMachine::InvalidConfiguration;
}

#[test]
fn should_be_able_to_cast_into_equivalent_errorkind_error_when_having_a_statemachine_error() {
    let expected_result = ErrorKind::StateMachine(StateMachine::InvalidConfiguration);

    let result: ErrorKind = StateMachine::InvalidConfiguration.into();

    assert_eq!(result, expected_result);
}

#[test]
fn should_yield_the_sentinel_when_downcasting_into_a_mismatched_scope() {
    let kind = ErrorKind::StateMachine(StateMachine::InvalidConfiguration);
    let as_state: Result<State, ErrorKind> = kind.try_into();
    assert_eq!(as_state, Err(ErrorKind::DowncastNotPossible));

    let kind = ErrorKind::StateMachine(StateMachine::State(State::InvalidInputData));
    let as_transition: Result<Transition, ErrorKind> = kind.try_into();
    assert_eq!(as_transition, Err(ErrorKind::DowncastNotPossible));

    let as_state_machine: Result<StateMachine, ErrorKind> =
        ErrorKind::DowncastNotPossible.try_into();
    assert_eq!(as_state_machine, Err(ErrorKind::DowncastNotPossible));
}

#[test]
fn should_round_trip_every_scope_through_the_top_level_error() {
    let state_machine = StateMachine::InvalidConfiguration;
    let kind: ErrorKind = state_machine.clone().into();
    let back: StateMachine = kind.try_into().unwrap();
    assert_eq!(back, state_machine);

    let state = State::InvalidInputData;
    let kind = ErrorKind::StateMachine(StateMachine::State(state.clone()));
    let back: State = kind.try_into().unwrap();
    assert_eq!(back, state);

    let transition = Transition::FailedOutputConversion;
    let kind = ErrorKind::StateMachine(StateMachine::Transition(transition));
    let back: Transition = kind.try_into().unwrap();
    assert_eq!(back, transition);
}

#[test]
fn should_render_the_documented_messages() {
    assert_eq!(
        ErrorKind::DowncastNotPossible.message(),
        "Failed to downcast error of type `ErrorKind` into more specific error."
    );
    assert_eq!(
        ErrorKind::StateMachine(StateMachine::InvalidConfiguration).message(),
        "Problem occured during state machine execution: 'Invalid state machine configuration.'"
    );
    assert_eq!(
        ErrorKind::StateMachine(StateMachine::State(State::InvalidInputData)).message(),
        "Problem occured during state machine execution: 'State error: 'Invalid input data.''"
    );
    assert_eq!(
        ErrorKind::StateMachine(StateMachine::Transition(Transition::FailedOutputConversion))
            .message(),
        "Problem occured during state machine execution: 'Transition error: 'Failed to convert the prior output into the next input.''"
    );
}

#[test]
fn should_preserve_the_nested_name_chain_in_messages() {
    let inner = ErrorKind::StateMachine(StateMachine::State(State::InvalidInputData));
    let composite_error = State::InnerMachineFailed {
        state_name: String::from("Outer Composite"),
        source: Box::new(inner),
    };
    assert_eq!(
        composite_error.message(),
        "Inner state machine of `Outer Composite` failed: Problem occured during state machine execution: 'State error: 'Invalid input data.''"
    );
}
