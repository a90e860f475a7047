use sec::error::State as StateError;
use sec::state::State;
use sec::state_data::StateData;
use sec::validate_cik_format::ValidateCikFormat;
use sec::validate_cik_format::ValidateCikFormatContext;
use sec::validate_cik_format::ValidateCikFormatInputData;
use sec::validate_cik_format::ValidateCikFormatInputDataUpdater;
use sec::validate_cik_format::ValidateCikFormatOutputData;
use std::fmt::Debug;
use std::hash::Hash;

#[test]
fn should_return_name_of_validation_state_when_in_validation_state() {
    let validation_state = ValidateCikFormat::default();

    let expected_result = String::from("CIK Format Validation");

    let result = validation_state.get_state_name().to_string();

    assert_eq!(result, expected_result);
}

#[test]
fn should_return_default_validation_data_struct_as_input_data_when_in_initial_validation_state() {
    let validation_state = ValidateCikFormat::default();

    let expected_result = &ValidateCikFormatInputData::default();

    let result = validation_state.get_input_data();

    assert_eq!(result, expected_result);
}

#[test]
#[should_panic(expected = "output should not be empty")]
fn should_panic_when_trying_to_access_output_data_before_it_has_been_computed_in_state() {
    let validation_state = ValidateCikFormat::default();

    let _result = validation_state
        .get_output_data()
        .expect("The output should not be empty.");
}

#[test]
fn should_return_false_when_state_has_not_computed_the_output() {
    let validation_state = ValidateCikFormat::default();

    let expected_result = false;

    let result = validation_state.has_output_data_been_computed();

    assert_eq!(result, expected_result);
}

#[test]
fn should_return_default_context_data_when_in_initial_state() {
    let validation_state = ValidateCikFormat::default();

    let expected_result = &ValidateCikFormatContext::default();

    let result = validation_state.get_context_data();

    assert_eq!(result, expected_result);
}

fn implements_auto_traits<T: Sized + Send + Sync + Unpin>() {}
#[test]
fn should_still_implement_auto_traits_when_implementing_state_trait() {
    implements_auto_traits::<ValidateCikFormat>();
}

fn implements_send<T: Send>() {}
fn implements_sync<T: Sync>() {}

#[test]
fn should_implement_send_when_implementing_state_trait() {
    implements_send::<ValidateCikFormat>();
}

#[test]
fn should_implement_sync_when_implementing_state_trait() {
    implements_sync::<ValidateCikFormat>();
}

#[test]
fn should_be_thread_safe_when_implementing_state_trait() {
    implements_send::<ValidateCikFormat>();
    implements_sync::<ValidateCikFormat>();
}

fn implements_sized<T: Sized>() {}
#[test]
fn should_be_sized_when_implementing_state_trait() {
    implements_sized::<ValidateCikFormat>();
}

fn implements_hash<T: Hash>() {}
#[test]
fn should_implement_hash_when_implementing_state_trait() {
    implements_hash::<ValidateCikFormat>();
}

fn implements_partial_eq<T: PartialEq>() {}
#[test]
fn should_implement_partial_eq_when_implementing_state_trait() {
    implements_partial_eq::<ValidateCikFormat>();
}

fn implements_eq<T: Eq>() {}
#[test]
fn should_implement_eq_when_implementing_state_trait() {
    implements_eq::<ValidateCikFormat>();
}

fn implements_partial_ord<T: PartialOrd>() {}
#[test]
fn should_implement_partial_ord_when_implementing_state_trait() {
    implements_partial_ord::<ValidateCikFormat>();
}

fn implements_ord<T: Ord>() {}
#[test]
fn should_implement_ord_when_implementing_state_trait() {
    implements_ord::<ValidateCikFormat>();
}

fn implements_default<T: Default>() {}
#[test]
fn should_implement_default_when_implementing_state_trait() {
    implements_default::<ValidateCikFormat>();
}

fn implements_debug<T: Debug>() {}
#[test]
fn should_implement_debug_when_implementing_state_trait() {
    implements_debug::<ValidateCikFormat>();
}

fn implements_clone<T: Clone>() {}
#[test]
fn should_implement_clone_when_implementing_state_trait() {
    implements_clone::<ValidateCikFormat>();
}

fn implements_unpin<T: Unpin>() {}
#[test]
fn should_implement_unpin_when_implementing_state_trait() {
    implements_unpin::<ValidateCikFormat>();
}

#[test]
fn should_return_default_context_data_when_called_with_state_reference() {
    let validation_state = &ValidateCikFormat::default();
    let ref_to_validation_state = &ValidateCikFormat::default();

    let expected_result = validation_state.get_context_data();

    let result = ref_to_validation_state.get_context_data();

    assert_eq!(result, expected_result);
}

#[test]
fn should_return_false_when_reference_state_has_not_computed_the_output() {
    let ref_to_validation_state = &mut ValidateCikFormat::default();

    let expected_result = false;

    let result = ref_to_validation_state.has_output_data_been_computed();

    assert_eq!(result, expected_result);
}

#[test]
#[should_panic(expected = "output should not be empty")]
fn should_panic_when_trying_to_access_output_data_before_it_has_been_computed_in_reference_state() {
    let ref_to_validation_state = &ValidateCikFormat::default();

    let _result = ref_to_validation_state
        .get_output_data()
        .expect("The output should not be empty.");
}

#[test]
fn should_return_name_of_validation_state_when_calling_reference_to_validation_state() {
    let ref_to_validation_state = &ValidateCikFormat::default();

    let expected_result = String::from("CIK Format Validation");

    let result = ref_to_validation_state.get_state_name().to_string();

    assert_eq!(result, expected_result);
}

#[test]
fn should_return_default_state_data_as_input_data_when_reference_validation_state_in_initial_state()
 {
    let ref_to_validation_state = &ValidateCikFormat::default();

    let expected_result = &ValidateCikFormatInputData::default();

    let result = ref_to_validation_state.get_input_data();

    assert_eq!(result, expected_result);
}

#[test]
fn mod_should_not_change_input_data_when_computing_output_data() {
    let mut validation_state = ValidateCikFormat::default();

    let expected_result = &validation_state.get_input_data().clone();

    validation_state
        .try_compute_output_data()
        .expect("Default state should always compute output data.");
    let result = validation_state.get_input_data();

    assert_eq!(result, expected_result);
}

#[test]
fn should_return_correct_output_data_when_computing_output_data() {
    let mut validation_state = ValidateCikFormat::default();

    let expected_result = &ValidateCikFormatOutputData::default();

    validation_state
        .try_compute_output_data()
        .expect("Default state should always compute output data.");

    let result = validation_state.get_output_data().unwrap();

    assert_eq!(result, expected_result);
}

#[test]
fn should_not_change_context_data_when_computing_output_data() {
    let mut validation_state = ValidateCikFormat::default();

    let expected_result = validation_state.get_context_data().clone();

    validation_state
        .try_compute_output_data()
        .expect("Default state should always compute output data.");

    assert_eq!(validation_state.get_context_data(), &expected_result);
}

#[test]
fn should_normalize_a_short_numeric_cik_when_computing_output_data() {
    let input = ValidateCikFormatInputData {
        raw_cik: String::from("1234"),
    };
    let context = ValidateCikFormatContext::default();
    let mut validation_state = ValidateCikFormat::new(input, context);

    validation_state
        .try_compute_output_data()
        .expect("A purely numeric CIK of at most 10 digits must validate.");

    let validated_output = validation_state.get_output_data().unwrap();
    let result = validated_output.validated_cik.value();

    assert_eq!(result, "0000001234");
    assert!(validation_state.has_output_data_been_computed());
}

#[test]
fn should_fail_with_an_error_naming_this_unit_when_the_cik_is_not_numeric() {
    let input = ValidateCikFormatInputData {
        raw_cik: String::from("12a4"),
    };
    let context = ValidateCikFormatContext::default();
    let mut validation_state = ValidateCikFormat::new(input, context);

    let result = validation_state.try_compute_output_data();

    match result {
        Err(StateError::InvalidCikFormat { state_name, cause }) => {
            assert_eq!(state_name, "CIK Format Validation");
            assert_eq!(cause, sec::cik::CikError::NonNumeric);
        }
        other => panic!("expected an attributable unit error, got {other:?}"),
    }
    assert!(!validation_state.has_output_data_been_computed());
    assert_eq!(validation_state.get_input_data().raw_cik, "12a4");
}

#[test]
fn should_render_the_summary_with_a_placeholder_before_the_output_is_computed() {
    let validation_state = ValidateCikFormat::default();

    let expected_result = "`CIK Format Validation` State Summary\n\
                           ---------------------------\n\
                           Context:\n\tNone\n\
                           Input Data:\n\tRaw CIK: 0000000000\n\
                           Output Data:\n\tNone";

    assert_eq!(validation_state.summary(), expected_result);
}

#[test]
fn should_render_the_summary_with_the_validated_cik_after_computing() {
    let mut validation_state = ValidateCikFormat::default();
    validation_state
        .try_compute_output_data()
        .expect("Default state should always compute output data.");

    let expected_result = "`CIK Format Validation` State Summary\n\
                           ---------------------------\n\
                           Context:\n\tNone\n\
                           Input Data:\n\tRaw CIK: 0000000000\n\
                           Output Data:\n\tValidated CIK: 0000000000";

    assert_eq!(validation_state.summary(), expected_result);
}

#[test]
fn should_overwrite_only_the_named_fields_when_updating_input_data() {
    let mut data = ValidateCikFormatInputData {
        raw_cik: String::from("1234"),
    };

    data.update_state(ValidateCikFormatInputDataUpdater { raw_cik: None });
    assert_eq!(data.raw_cik, "1234");

    data.update_state(ValidateCikFormatInputDataUpdater {
        raw_cik: Some(String::from("99")),
    });
    assert_eq!(data.raw_cik, "99");
}
