//! The CIK format validation unit.
//!
//! [`ValidateCikFormat`] is the first stage of the extraction phase: it takes
//! an unvalidated CIK string as input, checks it for format correctness and
//! zero-pads it to 10 digits, producing a validated [`Cik`]. The validation
//! is syntactic only — it never checks whether the CIK exists in any
//! registry.

use vstd::prelude::*;
use vstd::string::StringExecFns;

use crate::cik::Cik;
use crate::cik::cik_rejection;
use crate::cik::normalized_cik;
use crate::error;
use crate::state::State;
use crate::state_data::StateData;

verus! {

/// Input of the validation unit: the raw, unvalidated CIK string.
#[derive(Debug, PartialEq, Eq, PartialOrd, Ord, Hash)]
pub struct ValidateCikFormatInputData {
    pub raw_cik: String,
}

/// Partial update for [`ValidateCikFormatInputData`].
#[derive(Debug, PartialEq, Eq, PartialOrd, Ord, Hash)]
pub struct ValidateCikFormatInputDataUpdater {
    pub raw_cik: Option<String>,
}

impl Clone for ValidateCikFormatInputData {
    /// Cloning preserves the value exactly.
    fn clone(&self) -> (other: Self)
        ensures
            other == *self,
    {
        ValidateCikFormatInputData { raw_cik: self.raw_cik.clone() }
    }
}

impl Default for ValidateCikFormatInputData {
    /// The default raw CIK is the all-zero identifier.
    fn default() -> (data: Self)
        ensures
            data.raw_cik@ == "0000000000"@,
    {
        ValidateCikFormatInputData { raw_cik: String::from_str("0000000000") }
    }
}

impl StateData for ValidateCikFormatInputData {
    type UpdateType = ValidateCikFormatInputDataUpdater;

    open spec fn merged_spec(&self, updates: ValidateCikFormatInputDataUpdater) -> Self {
        match updates.raw_cik {
            Some(raw_cik) => ValidateCikFormatInputData { raw_cik },
            None => *self,
        }
    }

    fn get_state(&self) -> (data: &Self) {
        self
    }

    fn update_state(&mut self, updates: ValidateCikFormatInputDataUpdater) {
        match updates.raw_cik {
            Some(raw_cik) => {
                self.raw_cik = raw_cik;
            }
            None => {}
        }
    }
}

/// Output of the validation unit: the validated, normalized CIK.
#[derive(Debug, PartialEq, Eq, PartialOrd, Ord, Hash)]
pub struct ValidateCikFormatOutputData {
    pub validated_cik: Cik,
}

/// Partial update for [`ValidateCikFormatOutputData`].
#[derive(Debug, PartialEq, Eq, PartialOrd, Ord, Hash)]
pub struct ValidateCikFormatOutputDataUpdater {
    pub validated_cik: Option<Cik>,
}

impl Clone for ValidateCikFormatOutputData {
    /// Cloning preserves the value exactly.
    fn clone(&self) -> (other: Self)
        ensures
            other == *self,
    {
        ValidateCikFormatOutputData { validated_cik: self.validated_cik.clone() }
    }
}

impl Default for ValidateCikFormatOutputData {
    /// The default output holds the all-zero CIK.
    fn default() -> (data: Self)
        ensures
            data.validated_cik@ == "0000000000"@,
    {
        ValidateCikFormatOutputData { validated_cik: Cik::default() }
    }
}

impl StateData for ValidateCikFormatOutputData {
    type UpdateType = ValidateCikFormatOutputDataUpdater;

    open spec fn merged_spec(&self, updates: ValidateCikFormatOutputDataUpdater) -> Self {
        match updates.validated_cik {
            Some(validated_cik) => ValidateCikFormatOutputData { validated_cik },
            None => *self,
        }
    }

    fn get_state(&self) -> (data: &Self) {
        self
    }

    fn update_state(&mut self, updates: ValidateCikFormatOutputDataUpdater) {
        match updates.validated_cik {
            Some(validated_cik) => {
                self.validated_cik = validated_cik;
            }
            None => {}
        }
    }
}

/// Context of the validation unit; format validation needs no reference data.
#[derive(Debug, Clone, Copy, Default, PartialEq, Eq, PartialOrd, Ord, Hash)]
pub struct ValidateCikFormatContext {}

/// Unit that validates and normalizes a raw CIK format.
///
/// The unit takes an unvalidated CIK string as input, checks for format
/// correctness, and zero-pads the CIK to 10 digits. Trims leading and
/// trailing whitespace, rejects anything that is not 1 to 10 ASCII digits,
/// and stores the validated [`Cik`] as output.
#[derive(Debug, PartialEq, Eq, PartialOrd, Ord, Hash)]
pub struct ValidateCikFormat {
    input: ValidateCikFormatInputData,
    context: ValidateCikFormatContext,
    output: Option<ValidateCikFormatOutputData>,
}

impl ValidateCikFormat {
    /// A fresh, pending validation unit for the given input and context.
    #[must_use]
    pub fn new(input: ValidateCikFormatInputData, context: ValidateCikFormatContext) -> (state:
        Self)
        ensures
            state.input_spec() == input,
            state.context_spec() == context,
            state.output_spec() is None,
    {
        ValidateCikFormat { input, context, output: None }
    }

    /// The human-readable summary: name, context, input, and output or an
    /// explicit "not yet computed" marker.
    pub fn summary(&self) -> (text: String)
        ensures
            text@ == self.summary_spec(),
    {
        let mut text = String::from_str("`CIK Format Validation` State Summary\n");
        text.append("---------------------------\n");
        text.append("Context:\n\tNone\n");
        text.append("Input Data:\n\tRaw CIK: ");
        text.append(self.input.raw_cik.as_str());
        text.append("\nOutput Data:\n");
        match &self.output {
            Some(output) => {
                text.append("\tValidated CIK: ");
                text.append(output.validated_cik.value());
            }
            None => {
                text.append("\tNone");
            }
        }
        proof {
            assert(text@ =~= self.summary_spec());
        }
        text
    }

    /// What [`ValidateCikFormat::summary`] renders: the unit's name as the
    /// header, then context, input, and output or the explicit `None`
    /// placeholder.
    pub open spec fn summary_spec(&self) -> Seq<char> {
        "`CIK Format Validation` State Summary\n"@ + "---------------------------\n"@
            + "Context:\n\tNone\n"@ + "Input Data:\n\tRaw CIK: "@ + self.input_spec().raw_cik@
            + "\nOutput Data:\n"@ + match self.output_spec() {
            Some(output) => "\tValidated CIK: "@ + output.validated_cik@,
            None => "\tNone"@,
        }
    }
}

impl Clone for ValidateCikFormat {
    /// Cloning preserves the value exactly.
    fn clone(&self) -> (other: Self)
        ensures
            other == *self,
    {
        ValidateCikFormat {
            input: self.input.clone(),
            context: self.context.clone(),
            output: match &self.output {
                Some(output) => Some(output.clone()),
                None => None,
            },
        }
    }
}

impl Default for ValidateCikFormat {
    /// A default-constructed unit is pending: it has no output.
    fn default() -> (state: Self)
        ensures
            state.output_spec() is None,
            state.input_spec().raw_cik@ == "0000000000"@,
            state.context_spec() == (ValidateCikFormatContext {  }),
    {
        ValidateCikFormat {
            input: ValidateCikFormatInputData::default(),
            context: ValidateCikFormatContext {  },
            output: None,
        }
    }
}

impl State for ValidateCikFormat {
    type InputData = ValidateCikFormatInputData;

    type OutputData = ValidateCikFormatOutputData;

    type Context = ValidateCikFormatContext;

    closed spec fn input_spec(&self) -> ValidateCikFormatInputData {
        self.input
    }

    closed spec fn context_spec(&self) -> ValidateCikFormatContext {
        self.context
    }

    closed spec fn output_spec(&self) -> Option<ValidateCikFormatOutputData> {
        self.output
    }

    open spec fn name_spec(&self) -> Seq<char> {
        "CIK Format Validation"@
    }

    open spec fn compute_spec(&self, next: Self, result: Result<(), error::State>) -> bool {
        match result {
            Ok(_) => cik_rejection(self.input_spec().raw_cik@) is None,
            Err(e) => e matches error::State::InvalidCikFormat { state_name, cause }
                && state_name@ == self.name_spec() && cik_rejection(self.input_spec().raw_cik@)
                == Some(cause),
        }
    }

    fn get_state_name(&self) -> (name: &str) {
        "CIK Format Validation"
    }

    fn get_input_data(&self) -> (input: &ValidateCikFormatInputData) {
        &self.input
    }

    fn get_context_data(&self) -> (context: &ValidateCikFormatContext) {
        &self.context
    }

    fn get_output_data(&self) -> (output: Option<&ValidateCikFormatOutputData>) {
        match &self.output {
            Some(output) => Some(output),
            None => None,
        }
    }

    fn has_output_data_been_computed(&self) -> (computed: bool) {
        self.output.is_some()
    }

    /// Validation can reject its input, so the real work happens in
    /// [`State::try_compute_output_data`]; this placeholder exists to satisfy
    /// contexts that require a non-failing compute and changes nothing — in
    /// particular, callers must not assume it populates the output.
    fn compute_output_data(&mut self)
        ensures
            *final(self) == *old(self),
    {
    }

    /// Validates the raw CIK: on success the output holds the normalized
    /// CIK; on rejection the unit error names this unit and carries the exact
    /// reason, and the output stays as it was.
    fn try_compute_output_data(&mut self) -> (result: Result<(), error::State>)
        ensures
            result is Ok <==> cik_rejection(old(self).input_spec().raw_cik@) is None,
            result is Ok ==> (final(self).output_spec() matches Some(output)
                && output.validated_cik@ == normalized_cik(old(self).input_spec().raw_cik@)
                && output.validated_cik.wf()),
            result matches Err(e) ==> (e matches error::State::InvalidCikFormat {
                state_name,
                cause,
            } && state_name@ == old(self).name_spec() && cik_rejection(
                old(self).input_spec().raw_cik@,
            ) == Some(cause)),
    {
        match Cik::new(self.input.raw_cik.as_str()) {
            Ok(validated_cik) => {
                self.output = Some(ValidateCikFormatOutputData { validated_cik });
                Ok(())
            }
            Err(cause) => Err(
                error::State::InvalidCikFormat {
                    state_name: String::from_str("CIK Format Validation"),
                    cause,
                },
            ),
        }
    }

    fn reset(&mut self) {
        self.output = None;
    }

    fn reset_with_input_data(&mut self, input: ValidateCikFormatInputData) {
        self.input = input;
        self.output = None;
    }
}

} // verus!
