//! The retrieval unit of the ingestion phase.
//!
//! [`Retrieval`] models the stage that fetches company facts for a CIK from
//! the SEC's public API. The unit itself holds the data and the contract —
//! which endpoint is queried for which CIK, and what the stage's summary
//! renders; the HTTP request is issued by the surrounding binary, which
//! builds its URL through [`company_facts_url`].

use vstd::prelude::*;
use vstd::string::StrSliceExecFns;
use vstd::string::StringExecFns;

use crate::error;
use crate::state::State;
use crate::state_data::StateData;
use crate::transition::Transition;
use crate::validate_cik_format::ValidateCikFormatOutputData;

verus! {

/// The payload of the retrieval unit: both its input and its output shape.
#[derive(Debug, PartialEq, Eq, PartialOrd, Ord, Hash)]
pub struct RetrievalData {
    pub payload: String,
}

/// Partial update for [`RetrievalData`].
#[derive(Debug, PartialEq, Eq, PartialOrd, Ord, Hash)]
pub struct RetrievalDataUpdater {
    pub payload: Option<String>,
}

impl Clone for RetrievalData {
    /// Cloning preserves the value exactly.
    fn clone(&self) -> (other: Self)
        ensures
            other == *self,
    {
        RetrievalData { payload: self.payload.clone() }
    }
}

impl Default for RetrievalData {
    /// The default payload is empty.
    fn default() -> (data: Self)
        ensures
            data.payload@ == Seq::<char>::empty(),
    {
        RetrievalData { payload: String::new() }
    }
}

impl StateData for RetrievalData {
    type UpdateType = RetrievalDataUpdater;

    open spec fn merged_spec(&self, updates: RetrievalDataUpdater) -> Self {
        match updates.payload {
            Some(payload) => RetrievalData { payload },
            None => *self,
        }
    }

    fn get_state(&self) -> (data: &Self) {
        self
    }

    fn update_state(&mut self, updates: RetrievalDataUpdater) {
        match updates.payload {
            Some(payload) => {
                self.payload = payload;
            }
            None => {}
        }
    }
}

/// Context of the retrieval unit: the CIK whose company facts are fetched.
#[derive(Debug, PartialEq, Eq, PartialOrd, Ord, Hash)]
pub struct RetrievalContext {
    cik: String,
}

impl RetrievalContext {
    /// The CIK this context points the retrieval at.
    pub closed spec fn cik_spec(&self) -> Seq<char> {
        self.cik@
    }

    /// A context for the given CIK string.
    pub fn new(cik: String) -> (context: Self)
        ensures
            context.cik_spec() == cik@,
    {
        RetrievalContext { cik }
    }

    /// The CIK to retrieve.
    pub fn cik(&self) -> (cik: &str)
        ensures
            cik@ == self.cik_spec(),
    {
        self.cik.as_str()
    }
}

impl Clone for RetrievalContext {
    /// Cloning preserves the value exactly.
    fn clone(&self) -> (other: Self)
        ensures
            other == *self,
    {
        RetrievalContext { cik: self.cik.clone() }
    }
}

impl Default for RetrievalContext {
    /// The default context points at the SEC's own example CIK.
    fn default() -> (context: Self)
        ensures
            context.cik_spec() == "0000320193"@,
    {
        RetrievalContext { cik: String::from_str("0000320193") }
    }
}

/// Unit that retrieves company facts for a CIK.
///
/// The synchronous compute installs a placeholder payload; the actual HTTP
/// exchange is the calling program's concern and out of this unit's scope.
#[derive(Debug, PartialEq, Eq, PartialOrd, Ord, Hash)]
pub struct Retrieval {
    input: RetrievalData,
    output: Option<RetrievalData>,
    context: RetrievalContext,
}

impl Retrieval {
    /// A fresh, pending retrieval unit for the given input and context.
    #[must_use]
    pub fn new(input: RetrievalData, context: RetrievalContext) -> (state: Self)
        ensures
            state.input_spec() == input,
            state.context_spec() == context,
            state.output_spec() is None,
    {
        Retrieval { input, output: None, context }
    }

    /// The human-readable summary: name, context, input, and output or an
    /// explicit "not yet computed" marker.
    pub fn summary(&self) -> (text: String)
        ensures
            text@ == self.summary_spec(),
    {
        let mut text = String::from_str("Retrieval State Summary\n");
        text.append("---------------------------\n");
        text.append("Context:\n\tCIK: ");
        text.append(self.context.cik());
        text.append("\nInput Data:\n\tPayload: ");
        text.append(self.input.payload.as_str());
        text.append("\nOutput Data:\n");
        match &self.output {
            Some(output) => {
                text.append("\tPayload: ");
                text.append(output.payload.as_str());
            }
            None => {
                text.append("\tNone");
            }
        }
        proof {
            assert(text@ =~= self.summary_spec());
        }
        text
    }

    /// What [`Retrieval::summary`] renders: the unit's name as the header,
    /// then context, input, and output or the explicit `None` placeholder.
    pub open spec fn summary_spec(&self) -> Seq<char> {
        "Retrieval State Summary\n"@ + "---------------------------\n"@ + "Context:\n\tCIK: "@
            + self.context_spec().cik_spec() + "\nInput Data:\n\tPayload: "@
            + self.input_spec().payload@ + "\nOutput Data:\n"@ + match self.output_spec() {
            Some(output) => "\tPayload: "@ + output.payload@,
            None => "\tNone"@,
        }
    }
}

impl Clone for Retrieval {
    /// Cloning preserves the value exactly.
    fn clone(&self) -> (other: Self)
        ensures
            other == *self,
    {
        Retrieval {
            input: self.input.clone(),
            output: match &self.output {
                Some(output) => Some(output.clone()),
                None => None,
            },
            context: self.context.clone(),
        }
    }
}

impl Default for Retrieval {
    /// A default-constructed unit is pending: it has no output.
    fn default() -> (state: Self)
        ensures
            state.output_spec() is None,
            state.input_spec().payload@ == Seq::<char>::empty(),
            state.context_spec().cik_spec() == "0000320193"@,
    {
        Retrieval {
            input: RetrievalData::default(),
            output: None,
            context: RetrievalContext::default(),
        }
    }
}

impl State for Retrieval {
    type InputData = RetrievalData;

    type OutputData = RetrievalData;

    type Context = RetrievalContext;

    closed spec fn input_spec(&self) -> RetrievalData {
        self.input
    }

    closed spec fn context_spec(&self) -> RetrievalContext {
        self.context
    }

    closed spec fn output_spec(&self) -> Option<RetrievalData> {
        self.output
    }

    open spec fn name_spec(&self) -> Seq<char> {
        "retrieval"@
    }

    open spec fn compute_spec(&self, next: Self, result: Result<(), error::State>) -> bool {
        result is Ok
    }

    fn get_state_name(&self) -> (name: &str) {
        "retrieval"
    }

    fn get_input_data(&self) -> (input: &RetrievalData) {
        &self.input
    }

    fn get_context_data(&self) -> (context: &RetrievalContext) {
        &self.context
    }

    fn get_output_data(&self) -> (output: Option<&RetrievalData>) {
        match &self.output {
            Some(output) => Some(output),
            None => None,
        }
    }

    fn has_output_data_been_computed(&self) -> (computed: bool) {
        self.output.is_some()
    }

    /// Installs the placeholder output: an empty payload, later filled by the
    /// calling program with what the HTTP exchange returned.
    fn compute_output_data(&mut self)
        ensures
            final(self).output_spec() matches Some(output) && output.payload@
                == Seq::<char>::empty(),
    {
        self.output = Some(RetrievalData::default());
    }

    /// Retrieval's in-process compute cannot fail: it behaves exactly like
    /// [`State::compute_output_data`].
    fn try_compute_output_data(&mut self) -> (result: Result<(), error::State>)
        ensures
            result is Ok,
            final(self).output_spec() matches Some(output) && output.payload@
                == Seq::<char>::empty(),
    {
        self.output = Some(RetrievalData::default());
        Ok(())
    }

    fn reset(&mut self) {
        self.output = None;
    }

    fn reset_with_input_data(&mut self, input: RetrievalData) {
        self.input = input;
        self.output = None;
    }
}

/// The adapter from the validation stage into the retrieval stage: the
/// validated CIK becomes the retrieval input's payload.
#[derive(Debug, Clone, Copy, PartialEq, Eq, Structural, PartialOrd, Ord, Hash, Default)]
pub struct CikToRetrieval {}

impl Transition for CikToRetrieval {
    type PriorOutput = ValidateCikFormatOutputData;

    type NextInput = RetrievalData;

    type NextContext = RetrievalContext;

    open spec fn apply_spec(
        &self,
        prior_output: ValidateCikFormatOutputData,
        next_context: RetrievalContext,
    ) -> Result<RetrievalData, error::Transition> {
        Ok(RetrievalData { payload: prior_output.validated_cik.spec_string() })
    }

    open spec fn name_spec(&self) -> Seq<char> {
        "CIK to Retrieval"@
    }

    fn get_transition_name(&self) -> (name: &str) {
        "CIK to Retrieval"
    }

    fn apply(&self, prior_output: &ValidateCikFormatOutputData, next_context: &RetrievalContext) -> (result: Result<RetrievalData, error::Transition>) {
        Ok(RetrievalData { payload: prior_output.validated_cik.clone().into_string() })
    }
}

/// The SEC company-facts endpoint for the given CIK.
pub fn company_facts_url(cik: &str) -> (url: String)
    ensures
        url@ == "https://data.sec.gov/api/xbrl/companyfacts/CIK"@ + cik@ + ".json"@,
{
    let mut url = String::from_str("https://data.sec.gov/api/xbrl/companyfacts/CIK");
    url.append(cik);
    url.append(".json");
    url
}

/// The first `count` characters of a fetched body — all of it if shorter —
/// for the calling program to print; never panics, unlike a byte slice of a
/// possibly short response.
pub fn body_preview(body: &str, count: usize) -> (preview: String)
    ensures
        body@.len() <= count ==> preview@ == body@,
        body@.len() > count ==> preview@ == body@.subrange(0, count as int),
{
    let length = body.unicode_len();
    let end = if length <= count {
        length
    } else {
        count
    };
    let preview = String::from_str(body.substring_char(0, end));
    proof {
        assert(body@.subrange(0, body@.len() as int) =~= body@);
    }
    preview
}

} // verus!
