//! The transition contract: the pure conversion between two adjacent stages.
//!
//! A transition is the single allowed seam between two unit types with
//! different input/output shapes: it consumes the prior unit's output and the
//! next unit's context and builds the next unit's input, or fails with a
//! transition-scoped error. It is stateless beyond its mapping logic, reads
//! its arguments only, and is deterministic: its result is a function of the
//! prior output and the next context alone.

use vstd::prelude::*;

use crate::error;

verus! {

/// A named, pure conversion from one unit's output into the next unit's
/// input.
pub trait Transition: Sized {
    /// The output type of the prior unit.
    type PriorOutput;

    /// The input type of the next unit.
    type NextInput;

    /// The context type of the next unit.
    type NextContext;

    /// The mapping itself: what `apply` must return. Because `apply` is
    /// pinned to this function of its arguments, a transition is
    /// deterministic and has no observable side effect beyond its returned
    /// value.
    spec fn apply_spec(
        &self,
        prior_output: Self::PriorOutput,
        next_context: Self::NextContext,
    ) -> Result<Self::NextInput, error::Transition>;

    /// The transition's name, used for error attribution.
    spec fn name_spec(&self) -> Seq<char>;

    /// The transition's name.
    fn get_transition_name(&self) -> (name: &str)
        ensures
            name@ == self.name_spec(),
    ;

    /// Converts the prior unit's output into the next unit's input. Reads
    /// its arguments only — in particular it never mutates the prior unit —
    /// and returns exactly [`Transition::apply_spec`] of them.
    fn apply(
        &self,
        prior_output: &Self::PriorOutput,
        next_context: &Self::NextContext,
    ) -> (result: Result<Self::NextInput, error::Transition>)
        ensures
            result == self.apply_spec(*prior_output, *next_context),
    ;
}

/// Law: a transition is deterministic — applying the same transition to the
/// same output under the same context twice yields identical input values, or
/// identical errors, both times.
pub fn apply_transition_twice<T: Transition>(
    transition: &T,
    prior_output: &T::PriorOutput,
    next_context: &T::NextContext,
) -> (results: (
    Result<T::NextInput, error::Transition>,
    Result<T::NextInput, error::Transition>,
))
    ensures
        results.0 == results.1,
        results.0 == transition.apply_spec(*prior_output, *next_context),
{
    (transition.apply(prior_output, next_context), transition.apply(prior_output, next_context))
}

} // verus!
