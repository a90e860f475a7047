//! The data-holder contract for the value bundles a processing unit carries.
//!
//! A data holder is an immutable value bundle with a companion "partial
//! update" shape: the only way upstream data flows into it is through an
//! explicit updater value that says which fields to overwrite; unset fields
//! are left untouched.

use vstd::prelude::*;

verus! {

/// A value bundle (input or output data of a processing unit) together with
/// its partial-update shape.
pub trait StateData: Sized {
    /// The companion updater: a sum of optional fields, one per field of the
    /// holder.
    type UpdateType;

    /// What applying `updates` to `self` must yield: every field named by a
    /// `Some` in `updates` is overwritten, every other field is kept.
    spec fn merged_spec(&self, updates: Self::UpdateType) -> Self;

    /// Read access to the whole bundle.
    fn get_state(&self) -> (data: &Self)
        ensures
            data == self,
    ;

    /// Applies a partial update: exactly the merge described by
    /// [`StateData::merged_spec`].
    fn update_state(&mut self, updates: Self::UpdateType)
        ensures
            *final(self) == old(self).merged_spec(updates),
    ;
}

} // verus!
