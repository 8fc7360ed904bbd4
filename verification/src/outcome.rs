//! Outcomes that are viewed as a whole.

use vstd::prelude::*;

verus! {

/// What an outcome says: the view of what came of it, or of what went wrong.
pub open spec fn viewed<T: View, E: View>(outcome: Result<T, E>) -> Result<T::V, E::V> {
    match outcome {
        Ok(value) => Ok(value@),
        Err(e) => Err(e@),
    }
}

/// The view of an outcome keeps whether it is good, and what it holds.
pub proof fn law_outcome_views_are_complete<T: View, E: View>(value: T, e: E)
    ensures
        viewed(Ok::<T, E>(value)) == Ok::<T::V, E::V>(value@),
        viewed(Err::<T, E>(e)) == Err::<T::V, E::V>(e@),
{
}

} // verus!
