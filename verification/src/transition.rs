//! How a transition's result relates to the record it was applied to.

use vstd::prelude::*;

verus! {

/// Whether a call that returned `returned` and turned the record `before`
/// into `after` did what `outcome` prescribes: on success the prescribed
/// record, on refusal the prescribed error and no change.
pub open spec fn carried_out<S, E>(
    outcome: Result<S, E>,
    before: S,
    after: S,
    returned: Result<(), E>,
) -> bool {
    match outcome {
        Ok(next) => returned is Ok && after == next,
        Err(error) => returned == Err::<(), E>(error) && after == before,
    }
}

/// Whether a call that returned `returned` and turned the storage slot
/// `before` into `after` did what `outcome` prescribes: on success the slot
/// holds the prescribed record, on refusal the prescribed error is returned
/// and the slot is as it was.
pub open spec fn created<S, E>(
    outcome: Result<S, E>,
    before: Option<S>,
    after: Option<S>,
    returned: Result<(), E>,
) -> bool {
    match outcome {
        Ok(record) => returned is Ok && after == Some(record),
        Err(error) => returned == Err::<(), E>(error) && after == before,
    }
}

} // verus!
