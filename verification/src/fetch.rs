use vstd::prelude::*;
use crate::action::Action;
use crate::popups::ErrorPopup;
use crate::snapshot::SharedSnapshot;

verus! {

/// What the scheduler does after one mutation request was executed
/// against the remote service.
#[derive(Clone, Debug, PartialEq)]
pub enum MutationStep {
    /// The request succeeded: refresh the affected snapshot at once,
    /// out of cadence, so the next render reflects the mutation.
    Refresh,
    /// The request failed: surface this action on the bus and retry
    /// nothing — the popup tells the user, the task goes on.
    Surface(Action),
}

/// Decides what one finished fetch means: a fetched value replaces the
/// snapshot wholesale and nothing travels on the bus; a failure becomes
/// an Error action carrying the remote service's reason, to surface as
/// the global error popup, while the snapshot keeps its previous value
/// and the fetch is simply retried on the next tick.  The task itself
/// never fails.
pub fn publish_result<T: Clone>(snapshot: &SharedSnapshot<T>, result: Result<T, String>) -> (r:
    Option<Action>)
    ensures
        result is Ok ==> r is None,
        result matches Err(m) ==> r == Some(Action::Error(ErrorPopup { message: m })),
{
    match result {
        Ok(value) => {
            snapshot.replace(value);
            None
        },
        Err(message) => Some(Action::Error(ErrorPopup { message })),
    }
}

/// Decides what one executed mutation request means: success triggers an
/// immediate out-of-cadence refresh of the affected snapshot; a failure
/// becomes an Error action carrying the remote service's reason.  The
/// drain task never fails, and requests are decided one at a time, in
/// submission order.
pub fn mutation_step(result: Result<(), String>) -> (r: MutationStep)
    ensures
        result is Ok ==> r == MutationStep::Refresh,
        result matches Err(m) ==> r == MutationStep::Surface(
            Action::Error(ErrorPopup { message: m }),
        ),
{
    match result {
        Ok(_) => MutationStep::Refresh,
        Err(message) => MutationStep::Surface(Action::Error(ErrorPopup { message })),
    }
}

} // verus!
