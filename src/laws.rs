use vstd::prelude::*;

use crate::error::{Error, ERROR_OPERATION_ABORTED};
use crate::notification::{
    completion_result, settled_result, slot_after, state_after, Completion, DS4OutputReport,
    DSRequestNotification, RequestState,
};
use crate::target::{
    attached_guard, attached_request_result, plugin_guard, DualShock4Wired, FIRST_SLOT, MAX_SLOT,
};

verus! {

/// A freshly built target refuses `unplug` with `NotPluggedIn`; once `plugin`
/// has succeeded, a second `plugin` is refused with `AlreadyConnected`.
pub proof fn lemma_plugin_twice_and_early_unplug<CL>(
    fresh: DualShock4Wired<CL>,
    plugged: DualShock4Wired<CL>,
)
    requires
        fresh.slot() == 0,
        FIRST_SLOT <= plugged.slot() <= MAX_SLOT,
    ensures
        attached_guard(fresh.slot()) == Some(Error::NotPluggedIn),
        plugin_guard(plugged.slot()) == Some(Error::AlreadyConnected),
        plugin_guard(fresh.slot()) is None,
{
}

/// Reports sent to a target that is not plugged in fail with `NotPluggedIn`
/// whatever the channel would say; sent to a plugged-in target over a
/// channel that accepts them, they succeed.
pub proof fn lemma_update_needs_plugin<CL>(
    fresh: DualShock4Wired<CL>,
    plugged: DualShock4Wired<CL>,
    answer: Result<(), u32>,
)
    requires
        fresh.slot() == 0,
        FIRST_SLOT <= plugged.slot() <= MAX_SLOT,
    ensures
        attached_request_result(fresh.slot(), answer) == Err::<(), Error>(Error::NotPluggedIn),
        answer is Ok ==> attached_request_result(plugged.slot(), answer) == Ok::<(), Error>(()),
{
}

/// Before any request, a poll of a notification object of a plugged-in
/// target answers "nothing yet" without asking the channel.
pub proof fn lemma_poll_before_request<C>(n: DSRequestNotification<C>)
    requires
        n.slot() != 0,
        n.request_state() == RequestState::Idle,
    ensures
        settled_result(n.slot(), n.request_state()) == Some(
            Ok::<Option<DS4OutputReport>, Error>(None),
        ),
{
}

/// An abort seen by a poll fails it with `OperationAborted` and detaches the
/// object for good: no later request is handed to the bus, and every later
/// poll fails the same way without asking the channel, whatever state the
/// object is in.
pub proof fn lemma_abort_is_terminal(slot: u32, later: RequestState)
    ensures
        completion_result(Completion::Err(ERROR_OPERATION_ABORTED)) == Err::<
            Option<DS4OutputReport>,
            Error,
        >(Error::OperationAborted),
        slot_after(slot, Completion::Err(ERROR_OPERATION_ABORTED)) == 0,
        settled_result(slot_after(slot, Completion::Err(ERROR_OPERATION_ABORTED)), later) == Some(
            Err::<Option<DS4OutputReport>, Error>(Error::OperationAborted),
        ),
{
}

/// The report of a completed request comes back from the poll exactly as the
/// bus wrote it, and later polls give the same report until the next request.
pub proof fn lemma_report_round_trip(slot: u32, state: RequestState, report: DS4OutputReport)
    requires
        slot != 0,
    ensures
        completion_result(Completion::Ok(report)) == Ok::<Option<DS4OutputReport>, Error>(
            Some(report),
        ),
        slot_after(slot, Completion::Ok(report)) == slot,
        settled_result(
            slot_after(slot, Completion::Ok(report)),
            state_after(state, Completion::Ok(report)),
        ) == Some(Ok::<Option<DS4OutputReport>, Error>(Some(report))),
{
}

} // verus!
