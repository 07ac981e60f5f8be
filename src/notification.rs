use vstd::prelude::*;

use crate::error::{Error, ERROR_IO_INCOMPLETE, ERROR_OPERATION_ABORTED};

verus! {

/// Colour of the light bar.
#[derive(Clone, Copy, Debug, PartialEq, Eq, Structural)]
pub struct DS4LightbarColor {
    pub red: u8,
    pub green: u8,
    pub blue: u8,
}

/// Output state that the bus reports for a target: the two rumble motors and
/// the light bar.
#[derive(Clone, Copy, Debug, PartialEq, Eq, Structural)]
pub struct DS4OutputReport {
    pub small_motor: u8,
    pub large_motor: u8,
    pub lightbar_color: DS4LightbarColor,
}

/// Where the notification request stands.
#[derive(Clone, Copy, Debug, PartialEq, Eq, Structural)]
pub enum RequestState {
    /// No request has been made yet.
    Idle,
    /// A request was handed to the bus and its completion was not seen yet.
    Pending,
    /// The last request completed with this report.
    Complete(DS4OutputReport),
}

/// What the channel says of the outstanding request: the report the bus wrote
/// into the request's buffer, or a Win32 error code.
pub type Completion = Result<DS4OutputReport, u32>;

/// The answer of `poll` for a completion the channel reported.
pub open spec fn completion_result(c: Completion) -> Result<Option<DS4OutputReport>, Error> {
    match c {
        Ok(report) => Ok(Some(report)),
        Err(code) => if code == ERROR_IO_INCOMPLETE {
            Ok(None)
        } else if code == ERROR_OPERATION_ABORTED {
            Err(Error::OperationAborted)
        } else {
            Err(Error::WinError(code))
        },
    }
}

/// The slot snapshot after a completion was seen: an abort detaches for good.
pub open spec fn slot_after(slot: u32, c: Completion) -> u32 {
    if c == Completion::Err(ERROR_OPERATION_ABORTED) {
        0
    } else {
        slot
    }
}

/// The request state after a completion was seen.
pub open spec fn state_after(state: RequestState, c: Completion) -> RequestState {
    match c {
        Ok(report) => RequestState::Complete(report),
        Err(_) => state,
    }
}

/// The answer of `poll` that needs no word from the channel, if there is one:
/// `None` when the channel must be asked.
pub open spec fn settled_result(slot: u32, state: RequestState) -> Option<
    Result<Option<DS4OutputReport>, Error>,
> {
    if slot == 0 {
        Some(Err(Error::OperationAborted))
    } else {
        match state {
            RequestState::Idle => Some(Ok(None)),
            RequestState::Pending => None,
            RequestState::Complete(report) => Some(Ok(Some(report))),
        }
    }
}

/// Notifications of output-state changes of one plugged-in target.
///
/// `C` is the handle on the channel, a clone of the target's. Once the target
/// is unplugged under an outstanding request the object is detached for good.
/// While a request is outstanding the bus writes into the object's buffer, so
/// whoever issues requests keeps it in place and cancels before releasing it.
#[derive(Debug)]
pub struct DSRequestNotification<C> {
    client: C,
    serial_no: u32,
    state: RequestState,
}

impl<C> DSRequestNotification<C> {
    /// The slot of the target the requests are for; 0 once detached.
    pub closed spec fn slot(&self) -> u32 {
        self.serial_no
    }

    /// Where the request stands.
    pub closed spec fn request_state(&self) -> RequestState {
        self.state
    }

    /// The channel handle.
    pub closed spec fn client_spec(&self) -> C {
        self.client
    }

    /// A notification object for the target on `slot`, with no request made.
    pub(crate) fn new(client: C, slot: u32) -> (r: Self)
        ensures
            r.slot() == slot,
            r.request_state() == RequestState::Idle,
            r.client_spec() == client,
    {
        DSRequestNotification { client, serial_no: slot, state: RequestState::Idle }
    }

    /// Returns whether the underlying target is still attached.
    pub fn is_attached(&self) -> (r: bool)
        ensures
            r == (self.slot() != 0),
    {
        self.serial_no != 0
    }

    /// Returns the slot of the target, 0 once detached.
    pub fn serial_no(&self) -> (r: u32)
        ensures
            r == self.slot(),
    {
        self.serial_no
    }

    /// Returns the channel handle.
    pub fn client(&self) -> (r: &C)
        ensures
            *r == self.client_spec(),
    {
        &self.client
    }

    /// Returns whether releasing the object must first cancel a request with
    /// the bus: it must while the target is attached.
    pub fn needs_cancel(&self) -> (r: bool)
        ensures
            r == (self.slot() != 0),
    {
        self.serial_no != 0
    }

    /// Arms the next notification. Returns whether a request is to be handed
    /// to the bus: only while the target is attached; otherwise nothing changes.
    pub fn request(&mut self) -> (issue: bool)
        ensures
            issue == (old(self).slot() != 0),
            final(self).slot() == old(self).slot(),
            final(self).client_spec() == old(self).client_spec(),
            issue ==> final(self).request_state() == RequestState::Pending,
            !issue ==> final(self).request_state() == old(self).request_state(),
    {
        if self.serial_no != 0 {
            self.state = RequestState::Pending;
            true
        } else {
            false
        }
    }

    /// Takes in what the channel reported of the outstanding request and
    /// returns the answer of `poll`: the report on completion, `None` while
    /// incomplete, `OperationAborted` (detaching the object) on abort, and
    /// any other code as a channel error.
    pub fn complete(&mut self, c: Completion) -> (r: Result<Option<DS4OutputReport>, Error>)
        ensures
            r == completion_result(c),
            final(self).slot() == slot_after(old(self).slot(), c),
            final(self).request_state() == state_after(old(self).request_state(), c),
            final(self).client_spec() == old(self).client_spec(),
    {
        match c {
            Ok(report) => {
                self.state = RequestState::Complete(report);
                Ok(Some(report))
            },
            Err(code) => {
                if code == ERROR_IO_INCOMPLETE {
                    Ok(None)
                } else if code == ERROR_OPERATION_ABORTED {
                    self.serial_no = 0;
                    Err(Error::OperationAborted)
                } else {
                    Err(Error::WinError(code))
                }
            },
        }
    }

    /// Polls for a notification. `query(wait)` asks the channel for the
    /// outstanding request's completion, blocking until it completes when
    /// `wait` is true; it is called only while a request is outstanding and
    /// its completion has not been seen. Otherwise the answer is settled:
    /// `OperationAborted` once detached, `None` before any request, and the
    /// last report again after a completion until the next `request`.
    pub fn poll<F: FnOnce(bool) -> Completion>(&mut self, wait: bool, query: F) -> (r: Result<
        Option<DS4OutputReport>,
        Error,
    >)
        requires
            settled_result(old(self).slot(), old(self).request_state()) is None ==> query.requires(
                (wait,),
            ),
        ensures
            settled_result(old(self).slot(), old(self).request_state()) matches Some(s) ==> r == s
                && *final(self) == *old(self),
            settled_result(old(self).slot(), old(self).request_state()) is None ==> exists|c: Completion|
                {
                    &&& #[trigger] query.ensures((wait,), c)
                    &&& r == completion_result(c)
                    &&& final(self).slot() == slot_after(old(self).slot(), c)
                    &&& final(self).request_state() == state_after(old(self).request_state(), c)
                    &&& final(self).client_spec() == old(self).client_spec()
                },
    {
        if self.serial_no == 0 {
            return Err(Error::OperationAborted);
        }
        match self.state {
            RequestState::Idle => Ok(None),
            RequestState::Complete(report) => Ok(Some(report)),
            RequestState::Pending => {
                let c = query(wait);
                self.complete(c)
            },
        }
    }
}

} // verus!
