use vstd::prelude::*;

use crate::error::{channel_error, from_channel, Error};
use crate::notification::{DSRequestNotification, RequestState};

verus! {

/// First slot number that `plugin` offers to the bus.
pub const FIRST_SLOT: u32 = 1;

/// Highest slot number: slot numbers are 16 bits wide.
pub const MAX_SLOT: u32 = 65535;

/// The (vendor, product) pair that selects the emulated device type.
#[derive(Clone, Copy, Debug, PartialEq, Eq, Structural)]
pub struct TargetId {
    pub vendor: u16,
    pub product: u16,
}

/// A virtual Sony DualShock 4 (wired).
///
/// `CL` is the handle on the channel to the bus. A slot of 0 means that the
/// target is not plugged in; any other value is the slot the bus accepted.
///
/// The type may be moved between threads, but concurrent calls on one target
/// need outside synchronisation.
#[derive(Debug)]
pub struct DualShock4Wired<CL> {
    client: CL,
    serial_no: u32,
    id: TargetId,
}

/// Why `plugin` refuses to start on a target holding `slot`, if it does.
pub open spec fn plugin_guard(slot: u32) -> Option<Error> {
    if slot != 0 {
        Some(Error::AlreadyConnected)
    } else {
        None
    }
}

/// Why an operation that needs a plugged-in target refuses to start on a
/// target holding `slot`, if it does.
pub open spec fn attached_guard(slot: u32) -> Option<Error> {
    if slot == 0 {
        Some(Error::NotPluggedIn)
    } else {
        None
    }
}

/// The result of a request that needs a plugged-in target, made on `slot`,
/// where the channel answered `answer`.
pub open spec fn attached_request_result(slot: u32, answer: Result<(), u32>) -> Result<(), Error> {
    if let Some(e) = attached_guard(slot) {
        Err(e)
    } else {
        match answer {
            Ok(()) => Ok(()),
            Err(code) => Err(channel_error(code)),
        }
    }
}

/// The bus may have refused to attach a target of type `id` on every slot
/// number from `FIRST_SLOT` below `n`.
pub open spec fn refused_below<F: Fn(u32, TargetId) -> bool>(try_slot: F, id: TargetId, n: int) -> bool {
    forall|k: u32| FIRST_SLOT <= k < n ==> #[trigger] try_slot.ensures((k, id), false)
}

/// The bus refuses to attach a target of type `id` on every slot number.
pub open spec fn refuses_all<F: Fn(u32, TargetId) -> bool>(try_slot: F, id: TargetId) -> bool {
    forall|k: u32, b: bool|
        FIRST_SLOT <= k <= MAX_SLOT && #[trigger] try_slot.ensures((k, id), b) ==> !b
}

impl<CL> DualShock4Wired<CL> {
    /// The slot the target holds, 0 when it is not plugged in.
    pub closed spec fn slot(&self) -> u32 {
        self.serial_no
    }

    /// The id the target was built with.
    pub closed spec fn target_id(&self) -> TargetId {
        self.id
    }

    /// The channel handle the target holds.
    pub closed spec fn client_spec(&self) -> CL {
        self.client
    }

    /// Creates a target that is not plugged in.
    pub fn new(client: CL, id: TargetId) -> (r: Self)
        ensures
            r.slot() == 0,
            r.target_id() == id,
            r.client_spec() == client,
    {
        DualShock4Wired { client, serial_no: 0, id }
    }

    /// Returns whether the target is plugged in.
    pub fn is_attached(&self) -> (r: bool)
        ensures
            r == (self.slot() != 0),
    {
        self.serial_no != 0
    }

    /// Returns the id the target was built with.
    pub fn id(&self) -> (r: TargetId)
        ensures
            r == self.target_id(),
    {
        self.id
    }

    /// Returns the channel handle.
    pub fn client(&self) -> (r: &CL)
        ensures
            *r == self.client_spec(),
    {
        &self.client
    }

    /// Returns the slot the target holds, 0 when it is not plugged in.
    pub fn serial_no(&self) -> (r: u32)
        ensures
            r == self.slot(),
    {
        self.serial_no
    }

    /// Plugs the target in. `try_slot(k, id)` asks the bus to attach a target
    /// with this target's id on slot `k` and returns whether the bus accepted.
    /// Slots are offered in
    /// order from `FIRST_SLOT`, the next one after each refusal, and the first
    /// accepted one is kept; when the bus refuses every slot up to `MAX_SLOT`
    /// the call fails with `NoFreeSlot` and the target stays unplugged.
    pub fn plugin<F: Fn(u32, TargetId) -> bool>(&mut self, try_slot: F) -> (r: Result<(), Error>)
        requires
            old(self).slot() == 0 ==> forall|k: u32|
                FIRST_SLOT <= k <= MAX_SLOT ==> #[trigger] try_slot.requires((k, old(self).target_id())),
        ensures
            final(self).target_id() == old(self).target_id(),
            final(self).client_spec() == old(self).client_spec(),
            plugin_guard(old(self).slot()) matches Some(e) ==> r == Err::<(), Error>(e)
                && final(self).slot() == old(self).slot(),
            old(self).slot() == 0 ==> match r {
                Ok(()) => {
                    &&& FIRST_SLOT <= final(self).slot() <= MAX_SLOT
                    &&& try_slot.ensures((final(self).slot(), old(self).target_id()), true)
                    &&& refused_below(try_slot, old(self).target_id(), final(self).slot() as int)
                },
                Err(e) => {
                    &&& e == Error::NoFreeSlot
                    &&& final(self).slot() == 0
                    &&& refused_below(try_slot, old(self).target_id(), MAX_SLOT + 1)
                },
            },
            old(self).slot() == 0 && refuses_all(try_slot, old(self).target_id()) ==> r == Err::<(), Error>(
                Error::NoFreeSlot,
            ) && final(self).slot() == 0,
    {
        if self.serial_no != 0 {
            return Err(Error::AlreadyConnected);
        }
        assert(forall|k: u32|
            FIRST_SLOT <= k <= MAX_SLOT ==> #[trigger] try_slot.requires((k, old(self).target_id())));
        let mut candidate: u32 = FIRST_SLOT;
        loop
            invariant
                FIRST_SLOT <= candidate <= MAX_SLOT,
                self.serial_no == 0,
                old(self).serial_no == 0,
                self.id == old(self).id,
                self.client == old(self).client,
                forall|k: u32|
                    FIRST_SLOT <= k <= MAX_SLOT ==> #[trigger] try_slot.requires((k, old(self).id)),
                refused_below(try_slot, old(self).id, candidate as int),
            decreases MAX_SLOT - candidate,
        {
            let id = self.id;
            let accepted = try_slot(candidate, id);
            if accepted {
                self.serial_no = candidate;
                return Ok(());
            }
            if candidate >= MAX_SLOT {
                return Err(Error::NoFreeSlot);
            }
            candidate = candidate + 1;
        }
    }

    /// Unplugs the target. `detach(slot)` asks the bus to detach the slot; on
    /// success the target is unplugged, and a channel error leaves it plugged in.
    pub fn unplug<F: FnOnce(u32) -> Result<(), u32>>(&mut self, detach: F) -> (r: Result<(), Error>)
        requires
            old(self).slot() != 0 ==> detach.requires((old(self).slot(),)),
        ensures
            final(self).target_id() == old(self).target_id(),
            final(self).client_spec() == old(self).client_spec(),
            attached_guard(old(self).slot()) matches Some(e) ==> r == Err::<(), Error>(e)
                && final(self).slot() == 0,
            old(self).slot() != 0 ==> exists|a: Result<(), u32>|
                {
                    &&& #[trigger] detach.ensures((old(self).slot(),), a)
                    &&& r == attached_request_result(old(self).slot(), a)
                },
            r is Ok ==> final(self).slot() == 0,
            r is Err ==> final(self).slot() == old(self).slot(),
    {
        if self.serial_no == 0 {
            return Err(Error::NotPluggedIn);
        }
        let answer = detach(self.serial_no);
        match answer {
            Ok(()) => {
                self.serial_no = 0;
                Ok(())
            },
            Err(code) => Err(Error::WinError(code)),
        }
    }

    /// Waits until the bus reports the target ready. `wait(slot)` makes the
    /// request. Reports sent before it completes may be refused by the bus.
    pub fn wait_ready<F: FnOnce(u32) -> Result<(), u32>>(&mut self, wait: F) -> (r: Result<(), Error>)
        requires
            old(self).slot() != 0 ==> wait.requires((old(self).slot(),)),
        ensures
            *final(self) == *old(self),
            attached_guard(old(self).slot()) matches Some(e) ==> r == Err::<(), Error>(e),
            old(self).slot() != 0 ==> exists|a: Result<(), u32>|
                {
                    &&& #[trigger] wait.ensures((old(self).slot(),), a)
                    &&& r == attached_request_result(old(self).slot(), a)
                },
    {
        if self.serial_no == 0 {
            return Err(Error::NotPluggedIn);
        }
        from_channel(wait(self.serial_no))
    }

    /// Sends an input report. `submit(slot, report)` makes the request.
    pub fn update<R: Copy, F: FnOnce(u32, R) -> Result<(), u32>>(
        &mut self,
        report: &R,
        submit: F,
    ) -> (r: Result<(), Error>)
        requires
            old(self).slot() != 0 ==> submit.requires((old(self).slot(), *report)),
        ensures
            *final(self) == *old(self),
            attached_guard(old(self).slot()) matches Some(e) ==> r == Err::<(), Error>(e),
            old(self).slot() != 0 ==> exists|a: Result<(), u32>|
                {
                    &&& #[trigger] submit.ensures((old(self).slot(), *report), a)
                    &&& r == attached_request_result(old(self).slot(), a)
                },
    {
        if self.serial_no == 0 {
            return Err(Error::NotPluggedIn);
        }
        from_channel(submit(self.serial_no, *report))
    }

    /// Sends an extended input report, which also carries touch points.
    /// `submit(slot, report)` makes the request.
    pub fn update_ex<R: Copy, F: FnOnce(u32, R) -> Result<(), u32>>(
        &mut self,
        report: &R,
        submit: F,
    ) -> (r: Result<(), Error>)
        requires
            old(self).slot() != 0 ==> submit.requires((old(self).slot(), *report)),
        ensures
            *final(self) == *old(self),
            attached_guard(old(self).slot()) matches Some(e) ==> r == Err::<(), Error>(e),
            old(self).slot() != 0 ==> exists|a: Result<(), u32>|
                {
                    &&& #[trigger] submit.ensures((old(self).slot(), *report), a)
                    &&& r == attached_request_result(old(self).slot(), a)
                },
    {
        if self.serial_no == 0 {
            return Err(Error::NotPluggedIn);
        }
        from_channel(submit(self.serial_no, *report))
    }

    /// Creates the notification object of the target, bound to the current
    /// slot and to a channel handle that `try_clone` makes from the target's.
    /// At most one should live per target: the bus hands each output change
    /// to one of the outstanding requests.
    pub fn request_notification<C, F: FnOnce(&CL) -> Result<C, u32>>(&mut self, try_clone: F) -> (r:
        Result<DSRequestNotification<C>, Error>)
        requires
            old(self).slot() != 0 ==> try_clone.requires((&old(self).client_spec(),)),
        ensures
            *final(self) == *old(self),
            attached_guard(old(self).slot()) matches Some(e) ==> r is Err && r->Err_0 == e,
            old(self).slot() != 0 ==> exists|a: Result<C, u32>|
                {
                    &&& #[trigger] try_clone.ensures((&old(self).client_spec(),), a)
                    &&& match a {
                        Ok(client) => r is Ok && r->Ok_0.client_spec() == client
                            && r->Ok_0.slot() == old(self).slot()
                            && r->Ok_0.request_state() == RequestState::Idle,
                        Err(code) => r is Err && r->Err_0 == channel_error(code),
                    }
                },
    {
        if self.serial_no == 0 {
            return Err(Error::NotPluggedIn);
        }
        match try_clone(&self.client) {
            Ok(client) => Ok(DSRequestNotification::new(client, self.serial_no)),
            Err(code) => Err(Error::WinError(code)),
        }
    }

    /// Unplugs the target if it is plugged in, ignoring a failure, and
    /// returns the channel handle. `detach(slot)` asks the bus to detach.
    pub fn drop<F: FnOnce(u32) -> Result<(), u32>>(self, detach: F) -> (r: CL)
        requires
            self.slot() != 0 ==> detach.requires((self.slot(),)),
        ensures
            r == self.client_spec(),
            self.slot() != 0 ==> exists|a: Result<(), u32>| #[trigger] detach.ensures((self.slot(),), a),
    {
        let mut this = self;
        let _ = this.unplug(detach);
        this.client
    }
}

} // verus!
