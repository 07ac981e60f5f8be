use vstd::prelude::*;

verus! {

/// Win32 code reported while an overlapped operation has not completed yet.
pub const ERROR_IO_INCOMPLETE: u32 = 996;

/// Win32 code reported for an overlapped operation that was aborted.
pub const ERROR_OPERATION_ABORTED: u32 = 995;

/// Failures of the target lifecycle and of the notification protocol.
#[derive(Clone, Copy, Debug, PartialEq, Eq, Structural)]
pub enum Error {
    /// The target is already plugged in.
    AlreadyConnected,
    /// The operation needs a plugged-in target.
    NotPluggedIn,
    /// Every slot number was refused by the bus.
    NoFreeSlot,
    /// The target was unplugged while a notification request was outstanding.
    OperationAborted,
    /// A Win32 error code passed through from the channel.
    WinError(u32),
}

/// The error for a failed device-control request with the given Win32 code.
pub open spec fn channel_error(code: u32) -> Error {
    Error::WinError(code)
}

/// Maps the outcome of a device-control request to the library's result.
pub fn from_channel(res: Result<(), u32>) -> (r: Result<(), Error>)
    ensures
        r == match res {
            Ok(()) => Ok::<(), Error>(()),
            Err(code) => Err(channel_error(code)),
        },
{
    match res {
        Ok(()) => Ok(()),
        Err(code) => Err(Error::WinError(code)),
    }
}

} // verus!
