//! Client-side control of a virtual DualShock 4 (wired) target on a virtual
//! bus controller: the attach/detach lifecycle of a target, report submission
//! and the request/poll protocol for output-state notifications.
//!
//! Every device-control round trip is performed by the caller and handed to
//! these types as a closure or as a plain value; the types decide what is sent
//! and what the answer means.
use vstd::prelude::*;

pub mod error;
pub mod laws;
pub mod notification;
pub mod target;

pub use error::Error;
pub use notification::{DS4LightbarColor, DS4OutputReport, DSRequestNotification};
pub use target::{DualShock4Wired, TargetId};

verus! {

} // verus!
