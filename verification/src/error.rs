//! Failures of the connect sequence.

use vstd::prelude::*;

verus! {

/// The step of the connect sequence that asks something of the platform.
#[derive(Clone, Copy, Debug, PartialEq, Eq, Structural)]
pub enum ConnectStage {
    /// Finding the platform's device object for a device identifier.
    Resolve,
    /// Listing the services a classic device offers.
    ListServices,
    /// Opening a stream socket to a service of a classic device.
    OpenSocket,
    /// Opening a session with a low-energy device.
    OpenSession,
    /// Asking that a low-energy session outlive short losses of signal.
    Persist,
    /// Listing the services of a low-energy device to see that it answers.
    Confirm,
}

/// What the platform reported when one of its calls failed: its status code
/// and its message.
#[derive(Debug, PartialEq, Eq)]
pub struct PlatformFailure {
    pub code: i32,
    pub message: String,
}

/// Why a connection could not be established.
#[derive(Debug, PartialEq, Eq)]
pub enum ConnectError {
    /// The platform call made at `stage` failed.
    Platform { stage: ConnectStage, failure: PlatformFailure },
    /// The classic device offers no service to connect to.
    NoServices,
    /// The platform's answer does not belong to the step that was pending.
    UnexpectedReply { stage: ConnectStage },
}

} // verus!
