//! The order in which the platform is asked to open a connection.
//!
//! The caller talks to the platform; this module decides. An attempt starts
//! with the request that [`first_request`] gives. The caller performs a
//! request, hands the platform's answer to [`next_step`] together with the
//! stage of the request it answers, and gets the next request, the news that
//! the connection stands, or the reason why the attempt is over.

use crate::error::{ConnectError, ConnectStage, PlatformFailure};
use crate::ids::DeviceId;
use vstd::prelude::*;

verus! {

/// The two kinds of device the platform tells apart.
#[derive(Clone, Copy, Debug, PartialEq, Eq, Structural)]
pub enum DeviceKind {
    /// A classic device, reached through a stream socket to one of its services.
    Classic,
    /// A low-energy device, reached through a session.
    LowEnergy,
}

/// The host name and service name under which a classic device offers a service.
#[derive(Debug, PartialEq, Eq)]
pub struct ServiceEndpoint {
    pub host_name: String,
    pub service_name: String,
}

/// The platform's answer to the request that was pending.
#[derive(Debug, PartialEq, Eq)]
pub enum PlatformReply {
    /// The device was found and is of this kind.
    Resolved(DeviceKind),
    /// The services that a classic device offers, in the platform's order.
    Services(Vec<ServiceEndpoint>),
    /// The stream socket is connected.
    SocketOpened,
    /// The low-energy session is open.
    SessionOpened,
    /// The session will be kept across short losses of signal.
    PersistAccepted,
    /// The low-energy device listed its services, so it can be reached.
    Reachable,
    /// The call failed.
    Failed(PlatformFailure),
}

/// Something to ask of the platform.
#[derive(Debug, PartialEq, Eq)]
pub enum Request {
    /// Find the device that this identifier names, and tell its kind.
    Resolve(DeviceId),
    /// List the services that the classic device offers.
    ListServices,
    /// Open a stream socket to this service of the classic device.
    OpenSocket(ServiceEndpoint),
    /// Open a session with the low-energy device.
    OpenSession,
    /// Ask that the session be kept across short losses of signal.
    Persist,
    /// List the services of the low-energy device, to see that it answers.
    Confirm,
}

/// What the caller does next.
#[derive(Debug, PartialEq, Eq)]
pub enum Step {
    /// Perform this request and come back with the answer.
    Ask(Request),
    /// The transport that was opened is the connection's handle.
    Connected,
    /// Give up; nothing is to be stored.
    Abort(ConnectError),
}

/// The stage that a request belongs to.
pub open spec fn stage_of(request: Request) -> ConnectStage {
    match request {
        Request::Resolve(_) => ConnectStage::Resolve,
        Request::ListServices => ConnectStage::ListServices,
        Request::OpenSocket(_) => ConnectStage::OpenSocket,
        Request::OpenSession => ConnectStage::OpenSession,
        Request::Persist => ConnectStage::Persist,
        Request::Confirm => ConnectStage::Confirm,
    }
}

/// The decision table of the connect sequence.
///
/// A failed call ends the attempt with the failure and the stage it came
/// from. A classic device is asked for its services and the first one is
/// connected to; a device without services cannot be connected. A low-energy
/// device gets a session, which is asked to persist and then confirmed by
/// listing the device's services. An answer that does not belong to the
/// pending stage ends the attempt.
pub open spec fn decide(pending: ConnectStage, reply: PlatformReply) -> Step {
    match (pending, reply) {
        (_, PlatformReply::Failed(failure)) => Step::Abort(
            ConnectError::Platform { stage: pending, failure },
        ),
        (ConnectStage::Resolve, PlatformReply::Resolved(DeviceKind::Classic)) => Step::Ask(
            Request::ListServices,
        ),
        (ConnectStage::Resolve, PlatformReply::Resolved(DeviceKind::LowEnergy)) => Step::Ask(
            Request::OpenSession,
        ),
        (ConnectStage::ListServices, PlatformReply::Services(services)) => {
            if services@.len() == 0 {
                Step::Abort(ConnectError::NoServices)
            } else {
                Step::Ask(Request::OpenSocket(services@[0]))
            }
        },
        (ConnectStage::OpenSocket, PlatformReply::SocketOpened) => Step::Connected,
        (ConnectStage::OpenSession, PlatformReply::SessionOpened) => Step::Ask(Request::Persist),
        (ConnectStage::Persist, PlatformReply::PersistAccepted) => Step::Ask(Request::Confirm),
        (ConnectStage::Confirm, PlatformReply::Reachable) => Step::Connected,
        _ => Step::Abort(ConnectError::UnexpectedReply { stage: pending }),
    }
}

/// How far into the sequence a stage lies: the number of platform calls that
/// were answered before it.
pub open spec fn stage_depth(stage: ConnectStage) -> nat {
    match stage {
        ConnectStage::Resolve => 0,
        ConnectStage::ListServices => 1,
        ConnectStage::OpenSession => 1,
        ConnectStage::OpenSocket => 2,
        ConnectStage::Persist => 2,
        ConnectStage::Confirm => 3,
    }
}

/// A failure at any stage ends the attempt at once, with that failure and
/// that stage, and nothing further is asked of the platform.
pub proof fn lemma_failure_ends_attempt(pending: ConnectStage, failure: PlatformFailure)
    ensures
        decide(pending, PlatformReply::Failed(failure)) == Step::Abort(
            ConnectError::Platform { stage: pending, failure },
        ),
{
}

/// The sequence moves forward only: every request lies exactly one step
/// deeper than the one it follows, and no stage lies deeper than three. So an
/// attempt that starts by resolving the device makes at most four platform
/// calls.
pub proof fn lemma_sequence_advances(pending: ConnectStage, reply: PlatformReply)
    ensures
        decide(pending, reply) matches Step::Ask(request) ==> stage_depth(stage_of(request))
            == stage_depth(pending) + 1,
        stage_depth(pending) <= 3,
{
}

/// A connection stands only once the transport of the device's kind is
/// complete: the stream socket of a classic device is open, or the session of
/// a low-energy device has been confirmed.
pub proof fn lemma_connected_means_transport_ready(pending: ConnectStage, reply: PlatformReply)
    requires
        decide(pending, reply) == Step::Connected,
    ensures
        (pending == ConnectStage::OpenSocket && reply == PlatformReply::SocketOpened) || (pending
            == ConnectStage::Confirm && reply == PlatformReply::Reachable),
{
}

impl Request {
    /// The stage that this request belongs to.
    pub fn stage(&self) -> (stage: ConnectStage)
        ensures
            stage == stage_of(*self),
    {
        match self {
            Request::Resolve(_) => ConnectStage::Resolve,
            Request::ListServices => ConnectStage::ListServices,
            Request::OpenSocket(_) => ConnectStage::OpenSocket,
            Request::OpenSession => ConnectStage::OpenSession,
            Request::Persist => ConnectStage::Persist,
            Request::Confirm => ConnectStage::Confirm,
        }
    }
}

/// The request that begins an attempt to connect `device_id`.
pub fn first_request(device_id: &DeviceId) -> (request: Request)
    ensures
        request == Request::Resolve(*device_id),
{
    Request::Resolve(device_id.clone())
}

/// Decides what follows the platform's `reply` to the request of stage `pending`.
pub fn next_step(pending: ConnectStage, reply: PlatformReply) -> (step: Step)
    ensures
        step == decide(pending, reply),
{
    match reply {
        PlatformReply::Failed(failure) => Step::Abort(
            ConnectError::Platform { stage: pending, failure },
        ),
        PlatformReply::Resolved(kind) => match pending {
            ConnectStage::Resolve => match kind {
                DeviceKind::Classic => Step::Ask(Request::ListServices),
                DeviceKind::LowEnergy => Step::Ask(Request::OpenSession),
            },
            _ => Step::Abort(ConnectError::UnexpectedReply { stage: pending }),
        },
        PlatformReply::Services(services) => match pending {
            ConnectStage::ListServices => {
                let mut services = services;
                if services.len() == 0 {
                    Step::Abort(ConnectError::NoServices)
                } else {
                    Step::Ask(Request::OpenSocket(services.remove(0)))
                }
            },
            _ => Step::Abort(ConnectError::UnexpectedReply { stage: pending }),
        },
        PlatformReply::SocketOpened => match pending {
            ConnectStage::OpenSocket => Step::Connected,
            _ => Step::Abort(ConnectError::UnexpectedReply { stage: pending }),
        },
        PlatformReply::SessionOpened => match pending {
            ConnectStage::OpenSession => Step::Ask(Request::Persist),
            _ => Step::Abort(ConnectError::UnexpectedReply { stage: pending }),
        },
        PlatformReply::PersistAccepted => match pending {
            ConnectStage::Persist => Step::Ask(Request::Confirm),
            _ => Step::Abort(ConnectError::UnexpectedReply { stage: pending }),
        },
        PlatformReply::Reachable => match pending {
            ConnectStage::Confirm => Step::Connected,
            _ => Step::Abort(ConnectError::UnexpectedReply { stage: pending }),
        },
    }
}

} // verus!
