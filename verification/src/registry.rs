//! The registry of live connections, one per device.

use crate::error::ConnectError;
use crate::ids::DeviceId;
use vstd::hash_map::StringHashMap;
use vstd::prelude::*;

verus! {

/// The registry after the outcome of a connect attempt for `device` has been
/// recorded: a handle is stored only if the attempt succeeded and the device
/// had no entry; an entry that exists is never replaced.
pub open spec fn registry_after<H>(
    before: Map<Seq<char>, H>,
    device: Seq<char>,
    outcome: Result<H, ConnectError>,
) -> Map<Seq<char>, H> {
    match outcome {
        Ok(handle) => if before.contains_key(device) {
            before
        } else {
            before.insert(device, handle)
        },
        Err(_) => before,
    }
}

/// Whether a connect request has to go to the platform.
#[derive(Clone, Copy, Debug, PartialEq, Eq, Structural)]
pub enum ConnectPlan {
    /// The device has a live connection: nothing is asked of the platform.
    AlreadyConnected,
    /// The device has none: the platform's connect sequence is run once.
    OpenTransport,
}

/// The plan for a connect request for `device`.
pub open spec fn plan_for<H>(registry: Map<Seq<char>, H>, device: Seq<char>) -> ConnectPlan {
    if registry.contains_key(device) {
        ConnectPlan::AlreadyConnected
    } else {
        ConnectPlan::OpenTransport
    }
}

/// How often the platform's connect sequence runs for one connect request.
pub open spec fn platform_calls<H>(registry: Map<Seq<char>, H>, device: Seq<char>) -> nat {
    match plan_for(registry, device) {
        ConnectPlan::AlreadyConnected => 0,
        ConnectPlan::OpenTransport => 1,
    }
}

/// What the caller of a connect attempt is told about its outcome.
pub open spec fn reply_after<H>(outcome: Result<H, ConnectError>) -> Result<(), ConnectError> {
    match outcome {
        Ok(_) => Ok(()),
        Err(e) => Err(e),
    }
}

/// Whether a disconnect request for `device` tears a connection down.
pub open spec fn tears_down<H>(registry: Map<Seq<char>, H>, device: Seq<char>) -> bool {
    registry.contains_key(device)
}

/// The registry after a disconnect request for `device`.
pub open spec fn registry_without<H>(registry: Map<Seq<char>, H>, device: Seq<char>) -> Map<
    Seq<char>,
    H,
> {
    registry.remove(device)
}

/// Connecting is idempotent. Once a connect request for `device` has
/// succeeded, a second one asks nothing of the platform and changes nothing,
/// whatever a platform call might have returned. Over both requests the
/// platform's connect sequence runs once if the device was not connected
/// before, and not at all if it was. The device then has its one entry, and
/// the registry has grown by that entry at most.
pub proof fn lemma_connect_is_idempotent<H>(
    registry: Map<Seq<char>, H>,
    device: Seq<char>,
    handle: H,
    second: Result<H, ConnectError>,
)
    requires
        registry.dom().finite(),
    ensures
        ({
            let first = registry_after(registry, device, Ok(handle));
            &&& plan_for(first, device) == ConnectPlan::AlreadyConnected
            &&& platform_calls(registry, device) + platform_calls(first, device) == (if registry.contains_key(
                device,
            ) {
                0nat
            } else {
                1nat
            })
            &&& registry_after(first, device, second) == first
            &&& first.contains_key(device)
            &&& first.dom() == registry.dom().insert(device)
            &&& first.remove(device) == registry.remove(device)
            &&& first.len() == registry.len() + platform_calls(registry, device)
        }),
{
    let first = registry_after(registry, device, Ok(handle));
    assert(first.dom() =~= registry.dom().insert(device));
    assert(first.remove(device) =~= registry.remove(device));
}

/// A failed connect attempt leaves no trace: the registry, and so its size,
/// is what it was, the caller gets the failure, and a device that was not
/// connected is not connected afterwards.
pub proof fn lemma_failure_leaves_no_trace<H>(
    registry: Map<Seq<char>, H>,
    device: Seq<char>,
    error: ConnectError,
)
    ensures
        ({
            let outcome = Err::<H, ConnectError>(error);
            let after = registry_after(registry, device, outcome);
            &&& after == registry
            &&& after.len() == registry.len()
            &&& after.contains_key(device) == registry.contains_key(device)
            &&& reply_after(outcome) == Err::<(), ConnectError>(error)
        }),
{
}

/// Disconnecting releases and is idempotent. A device without an entry has
/// nothing torn down, and the registry stays as it is. A device with an entry
/// has it torn down: afterwards the device is not connected, the registry is
/// smaller by one, and no other entry has changed. A second disconnect finds
/// nothing to tear down and changes nothing.
pub proof fn lemma_disconnect_releases<H>(registry: Map<Seq<char>, H>, device: Seq<char>)
    requires
        registry.dom().finite(),
    ensures
        ({
            let after = registry_without(registry, device);
            &&& !registry.contains_key(device) ==> !tears_down(registry, device) && after
                == registry
            &&& registry.contains_key(device) ==> tears_down(registry, device) && after.len()
                == registry.len() - 1
            &&& !after.contains_key(device)
            &&& forall|other: Seq<char>|
                other != device ==> (#[trigger] after.contains_key(other)
                    == registry.contains_key(other))
            &&& !tears_down(after, device)
            &&& registry_without(after, device) == after
        }),
{
    let after = registry_without(registry, device);
    assert(registry_without(after, device) =~= after);
    if !registry.contains_key(device) {
        assert(after =~= registry);
    }
}

/// Owns the handle of every live connection, keyed by device identifier.
#[verifier::reject_recursive_types(H)]
pub struct ConnectionManager<H> {
    active_connections: StringHashMap<H>,
}

impl<H> View for ConnectionManager<H> {
    type V = Map<Seq<char>, H>;

    closed spec fn view(&self) -> Map<Seq<char>, H> {
        self.active_connections@
    }
}

impl<H> ConnectionManager<H> {
    #[verifier::type_invariant]
    spec fn inv(&self) -> bool {
        self.active_connections@.dom().finite()
    }

    /// A registry without connections.
    pub fn new() -> (manager: Self)
        ensures
            manager@ == Map::<Seq<char>, H>::empty(),
    {
        ConnectionManager { active_connections: StringHashMap::new() }
    }

    /// Whether `device_id` has a live connection.
    pub fn is_connected(&self, device_id: &DeviceId) -> (connected: bool)
        ensures
            connected == self@.contains_key(device_id@),
    {
        self.active_connections.contains_key(device_id.as_str())
    }

    /// Whether a connect request for `device_id` has to go to the platform.
    pub fn plan_connect(&self, device_id: &DeviceId) -> (plan: ConnectPlan)
        ensures
            plan == plan_for(self@, device_id@),
    {
        if self.active_connections.contains_key(device_id.as_str()) {
            ConnectPlan::AlreadyConnected
        } else {
            ConnectPlan::OpenTransport
        }
    }

    /// The number of live connections.
    pub fn active_count(&self) -> (count: usize)
        ensures
            count == self@.len(),
            self@.dom().finite(),
    {
        proof {
            use_type_invariant(self);
        }
        self.active_connections.len()
    }

    /// Records the outcome of a connect attempt for `device_id`.
    ///
    /// A handle is stored only when the attempt succeeded and the device has
    /// no entry yet; the test and the insertion happen in this one call. A
    /// failure leaves the registry as it was and is handed back to the caller.
    pub fn record_outcome(&mut self, device_id: &DeviceId, outcome: Result<H, ConnectError>) -> (reply:
        Result<(), ConnectError>)
        ensures
            final(self)@ == registry_after(old(self)@, device_id@, outcome),
            reply == reply_after(outcome),
            final(self)@.dom().finite(),
    {
        proof {
            use_type_invariant(&*self);
        }
        match outcome {
            Ok(handle) => {
                if !self.active_connections.contains_key(device_id.as_str()) {
                    let mut connections = StringHashMap::new();
                    std::mem::swap(&mut connections, &mut self.active_connections);
                    connections.insert(device_id.as_str().to_owned(), handle);
                    self.active_connections = connections;
                }
                Ok(())
            },
            Err(e) => Err(e),
        }
    }

    /// Connects `device_id`, unless it is connected already.
    ///
    /// A device that has an entry is left alone and `open` is not run: `open`
    /// need not even be callable then. For any other device `open` runs the
    /// platform's connect sequence once, and its outcome is recorded: the
    /// handle on success, nothing on failure. The registry is held for the
    /// whole attempt, so no second attempt for the device can begin meanwhile.
    pub fn connect_device<F>(&mut self, device_id: &DeviceId, open: F) -> (reply: Result<
        (),
        ConnectError,
    >) where F: FnOnce(&DeviceId) -> Result<H, ConnectError>
        requires
            !old(self)@.contains_key(device_id@) ==> open.requires((device_id,)),
        ensures
            old(self)@.contains_key(device_id@) ==> reply is Ok && final(self)@ == old(self)@,
            !old(self)@.contains_key(device_id@) ==> exists|outcome: Result<H, ConnectError>|
                {
                    &&& open.ensures((device_id,), outcome)
                    &&& final(self)@ == #[trigger] registry_after(old(self)@, device_id@, outcome)
                    &&& reply == reply_after(outcome)
                },
            reply is Ok ==> final(self)@.contains_key(device_id@),
            reply is Err ==> final(self)@ == old(self)@ && !final(self)@.contains_key(device_id@),
            final(self)@.dom().finite(),
    {
        proof {
            use_type_invariant(&*self);
        }
        match self.plan_connect(device_id) {
            ConnectPlan::AlreadyConnected => Ok(()),
            ConnectPlan::OpenTransport => {
                let outcome = open(device_id);
                self.record_outcome(device_id, outcome)
            },
        }
    }

    /// Removes the connection of `device_id` and releases its handle. Says
    /// whether there was one.
    pub fn disconnect_device(&mut self, device_id: &DeviceId) -> (torn_down: bool)
        ensures
            torn_down == tears_down(old(self)@, device_id@),
            final(self)@ == registry_without(old(self)@, device_id@),
            final(self)@.dom().finite(),
    {
        proof {
            use_type_invariant(&*self);
        }
        let present = self.active_connections.contains_key(device_id.as_str());
        if present {
            let mut connections = StringHashMap::new();
            std::mem::swap(&mut connections, &mut self.active_connections);
            connections.remove(device_id.as_str());
            self.active_connections = connections;
        }
        assert(self@ =~= old(self)@.remove(device_id@));
        present
    }

    /// Releases every handle, as on shutdown. Returns how many there were.
    pub fn release_all(&mut self) -> (released: usize)
        ensures
            released == old(self)@.len(),
            final(self)@ == Map::<Seq<char>, H>::empty(),
    {
        let released = self.active_connections.len();
        self.active_connections = StringHashMap::new();
        released
    }
}

} // verus!
