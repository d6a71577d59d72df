//! The device directory: from what the platform reports to the list of
//! devices that the menu shows.

use crate::error::PlatformFailure;
use crate::ids::DeviceId;
use vstd::prelude::*;

verus! {

/// A paired device as the menu shows it. Never changed after discovery.
#[derive(Debug, PartialEq, Eq)]
pub struct DeviceDescriptor {
    pub id: DeviceId,
    pub name: String,
}

/// A device descriptor as plain text.
pub ghost struct DescriptorView {
    pub id: Seq<char>,
    pub name: Seq<char>,
}

impl View for DeviceDescriptor {
    type V = DescriptorView;

    open spec fn view(&self) -> DescriptorView {
        DescriptorView { id: self.id@, name: self.name@ }
    }
}

/// One entry of the platform's answer to a device query.
#[derive(Debug, PartialEq, Eq)]
pub struct DiscoveredDevice {
    pub id: DeviceId,
    /// The display name, where the platform has one.
    pub name: Option<String>,
    /// Whether the host is paired with the device.
    pub paired: bool,
}

/// A discovered device as plain text.
pub ghost struct DiscoveredView {
    pub id: Seq<char>,
    pub name: Option<Seq<char>>,
    pub paired: bool,
}

impl View for DiscoveredDevice {
    type V = DiscoveredView;

    open spec fn view(&self) -> DiscoveredView {
        DiscoveredView {
            id: self.id@,
            name: match self.name {
                Some(name) => Some(name@),
                None => None,
            },
            paired: self.paired,
        }
    }
}

/// What to do with a paired device that has no display name.
#[derive(Clone, Copy, Debug, PartialEq, Eq, Structural)]
pub enum MissingNamePolicy {
    /// Discovery fails.
    Reject,
    /// The device is shown under its identifier.
    UseId,
    /// The device is left out.
    Skip,
}

/// Why no device list could be made.
#[derive(Debug, PartialEq, Eq)]
pub enum DirectoryError {
    /// The platform could not be queried.
    Discovery(PlatformFailure),
    /// This paired device has no display name, and the policy asks for one.
    NameMissing(DeviceId),
}

/// The descriptors of `devices`, in order.
pub open spec fn descriptor_views(devices: Seq<DeviceDescriptor>) -> Seq<DescriptorView> {
    devices.map_values(|device: DeviceDescriptor| device@)
}

/// The entries of `found`, in order.
pub open spec fn discovered_views(found: Seq<DiscoveredDevice>) -> Seq<DiscoveredView> {
    found.map_values(|device: DiscoveredDevice| device@)
}

/// Whether `device` is a paired device without a display name.
pub open spec fn is_nameless(device: DiscoveredView) -> bool {
    device.paired && device.name is None
}

/// The menu's descriptor of one discovered device, if it gets one: a device
/// that is not paired gets none; a paired device is shown under its name, or
/// without a name, as the policy says.
pub open spec fn described_as(device: DiscoveredView, policy: MissingNamePolicy) -> Option<
    DescriptorView,
> {
    if !device.paired {
        None
    } else {
        match device.name {
            Some(name) => Some(DescriptorView { id: device.id, name }),
            None => match policy {
                MissingNamePolicy::UseId => Some(
                    DescriptorView { id: device.id, name: device.id },
                ),
                _ => None,
            },
        }
    }
}

/// The descriptors of all of `found` that get one, in the platform's order.
pub open spec fn describe_all(found: Seq<DiscoveredView>, policy: MissingNamePolicy) -> Seq<
    DescriptorView,
> {
    found.filter_map(|device: DiscoveredView| described_as(device, policy))
}

/// Whether `found` is rejected under `policy`: the policy asks for names and
/// some paired device has none.
pub open spec fn rejects(found: Seq<DiscoveredView>, policy: MissingNamePolicy) -> bool {
    policy == MissingNamePolicy::Reject && exists|i: int|
        0 <= i < found.len() && is_nameless(#[trigger] found[i])
}

/// Whether `at` is the position of the first paired device without a name.
pub open spec fn first_nameless_at(found: Seq<DiscoveredView>, at: int) -> bool {
    &&& 0 <= at < found.len()
    &&& is_nameless(found[at])
    &&& forall|i: int| 0 <= i < at ==> !is_nameless(#[trigger] found[i])
}

/// Whether `result` is the device list that `found` gives under `policy`:
/// the descriptors of the paired devices in the platform's order, or the
/// identifier of the first paired device without a name where the policy
/// rejects such a list.
pub open spec fn is_description_of(
    result: Result<Vec<DeviceDescriptor>, DirectoryError>,
    found: Seq<DiscoveredDevice>,
    policy: MissingNamePolicy,
) -> bool {
    match result {
        Ok(devices) => {
            &&& !rejects(discovered_views(found), policy)
            &&& descriptor_views(devices@) == describe_all(discovered_views(found), policy)
        },
        Err(DirectoryError::NameMissing(id)) => {
            &&& rejects(discovered_views(found), policy)
            &&& exists|at: int|
                #[trigger] first_nameless_at(discovered_views(found), at) && id == found[at].id
        },
        Err(DirectoryError::Discovery(_)) => false,
    }
}

/// Where every device is paired and named, the list holds every device at
/// the place the platform gave it, under its own identifier and name,
/// whatever the policy.
pub proof fn lemma_named_devices_keep_their_place(
    found: Seq<DiscoveredView>,
    policy: MissingNamePolicy,
)
    requires
        forall|i: int| 0 <= i < found.len() ==> (#[trigger] found[i]).paired && found[i].name is Some,
    ensures
        !rejects(found, policy),
        describe_all(found, policy).len() == found.len(),
        forall|i: int|
            0 <= i < found.len() ==> #[trigger] describe_all(found, policy)[i] == (DescriptorView {
                id: found[i].id,
                name: found[i].name->Some_0,
            }),
    decreases found.len(),
{
    if found.len() > 0 {
        let rest = found.drop_last();
        assert forall|i: int| 0 <= i < rest.len() implies (#[trigger] rest[i]).paired
            && rest[i].name is Some by {
            assert(rest[i] == found[i]);
        }
        lemma_named_devices_keep_their_place(rest, policy);
        assert(found.last() == found[found.len() - 1]);
        assert(describe_all(found, policy) == describe_all(rest, policy).push(
            described_as(found.last(), policy)->Some_0,
        ));
        assert forall|i: int| 0 <= i < found.len() implies #[trigger] describe_all(
            found,
            policy,
        )[i] == (DescriptorView { id: found[i].id, name: found[i].name->Some_0 }) by {
            if i < rest.len() {
                assert(rest[i] == found[i]);
                assert(describe_all(found, policy)[i] == describe_all(rest, policy)[i]);
            }
        }
    }
}

/// Only paired devices are listed: every descriptor of the list belongs to a
/// paired device that the platform reported.
pub proof fn lemma_listed_devices_are_paired(
    found: Seq<DiscoveredView>,
    policy: MissingNamePolicy,
    at: int,
)
    requires
        0 <= at < describe_all(found, policy).len(),
    ensures
        exists|i: int|
            0 <= i < found.len() && (#[trigger] found[i]).paired && found[i].id == describe_all(
                found,
                policy,
            )[at].id,
    decreases found.len(),
{
    if found.len() > 0 {
        let rest = found.drop_last();
        let last = found.last();
        assert(last == found[found.len() - 1]);
        if at < describe_all(rest, policy).len() {
            lemma_listed_devices_are_paired(rest, policy, at);
            let i = choose|i: int|
                0 <= i < rest.len() && (#[trigger] rest[i]).paired && rest[i].id == describe_all(
                    rest,
                    policy,
                )[at].id;
            assert(found[i] == rest[i]);
            assert(describe_all(found, policy)[at] == describe_all(rest, policy)[at]);
        } else {
            assert(described_as(last, policy) is Some);
            assert(describe_all(found, policy)[at] == described_as(last, policy)->Some_0);
        }
    }
}

/// Turns the platform's entries into the menu's device list.
///
/// Devices that are not paired are left out. The others keep the platform's
/// order. A paired device without a display name is treated as `policy` says;
/// under [`MissingNamePolicy::Reject`] the first such device fails the call.
pub fn describe_devices(found: &Vec<DiscoveredDevice>, policy: MissingNamePolicy) -> (result:
    Result<Vec<DeviceDescriptor>, DirectoryError>)
    ensures
        is_description_of(result, found@, policy),
{
    let ghost views = discovered_views(found@);
    let mut devices: Vec<DeviceDescriptor> = Vec::new();
    let mut i: usize = 0;
    while i < found.len()
        invariant
            i <= found.len(),
            views == discovered_views(found@),
            descriptor_views(devices@) == describe_all(views.take(i as int), policy),
            policy == MissingNamePolicy::Reject ==> forall|j: int|
                0 <= j < i ==> !is_nameless(#[trigger] views[j]),
        decreases found.len() - i,
    {
        let device = &found[i];
        let ghost before = descriptor_views(devices@);
        proof {
            assert(views.take(i as int + 1).drop_last() == views.take(i as int));
            assert(views.take(i as int + 1).last() == device@);
        }
        if device.paired {
            match &device.name {
                Some(name) => {
                    devices.push(DeviceDescriptor { id: device.id.clone(), name: name.clone() });
                    assert(descriptor_views(devices@) == before.push(devices@.last()@));
                },
                None => match policy {
                    MissingNamePolicy::Reject => {
                        proof {
                            assert(is_nameless(views[i as int]));
                            assert(first_nameless_at(views, i as int));
                        }
                        return Err(DirectoryError::NameMissing(device.id.clone()));
                    },
                    MissingNamePolicy::UseId => {
                        let name = device.id.as_str().to_owned();
                        devices.push(DeviceDescriptor { id: device.id.clone(), name });
                        assert(descriptor_views(devices@) == before.push(devices@.last()@));
                    },
                    MissingNamePolicy::Skip => {},
                },
            }
        }
        i += 1;
    }
    proof {
        assert(views.take(i as int) == views);
    }
    Ok(devices)
}

/// The device list of one discovery pass, given the platform's answer to the
/// query for paired devices.
///
/// A query that failed gives [`DirectoryError::Discovery`] with the
/// platform's failure; an answer is described as [`describe_devices`] says.
pub fn discover_paired_devices(
    query: Result<Vec<DiscoveredDevice>, PlatformFailure>,
    policy: MissingNamePolicy,
) -> (result: Result<Vec<DeviceDescriptor>, DirectoryError>)
    ensures
        match query {
            Ok(found) => is_description_of(result, found@, policy),
            Err(failure) => result == Err::<Vec<DeviceDescriptor>, DirectoryError>(
                DirectoryError::Discovery(failure),
            ),
        },
{
    match query {
        Ok(found) => describe_devices(&found, policy),
        Err(failure) => Err(DirectoryError::Discovery(failure)),
    }
}

/// The devices to build the menu from at startup. A platform that could not
/// be queried gives an empty menu instead of a failure; a missing name stays
/// an error.
pub fn devices_for_menu(discovered: Result<Vec<DeviceDescriptor>, DirectoryError>) -> (result:
    Result<Vec<DeviceDescriptor>, DeviceId>)
    ensures
        match discovered {
            Ok(devices) => result == Ok::<Vec<DeviceDescriptor>, DeviceId>(devices),
            Err(DirectoryError::Discovery(_)) => result is Ok && result->Ok_0@.len() == 0,
            Err(DirectoryError::NameMissing(id)) => result == Err::<
                Vec<DeviceDescriptor>,
                DeviceId,
            >(id),
        },
{
    match discovered {
        Ok(devices) => Ok(devices),
        Err(DirectoryError::Discovery(_)) => Ok(Vec::new()),
        Err(DirectoryError::NameMissing(id)) => Err(id),
    }
}

} // verus!
