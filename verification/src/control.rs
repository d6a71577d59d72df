//! One turn of the event loop: what a forwarded event does to the registry.

use crate::dispatcher::{resolve_event, Selection, SelectionDispatcher, SelectionView, UserEvent};
use crate::error::ConnectError;
use crate::ids::DeviceId;
use crate::registry::{registry_after, reply_after, ConnectionManager};
use vstd::prelude::*;

verus! {

/// What handling an event came to.
#[derive(Debug, PartialEq, Eq)]
pub enum Handled {
    /// Quit was selected. Every connection has been released; the event loop
    /// is to stop.
    Shutdown { released: usize },
    /// A device was selected and a connect request was made for it.
    Connect { device: DeviceId, reply: Result<(), ConnectError> },
    /// The event asked for nothing.
    Nothing,
}

/// Handles one forwarded event.
///
/// Selecting the quit entry releases every connection and asks the loop to
/// stop, whatever the registry holds. Selecting a device entry makes one
/// connect request for its device; a failure is reported in the result and
/// changes nothing. Every other event leaves the registry as it is. `open`
/// is run for no device but a selected one that is not connected.
pub fn handle_event<H, F>(
    dispatcher: &SelectionDispatcher,
    manager: &mut ConnectionManager<H>,
    event: &UserEvent,
    open: F,
) -> (handled: Handled) where F: FnOnce(&DeviceId) -> Result<H, ConnectError>
    requires
        forall|device: &DeviceId|
            resolve_event(dispatcher@, *event) == SelectionView::DeviceAction(device@) && !old(
                manager,
            )@.contains_key(device@) ==> #[trigger] open.requires((device,)),
    ensures
        match resolve_event(dispatcher@, *event) {
            SelectionView::Quit => {
                &&& handled == Handled::Shutdown { released: old(manager)@.len() as usize }
                &&& final(manager)@ == Map::<Seq<char>, H>::empty()
            },
            SelectionView::DeviceAction(id) => {
                &&& handled matches Handled::Connect { device, reply }
                &&& device@ == id
                &&& old(manager)@.contains_key(id) ==> reply is Ok && final(manager)@ == old(
                    manager,
                )@
                &&& !old(manager)@.contains_key(id) ==> exists|outcome: Result<H, ConnectError>|
                    {
                        &&& open.ensures((&device,), outcome)
                        &&& final(manager)@ == #[trigger] registry_after(
                            old(manager)@,
                            id,
                            outcome,
                        )
                        &&& reply == reply_after(outcome)
                    }
            },
            SelectionView::Ignored => handled == Handled::Nothing && final(manager)@ == old(
                manager,
            )@,
        },
{
    match dispatcher.on_event(event) {
        Selection::Quit => {
            let released = manager.release_all();
            Handled::Shutdown { released }
        },
        Selection::DeviceAction(device) => {
            let reply = manager.connect_device(&device, open);
            Handled::Connect { device, reply }
        },
        Selection::Ignored => Handled::Nothing,
    }
}

} // verus!
