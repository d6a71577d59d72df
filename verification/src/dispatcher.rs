//! The selection dispatcher: from a selected menu entry to what it asks for.

use crate::ids::{DeviceId, MenuItemId};
use vstd::hash_map::StringHashMap;
use vstd::prelude::*;

verus! {

/// One device entry of the menu: the identifier the menu subsystem gave the
/// entry, and the device the entry stands for.
#[derive(Debug, PartialEq, Eq)]
pub struct MenuBinding {
    pub item: MenuItemId,
    pub device: DeviceId,
}

/// What a selection asks for.
#[derive(Debug, PartialEq, Eq)]
pub enum Selection {
    /// Shut down.
    Quit,
    /// Connect this device.
    DeviceAction(DeviceId),
    /// Nothing: the entry is not one the dispatcher knows.
    Ignored,
}

/// A selection as plain text.
pub ghost enum SelectionView {
    Quit,
    DeviceAction(Seq<char>),
    Ignored,
}

impl View for Selection {
    type V = SelectionView;

    open spec fn view(&self) -> SelectionView {
        match self {
            Selection::Quit => SelectionView::Quit,
            Selection::DeviceAction(device) => SelectionView::DeviceAction(device@),
            Selection::Ignored => SelectionView::Ignored,
        }
    }
}

/// An event that the event loop forwards.
#[derive(Debug, PartialEq, Eq)]
pub enum UserEvent {
    /// Something happened to the tray icon itself. It changes nothing.
    TrayIcon,
    /// A menu entry was selected.
    Menu(MenuItemId),
}

/// The dispatcher's table as plain text: the identifier of the quit entry
/// and, for each device entry, the identifier of its device.
pub ghost struct DispatchTable {
    pub quit_item: Seq<char>,
    pub devices: Map<Seq<char>, Seq<char>>,
}

/// The device entries that a sequence of bindings leaves in the table. Where
/// two bindings carry the same menu item identifier, the later one stands.
pub open spec fn bound_devices(bindings: Seq<MenuBinding>) -> Map<Seq<char>, Seq<char>>
    decreases bindings.len(),
{
    if bindings.len() == 0 {
        Map::empty()
    } else {
        bound_devices(bindings.drop_last()).insert(
            bindings.last().item@,
            bindings.last().device@,
        )
    }
}

/// What selecting `item` asks for under `table`: the quit entry asks to quit,
/// whatever else the table holds; a device entry asks for its device; any
/// other identifier asks for nothing.
pub open spec fn resolve(table: DispatchTable, item: Seq<char>) -> SelectionView {
    if item == table.quit_item {
        SelectionView::Quit
    } else if table.devices.contains_key(item) {
        SelectionView::DeviceAction(table.devices[item])
    } else {
        SelectionView::Ignored
    }
}

/// What `event` asks for under `table`.
pub open spec fn resolve_event(table: DispatchTable, event: UserEvent) -> SelectionView {
    match event {
        UserEvent::TrayIcon => SelectionView::Ignored,
        UserEvent::Menu(item) => resolve(table, item@),
    }
}

/// The table of a menu with the quit entry `quit_item` and the device
/// entries `bindings`.
pub open spec fn table_of(quit_item: Seq<char>, bindings: Seq<MenuBinding>) -> DispatchTable {
    DispatchTable { quit_item, devices: bound_devices(bindings) }
}

/// The mapping is consistent: selecting the menu entry of a binding asks for
/// the device of that binding. This holds of every binding whose identifier
/// is not the quit entry's and is not given again to a later binding.
pub proof fn lemma_bound_item_resolves(
    quit_item: Seq<char>,
    bindings: Seq<MenuBinding>,
    at: int,
)
    requires
        0 <= at < bindings.len(),
        bindings[at].item@ != quit_item,
        forall|later: int|
            at < later < bindings.len() ==> (#[trigger] bindings[later]).item@
                != bindings[at].item@,
    ensures
        resolve(table_of(quit_item, bindings), bindings[at].item@) == SelectionView::DeviceAction(
            bindings[at].device@,
        ),
    decreases bindings.len(),
{
    if at < bindings.len() - 1 {
        let earlier = bindings.drop_last();
        assert(earlier[at] == bindings[at]);
        assert forall|later: int| at < later < earlier.len() implies (#[trigger] earlier[later]).item@
            != earlier[at].item@ by {
            assert(earlier[later] == bindings[later]);
        }
        lemma_bound_item_resolves(quit_item, earlier, at);
        assert(bindings.last() == bindings[bindings.len() - 1]);
    }
}

/// An identifier that no binding carries, and that is not the quit entry's,
/// is ignored.
pub proof fn lemma_unbound_item_is_ignored(
    quit_item: Seq<char>,
    bindings: Seq<MenuBinding>,
    item: Seq<char>,
)
    requires
        item != quit_item,
        forall|i: int| 0 <= i < bindings.len() ==> (#[trigger] bindings[i]).item@ != item,
    ensures
        resolve(table_of(quit_item, bindings), item) == SelectionView::Ignored,
    decreases bindings.len(),
{
    if bindings.len() > 0 {
        let earlier = bindings.drop_last();
        assert forall|i: int| 0 <= i < earlier.len() implies (#[trigger] earlier[i]).item@
            != item by {
            assert(earlier[i] == bindings[i]);
        }
        lemma_unbound_item_is_ignored(quit_item, earlier, item);
        assert(bindings.last() == bindings[bindings.len() - 1]);
    }
}

/// Maps the identifiers of menu entries to what their selection asks for.
/// Built once, when the menu is built, and only read afterwards.
pub struct SelectionDispatcher {
    quit_item: MenuItemId,
    device_map: StringHashMap<DeviceId>,
}

impl View for SelectionDispatcher {
    type V = DispatchTable;

    closed spec fn view(&self) -> DispatchTable {
        DispatchTable {
            quit_item: self.quit_item@,
            devices: self.device_map@.map_values(|device: DeviceId| device@),
        }
    }
}

impl SelectionDispatcher {
    /// The dispatcher for a menu with the quit entry `quit_item` and the
    /// device entries `bindings`.
    pub fn new(quit_item: MenuItemId, bindings: &Vec<MenuBinding>) -> (dispatcher: Self)
        ensures
            dispatcher@ == table_of(quit_item@, bindings@),
    {
        let mut device_map: StringHashMap<DeviceId> = StringHashMap::new();
        assert(device_map@.map_values(|device: DeviceId| device@) =~= bound_devices(
            bindings@.take(0),
        ));
        let mut i: usize = 0;
        while i < bindings.len()
            invariant
                i <= bindings.len(),
                device_map@.map_values(|device: DeviceId| device@) == bound_devices(
                    bindings@.take(i as int),
                ),
            decreases bindings.len() - i,
        {
            let binding = &bindings[i];
            let ghost before = device_map@;
            device_map.insert(binding.item.as_str().to_owned(), binding.device.clone());
            proof {
                assert(bindings@.take(i as int + 1).drop_last() == bindings@.take(i as int));
                assert(device_map@.map_values(|device: DeviceId| device@) =~= before.map_values(
                    |device: DeviceId| device@,
                ).insert(binding.item@, binding.device@));
            }
            i += 1;
        }
        assert(bindings@.take(i as int) == bindings@);
        SelectionDispatcher { quit_item, device_map }
    }

    /// What selecting the menu entry `item` asks for.
    pub fn on_selection(&self, item: &MenuItemId) -> (selection: Selection)
        ensures
            selection@ == resolve(self@, item@),
    {
        if item.same_as(&self.quit_item) {
            Selection::Quit
        } else {
            match self.device_map.get(item.as_str()) {
                Some(device) => Selection::DeviceAction(device.clone()),
                None => Selection::Ignored,
            }
        }
    }

    /// What a forwarded event asks for. Only a menu selection asks for anything.
    pub fn on_event(&self, event: &UserEvent) -> (selection: Selection)
        ensures
            selection@ == resolve_event(self@, *event),
    {
        match event {
            UserEvent::TrayIcon => Selection::Ignored,
            UserEvent::Menu(item) => self.on_selection(item),
        }
    }
}

} // verus!
