//! Identifiers, kept apart by type so that a menu item's identifier is never
//! taken for a device's.

use vstd::prelude::*;

verus! {

/// The platform's identifier of a Bluetooth device. Its text means nothing
/// to this crate; two identifiers name the same device when their texts agree.
#[derive(Debug, PartialEq, Eq, Hash)]
pub struct DeviceId {
    text: String,
}

impl View for DeviceId {
    type V = Seq<char>;

    closed spec fn view(&self) -> Seq<char> {
        self.text@
    }
}

impl DeviceId {
    pub fn new(text: String) -> (id: Self)
        ensures
            id@ == text@,
    {
        DeviceId { text }
    }

    pub fn as_str(&self) -> (text: &str)
        ensures
            text@ == self@,
    {
        self.text.as_str()
    }

    /// Whether both identifiers name the same device.
    pub fn same_as(&self, other: &DeviceId) -> (same: bool)
        ensures
            same == (self@ == other@),
    {
        self.text == other.text
    }
}

impl Clone for DeviceId {
    fn clone(&self) -> (copy: Self)
        ensures
            copy == *self,
    {
        DeviceId { text: self.text.clone() }
    }
}

/// The identifier that the menu subsystem gave to one entry of the tray menu.
#[derive(Debug, PartialEq, Eq, Hash)]
pub struct MenuItemId {
    text: String,
}

impl View for MenuItemId {
    type V = Seq<char>;

    closed spec fn view(&self) -> Seq<char> {
        self.text@
    }
}

impl MenuItemId {
    pub fn new(text: String) -> (id: Self)
        ensures
            id@ == text@,
    {
        MenuItemId { text }
    }

    pub fn as_str(&self) -> (text: &str)
        ensures
            text@ == self@,
    {
        self.text.as_str()
    }

    /// Whether both identifiers name the same menu entry.
    pub fn same_as(&self, other: &MenuItemId) -> (same: bool)
        ensures
            same == (self@ == other@),
    {
        self.text == other.text
    }
}

impl Clone for MenuItemId {
    fn clone(&self) -> (copy: Self)
        ensures
            copy == *self,
    {
        MenuItemId { text: self.text.clone() }
    }
}

} // verus!
