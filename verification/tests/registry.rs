use bluetray::error::{ConnectError, ConnectStage, PlatformFailure};
use bluetray::ids::DeviceId;
use bluetray::registry::{ConnectPlan, ConnectionManager};
use std::cell::Cell;

fn id(text: &str) -> DeviceId {
    DeviceId::new(text.to_string())
}

fn unreachable_device() -> ConnectError {
    ConnectError::Platform {
        stage: ConnectStage::Resolve,
        failure: PlatformFailure { code: -2147023729, message: "device unreachable".to_string() },
    }
}

#[test]
fn new_registry_is_empty() {
    let manager: ConnectionManager<u32> = ConnectionManager::new();
    assert_eq!(manager.active_count(), 0);
    assert!(!manager.is_connected(&id("A1")));
    assert_eq!(manager.plan_connect(&id("A1")), ConnectPlan::OpenTransport);
}

#[test]
fn connect_stores_the_handle() {
    let mut manager: ConnectionManager<u32> = ConnectionManager::new();
    let reply = manager.connect_device(&id("A1"), |_| Ok(7));
    assert_eq!(reply, Ok(()));
    assert!(manager.is_connected(&id("A1")));
    assert!(!manager.is_connected(&id("B2")));
    assert_eq!(manager.active_count(), 1);
    assert_eq!(manager.plan_connect(&id("A1")), ConnectPlan::AlreadyConnected);
}

#[test]
fn connect_hands_the_device_id_to_the_platform() {
    let mut manager: ConnectionManager<String> = ConnectionManager::new();
    let seen = Cell::new(String::new());
    let reply = manager.connect_device(&id("A1"), |device| {
        seen.set(device.as_str().to_string());
        Ok(format!("socket:{}", device.as_str()))
    });
    assert_eq!(reply, Ok(()));
    assert_eq!(seen.take(), "A1");
}

#[test]
fn second_connect_makes_no_platform_call() {
    let calls = Cell::new(0u32);
    let mut manager: ConnectionManager<u32> = ConnectionManager::new();
    let first = manager.connect_device(&id("A1"), |_| {
        calls.set(calls.get() + 1);
        Ok(1)
    });
    assert_eq!(first, Ok(()));
    assert_eq!(calls.get(), 1);
    let second = manager.connect_device(&id("A1"), |_| {
        calls.set(calls.get() + 1);
        Ok(2)
    });
    assert_eq!(second, Ok(()));
    assert_eq!(calls.get(), 1);
    assert!(manager.is_connected(&id("A1")));
    assert_eq!(manager.active_count(), 1);
}

#[test]
fn second_connect_succeeds_even_if_the_platform_would_fail() {
    let mut manager: ConnectionManager<u32> = ConnectionManager::new();
    assert_eq!(manager.connect_device(&id("A1"), |_| Ok(1)), Ok(()));
    let second = manager.connect_device(&id("A1"), |_| Err(unreachable_device()));
    assert_eq!(second, Ok(()));
    assert_eq!(manager.active_count(), 1);
}

#[test]
fn failed_connect_leaves_the_registry_unchanged() {
    let mut manager: ConnectionManager<u32> = ConnectionManager::new();
    assert_eq!(manager.connect_device(&id("A1"), |_| Ok(1)), Ok(()));
    let before = manager.active_count();
    let reply = manager.connect_device(&id("X9"), |_| Err(unreachable_device()));
    assert_eq!(reply, Err(unreachable_device()));
    assert!(!manager.is_connected(&id("X9")));
    assert!(manager.is_connected(&id("A1")));
    assert_eq!(manager.active_count(), before);
}

#[test]
fn failed_connect_can_be_tried_again() {
    let mut manager: ConnectionManager<u32> = ConnectionManager::new();
    let calls = Cell::new(0u32);
    let first = manager.connect_device(&id("X9"), |_| {
        calls.set(calls.get() + 1);
        Err(ConnectError::NoServices)
    });
    assert_eq!(first, Err(ConnectError::NoServices));
    let second = manager.connect_device(&id("X9"), |_| {
        calls.set(calls.get() + 1);
        Ok(3)
    });
    assert_eq!(second, Ok(()));
    assert_eq!(calls.get(), 2);
    assert!(manager.is_connected(&id("X9")));
}

#[test]
fn record_outcome_stores_a_success_once() {
    let mut manager: ConnectionManager<Vec<u8>> = ConnectionManager::new();
    assert_eq!(manager.record_outcome(&id("A1"), Ok(vec![1])), Ok(()));
    assert_eq!(manager.active_count(), 1);
    assert_eq!(manager.record_outcome(&id("A1"), Ok(vec![2])), Ok(()));
    assert_eq!(manager.active_count(), 1);
    assert_eq!(manager.record_outcome(&id("B2"), Ok(vec![3])), Ok(()));
    assert_eq!(manager.active_count(), 2);
}

#[test]
fn record_outcome_hands_a_failure_back() {
    let mut manager: ConnectionManager<u32> = ConnectionManager::new();
    let error = ConnectError::UnexpectedReply { stage: ConnectStage::Persist };
    assert_eq!(
        manager.record_outcome(&id("A1"), Err(ConnectError::UnexpectedReply { stage: ConnectStage::Persist })),
        Err(error)
    );
    assert_eq!(manager.active_count(), 0);
    assert!(!manager.is_connected(&id("A1")));
}

#[test]
fn disconnect_of_an_unknown_device_does_nothing() {
    let mut manager: ConnectionManager<u32> = ConnectionManager::new();
    assert_eq!(manager.connect_device(&id("A1"), |_| Ok(1)), Ok(()));
    assert!(!manager.disconnect_device(&id("B2")));
    assert!(manager.is_connected(&id("A1")));
    assert_eq!(manager.active_count(), 1);
}

#[test]
fn disconnect_removes_the_entry() {
    let mut manager: ConnectionManager<u32> = ConnectionManager::new();
    assert_eq!(manager.connect_device(&id("A1"), |_| Ok(1)), Ok(()));
    assert_eq!(manager.connect_device(&id("B2"), |_| Ok(2)), Ok(()));
    assert!(manager.disconnect_device(&id("A1")));
    assert!(!manager.is_connected(&id("A1")));
    assert!(manager.is_connected(&id("B2")));
    assert_eq!(manager.active_count(), 1);
    assert!(!manager.disconnect_device(&id("A1")));
    assert_eq!(manager.active_count(), 1);
}

struct Transport<'a> {
    released: &'a Cell<u32>,
}

impl Drop for Transport<'_> {
    fn drop(&mut self) {
        self.released.set(self.released.get() + 1);
    }
}

#[test]
fn disconnect_releases_the_handle_before_it_returns() {
    let released = Cell::new(0u32);
    let mut manager: ConnectionManager<Transport> = ConnectionManager::new();
    assert_eq!(manager.connect_device(&id("A1"), |_| Ok(Transport { released: &released })), Ok(()));
    assert_eq!(released.get(), 0);
    assert!(manager.disconnect_device(&id("A1")));
    assert_eq!(released.get(), 1);
}

#[test]
fn a_handle_that_is_not_stored_is_released() {
    let released = Cell::new(0u32);
    let mut manager: ConnectionManager<Transport> = ConnectionManager::new();
    assert_eq!(manager.record_outcome(&id("A1"), Ok(Transport { released: &released })), Ok(()));
    assert_eq!(manager.record_outcome(&id("A1"), Ok(Transport { released: &released })), Ok(()));
    assert_eq!(released.get(), 1);
    assert_eq!(manager.active_count(), 1);
}

#[test]
fn release_all_releases_every_handle() {
    let released = Cell::new(0u32);
    let mut manager: ConnectionManager<Transport> = ConnectionManager::new();
    assert_eq!(manager.connect_device(&id("A1"), |_| Ok(Transport { released: &released })), Ok(()));
    assert_eq!(manager.connect_device(&id("B2"), |_| Ok(Transport { released: &released })), Ok(()));
    assert_eq!(manager.release_all(), 2);
    assert_eq!(released.get(), 2);
    assert_eq!(manager.active_count(), 0);
    assert!(!manager.is_connected(&id("A1")));
    assert_eq!(manager.release_all(), 0);
}

#[test]
fn device_ids_are_compared_by_text() {
    assert!(id("A1").same_as(&id("A1")));
    assert!(!id("A1").same_as(&id("a1")));
    assert_eq!(id("A1").clone(), id("A1"));
    assert_eq!(id("Bluetooth#00:11").as_str(), "Bluetooth#00:11");
}
