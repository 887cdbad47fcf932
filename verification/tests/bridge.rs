use sqldelta::notify::DELETE_CODE;
use sqldelta::notify::INSERT_CODE;
use sqldelta::notify::UPDATE_CODE;
use sqldelta::UpdateNotification;
use sqldelta::UpdateOperation;
use sqldelta::WatchBridge;

fn expect_next(b: &mut WatchBridge, op: UpdateOperation, table: &str, row_id: i64) {
    let n: UpdateNotification = b.recv().expect("a notification must be pending");
    assert_eq!(n.operation, op);
    assert_eq!(n.database, "main");
    assert_eq!(n.table, table);
    assert_eq!(n.row_id, row_id);
}

#[test]
fn contacts_scenario_in_order() {
    let mut b = WatchBridge::watch();
    b.write(INSERT_CODE, "main".to_string(), "contacts".to_string(), 1);
    b.write(INSERT_CODE, "main".to_string(), "contacts".to_string(), 2);
    b.write(DELETE_CODE, "main".to_string(), "contacts".to_string(), 2);
    b.write(DELETE_CODE, "main".to_string(), "contacts".to_string(), 1);
    assert_eq!(b.pending_count(), 4);
    expect_next(&mut b, UpdateOperation::Insert, "contacts", 1);
    expect_next(&mut b, UpdateOperation::Insert, "contacts", 2);
    expect_next(&mut b, UpdateOperation::Delete, "contacts", 2);
    expect_next(&mut b, UpdateOperation::Delete, "contacts", 1);
    assert!(b.recv().is_none());
    assert!(b.is_hook_registered());
}

#[test]
fn mixed_operations_in_order() {
    let mut b = WatchBridge::watch();
    b.write(INSERT_CODE, "main".to_string(), "contacts".to_string(), 1);
    b.write(UPDATE_CODE, "main".to_string(), "contacts".to_string(), 1);
    b.write(DELETE_CODE, "main".to_string(), "contacts".to_string(), 1);
    expect_next(&mut b, UpdateOperation::Insert, "contacts", 1);
    expect_next(&mut b, UpdateOperation::Update, "contacts", 1);
    expect_next(&mut b, UpdateOperation::Delete, "contacts", 1);
    assert!(b.recv().is_none());
}

#[test]
fn update_delivers_engine_reported_row_id() {
    // The engine reports, and the bridge delivers, the row's identifier
    // after the update takes place.
    let mut b = WatchBridge::watch();
    b.write(UPDATE_CODE, "main".to_string(), "contacts".to_string(), 42);
    expect_next(&mut b, UpdateOperation::Update, "contacts", 42);
}

#[test]
fn unknown_op_is_ignored_and_corrupts_nothing() {
    let mut b = WatchBridge::watch();
    b.write(INSERT_CODE, "main".to_string(), "contacts".to_string(), 1);
    b.write(7, "main".to_string(), "contacts".to_string(), 99);
    b.write(INSERT_CODE, "main".to_string(), "contacts".to_string(), 2);
    assert_eq!(b.pending_count(), 2);
    expect_next(&mut b, UpdateOperation::Insert, "contacts", 1);
    expect_next(&mut b, UpdateOperation::Insert, "contacts", 2);
    assert!(b.recv().is_none());
    assert!(b.is_hook_registered());
}

#[test]
fn dropped_receiver_self_disables_on_next_write() {
    let mut b = WatchBridge::watch();
    b.drop_receiver();
    assert!(b.is_hook_registered());
    // The write itself succeeds; nothing is delivered, and the hook is
    // unregistered as a side effect of this very write.
    b.write(INSERT_CODE, "main".to_string(), "contacts".to_string(), 1);
    assert_eq!(b.pending_count(), 0);
    assert!(!b.is_hook_registered());
    // Later writes no longer reach the callback at all.
    b.write(INSERT_CODE, "main".to_string(), "contacts".to_string(), 2);
    assert_eq!(b.pending_count(), 0);
    assert!(b.recv().is_none());
}

#[test]
fn disable_stops_delivery_immediately() {
    let mut b = WatchBridge::watch();
    b.write(INSERT_CODE, "main".to_string(), "contacts".to_string(), 1);
    b.disable();
    assert!(!b.is_hook_registered());
    // No further write is needed for delivery to stop, and none has effect.
    b.write(INSERT_CODE, "main".to_string(), "contacts".to_string(), 2);
    assert_eq!(b.pending_count(), 1);
    // What was sent before the disable stays receivable.
    expect_next(&mut b, UpdateOperation::Insert, "contacts", 1);
    assert!(b.recv().is_none());
}

#[test]
fn disable_twice_is_a_no_op() {
    let mut b = WatchBridge::watch();
    b.disable();
    b.disable();
    assert!(!b.is_hook_registered());
    assert!(b.is_receiver_alive());
    assert_eq!(b.pending_count(), 0);
}
