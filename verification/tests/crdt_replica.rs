//! Tests of the conflict-free-replication provider: local writes,
//! exchanged writes, and the deterministic tie-break.

use symmetry::sync::crdt::CRDTSync;
use symmetry::sync::{Status, SyncError, SyncMessage};

fn replica(byte: u8) -> CRDTSync {
    let mut r = CRDTSync::new();
    r.set_identity(vec![byte; 32], vec![byte ^ 0xff; 32]);
    r
}

#[test]
fn fresh_replica_defaults() {
    let r = CRDTSync::new();
    assert_eq!(r.value(), "");
    assert_eq!(r.marker(), 0);
    assert_eq!(r.pending(), 0);
    assert!(r.ops_values().is_empty());
}

#[test]
fn marker_counts_local_updates() {
    let mut r = replica(0x11);
    r.update(String::from("one"));
    r.update(String::from("two"));
    r.update(String::from("three"));
    assert_eq!(r.marker(), 3);
    assert_eq!(r.value(), "three");
    assert_eq!(r.ops_values(), vec!["one", "two", "three"]);
}

#[test]
fn sync_reports_pending_updates() {
    let mut a = replica(0x11);
    let b = replica(0x22);
    assert_eq!(a.sync(), Ok(Status::UpToDate));
    a.receive(b.current_entry());
    assert_eq!(a.sync(), Ok(Status::NewChangesDetected));
}

#[test]
fn handle_without_pending_fails() {
    let mut a = replica(0x11);
    assert_eq!(a.handle(SyncMessage::Update), Err(SyncError::NotConfigured));
}

#[test]
fn older_write_is_ignored() {
    let mut a = replica(0x11);
    let b = replica(0x22);
    a.update(String::from("mine"));
    a.receive(b.current_entry());
    assert_eq!(a.handle(SyncMessage::Update), Ok(()));
    assert_eq!(a.value(), "mine");
    assert_eq!(a.marker(), 1);
    assert_eq!(a.pending(), 0);
}

#[test]
fn newer_write_overwrites() {
    let mut a = replica(0x11);
    let mut b = replica(0x22);
    b.update(String::from("theirs"));
    b.update(String::from("theirs again"));
    a.receive(b.current_entry());
    assert_eq!(a.handle(SyncMessage::Update), Ok(()));
    assert_eq!(a.value(), "theirs again");
    assert_eq!(a.marker(), 2);
}

#[test]
fn concurrent_equal_markers_tie_break_deterministically() {
    let mut a = replica(0x11);
    let mut b = replica(0x22);
    a.update(String::from("A"));
    b.update(String::from("B"));
    assert_eq!(a.marker(), b.marker());
    let from_a = a.current_entry();
    let from_b = b.current_entry();
    a.receive(from_b);
    b.receive(from_a);
    assert_eq!(a.handle(SyncMessage::Update), Ok(()));
    assert_eq!(b.handle(SyncMessage::Update), Ok(()));
    // The higher replica identity wins on both sides, whatever the
    // arrival order.
    assert_eq!(a.value(), "B");
    assert_eq!(b.value(), "B");
    assert_eq!(a.marker(), b.marker());
}

#[test]
fn exchange_order_does_not_matter() {
    let mut a = replica(0x11);
    let mut b = replica(0x22);
    let mut c = replica(0x33);
    a.update(String::from("from a"));
    b.update(String::from("from b"));
    b.update(String::from("b wins"));
    c.update(String::from("from c"));

    let wa = a.current_entry();
    let wb = b.current_entry();
    let wc = c.current_entry();

    let mut first = replica(0x44);
    first.receive(wa.clone());
    first.receive(wb.clone());
    first.receive(wc.clone());
    assert_eq!(first.handle(SyncMessage::Update), Ok(()));

    let mut second = replica(0x44);
    second.receive(wc);
    second.receive(wb);
    second.receive(wa);
    assert_eq!(second.handle(SyncMessage::Update), Ok(()));

    assert_eq!(first.value(), second.value());
    assert_eq!(first.marker(), second.marker());
    assert_eq!(first.value(), "b wins");
}

#[test]
fn peers_are_remembered() {
    let mut a = replica(0x11);
    a.add_peer(String::from("192.0.2.7:4000"));
    a.add_peer(String::from("192.0.2.8:4000"));
    assert_eq!(a.peers.len(), 2);
    assert_eq!(a.peers[0], "192.0.2.7:4000");
}
