use std::sync::Arc;

use native::{DispatchQueue, FfiErrorKind, ObjectRegistry, WaitSignal};

#[test]
fn stop_after_start_completes_with_pending_work() {
    // One call is already queued when the stop begins: the stop marks the
    // queue non-accepting, the pending call still drains to completion,
    // and nothing submitted after the stop is ever admitted.
    let mut queue = DispatchQueue::new();
    let pending_call = queue.submit().unwrap();

    queue.mark_stopped();

    let rejected = queue.submit();
    let err = rejected.unwrap_err();
    assert_eq!(err.kind(), FfiErrorKind::Resolution);
    assert_eq!(queue.pending_len(), 1);

    assert_eq!(queue.take_next(), Some(pending_call));
    assert_eq!(queue.take_next(), None);
}

#[test]
fn queue_hands_out_fresh_ids_in_order() {
    let mut queue = DispatchQueue::new();
    let a = queue.submit().unwrap();
    let b = queue.submit().unwrap();
    let c = queue.submit().unwrap();
    assert!(a < b && b < c);

    assert_eq!(queue.take_next(), Some(a));
    assert_eq!(queue.take_next(), Some(b));

    // A taken unit is gone: draining again never yields it twice.
    assert_eq!(queue.take_next(), Some(c));
    assert_eq!(queue.take_next(), None);
}

#[test]
fn wait_returns_after_notify() {
    let signal = Arc::new(WaitSignal::new());
    signal.notify();
    signal.wait();
}

#[test]
fn wait_tolerates_missing_notification() {
    // A wait with nothing posted returns after its bounded polling round
    // instead of parking forever, so a waiting side can interleave other
    // responsibilities.
    let signal = WaitSignal::new();
    signal.wait();
}

#[test]
fn registry_hands_out_fresh_ids_and_tracks_liveness() {
    let mut registry = ObjectRegistry::new();
    let a = registry.register(0x1000);
    let b = registry.register(0x2000);
    assert_ne!(a, b);
    assert_eq!(registry.len(), 2);

    assert_eq!(registry.get(a), Some(0x1000));
    assert_eq!(registry.get(b), Some(0x2000));

    assert_eq!(registry.remove(a), Some(0x1000));
    assert_eq!(registry.get(a), None);
    assert_eq!(registry.len(), 1);

    // A released id stays retired: fresh ids never repeat.
    let c = registry.register(0x3000);
    assert_ne!(c, a);
    assert_ne!(c, b);
}
