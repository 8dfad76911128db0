use std::sync::atomic::{AtomicU32, Ordering};
use std::sync::Arc;

use wobbly::sync::Wobbly;

/// A value that counts its own drops through a shared counter.
struct Probe(Arc<AtomicU32>);

impl Drop for Probe {
    fn drop(&mut self) {
        self.0.fetch_add(1, Ordering::SeqCst);
    }
}

#[test]
fn sync_fresh_handle_upgrades_to_original_value() {
    let handle = Wobbly::new(Arc::new(42u32));
    assert_eq!(handle.strong_count(), 1);
    let strong = handle.upgrade().expect("fresh handle must upgrade");
    assert_eq!(*strong, 42);
}

#[test]
fn sync_new_preserves_strong_count() {
    let value = Arc::new(5u32);
    let keeper = Arc::clone(&value);
    assert_eq!(Arc::strong_count(&keeper), 2);
    let handle = Wobbly::new(value);
    assert_eq!(Arc::strong_count(&keeper), 2);
    assert_eq!(handle.strong_count(), 2);
    assert_eq!(handle.weak_count(), 1);
}

#[test]
fn sync_clone_adds_member_not_strong_hold() {
    let value = Arc::new(9u32);
    let keeper = Arc::clone(&value);
    let first = Wobbly::new(value);
    let second = first.clone();
    assert_eq!(Arc::strong_count(&keeper), 2);
    assert_eq!(second.weak_count(), 2);
    assert_eq!(second.strong_count(), 2);
    let strong = second.upgrade().expect("value still alive");
    assert_eq!(*strong, 9);
}

fn sync_drop_in_order(order: [usize; 3]) {
    let value = Arc::new(11u32);
    let keeper = Arc::clone(&value);
    let first = Wobbly::new(value);
    let second = first.clone();
    let third = first.clone();
    let mut members = vec![Some(first), Some(second), Some(third)];
    assert_eq!(Arc::strong_count(&keeper), 2);
    for &i in order.iter() {
        members[i] = None;
        assert_eq!(Arc::strong_count(&keeper), 1);
    }
}

#[test]
fn sync_any_drop_order_releases_exactly_once() {
    sync_drop_in_order([0, 1, 2]);
    sync_drop_in_order([0, 2, 1]);
    sync_drop_in_order([1, 0, 2]);
    sync_drop_in_order([1, 2, 0]);
    sync_drop_in_order([2, 0, 1]);
    sync_drop_in_order([2, 1, 0]);
}

#[test]
fn sync_first_drop_deallocates_sole_hold() {
    let drops = Arc::new(AtomicU32::new(0));
    let first = Wobbly::new(Arc::new(Probe(Arc::clone(&drops))));
    let second = first.clone();
    assert_eq!(first.strong_count(), 1);
    assert_eq!(drops.load(Ordering::SeqCst), 0);
    drop(first);
    assert_eq!(drops.load(Ordering::SeqCst), 1);
    assert!(second.upgrade().is_none());
    assert_eq!(second.strong_count(), 0);
    drop(second);
    assert_eq!(drops.load(Ordering::SeqCst), 1);
}

#[test]
fn sync_downgraded_weak_sees_group_release() {
    let handle = Wobbly::new(Arc::new(7u32));
    let weak = handle.downgrade();
    let strong = weak.upgrade().expect("group hold keeps value alive");
    assert_eq!(*strong, 7);
    drop(strong);
    drop(handle);
    assert!(weak.upgrade().is_none());
}

#[test]
fn sync_two_groups_release_independently() {
    let drops = Arc::new(AtomicU32::new(0));
    let value = Arc::new(Probe(Arc::clone(&drops)));
    let one = Wobbly::new(Arc::clone(&value));
    let two = Wobbly::new(value);
    assert_eq!(one.strong_count(), 2);
    drop(one);
    assert_eq!(two.strong_count(), 1);
    assert_eq!(drops.load(Ordering::SeqCst), 0);
    let still_there = two.upgrade();
    assert!(still_there.is_some());
    drop(still_there);
    drop(two);
    assert_eq!(drops.load(Ordering::SeqCst), 1);
}

#[test]
fn sync_interleaved_groups_each_release_once() {
    let value = Arc::new(13u32);
    let keeper = Arc::clone(&value);
    let one_a = Wobbly::new(Arc::clone(&value));
    let one_b = one_a.clone();
    let two_a = Wobbly::new(value);
    let two_b = two_a.clone();
    assert_eq!(Arc::strong_count(&keeper), 3);
    drop(one_a);
    assert_eq!(Arc::strong_count(&keeper), 2);
    drop(two_a);
    assert_eq!(Arc::strong_count(&keeper), 1);
    drop(one_b);
    assert_eq!(Arc::strong_count(&keeper), 1);
    drop(two_b);
    assert_eq!(Arc::strong_count(&keeper), 1);
}

#[test]
fn sync_weak_count_counts_every_weak_handle() {
    let value = Arc::new(3u32);
    let keeper = Arc::clone(&value);
    let handle = Wobbly::new(value);
    assert_eq!(handle.weak_count(), 1);
    let clone = handle.clone();
    assert_eq!(handle.weak_count(), 2);
    let weak = handle.downgrade();
    assert_eq!(handle.weak_count(), 3);
    drop(weak);
    drop(clone);
    assert_eq!(handle.weak_count(), 1);
    assert_eq!(Arc::strong_count(&keeper), 1);
}

#[test]
fn sync_upgrade_keeps_value_alive_past_release() {
    let drops = Arc::new(AtomicU32::new(0));
    let handle = Wobbly::new(Arc::new(Probe(Arc::clone(&drops))));
    let strong = handle.upgrade().expect("fresh handle must upgrade");
    drop(handle);
    assert_eq!(drops.load(Ordering::SeqCst), 0);
    drop(strong);
    assert_eq!(drops.load(Ordering::SeqCst), 1);
}
