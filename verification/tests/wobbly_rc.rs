use std::cell::Cell;
use std::rc::Rc;

use wobbly::rc::Wobbly;

/// A value that counts its own drops through a shared cell.
struct Probe(Rc<Cell<u32>>);

impl Drop for Probe {
    fn drop(&mut self) {
        self.0.set(self.0.get() + 1);
    }
}

#[test]
fn rc_fresh_handle_upgrades_to_original_value() {
    let handle = Wobbly::new(Rc::new(42u32));
    assert_eq!(handle.strong_count(), 1);
    let strong = handle.upgrade().expect("fresh handle must upgrade");
    assert_eq!(*strong, 42);
}

#[test]
fn rc_new_preserves_strong_count() {
    let value = Rc::new(5u32);
    let keeper = Rc::clone(&value);
    assert_eq!(Rc::strong_count(&keeper), 2);
    let handle = Wobbly::new(value);
    assert_eq!(Rc::strong_count(&keeper), 2);
    assert_eq!(handle.strong_count(), 2);
    assert_eq!(handle.weak_count(), 1);
}

#[test]
fn rc_clone_adds_member_not_strong_hold() {
    let value = Rc::new(9u32);
    let keeper = Rc::clone(&value);
    let first = Wobbly::new(value);
    let second = first.clone();
    assert_eq!(Rc::strong_count(&keeper), 2);
    assert_eq!(second.weak_count(), 2);
    assert_eq!(second.strong_count(), 2);
    let strong = second.upgrade().expect("value still alive");
    assert_eq!(*strong, 9);
}

fn rc_drop_in_order(order: [usize; 3]) {
    let value = Rc::new(11u32);
    let keeper = Rc::clone(&value);
    let first = Wobbly::new(value);
    let second = first.clone();
    let third = first.clone();
    let mut members = vec![Some(first), Some(second), Some(third)];
    assert_eq!(Rc::strong_count(&keeper), 2);
    for &i in order.iter() {
        members[i] = None;
        assert_eq!(Rc::strong_count(&keeper), 1);
    }
}

#[test]
fn rc_any_drop_order_releases_exactly_once() {
    rc_drop_in_order([0, 1, 2]);
    rc_drop_in_order([0, 2, 1]);
    rc_drop_in_order([1, 0, 2]);
    rc_drop_in_order([1, 2, 0]);
    rc_drop_in_order([2, 0, 1]);
    rc_drop_in_order([2, 1, 0]);
}

#[test]
fn rc_first_drop_deallocates_sole_hold() {
    let drops = Rc::new(Cell::new(0u32));
    let first = Wobbly::new(Rc::new(Probe(Rc::clone(&drops))));
    let second = first.clone();
    assert_eq!(first.strong_count(), 1);
    assert_eq!(drops.get(), 0);
    drop(first);
    assert_eq!(drops.get(), 1);
    assert!(second.upgrade().is_none());
    assert_eq!(second.strong_count(), 0);
    drop(second);
    assert_eq!(drops.get(), 1);
}

#[test]
fn rc_downgraded_weak_sees_group_release() {
    let handle = Wobbly::new(Rc::new(7u32));
    let weak = handle.downgrade();
    let strong = weak.upgrade().expect("group hold keeps value alive");
    assert_eq!(*strong, 7);
    drop(strong);
    drop(handle);
    assert!(weak.upgrade().is_none());
}

#[test]
fn rc_two_groups_release_independently() {
    let drops = Rc::new(Cell::new(0u32));
    let value = Rc::new(Probe(Rc::clone(&drops)));
    let one = Wobbly::new(Rc::clone(&value));
    let two = Wobbly::new(value);
    assert_eq!(one.strong_count(), 2);
    drop(one);
    assert_eq!(two.strong_count(), 1);
    assert_eq!(drops.get(), 0);
    let still_there = two.upgrade();
    assert!(still_there.is_some());
    drop(still_there);
    drop(two);
    assert_eq!(drops.get(), 1);
}

#[test]
fn rc_weak_count_counts_every_weak_handle() {
    let value = Rc::new(3u32);
    let keeper = Rc::clone(&value);
    let handle = Wobbly::new(value);
    assert_eq!(handle.weak_count(), 1);
    let clone = handle.clone();
    assert_eq!(handle.weak_count(), 2);
    let weak = handle.downgrade();
    assert_eq!(handle.weak_count(), 3);
    drop(weak);
    drop(clone);
    assert_eq!(handle.weak_count(), 1);
    assert_eq!(Rc::strong_count(&keeper), 1);
}

#[test]
fn rc_upgrade_keeps_value_alive_past_release() {
    let drops = Rc::new(Cell::new(0u32));
    let handle = Wobbly::new(Rc::new(Probe(Rc::clone(&drops))));
    let strong = handle.upgrade().expect("fresh handle must upgrade");
    drop(handle);
    assert_eq!(drops.get(), 0);
    drop(strong);
    assert_eq!(drops.get(), 1);
}

#[test]
fn rc_ordinary_strong_handle_outlives_group() {
    let value = Rc::new(8u32);
    let keeper = Rc::clone(&value);
    let handle = Wobbly::new(value);
    let weak = handle.downgrade();
    drop(handle);
    assert_eq!(Rc::strong_count(&keeper), 1);
    let strong = weak.upgrade().expect("keeper still owns the value");
    assert_eq!(*strong, 8);
}
