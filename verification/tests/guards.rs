use process_owned::{BorrowTracker, ProcessOwnedMut};

#[test]
fn second_write_guard_is_refused() {
    let value = ProcessOwnedMut::new(1);
    let alias = value.clone();

    let guard = value.borrow_mut().unwrap();
    assert!(alias.borrow_mut().is_none());
    assert!(alias.borrow().is_none());

    drop(guard);
    assert!(alias.borrow_mut().is_some());
}

#[test]
fn read_guards_coexist() {
    let value = ProcessOwnedMut::new(3);
    let alias = value.clone();

    let first = value.borrow().unwrap();
    let second = alias.borrow().unwrap();
    assert_eq!(*first, 3);
    assert_eq!(*second, 3);

    assert!(value.borrow_mut().is_none());
    drop(first);
    assert!(value.borrow_mut().is_none());
    drop(second);
    assert!(value.borrow_mut().is_some());
}

#[test]
fn tracker_follows_discipline() {
    let mut tracker = BorrowTracker::new();

    assert!(tracker.try_acquire_read());
    assert!(tracker.try_acquire_read());
    assert!(!tracker.try_acquire_write());
    tracker.release_read();
    assert!(!tracker.try_acquire_write());
    tracker.release_read();

    assert!(tracker.try_acquire_write());
    assert!(!tracker.try_acquire_write());
    assert!(!tracker.try_acquire_read());
    tracker.release_write();
    assert!(tracker.try_acquire_read());
}
