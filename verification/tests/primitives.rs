//! Scenario tests for the ownership and synchronization primitives.

use pointers::cell::Cell;
use pointers::mutex::{locked_increments, Mutex};
use pointers::rc::{Rc, RcHeap};
use pointers::ref_cell::RefCell;

#[test]
fn cell_set_overwrites() {
    let mut cell = Cell::new(10);
    assert_eq!(cell.get(), 10);
    cell.set(20);
    assert_eq!(cell.get(), 20);
}

#[test]
fn rc_three_handles_one_block() {
    let mut heap: RcHeap<i32> = RcHeap::new();
    let first = Rc::new(&mut heap, 5);
    let second = first.clone(&mut heap);
    let third = second.clone(&mut heap);
    assert_eq!(heap.live_blocks(), 1);
    assert_eq!(heap.strong_count(&first), 3);

    second.drop(&mut heap);
    third.drop(&mut heap);
    assert_eq!(heap.live_blocks(), 1);
    assert_eq!(heap.strong_count(&first), 1);
    assert_eq!(*first.deref(&heap), 5);

    first.drop(&mut heap);
    assert_eq!(heap.live_blocks(), 0);
}

#[test]
fn rc_blocks_are_independent() {
    let mut heap: RcHeap<&str> = RcHeap::new();
    let left = Rc::new(&mut heap, "left");
    let right = Rc::new(&mut heap, "right");
    let left_too = left.clone(&mut heap);
    assert_eq!(heap.live_blocks(), 2);
    assert_eq!(heap.strong_count(&left), 2);
    assert_eq!(heap.strong_count(&right), 1);

    right.drop(&mut heap);
    assert_eq!(heap.live_blocks(), 1);
    assert_eq!(*left_too.deref(&heap), "left");

    left.drop(&mut heap);
    left_too.drop(&mut heap);
    assert_eq!(heap.live_blocks(), 0);
}

#[test]
fn borrow_mut_excludes_second_writer() {
    let mut cell = RefCell::new(0);
    let writer = cell.borrow_mut().expect("first exclusive borrow succeeds");
    assert!(cell.borrow_mut().is_none());
    assert!(cell.borrow().is_none());
    cell.release_mut(writer);
    assert!(cell.borrow_mut().is_some());
}

#[test]
fn readers_exclude_writer() {
    let mut cell = RefCell::new(7);
    let r1 = cell.borrow().expect("first shared borrow succeeds");
    let r2 = cell.borrow().expect("second shared borrow succeeds");
    assert_eq!(*cell.read(&r1), 7);
    assert_eq!(*cell.read(&r2), 7);
    assert!(cell.borrow_mut().is_none());
    cell.release(r1);
    assert!(cell.borrow_mut().is_none());
    cell.release(r2);
    assert!(cell.borrow_mut().is_some());
}

#[test]
fn release_keeps_state_consistent_with_guards() {
    let mut cell = RefCell::new(1);
    let r1 = cell.borrow().unwrap();
    let r2 = cell.borrow().unwrap();
    let r3 = cell.borrow().unwrap();
    cell.release(r1);
    // Two read guards remain live, so the exclusive borrow must still fail
    // and further shared borrows must still succeed.
    assert!(cell.borrow_mut().is_none());
    let r4 = cell.borrow().unwrap();
    cell.release(r2);
    cell.release(r3);
    cell.release(r4);
    assert!(cell.borrow_mut().is_some());
}

#[test]
fn write_guard_gives_mutable_access() {
    let mut cell = RefCell::new(0);
    let writer = cell.borrow_mut().unwrap();
    *cell.get_mut(&writer) = 9;
    assert_eq!(*cell.read_mut(&writer), 9);
    cell.release_mut(writer);
    let reader = cell.borrow().unwrap();
    assert_eq!(*cell.read(&reader), 9);
    cell.release(reader);
}

#[test]
fn with_lock_runs_operation_and_releases() {
    let mut mutex = Mutex::new(1u64);
    let previous = mutex.with_lock(|v| (v + 2, v));
    assert_eq!(previous, 1);
    let now = mutex.with_lock(|v| (v, v));
    assert_eq!(now, 3);
}

#[test]
fn mutex_carries_owned_values() {
    let mut mutex = Mutex::new(String::from("a"));
    let old_len = mutex.with_lock(|s: String| {
        let n = s.len();
        (s + "b", n)
    });
    assert_eq!(old_len, 1);
    let text = mutex.with_lock(|s: String| {
        let copy = s.clone();
        (s, copy)
    });
    assert_eq!(text, "ab");
}

#[test]
fn rc_shares_owned_values() {
    let mut heap: RcHeap<String> = RcHeap::new();
    let first = Rc::new(&mut heap, String::from("shared"));
    let second = first.clone(&mut heap);
    assert_eq!(first.deref(&heap), "shared");
    assert_eq!(second.deref(&heap), "shared");
    first.drop(&mut heap);
    assert_eq!(second.deref(&heap), "shared");
    second.drop(&mut heap);
    assert_eq!(heap.live_blocks(), 0);
}

#[test]
fn locked_counter_totals_workers_times_rounds() {
    // Ten workers of a hundred increments each, every increment its own
    // critical section: the count comes out exact.
    let mut counter = Mutex::new(0u64);
    for _ in 0..10 {
        locked_increments(&mut counter, 100);
    }
    assert_eq!(counter.with_lock(|v| (v, v)), 10 * 100);
}
