//! Tests for the boxed-value and sorting demos, the vector helpers, and a
//! few closure exercises.

use pointers::boks::Boks;
use pointers::sort::BubbleSorter;
use pointers::vecs::{filled, EmptyIterator};

fn call_fn_pointer(f: fn()) {
    f()
}

fn call_fn_mut<F: FnMut()>(mut f: F) {
    f()
}

fn call_fn_once<F: FnOnce()>(f: F) {
    f()
}

fn nothing() {}

#[test]
fn playground2() {
    // A closure that captures nothing coerces to a plain `fn` pointer.
    let s = String::new();
    drop(s);
    call_fn_pointer(nothing);
}

#[test]
fn playground3() {
    let mut s = String::new();
    let f = || s.clear();
    call_fn_mut(f);
}

#[test]
fn playground4() {
    let s = String::new();
    let f = || drop(s);
    call_fn_once(f);
}

#[test]
fn dropck_gogo() {
    let x = 2;
    let b = Boks::new(x);
    println!("{:?}", *b.get());
    let mut b = b;
    *b.get_mut() = 3;
    assert_eq!(b.into_inner(), 3);
}

#[test]
fn empty_iterator_stays_empty() {
    let mut it: EmptyIterator<u32> = EmptyIterator::new();
    assert_eq!(it.next(), None);
    assert_eq!(it.next(), None);
}

#[test]
fn bubble_it_works() {
    let mut things = vec![4, 2, 3, 1];
    BubbleSorter::sort(&mut things);
    assert_eq!(things, &[1, 2, 3, 4]);
}

#[test]
fn bubble_handles_empty_and_sorted_input() {
    let mut empty: Vec<u64> = vec![];
    BubbleSorter::sort(&mut empty);
    assert!(empty.is_empty());

    let mut sorted = vec![1, 1, 2, 3];
    BubbleSorter::sort(&mut sorted);
    assert_eq!(sorted, &[1, 1, 2, 3]);

    let mut reversed = vec![9, 7, 7, 3, 0];
    BubbleSorter::sort(&mut reversed);
    assert_eq!(reversed, &[0, 3, 7, 7, 9]);
}

#[test]
fn filled_zero_is_empty() {
    let v: Vec<u8> = filled(1, 0);
    assert!(v.is_empty());
}

#[test]
fn empty_vec() {
    let v: Vec<u32> = vec![];
    assert!(v.is_empty())
}

#[test]
fn single_element() {
    let v: Vec<u32> = vec![2];
    assert_eq!(v.len(), 1);
    assert_eq!(v[0], 2);
}

#[test]
fn multi_elements() {
    let v: Vec<u32> = vec![2, 4];
    assert_eq!(v.len(), 2);
    assert_eq!(v[0], 2);
    assert_eq!(v[1], 4);
}

#[test]
fn clone_2() {
    let v: Vec<u32> = filled(0, 2);
    assert_eq!(v.len(), 2);
    assert_eq!(v[0], 0);
    assert_eq!(v[1], 0);
}

#[test]
fn clone_2_nonliteral() {
    let mut y = Some(0);
    let v: Vec<u32> = filled(y.take().unwrap(), 2);
    assert_eq!(v.len(), 2);
    assert_eq!(v[0], 0);
    assert_eq!(v[1], 0);
}
