//! Hand-built ownership and synchronization primitives, verified.
//!
//! The crate provides four primitives, each usable on its own:
//!
//! - [`cell::Cell`]: a single-owner mutable slot;
//! - [`rc::Rc`]: shared-ownership handles over reference-counted blocks,
//!   backed by an arena ([`rc::RcHeap`]) so that every count update and the
//!   final deallocation are verified;
//! - [`ref_cell::RefCell`]: dynamically-checked shared/exclusive access with
//!   guard objects;
//! - [`mutex::Mutex`]: a lock whose critical section runs a caller-supplied
//!   operation on the protected value.
//!
//! Three smaller pieces round the crate out: an owned heap box
//! ([`boks::Boks`]), a verified bubble sort ([`sort::BubbleSorter`]), and
//! vector helpers ([`vecs`]).

pub mod cell;
pub mod rc;
pub mod ref_cell;
pub mod mutex;
pub mod sort;
pub mod vecs;
pub mod boks;
