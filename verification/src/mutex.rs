//! Mutual exclusion around one protected value.
//!
//! [`Mutex::with_lock`] acquires the lock flag, runs a caller-supplied
//! operation on the protected value, writes the result back, and releases
//! the flag, returning whatever the operation produced. A spin lock of this
//! shape serializes free-threaded callers by busy-waiting on a hardware
//! flag; here the `&mut` receiver makes every caller exclusive by
//! construction, and the flag's acquire/run/release cycle is what is
//! verified: the lock is free again after every call, and the value left
//! behind is exactly what the operation returned. Re-acquiring while already
//! held cannot be expressed — the flag is only ever observed free at the
//! start of a call.
//!
//! The operation is handed the value and must return the replacement
//! together with its result; its own `ensures` is what `with_lock` passes on
//! to the caller through `call_ensures`.

use vstd::prelude::*;
use vstd::pervasive::unreached;

verus! {

/// A value protected by a lock flag.
pub struct Mutex<T> {
    slot: Option<T>,
    locked: bool,
}

impl<T> Mutex<T> {
    /// Whether the lock flag is held. It never is between calls.
    pub closed spec fn is_locked(&self) -> bool {
        self.locked
    }

    /// The protected value.
    pub closed spec fn contents(&self) -> T {
        self.slot->0
    }

    /// At rest the lock is free and the slot holds the value.
    pub closed spec fn inv(&self) -> bool {
        !self.locked && self.slot is Some
    }

    /// Stores `value` with the flag unlocked.
    pub fn new(value: T) -> (mutex: Mutex<T>)
        ensures
            mutex.inv(),
            mutex.contents() == value,
    {
        Mutex { slot: Some(value), locked: false }
    }

    /// Acquires the lock, applies `operation` to the protected value, stores
    /// the value it returns, releases the lock, and hands the caller the
    /// operation's result.
    pub fn with_lock<R, F: FnOnce(T) -> (T, R)>(&mut self, operation: F) -> (result: R)
        requires
            old(self).inv(),
            call_requires(operation, (old(self).contents(),)),
        ensures
            final(self).inv(),
            call_ensures(operation, (old(self).contents(),), (final(self).contents(), result)),
    {
        self.locked = true;
        match self.slot.take() {
            Some(value) => {
                let (value, result) = operation(value);
                self.slot = Some(value);
                self.locked = false;
                result
            },
            None => unreached(),
        }
    }
}

/// Adds one to a lock-protected counter, `rounds` times, each increment its
/// own critical section. Because every increment runs under the lock, the
/// final count is exactly the starting count plus the number of increments,
/// however the critical sections are ordered.
pub fn locked_increments(counter: &mut Mutex<u64>, rounds: u64)
    requires
        old(counter).inv(),
        old(counter).contents() + rounds <= u64::MAX,
    ensures
        final(counter).inv(),
        final(counter).contents() == old(counter).contents() + rounds,
{
    let mut done: u64 = 0;
    while done < rounds
        invariant
            counter.inv(),
            done <= rounds,
            counter.contents() == old(counter).contents() + done,
            old(counter).contents() + rounds <= u64::MAX,
        decreases rounds - done,
    {
        let bump = |value: u64| -> (out: (u64, ()))
            requires
                value < u64::MAX,
            ensures
                out.0 == value + 1,
            { (value + 1, ()) };
        counter.with_lock(bump);
        done = done + 1;
    }
}

} // verus!
