//! Runtime-checked shared/exclusive access with guard objects.
//!
//! A [`RefCell`] owns one value plus a state flag with three variants:
//! [`RefCellState::Unshared`], [`RefCellState::Shared`] — carrying the number
//! of live read guards — and [`RefCellState::Exclusive`]. A conflicting
//! request is not an error: [`RefCell::borrow`] and [`RefCell::borrow_mut`]
//! signal "currently unavailable" by returning `None`, and the caller may
//! retry or branch.
//!
//! Guards ([`Ref`], [`RefMut`]) are created only by `borrow`/`borrow_mut`
//! and destroyed exactly once, by handing them back to [`RefCell::release`]
//! or [`RefCell::release_mut`]; their only field is private, so they cannot
//! be forged. The state flag lives in a [`Cell`], the single-owner slot, and
//! moves only along the documented transitions, so it always matches the
//! guards outstanding.

use vstd::prelude::*;
use vstd::pervasive::unreached;
use crate::cell::Cell;

verus! {

/// The borrow state of a [`RefCell`]: how many guards are outstanding.
#[derive(Clone, Copy)]
pub enum RefCellState {
    /// No guard is live.
    Unshared,
    /// The carried number of read guards ([`Ref`]) are live; always at least
    /// one.
    Shared(usize),
    /// Exactly one write guard ([`RefMut`]) is live.
    Exclusive,
}

impl RefCellState {
    /// How many read guards this state says are live.
    pub open spec fn read_guards(self) -> nat {
        match self {
            RefCellState::Shared(n) => n as nat,
            _ => 0,
        }
    }

    /// How many write guards this state says are live.
    pub open spec fn write_guards(self) -> nat {
        match self {
            RefCellState::Exclusive => 1,
            _ => 0,
        }
    }

    /// A `Shared` state counts at least one read guard.
    pub open spec fn wf(self) -> bool {
        self is Shared ==> self.read_guards() >= 1
    }
}

/// Where a successful `borrow` moves the state.
pub open spec fn borrow_step(s: RefCellState) -> RefCellState {
    match s {
        RefCellState::Unshared => RefCellState::Shared(1),
        RefCellState::Shared(n) => RefCellState::Shared((n + 1) as usize),
        RefCellState::Exclusive => s,
    }
}

/// Where destroying a read guard moves the state.
pub open spec fn release_step(s: RefCellState) -> RefCellState {
    match s {
        RefCellState::Shared(n) => if n == 1 {
            RefCellState::Unshared
        } else {
            RefCellState::Shared((n - 1) as usize)
        },
        _ => s,
    }
}

/// Where destroying the write guard moves the state.
pub open spec fn release_mut_step(s: RefCellState) -> RefCellState {
    match s {
        RefCellState::Exclusive => RefCellState::Unshared,
        _ => s,
    }
}

/// A read guard: witnesses one shared borrow of a [`RefCell`].
pub struct Ref {
    issued: (),
}

/// A write guard: witnesses the exclusive borrow of a [`RefCell`].
pub struct RefMut {
    issued: (),
}

/// A value with dynamically tracked shared/exclusive borrows.
pub struct RefCell<T> {
    value: T,
    state: Cell<RefCellState>,
}

impl<T> RefCell<T> {
    /// The current borrow state.
    pub closed spec fn state(&self) -> RefCellState {
        self.state@
    }

    /// The owned value.
    pub closed spec fn contents(&self) -> T {
        self.value
    }

    pub open spec fn wf(&self) -> bool {
        self.state().wf()
    }

    /// Stores `value` with no borrows outstanding.
    pub fn new(value: T) -> (cell: RefCell<T>)
        ensures
            cell.wf(),
            cell.state() is Unshared,
            cell.contents() == value,
    {
        RefCell { value, state: Cell::new(RefCellState::Unshared) }
    }

    /// Requests a shared borrow. Fails — returns `None`, leaving the state
    /// untouched — exactly when a write guard is live; otherwise one more
    /// read guard is counted and returned.
    pub fn borrow(&mut self) -> (guard: Option<Ref>)
        requires
            old(self).wf(),
            old(self).state().read_guards() < usize::MAX,
        ensures
            final(self).wf(),
            final(self).contents() == old(self).contents(),
            guard is Some <==> !(old(self).state() is Exclusive),
            guard is Some ==> final(self).state() == borrow_step(old(self).state()),
            guard is None ==> final(self).state() == old(self).state(),
    {
        match self.state.get() {
            RefCellState::Unshared => {
                self.state.set(RefCellState::Shared(1));
                Some(Ref { issued: () })
            },
            RefCellState::Shared(n) => {
                self.state.set(RefCellState::Shared(n + 1));
                Some(Ref { issued: () })
            },
            RefCellState::Exclusive => None,
        }
    }

    /// Requests the exclusive borrow. Succeeds exactly when no guard of
    /// either kind is live; on failure the state is untouched.
    pub fn borrow_mut(&mut self) -> (guard: Option<RefMut>)
        requires
            old(self).wf(),
        ensures
            final(self).wf(),
            final(self).contents() == old(self).contents(),
            guard is Some <==> old(self).state() is Unshared,
            guard is Some ==> final(self).state() is Exclusive,
            guard is None ==> final(self).state() == old(self).state(),
    {
        match self.state.get() {
            RefCellState::Unshared => {
                self.state.set(RefCellState::Exclusive);
                Some(RefMut { issued: () })
            },
            _ => None,
        }
    }

    /// Reads the value through a read guard.
    pub fn read(&self, guard: &Ref) -> (value: &T)
        requires
            self.state() is Shared,
        ensures
            *value == self.contents(),
    {
        &self.value
    }

    /// Reads the value through the write guard.
    pub fn read_mut(&self, guard: &RefMut) -> (value: &T)
        requires
            self.state() is Exclusive,
        ensures
            *value == self.contents(),
    {
        &self.value
    }

    /// Mutable access to the value through the write guard; the borrow state
    /// itself stays `Exclusive`.
    pub fn get_mut<'a>(&'a mut self, guard: &RefMut) -> (value: &'a mut T)
        requires
            old(self).state() is Exclusive,
        ensures
            *value == old(self).contents(),
            final(self).contents() == *final(value),
            final(self).state() == old(self).state(),
    {
        &mut self.value
    }

    /// Destroys a read guard: one fewer read guard is counted, reaching
    /// `Unshared` when it was the last.
    pub fn release(&mut self, guard: Ref)
        requires
            old(self).wf(),
            old(self).state() is Shared,
        ensures
            final(self).wf(),
            final(self).contents() == old(self).contents(),
            final(self).state() == release_step(old(self).state()),
    {
        match self.state.get() {
            RefCellState::Shared(n) => {
                if n == 1 {
                    self.state.set(RefCellState::Unshared);
                } else {
                    self.state.set(RefCellState::Shared(n - 1));
                }
            },
            _ => unreached(),
        }
    }

    /// Destroys the write guard, returning the cell to `Unshared`.
    pub fn release_mut(&mut self, guard: RefMut)
        requires
            old(self).wf(),
            old(self).state() is Exclusive,
        ensures
            final(self).wf(),
            final(self).contents() == old(self).contents(),
            final(self).state() == release_mut_step(old(self).state()),
    {
        match self.state.get() {
            RefCellState::Exclusive => {
                self.state.set(RefCellState::Unshared);
            },
            _ => unreached(),
        }
    }
}

/// One request made of a cell: the two borrows, which may be refused, and
/// the two guard destructions.
pub enum CellOp {
    Borrow,
    BorrowMut,
    Release,
    ReleaseMut,
}

/// The state after one operation. A refused borrow leaves the state alone,
/// exactly as [`RefCell::borrow`] and [`RefCell::borrow_mut`] do.
pub open spec fn step(s: RefCellState, op: CellOp) -> RefCellState {
    match op {
        CellOp::Borrow => borrow_step(s),
        CellOp::BorrowMut => if s is Unshared {
            RefCellState::Exclusive
        } else {
            s
        },
        CellOp::Release => release_step(s),
        CellOp::ReleaseMut => release_mut_step(s),
    }
}

/// What an operation needs of the state it meets: a guard can only be
/// destroyed while the state counts it — guards are destroyed exactly once
/// and never forged — and the read-guard count stays within the machine.
pub open spec fn step_allowed(s: RefCellState, op: CellOp) -> bool {
    match op {
        CellOp::Borrow => s.read_guards() < usize::MAX,
        CellOp::BorrowMut => true,
        CellOp::Release => s is Shared,
        CellOp::ReleaseMut => s is Exclusive,
    }
}

/// The state a fresh cell reaches after a whole sequence of operations.
pub open spec fn run(s: RefCellState, ops: Seq<CellOp>) -> RefCellState
    decreases ops.len(),
{
    if ops.len() == 0 {
        s
    } else {
        step(run(s, ops.drop_last()), ops.last())
    }
}

/// Every operation in the sequence is allowed in the state it meets.
pub open spec fn trace_admissible(s: RefCellState, ops: Seq<CellOp>) -> bool {
    forall|k: int|
        0 <= k < ops.len() ==> step_allowed(run(s, #[trigger] ops.take(k)), ops[k])
}

proof fn lemma_step_preserves_wf(s: RefCellState, op: CellOp)
    requires
        s.wf(),
        step_allowed(s, op),
    ensures
        step(s, op).wf(),
{
}

/// Law (interleavings): over every admissible interleaving of borrows and
/// guard destructions, starting from a fresh cell, every intermediate state
/// is well-formed — so at every observation point at most one write guard,
/// or any number of read guards, is live.
pub proof fn lemma_trace_exclusion(ops: Seq<CellOp>)
    requires
        trace_admissible(RefCellState::Unshared, ops),
    ensures
        forall|k: int|
            0 <= k <= ops.len() ==> run(RefCellState::Unshared, #[trigger] ops.take(k)).wf(),
    decreases ops.len(),
{
    let start = RefCellState::Unshared;
    if ops.len() == 0 {
        assert forall|k: int| 0 <= k <= ops.len() implies run(start, #[trigger] ops.take(k)).wf() by {
            assert(ops.take(k) =~= ops);
        }
    } else {
        let shorter = ops.drop_last();
        assert forall|k: int|
            0 <= k < shorter.len() implies step_allowed(
            run(start, #[trigger] shorter.take(k)),
            shorter[k],
        ) by {
            assert(shorter.take(k) =~= ops.take(k));
        }
        lemma_trace_exclusion(shorter);
        assert forall|k: int| 0 <= k <= ops.len() implies run(start, #[trigger] ops.take(k)).wf() by {
            if k < ops.len() {
                assert(ops.take(k) =~= shorter.take(k));
            } else {
                assert(ops.take(k) =~= ops);
                assert(ops.take(ops.len() - 1) =~= shorter);
                lemma_step_preserves_wf(run(start, shorter), ops.last());
            }
        }
    }
}

/// Law (exclusion): in every well-formed state at most one write guard is
/// live, and never together with a read guard — so at any moment a cell has
/// either one write guard or only read guards.
pub proof fn lemma_guard_exclusion(s: RefCellState)
    requires
        s.wf(),
    ensures
        s.write_guards() <= 1,
        s.write_guards() == 1 ==> s.read_guards() == 0,
        s.read_guards() >= 1 ==> s.write_guards() == 0,
{
}

/// Law (release consistency): destroying a guard always returns the cell to
/// the state matching the guards that remain — one fewer read guard, or no
/// write guard — and well-formedness is preserved.
pub proof fn lemma_release_consistent(s: RefCellState)
    requires
        s.wf(),
    ensures
        s is Shared ==> release_step(s).wf() && release_step(s).read_guards() == s.read_guards()
            - 1 && release_step(s).write_guards() == 0,
        s is Exclusive ==> release_mut_step(s).wf() && release_mut_step(s).read_guards() == 0
            && release_mut_step(s).write_guards() == s.write_guards() - 1,
{
}

} // verus!
