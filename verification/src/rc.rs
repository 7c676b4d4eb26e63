//! Shared ownership through manual reference counting.
//!
//! An [`Rc`] handle names a block that lives in an [`RcHeap`]: the arena that
//! stands in for the raw heap, so that every count update and the final
//! deallocation are plain, verifiable operations. A block holds the shared
//! value together with its reference count (kept in a [`Cell`], the
//! single-owner slot). The count is touched by exactly three operations:
//! [`Rc::new`] starts a block at one, [`Rc::clone`] adds one, and
//! [`Rc::drop`] subtracts one — freeing the block precisely when the dropped
//! handle was the last one. Handles are neither `Copy` nor `Clone` as Rust
//! traits, so the number of live handles for a block can only change through
//! those three operations, and it always equals the block's count.
//!
//! A freed slot is never reused, so a stale index can never denote a newer
//! block. All operations demand a handle that is valid for the heap passed
//! in; the heap is single-threaded by construction (`&mut` access).

use vstd::prelude::*;
use vstd::pervasive::unreached;
use crate::cell::Cell;

verus! {

struct RcBlock<T> {
    value: T,
    refcount: Cell<usize>,
}

/// The arena that owns every reference-counted block.
pub struct RcHeap<T> {
    blocks: Vec<Option<RcBlock<T>>>,
}

/// A shared-ownership handle to one block of an [`RcHeap`].
pub struct Rc<T> {
    index: usize,
    marker: core::marker::PhantomData<T>,
}

impl<T> RcHeap<T> {
    /// How many block slots the heap has ever allocated, freed ones included.
    pub closed spec fn len(&self) -> nat {
        self.blocks@.len()
    }

    /// Whether slot `i` holds a block that has not been deallocated.
    pub closed spec fn is_live(&self, i: int) -> bool {
        0 <= i < self.blocks@.len() && self.blocks@[i] is Some
    }

    /// The shared value stored in the live block at slot `i`.
    pub closed spec fn value_at(&self, i: int) -> T {
        self.blocks@[i]->0.value
    }

    /// The reference count of the live block at slot `i`.
    pub closed spec fn count_at(&self, i: int) -> nat {
        self.blocks@[i]->0.refcount@ as nat
    }

    /// Every live block is held by at least one handle.
    pub open spec fn wf(&self) -> bool {
        forall|i: int| #[trigger] self.is_live(i) ==> self.count_at(i) >= 1
    }

    /// Slot `i` reads the same in `other` as in `self`: same liveness and,
    /// when live, same value and same count.
    pub open spec fn same_block(&self, other: &RcHeap<T>, i: int) -> bool {
        &&& other.is_live(i) == self.is_live(i)
        &&& self.is_live(i) ==> other.value_at(i) == self.value_at(i)
            && other.count_at(i) == self.count_at(i)
    }

    spec fn live_in_prefix(s: Seq<Option<RcBlock<T>>>, n: int) -> nat
        decreases n,
    {
        if n <= 0 {
            0
        } else {
            Self::live_in_prefix(s, n - 1) + (if s[n - 1] is Some {
                1nat
            } else {
                0nat
            })
        }
    }

    /// How many blocks are currently live.
    pub closed spec fn live_count(&self) -> nat {
        Self::live_in_prefix(self.blocks@, self.blocks@.len() as int)
    }

    proof fn lemma_live_prefix_update(s: Seq<Option<RcBlock<T>>>, i: int, x: Option<RcBlock<T>>, n: int)
        requires
            0 <= i < s.len(),
            n <= s.len(),
        ensures
            Self::live_in_prefix(s.update(i, x), n) == Self::live_in_prefix(s, n) + (if i < n {
                (if x is Some {
                    1int
                } else {
                    0int
                }) - (if s[i] is Some {
                    1int
                } else {
                    0int
                })
            } else {
                0int
            }),
        decreases n,
    {
        if n > 0 {
            Self::lemma_live_prefix_update(s, i, x, n - 1);
        }
    }

    proof fn lemma_live_prefix_push(s: Seq<Option<RcBlock<T>>>, x: Option<RcBlock<T>>, n: int)
        requires
            0 <= n <= s.len(),
        ensures
            Self::live_in_prefix(s.push(x), n) == Self::live_in_prefix(s, n),
        decreases n,
    {
        if n > 0 {
            Self::lemma_live_prefix_push(s, x, n - 1);
        }
    }

    /// An empty heap: no blocks, nothing live.
    pub fn new() -> (heap: RcHeap<T>)
        ensures
            heap.wf(),
            heap.len() == 0,
            heap.live_count() == 0,
    {
        RcHeap { blocks: Vec::new() }
    }

    /// Counts the live blocks.
    pub fn live_blocks(&self) -> (n: usize)
        ensures
            n == self.live_count(),
    {
        let mut n: usize = 0;
        let mut i: usize = 0;
        while i < self.blocks.len()
            invariant
                i <= self.blocks@.len(),
                n <= i,
                n == Self::live_in_prefix(self.blocks@, i as int),
            decreases self.blocks@.len() - i,
        {
            if self.blocks[i].is_some() {
                n = n + 1;
            }
            i = i + 1;
        }
        n
    }

    /// The reference count of the block that `handle` names.
    pub fn strong_count(&self, handle: &Rc<T>) -> (count: usize)
        requires
            handle.valid(self),
        ensures
            count == self.count_at(handle.id()),
    {
        match &self.blocks[handle.index] {
            Some(block) => block.refcount.get(),
            None => unreached(),
        }
    }

    fn set_count(&mut self, i: usize, count: usize)
        requires
            old(self).is_live(i as int),
            count >= 1,
        ensures
            final(self).len() == old(self).len(),
            final(self).is_live(i as int),
            final(self).count_at(i as int) == count,
            final(self).value_at(i as int) == old(self).value_at(i as int),
            forall|k: int|
                0 <= k < old(self).len() && k != i ==> #[trigger] old(self).same_block(
                    final(self),
                    k,
                ),
            final(self).live_count() == old(self).live_count(),
    {
        match &mut self.blocks[i] {
            Some(block) => block.refcount.set(count),
            None => unreached(),
        }
        proof {
            assert(self.blocks@ =~= old(self).blocks@.update(i as int, self.blocks@[i as int]));
            Self::lemma_live_prefix_update(
                old(self).blocks@,
                i as int,
                self.blocks@[i as int],
                old(self).blocks@.len() as int,
            );
        }
    }

    fn free_block(&mut self, i: usize)
        requires
            old(self).is_live(i as int),
        ensures
            final(self).len() == old(self).len(),
            !final(self).is_live(i as int),
            forall|k: int|
                0 <= k < old(self).len() && k != i ==> #[trigger] old(self).same_block(
                    final(self),
                    k,
                ),
            final(self).live_count() == old(self).live_count() - 1,
    {
        self.blocks[i] = None;
        proof {
            assert(self.blocks@ =~= old(self).blocks@.update(i as int, None));
            Self::lemma_live_prefix_update(
                old(self).blocks@,
                i as int,
                None,
                old(self).blocks@.len() as int,
            );
        }
    }
}

impl<T> Rc<T> {
    /// The slot this handle names.
    pub closed spec fn id(&self) -> int {
        self.index as int
    }

    /// Whether the handle names a live block of `heap`.
    pub open spec fn valid(&self, heap: &RcHeap<T>) -> bool {
        heap.is_live(self.id())
    }

    /// Allocates a fresh block holding `value` with a count of one and
    /// returns its first handle.
    pub fn new(heap: &mut RcHeap<T>, value: T) -> (handle: Rc<T>)
        requires
            old(heap).wf(),
        ensures
            final(heap).wf(),
            handle.id() == old(heap).len(),
            handle.valid(final(heap)),
            final(heap).len() == old(heap).len() + 1,
            final(heap).count_at(handle.id()) == 1,
            final(heap).value_at(handle.id()) == value,
            final(heap).live_count() == old(heap).live_count() + 1,
            forall|k: int|
                0 <= k < old(heap).len() ==> #[trigger] old(heap).same_block(final(heap), k),
    {
        let index = heap.blocks.len();
        heap.blocks.push(Some(RcBlock { value, refcount: Cell::new(1) }));
        proof {
            RcHeap::<T>::lemma_live_prefix_push(
                old(heap).blocks@,
                heap.blocks@[index as int],
                old(heap).blocks@.len() as int,
            );
            assert forall|j: int| #[trigger] heap.is_live(j) implies heap.count_at(j) >= 1 by {
                if j != index as int {
                    assert(old(heap).is_live(j) ==> old(heap).count_at(j) >= 1);
                }
            }
        }
        Rc { index, marker: core::marker::PhantomData }
    }

    /// Reads the shared value: shared ownership never hands out `&mut`.
    pub fn deref<'a>(&self, heap: &'a RcHeap<T>) -> (value: &'a T)
        requires
            self.valid(heap),
        ensures
            *value == heap.value_at(self.id()),
    {
        match &heap.blocks[self.index] {
            Some(block) => &block.value,
            None => unreached(),
        }
    }

    /// Reads the current count, adds one, writes it back, and returns a new
    /// handle aliasing the same block.
    pub fn clone(&self, heap: &mut RcHeap<T>) -> (handle: Rc<T>)
        requires
            old(heap).wf(),
            self.valid(old(heap)),
            old(heap).count_at(self.id()) < usize::MAX,
        ensures
            final(heap).wf(),
            handle.id() == self.id(),
            handle.valid(final(heap)),
            self.valid(final(heap)),
            final(heap).len() == old(heap).len(),
            final(heap).count_at(self.id()) == old(heap).count_at(self.id()) + 1,
            final(heap).value_at(self.id()) == old(heap).value_at(self.id()),
            final(heap).live_count() == old(heap).live_count(),
            forall|k: int|
                0 <= k < old(heap).len() && k != self.id() ==> #[trigger] old(heap).same_block(
                    final(heap),
                    k,
                ),
    {
        let count = heap.strong_count(self);
        heap.set_count(self.index, count + 1);
        proof {
            assert forall|j: int| #[trigger] heap.is_live(j) implies heap.count_at(j) >= 1 by {
                if j != self.id() && 0 <= j < old(heap).len() {
                    assert(old(heap).same_block(heap, j));
                }
            }
        }
        Rc { index: self.index, marker: core::marker::PhantomData }
    }

    /// Retires this handle. If it was the last one — the count reads one —
    /// the block is deallocated; otherwise the count drops by one and the
    /// block stays live.
    pub fn drop(self, heap: &mut RcHeap<T>)
        requires
            old(heap).wf(),
            self.valid(old(heap)),
        ensures
            final(heap).wf(),
            final(heap).len() == old(heap).len(),
            old(heap).count_at(self.id()) == 1 ==> !final(heap).is_live(self.id())
                && final(heap).live_count() == old(heap).live_count() - 1,
            old(heap).count_at(self.id()) > 1 ==> final(heap).is_live(self.id())
                && final(heap).count_at(self.id()) == old(heap).count_at(self.id()) - 1
                && final(heap).value_at(self.id()) == old(heap).value_at(self.id())
                && final(heap).live_count() == old(heap).live_count(),
            forall|k: int|
                0 <= k < old(heap).len() && k != self.id() ==> #[trigger] old(heap).same_block(
                    final(heap),
                    k,
                ),
    {
        let count = heap.strong_count(&self);
        if count == 1 {
            heap.free_block(self.index);
        } else {
            heap.set_count(self.index, count - 1);
        }
        proof {
            assert forall|j: int| #[trigger] heap.is_live(j) implies heap.count_at(j) >= 1 by {
                if j != self.id() && 0 <= j < old(heap).len() {
                    assert(old(heap).same_block(heap, j));
                }
            }
        }
    }
}

/// One operation performed on a block's handle set after `Rc::new`.
pub enum RcEvent {
    Clone,
    Drop,
}

/// How many handles of one block are live after `events`, starting from the
/// single handle that `Rc::new` returned. A clone adds a handle, a drop
/// retires one — exactly how the block's reference count moves.
pub open spec fn handles_after(events: Seq<RcEvent>) -> int
    decreases events.len(),
{
    if events.len() == 0 {
        1
    } else {
        handles_after(events.drop_last()) + (if events.last() is Clone {
            1int
        } else {
            -1int
        })
    }
}

/// Every event goes through a live handle: before each event at least one
/// handle is outstanding.
pub open spec fn admissible(events: Seq<RcEvent>) -> bool {
    forall|k: int| 0 <= k < events.len() ==> handles_after(#[trigger] events.take(k)) >= 1
}

/// Law: over any admissible sequence of clones and drops, the number of live
/// handles reaches zero at most once, and only as the final event; when it
/// does, that event is the drop of the sole remaining handle. The block is
/// therefore deallocated exactly once, exactly when the last outstanding
/// handle is dropped.
pub proof fn lemma_dealloc_exactly_at_last_drop(events: Seq<RcEvent>)
    requires
        admissible(events),
    ensures
        forall|k: int|
            0 <= k <= events.len() && handles_after(#[trigger] events.take(k)) == 0 ==> k
                == events.len(),
        handles_after(events) == 0 ==> events.len() > 0 && events.last() is Drop && handles_after(
            events.drop_last(),
        ) == 1,
{
    assert(events.take(events.len() as int) =~= events);
    if handles_after(events) == 0 {
        assert(events.len() > 0);
        assert(events.take(events.len() - 1) =~= events.drop_last());
    }
}

} // verus!
