//! The bounded single-producer/single-consumer fifo underlying each
//! direction of a channel.

use vstd::arithmetic::div_mod::{lemma_mod_self_0, lemma_small_mod};
use vstd::prelude::*;

verus! {

/// One step around the ring: `(index + 1) % size`, kept inside `[0, size)`.
pub open spec fn spec_advance(index: int, size: int) -> int {
    if index + 1 == size {
        0
    } else {
        index + 1
    }
}

/// Advances a ring index by one slot, wrapping at `size`.
pub fn advance_index(index: usize, size: usize) -> (advanced: usize)
    requires
        index < size,
    ensures
        advanced == spec_advance(index as int, size as int),
{
    proof {
        if index + 1 == size {
            lemma_mod_self_0(size as int);
        } else {
            lemma_small_mod((index + 1) as nat, size as nat);
        }
    }
    (index + 1) % size
}

/// Control metadata recorded beside the indices for the far end of the
/// channel, which reads the element size and slot count directly rather
/// than through any typed interface.
pub struct Meta {
    _elem_size: u32,
    capacity: u32,
}

/// Bounded single-producer/single-consumer fifo.
///
/// `capacity` usable slots are backed by `capacity + 1` stored slots: the one
/// spare slot is a sentinel that never holds a live element, so that
/// `head == tail` means empty and an advanced `tail` meeting `head` means
/// full, as a pure function of the two indices with no separate counter.
/// `head` is the next slot to consume and is moved only by popping; `tail`
/// is the next slot to fill and is moved only by pushing.
pub struct CohortFifo<T: Copy> {
    head: usize,
    meta: Meta,
    tail: usize,
    slots: Vec<Option<T>>,
}

impl<T: Copy> CohortFifo<T> {
    /// Number of usable slots.
    pub closed spec fn spec_capacity(&self) -> nat {
        self.meta.capacity as nat
    }

    /// Number of stored slots: one more than the capacity, for the sentinel.
    pub closed spec fn spec_buffer_size(&self) -> nat {
        self.meta.capacity as nat + 1
    }

    /// Number of live elements, a function of the two indices alone.
    pub closed spec fn spec_len(&self) -> nat {
        if self.head <= self.tail {
            (self.tail - self.head) as nat
        } else {
            ((self.tail + self.spec_buffer_size()) - self.head) as nat
        }
    }

    /// Slot of the `i`-th live element, counting from the head.
    pub closed spec fn slot_of(&self, i: int) -> int {
        if self.head + i < self.spec_buffer_size() {
            self.head + i
        } else {
            self.head + i - self.spec_buffer_size()
        }
    }

    /// Contents of the slot holding the `i`-th live element.
    pub closed spec fn live_slot(&self, i: int) -> Option<T> {
        self.slots@[self.slot_of(i)]
    }

    /// Structural invariant: the indices stay inside the stored slots, the
    /// slot count matches the recorded capacity, and every live slot holds
    /// a value.
    pub closed spec fn well_formed(&self) -> bool {
        &&& self.meta.capacity < u32::MAX
        &&& self.slots@.len() == self.spec_buffer_size()
        &&& self.head < self.spec_buffer_size()
        &&& self.tail < self.spec_buffer_size()
        &&& forall|i: int| 0 <= i < self.spec_len() ==> (#[trigger] self.live_slot(i)) is Some
    }

    /// Creates an empty fifo with `capacity` usable slots.
    ///
    /// The capacity is fixed for the fifo's lifetime, and must leave the
    /// slot count representable in the recorded 32-bit metadata.
    pub fn new(capacity: usize) -> (fifo: Self)
        requires
            1 <= capacity,
            capacity + 1 <= u32::MAX,
        ensures
            fifo.well_formed(),
            fifo.spec_capacity() == capacity,
            fifo@ == Seq::<T>::empty(),
    {
        let buffer_size = capacity + 1;
        let mut slots: Vec<Option<T>> = Vec::new();
        let mut i: usize = 0;
        while i < buffer_size
            invariant
                i <= buffer_size,
                slots@.len() == i,
            decreases buffer_size - i,
        {
            slots.push(None);
            i = i + 1;
        }
        let fifo = CohortFifo {
            head: 0,
            meta: Meta {
                _elem_size: #[verifier::truncate] (core::mem::size_of::<T>() as u32),
                capacity: capacity as u32,
            },
            tail: 0,
            slots,
        };
        proof {
            assert(fifo@ =~= Seq::<T>::empty());
        }
        fifo
    }

    /// Usable slot count.
    pub fn capacity(&self) -> (capacity: usize)
        ensures
            capacity == self.spec_capacity(),
    {
        self.meta.capacity as usize
    }

    /// True size of the underlying slot array: always one more than the
    /// capacity, the extra slot being the full/empty sentinel.
    fn buffer_size(&self) -> (size: usize)
        requires
            self.well_formed(),
        ensures
            size == self.spec_buffer_size(),
    {
        self.meta.capacity as usize + 1
    }

    /// True exactly when no live element is present.
    pub fn is_empty(&self) -> (empty: bool)
        requires
            self.well_formed(),
        ensures
            empty == (self@.len() == 0),
    {
        self.head == self.tail
    }

    /// Pushes `elem` unless the fifo is full.
    ///
    /// A rejected element comes back unchanged and the fifo is left exactly
    /// as it was; an accepted element becomes the last of the live contents,
    /// so consecutive pushes are observed by the consuming end in the order
    /// they were made.
    pub fn try_push(&mut self, elem: T) -> (result: Result<(), T>)
        requires
            old(self).well_formed(),
        ensures
            final(self).well_formed(),
            final(self).spec_capacity() == old(self).spec_capacity(),
            old(self)@.len() < old(self).spec_capacity() ==> result == Ok::<(), T>(())
                && final(self)@ == old(self)@.push(elem),
            old(self)@.len() >= old(self).spec_capacity() ==> result == Err::<(), T>(elem)
                && *final(self) == *old(self),
    {
        if self.is_full() {
            return Err(elem);
        }

        let tail = self.tail;
        let size = self.buffer_size();
        self.slots.set(tail, Some(elem));
        self.tail = advance_index(tail, size);

        proof {
            let prev = *old(self);
            assert forall|i: int| 0 <= i < prev.spec_len() implies prev.slot_of(i)
                != prev.tail by {}
            assert(self.spec_len() == prev.spec_len() + 1);
            assert forall|i: int| 0 <= i < self.spec_len() implies (#[trigger] self.live_slot(
                i,
            )) is Some by {
                if i < prev.spec_len() {
                    assert(prev.live_slot(i) is Some);
                }
            }
            assert(self@ =~= prev@.push(elem));
        }
        Ok(())
    }

    /// Pops the element at the head unless the fifo is empty.
    ///
    /// On an empty fifo nothing changes and the failure is reported;
    /// otherwise the oldest live element is removed and returned.
    pub fn try_pop(&mut self) -> (result: Result<T, ()>)
        requires
            old(self).well_formed(),
        ensures
            final(self).well_formed(),
            final(self).spec_capacity() == old(self).spec_capacity(),
            old(self)@.len() == 0 ==> result == Err::<T, ()>(()) && *final(self) == *old(self),
            old(self)@.len() > 0 ==> result == Ok::<T, ()>(old(self)@[0]) && final(self)@ == old(
                self,
            )@.skip(1),
    {
        if self.is_empty() {
            return Err(());
        }

        let head = self.head;
        proof {
            assert(old(self).live_slot(0) is Some);
            assert(old(self).slot_of(0) == head);
        }
        let elem = self.slots[head].unwrap();
        let size = self.buffer_size();
        self.head = advance_index(head, size);

        proof {
            let prev = *old(self);
            assert(self.spec_len() == prev.spec_len() - 1);
            assert forall|i: int| 0 <= i < self.spec_len() implies self.slot_of(i) == prev.slot_of(
                i + 1,
            ) by {}
            assert forall|i: int| 0 <= i < self.spec_len() implies (#[trigger] self.live_slot(
                i,
            )) is Some by {
                assert(prev.live_slot(i + 1) is Some);
            }
            assert(self@ =~= prev@.skip(1));
        }
        Ok(elem)
    }

    /// Pushes an element.
    ///
    /// The fifo must not be full: with nobody draining the far end, a full
    /// fifo could never come to accept the element.
    pub fn push(&mut self, elem: T)
        requires
            old(self).well_formed(),
            old(self)@.len() < old(self).spec_capacity(),
        ensures
            final(self).well_formed(),
            final(self).spec_capacity() == old(self).spec_capacity(),
            final(self)@ == old(self)@.push(elem),
    {
        let _ = self.try_push(elem);
    }

    /// Pops the element at the head.
    ///
    /// The fifo must not be empty: with nobody filling the far end, an empty
    /// fifo could never come to yield an element.
    pub fn pop(&mut self) -> (elem: T)
        requires
            old(self).well_formed(),
            old(self)@.len() > 0,
        ensures
            final(self).well_formed(),
            final(self).spec_capacity() == old(self).spec_capacity(),
            elem == old(self)@[0],
            final(self)@ == old(self)@.skip(1),
    {
        let result = self.try_pop();
        result.unwrap()
    }

    /// Pushes every element of `elems`, in order.
    ///
    /// This is the producing half of the FIFO law: the live contents
    /// afterwards are the old contents followed by `elems`, exactly.
    pub fn push_all(&mut self, elems: &Vec<T>)
        requires
            old(self).well_formed(),
            old(self)@.len() + elems@.len() <= old(self).spec_capacity(),
        ensures
            final(self).well_formed(),
            final(self).spec_capacity() == old(self).spec_capacity(),
            final(self)@ == old(self)@ + elems@,
    {
        let ghost init = self@;
        let ghost cap = self.spec_capacity();
        let mut i: usize = 0;
        while i < elems.len()
            invariant
                i <= elems@.len(),
                self.well_formed(),
                self.spec_capacity() == cap,
                init.len() + elems@.len() <= cap,
                self@ == init + elems@.take(i as int),
            decreases elems@.len() - i,
        {
            self.push(elems[i]);
            proof {
                assert(elems@.take(i + 1) =~= elems@.take(i as int).push(elems@[i as int]));
                assert(self@ =~= init + elems@.take(i + 1));
            }
            i = i + 1;
        }
        proof {
            assert(elems@.take(elems@.len() as int) =~= elems@);
        }
    }

    /// Pops every live element, in order, until the fifo is empty.
    ///
    /// This is the consuming half of the FIFO law: the vector handed back
    /// is exactly the sequence that was live, oldest first, and the fifo is
    /// empty afterwards — a push/pop cycle loses and duplicates nothing.
    pub fn pop_all(&mut self) -> (drained: Vec<T>)
        requires
            old(self).well_formed(),
        ensures
            final(self).well_formed(),
            final(self).spec_capacity() == old(self).spec_capacity(),
            drained@ == old(self)@,
            final(self)@.len() == 0,
    {
        let ghost init = self@;
        let ghost cap = self.spec_capacity();
        let mut drained: Vec<T> = Vec::new();
        while !self.is_empty()
            invariant
                self.well_formed(),
                self.spec_capacity() == cap,
                init == drained@ + self@,
            decreases self@.len(),
        {
            let ghost live = self@;
            let elem = self.pop();
            drained.push(elem);
            proof {
                assert(drained@ + self@ =~= (drained@.drop_last() + live));
            }
        }
        proof {
            assert(drained@ + self@ =~= drained@);
        }
        drained
    }

    /// True exactly when every usable slot holds a live element.
    pub fn is_full(&self) -> (full: bool)
        requires
            self.well_formed(),
        ensures
            full == (self@.len() == self.spec_capacity()),
    {
        let size = self.buffer_size();
        advance_index(self.tail, size) == self.head
    }
}

/// FIFO order law, over the views that the contracts use: while a fifo holds
/// `earlier + later`, the `i`-th element popped is `earlier[i]` as long as
/// `i` stays below `earlier.len()`, and `later[i - earlier.len()]` from then
/// on — elements come out in exactly the order they went in.
pub proof fn lemma_fifo_order<T>(earlier: Seq<T>, later: Seq<T>, i: int)
    requires
        0 <= i < earlier.len() + later.len(),
    ensures
        (earlier + later)[i] == if i < earlier.len() {
            earlier[i]
        } else {
            later[i - earlier.len()]
        },
{
}

/// Round-trip law, over the views that the contracts use: pushing the
/// elements of `values` into an empty fifo leaves exactly `values` live, and
/// draining them all afterwards leaves the fifo empty again with `values`
/// handed back unchanged — so a cycle of `push_all` and `pop_all` returns
/// the fifo to its empty starting state, and repeating the cycle any number
/// of times neither loses nor duplicates a value.
pub proof fn lemma_round_trip<T>(values: Seq<T>)
    ensures
        Seq::<T>::empty() + values == values,
{
    assert(Seq::<T>::empty() + values =~= values);
}

impl<T: Copy> View for CohortFifo<T> {
    type V = Seq<T>;

    /// The live contents in fifo order, the element at the head first.
    closed spec fn view(&self) -> Seq<T> {
        Seq::new(self.spec_len(), |i: int| self.live_slot(i).unwrap())
    }
}

} // verus!
