//! A user-space communication channel toward a hardware accelerator, built
//! on shared memory: a bounded single-producer/single-consumer ring buffer
//! ([`fifo::CohortFifo`]) and a channel handle ([`Cohort`]) that owns one
//! such fifo per direction, an auxiliary shared word, and the registration
//! state of the exchange with the accelerator subsystem.
//!
//! The accelerator side of the exchange — the privileged call that hands it
//! the addresses of the two fifos and the auxiliary word, and the volatile,
//! cache-line-aligned storage those addresses point into — lives with the
//! embedding program, which owns the raw pinned memory. This crate holds
//! the logic that is decided on this side of that boundary: the index
//! discipline of the ring, the fifo semantics of each direction, and the
//! once-and-only-once registration lifecycle.

use vstd::prelude::*;

pub mod fifo;

use crate::fifo::CohortFifo;

verus! {

/// Backoff threshold handed to the accelerator subsystem at registration;
/// its interpretation belongs entirely to the far side.
pub const BACKOFF_COUNTER_VAL: u64 = 240;

/// A communication channel registered with the accelerator subsystem.
///
/// The channel owns a sending fifo (toward the accelerator), a receiving
/// fifo (from the accelerator) and one auxiliary shared word whose meaning
/// the accelerator defines. Its lifecycle is `Registered` from construction
/// until exactly one `unregister`, after which it is terminally unregistered
/// and no operation is permitted any more.
pub struct Cohort<T: Copy> {
    id: u8,
    sender: CohortFifo<T>,
    receiver: CohortFifo<T>,
    custom_data: u64,
    registered: bool,
}

impl<T: Copy> Cohort<T> {
    /// Identity under which the channel was registered.
    pub closed spec fn spec_id(&self) -> u8 {
        self.id
    }

    /// Whether the channel is currently registered with the accelerator.
    pub closed spec fn spec_registered(&self) -> bool {
        self.registered
    }

    /// Contents of the auxiliary shared word.
    pub closed spec fn spec_custom_data(&self) -> u64 {
        self.custom_data
    }

    /// Live contents of the sending fifo, oldest first.
    pub closed spec fn spec_outgoing(&self) -> Seq<T> {
        self.sender@
    }

    /// Live contents of the receiving fifo, oldest first.
    pub closed spec fn spec_incoming(&self) -> Seq<T> {
        self.receiver@
    }

    /// Usable capacity of each of the two fifos.
    pub closed spec fn spec_capacity(&self) -> nat {
        self.sender.spec_capacity()
    }

    /// Structural invariant: both fifos are well formed and share one
    /// capacity.
    pub closed spec fn well_formed(&self) -> bool {
        &&& self.sender.well_formed()
        &&& self.receiver.well_formed()
        &&& self.receiver.spec_capacity() == self.sender.spec_capacity()
    }

    /// Registers a cohort under `id`, with a sending and a receiving fifo of
    /// the given capacity and the auxiliary word cleared.
    ///
    /// The privileged call that announces the three addresses and
    /// [`BACKOFF_COUNTER_VAL`] to the accelerator subsystem is issued by the
    /// embedding program, which owns the raw pinned storage the addresses
    /// refer to; this constructor establishes the registered state that the
    /// rest of the lifecycle is verified against. The `id` must not be in
    /// use by another live registration — a condition only the accelerator's
    /// namespace can check, so it is not restated here.
    pub fn register(id: u8, capacity: usize) -> (cohort: Self)
        requires
            1 <= capacity,
            capacity + 1 <= u32::MAX,
        ensures
            cohort.well_formed(),
            cohort.spec_registered(),
            cohort.spec_id() == id,
            cohort.spec_custom_data() == 0,
            cohort.spec_capacity() == capacity,
            cohort.spec_outgoing() == Seq::<T>::empty(),
            cohort.spec_incoming() == Seq::<T>::empty(),
    {
        let sender = CohortFifo::new(capacity);
        let receiver = CohortFifo::new(capacity);
        Cohort { id, sender, receiver, custom_data: 0, registered: true }
    }

    /// Tears the registration down.
    ///
    /// Permitted exactly once, from the registered state; afterwards the
    /// channel is terminally unregistered, so every registration is paired
    /// with exactly one teardown. The matching privileged call toward the
    /// accelerator is issued by the embedding program before it releases
    /// the raw storage.
    pub fn unregister(&mut self)
        requires
            old(self).spec_registered(),
        ensures
            !final(self).spec_registered(),
            final(self).well_formed() == old(self).well_formed(),
            final(self).spec_id() == old(self).spec_id(),
            final(self).spec_custom_data() == old(self).spec_custom_data(),
            final(self).spec_capacity() == old(self).spec_capacity(),
            final(self).spec_outgoing() == old(self).spec_outgoing(),
            final(self).spec_incoming() == old(self).spec_incoming(),
    {
        self.registered = false;
    }

    /// Whether the channel is currently registered.
    pub fn is_registered(&self) -> (registered: bool)
        ensures
            registered == self.spec_registered(),
    {
        self.registered
    }

    /// Usable capacity of each direction.
    pub fn capacity(&self) -> (capacity: usize)
        ensures
            capacity == self.spec_capacity(),
    {
        self.sender.capacity()
    }

    /// Sends an element to the accelerator.
    ///
    /// The sending fifo must not be full: with the far end not draining it,
    /// a full fifo could never come to accept the element.
    pub fn push(&mut self, elem: T)
        requires
            old(self).well_formed(),
            old(self).spec_registered(),
            old(self).spec_outgoing().len() < old(self).spec_capacity(),
        ensures
            final(self).well_formed(),
            final(self).spec_registered(),
            final(self).spec_capacity() == old(self).spec_capacity(),
            final(self).spec_outgoing() == old(self).spec_outgoing().push(elem),
            final(self).spec_incoming() == old(self).spec_incoming(),
    {
        self.sender.push(elem);
    }

    /// Receives an element from the accelerator.
    ///
    /// The receiving fifo must not be empty: with the far end not filling
    /// it, an empty fifo could never come to yield an element.
    pub fn pop(&mut self) -> (elem: T)
        requires
            old(self).well_formed(),
            old(self).spec_registered(),
            old(self).spec_incoming().len() > 0,
        ensures
            final(self).well_formed(),
            final(self).spec_registered(),
            final(self).spec_capacity() == old(self).spec_capacity(),
            elem == old(self).spec_incoming()[0],
            final(self).spec_incoming() == old(self).spec_incoming().skip(1),
            final(self).spec_outgoing() == old(self).spec_outgoing(),
    {
        self.receiver.pop()
    }

    /// Sends an element to the accelerator, failing if the sending fifo is
    /// full; a rejected element comes back unchanged.
    pub fn try_push(&mut self, elem: T) -> (result: Result<(), T>)
        requires
            old(self).well_formed(),
            old(self).spec_registered(),
        ensures
            final(self).well_formed(),
            final(self).spec_registered(),
            final(self).spec_capacity() == old(self).spec_capacity(),
            final(self).spec_incoming() == old(self).spec_incoming(),
            old(self).spec_outgoing().len() < old(self).spec_capacity() ==> result == Ok::<(), T>(
                (),
            ) && final(self).spec_outgoing() == old(self).spec_outgoing().push(elem),
            old(self).spec_outgoing().len() >= old(self).spec_capacity() ==> result == Err::<
                (),
                T,
            >(elem) && *final(self) == *old(self),
    {
        self.sender.try_push(elem)
    }

    /// Receives an element from the accelerator, failing if the receiving
    /// fifo is empty; a failed attempt changes nothing.
    pub fn try_pop(&mut self) -> (result: Result<T, ()>)
        requires
            old(self).well_formed(),
            old(self).spec_registered(),
        ensures
            final(self).well_formed(),
            final(self).spec_registered(),
            final(self).spec_capacity() == old(self).spec_capacity(),
            final(self).spec_outgoing() == old(self).spec_outgoing(),
            old(self).spec_incoming().len() == 0 ==> result == Err::<T, ()>(())
                && *final(self) == *old(self),
            old(self).spec_incoming().len() > 0 ==> result == Ok::<T, ()>(
                old(self).spec_incoming()[0],
            ) && final(self).spec_incoming() == old(self).spec_incoming().skip(1),
    {
        self.receiver.try_pop()
    }

    /// The accelerator's half of the receiving direction: the far side
    /// placing an element into the receiving fifo, failing if it is full.
    ///
    /// In a deployed channel the hardware does this directly in shared
    /// memory; modelling it here lets the receiving path be driven and its
    /// contracts exercised from this side of the boundary.
    pub fn accel_try_push(&mut self, elem: T) -> (result: Result<(), T>)
        requires
            old(self).well_formed(),
            old(self).spec_registered(),
        ensures
            final(self).well_formed(),
            final(self).spec_registered(),
            final(self).spec_capacity() == old(self).spec_capacity(),
            final(self).spec_outgoing() == old(self).spec_outgoing(),
            old(self).spec_incoming().len() < old(self).spec_capacity() ==> result == Ok::<(), T>(
                (),
            ) && final(self).spec_incoming() == old(self).spec_incoming().push(elem),
            old(self).spec_incoming().len() >= old(self).spec_capacity() ==> result == Err::<
                (),
                T,
            >(elem) && *final(self) == *old(self),
    {
        self.receiver.try_push(elem)
    }

    /// The accelerator's half of the sending direction: the far side
    /// draining the oldest element from the sending fifo, failing if it is
    /// empty.
    pub fn accel_try_pop(&mut self) -> (result: Result<T, ()>)
        requires
            old(self).well_formed(),
            old(self).spec_registered(),
        ensures
            final(self).well_formed(),
            final(self).spec_registered(),
            final(self).spec_capacity() == old(self).spec_capacity(),
            final(self).spec_incoming() == old(self).spec_incoming(),
            old(self).spec_outgoing().len() == 0 ==> result == Err::<T, ()>(())
                && *final(self) == *old(self),
            old(self).spec_outgoing().len() > 0 ==> result == Ok::<T, ()>(
                old(self).spec_outgoing()[0],
            ) && final(self).spec_outgoing() == old(self).spec_outgoing().skip(1),
    {
        self.sender.try_pop()
    }
}

} // verus!
