//! A fixed-capacity circular buffer of fixed-size binary slots, the device
//! boundary of the transport. Slots are published in order by a producer
//! cursor and consumed in order by a consumer cursor; the producer never
//! advances past the consumer plus the depth, so a full ring reports
//! `Overflow` instead of overwriting, and an empty ring reports
//! `NotAvailable`.

use vstd::prelude::*;
use vstd::slice::slice_to_vec;

use crate::types::DeviceError;

verus! {

/// Number of slots in each device ring.
pub const RING_DEPTH: usize = 128;

/// Size in bytes of one ring slot.
pub const RING_SLOT_SIZE: usize = 32;

/// Wrap-around position of the element `i` places after cursor `c` in a ring
/// of depth `d`; meaningful for `c < d` and `i <= d`.
pub open spec fn ring_pos(c: int, i: int, d: int) -> int {
    if c + i >= d {
        c + i - d
    } else {
        c + i
    }
}

/// A fixed-depth circular buffer of fixed-size byte slots.
pub struct Ring {
    slots: Vec<Vec<u8>>,
    cons: usize,
    used: usize,
    slot_size: usize,
}

impl Ring {
    /// The unread slots, oldest first.
    pub closed spec fn view(&self) -> Seq<Seq<u8>> {
        Seq::new(
            self.used as nat,
            |i: int| self.slots@[ring_pos(self.cons as int, i, self.slots@.len() as int)]@,
        )
    }

    /// Number of slots the ring was created with.
    pub closed spec fn spec_depth(&self) -> int {
        self.slots@.len() as int
    }

    /// Size in bytes of every slot.
    pub closed spec fn spec_slot_size(&self) -> int {
        self.slot_size as int
    }

    /// Structural invariant: the cursors stay inside the buffer, at most
    /// `depth` slots are outstanding, and every backing slot keeps its fixed
    /// size.
    pub closed spec fn wf(&self) -> bool {
        &&& 0 < self.slots@.len() <= 0x4000_0000
        &&& 0 < self.slot_size <= 0x4000_0000
        &&& (self.cons as int) < self.slots@.len()
        &&& self.used <= self.slots@.len()
        &&& forall|i: int|
            0 <= i < self.slots@.len() ==> (#[trigger] self.slots@[i])@.len() == self.slot_size
    }

    /// Creates an empty ring of `depth` zeroed slots of `slot_size` bytes.
    pub fn new(depth: usize, slot_size: usize) -> (r: Ring)
        requires
            0 < depth <= 0x4000_0000,
            0 < slot_size <= 0x4000_0000,
        ensures
            r.wf(),
            r@ =~= Seq::<Seq<u8>>::empty(),
            r.spec_depth() == depth,
            r.spec_slot_size() == slot_size,
    {
        let mut slots: Vec<Vec<u8>> = Vec::new();
        let mut i: usize = 0;
        while i < depth
            invariant
                i <= depth,
                slots@.len() == i,
                forall|j: int| 0 <= j < i ==> (#[trigger] slots@[j])@.len() == slot_size,
            decreases depth - i,
        {
            let slot: Vec<u8> = vec![0u8; slot_size];
            slots.push(slot);
            i = i + 1;
        }
        Ring { slots, cons: 0, used: 0, slot_size }
    }

    /// Number of unread slots.
    pub fn len(&self) -> (r: usize)
        requires
            self.wf(),
        ensures
            r == self@.len(),
    {
        self.used
    }

    /// Number of slots that can still be written before the ring is full.
    pub fn free_slots(&self) -> (r: usize)
        requires
            self.wf(),
        ensures
            r == self.spec_depth() - self@.len(),
    {
        self.slots.len() - self.used
    }

    /// The consumer cursor's current position.
    pub fn consumer_index(&self) -> (r: usize)
        requires
            self.wf(),
        ensures
            0 <= r < self.spec_depth(),
    {
        self.cons
    }

    /// The producer cursor's current position: always within `depth` slots of
    /// the consumer, since at most `depth` slots are outstanding.
    pub fn producer_index(&self) -> (r: usize)
        requires
            self.wf(),
        ensures
            r == ring_pos(self.consumer_pos(), self@.len() as int, self.spec_depth()),
            0 <= r < self.spec_depth(),
    {
        if self.cons >= self.slots.len() - self.used {
            self.cons - (self.slots.len() - self.used)
        } else {
            self.cons + self.used
        }
    }

    /// The consumer cursor, for stating where the producer stands.
    pub closed spec fn consumer_pos(&self) -> int {
        self.cons as int
    }

    /// Writes one slot at the producer cursor and publishes it, or reports
    /// `Overflow` without storing anything when the producer would catch the
    /// consumer.
    pub fn push_slot(&mut self, slot: Vec<u8>) -> (r: Result<(), DeviceError>)
        requires
            old(self).wf(),
            slot@.len() == old(self).spec_slot_size(),
        ensures
            final(self).wf(),
            final(self).spec_depth() == old(self).spec_depth(),
            final(self).spec_slot_size() == old(self).spec_slot_size(),
            old(self)@.len() == old(self).spec_depth() ==> r == Err::<(), DeviceError>(
                DeviceError::Overflow,
            ) && final(self)@ == old(self)@,
            old(self)@.len() < old(self).spec_depth() ==> r == Ok::<(), DeviceError>(())
                && final(self)@ =~= old(self)@.push(slot@),
            final(self).consumer_pos() == old(self).consumer_pos(),
    {
        let depth = self.slots.len();
        if self.used == depth {
            return Err(DeviceError::Overflow);
        }
        let prod = if self.cons >= depth - self.used {
            self.cons - (depth - self.used)
        } else {
            self.cons + self.used
        };
        self.slots[prod] = slot;
        self.used = self.used + 1;
        assert forall|i: int| 0 <= i < self@.len() implies self@[i] == old(self)@.push(slot@)[i] by {
            assert(ring_pos(self.cons as int, i, depth as int) == prod as int ==> i == old(
                self,
            ).used as int);
        }
        Ok(())
    }

    /// Reads and consumes the oldest unread slot, or reports `NotAvailable`
    /// when the consumer has caught up with the producer.
    pub fn pop_slot(&mut self) -> (r: Result<Vec<u8>, DeviceError>)
        requires
            old(self).wf(),
        ensures
            final(self).wf(),
            final(self).spec_depth() == old(self).spec_depth(),
            final(self).spec_slot_size() == old(self).spec_slot_size(),
            old(self)@.len() == 0 ==> r == Err::<Vec<u8>, DeviceError>(DeviceError::NotAvailable)
                && final(self)@ == old(self)@,
            old(self)@.len() > 0 ==> (r matches Ok(s) && s@ == old(self)@[0] && s@.len() == old(
                self,
            ).spec_slot_size() && final(self)@ =~= old(self)@.skip(1)),
    {
        if self.used == 0 {
            return Err(DeviceError::NotAvailable);
        }
        let out: Vec<u8> = slice_to_vec(self.slots[self.cons].as_slice());
        self.cons = if self.cons + 1 == self.slots.len() {
            0
        } else {
            self.cons + 1
        };
        self.used = self.used - 1;
        Ok(out)
    }
}

} // verus!
