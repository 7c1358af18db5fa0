use vstd::prelude::*;

verus! {

/// Number of per-ring completion slots kept by a device state.
pub const RING_SLOT_COUNT: usize = 64;

/// The slot that a ring index maps to: rings are folded onto the slots modulo
/// their number.
pub open spec fn spec_slot_index(ring_idx: u32) -> int {
    (ring_idx as int) % (RING_SLOT_COUNT as int)
}

/// The slots after recording that `ring_idx` completed `seqno`: its slot
/// takes `seqno` when that is larger, and nothing else changes.
pub open spec fn spec_after_update(slots: Seq<u64>, ring_idx: u32, seqno: u64) -> Seq<u64> {
    if seqno > slots[spec_slot_index(ring_idx)] {
        slots.update(spec_slot_index(ring_idx), seqno)
    } else {
        slots
    }
}

/// Highest completed sequence number of each ring slot.
pub struct RingSeqnos {
    slots: Vec<u64>,
}

impl View for RingSeqnos {
    type V = Seq<u64>;

    closed spec fn view(&self) -> Seq<u64> {
        self.slots@
    }
}

impl RingSeqnos {
    /// Well-formedness: one slot per ring slot index.
    pub open spec fn wf(&self) -> bool {
        self@.len() == RING_SLOT_COUNT
    }

    /// The completed sequence number recorded for a ring.
    pub open spec fn spec_completed(&self, ring_idx: u32) -> u64
        recommends
            self.wf(),
    {
        self@[spec_slot_index(ring_idx)]
    }

    /// Every slot starts at zero.
    pub fn new() -> (r: Self)
        ensures
            r.wf(),
            forall|i: int| 0 <= i < RING_SLOT_COUNT ==> #[trigger] r@[i] == 0,
    {
        let mut slots: Vec<u64> = Vec::new();
        let mut i: usize = 0;
        while i < RING_SLOT_COUNT
            invariant
                i <= RING_SLOT_COUNT,
                slots@.len() == i,
                forall|j: int| 0 <= j < i ==> #[trigger] slots@[j] == 0,
            decreases RING_SLOT_COUNT - i,
        {
            slots.push(0);
            i = i + 1;
        }
        RingSeqnos { slots }
    }

    /// The slot of `ring_idx`: its low six bits.
    pub fn slot_index(ring_idx: u32) -> (idx: usize)
        ensures
            idx == spec_slot_index(ring_idx),
            idx < RING_SLOT_COUNT,
    {
        let masked: u32 = ring_idx & 63u32;
        assert(masked == ring_idx % 64) by (bit_vector)
            requires
                masked == ring_idx & 63u32,
        ;
        masked as usize
    }

    /// The completed sequence number recorded for `ring_idx`.
    pub fn completed(&self, ring_idx: u32) -> (seqno: u64)
        requires
            self.wf(),
        ensures
            seqno == self.spec_completed(ring_idx),
    {
        self.slots[Self::slot_index(ring_idx)]
    }

    /// Records that `ring_idx` has completed `seqno`. The slot only moves
    /// forward: it becomes the larger of its old value and `seqno`. Returns
    /// whether it moved, which is when waiters must be woken.
    pub fn update_ring_completed_seqno(&mut self, ring_idx: u32, seqno: u64) -> (advanced: bool)
        requires
            old(self).wf(),
        ensures
            final(self).wf(),
            advanced == (seqno > old(self).spec_completed(ring_idx)),
            final(self)@ == spec_after_update(old(self)@, ring_idx, seqno),
            final(self).spec_completed(ring_idx) >= seqno,
            forall|i: int| 0 <= i < RING_SLOT_COUNT ==> #[trigger] final(self)@[i] >= old(self)@[i],
            seqno > old(self).spec_completed(ring_idx) ==> final(self).spec_completed(ring_idx)
                == seqno,
            seqno <= old(self).spec_completed(ring_idx) ==> final(self)@ == old(self)@,
            forall|i: int|
                0 <= i < RING_SLOT_COUNT && i != spec_slot_index(ring_idx)
                    ==> #[trigger] final(self)@[i] == old(self)@[i],
    {
        let idx = Self::slot_index(ring_idx);
        let prev = self.slots[idx];
        if seqno > prev {
            self.slots.set(idx, seqno);
            true
        } else {
            false
        }
    }

    /// Whether a waiter for `target` on `ring_idx` may proceed: the ring has
    /// completed at least `target`.
    pub fn is_ring_seqno_reached(&self, ring_idx: u32, target: u64) -> (reached: bool)
        requires
            self.wf(),
        ensures
            reached == (self.spec_completed(ring_idx) >= target),
    {
        self.completed(ring_idx) >= target
    }

    /// Whether a waiter for `target` on the CPU ring (ring 0) may proceed.
    pub fn is_cpu_seqno_reached(&self, target: u64) -> (reached: bool)
        requires
            self.wf(),
        ensures
            reached == (self.spec_completed(0) >= target),
    {
        self.is_ring_seqno_reached(0, target)
    }
}

} // verus!
