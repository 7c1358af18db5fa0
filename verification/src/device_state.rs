use std::collections::BTreeMap;
use vstd::prelude::*;

use crate::error::RutabagaError;
use crate::error::RutabagaResult;
use crate::fences::PendingFences;
use crate::seqno::spec_after_update;
use crate::seqno::RingSeqnos;

verus! {

/// Outcome of one check of a sequence-number waiter.
#[derive(Clone, Copy, Debug, PartialEq, Eq, Structural)]
pub enum SeqnoWait {
    /// The ring has completed the awaited sequence number.
    Reached,
    /// Not yet: wait for the next completion.
    Pending,
}

/// State shared by every worker of one Magma context: the physical devices it
/// may open, the device it opened, the objects that the guest created (each
/// keyed by the id the guest chose), the fences exported per ring and the
/// completed sequence number of each ring.
///
/// The object types are those of the GPU driver layer: `P` physical device,
/// `D` device, `A` address space, `B` buffer, `Q` queue, `S` sync object.
pub struct MagmaDeviceState<P, D, A, B, Q, S> {
    pub physical_devices: Vec<P>,
    pub device: Option<D>,
    pub address_spaces: BTreeMap<u32, A>,
    pub buffers: BTreeMap<u32, B>,
    pub queues: BTreeMap<u32, Q>,
    pub sync_objs: BTreeMap<u32, S>,
    pub pending_queue_fences: PendingFences<magma_gpu::util::Handle>,
    pub ring_completed_seqno: RingSeqnos,
}

/// The object registered under `id` in a table, if any.
pub open spec fn lookup<V>(m: Map<u32, V>, id: u32) -> Option<V> {
    if m.contains_key(id) {
        Some(m[id])
    } else {
        None
    }
}

/// Looks up `id` in an object table.
pub fn table_get<V>(table: &BTreeMap<u32, V>, id: u32) -> (r: Option<&V>)
    ensures
        r matches Some(v) ==> lookup(table@, id) == Some(*v),
        r is None <==> lookup(table@, id) is None,
{
    broadcast use vstd::std_specs::btree::group_btree_axioms;
    broadcast use vstd::laws_cmp::group_laws_cmp;
    table.get(&id)
}

/// Registers `value` under `id`, replacing any object registered there.
pub fn table_insert<V>(table: &mut BTreeMap<u32, V>, id: u32, value: V)
    ensures
        final(table)@ == old(table)@.insert(id, value),
{
    broadcast use vstd::std_specs::btree::group_btree_axioms;
    broadcast use vstd::laws_cmp::group_laws_cmp;
    table.insert(id, value);
}

/// Drops whatever is registered under `id`.
pub fn table_remove<V>(table: &mut BTreeMap<u32, V>, id: u32)
    ensures
        final(table)@ == old(table)@.remove(id),
{
    broadcast use vstd::std_specs::btree::group_btree_axioms;
    broadcast use vstd::laws_cmp::group_laws_cmp;
    table.remove(&id);
}

impl<P, D, A, B, Q, S> MagmaDeviceState<P, D, A, B, Q, S> {
    /// Well-formedness: a completion slot for every ring slot index.
    pub open spec fn wf(&self) -> bool {
        self.ring_completed_seqno.wf()
    }

    /// A fresh state over `physical_devices`: no device opened, no object
    /// created, no fence pending, every ring at sequence number zero.
    pub fn new(physical_devices: Vec<P>) -> (r: Self)
        ensures
            r.wf(),
            r.physical_devices@ == physical_devices@,
            r.device is None,
            r.address_spaces@ == Map::<u32, A>::empty(),
            r.buffers@ == Map::<u32, B>::empty(),
            r.queues@ == Map::<u32, Q>::empty(),
            r.sync_objs@ == Map::<u32, S>::empty(),
            r.pending_queue_fences@ == Map::<u32, Seq<magma_gpu::util::Handle>>::empty(),
            forall|i: int| 0 <= i < 64 ==> #[trigger] r.ring_completed_seqno@[i] == 0,
    {
        MagmaDeviceState {
            physical_devices,
            device: None,
            address_spaces: BTreeMap::new(),
            buffers: BTreeMap::new(),
            queues: BTreeMap::new(),
            sync_objs: BTreeMap::new(),
            pending_queue_fences: PendingFences::new(),
            ring_completed_seqno: RingSeqnos::new(),
        }
    }

    /// Makes `device` the context's device, replacing any earlier one.
    pub fn set_device(&mut self, device: D)
        ensures
            final(self).device == Some(device),
            final(self).physical_devices == old(self).physical_devices,
            final(self).address_spaces == old(self).address_spaces,
            final(self).buffers == old(self).buffers,
            final(self).queues == old(self).queues,
            final(self).sync_objs == old(self).sync_objs,
            final(self).pending_queue_fences == old(self).pending_queue_fences,
            final(self).ring_completed_seqno == old(self).ring_completed_seqno,
    {
        self.device = Some(device);
    }

    /// The context's device, if one was opened.
    pub fn get_device(&self) -> (r: Option<&D>)
        ensures
            r is Some <==> self.device is Some,
            r matches Some(d) ==> self.device == Some(*d),
    {
        match &self.device {
            Some(d) => Some(d),
            None => None,
        }
    }

    /// Records that ring `ring_idx` completed `seqno` (rings share the 64
    /// slots modulo 64). The slot only moves forward; the result says whether
    /// it moved, which is when waiters must be woken.
    pub fn update_ring_completed_seqno(&mut self, ring_idx: u32, seqno: u64) -> (advanced: bool)
        requires
            old(self).wf(),
        ensures
            final(self).wf(),
            advanced == (seqno > old(self).ring_completed_seqno.spec_completed(ring_idx)),
            final(self).ring_completed_seqno@ == spec_after_update(
                old(self).ring_completed_seqno@,
                ring_idx,
                seqno,
            ),
            final(self).ring_completed_seqno.spec_completed(ring_idx) >= seqno,
            seqno > old(self).ring_completed_seqno.spec_completed(ring_idx)
                ==> final(self).ring_completed_seqno.spec_completed(ring_idx) == seqno,
            seqno <= old(self).ring_completed_seqno.spec_completed(ring_idx)
                ==> final(self).ring_completed_seqno@ == old(self).ring_completed_seqno@,
            forall|i: int|
                0 <= i < 64 ==> #[trigger] final(self).ring_completed_seqno@[i]
                    >= old(self).ring_completed_seqno@[i],
            final(self).physical_devices == old(self).physical_devices,
            final(self).device == old(self).device,
            final(self).address_spaces == old(self).address_spaces,
            final(self).buffers == old(self).buffers,
            final(self).queues == old(self).queues,
            final(self).sync_objs == old(self).sync_objs,
            final(self).pending_queue_fences == old(self).pending_queue_fences,
    {
        self.ring_completed_seqno.update_ring_completed_seqno(ring_idx, seqno)
    }

    /// One check of a waiter for `target` on ring `ring_idx`: `Reached` when
    /// the ring has completed at least `target`, else `Pending` (sleep until
    /// the next completion and check again).
    pub fn wait_for_ring_seqno(&self, ring_idx: u32, target: u64) -> (r: SeqnoWait)
        requires
            self.wf(),
        ensures
            (r == SeqnoWait::Reached) == (self.ring_completed_seqno.spec_completed(ring_idx)
                >= target),
    {
        if self.ring_completed_seqno.is_ring_seqno_reached(ring_idx, target) {
            SeqnoWait::Reached
        } else {
            SeqnoWait::Pending
        }
    }

    /// One check of a waiter for `target` on the CPU ring (ring 0).
    pub fn wait_for_cpu_seqno(&self, target: u64) -> (r: SeqnoWait)
        requires
            self.wf(),
        ensures
            (r == SeqnoWait::Reached) == (self.ring_completed_seqno.spec_completed(0) >= target),
    {
        self.wait_for_ring_seqno(0, target)
    }

    /// Everything but the four object tables is the same in both states.
    pub open spec fn same_outside_tables(&self, other: &Self) -> bool {
        &&& self.physical_devices == other.physical_devices
        &&& self.device == other.device
        &&& self.pending_queue_fences == other.pending_queue_fences
        &&& self.ring_completed_seqno == other.ring_completed_seqno
    }

    /// Records the device opened for a `CreateDevice` command; a failure of
    /// the driver is reported as `InvalidResourceId` and changes nothing.
    pub fn complete_create_device<E>(&mut self, created: Result<D, E>) -> (r: RutabagaResult<()>)
        ensures
            r is Ok <==> created is Ok,
            r matches Err(e) ==> e is InvalidResourceId,
            created matches Ok(d) ==> final(self).device == Some(d),
            created is Err ==> final(self).device == old(self).device,
            final(self).physical_devices == old(self).physical_devices,
            final(self).address_spaces == old(self).address_spaces,
            final(self).buffers == old(self).buffers,
            final(self).queues == old(self).queues,
            final(self).sync_objs == old(self).sync_objs,
            final(self).pending_queue_fences == old(self).pending_queue_fences,
            final(self).ring_completed_seqno == old(self).ring_completed_seqno,
    {
        match created {
            Ok(d) => {
                self.set_device(d);
                Ok(())
            },
            Err(_) => Err(RutabagaError::InvalidResourceId),
        }
    }

    /// Registers the address space created for a `CreateAddressSpace` command
    /// under `id`; a failure of the driver is reported as `InvalidResourceId`
    /// and changes nothing.
    pub fn complete_create_address_space<E>(&mut self, id: u32, created: Result<A, E>) -> (r:
        RutabagaResult<()>)
        ensures
            r is Ok <==> created is Ok,
            r matches Err(e) ==> e is InvalidResourceId,
            final(self).address_spaces@ == match created {
                Ok(a) => old(self).address_spaces@.insert(id, a),
                Err(_) => old(self).address_spaces@,
            },
            final(self).buffers == old(self).buffers,
            final(self).queues == old(self).queues,
            final(self).sync_objs == old(self).sync_objs,
            final(self).same_outside_tables(old(self)),
    {
        match created {
            Ok(a) => {
                table_insert(&mut self.address_spaces, id, a);
                Ok(())
            },
            Err(_) => Err(RutabagaError::InvalidResourceId),
        }
    }

    /// Registers the queue created for a `CreateQueue` command under `id`; a
    /// failure of the driver is reported as `InvalidResourceId` and changes
    /// nothing.
    pub fn complete_create_queue<E>(&mut self, id: u32, created: Result<Q, E>) -> (r:
        RutabagaResult<()>)
        ensures
            r is Ok <==> created is Ok,
            r matches Err(e) ==> e is InvalidResourceId,
            final(self).queues@ == match created {
                Ok(q) => old(self).queues@.insert(id, q),
                Err(_) => old(self).queues@,
            },
            final(self).address_spaces == old(self).address_spaces,
            final(self).buffers == old(self).buffers,
            final(self).sync_objs == old(self).sync_objs,
            final(self).same_outside_tables(old(self)),
    {
        match created {
            Ok(q) => {
                table_insert(&mut self.queues, id, q);
                Ok(())
            },
            Err(_) => Err(RutabagaError::InvalidResourceId),
        }
    }

    /// Registers the buffer created for a `CreateBuffer` command under `id`; a
    /// failure of the driver is reported as `InvalidResourceId` and changes
    /// nothing.
    pub fn complete_create_buffer<E>(&mut self, id: u32, created: Result<B, E>) -> (r:
        RutabagaResult<()>)
        ensures
            r is Ok <==> created is Ok,
            r matches Err(e) ==> e is InvalidResourceId,
            final(self).buffers@ == match created {
                Ok(b) => old(self).buffers@.insert(id, b),
                Err(_) => old(self).buffers@,
            },
            final(self).address_spaces == old(self).address_spaces,
            final(self).queues == old(self).queues,
            final(self).sync_objs == old(self).sync_objs,
            final(self).same_outside_tables(old(self)),
    {
        match created {
            Ok(b) => {
                table_insert(&mut self.buffers, id, b);
                Ok(())
            },
            Err(_) => Err(RutabagaError::InvalidResourceId),
        }
    }

    /// Registers the sync object created for a `CreateSyncObj` command under
    /// `id`; a failure of the driver is reported as `InvalidResourceId` and
    /// changes nothing.
    pub fn complete_create_sync_obj<E>(&mut self, id: u32, created: Result<S, E>) -> (r:
        RutabagaResult<()>)
        ensures
            r is Ok <==> created is Ok,
            r matches Err(e) ==> e is InvalidResourceId,
            final(self).sync_objs@ == match created {
                Ok(s) => old(self).sync_objs@.insert(id, s),
                Err(_) => old(self).sync_objs@,
            },
            final(self).address_spaces == old(self).address_spaces,
            final(self).buffers == old(self).buffers,
            final(self).queues == old(self).queues,
            final(self).same_outside_tables(old(self)),
    {
        match created {
            Ok(s) => {
                table_insert(&mut self.sync_objs, id, s);
                Ok(())
            },
            Err(_) => Err(RutabagaError::InvalidResourceId),
        }
    }

    /// Drops the buffer registered under `id`, if any.
    pub fn close_buffer(&mut self, id: u32)
        ensures
            final(self).buffers@ == old(self).buffers@.remove(id),
            final(self).address_spaces == old(self).address_spaces,
            final(self).queues == old(self).queues,
            final(self).sync_objs == old(self).sync_objs,
            final(self).same_outside_tables(old(self)),
    {
        table_remove(&mut self.buffers, id);
    }

    /// Drops the sync object registered under `id`, if any.
    pub fn close_sync_obj(&mut self, id: u32)
        ensures
            final(self).sync_objs@ == old(self).sync_objs@.remove(id),
            final(self).address_spaces == old(self).address_spaces,
            final(self).buffers == old(self).buffers,
            final(self).queues == old(self).queues,
            final(self).same_outside_tables(old(self)),
    {
        table_remove(&mut self.sync_objs, id);
    }

    /// The queue a submission goes to: `InvalidResourceId` when no queue is
    /// registered under `queue_id`.
    pub fn submit_queue(&self, queue_id: u32) -> (r: RutabagaResult<&Q>)
        ensures
            r matches Ok(q) ==> lookup(self.queues@, queue_id) == Some(*q),
            r is Err <==> !self.queues@.contains_key(queue_id),
            r matches Err(e) ==> e is InvalidResourceId,
    {
        match table_get(&self.queues, queue_id) {
            Some(q) => Ok(q),
            None => Err(RutabagaError::InvalidResourceId),
        }
    }

    /// The host sync objects named by the first `count` guest ids of a
    /// submission's wait or signal list; an id with no sync object gives
    /// `None` at its position.
    pub fn resolve_sync_objs(&self, guest_ids: &[u32], count: usize) -> (r: Vec<Option<&S>>)
        requires
            count <= guest_ids@.len(),
        ensures
            r@.len() == count,
            forall|i: int|
                0 <= i < count ==> match #[trigger] r@[i] {
                    Some(s) => lookup(self.sync_objs@, guest_ids@[i]) == Some(*s),
                    None => !self.sync_objs@.contains_key(guest_ids@[i]),
                },
    {
        let mut out: Vec<Option<&S>> = Vec::new();
        let mut i: usize = 0;
        while i < count
            invariant
                i <= count,
                count <= guest_ids@.len(),
                out@.len() == i,
                forall|j: int|
                    0 <= j < i ==> match #[trigger] out@[j] {
                        Some(s) => lookup(self.sync_objs@, guest_ids@[j]) == Some(*s),
                        None => !self.sync_objs@.contains_key(guest_ids@[j]),
                    },
            decreases count - i,
        {
            let found = table_get(&self.sync_objs, guest_ids[i]);
            out.push(found);
            i = i + 1;
        }
        out
    }
}

} // verus!
