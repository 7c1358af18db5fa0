use std::collections::BTreeMap;
use std::sync::Arc;
use vstd::prelude::*;

use crate::device_state::lookup;
use crate::device_state::table_get;
use crate::device_state::table_insert;
use crate::device_state::table_remove;
use crate::device_state::MagmaDeviceState;
use crate::error::RutabagaError;
use crate::error::RutabagaResult;
use crate::fences::after_take;
use crate::fences::pending_on;
use crate::fences::taken;
use crate::handle::shared_fence_handle;
use crate::handle::try_clone_handle;

verus! {

/// Mapping flag: cached CPU mapping.
pub const RUTABAGA_MAP_CACHE_CACHED: u32 = 0x01;

/// Mapping flag: read and write access.
pub const RUTABAGA_MAP_ACCESS_RW: u32 = 0x30;

/// Fence flag: the guest asks for a host-shareable handle of the fence.
pub const RUTABAGA_FLAG_FENCE_HOST_SHAREABLE: u32 = 0x04;

/// The guest's request to create a blob resource.
#[derive(Clone, Copy, Debug, PartialEq, Eq)]
pub struct ResourceCreateBlob {
    pub blob_mem: u32,
    pub blob_flags: u32,
    pub blob_id: u64,
    pub size: u64,
}

/// A blob resource of the Magma component. `H` is the OS handle behind it and
/// `I` a guest memory range backing it.
pub struct MagmaResource<H, I> {
    pub resource_id: u32,
    pub handle: Option<Arc<H>>,
    pub blob: bool,
    pub blob_mem: u32,
    pub blob_flags: u32,
    pub map_info: Option<u32>,
    pub backing_iovecs: Option<Vec<I>>,
    pub component_mask: u8,
    pub size: u64,
}

/// What a context keeps of an attached resource.
pub struct ContextResource<H, I> {
    pub handle: Option<Arc<H>>,
    pub backing_iovecs: Option<Vec<I>>,
}

/// Where the memory of a new blob resource comes from when the guest handed
/// no handle for it.
#[derive(Clone, Copy, Debug, PartialEq, Eq)]
pub enum BlobSource {
    /// Export the Magma buffer whose id is `.0`.
    Buffer(u32),
    /// Allocate fresh shared memory.
    SharedMemory,
}

/// How a guest fence on a context is completed.
pub enum FenceAction {
    /// A fence on the CPU ring: signal it once the ring is idle.
    SignalNow,
    /// Track `handle` (the oldest fence exported for the ring); `shared` is a
    /// duplicate of it to hand to the guest when it asked for a shareable fence.
    Track { handle: magma_gpu::util::Handle, shared: Option<magma_gpu::util::Handle> },
}

/// How the context obtains the memory of a new blob resource, and the ring
/// channel (of type `C`) to let go idle first.
pub enum BlobPlan<'a, C> {
    /// Use the handle the caller passed in; no map info.
    Imported,
    /// Wait until `idle_wait` (the CPU ring, when the guest created one) is
    /// idle, then take the memory from `source`.
    Exported { idle_wait: Option<&'a C>, source: BlobSource },
}

/// A message of a context's command stream, reduced to the values that decide
/// how it is handled.
#[derive(Clone, Copy, Debug, PartialEq, Eq)]
pub enum ContextMessage {
    CreateRing { channel_id: u32, ring_blob_id: u32 },
    Ping { channel_id: u32 },
    CreateFence { ring_idx: u32, guest_sync_id: u32 },
    /// Any other message: not accepted on a context's command stream.
    Other,
}

/// Whether a context's command stream may carry `msg`: ring creation, pings
/// and fence creation are accepted, any other message fails the stream with
/// `InvalidCommandBuffer`.
pub fn check_context_message(msg: &ContextMessage) -> (r: RutabagaResult<()>)
    ensures
        r is Ok <==> !(*msg is Other),
        r matches Err(e) ==> e is InvalidCommandBuffer,
{
    match msg {
        ContextMessage::Other => Err(RutabagaError::InvalidCommandBuffer),
        _ => Ok(()),
    }
}

/// The blob source for `blob_id`: the buffer with that id (its low 32 bits)
/// when it is not 0, else fresh shared memory.
pub open spec fn spec_blob_source(blob_id: u64) -> BlobSource {
    if blob_id != 0 {
        BlobSource::Buffer(blob_id as u32)
    } else {
        BlobSource::SharedMemory
    }
}

/// The blob source for `blob_id`.
pub fn blob_source(blob_id: u64) -> (r: BlobSource)
    ensures
        r == spec_blob_source(blob_id),
        blob_id != 0 ==> r == BlobSource::Buffer(blob_id as u32),
        blob_id == 0 ==> r == BlobSource::SharedMemory,
{
    if blob_id != 0 {
        BlobSource::Buffer(blob_id as u32)
    } else {
        BlobSource::SharedMemory
    }
}

/// The mapping flags of a blob backed by fresh shared memory: cached, read and
/// write.
pub fn shared_memory_map_info() -> (r: Option<u32>)
    ensures
        r == Some((RUTABAGA_MAP_CACHE_CACHED | RUTABAGA_MAP_ACCESS_RW) as u32),
{
    Some(RUTABAGA_MAP_CACHE_CACHED | RUTABAGA_MAP_ACCESS_RW)
}

/// The outcome of a driver call that yields a value for an existing object:
/// the value, or `InvalidResourceId` on any failure.
pub fn resource_value<T, E>(result: Result<T, E>) -> (r: RutabagaResult<T>)
    ensures
        result is Ok <==> r is Ok,
        result matches Ok(v) ==> r matches Ok(w) && w == v,
        r matches Err(e) ==> e is InvalidResourceId,
{
    match result {
        Ok(v) => Ok(v),
        Err(_) => Err(RutabagaError::InvalidResourceId),
    }
}

/// The blob resource the context creates: a blob of the guest's memory kind,
/// flags and size, backed by `handle` and `backing_iovecs`.
pub fn blob_resource<H, I>(
    resource_id: u32,
    create: ResourceCreateBlob,
    handle: Arc<H>,
    map_info: Option<u32>,
    backing_iovecs: Option<Vec<I>>,
    component_mask: u8,
) -> (r: MagmaResource<H, I>)
    ensures
        r.resource_id == resource_id,
        r.handle == Some(handle),
        r.blob,
        r.blob_mem == create.blob_mem,
        r.blob_flags == create.blob_flags,
        r.map_info == map_info,
        r.backing_iovecs == backing_iovecs,
        r.component_mask == component_mask,
        r.size == create.size,
{
    MagmaResource {
        resource_id,
        handle: Some(handle),
        blob: true,
        blob_mem: create.blob_mem,
        blob_flags: create.blob_flags,
        map_info,
        backing_iovecs,
        component_mask,
        size: create.size,
    }
}

/// The per-context state of the Magma component that is not shared with the
/// ring workers: the resources attached to the context and its ring channels
/// (of type `C`), keyed by channel id.
pub struct MagmaVirtioGpuContext<H, I, C> {
    pub context_name: Option<String>,
    pub context_resources: BTreeMap<u32, ContextResource<H, I>>,
    pub rings: BTreeMap<u32, C>,
}

impl<H, I, C> MagmaVirtioGpuContext<H, I, C> {
    /// A context with no resource attached and no ring.
    pub fn new(context_name: Option<String>) -> (r: Self)
        ensures
            r.context_name == context_name,
            r.context_resources@ == Map::<u32, ContextResource<H, I>>::empty(),
            r.rings@ == Map::<u32, C>::empty(),
    {
        MagmaVirtioGpuContext {
            context_name,
            context_resources: BTreeMap::new(),
            rings: BTreeMap::new(),
        }
    }

    /// The ring channel with id `channel_id`, if the guest created one.
    pub fn ring(&self, channel_id: u32) -> (r: Option<&C>)
        ensures
            r matches Some(c) ==> lookup(self.rings@, channel_id) == Some(*c),
            r is None <==> !self.rings@.contains_key(channel_id),
    {
        table_get(&self.rings, channel_id)
    }

    /// How a new blob resource gets its memory: the caller's handle when it
    /// passed one (`handle_given`); otherwise, after the CPU ring (channel 0)
    /// went idle, the source that `blob_id` names.
    pub fn blob_plan(&self, handle_given: bool, blob_id: u64) -> (r: BlobPlan<'_, C>)
        ensures
            handle_given ==> r is Imported,
            !handle_given ==> (r matches BlobPlan::Exported { idle_wait, source } && source
                == spec_blob_source(blob_id) && match idle_wait {
                Some(c) => lookup(self.rings@, 0) == Some(*c),
                None => !self.rings@.contains_key(0),
            }),
    {
        if handle_given {
            BlobPlan::Imported
        } else {
            BlobPlan::Exported { idle_wait: self.ring(0), source: blob_source(blob_id) }
        }
    }

    /// Registers `channel` under `channel_id`, replacing any ring there.
    pub fn register_ring(&mut self, channel_id: u32, channel: C)
        ensures
            final(self).rings@ == old(self).rings@.insert(channel_id, channel),
            final(self).context_resources == old(self).context_resources,
            final(self).context_name == old(self).context_name,
    {
        table_insert(&mut self.rings, channel_id, channel);
    }

    /// The handle of the resource backing a new ring: `InvalidResourceId` when
    /// no resource is attached under `ring_blob_id` or it has no handle.
    pub fn ring_blob_handle(&self, ring_blob_id: u32) -> (r: RutabagaResult<&Arc<H>>)
        ensures
            r matches Err(e) ==> e is InvalidResourceId,
            r is Ok <==> (self.context_resources@.contains_key(ring_blob_id)
                && self.context_resources@[ring_blob_id].handle is Some),
            r matches Ok(h) ==> self.context_resources@[ring_blob_id].handle == Some(*h),
    {
        match table_get(&self.context_resources, ring_blob_id) {
            Some(res) => match &res.handle {
                Some(h) => Ok(h),
                None => Err(RutabagaError::InvalidResourceId),
            },
            None => Err(RutabagaError::InvalidResourceId),
        }
    }

    /// The channels a ping for `channel_id` wakes: that channel when it
    /// exists; every channel, in increasing id order, when the ping names
    /// channel 0 and no channel 0 exists; otherwise none.
    pub fn ping_targets(&self, channel_id: u32) -> (r: Vec<u32>)
        ensures
            self.rings@.contains_key(channel_id) ==> r@ == seq![channel_id],
            !self.rings@.contains_key(channel_id) && channel_id != 0 ==> r@.len() == 0,
            !self.rings@.contains_key(channel_id) && channel_id == 0 ==> {
                &&& r@.to_set() == self.rings@.dom()
                &&& r@.no_duplicates()
                &&& forall|i: int, j: int| 0 <= i < j < r@.len() ==> r@[i] < r@[j]
            },
    {
        broadcast use vstd::std_specs::btree::group_btree_axioms;
        broadcast use vstd::laws_cmp::group_laws_cmp;
        let mut out: Vec<u32> = Vec::new();
        if table_get(&self.rings, channel_id).is_some() {
            out.push(channel_id);
            return out;
        }
        if channel_id != 0 {
            return out;
        }
        let keys = self.rings.keys();
        proof {
            vstd::std_specs::btree::axiom_spec_keys_iter(&self.rings);
        }
        let ghost all = vstd::std_specs::iter::IteratorSpec::remaining(&keys);
        for k in it: keys
            invariant
                all == it.seq(),
                all.unref().no_duplicates(),
                out@.len() == it.index(),
                forall|j: int| 0 <= j < it.index() ==> #[trigger] out@[j] == *all[j],
        {
            out.push(*k);
        }
        assert(out@ =~= all.unref());
        proof {
            lemma_u32_refs_obey_cmp();
        }
        assert forall|i: int, j: int| 0 <= i < j < out@.len() implies out@[i] < out@[j] by {
            assert(vstd::std_specs::cmp::OrdSpec::cmp_spec(&all[i], &all[j]) is Less);
        }
        out
    }

    /// Attaches `resource` to the context: the context keeps a share of its
    /// handle and takes over its backing memory ranges.
    pub fn attach(&mut self, resource: &mut MagmaResource<H, I>)
        ensures
            final(self).context_resources@.dom() == old(self).context_resources@.dom().insert(
                old(resource).resource_id,
            ),
            forall|id: u32|
                id != old(resource).resource_id && old(self).context_resources@.contains_key(id)
                    ==> #[trigger] final(self).context_resources@[id] == old(
                    self,
                ).context_resources@[id],
            final(self).context_resources@[old(resource).resource_id].backing_iovecs == old(
                resource,
            ).backing_iovecs,
            final(self).context_resources@[old(resource).resource_id].handle == old(
                resource,
            ).handle,
            final(resource).backing_iovecs is None,
            final(resource).resource_id == old(resource).resource_id,
            final(resource).handle == old(resource).handle,
            final(resource).blob == old(resource).blob,
            final(resource).blob_mem == old(resource).blob_mem,
            final(resource).blob_flags == old(resource).blob_flags,
            final(resource).map_info == old(resource).map_info,
            final(resource).component_mask == old(resource).component_mask,
            final(resource).size == old(resource).size,
            final(self).rings == old(self).rings,
            final(self).context_name == old(self).context_name,
    {
        let handle = match &resource.handle {
            Some(h) => Some(Arc::clone(h)),
            None => None,
        };
        let backing_iovecs = resource.backing_iovecs.take();
        table_insert(
            &mut self.context_resources,
            resource.resource_id,
            ContextResource { handle, backing_iovecs },
        );
    }

    /// Detaches the resource with `resource_id` from the context.
    pub fn detach(&mut self, resource_id: u32)
        ensures
            final(self).context_resources@ == old(self).context_resources@.remove(resource_id),
            final(self).rings == old(self).rings,
            final(self).context_name == old(self).context_name,
    {
        table_remove(&mut self.context_resources, resource_id);
    }
}

/// Ids borrowed from a table compare as the ids themselves.
proof fn lemma_u32_refs_obey_cmp()
    ensures
        vstd::laws_cmp::obeys_cmp::<&u32>(),
{
    broadcast use vstd::laws_eq::group_laws_eq;
    broadcast use vstd::laws_cmp::group_laws_cmp;
    reveal(vstd::laws_eq::obeys_eq_spec_properties);
    reveal(vstd::laws_cmp::obeys_partial_cmp_spec_properties);
    reveal(vstd::laws_cmp::obeys_cmp_partial_ord);
    reveal(vstd::laws_cmp::obeys_cmp_ord);
    assert(vstd::laws_cmp::obeys_cmp::<u32>());
}

/// Queues `fence`, exported for a `VirtioCreateFence` command on `ring_idx`,
/// behind the fences already pending on that ring.
pub fn queue_ring_fence<P, D, A, B, Q, S>(
    state: &mut MagmaDeviceState<P, D, A, B, Q, S>,
    ring_idx: u32,
    fence: magma_gpu::util::Handle,
)
    ensures
        final(state).pending_queue_fences@ == old(state).pending_queue_fences@.insert(
            ring_idx,
            pending_on(old(state).pending_queue_fences@, ring_idx).push(fence),
        ),
        final(state).physical_devices == old(state).physical_devices,
        final(state).device == old(state).device,
        final(state).address_spaces == old(state).address_spaces,
        final(state).buffers == old(state).buffers,
        final(state).queues == old(state).queues,
        final(state).sync_objs == old(state).sync_objs,
        final(state).ring_completed_seqno == old(state).ring_completed_seqno,
{
    state.pending_queue_fences.push_back(ring_idx, fence);
}

/// Decides how a guest fence on ring `fence_ring_idx` with `flags` completes.
/// A fence on ring 0 is signalled once the CPU ring is idle. Any other fence
/// takes the oldest fence exported for its ring (`InvalidResourceId` when
/// there is none), and, when the guest asked for a host-shareable fence, a
/// duplicate of it (`InvalidResourceId` when the OS refuses the duplicate; the
/// fence is taken either way). Over a run of calls on one ring, fences leave
/// in the order they were queued (`laws::law_fences_first_in_first_out`).
pub fn context_create_fence<P, D, A, B, Q, S>(
    state: &mut MagmaDeviceState<P, D, A, B, Q, S>,
    fence_ring_idx: u8,
    flags: u32,
) -> (r: RutabagaResult<FenceAction>)
    ensures
        r matches Err(e) ==> e is InvalidResourceId,
        final(state).physical_devices == old(state).physical_devices,
        final(state).device == old(state).device,
        final(state).address_spaces == old(state).address_spaces,
        final(state).buffers == old(state).buffers,
        final(state).queues == old(state).queues,
        final(state).sync_objs == old(state).sync_objs,
        final(state).ring_completed_seqno == old(state).ring_completed_seqno,
        fence_ring_idx != 0 ==> final(state).pending_queue_fences@ == after_take(
            old(state).pending_queue_fences@,
            fence_ring_idx as u32,
        ),
        fence_ring_idx != 0 ==> (r matches Ok(FenceAction::Track { handle, shared: _ }) ==> taken(
            old(state).pending_queue_fences@,
            fence_ring_idx as u32,
        ) == Some(handle)),
        ({
            let ring = fence_ring_idx as u32;
            let pending = pending_on(old(state).pending_queue_fences@, ring);
            let share = flags & RUTABAGA_FLAG_FENCE_HOST_SHAREABLE != 0;
            if ring == 0 {
                &&& r matches Ok(FenceAction::SignalNow)
                &&& final(state).pending_queue_fences@ == old(state).pending_queue_fences@
            } else if pending.len() == 0 {
                &&& r is Err
                &&& final(state).pending_queue_fences@ == old(state).pending_queue_fences@
            } else {
                &&& final(state).pending_queue_fences@ == old(
                    state,
                ).pending_queue_fences@.insert(ring, pending.drop_first())
                &&& !share ==> (r matches Ok(FenceAction::Track { handle, shared }) && handle
                    == pending[0] && shared is None)
                &&& share ==> (r is Err || (r matches Ok(FenceAction::Track { handle, shared })
                    && handle == pending[0] && shared is Some))
            }
        }),
{
    let ring = fence_ring_idx as u32;
    if ring == 0 {
        return Ok(FenceAction::SignalNow);
    }
    match state.pending_queue_fences.pop_front(ring) {
        Some(handle) => {
            if flags & RUTABAGA_FLAG_FENCE_HOST_SHAREABLE != 0 {
                let shared = shared_fence_handle(try_clone_handle(&handle))?;
                Ok(FenceAction::Track { handle, shared: Some(shared) })
            } else {
                Ok(FenceAction::Track { handle, shared: None })
            }
        },
        None => Err(RutabagaError::InvalidResourceId),
    }
}

} // verus!
