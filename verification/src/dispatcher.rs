use vstd::prelude::*;

use crate::device_state::lookup;
use crate::device_state::table_get;
use crate::device_state::table_insert;
use crate::device_state::table_remove;
use crate::device_state::MagmaDeviceState;
use crate::error::RutabagaError;
use crate::error::RutabagaResult;

verus! {

/// A guest Magma command, reduced to the ids and numbers that decide how it
/// is handled. The payloads that are only handed on to the driver (creation
/// infos, mapping ranges, flags) stay with the caller.
#[derive(Clone, Copy, Debug, PartialEq, Eq)]
pub enum MagmaCommand {
    CreateDevice { physical_device: u32 },
    CreateAddressSpace { address_space: u32 },
    CreateQueue { address_space: u32, queue: u32 },
    CreateBuffer { buffer_out: u32 },
    BufferClose { buffer: u32 },
    MapBufferGpu { address_space: u32, buffer: u32 },
    UnmapBufferGpu { address_space: u32 },
    /// `wait_seqno` is the CPU-ring sequence number to wait for first (0: none).
    SubmitCommand { wait_seqno: u32, queue: u32 },
    CreateSyncObj { sync_obj: u32 },
    SyncObjSignal { sync_obj: u32 },
    SyncObjTimelineSignal { sync_obj: u32 },
    SyncObjClose,
    VirtioSyncObjClose { sync_obj: u32, ring_idx: u32, wait_seqno: u32 },
    /// Any other command: accepted and ignored.
    Other,
}

/// What the caller must do next to carry out a command, with the objects the
/// driver calls act on.
pub enum DispatchStep<'a, P, D, A, B, S> {
    /// The command is complete.
    Done,
    /// Open a device on `physical_device`, then `complete_create_device`.
    CreateDevice { physical_device: &'a P },
    /// Create an address space on `device`, then `complete_create_address_space`.
    CreateAddressSpace { device: &'a D, id: u32 },
    /// Create a queue on `device` in `address_space`, then `complete_create_queue`.
    CreateQueue { device: &'a D, address_space: &'a A, id: u32 },
    /// Create a buffer on `device`, then `complete_create_buffer`.
    CreateBuffer { device: &'a D, id: u32 },
    /// Drop the buffer with id `id` (`close_buffer`).
    CloseBuffer { id: u32 },
    /// Map `buffer` into `address_space`, then `resource_call_result`.
    MapBufferGpu { address_space: &'a A, buffer: &'a B },
    /// Unmap a range of `address_space`, then `resource_call_result`.
    UnmapBufferGpu { address_space: &'a A },
    /// Wait until the CPU ring reaches `wait_cpu_seqno` if given, then submit on
    /// the queue with id `queue_id` (`submit_queue`).
    SubmitCommand { wait_cpu_seqno: Option<u64>, queue_id: u32 },
    /// Create a sync object on `device`, then `complete_create_sync_obj`.
    CreateSyncObj { device: &'a D, id: u32 },
    /// Signal `sync_obj`, then `resource_call_result`.
    SignalSyncObj { sync_obj: &'a S },
    /// Signal a timeline point of `sync_obj`, then `resource_call_result`.
    TimelineSignalSyncObj { sync_obj: &'a S },
    /// Wait until ring `.0` reaches `.1` if given, then drop the sync object
    /// with id `id` (`close_sync_obj`).
    CloseSyncObj { wait_ring_seqno: Option<(u32, u64)>, id: u32 },
}

/// Turns guest Magma commands into driver calls on a device state.
pub struct MagmaDispatcher {
    default_queue_id: u32,
}

/// The queue a submission goes to: the one it names, or the default queue when
/// it names queue 0.
pub open spec fn spec_submit_queue_id(queue: u32, default_queue_id: u32) -> u32 {
    if queue != 0 {
        queue
    } else {
        default_queue_id
    }
}

/// `Ok(v)` when `id` names an object of the table, else `InvalidResourceId`.
pub fn lookup_or_invalid<V>(table: &std::collections::BTreeMap<u32, V>, id: u32) -> (r:
    RutabagaResult<&V>)
    ensures
        r matches Ok(v) ==> lookup(table@, id) == Some(*v),
        r is Err <==> lookup(table@, id) is None,
        r matches Err(e) ==> e is InvalidResourceId,
{
    match table_get(table, id) {
        Some(v) => Ok(v),
        None => Err(RutabagaError::InvalidResourceId),
    }
}

/// `Ok(d)` when the context has opened a device, else `InvalidResourceId`.
pub fn device_or_invalid<D>(device: &Option<D>) -> (r: RutabagaResult<&D>)
    ensures
        r matches Ok(d) ==> *device == Some(*d),
        r is Err <==> device is None,
        r matches Err(e) ==> e is InvalidResourceId,
{
    match device {
        Some(d) => Ok(d),
        None => Err(RutabagaError::InvalidResourceId),
    }
}

/// The outcome of a driver call that acts on an existing object: any failure
/// is reported as `InvalidResourceId`.
pub fn resource_call_result<T, E>(result: Result<T, E>) -> (r: RutabagaResult<()>)
    ensures
        r is Ok <==> result is Ok,
        r matches Err(e) ==> e is InvalidResourceId,
{
    match result {
        Ok(_) => Ok(()),
        Err(_) => Err(RutabagaError::InvalidResourceId),
    }
}

/// The outcome of submitting a command buffer: any failure is reported as
/// `InvalidCommandBuffer`.
pub fn command_call_result<T, E>(result: Result<T, E>) -> (r: RutabagaResult<()>)
    ensures
        r is Ok <==> result is Ok,
        r matches Err(e) ==> e is InvalidCommandBuffer,
{
    match result {
        Ok(_) => Ok(()),
        Err(_) => Err(RutabagaError::InvalidCommandBuffer),
    }
}

impl MagmaDispatcher {
    /// The queue id used when a submission names queue 0.
    pub closed spec fn spec_default_queue_id(&self) -> u32 {
        self.default_queue_id
    }

    /// A dispatcher whose submissions to queue 0 go to `default_queue_id`.
    pub fn new(default_queue_id: u32) -> (r: Self)
        ensures
            r.spec_default_queue_id() == default_queue_id,
    {
        MagmaDispatcher { default_queue_id }
    }

    /// The queue a submission naming `queue` goes to.
    pub fn submit_queue_id(&self, queue: u32) -> (id: u32)
        ensures
            id == spec_submit_queue_id(queue, self.spec_default_queue_id()),
            queue != 0 ==> id == queue,
            queue == 0 ==> id == self.spec_default_queue_id(),
    {
        if queue != 0 {
            queue
        } else {
            self.default_queue_id
        }
    }

    /// Decides how `cmd` is carried out on `state`: which objects it needs,
    /// and whether it fails before any driver call because one is missing.
    pub fn dispatch<'a, P, D, A, B, Q, S>(
        &self,
        state: &'a MagmaDeviceState<P, D, A, B, Q, S>,
        cmd: &MagmaCommand,
    ) -> (r: RutabagaResult<DispatchStep<'a, P, D, A, B, S>>)
        ensures
            r matches Err(e) ==> e is InvalidResourceId,
            match *cmd {
                MagmaCommand::CreateDevice { physical_device } => {
                    if physical_device < state.physical_devices@.len() {
                        r matches Ok(DispatchStep::CreateDevice { physical_device: p })
                            && *p == state.physical_devices@[physical_device as int]
                    } else {
                        r is Err
                    }
                },
                MagmaCommand::CreateAddressSpace { address_space } => {
                    if state.device is Some {
                        r matches Ok(DispatchStep::CreateAddressSpace { device, id })
                            && state.device == Some(*device) && id == address_space
                    } else {
                        r is Err
                    }
                },
                MagmaCommand::CreateQueue { address_space, queue } => {
                    if state.device is Some && state.address_spaces@.contains_key(address_space) {
                        r matches Ok(DispatchStep::CreateQueue { device, address_space: a, id })
                            && state.device == Some(*device)
                            && *a == state.address_spaces@[address_space] && id == queue
                    } else {
                        r is Err
                    }
                },
                MagmaCommand::CreateBuffer { buffer_out } => {
                    if state.device is Some {
                        r matches Ok(DispatchStep::CreateBuffer { device, id })
                            && state.device == Some(*device) && id == buffer_out
                    } else {
                        r is Err
                    }
                },
                MagmaCommand::BufferClose { buffer } => {
                    r matches Ok(DispatchStep::CloseBuffer { id }) && id == buffer
                },
                MagmaCommand::MapBufferGpu { address_space, buffer } => {
                    if state.address_spaces@.contains_key(address_space)
                        && state.buffers@.contains_key(buffer) {
                        r matches Ok(DispatchStep::MapBufferGpu { address_space: a, buffer: b })
                            && *a == state.address_spaces@[address_space]
                            && *b == state.buffers@[buffer]
                    } else {
                        r is Err
                    }
                },
                MagmaCommand::UnmapBufferGpu { address_space } => {
                    if state.address_spaces@.contains_key(address_space) {
                        r matches Ok(DispatchStep::UnmapBufferGpu { address_space: a })
                            && *a == state.address_spaces@[address_space]
                    } else {
                        r is Err
                    }
                },
                MagmaCommand::SubmitCommand { wait_seqno, queue } => {
                    r matches Ok(DispatchStep::SubmitCommand { wait_cpu_seqno, queue_id: id })
                        && wait_cpu_seqno == (if wait_seqno > 0 {
                        Some(wait_seqno as u64)
                    } else {
                        None
                    }) && id == spec_submit_queue_id(queue, self.spec_default_queue_id())
                },
                MagmaCommand::CreateSyncObj { sync_obj } => {
                    if state.device is Some {
                        r matches Ok(DispatchStep::CreateSyncObj { device, id })
                            && state.device == Some(*device) && id == sync_obj
                    } else {
                        r is Err
                    }
                },
                MagmaCommand::SyncObjSignal { sync_obj } => {
                    if state.sync_objs@.contains_key(sync_obj) {
                        r matches Ok(DispatchStep::SignalSyncObj { sync_obj: s })
                            && *s == state.sync_objs@[sync_obj]
                    } else {
                        r is Err
                    }
                },
                MagmaCommand::SyncObjTimelineSignal { sync_obj } => {
                    if state.sync_objs@.contains_key(sync_obj) {
                        r matches Ok(DispatchStep::TimelineSignalSyncObj { sync_obj: s })
                            && *s == state.sync_objs@[sync_obj]
                    } else {
                        r is Err
                    }
                },
                MagmaCommand::SyncObjClose => r matches Ok(DispatchStep::Done),
                MagmaCommand::VirtioSyncObjClose { sync_obj, ring_idx, wait_seqno } => {
                    r matches Ok(DispatchStep::CloseSyncObj { wait_ring_seqno, id })
                        && id == sync_obj && wait_ring_seqno == (if ring_idx > 0 && wait_seqno > 0 {
                        Some((ring_idx, wait_seqno as u64))
                    } else {
                        None
                    })
                },
                MagmaCommand::Other => r matches Ok(DispatchStep::Done),
            },
    {
        match *cmd {
            MagmaCommand::CreateDevice { physical_device } => {
                let idx = physical_device as usize;
                if physical_device as u64 >= state.physical_devices.len() as u64 {
                    return Err(RutabagaError::InvalidResourceId);
                }
                Ok(DispatchStep::CreateDevice { physical_device: &state.physical_devices[idx] })
            },
            MagmaCommand::CreateAddressSpace { address_space } => {
                let device = device_or_invalid(&state.device)?;
                Ok(DispatchStep::CreateAddressSpace { device, id: address_space })
            },
            MagmaCommand::CreateQueue { address_space, queue } => {
                let device = device_or_invalid(&state.device)?;
                let a = lookup_or_invalid(&state.address_spaces, address_space)?;
                Ok(DispatchStep::CreateQueue { device, address_space: a, id: queue })
            },
            MagmaCommand::CreateBuffer { buffer_out } => {
                let device = device_or_invalid(&state.device)?;
                Ok(DispatchStep::CreateBuffer { device, id: buffer_out })
            },
            MagmaCommand::BufferClose { buffer } => Ok(DispatchStep::CloseBuffer { id: buffer }),
            MagmaCommand::MapBufferGpu { address_space, buffer } => {
                let a = lookup_or_invalid(&state.address_spaces, address_space)?;
                let b = lookup_or_invalid(&state.buffers, buffer)?;
                Ok(DispatchStep::MapBufferGpu { address_space: a, buffer: b })
            },
            MagmaCommand::UnmapBufferGpu { address_space } => {
                let a = lookup_or_invalid(&state.address_spaces, address_space)?;
                Ok(DispatchStep::UnmapBufferGpu { address_space: a })
            },
            MagmaCommand::SubmitCommand { wait_seqno, queue } => {
                let wait_cpu_seqno = if wait_seqno > 0 {
                    Some(wait_seqno as u64)
                } else {
                    None
                };
                Ok(DispatchStep::SubmitCommand { wait_cpu_seqno, queue_id: self.submit_queue_id(queue) })
            },
            MagmaCommand::CreateSyncObj { sync_obj } => {
                let device = device_or_invalid(&state.device)?;
                Ok(DispatchStep::CreateSyncObj { device, id: sync_obj })
            },
            MagmaCommand::SyncObjSignal { sync_obj } => {
                let s = lookup_or_invalid(&state.sync_objs, sync_obj)?;
                Ok(DispatchStep::SignalSyncObj { sync_obj: s })
            },
            MagmaCommand::SyncObjTimelineSignal { sync_obj } => {
                let s = lookup_or_invalid(&state.sync_objs, sync_obj)?;
                Ok(DispatchStep::TimelineSignalSyncObj { sync_obj: s })
            },
            MagmaCommand::SyncObjClose => Ok(DispatchStep::Done),
            MagmaCommand::VirtioSyncObjClose { sync_obj, ring_idx, wait_seqno } => {
                let wait_ring_seqno = if ring_idx > 0 && wait_seqno > 0 {
                    Some((ring_idx, wait_seqno as u64))
                } else {
                    None
                };
                Ok(DispatchStep::CloseSyncObj { wait_ring_seqno, id: sync_obj })
            },
            MagmaCommand::Other => Ok(DispatchStep::Done),
        }
    }
}

} // verus!
