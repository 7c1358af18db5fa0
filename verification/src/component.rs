use vstd::prelude::*;

verus! {

/// Size of the buffer the capability set is encoded into.
pub const CAPSET_BUFFER_SIZE: usize = 4096;

/// Version of the capability set this component reports.
pub const MAGMA_CAPSET_VERSION: u32 = 1;

/// The header values of the capability set.
#[derive(Clone, Copy, Debug, PartialEq, Eq)]
pub struct VirtCapabilities {
    pub capset_version: u32,
    pub num_physical_devices: u32,
}

/// What is reported of one physical device: its info, and its memory types
/// and heaps when the driver could list them. `I`, `M` and `H` are the
/// driver's device info, memory type and memory heap.
pub struct DeviceCapabilities<I, M, H> {
    pub info: I,
    pub memory_types: Option<Vec<M>>,
    pub memory_heaps: Option<Vec<H>>,
}

/// One structure of the encoded capability set.
#[derive(Clone, Copy, Debug, PartialEq, Eq)]
pub enum CapabilityRecord<I, M, H> {
    VirtCapabilities(VirtCapabilities),
    PhysicalDeviceInfo(I),
    PhysicalDeviceMemoryType(M),
    PhysicalDeviceMemoryHeap(H),
}

/// The header of the capability set for `num_devices` physical devices.
pub fn virt_capabilities(num_devices: usize) -> (r: VirtCapabilities)
    ensures
        r.capset_version == MAGMA_CAPSET_VERSION,
        r.num_physical_devices == num_devices as u32,
{
    VirtCapabilities {
        capset_version: MAGMA_CAPSET_VERSION,
        num_physical_devices: num_devices as u32,
    }
}

/// The memory types of a device as records (none when they could not be
/// listed).
pub open spec fn memory_type_records<I, M, H>(types: Option<Vec<M>>) -> Seq<
    CapabilityRecord<I, M, H>,
> {
    match types {
        Some(v) => v@.map_values(|m: M| CapabilityRecord::PhysicalDeviceMemoryType(m)),
        None => Seq::empty(),
    }
}

/// The memory heaps of a device as records (none when they could not be
/// listed).
pub open spec fn memory_heap_records<I, M, H>(heaps: Option<Vec<H>>) -> Seq<
    CapabilityRecord<I, M, H>,
> {
    match heaps {
        Some(v) => v@.map_values(|h: H| CapabilityRecord::PhysicalDeviceMemoryHeap(h)),
        None => Seq::empty(),
    }
}

/// The records of one device: its info, then its memory types, then its
/// memory heaps.
pub open spec fn device_records<I, M, H>(dev: DeviceCapabilities<I, M, H>) -> Seq<
    CapabilityRecord<I, M, H>,
> {
    seq![CapabilityRecord::PhysicalDeviceInfo(dev.info)] + memory_type_records(dev.memory_types)
        + memory_heap_records(dev.memory_heaps)
}

/// The records of a list of devices, device after device.
pub open spec fn devices_records<I, M, H>(devs: Seq<DeviceCapabilities<I, M, H>>) -> Seq<
    CapabilityRecord<I, M, H>,
>
    decreases devs.len(),
{
    if devs.len() == 0 {
        Seq::empty()
    } else {
        devices_records(devs.drop_last()) + device_records(devs.last())
    }
}

/// The whole capability set: the header, then the records of every device.
pub open spec fn capability_set<I, M, H>(
    caps: VirtCapabilities,
    devs: Seq<DeviceCapabilities<I, M, H>>,
) -> Seq<CapabilityRecord<I, M, H>> {
    seq![CapabilityRecord::VirtCapabilities(caps)] + devices_records(devs)
}

/// Appends the memory types of a device, as records, to `out` (nothing when
/// they could not be listed).
fn push_memory_types<I: Copy, M: Copy, H: Copy>(
    out: &mut Vec<CapabilityRecord<I, M, H>>,
    types: &Option<Vec<M>>,
)
    ensures
        final(out)@ == old(out)@ + memory_type_records::<I, M, H>(*types),
{
    match types {
        Some(v) => {
            let ghost start = out@;
            let mut i: usize = 0;
            while i < v.len()
                invariant
                    i <= v@.len(),
                    out@ == start + v@.take(i as int).map_values(
                        |m: M| CapabilityRecord::<I, M, H>::PhysicalDeviceMemoryType(m),
                    ),
                decreases v@.len() - i,
            {
                out.push(CapabilityRecord::PhysicalDeviceMemoryType(v[i]));
                i = i + 1;
                assert(out@ =~= start + v@.take(i as int).map_values(
                    |m: M| CapabilityRecord::<I, M, H>::PhysicalDeviceMemoryType(m),
                ));
            }
            assert(v@.take(i as int) =~= v@);
        },
        None => {
            assert(out@ =~= old(out)@ + memory_type_records::<I, M, H>(*types));
        },
    }
}

/// Appends the memory heaps of a device, as records, to `out` (nothing when
/// they could not be listed).
fn push_memory_heaps<I: Copy, M: Copy, H: Copy>(
    out: &mut Vec<CapabilityRecord<I, M, H>>,
    heaps: &Option<Vec<H>>,
)
    ensures
        final(out)@ == old(out)@ + memory_heap_records::<I, M, H>(*heaps),
{
    match heaps {
        Some(v) => {
            let ghost start = out@;
            let mut i: usize = 0;
            while i < v.len()
                invariant
                    i <= v@.len(),
                    out@ == start + v@.take(i as int).map_values(
                        |h: H| CapabilityRecord::<I, M, H>::PhysicalDeviceMemoryHeap(h),
                    ),
                decreases v@.len() - i,
            {
                out.push(CapabilityRecord::PhysicalDeviceMemoryHeap(v[i]));
                i = i + 1;
                assert(out@ =~= start + v@.take(i as int).map_values(
                    |h: H| CapabilityRecord::<I, M, H>::PhysicalDeviceMemoryHeap(h),
                ));
            }
            assert(v@.take(i as int) =~= v@);
        },
        None => {
            assert(out@ =~= old(out)@ + memory_heap_records::<I, M, H>(*heaps));
        },
    }
}

/// The structures of the capability set in the order they are encoded: the
/// header, then for each device its info, its memory types and its memory
/// heaps.
pub fn capability_records<I: Copy, M: Copy, H: Copy>(
    caps: VirtCapabilities,
    devices: &Vec<DeviceCapabilities<I, M, H>>,
) -> (r: Vec<CapabilityRecord<I, M, H>>)
    ensures
        r@ == capability_set(caps, devices@),
{
    let mut out: Vec<CapabilityRecord<I, M, H>> = Vec::new();
    out.push(CapabilityRecord::VirtCapabilities(caps));
    let mut i: usize = 0;
    while i < devices.len()
        invariant
            i <= devices@.len(),
            out@ == capability_set(caps, devices@.take(i as int)),
        decreases devices@.len() - i,
    {
        let dev = &devices[i];
        let ghost before = out@;
        out.push(CapabilityRecord::PhysicalDeviceInfo(dev.info));
        push_memory_types(&mut out, &dev.memory_types);
        push_memory_heaps(&mut out, &dev.memory_heaps);
        proof {
            assert(devices@.take(i + 1).drop_last() =~= devices@.take(i as int));
            assert(devices@.take(i + 1).last() == devices@[i as int]);
            assert(out@ =~= before + device_records(devices@[i as int]));
        }
        i = i + 1;
    }
    assert(devices@.take(i as int) =~= devices@);
    out
}

/// The encoded capability set kept by the component: the first `written`
/// bytes of the encoding buffer, or nothing when encoding failed (`None`).
pub fn capset_bytes(buf: &[u8], written: Option<usize>) -> (r: Vec<u8>)
    requires
        written matches Some(n) ==> n <= buf@.len(),
    ensures
        r@ == match written {
            Some(n) => buf@.take(n as int),
            None => Seq::<u8>::empty(),
        },
{
    let n = match written {
        Some(n) => n,
        None => 0,
    };
    let mut out: Vec<u8> = Vec::new();
    let mut i: usize = 0;
    while i < n
        invariant
            i <= n,
            n <= buf@.len(),
            out@ == buf@.take(i as int),
        decreases n - i,
    {
        out.push(buf[i]);
        i = i + 1;
        assert(out@ =~= buf@.take(i as int));
    }
    out
}

/// The Magma component: its encoded capability set and the physical devices
/// every new context may open (of the driver's type `P`).
pub struct MagmaVirtioGpu<P> {
    pub caps_bytes: Vec<u8>,
    pub physical_devices: Vec<P>,
}

impl<P> MagmaVirtioGpu<P> {
    /// Initializes the component with the physical devices found and the
    /// capability set encoded for them.
    pub fn init(physical_devices: Vec<P>, caps_bytes: Vec<u8>) -> (r: Self)
        ensures
            r.caps_bytes@ == caps_bytes@,
            r.physical_devices@ == physical_devices@,
    {
        MagmaVirtioGpu { caps_bytes, physical_devices }
    }

    /// The version and size of the capability set (for every capset id).
    pub fn get_capset_info(&self, capset_id: u32) -> (r: (u32, u32))
        ensures
            r.0 == MAGMA_CAPSET_VERSION,
            r.1 == self.caps_bytes@.len() as u32,
    {
        (MAGMA_CAPSET_VERSION, self.caps_bytes.len() as u32)
    }

    /// The capability set (for every capset id and version).
    pub fn get_capset(&self, capset_id: u32, version: u32) -> (r: Vec<u8>)
        ensures
            r@ == self.caps_bytes@,
    {
        let mut out: Vec<u8> = Vec::new();
        let mut i: usize = 0;
        while i < self.caps_bytes.len()
            invariant
                i <= self.caps_bytes@.len(),
                out@ == self.caps_bytes@.take(i as int),
            decreases self.caps_bytes@.len() - i,
        {
            out.push(self.caps_bytes[i]);
            i = i + 1;
            assert(out@ =~= self.caps_bytes@.take(i as int));
        }
        assert(self.caps_bytes@.take(i as int) =~= self.caps_bytes@);
        out
    }
}

} // verus!
