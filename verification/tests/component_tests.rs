use magma_virtio::component::capability_records;
use magma_virtio::component::capset_bytes;
use magma_virtio::component::virt_capabilities;
use magma_virtio::component::CapabilityRecord;
use magma_virtio::component::DeviceCapabilities;
use magma_virtio::component::MagmaVirtioGpu;

type Rec = CapabilityRecord<char, u32, u64>;

#[test]
fn header_reports_version_and_device_count() {
    let caps = virt_capabilities(3);
    assert_eq!(caps.capset_version, 1);
    assert_eq!(caps.num_physical_devices, 3);
}

#[test]
fn records_are_ordered_device_by_device() {
    let caps = virt_capabilities(2);
    let devices = vec![
        DeviceCapabilities { info: 'a', memory_types: Some(vec![1u32, 2]), memory_heaps: Some(vec![10u64]) },
        DeviceCapabilities { info: 'b', memory_types: None, memory_heaps: Some(vec![20u64, 30]) },
    ];
    let recs = capability_records(caps, &devices);
    let expected: Vec<Rec> = vec![
        CapabilityRecord::VirtCapabilities(caps),
        CapabilityRecord::PhysicalDeviceInfo('a'),
        CapabilityRecord::PhysicalDeviceMemoryType(1),
        CapabilityRecord::PhysicalDeviceMemoryType(2),
        CapabilityRecord::PhysicalDeviceMemoryHeap(10),
        CapabilityRecord::PhysicalDeviceInfo('b'),
        CapabilityRecord::PhysicalDeviceMemoryHeap(20),
        CapabilityRecord::PhysicalDeviceMemoryHeap(30),
    ];
    assert_eq!(recs, expected);
}

#[test]
fn no_devices_gives_only_the_header() {
    let caps = virt_capabilities(0);
    let devices: Vec<DeviceCapabilities<char, u32, u64>> = Vec::new();
    assert_eq!(capability_records(caps, &devices), vec![CapabilityRecord::VirtCapabilities(caps)]);
}

#[test]
fn capset_keeps_written_prefix() {
    let buf = [9u8, 8, 7, 6, 5];
    assert_eq!(capset_bytes(&buf, Some(3)), vec![9, 8, 7]);
    assert_eq!(capset_bytes(&buf, Some(0)), Vec::<u8>::new());
    assert_eq!(capset_bytes(&buf, None), Vec::<u8>::new());
    assert_eq!(capset_bytes(&buf, Some(5)), buf.to_vec());
}

#[test]
fn capset_info_and_capset() {
    let gpu = MagmaVirtioGpu::init(vec!["gpu"], vec![1u8, 2, 3, 4]);
    assert_eq!(gpu.get_capset_info(0), (1, 4));
    assert_eq!(gpu.get_capset(7, 1), vec![1, 2, 3, 4]);
    assert_eq!(gpu.physical_devices, vec!["gpu"]);
}
