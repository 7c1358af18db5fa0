use magma_virtio::device_state::MagmaDeviceState;
use magma_virtio::dispatcher::command_call_result;
use magma_virtio::dispatcher::resource_call_result;
use magma_virtio::dispatcher::DispatchStep;
use magma_virtio::dispatcher::MagmaCommand;
use magma_virtio::dispatcher::MagmaDispatcher;
use magma_virtio::error::RutabagaError;
use magma_virtio::submit::ExtRecord;
use magma_virtio::submit::LinkedExtension;
use magma_virtio::submit::SubmitExtChain;

type State = MagmaDeviceState<&'static str, String, u32, u64, u16, i64>;

fn fresh() -> State {
    MagmaDeviceState::new(vec!["gpu0", "gpu1"])
}

fn with_device() -> State {
    let mut st = fresh();
    st.set_device("dev".to_string());
    st
}

fn is_invalid_resource<T>(r: &Result<T, RutabagaError>) -> bool {
    matches!(r, Err(RutabagaError::InvalidResourceId))
}

#[test]
fn create_device_picks_physical_device() {
    let d = MagmaDispatcher::new(0);
    let st = fresh();
    match d.dispatch(&st, &MagmaCommand::CreateDevice { physical_device: 1 }) {
        Ok(DispatchStep::CreateDevice { physical_device }) => assert_eq!(*physical_device, "gpu1"),
        _ => panic!("unexpected step"),
    }
    let r = d.dispatch(&st, &MagmaCommand::CreateDevice { physical_device: 2 });
    assert!(is_invalid_resource(&r));
}

#[test]
fn creations_need_a_device() {
    let d = MagmaDispatcher::new(0);
    let st = fresh();
    for cmd in [
        MagmaCommand::CreateAddressSpace { address_space: 1 },
        MagmaCommand::CreateBuffer { buffer_out: 1 },
        MagmaCommand::CreateSyncObj { sync_obj: 1 },
        MagmaCommand::CreateQueue { address_space: 1, queue: 2 },
    ] {
        assert!(is_invalid_resource(&d.dispatch(&st, &cmd)));
    }
}

#[test]
fn creations_with_a_device() {
    let d = MagmaDispatcher::new(0);
    let mut st = with_device();
    match d.dispatch(&st, &MagmaCommand::CreateAddressSpace { address_space: 3 }) {
        Ok(DispatchStep::CreateAddressSpace { device, id }) => {
            assert_eq!(device, "dev");
            assert_eq!(id, 3);
        }
        _ => panic!("unexpected step"),
    }
    match d.dispatch(&st, &MagmaCommand::CreateBuffer { buffer_out: 4 }) {
        Ok(DispatchStep::CreateBuffer { device, id }) => {
            assert_eq!(device, "dev");
            assert_eq!(id, 4);
        }
        _ => panic!("unexpected step"),
    }
    match d.dispatch(&st, &MagmaCommand::CreateSyncObj { sync_obj: 5 }) {
        Ok(DispatchStep::CreateSyncObj { device, id }) => {
            assert_eq!(device, "dev");
            assert_eq!(id, 5);
        }
        _ => panic!("unexpected step"),
    }
    // A queue needs its address space too.
    let r = d.dispatch(&st, &MagmaCommand::CreateQueue { address_space: 3, queue: 6 });
    assert!(is_invalid_resource(&r));
    st.complete_create_address_space::<()>(3, Ok(30)).unwrap();
    match d.dispatch(&st, &MagmaCommand::CreateQueue { address_space: 3, queue: 6 }) {
        Ok(DispatchStep::CreateQueue { device, address_space, id }) => {
            assert_eq!(device, "dev");
            assert_eq!(*address_space, 30);
            assert_eq!(id, 6);
        }
        _ => panic!("unexpected step"),
    }
}

#[test]
fn mapping_needs_address_space_and_buffer() {
    let d = MagmaDispatcher::new(0);
    let mut st = with_device();
    let map = MagmaCommand::MapBufferGpu { address_space: 1, buffer: 2 };
    assert!(is_invalid_resource(&d.dispatch(&st, &map)));
    st.complete_create_address_space::<()>(1, Ok(10)).unwrap();
    assert!(is_invalid_resource(&d.dispatch(&st, &map)));
    st.complete_create_buffer::<()>(2, Ok(20)).unwrap();
    match d.dispatch(&st, &map) {
        Ok(DispatchStep::MapBufferGpu { address_space, buffer }) => {
            assert_eq!(*address_space, 10);
            assert_eq!(*buffer, 20);
        }
        _ => panic!("unexpected step"),
    }
    match d.dispatch(&st, &MagmaCommand::UnmapBufferGpu { address_space: 1 }) {
        Ok(DispatchStep::UnmapBufferGpu { address_space }) => assert_eq!(*address_space, 10),
        _ => panic!("unexpected step"),
    }
    let r = d.dispatch(&st, &MagmaCommand::UnmapBufferGpu { address_space: 9 });
    assert!(is_invalid_resource(&r));
}

#[test]
fn buffer_close_never_fails() {
    let d = MagmaDispatcher::new(0);
    let st = fresh();
    match d.dispatch(&st, &MagmaCommand::BufferClose { buffer: 12 }) {
        Ok(DispatchStep::CloseBuffer { id }) => assert_eq!(id, 12),
        _ => panic!("unexpected step"),
    }
}

#[test]
fn submit_goes_to_default_queue_for_queue_zero() {
    let d = MagmaDispatcher::new(77);
    let st = fresh();
    match d.dispatch(&st, &MagmaCommand::SubmitCommand { wait_seqno: 0, queue: 0 }) {
        Ok(DispatchStep::SubmitCommand { wait_cpu_seqno, queue_id }) => {
            assert_eq!(wait_cpu_seqno, None);
            assert_eq!(queue_id, 77);
        }
        _ => panic!("unexpected step"),
    }
    match d.dispatch(&st, &MagmaCommand::SubmitCommand { wait_seqno: 5, queue: 3 }) {
        Ok(DispatchStep::SubmitCommand { wait_cpu_seqno, queue_id }) => {
            assert_eq!(wait_cpu_seqno, Some(5));
            assert_eq!(queue_id, 3);
        }
        _ => panic!("unexpected step"),
    }
    assert_eq!(d.submit_queue_id(0), 77);
    assert_eq!(d.submit_queue_id(1), 1);
}

#[test]
fn sync_obj_signals_need_the_object() {
    let d = MagmaDispatcher::new(0);
    let mut st = fresh();
    let sig = MagmaCommand::SyncObjSignal { sync_obj: 4 };
    let tl = MagmaCommand::SyncObjTimelineSignal { sync_obj: 4 };
    assert!(is_invalid_resource(&d.dispatch(&st, &sig)));
    assert!(is_invalid_resource(&d.dispatch(&st, &tl)));
    st.complete_create_sync_obj::<()>(4, Ok(-4)).unwrap();
    match d.dispatch(&st, &sig) {
        Ok(DispatchStep::SignalSyncObj { sync_obj }) => assert_eq!(*sync_obj, -4),
        _ => panic!("unexpected step"),
    }
    match d.dispatch(&st, &tl) {
        Ok(DispatchStep::TimelineSignalSyncObj { sync_obj }) => assert_eq!(*sync_obj, -4),
        _ => panic!("unexpected step"),
    }
}

#[test]
fn sync_obj_closes() {
    let d = MagmaDispatcher::new(0);
    let st = fresh();
    assert!(matches!(
        d.dispatch(&st, &MagmaCommand::SyncObjClose),
        Ok(DispatchStep::Done)
    ));
    match d.dispatch(
        &st,
        &MagmaCommand::VirtioSyncObjClose { sync_obj: 2, ring_idx: 3, wait_seqno: 4 },
    ) {
        Ok(DispatchStep::CloseSyncObj { wait_ring_seqno, id }) => {
            assert_eq!(wait_ring_seqno, Some((3, 4)));
            assert_eq!(id, 2);
        }
        _ => panic!("unexpected step"),
    }
    match d.dispatch(
        &st,
        &MagmaCommand::VirtioSyncObjClose { sync_obj: 2, ring_idx: 0, wait_seqno: 4 },
    ) {
        Ok(DispatchStep::CloseSyncObj { wait_ring_seqno, id }) => {
            assert_eq!(wait_ring_seqno, None);
            assert_eq!(id, 2);
        }
        _ => panic!("unexpected step"),
    }
    match d.dispatch(
        &st,
        &MagmaCommand::VirtioSyncObjClose { sync_obj: 2, ring_idx: 3, wait_seqno: 0 },
    ) {
        Ok(DispatchStep::CloseSyncObj { wait_ring_seqno, .. }) => {
            assert_eq!(wait_ring_seqno, None)
        }
        _ => panic!("unexpected step"),
    }
    assert!(matches!(d.dispatch(&st, &MagmaCommand::Other), Ok(DispatchStep::Done)));
}

#[test]
fn driver_failures_map_to_errors() {
    assert!(resource_call_result::<(), ()>(Ok(())).is_ok());
    assert!(matches!(
        resource_call_result::<(), ()>(Err(())),
        Err(RutabagaError::InvalidResourceId)
    ));
    assert!(command_call_result::<u8, ()>(Ok(1)).is_ok());
    assert!(matches!(
        command_call_result::<(), ()>(Err(())),
        Err(RutabagaError::InvalidCommandBuffer)
    ));
}

#[test]
fn extension_chain_keeps_last_of_each_kind() {
    let mut chain: SubmitExtChain<&str, u32> = SubmitExtChain::new(0x100);
    assert!(chain.has_next());
    chain.accept(Some(ExtRecord::BufferInfo { info: 1, p_next: 0x200 })).unwrap();
    chain.accept(Some(ExtRecord::BufferInfo { info: 2, p_next: 0x300 })).unwrap();
    assert!(chain.has_next());
    chain.accept(Some(ExtRecord::AddressSpaceInfo { info: "as", p_next: 0 })).unwrap();
    assert!(!chain.has_next());
    match chain.into_linked() {
        LinkedExtension::AddressSpaceInfo(a) => assert_eq!(a, "as"),
        _ => panic!("address space info must be linked first"),
    }
}

#[test]
fn extension_chain_links_buffer_info_without_address_space() {
    let mut chain: SubmitExtChain<&str, u32> = SubmitExtChain::new(1);
    chain.accept(Some(ExtRecord::BufferInfo { info: 9, p_next: 0 })).unwrap();
    assert!(!chain.has_next());
    assert!(matches!(chain.into_linked(), LinkedExtension::BufferInfo(9)));
    let empty: SubmitExtChain<&str, u32> = SubmitExtChain::new(0);
    assert!(!empty.has_next());
    assert!(matches!(empty.into_linked(), LinkedExtension::NoExtension));
}

#[test]
fn extension_chain_rejects_bad_structures() {
    let mut chain: SubmitExtChain<&str, u32> = SubmitExtChain::new(5);
    assert!(matches!(chain.accept(None), Err(RutabagaError::InvalidCommandBuffer)));
    assert!(matches!(
        chain.accept(Some(ExtRecord::Unrecognized)),
        Err(RutabagaError::InvalidCommandBuffer)
    ));
    assert!(chain.has_next());
    assert!(matches!(chain.into_linked(), LinkedExtension::NoExtension));
}
