use magma_virtio::device_state::MagmaDeviceState;
use magma_virtio::device_state::SeqnoWait;
use magma_virtio::error::RutabagaError;
use magma_virtio::fences::PendingFences;
use magma_virtio::seqno::RingSeqnos;

type State = MagmaDeviceState<&'static str, String, u32, u64, u16, i64>;

fn state_with_two_gpus() -> State {
    MagmaDeviceState::new(vec!["gpu0", "gpu1"])
}

#[test]
fn ring_seqnos_start_at_zero() {
    let s = RingSeqnos::new();
    for ring in 0..64u32 {
        assert_eq!(s.completed(ring), 0);
    }
}

#[test]
fn slot_index_folds_modulo_64() {
    assert_eq!(RingSeqnos::slot_index(0), 0);
    assert_eq!(RingSeqnos::slot_index(63), 63);
    assert_eq!(RingSeqnos::slot_index(64), 0);
    assert_eq!(RingSeqnos::slot_index(70), 6);
    assert_eq!(RingSeqnos::slot_index(u32::MAX), 63);
}

#[test]
fn completion_only_moves_forward() {
    let mut s = RingSeqnos::new();
    assert!(s.update_ring_completed_seqno(3, 10));
    assert_eq!(s.completed(3), 10);
    assert!(!s.update_ring_completed_seqno(3, 7));
    assert_eq!(s.completed(3), 10);
    assert!(!s.update_ring_completed_seqno(3, 10));
    assert!(s.update_ring_completed_seqno(3, 11));
    assert_eq!(s.completed(3), 11);
    assert_eq!(s.completed(4), 0);
}

#[test]
fn rings_64_apart_share_a_slot() {
    let mut s = RingSeqnos::new();
    s.update_ring_completed_seqno(65, 5);
    assert_eq!(s.completed(1), 5);
    assert!(s.is_ring_seqno_reached(1, 5));
    assert!(!s.is_ring_seqno_reached(1, 6));
}

#[test]
fn waiters_are_released_by_completion() {
    let mut st = state_with_two_gpus();
    assert_eq!(st.wait_for_ring_seqno(2, 1), SeqnoWait::Pending);
    assert_eq!(st.wait_for_ring_seqno(2, 0), SeqnoWait::Reached);
    assert!(st.update_ring_completed_seqno(2, 9));
    assert_eq!(st.wait_for_ring_seqno(2, 9), SeqnoWait::Reached);
    assert_eq!(st.wait_for_ring_seqno(2, 10), SeqnoWait::Pending);
    assert_eq!(st.wait_for_cpu_seqno(1), SeqnoWait::Pending);
    st.update_ring_completed_seqno(0, 1);
    assert_eq!(st.wait_for_cpu_seqno(1), SeqnoWait::Reached);
    st.update_ring_completed_seqno(64, 4);
    assert_eq!(st.wait_for_cpu_seqno(4), SeqnoWait::Reached);
}

#[test]
fn pending_fences_come_out_in_order() {
    let mut f: PendingFences<u32> = PendingFences::new();
    assert_eq!(f.pop_front(1), None);
    f.push_back(1, 10);
    f.push_back(2, 20);
    f.push_back(1, 11);
    assert_eq!(f.pop_front(1), Some(10));
    assert_eq!(f.pop_front(1), Some(11));
    assert_eq!(f.pop_front(1), None);
    assert_eq!(f.pop_front(2), Some(20));
    assert_eq!(f.pop_front(2), None);
}

#[test]
fn new_state_is_empty() {
    let st = state_with_two_gpus();
    assert_eq!(st.physical_devices, vec!["gpu0", "gpu1"]);
    assert!(st.get_device().is_none());
    assert!(st.address_spaces.is_empty());
    assert!(st.buffers.is_empty());
    assert!(st.queues.is_empty());
    assert!(st.sync_objs.is_empty());
    assert_eq!(st.ring_completed_seqno.completed(5), 0);
}

#[test]
fn set_device_replaces_device() {
    let mut st = state_with_two_gpus();
    st.set_device("a".to_string());
    assert_eq!(st.get_device(), Some(&"a".to_string()));
    st.set_device("b".to_string());
    assert_eq!(st.get_device(), Some(&"b".to_string()));
}

#[test]
fn complete_create_device_maps_failure() {
    let mut st = state_with_two_gpus();
    let r = st.complete_create_device::<()>(Err(()));
    assert!(matches!(r, Err(RutabagaError::InvalidResourceId)));
    assert!(st.get_device().is_none());
    assert!(st.complete_create_device::<()>(Ok("dev".to_string())).is_ok());
    assert_eq!(st.get_device(), Some(&"dev".to_string()));
}

#[test]
fn created_objects_are_registered_under_their_ids() {
    let mut st = state_with_two_gpus();
    assert!(st.complete_create_address_space::<()>(7, Ok(70)).is_ok());
    assert!(st.complete_create_buffer::<()>(8, Ok(80)).is_ok());
    assert!(st.complete_create_queue::<()>(9, Ok(90)).is_ok());
    assert!(st.complete_create_sync_obj::<()>(10, Ok(-100)).is_ok());
    assert_eq!(st.address_spaces.get(&7), Some(&70));
    assert_eq!(st.buffers.get(&8), Some(&80));
    assert_eq!(st.queues.get(&9), Some(&90));
    assert_eq!(st.sync_objs.get(&10), Some(&-100));
    // A second creation under the same id replaces the first object.
    assert!(st.complete_create_address_space::<()>(7, Ok(71)).is_ok());
    assert_eq!(st.address_spaces.get(&7), Some(&71));
}

#[test]
fn failed_creations_change_nothing() {
    let mut st = state_with_two_gpus();
    assert!(matches!(
        st.complete_create_address_space::<&str>(1, Err("no")),
        Err(RutabagaError::InvalidResourceId)
    ));
    assert!(matches!(
        st.complete_create_queue::<&str>(1, Err("no")),
        Err(RutabagaError::InvalidResourceId)
    ));
    assert!(matches!(
        st.complete_create_buffer::<&str>(1, Err("no")),
        Err(RutabagaError::InvalidResourceId)
    ));
    assert!(matches!(
        st.complete_create_sync_obj::<&str>(1, Err("no")),
        Err(RutabagaError::InvalidResourceId)
    ));
    assert!(st.address_spaces.is_empty());
    assert!(st.queues.is_empty());
    assert!(st.buffers.is_empty());
    assert!(st.sync_objs.is_empty());
}

#[test]
fn closed_objects_are_gone() {
    let mut st = state_with_two_gpus();
    st.complete_create_buffer::<()>(1, Ok(11)).unwrap();
    st.complete_create_buffer::<()>(2, Ok(22)).unwrap();
    st.complete_create_sync_obj::<()>(3, Ok(33)).unwrap();
    st.close_buffer(1);
    st.close_buffer(99);
    st.close_sync_obj(3);
    assert_eq!(st.buffers.get(&1), None);
    assert_eq!(st.buffers.get(&2), Some(&22));
    assert_eq!(st.sync_objs.get(&3), None);
}

#[test]
fn submit_queue_requires_a_registered_queue() {
    let mut st = state_with_two_gpus();
    assert!(matches!(st.submit_queue(4), Err(RutabagaError::InvalidResourceId)));
    st.complete_create_queue::<()>(4, Ok(44)).unwrap();
    assert_eq!(*st.submit_queue(4).unwrap(), 44);
}

#[test]
fn sync_ids_resolve_by_position() {
    let mut st = state_with_two_gpus();
    st.complete_create_sync_obj::<()>(5, Ok(50)).unwrap();
    st.complete_create_sync_obj::<()>(6, Ok(60)).unwrap();
    let ids = [6u32, 1, 5, 6];
    let r = st.resolve_sync_objs(&ids, 3);
    assert_eq!(r, vec![Some(&60), None, Some(&50)]);
    assert!(st.resolve_sync_objs(&ids, 0).is_empty());
}
