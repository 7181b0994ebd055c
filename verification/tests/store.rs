use pathtracer::resources::{MemoryKind, MemoryType, Store, StoreError, Usage};

fn both_kinds() -> Vec<MemoryType> {
    vec![
        MemoryType { host_visible: true, device_local: false },
        MemoryType { host_visible: false, device_local: true },
    ]
}

fn storage() -> Usage {
    Usage { storage: true, vertex: false, index: false, transfer_src: false, transfer_dst: false }
}

fn transfer_dst_storage() -> Usage {
    Usage { storage: true, vertex: false, index: false, transfer_src: false, transfer_dst: true }
}

#[test]
fn create_with_data_fails_without_host_visible_memory() {
    let mut store = Store::new(vec![MemoryType { host_visible: false, device_local: true }]);
    let r = store.create_with_data(storage(), vec![1, 2, 3]);
    assert_eq!(r, Err(StoreError::Allocation));
}

#[test]
fn create_empty_fails_without_device_local_memory() {
    let mut store = Store::new(vec![MemoryType { host_visible: true, device_local: false }]);
    let r = store.create_empty(MemoryKind::DeviceLocal, storage(), 16);
    assert_eq!(r, Err(StoreError::Allocation));
}

#[test]
fn created_buffer_holds_initial_data() {
    let mut store = Store::new(both_kinds());
    let h = store.create_with_data(storage(), vec![7, 8, 9]).unwrap();
    assert_eq!(store.read_back(h).unwrap(), vec![7, 8, 9]);
}

#[test]
fn empty_buffer_is_zeroed() {
    let mut store = Store::new(both_kinds());
    let h = store.create_empty(MemoryKind::DeviceLocal, storage(), 4).unwrap();
    assert_eq!(store.read_back(h).unwrap(), vec![0, 0, 0, 0]);
}

#[test]
fn update_rejects_device_local_buffer() {
    let mut store = Store::new(both_kinds());
    let h = store.create_empty(MemoryKind::DeviceLocal, storage(), 4).unwrap();
    let r = store.update(h, 0, &vec![1]);
    assert_eq!(r, Err(StoreError::DeviceLocalWrite));
}

#[test]
fn update_rejects_unknown_handle() {
    let mut store = Store::new(both_kinds());
    let r = store.update(9, 0, &vec![1]);
    assert_eq!(r, Err(StoreError::UnknownHandle));
}

#[test]
fn update_rejects_out_of_bounds_write() {
    let mut store = Store::new(both_kinds());
    let h = store.create_with_data(storage(), vec![0, 0]).unwrap();
    let r = store.update(h, 1, &vec![5, 6]);
    assert_eq!(r, Err(StoreError::OutOfBounds));
}

#[test]
fn partial_update_splices_words() {
    let mut store = Store::new(both_kinds());
    let h = store.create_with_data(storage(), vec![10, 20, 30, 40]).unwrap();
    store.update(h, 1, &vec![99, 98]).unwrap();
    assert_eq!(store.read_back(h).unwrap(), vec![10, 99, 98, 40]);
}

#[test]
fn staging_upload_round_trip_is_byte_identical() {
    let mut store = Store::new(both_kinds());
    let src = vec![0xdead_beef_u32, 0x1234_5678, 0, u32::MAX];
    let dst = store
        .create_empty(MemoryKind::DeviceLocal, transfer_dst_storage(), src.len())
        .unwrap();
    store.upload_via_staging(&src, dst).unwrap();
    assert_eq!(store.read_back(dst).unwrap(), src);
}

#[test]
fn staging_upload_rejects_non_transfer_destination() {
    let mut store = Store::new(both_kinds());
    let dst = store.create_empty(MemoryKind::DeviceLocal, storage(), 4).unwrap();
    let r = store.upload_via_staging(&vec![1, 2], dst);
    assert_eq!(r, Err(StoreError::UsageMismatch));
}

#[test]
fn staging_upload_rejects_oversized_source() {
    let mut store = Store::new(both_kinds());
    let dst = store
        .create_empty(MemoryKind::DeviceLocal, transfer_dst_storage(), 2)
        .unwrap();
    let r = store.upload_via_staging(&vec![1, 2, 3], dst);
    assert_eq!(r, Err(StoreError::OutOfBounds));
}

#[test]
fn staging_upload_needs_host_visible_memory() {
    let mut store = Store::new(vec![MemoryType { host_visible: false, device_local: true }]);
    let dst = store
        .create_empty(MemoryKind::DeviceLocal, transfer_dst_storage(), 2)
        .unwrap();
    let r = store.upload_via_staging(&vec![1, 2], dst);
    assert_eq!(r, Err(StoreError::Allocation));
}

#[test]
fn read_back_rejects_unknown_handle() {
    let store = Store::new(both_kinds());
    assert_eq!(store.read_back(0), Err(StoreError::UnknownHandle));
}
