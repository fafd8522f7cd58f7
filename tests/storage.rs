use rudelblinken_storage::engine::FlashStorage;
use rudelblinken_storage::errors::{
    CreateStorageError, EraseStorageError, MetadataError, SetupStorageError, StorageError,
};
use rudelblinken_storage::geometry::{
    check_read, check_write, plan_erase, BLOCKS, BLOCK_SIZE, CAPACITY, ERASED_BYTE,
};
use rudelblinken_storage::lifecycle::Lifecycle;
use rudelblinken_storage::mapping::{finish_mapping, mapping_requests, MapRequest};
use rudelblinken_storage::metadata::{MetadataStore, MAX_METADATA_LEN};
use rudelblinken_storage::partition::{resolve_partition, Partition};

fn good_partition() -> Partition {
    Partition { address: 0x110000, size: CAPACITY, erase_size: BLOCK_SIZE }
}

fn fresh() -> FlashStorage {
    FlashStorage::new(Some(good_partition())).unwrap()
}

#[test]
fn geometry_constants() {
    assert_eq!(BLOCK_SIZE, 4096);
    assert_eq!(BLOCKS, 256);
    assert_eq!(CAPACITY, BLOCKS * BLOCK_SIZE);
}

#[test]
fn new_store_is_erased() {
    let s = fresh();
    let all = s.read(0, CAPACITY).unwrap();
    assert_eq!(all.len(), CAPACITY as usize);
    assert!(all.iter().all(|b| *b == 0xFF));
}

#[test]
fn new_without_partition_fails() {
    assert_eq!(FlashStorage::new(None).err(), Some(CreateStorageError::NoPartitionFound));
}

#[test]
fn new_with_wrong_erase_size_fails() {
    let p = Partition { address: 0, size: CAPACITY, erase_size: 512 };
    assert_eq!(
        FlashStorage::new(Some(p)).err(),
        Some(CreateStorageError::EraseSizeDoesNotMatchBlockSize)
    );
}

#[test]
fn resolve_partition_cases() {
    assert_eq!(resolve_partition(Some(good_partition())), Ok(good_partition()));
    assert_eq!(resolve_partition(None), Err(CreateStorageError::NoPartitionFound));
    let p = Partition { address: 0, size: CAPACITY, erase_size: 8192 };
    assert_eq!(
        resolve_partition(Some(p)),
        Err(CreateStorageError::EraseSizeDoesNotMatchBlockSize)
    );
}

#[test]
fn write_then_read_returns_data() {
    let mut s = fresh();
    let data = [1u8, 2, 3, 0x80, 0x7F, 0x00, 0xFF];
    s.write(4100, &data).unwrap();
    assert_eq!(s.read(4100, data.len() as u32).unwrap(), &data[..]);
    assert_eq!(s.read(4099, 1).unwrap(), &[0xFF][..]);
    assert_eq!(s.read(4107, 1).unwrap(), &[0xFF][..]);
}

#[test]
fn write_at_end_of_store() {
    let mut s = fresh();
    s.write(CAPACITY - 2, &[0x12, 0x34]).unwrap();
    assert_eq!(s.read(CAPACITY - 2, 2).unwrap(), &[0x12, 0x34][..]);
}

#[test]
fn erase_then_read_is_all_ones() {
    let mut s = fresh();
    s.write(BLOCK_SIZE, &[0u8; 100]).unwrap();
    s.write(2 * BLOCK_SIZE, &[0u8; 10]).unwrap();
    s.erase(BLOCK_SIZE, BLOCK_SIZE).unwrap();
    assert!(s.read(BLOCK_SIZE, BLOCK_SIZE).unwrap().iter().all(|b| *b == ERASED_BYTE));
    assert_eq!(s.read(2 * BLOCK_SIZE, 10).unwrap(), &[0u8; 10][..]);
}

#[test]
fn second_write_only_clears_bits() {
    let mut s = fresh();
    let first = [0b1100_1100u8, 0xF0, 0x0F];
    let second = [0b1010_1010u8, 0xFF, 0xF0];
    s.write(64, &first).unwrap();
    s.write(64, &second).unwrap();
    assert_eq!(s.read(64, 3).unwrap(), &[0b1000_1000u8, 0xF0, 0x00][..]);
}

#[test]
fn rewrite_after_erase_sets_bits_again() {
    let mut s = fresh();
    s.write(0, &[0x00]).unwrap();
    s.erase(0, BLOCK_SIZE).unwrap();
    s.write(0, &[0xA5]).unwrap();
    assert_eq!(s.read(0, 1).unwrap(), &[0xA5][..]);
}

#[test]
fn empty_erase_succeeds_anywhere() {
    let mut s = fresh();
    s.write(0, &[0x00]).unwrap();
    assert_eq!(s.erase(0, 0), Ok(()));
    assert_eq!(s.erase(3, 0), Ok(()));
    assert_eq!(s.erase(u32::MAX, 0), Ok(()));
    assert_eq!(s.read(0, 1).unwrap(), &[0x00][..]);
    assert_eq!(plan_erase(u32::MAX, 0), Ok(false));
}

#[test]
fn misaligned_erase_is_refused() {
    let mut s = fresh();
    s.write(0, &[0x00; 8]).unwrap();
    assert_eq!(s.erase(1, BLOCK_SIZE), Err(EraseStorageError::CanOnlyEraseAlongBlockBoundaries));
    assert_eq!(s.erase(0, 100), Err(EraseStorageError::CanOnlyEraseInBlockSizedChunks));
    assert_eq!(s.erase(1, 100), Err(EraseStorageError::CanOnlyEraseAlongBlockBoundaries));
    assert_eq!(s.read(0, 8).unwrap(), &[0x00; 8][..]);
    assert_eq!(plan_erase(4095, 4096), Err(EraseStorageError::CanOnlyEraseAlongBlockBoundaries));
    assert_eq!(plan_erase(4096, 4095), Err(EraseStorageError::CanOnlyEraseInBlockSizedChunks));
    assert_eq!(plan_erase(4096, 4096), Ok(true));
}

#[test]
fn erase_out_of_bounds_is_refused() {
    let mut s = fresh();
    assert_eq!(
        s.erase(CAPACITY + BLOCK_SIZE, BLOCK_SIZE),
        Err(EraseStorageError::StorageError(StorageError::AddressTooBig))
    );
    assert_eq!(
        s.erase(CAPACITY - BLOCK_SIZE, 2 * BLOCK_SIZE),
        Err(EraseStorageError::StorageError(StorageError::SizeTooBig))
    );
    assert_eq!(s.erase(CAPACITY - BLOCK_SIZE, BLOCK_SIZE), Ok(()));
    assert_eq!(s.erase(0, CAPACITY), Ok(()));
}

#[test]
fn read_out_of_bounds_is_refused() {
    let s = fresh();
    assert_eq!(s.read(CAPACITY + 1, 0), Err(StorageError::AddressTooBig));
    assert_eq!(s.read(CAPACITY, 1), Err(StorageError::SizeTooBig));
    assert_eq!(s.read(0, CAPACITY + 1), Err(StorageError::SizeTooBig));
    assert_eq!(s.read(CAPACITY - 1, u32::MAX), Err(StorageError::SizeTooBig));
    assert_eq!(s.read(CAPACITY, 0), Ok(&[][..]));
}

#[test]
fn read_bound_equals_write_bound() {
    for (address, length) in [(0u32, CAPACITY), (CAPACITY, 1), (CAPACITY + 5, 0), (10, CAPACITY)] {
        assert_eq!(check_read(address, length), check_write(address, length as usize));
    }
    assert_eq!(check_write(0, usize::MAX), Err(StorageError::SizeTooBig));
    assert_eq!(check_write(CAPACITY + 1, usize::MAX), Err(StorageError::AddressTooBig));
}

#[test]
fn write_out_of_bounds_is_refused() {
    let mut s = fresh();
    assert_eq!(s.write(CAPACITY + 1, &[0]), Err(StorageError::AddressTooBig));
    assert_eq!(s.write(CAPACITY - 1, &[0, 0]), Err(StorageError::SizeTooBig));
    assert!(s.read(CAPACITY - 1, 1).unwrap().iter().all(|b| *b == 0xFF));
}

#[test]
fn missing_metadata_is_not_found() {
    let store = MetadataStore::new();
    assert_eq!(store.read_metadata("missing"), Err(MetadataError::NotFound));
}

#[test]
fn metadata_write_then_read() {
    let mut store = MetadataStore::new();
    let v = vec![1u8, 2, 3, 4];
    store.write_metadata("k", &v).unwrap();
    assert_eq!(store.read_metadata("k"), Ok(v));
    assert_eq!(store.read_metadata("other"), Err(MetadataError::NotFound));
}

#[test]
fn metadata_overwrite_keeps_last_value() {
    let mut store = MetadataStore::new();
    store.write_metadata("k", &[1, 1, 1]).unwrap();
    store.write_metadata("j", &[9]).unwrap();
    store.write_metadata("k", &[2]).unwrap();
    assert_eq!(store.read_metadata("k"), Ok(vec![2]));
    assert_eq!(store.read_metadata("j"), Ok(vec![9]));
}

#[test]
fn metadata_value_bound() {
    let mut store = MetadataStore::new();
    let max = vec![7u8; MAX_METADATA_LEN];
    assert_eq!(store.write_metadata("k", &max), Ok(()));
    assert_eq!(
        store.write_metadata("k", &vec![0u8; MAX_METADATA_LEN + 1]),
        Err(MetadataError::ValueTooLarge)
    );
    assert_eq!(store.read_metadata("k"), Ok(max));
    assert_eq!(store.write_metadata("empty", &[]), Ok(()));
    assert_eq!(store.read_metadata("empty"), Ok(vec![]));
}

#[test]
fn lifecycle_builds_once() {
    let mut l: Lifecycle<u32> = Lifecycle::new();
    assert!(l.needs_construction());
    assert_eq!(l.get(), None);
    assert_eq!(l.complete(Ok(7)), Ok(()));
    assert!(!l.needs_construction());
    assert_eq!(l.complete(Ok(8)), Err(SetupStorageError::AlreadyInitialized));
    assert_eq!(l.get(), Some(&7));
}

#[test]
fn lifecycle_failure_leaves_clean_slate() {
    let mut l: Lifecycle<u32> = Lifecycle::new();
    assert_eq!(
        l.complete(Err(CreateStorageError::FailedToMmapSecrets)),
        Err(SetupStorageError::CreateStorageError(CreateStorageError::FailedToMmapSecrets))
    );
    assert!(l.needs_construction());
    assert_eq!(l.complete(Ok(3)), Ok(()));
    assert_eq!(l.get(), Some(&3));
}

#[test]
fn mapping_plan_for_partition() {
    let plan = mapping_requests(CAPACITY, 0x10000).unwrap();
    assert_eq!(
        plan,
        vec![
            MapRequest { offset: 0, size: 0x10000 },
            MapRequest { offset: 0x10000, size: CAPACITY as usize - 0x10000 },
            MapRequest { offset: 0, size: CAPACITY as usize },
        ]
    );
    assert_eq!(mapping_requests(100, 0x10000), Err(CreateStorageError::FailedToMmapSecrets));
}

#[test]
fn mapping_outcome() {
    assert_eq!(finish_mapping(&[0, 0, 0], 0x4200_0000, 0x4201_0000, 0x10000), Ok(0x4200_0000));
    assert_eq!(
        finish_mapping(&[0, 0x105, 0], 0x4200_0000, 0x4201_0000, 0x10000),
        Err(CreateStorageError::FailedToMmapSecrets)
    );
    assert_eq!(
        finish_mapping(&[0, 0, 0], 0x4200_0000, 0x4300_0000, 0x10000),
        Err(CreateStorageError::FailedToMmapSecrets)
    );
    assert_eq!(
        finish_mapping(&[0], usize::MAX, 0, 1),
        Err(CreateStorageError::FailedToMmapSecrets)
    );
}

#[test]
fn error_conversions() {
    assert_eq!(
        EraseStorageError::from(StorageError::SizeTooBig),
        EraseStorageError::StorageError(StorageError::SizeTooBig)
    );
    assert_eq!(
        SetupStorageError::from(CreateStorageError::NoNvsPartitionFound),
        SetupStorageError::CreateStorageError(CreateStorageError::NoNvsPartitionFound)
    );
}
