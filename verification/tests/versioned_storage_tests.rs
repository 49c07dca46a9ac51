use blockifier::versioned_storage::{CellId, StateError, VersionedStorage};

fn cell(major: u128, minor: u128) -> CellId {
    CellId { major, minor }
}

fn base_ten(_c: CellId) -> Result<u64, StateError> {
    Ok(10)
}

fn base_fails(_c: CellId) -> Result<u64, StateError> {
    Err(StateError::BaseValueReadFailure)
}

#[test]
fn unwritten_cell_reads_base_value() {
    let storage: VersionedStorage<u64, _> = VersionedStorage::new(base_ten);
    assert_eq!(storage.read(cell(1, 2), 5), Ok(10));
    // repeated pre-write reads are idempotent: the callback is pure
    assert_eq!(storage.read(cell(1, 2), 5), Ok(10));
    assert_eq!(storage.read(cell(1, 2), 0), Ok(10));
}

#[test]
fn base_value_failure_aborts_the_read() {
    let storage: VersionedStorage<u64, _> = VersionedStorage::new(base_fails);
    assert_eq!(storage.read(cell(1, 0), 3), Err(StateError::BaseValueReadFailure));
}

#[test]
fn written_value_visible_at_own_and_later_versions() {
    let mut storage: VersionedStorage<u64, _> = VersionedStorage::new(base_ten);
    storage.write(cell(1, 0), 4, 77);
    assert_eq!(storage.read(cell(1, 0), 4), Ok(77));
    // monotonic visibility: no intervening write up to version 9
    assert_eq!(storage.read(cell(1, 0), 9), Ok(77));
    // below the write, the base value still rules
    assert_eq!(storage.read(cell(1, 0), 3), Ok(10));
}

#[test]
fn later_write_never_changes_earlier_reads() {
    let mut storage: VersionedStorage<u64, _> = VersionedStorage::new(base_ten);
    storage.write(cell(1, 0), 2, 20);
    let before = storage.read(cell(1, 0), 2);
    storage.write(cell(1, 0), 8, 80);
    assert_eq!(storage.read(cell(1, 0), 2), before);
    assert_eq!(storage.read(cell(1, 0), 2), Ok(20));
    assert_eq!(storage.read(cell(1, 0), 7), Ok(20));
    assert_eq!(storage.read(cell(1, 0), 8), Ok(80));
}

#[test]
fn read_picks_highest_write_at_or_before_version() {
    let mut storage: VersionedStorage<u64, _> = VersionedStorage::new(base_ten);
    storage.write(cell(9, 9), 1, 100);
    storage.write(cell(9, 9), 5, 500);
    storage.write(cell(9, 9), 3, 300);
    assert_eq!(storage.read(cell(9, 9), 0), Ok(10));
    assert_eq!(storage.read(cell(9, 9), 1), Ok(100));
    assert_eq!(storage.read(cell(9, 9), 2), Ok(100));
    assert_eq!(storage.read(cell(9, 9), 3), Ok(300));
    assert_eq!(storage.read(cell(9, 9), 4), Ok(300));
    assert_eq!(storage.read(cell(9, 9), 6), Ok(500));
}

#[test]
fn repeated_write_at_same_version_overwrites() {
    let mut storage: VersionedStorage<u64, _> = VersionedStorage::new(base_ten);
    storage.write(cell(2, 2), 4, 40);
    storage.write(cell(2, 2), 4, 44);
    assert_eq!(storage.read(cell(2, 2), 4), Ok(44));
}

#[test]
fn cells_are_independent() {
    let mut storage: VersionedStorage<u64, _> = VersionedStorage::new(base_ten);
    storage.write(cell(1, 1), 3, 30);
    assert_eq!(storage.read(cell(1, 2), 5), Ok(10));
    assert_eq!(storage.read(cell(2, 1), 5), Ok(10));
    assert_eq!(storage.read(cell(1, 1), 5), Ok(30));
}
