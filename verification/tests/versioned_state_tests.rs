use blockifier::types::{ClassHash, CompiledClassHash, ContractAddress, Nonce, StarkFelt,
    StorageKey};
use blockifier::versioned_state::{StateCellId, StateValue, StateWrite, VersionedState};
use blockifier::versioned_storage::{CellId, StateError};

fn fresh_state() -> VersionedState<
    impl Fn(CellId) -> Result<StarkFelt, StateError>,
    impl Fn(CellId) -> Result<ClassHash, StateError>,
    impl Fn(CellId) -> Result<Nonce, StateError>,
    impl Fn(CellId) -> Result<CompiledClassHash, StateError>,
> {
    VersionedState::new(
        |_c: CellId| Ok(StarkFelt(1)),
        |_c: CellId| Ok(ClassHash(2)),
        |_c: CellId| Ok(Nonce(3)),
        |_c: CellId| Ok(CompiledClassHash(4)),
    )
}

#[test]
fn each_category_falls_back_to_its_own_base_reader() {
    let state = fresh_state();
    let storage_cell = StateCellId::ContractStorage {
        contract_address: ContractAddress(7),
        storage_key: StorageKey(9),
    };
    assert_eq!(state.read(storage_cell, 5), Ok(StateValue::ContractStorage(StarkFelt(1))));
    let class_hash_cell = StateCellId::ClassHash { contract_address: ContractAddress(7) };
    assert_eq!(state.read(class_hash_cell, 5), Ok(StateValue::ClassHash(ClassHash(2))));
    let nonce_cell = StateCellId::Nonce { contract_address: ContractAddress(7) };
    assert_eq!(state.read(nonce_cell, 5), Ok(StateValue::Nonce(Nonce(3))));
    let compiled_cell = StateCellId::CompiledClassHash { class_hash: ClassHash(8) };
    assert_eq!(
        state.read(compiled_cell, 5),
        Ok(StateValue::CompiledClassHash(CompiledClassHash(4)))
    );
}

#[test]
fn write_then_read_in_each_category() {
    let mut state = fresh_state();
    state.write(
        StateWrite::ContractStorage {
            contract_address: ContractAddress(7),
            storage_key: StorageKey(9),
            value: StarkFelt(111),
        },
        3,
    );
    state.write(
        StateWrite::ClassHash { contract_address: ContractAddress(7), class_hash: ClassHash(222) },
        3,
    );
    state.write(
        StateWrite::Nonce { contract_address: ContractAddress(7), nonce: Nonce(333) },
        3,
    );
    state.write(
        StateWrite::CompiledClassHash {
            class_hash: ClassHash(8),
            compiled_class_hash: CompiledClassHash(444),
        },
        3,
    );
    let storage_cell = StateCellId::ContractStorage {
        contract_address: ContractAddress(7),
        storage_key: StorageKey(9),
    };
    assert_eq!(state.read(storage_cell, 3), Ok(StateValue::ContractStorage(StarkFelt(111))));
    assert_eq!(
        state.read(StateCellId::ClassHash { contract_address: ContractAddress(7) }, 4),
        Ok(StateValue::ClassHash(ClassHash(222)))
    );
    assert_eq!(
        state.read(StateCellId::Nonce { contract_address: ContractAddress(7) }, 4),
        Ok(StateValue::Nonce(Nonce(333)))
    );
    assert_eq!(
        state.read(StateCellId::CompiledClassHash { class_hash: ClassHash(8) }, 4),
        Ok(StateValue::CompiledClassHash(CompiledClassHash(444)))
    );
    // an earlier version still sees the batch-start values
    assert_eq!(state.read(storage_cell, 2), Ok(StateValue::ContractStorage(StarkFelt(1))));
}

#[test]
fn categories_do_not_bleed_into_each_other() {
    let mut state = fresh_state();
    // same 64-bit id in two different categories
    state.write(
        StateWrite::ClassHash { contract_address: ContractAddress(7), class_hash: ClassHash(50) },
        1,
    );
    assert_eq!(
        state.read(StateCellId::Nonce { contract_address: ContractAddress(7) }, 9),
        Ok(StateValue::Nonce(Nonce(3)))
    );
}
