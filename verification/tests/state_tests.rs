use blockifier::objects::{ResourcesMapping, StorageWrite};
use blockifier::state::{StagedWrites, TransactionalState};
use blockifier::types::{ContractAddress, Nonce, StarkFelt, StorageKey};

#[test]
fn nonce_defaults_to_zero_and_increments() {
    let mut state = TransactionalState::new();
    assert_eq!(state.get_nonce_at(ContractAddress(1)), Nonce(0));
    state.set_nonce_at(ContractAddress(1), Nonce(5));
    assert_eq!(state.get_nonce_at(ContractAddress(1)), Nonce(5));
    state.increment_nonce(ContractAddress(1));
    assert_eq!(state.get_nonce_at(ContractAddress(1)), Nonce(6));
    assert_eq!(state.get_nonce_at(ContractAddress(2)), Nonce(0));
}

#[test]
fn balances_are_per_token_and_account() {
    let mut state = TransactionalState::new();
    state.set_fee_token_balance(ContractAddress(100), ContractAddress(1), StarkFelt(7), StarkFelt(1));
    assert_eq!(
        state.get_fee_token_balance(ContractAddress(100), ContractAddress(1)),
        (StarkFelt(7), StarkFelt(1))
    );
    // a different token's balance for the same account stays zero
    assert_eq!(
        state.get_fee_token_balance(ContractAddress(101), ContractAddress(1)),
        (StarkFelt(0), StarkFelt(0))
    );
}

#[test]
fn storage_writes_apply_in_order_last_wins() {
    let mut state = TransactionalState::new();
    let writes = vec![
        StorageWrite {
            contract_address: ContractAddress(1),
            storage_key: StorageKey(2),
            value: StarkFelt(10),
        },
        StorageWrite {
            contract_address: ContractAddress(1),
            storage_key: StorageKey(3),
            value: StarkFelt(20),
        },
        StorageWrite {
            contract_address: ContractAddress(1),
            storage_key: StorageKey(2),
            value: StarkFelt(30),
        },
    ];
    state.apply_writes(&writes);
    assert_eq!(state.get_storage_at(ContractAddress(1), StorageKey(2)), StarkFelt(30));
    assert_eq!(state.get_storage_at(ContractAddress(1), StorageKey(3)), StarkFelt(20));
}

#[test]
fn staged_writes_commit_folds_into_parent() {
    let mut state = TransactionalState::new();
    let mut buffer = StagedWrites::new();
    buffer.stage(StorageWrite {
        contract_address: ContractAddress(4),
        storage_key: StorageKey(5),
        value: StarkFelt(42),
    });
    // nothing is visible until commit
    assert_eq!(state.get_storage_at(ContractAddress(4), StorageKey(5)), StarkFelt(0));
    buffer.commit(&mut state);
    assert_eq!(state.get_storage_at(ContractAddress(4), StorageKey(5)), StarkFelt(42));
}

#[test]
fn staged_writes_abort_leaves_parent_untouched() {
    let mut state = TransactionalState::new();
    state.set_storage_at(ContractAddress(4), StorageKey(5), StarkFelt(9));
    let mut buffer = StagedWrites::new();
    buffer.stage(StorageWrite {
        contract_address: ContractAddress(4),
        storage_key: StorageKey(5),
        value: StarkFelt(42),
    });
    buffer.abort();
    assert_eq!(state.get_storage_at(ContractAddress(4), StorageKey(5)), StarkFelt(9));
}

#[test]
fn resources_mapping_adds_and_merges_pointwise() {
    let mut a = ResourcesMapping::new();
    assert_eq!(a.get_amount(&String::from("n_steps")), 0);
    a.add_amount(String::from("n_steps"), 10);
    a.add_amount(String::from("pedersen"), 3);
    a.add_amount(String::from("n_steps"), 5);
    assert_eq!(a.get_amount(&String::from("n_steps")), 15);
    assert_eq!(a.get_amount(&String::from("pedersen")), 3);
    let mut b = ResourcesMapping::new();
    b.add_amount(String::from("n_steps"), 100);
    b.add_amount(String::from("range_check"), 7);
    a.merge(&b);
    assert_eq!(a.get_amount(&String::from("n_steps")), 115);
    assert_eq!(a.get_amount(&String::from("pedersen")), 3);
    assert_eq!(a.get_amount(&String::from("range_check")), 7);
    assert_eq!(a.get_amount(&String::from("bitwise")), 0);
}
