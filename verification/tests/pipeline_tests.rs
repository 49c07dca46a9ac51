use blockifier::account_transaction::AccountTransaction;
use blockifier::block_context::{BlockContext, FeeTokenAddresses, GasPrices};
use blockifier::objects::{CallInfo, CallOutcome, ExternalOutcomes, ResourcesMapping,
    StorageWrite, TransactionExecutionError};
use blockifier::state::TransactionalState;
use blockifier::transactions::{DeclareTransaction, DeployAccountTransaction, InvokeTransaction,
    InvokeTransactionV0, InvokeTransactionV1, InvokeTransactionVariant};
use blockifier::types::{Calldata, ClassHash, ContractAddress, ContractAddressSalt, Fee, Nonce,
    StarkFelt, StorageKey, TransactionHash, TransactionSignature, TransactionVersion};

const SENDER: u128 = 7;
const ETH_TOKEN: u128 = 100;
const STRK_TOKEN: u128 = 101;
const MAX_STEPS: u64 = 1000;

fn block() -> BlockContext {
    BlockContext {
        chain_id: 1,
        block_number: 1,
        block_timestamp: 0,
        sequencer_address: ContractAddress(2),
        fee_token_addresses: FeeTokenAddresses {
            strk_fee_token_address: ContractAddress(STRK_TOKEN),
            eth_fee_token_address: ContractAddress(ETH_TOKEN),
        },
        gas_prices: GasPrices { eth_l1_gas_price: 1, strk_l1_gas_price: 1 },
        invoke_tx_max_n_steps: MAX_STEPS as u32,
        validate_max_n_steps: MAX_STEPS as u32,
        max_recursion_depth: 5,
    }
}

fn funded_state(nonce: u128, balance_low: u128, balance_high: u128) -> TransactionalState {
    let mut state = TransactionalState::new();
    state.set_nonce_at(ContractAddress(SENDER), Nonce(nonce));
    state.set_fee_token_balance(
        ContractAddress(ETH_TOKEN),
        ContractAddress(SENDER),
        StarkFelt(balance_low),
        StarkFelt(balance_high),
    );
    state
}

fn invoke_v1(max_fee: u128, nonce: u128) -> AccountTransaction {
    AccountTransaction::Invoke(InvokeTransaction {
        tx: InvokeTransactionVariant::V1(InvokeTransactionV1 {
            max_fee: Fee(max_fee),
            signature: TransactionSignature(vec![11, 22]),
            nonce: Nonce(nonce),
            sender_address: ContractAddress(SENDER),
            calldata: Calldata(vec![1, 2, 3]),
        }),
        tx_hash: TransactionHash(0xabc),
    })
}

fn steps_mapping(steps: u64) -> ResourcesMapping {
    let mut resources = ResourcesMapping::new();
    if steps > 0 {
        resources.add_amount(String::from("n_steps"), steps);
    }
    resources
}

fn completed(address: u128, steps: u64) -> CallOutcome {
    CallOutcome::Completed {
        call_info: CallInfo {
            storage_address: ContractAddress(address),
            inner_call_storage_addresses: Vec::new(),
            resources: steps_mapping(steps),
        },
        storage_writes: Vec::new(),
    }
}

fn outcomes_all_ok(fee: u128) -> ExternalOutcomes {
    ExternalOutcomes {
        validate: completed(SENDER, 10),
        execute: completed(SENDER, 50),
        calculated_fee: Fee(fee),
        fee_transfer: completed(ETH_TOKEN, 4),
    }
}

#[test]
fn accepted_invoke_passes_checks_and_bumps_nonce() {
    // sender nonce five, stated nonce five, max fee covered by the balance
    let mut state = funded_state(5, 2000, 0);
    let r = invoke_v1(1000, 5).execute_raw(&mut state, &block(), outcomes_all_ok(300));
    let info = r.expect("transaction should be accepted");
    assert_eq!(info.actual_fee, Fee(300));
    assert!(info.validate_call_info.is_some());
    assert!(info.execute_call_info.is_some());
    assert!(info.fee_transfer_call_info.is_some());
    assert!(info.revert_error.is_none());
    assert_eq!(state.get_nonce_at(ContractAddress(SENDER)), Nonce(6));
    assert_eq!(info.actual_resources.get_amount(&String::from("n_steps")), 60);
}

#[test]
fn stale_nonce_rejected_nonce_unchanged() {
    // sender nonce five, stated nonce four
    let mut state = funded_state(5, 2000, 0);
    let r = invoke_v1(1000, 4).execute_raw(&mut state, &block(), outcomes_all_ok(300));
    match r {
        Err(TransactionExecutionError::InvalidNonce { address, expected_nonce, actual_nonce }) => {
            assert_eq!(address, ContractAddress(SENDER));
            assert_eq!(expected_nonce, Nonce(5));
            assert_eq!(actual_nonce, Nonce(4));
        },
        other => panic!("expected an invalid-nonce rejection, got {:?}", other),
    }
    assert_eq!(state.get_nonce_at(ContractAddress(SENDER)), Nonce(5));
}

#[test]
fn insufficient_balance_rejected() {
    let mut state = funded_state(5, 500, 0);
    let r = invoke_v1(1000, 5).execute_raw(&mut state, &block(), outcomes_all_ok(300));
    match r {
        Err(TransactionExecutionError::MaxFeeExceedsBalance {
            max_fee,
            balance_low,
            balance_high,
        }) => {
            assert_eq!(max_fee, Fee(1000));
            assert_eq!(balance_low, StarkFelt(500));
            assert_eq!(balance_high, StarkFelt(0));
        },
        other => panic!("expected a balance rejection, got {:?}", other),
    }
    // the nonce increment from the passed nonce check is kept
    assert_eq!(state.get_nonce_at(ContractAddress(SENDER)), Nonce(6));
}

#[test]
fn nonzero_high_balance_word_covers_any_fee() {
    let mut state = funded_state(5, 0, 1);
    let r = invoke_v1(1000, 5).execute_raw(&mut state, &block(), outcomes_all_ok(300));
    assert!(r.is_ok());
}

#[test]
fn zero_max_fee_means_zero_fee_and_no_transfer() {
    // no balance at all, heavy resource use: fee enforcement is fully off
    let mut state = funded_state(5, 0, 0);
    let r = invoke_v1(0, 5).execute_raw(&mut state, &block(), outcomes_all_ok(300));
    let info = r.expect("a zero max fee disables fee enforcement");
    assert_eq!(info.actual_fee, Fee(0));
    assert!(info.fee_transfer_call_info.is_none());
    assert_eq!(info.actual_resources.get_amount(&String::from("n_steps")), 60);
}

#[test]
fn revert_keeps_validate_discards_execute_and_bills_burned_steps() {
    let mut state = funded_state(5, 2000, 0);
    let validate_write = StorageWrite {
        contract_address: ContractAddress(SENDER),
        storage_key: StorageKey(2),
        value: StarkFelt(55),
    };
    let outcomes = ExternalOutcomes {
        validate: CallOutcome::Completed {
            call_info: CallInfo {
                storage_address: ContractAddress(SENDER),
                inner_call_storage_addresses: Vec::new(),
                resources: steps_mapping(10),
            },
            storage_writes: vec![validate_write],
        },
        execute: CallOutcome::Failed {
            error: String::from("assert failed in contract"),
            remaining_steps: Some(400),
        },
        calculated_fee: Fee(120),
        fee_transfer: completed(ETH_TOKEN, 4),
    };
    let r = invoke_v1(1000, 5).execute_raw(&mut state, &block(), outcomes);
    let info = r.expect("a revert is still an accepted transaction");
    assert_eq!(info.revert_error, Some(String::from("assert failed in contract")));
    assert!(info.execute_call_info.is_none());
    assert!(info.validate_call_info.is_some());
    // billed: validate steps plus the steps burned before failure
    let billed = info.actual_resources.get_amount(&String::from("n_steps"));
    assert_eq!(billed, 10 + (MAX_STEPS - 400));
    assert!(0 < MAX_STEPS - 400 && MAX_STEPS - 400 < MAX_STEPS);
    // the transaction is still charged its fee
    assert_eq!(info.actual_fee, Fee(120));
    // validate's write stands; no execute write was committed
    assert_eq!(state.get_storage_at(ContractAddress(SENDER), StorageKey(2)), StarkFelt(55));
    assert_eq!(state.get_storage_at(ContractAddress(SENDER), StorageKey(1)), StarkFelt(0));
    assert_eq!(state.get_nonce_at(ContractAddress(SENDER)), Nonce(6));
}

#[test]
fn successful_execute_commits_its_writes() {
    let mut state = funded_state(5, 2000, 0);
    let outcomes = ExternalOutcomes {
        validate: completed(SENDER, 10),
        execute: CallOutcome::Completed {
            call_info: CallInfo {
                storage_address: ContractAddress(SENDER),
                inner_call_storage_addresses: Vec::new(),
                resources: steps_mapping(50),
            },
            storage_writes: vec![StorageWrite {
                contract_address: ContractAddress(SENDER),
                storage_key: StorageKey(1),
                value: StarkFelt(99),
            }],
        },
        calculated_fee: Fee(120),
        fee_transfer: completed(ETH_TOKEN, 4),
    };
    let r = invoke_v1(1000, 5).execute_raw(&mut state, &block(), outcomes);
    assert!(r.is_ok());
    assert_eq!(state.get_storage_at(ContractAddress(SENDER), StorageKey(1)), StarkFelt(99));
}

#[test]
fn invalid_version_rejected_with_allow_list() {
    let mut state = funded_state(5, 2000, 0);
    let tx = AccountTransaction::Invoke(InvokeTransaction {
        tx: InvokeTransactionVariant::V0(InvokeTransactionV0 {
            max_fee: Fee(1000),
            signature: TransactionSignature(Vec::new()),
            contract_address: ContractAddress(SENDER),
            entry_point_selector: 77,
            calldata: Calldata(Vec::new()),
        }),
        tx_hash: TransactionHash(5),
    });
    // version zero is allowed for invoke; check the deploy-account list instead
    assert!(tx.verify_tx_version(TransactionVersion(0)).is_ok());
    let deploy = deploy_account_tx(2);
    let r = deploy.execute_raw(&mut state, &block(), outcomes_all_ok(300));
    match r {
        Err(TransactionExecutionError::InvalidVersion { version, allowed_versions }) => {
            assert_eq!(version, TransactionVersion(2));
            assert_eq!(allowed_versions, vec![TransactionVersion(1)]);
        },
        other => panic!("expected a version rejection, got {:?}", other),
    }
    assert_eq!(state.get_nonce_at(ContractAddress(SENDER)), Nonce(5));
}

fn deploy_account_tx(version: u128) -> AccountTransaction {
    AccountTransaction::DeployAccount(DeployAccountTransaction {
        transaction_hash: TransactionHash(9),
        max_fee: Fee(1000),
        version: TransactionVersion(version),
        signature: TransactionSignature(Vec::new()),
        nonce: Nonce(5),
        class_hash: ClassHash(31),
        contract_address_salt: ContractAddressSalt(17),
        constructor_calldata: Calldata(vec![8, 9]),
        contract_address: ContractAddress(SENDER),
    })
}

#[test]
fn version_zero_skips_nonce_and_validate() {
    // stated nonce would be stale, but version zero never checks it
    let mut state = funded_state(5, 2000, 0);
    let tx = AccountTransaction::Invoke(InvokeTransaction {
        tx: InvokeTransactionVariant::V0(InvokeTransactionV0 {
            max_fee: Fee(1000),
            signature: TransactionSignature(Vec::new()),
            contract_address: ContractAddress(SENDER),
            entry_point_selector: 77,
            calldata: Calldata(Vec::new()),
        }),
        tx_hash: TransactionHash(5),
    });
    let outcomes = ExternalOutcomes {
        validate: CallOutcome::Failed {
            error: String::from("validate would fail, but is never called"),
            remaining_steps: None,
        },
        execute: completed(SENDER, 50),
        calculated_fee: Fee(120),
        fee_transfer: completed(ETH_TOKEN, 4),
    };
    let r = tx.execute_raw(&mut state, &block(), outcomes);
    let info = r.expect("version zero skips nonce and validate");
    assert!(info.validate_call_info.is_none());
    assert!(info.execute_call_info.is_some());
    assert_eq!(state.get_nonce_at(ContractAddress(SENDER)), Nonce(5));
    assert_eq!(info.actual_resources.get_amount(&String::from("n_steps")), 50);
}

#[test]
fn failed_validate_rejects_the_transaction() {
    let mut state = funded_state(5, 2000, 0);
    let outcomes = ExternalOutcomes {
        validate: CallOutcome::Failed {
            error: String::from("signature check failed"),
            remaining_steps: None,
        },
        execute: completed(SENDER, 50),
        calculated_fee: Fee(120),
        fee_transfer: completed(ETH_TOKEN, 4),
    };
    let r = invoke_v1(1000, 5).execute_raw(&mut state, &block(), outcomes);
    match r {
        Err(TransactionExecutionError::ValidateTransactionError { error }) => {
            assert_eq!(error, String::from("signature check failed"));
        },
        other => panic!("expected a validate rejection, got {:?}", other),
    }
    // the nonce increment is still kept
    assert_eq!(state.get_nonce_at(ContractAddress(SENDER)), Nonce(6));
}

#[test]
fn validate_calling_another_contract_is_rejected() {
    let mut state = funded_state(5, 2000, 0);
    let outcomes = ExternalOutcomes {
        validate: CallOutcome::Completed {
            call_info: CallInfo {
                storage_address: ContractAddress(SENDER),
                inner_call_storage_addresses: vec![ContractAddress(SENDER), ContractAddress(8)],
                resources: steps_mapping(10),
            },
            storage_writes: Vec::new(),
        },
        execute: completed(SENDER, 50),
        calculated_fee: Fee(120),
        fee_transfer: completed(ETH_TOKEN, 4),
    };
    let r = invoke_v1(1000, 5).execute_raw(&mut state, &block(), outcomes);
    match r {
        Err(TransactionExecutionError::UnauthorizedInnerCall { entry_point_kind }) => {
            assert_eq!(entry_point_kind, String::from("__validate__"));
        },
        other => panic!("expected an unauthorized-inner-call rejection, got {:?}", other),
    }
}

#[test]
fn deploy_account_execute_failure_is_a_hard_error() {
    let mut state = funded_state(5, 2000, 0);
    let outcomes = ExternalOutcomes {
        validate: completed(SENDER, 10),
        execute: CallOutcome::Failed {
            error: String::from("constructor failed"),
            remaining_steps: Some(400),
        },
        calculated_fee: Fee(120),
        fee_transfer: completed(ETH_TOKEN, 4),
    };
    let r = deploy_account_tx(1).execute_raw(&mut state, &block(), outcomes);
    match r {
        Err(TransactionExecutionError::EntryPointExecutionError { error }) => {
            assert_eq!(error, String::from("constructor failed"));
        },
        other => panic!("expected a hard execution error, got {:?}", other),
    }
}

#[test]
fn deploy_account_success_validates_after_execute() {
    let mut state = funded_state(5, 2000, 0);
    let r = deploy_account_tx(1).execute_raw(&mut state, &block(), outcomes_all_ok(300));
    let info = r.expect("deploy-account with both phases completed succeeds");
    assert!(info.validate_call_info.is_some());
    assert!(info.execute_call_info.is_some());
    assert!(info.revert_error.is_none());
}

#[test]
fn computed_fee_above_max_fee_is_a_cost_model_bug() {
    let mut state = funded_state(5, 2000, 0);
    let r = invoke_v1(1000, 5).execute_raw(&mut state, &block(), outcomes_all_ok(2000));
    match r {
        Err(TransactionExecutionError::FeeTransferError { max_fee, actual_fee }) => {
            assert_eq!(max_fee, Fee(1000));
            assert_eq!(actual_fee, Fee(2000));
        },
        other => panic!("expected a fee-transfer error, got {:?}", other),
    }
}

#[test]
fn failed_fee_transfer_call_is_a_hard_error() {
    let mut state = funded_state(5, 2000, 0);
    let outcomes = ExternalOutcomes {
        validate: completed(SENDER, 10),
        execute: completed(SENDER, 50),
        calculated_fee: Fee(120),
        fee_transfer: CallOutcome::Failed {
            error: String::from("transfer entry point failed"),
            remaining_steps: None,
        },
    };
    let r = invoke_v1(1000, 5).execute_raw(&mut state, &block(), outcomes);
    match r {
        Err(TransactionExecutionError::EntryPointExecutionError { error }) => {
            assert_eq!(error, String::from("transfer entry point failed"));
        },
        other => panic!("expected a hard fee-transfer failure, got {:?}", other),
    }
}

#[test]
fn revert_with_more_remaining_steps_than_budget_is_an_error() {
    let mut state = funded_state(5, 2000, 0);
    let outcomes = ExternalOutcomes {
        validate: completed(SENDER, 10),
        execute: CallOutcome::Failed {
            error: String::from("ran out of gas"),
            remaining_steps: Some(MAX_STEPS + 1),
        },
        calculated_fee: Fee(120),
        fee_transfer: completed(ETH_TOKEN, 4),
    };
    let r = invoke_v1(1000, 5).execute_raw(&mut state, &block(), outcomes);
    match r {
        Err(TransactionExecutionError::RemainingStepsExceedBudget { remaining_steps, max_steps }) => {
            assert_eq!(remaining_steps, MAX_STEPS + 1);
            assert_eq!(max_steps, MAX_STEPS);
        },
        other => panic!("expected a step-budget error, got {:?}", other),
    }
}

#[test]
fn context_round_trip_reproduces_transaction_fields() {
    let invoke = invoke_v1(1000, 5);
    let ctx = invoke.get_account_transaction_context();
    assert_eq!(ctx.version, TransactionVersion(1));
    assert_eq!(ctx.nonce, Nonce(5));
    assert_eq!(ctx.sender_address, ContractAddress(SENDER));
    assert_eq!(ctx.max_fee, Fee(1000));
    assert_eq!(ctx.transaction_hash, TransactionHash(0xabc));
    assert_eq!(ctx.signature.0, vec![11, 22]);

    let declare = AccountTransaction::Declare(DeclareTransaction {
        transaction_hash: TransactionHash(77),
        max_fee: Fee(3),
        version: TransactionVersion(2),
        signature: TransactionSignature(vec![5]),
        nonce: Nonce(8),
        sender_address: ContractAddress(21),
        class_hash: ClassHash(31),
    });
    let ctx = declare.get_account_transaction_context();
    assert_eq!(ctx.version, TransactionVersion(2));
    assert_eq!(ctx.nonce, Nonce(8));
    assert_eq!(ctx.sender_address, ContractAddress(21));

    let deploy = deploy_account_tx(1);
    let ctx = deploy.get_account_transaction_context();
    assert_eq!(ctx.version, TransactionVersion(1));
    assert_eq!(ctx.nonce, Nonce(5));
    // the deployed contract address acts as the sender
    assert_eq!(ctx.sender_address, ContractAddress(SENDER));
}

#[test]
fn validate_calldata_per_kind() {
    let declare = AccountTransaction::Declare(DeclareTransaction {
        transaction_hash: TransactionHash(77),
        max_fee: Fee(3),
        version: TransactionVersion(2),
        signature: TransactionSignature(Vec::new()),
        nonce: Nonce(8),
        sender_address: ContractAddress(21),
        class_hash: ClassHash(31),
    });
    assert_eq!(declare.validate_entrypoint_calldata().0, vec![31]);
    assert_eq!(declare.validate_entry_point_selector(), String::from("__validate_declare__"));

    let deploy = deploy_account_tx(1);
    assert_eq!(deploy.validate_entrypoint_calldata().0, vec![31, 17, 8, 9]);
    assert_eq!(deploy.validate_entry_point_selector(), String::from("__validate_deploy__"));

    let invoke = invoke_v1(1000, 5);
    assert_eq!(invoke.validate_entrypoint_calldata().0, vec![1, 2, 3]);
    assert_eq!(invoke.validate_entry_point_selector(), String::from("__validate__"));
}
