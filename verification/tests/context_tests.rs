use blockifier::block_context::{BlockContext, FeeTokenAddresses, GasPrices};
use blockifier::objects::AccountTransactionContext;
use blockifier::transactions::invoke_version_supported;
use blockifier::types::{ContractAddress, Fee, Nonce, TransactionHash, TransactionSignature,
    TransactionVersion};

fn context_of_version(version: u128) -> AccountTransactionContext {
    AccountTransactionContext {
        transaction_hash: TransactionHash(1),
        max_fee: Fee(10),
        version: TransactionVersion(version),
        signature: TransactionSignature(Vec::new()),
        nonce: Nonce(0),
        sender_address: ContractAddress(7),
    }
}

fn sample_block() -> BlockContext {
    BlockContext {
        chain_id: 1,
        block_number: 4,
        block_timestamp: 99,
        sequencer_address: ContractAddress(2),
        fee_token_addresses: FeeTokenAddresses {
            strk_fee_token_address: ContractAddress(101),
            eth_fee_token_address: ContractAddress(100),
        },
        gas_prices: GasPrices { eth_l1_gas_price: 30, strk_l1_gas_price: 40 },
        invoke_tx_max_n_steps: 1000,
        validate_max_n_steps: 1000,
        max_recursion_depth: 5,
    }
}

#[test]
fn fee_token_and_gas_price_follow_the_version() {
    let block = sample_block();
    // before version three: the earlier token and its gas price
    assert_eq!(block.fee_token_address(&context_of_version(1)), ContractAddress(100));
    assert_eq!(block.gas_prices.get_for_version(&context_of_version(1)), 30);
    // from version three on: the later token
    assert_eq!(block.fee_token_address(&context_of_version(3)), ContractAddress(101));
    assert_eq!(block.gas_prices.get_for_version(&context_of_version(3)), 40);
    assert_eq!(
        block.fee_token_addresses.get_for_version(&context_of_version(4)),
        ContractAddress(101)
    );
}

#[test]
fn supported_invoke_versions_are_zero_one_three() {
    assert!(invoke_version_supported(0));
    assert!(invoke_version_supported(1));
    assert!(!invoke_version_supported(2));
    assert!(invoke_version_supported(3));
    assert!(!invoke_version_supported(4));
}
