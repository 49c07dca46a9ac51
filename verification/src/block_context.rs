//! Read-only per-batch facts: block identity, sequencer address, the two
//! fee-token addresses and gas prices (selected per transaction's fee type),
//! and the step-count limits.

use vstd::prelude::*;

use crate::types::{ContractAddress, TransactionVersion};

verus! {

/// Something that determines a fee type: a transaction-like value with a
/// version and an l1-handler flag. The fee type selects which fee token pays
/// and which gas price applies.
pub trait HasRelatedFeeType {
    /// The value's declared version.
    spec fn spec_version(&self) -> TransactionVersion;

    /// Whether the value is an l1-handler transaction, which is never paid in
    /// the later fee token.
    spec fn spec_is_l1_handler(&self) -> bool;

    fn version(&self) -> (r: TransactionVersion)
        ensures
            r == self.spec_version(),
    ;

    fn is_l1_handler(&self) -> (r: bool)
        ensures
            r == self.spec_is_l1_handler(),
    ;
}

/// The later fee token pays for non-l1-handler transactions of version three
/// or above; everything else pays in the earlier token.
pub open spec fn spec_is_strk_version<T: HasRelatedFeeType>(has_version: &T) -> bool {
    !has_version.spec_is_l1_handler() && has_version.spec_version().0 >= 3
}

fn is_strk_version<T: HasRelatedFeeType>(has_version: &T) -> (r: bool)
    ensures
        r == spec_is_strk_version(has_version),
{
    !has_version.is_l1_handler() && has_version.version().0 >= 3
}

/// The fee-token contract addresses, one per fee type.
#[derive(PartialEq, Eq, Structural, Clone, Copy, Debug)]
pub struct FeeTokenAddresses {
    pub strk_fee_token_address: ContractAddress,
    pub eth_fee_token_address: ContractAddress,
}

impl FeeTokenAddresses {
    /// The address of the fee token a transaction of this fee type pays in.
    pub open spec fn spec_get_for_version<T: HasRelatedFeeType>(
        &self,
        has_version: &T,
    ) -> ContractAddress {
        if spec_is_strk_version(has_version) {
            self.strk_fee_token_address
        } else {
            self.eth_fee_token_address
        }
    }

    pub fn get_for_version<T: HasRelatedFeeType>(&self, has_version: &T) -> (r: ContractAddress)
        ensures
            r == self.spec_get_for_version(has_version),
    {
        if is_strk_version(has_version) {
            self.strk_fee_token_address
        } else {
            self.eth_fee_token_address
        }
    }
}

/// The layer-1 gas prices, one per fee type, in that fee token's smallest
/// unit.
#[derive(PartialEq, Eq, Structural, Clone, Copy, Debug)]
pub struct GasPrices {
    pub eth_l1_gas_price: u128,
    pub strk_l1_gas_price: u128,
}

impl GasPrices {
    /// The gas price a transaction of this fee type is charged at.
    pub open spec fn spec_get_for_version<T: HasRelatedFeeType>(&self, has_version: &T) -> u128 {
        if spec_is_strk_version(has_version) {
            self.strk_l1_gas_price
        } else {
            self.eth_l1_gas_price
        }
    }

    pub fn get_for_version<T: HasRelatedFeeType>(&self, has_version: &T) -> (r: u128)
        ensures
            r == self.spec_get_for_version(has_version),
    {
        if is_strk_version(has_version) {
            self.strk_l1_gas_price
        } else {
            self.eth_l1_gas_price
        }
    }
}

/// Read-only facts about the batch being executed.
#[derive(Clone, Debug)]
pub struct BlockContext {
    pub chain_id: u64,
    pub block_number: u64,
    pub block_timestamp: u64,
    pub sequencer_address: ContractAddress,
    pub fee_token_addresses: FeeTokenAddresses,
    pub gas_prices: GasPrices,
    pub invoke_tx_max_n_steps: u32,
    pub validate_max_n_steps: u32,
    pub max_recursion_depth: usize,
}

impl BlockContext {
    /// The fee token a transaction of this fee type pays in.
    pub open spec fn spec_fee_token_address<T: HasRelatedFeeType>(
        &self,
        version: &T,
    ) -> ContractAddress {
        self.fee_token_addresses.spec_get_for_version(version)
    }

    pub fn fee_token_address<T: HasRelatedFeeType>(&self, version: &T) -> (r: ContractAddress)
        ensures
            r == self.spec_fee_token_address(version),
    {
        self.fee_token_addresses.get_for_version(version)
    }
}

} // verus!
