//! The three paid account-transaction kinds and their fields, with the
//! accessors the pipeline classifies by. Hashing and signature schemes are
//! out of scope: hashes arrive as plain field elements.

use vstd::prelude::*;

use crate::types::{Calldata, ClassHash, ContractAddress, ContractAddressSalt, Fee, Nonce,
    TransactionHash, TransactionSignature, TransactionVersion};

verus! {

/// The kind of a paid account transaction.
#[derive(PartialEq, Eq, Structural, Clone, Copy, Debug)]
pub enum TransactionType {
    Declare,
    DeployAccount,
    InvokeFunction,
}

/// Copies a sequence of field elements.
pub fn copy_felts(v: &Vec<u128>) -> (r: Vec<u128>)
    ensures
        r@ == v@,
{
    let mut r: Vec<u128> = Vec::new();
    let n = v.len();
    let mut i: usize = 0;
    while i < n
        invariant
            n == v@.len(),
            0 <= i <= n,
            r@ == v@.subrange(0, i as int),
        decreases n - i,
    {
        r.push(v[i]);
        proof {
            assert(v@.subrange(0, i as int).push(v@[i as int]) =~= v@.subrange(0, i + 1));
        }
        i += 1;
    }
    proof {
        assert(v@.subrange(0, n as int) =~= v@);
    }
    r
}

/// A declare transaction: registers a contract class.
#[derive(Clone, Debug)]
pub struct DeclareTransaction {
    pub transaction_hash: TransactionHash,
    pub max_fee: Fee,
    pub version: TransactionVersion,
    pub signature: TransactionSignature,
    pub nonce: Nonce,
    pub sender_address: ContractAddress,
    pub class_hash: ClassHash,
}

/// A deploy-account transaction: deploys the sender's own account contract,
/// which therefore does not exist yet when the transaction starts.
#[derive(Clone, Debug)]
pub struct DeployAccountTransaction {
    pub transaction_hash: TransactionHash,
    pub max_fee: Fee,
    pub version: TransactionVersion,
    pub signature: TransactionSignature,
    pub nonce: Nonce,
    pub class_hash: ClassHash,
    pub contract_address_salt: ContractAddressSalt,
    pub constructor_calldata: Calldata,
    pub contract_address: ContractAddress,
}

/// An invoke transaction of version zero: addresses its target entry point
/// directly and carries no nonce.
#[derive(Clone, Debug)]
pub struct InvokeTransactionV0 {
    pub max_fee: Fee,
    pub signature: TransactionSignature,
    pub contract_address: ContractAddress,
    pub entry_point_selector: u128,
    pub calldata: Calldata,
}

/// An invoke transaction of version one.
#[derive(Clone, Debug)]
pub struct InvokeTransactionV1 {
    pub max_fee: Fee,
    pub signature: TransactionSignature,
    pub nonce: Nonce,
    pub sender_address: ContractAddress,
    pub calldata: Calldata,
}

/// A bound on one purchasable resource: the most that may be bought and the
/// highest unit price accepted.
#[derive(PartialEq, Eq, Structural, Clone, Copy, Debug)]
pub struct ResourceBounds {
    pub max_amount: u64,
    pub max_price_per_unit: u128,
}

/// The resource bounds a version-three transaction declares instead of a
/// max fee.
#[derive(PartialEq, Eq, Structural, Clone, Copy, Debug)]
pub struct ResourceBoundsMapping {
    pub l1_gas: ResourceBounds,
    pub l2_gas: ResourceBounds,
}

/// Where a piece of transaction data is made available.
#[derive(PartialEq, Eq, Structural, Clone, Copy, Debug)]
pub enum DataAvailabilityMode {
    L1,
    L2,
}

/// An invoke transaction of version three: resource-bounded instead of
/// fee-capped.
#[derive(Clone, Debug)]
pub struct InvokeTransactionV3 {
    pub resource_bounds: ResourceBoundsMapping,
    pub tip: u64,
    pub signature: TransactionSignature,
    pub nonce: Nonce,
    pub sender_address: ContractAddress,
    pub calldata: Calldata,
    pub nonce_data_availability_mode: DataAvailabilityMode,
    pub fee_data_availability_mode: DataAvailabilityMode,
    pub paymaster_data: Vec<u128>,
    pub account_deployment_data: Vec<u128>,
}

/// The versioned payload of an invoke transaction.
#[derive(Clone, Debug)]
pub enum InvokeTransactionVariant {
    V0(InvokeTransactionV0),
    V1(InvokeTransactionV1),
    V3(InvokeTransactionV3),
}

/// An invoke transaction: calls an entry point of a deployed contract.
#[derive(Clone, Debug)]
pub struct InvokeTransaction {
    pub tx: InvokeTransactionVariant,
    pub tx_hash: TransactionHash,
}

impl InvokeTransaction {
    /// The version its payload declares.
    pub open spec fn spec_version(&self) -> TransactionVersion {
        match self.tx {
            InvokeTransactionVariant::V0(_) => TransactionVersion(0),
            InvokeTransactionVariant::V1(_) => TransactionVersion(1),
            InvokeTransactionVariant::V3(_) => TransactionVersion(3),
        }
    }

    /// The declared max fee. A version-three transaction declares resource
    /// bounds instead of a max fee and so has none; it reads as zero here,
    /// and the pipeline rejects its version before any fee rule can look at
    /// it.
    pub open spec fn spec_max_fee(&self) -> Fee {
        match self.tx {
            InvokeTransactionVariant::V0(ref tx) => tx.max_fee,
            InvokeTransactionVariant::V1(ref tx) => tx.max_fee,
            InvokeTransactionVariant::V3(_) => Fee(0),
        }
    }

    /// The stated nonce; a version-zero transaction carries none and reads
    /// as zero.
    pub open spec fn spec_nonce(&self) -> Nonce {
        match self.tx {
            InvokeTransactionVariant::V0(_) => Nonce(0),
            InvokeTransactionVariant::V1(ref tx) => tx.nonce,
            InvokeTransactionVariant::V3(ref tx) => tx.nonce,
        }
    }

    /// The sending account: the target contract itself for version zero.
    pub open spec fn spec_sender_address(&self) -> ContractAddress {
        match self.tx {
            InvokeTransactionVariant::V0(ref tx) => tx.contract_address,
            InvokeTransactionVariant::V1(ref tx) => tx.sender_address,
            InvokeTransactionVariant::V3(ref tx) => tx.sender_address,
        }
    }

    /// The signature field elements.
    pub open spec fn spec_signature(&self) -> Seq<u128> {
        match self.tx {
            InvokeTransactionVariant::V0(ref tx) => tx.signature.0@,
            InvokeTransactionVariant::V1(ref tx) => tx.signature.0@,
            InvokeTransactionVariant::V3(ref tx) => tx.signature.0@,
        }
    }

    /// The call arguments.
    pub open spec fn spec_calldata(&self) -> Seq<u128> {
        match self.tx {
            InvokeTransactionVariant::V0(ref tx) => tx.calldata.0@,
            InvokeTransactionVariant::V1(ref tx) => tx.calldata.0@,
            InvokeTransactionVariant::V3(ref tx) => tx.calldata.0@,
        }
    }

    pub fn max_fee(&self) -> (r: Fee)
        ensures
            r == self.spec_max_fee(),
    {
        match &self.tx {
            InvokeTransactionVariant::V0(tx) => tx.max_fee,
            InvokeTransactionVariant::V1(tx) => tx.max_fee,
            InvokeTransactionVariant::V3(_) => Fee(0),
        }
    }

    pub fn nonce(&self) -> (r: Nonce)
        ensures
            r == self.spec_nonce(),
    {
        match &self.tx {
            InvokeTransactionVariant::V0(_) => Nonce(0),
            InvokeTransactionVariant::V1(tx) => tx.nonce,
            InvokeTransactionVariant::V3(tx) => tx.nonce,
        }
    }

    pub fn sender_address(&self) -> (r: ContractAddress)
        ensures
            r == self.spec_sender_address(),
    {
        match &self.tx {
            InvokeTransactionVariant::V0(tx) => tx.contract_address,
            InvokeTransactionVariant::V1(tx) => tx.sender_address,
            InvokeTransactionVariant::V3(tx) => tx.sender_address,
        }
    }
}

/// Whether a host-supplied invoke payload declares a version this library
/// can represent: zero, one or three. The marshalling layer consults this
/// before extracting, and reports an unsupported version otherwise.
pub open spec fn spec_invoke_version_supported(version: u128) -> bool {
    version == 0 || version == 1 || version == 3
}

pub fn invoke_version_supported(version: u128) -> (r: bool)
    ensures
        r == spec_invoke_version_supported(version),
{
    version == 0 || version == 1 || version == 3
}

} // verus!
