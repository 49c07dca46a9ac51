//! Chain value types as the pipeline reads them. Each is the plain word (or
//! words) of a field element that the logic compares, orders or increments;
//! equality on them is field-element equality.

use vstd::prelude::*;

verus! {

/// A value held in one contract-storage slot.
#[derive(PartialEq, Eq, Structural, Clone, Copy, Debug)]
pub struct StarkFelt(pub u128);

/// Address of a deployed contract.
#[derive(PartialEq, Eq, Structural, Clone, Copy, Debug)]
pub struct ContractAddress(pub u128);

/// Key of one storage slot within a contract.
#[derive(PartialEq, Eq, Structural, Clone, Copy, Debug)]
pub struct StorageKey(pub u128);

/// Hash identifying a declared contract class.
#[derive(PartialEq, Eq, Structural, Clone, Copy, Debug)]
pub struct ClassHash(pub u128);

/// Hash identifying the compiled form of a contract class.
#[derive(PartialEq, Eq, Structural, Clone, Copy, Debug)]
pub struct CompiledClassHash(pub u128);

/// An account's transaction counter; compared for exact equality and
/// incremented by one.
#[derive(PartialEq, Eq, Structural, Clone, Copy, Debug)]
pub struct Nonce(pub u128);

/// A fee amount, a 128-bit unsigned quantity of fee tokens.
#[derive(PartialEq, Eq, Structural, Clone, Copy, Debug)]
pub struct Fee(pub u128);

/// A transaction's declared version, deciding which rules apply to it.
#[derive(PartialEq, Eq, Structural, Clone, Copy, Debug)]
pub struct TransactionVersion(pub u128);

/// The hash identifying a transaction.
#[derive(PartialEq, Eq, Structural, Clone, Copy, Debug)]
pub struct TransactionHash(pub u128);

/// The salt mixed into a deployed account's address.
#[derive(PartialEq, Eq, Structural, Clone, Copy, Debug)]
pub struct ContractAddressSalt(pub u128);

/// A transaction's signature, a sequence of field elements.
#[derive(Clone, Debug)]
pub struct TransactionSignature(pub Vec<u128>);

/// Call arguments, a sequence of field elements.
#[derive(Clone, Debug)]
pub struct Calldata(pub Vec<u128>);

} // verus!
