//! Per-transaction objects: the immutable transaction context, the
//! resource-name to amount mapping, execution traces, the outcomes reported
//! by the external collaborators, the final execution result, and the
//! structured errors.

use vstd::prelude::*;

use crate::block_context::HasRelatedFeeType;
use crate::types::{ContractAddress, Fee, Nonce, StarkFelt, TransactionHash, TransactionSignature,
    TransactionVersion};

verus! {

/// The name of the step-count resource, the one the revert accounting folds
/// consumed steps into.
pub open spec fn spec_n_steps_key() -> Seq<char> {
    "n_steps"@
}

/// The step-count resource name as an owned string.
pub fn n_steps_resource() -> (s: String)
    ensures
        s@ == spec_n_steps_key(),
{
    String::from_str("n_steps")
}

/// Immutable snapshot of a transaction's account-facing fields, created once
/// at the start of the pipeline and never mutated.
#[derive(Clone, Debug)]
pub struct AccountTransactionContext {
    pub transaction_hash: TransactionHash,
    pub max_fee: Fee,
    pub version: TransactionVersion,
    pub signature: TransactionSignature,
    pub nonce: Nonce,
    pub sender_address: ContractAddress,
}

impl HasRelatedFeeType for AccountTransactionContext {
    open spec fn spec_version(&self) -> TransactionVersion {
        self.version
    }

    open spec fn spec_is_l1_handler(&self) -> bool {
        false
    }

    fn version(&self) -> (r: TransactionVersion) {
        self.version
    }

    fn is_l1_handler(&self) -> (r: bool) {
        false
    }
}

/// The amount recorded for the key whose characters are `k`; a key never
/// recorded has amount zero.
pub open spec fn amount_in(s: Seq<(String, u64)>, k: Seq<char>) -> u64
    decreases s.len(),
{
    if s.len() == 0 {
        0
    } else if s.last().0@ == k {
        s.last().1
    } else {
        amount_in(s.drop_last(), k)
    }
}

/// No two entries carry the same resource name.
pub open spec fn resource_keys_unique(s: Seq<(String, u64)>) -> bool {
    forall|i: int, j: int| 0 <= i < j < s.len() ==> #[trigger] s[i].0@ != #[trigger] s[j].0@
}

proof fn lemma_amount_in_absent(s: Seq<(String, u64)>, k: Seq<char>)
    requires
        forall|i: int| 0 <= i < s.len() ==> #[trigger] s[i].0@ != k,
    ensures
        amount_in(s, k) == 0,
    decreases s.len(),
{
    if s.len() > 0 {
        assert(s[s.len() - 1].0@ != k);
        assert(forall|i: int| 0 <= i < s.drop_last().len() ==> #[trigger] s.drop_last()[i].0@
            != k);
        lemma_amount_in_absent(s.drop_last(), k);
    }
}

proof fn lemma_amount_in_found(s: Seq<(String, u64)>, i: int)
    requires
        resource_keys_unique(s),
        0 <= i < s.len(),
    ensures
        amount_in(s, s[i].0@) == s[i].1,
    decreases s.len(),
{
    if i == s.len() - 1 {
        assert(s.last() == s[i]);
    } else {
        assert(s[i].0@ != s[s.len() - 1].0@);
        assert(resource_keys_unique(s.drop_last()));
        assert(s.drop_last()[i] == s[i]);
        lemma_amount_in_found(s.drop_last(), i);
    }
}

proof fn lemma_amount_in_update(s: Seq<(String, u64)>, i: int, e: (String, u64), k: Seq<char>)
    requires
        resource_keys_unique(s),
        0 <= i < s.len(),
        s[i].0@ == e.0@,
    ensures
        amount_in(s.update(i, e), k) == if k == e.0@ {
            e.1
        } else {
            amount_in(s, k)
        },
    decreases s.len(),
{
    if i == s.len() - 1 {
        assert(s.update(i, e).drop_last() =~= s.drop_last());
        assert(s.update(i, e).last() == e);
        if k == e.0@ {
        } else if s.last().0@ == k {
            assert(false);
        }
    } else {
        assert(resource_keys_unique(s.drop_last()));
        assert(s.drop_last()[i] == s[i]);
        lemma_amount_in_update(s.drop_last(), i, e, k);
        assert(s.update(i, e).drop_last() =~= s.drop_last().update(i, e));
        assert(s.update(i, e).last() == s.last());
        assert(s[i].0@ != s[s.len() - 1].0@);
    }
}

proof fn lemma_amount_in_push(s: Seq<(String, u64)>, e: (String, u64), k: Seq<char>)
    ensures
        amount_in(s.push(e), k) == if k == e.0@ {
            e.1
        } else {
            amount_in(s, k)
        },
{
    assert(s.push(e).drop_last() =~= s);
    assert(s.push(e).last() == e);
}

/// A mapping from resource name to consumed amount. It is mutated only
/// additively: amounts are folded in, never removed.
#[derive(Clone, Debug)]
pub struct ResourcesMapping {
    entries: Vec<(String, u64)>,
}

impl ResourcesMapping {
    /// The consumed amount recorded under the name `k`; zero when the name
    /// was never recorded.
    pub closed spec fn spec_amount(&self, k: Seq<char>) -> u64 {
        amount_in(self.entries@, k)
    }

    /// At most one entry per resource name.
    pub closed spec fn wf(&self) -> bool {
        resource_keys_unique(self.entries@)
    }

    /// The empty mapping: every resource has consumed amount zero.
    pub fn new() -> (r: Self)
        ensures
            r.wf(),
            forall|k: Seq<char>| r.spec_amount(k) == 0,
    {
        ResourcesMapping { entries: Vec::new() }
    }

    /// The amount consumed under `name`, zero if never recorded.
    pub fn get_amount(&self, name: &String) -> (r: u64)
        requires
            self.wf(),
        ensures
            r == self.spec_amount(name@),
    {
        let n = self.entries.len();
        let mut i: usize = 0;
        while i < n
            invariant
                self.wf(),
                n == self.entries@.len(),
                0 <= i <= n,
                forall|j: int| 0 <= j < i ==> #[trigger] self.entries@[j].0@ != name@,
            decreases n - i,
        {
            if self.entries[i].0.eq(name) {
                proof {
                    lemma_amount_in_found(self.entries@, i as int);
                }
                return self.entries[i].1;
            }
            i += 1;
        }
        proof {
            lemma_amount_in_absent(self.entries@, name@);
        }
        0
    }

    /// Folds `amount` into the amount consumed under `name`, leaving every
    /// other resource untouched.
    pub fn add_amount(&mut self, name: String, amount: u64)
        requires
            old(self).wf(),
            old(self).spec_amount(name@) + amount <= u64::MAX,
        ensures
            final(self).wf(),
            final(self).spec_amount(name@) == old(self).spec_amount(name@) + amount,
            forall|k: Seq<char>|
                k != name@ ==> final(self).spec_amount(k) == old(self).spec_amount(k),
    {
        let n = self.entries.len();
        let mut i: usize = 0;
        while i < n
            invariant
                *self == *old(self),
                self.wf(),
                old(self).spec_amount(name@) + amount <= u64::MAX,
                n == self.entries@.len(),
                0 <= i <= n,
                forall|j: int| 0 <= j < i ==> #[trigger] self.entries@[j].0@ != name@,
            decreases n - i,
        {
            if self.entries[i].0.eq(&name) {
                proof {
                    lemma_amount_in_found(self.entries@, i as int);
                }
                let updated = (name, self.entries[i].1 + amount);
                proof {
                    assert forall|k: Seq<char>| true implies amount_in(
                        self.entries@.update(i as int, updated),
                        k,
                    ) == if k == updated.0@ {
                        updated.1
                    } else {
                        amount_in(self.entries@, k)
                    } by {
                        lemma_amount_in_update(self.entries@, i as int, updated, k);
                    };
                    let s_new = self.entries@.update(i as int, updated);
                    assert forall|a: int, b: int| 0 <= a < b < s_new.len() implies #[trigger] s_new[a].0@
                        != #[trigger] s_new[b].0@ by {
                        assert(s_new[a].0@ == self.entries@[a].0@ || a == i);
                        assert(s_new[b].0@ == self.entries@[b].0@ || b == i);
                    };
                }
                self.entries[i] = updated;
                return ;
            }
            i += 1;
        }
        proof {
            lemma_amount_in_absent(self.entries@, name@);
        }
        let entry = (name, amount);
        proof {
            assert forall|k: Seq<char>| true implies amount_in(self.entries@.push(entry), k) == if k
                == entry.0@ {
                entry.1
            } else {
                amount_in(self.entries@, k)
            } by {
                lemma_amount_in_push(self.entries@, entry, k);
            };
            let s_new = self.entries@.push(entry);
            assert forall|a: int, b: int| 0 <= a < b < s_new.len() implies #[trigger] s_new[a].0@
                != #[trigger] s_new[b].0@ by {
                if b == self.entries@.len() {
                    assert(s_new[a] == self.entries@[a]);
                } else {
                    assert(s_new[a] == self.entries@[a]);
                    assert(s_new[b] == self.entries@[b]);
                }
            };
        }
        self.entries.push(entry);
    }

    /// Folds every amount of `other` into this mapping, pointwise: afterwards
    /// each resource's amount is the sum of the two mappings' amounts.
    pub fn merge(&mut self, other: &ResourcesMapping)
        requires
            old(self).wf(),
            other.wf(),
            forall|k: Seq<char>|
                #![auto]
                old(self).spec_amount(k) + other.spec_amount(k) <= u64::MAX,
        ensures
            final(self).wf(),
            forall|k: Seq<char>|
                #![auto]
                final(self).spec_amount(k) == old(self).spec_amount(k) + other.spec_amount(k),
    {
        let n = other.entries.len();
        let mut i: usize = 0;
        while i < n
            invariant
                self.wf(),
                other.wf(),
                n == other.entries@.len(),
                0 <= i <= n,
                forall|k: Seq<char>|
                    #![auto]
                    self.spec_amount(k) == old(self).spec_amount(k) + amount_in(
                        other.entries@.subrange(0, i as int),
                        k,
                    ),
                forall|k: Seq<char>|
                    #![auto]
                    old(self).spec_amount(k) + other.spec_amount(k) <= u64::MAX,
            decreases n - i,
        {
            let name = other.entries[i].0.clone();
            let amount = other.entries[i].1;
            proof {
                let pre = other.entries@.subrange(0, i as int);
                let cur = other.entries@.subrange(0, i as int + 1);
                assert(cur.drop_last() =~= pre);
                assert(cur.last() == other.entries@[i as int]);
                // the processed prefix holds none of this key, so its
                // recorded amount there is zero
                assert forall|j: int| 0 <= j < pre.len() implies #[trigger] pre[j].0@ != name@ by {
                    assert(pre[j] == other.entries@[j]);
                    assert(other.entries@[j].0@ != other.entries@[i as int].0@);
                };
                lemma_amount_in_absent(pre, name@);
                lemma_amount_in_found(other.entries@, i as int);
                assert(other.spec_amount(name@) == amount);
                assert(old(self).spec_amount(name@) + other.spec_amount(name@) <= u64::MAX);
                assert(self.spec_amount(name@) + amount <= u64::MAX);
                assert forall|k: Seq<char>| true implies amount_in(cur, k) == amount_in(pre, k)
                    + if k == name@ {
                    amount
                } else {
                    0
                } by {
                    if k == name@ {
                        assert(amount_in(cur, k) == amount);
                        assert(amount_in(pre, k) == 0);
                    }
                };
            }
            self.add_amount(name, amount);
            i += 1;
        }
        proof {
            assert(other.entries@.subrange(0, n as int) =~= other.entries@);
        }
    }
}

/// The trace of one executed call: the contract it ran against, the storage
/// addresses of the calls nested inside it, and the resources it consumed.
#[derive(Clone, Debug)]
pub struct CallInfo {
    pub storage_address: ContractAddress,
    pub inner_call_storage_addresses: Vec<ContractAddress>,
    pub resources: ResourcesMapping,
}

impl CallInfo {
    /// Every call nested inside this one ran against the same contract.
    pub open spec fn spec_no_calls_to_other_contracts(&self) -> bool {
        forall|i: int|
            0 <= i < self.inner_call_storage_addresses@.len()
                ==> #[trigger] self.inner_call_storage_addresses@[i] == self.storage_address
    }
}

/// One storage write performed by an executed call.
#[derive(PartialEq, Eq, Structural, Clone, Copy, Debug)]
pub struct StorageWrite {
    pub contract_address: ContractAddress,
    pub storage_key: crate::types::StorageKey,
    pub value: StarkFelt,
}

/// What the external call executor reported for one entry-point call: either
/// the call completed, with its trace and the storage writes it performed, or
/// it failed, with its error trace and — when the failure spent part of the
/// step budget — the step budget remaining at failure time.
#[derive(Clone, Debug)]
pub enum CallOutcome {
    Completed { call_info: CallInfo, storage_writes: Vec<StorageWrite> },
    Failed { error: String, remaining_steps: Option<u64> },
}

/// The results the external collaborators report when the pipeline invokes
/// them: the validate call, the execute call, the fee calculated for the
/// accounted resources, and the fee-transfer call. The pipeline consults each
/// only in the phase that needs it.
#[derive(Clone, Debug)]
pub struct ExternalOutcomes {
    pub validate: CallOutcome,
    pub execute: CallOutcome,
    pub calculated_fee: Fee,
    pub fee_transfer: CallOutcome,
}

/// The final, immutable output of the pipeline.
#[derive(Clone, Debug)]
pub struct TransactionExecutionInfo {
    pub validate_call_info: Option<CallInfo>,
    pub execute_call_info: Option<CallInfo>,
    pub fee_transfer_call_info: Option<CallInfo>,
    pub actual_fee: Fee,
    pub actual_resources: ResourcesMapping,
    pub revert_error: Option<String>,
}

/// A structured rejection or hard failure of the pipeline.
#[derive(Clone, Debug)]
pub enum TransactionExecutionError {
    /// The transaction's version is outside its kind's allow-list.
    InvalidVersion { version: TransactionVersion, allowed_versions: Vec<TransactionVersion> },
    /// The stated nonce differs from the sender's current nonce.
    InvalidNonce { address: ContractAddress, expected_nonce: Nonce, actual_nonce: Nonce },
    /// The sender's fee-token balance cannot cover the declared max fee.
    MaxFeeExceedsBalance { max_fee: Fee, balance_low: StarkFelt, balance_high: StarkFelt },
    /// The validate call itself failed.
    ValidateTransactionError { error: String },
    /// The validate call made a call to a different contract address.
    UnauthorizedInnerCall { entry_point_kind: String },
    /// An entry-point call that may not revert failed hard.
    EntryPointExecutionError { error: String },
    /// The computed fee exceeds the declared max fee after the balance check
    /// already passed: a cost-model bug.
    FeeTransferError { max_fee: Fee, actual_fee: Fee },
    /// A revert reported more remaining steps than the whole step budget: a
    /// scheduler or executor bug.
    RemainingStepsExceedBudget { remaining_steps: u64, max_steps: u64 },
}

} // verus!
