//! The account-transaction pipeline: classify and version-check, nonce
//! check, balance check, validate, execute with isolated rollback, resource
//! accounting, and the fee charge. The contract interpreter and the fee
//! calculator are external collaborators; the pipeline consumes the outcomes
//! they report and decides everything else.

use vstd::prelude::*;

use crate::block_context::BlockContext;
use crate::objects::{spec_n_steps_key, n_steps_resource, AccountTransactionContext, CallInfo,
    CallOutcome, ExternalOutcomes, ResourcesMapping, StorageWrite, TransactionExecutionError,
    TransactionExecutionInfo};
use crate::state::{applied_value, lemma_applied_concat, StagedWrites, StorageSlot, TokenAccount,
    TransactionalState};
use crate::transactions::{copy_felts, DeclareTransaction, DeployAccountTransaction,
    InvokeTransaction, InvokeTransactionVariant, TransactionType};
use crate::types::{Calldata, ContractAddress, Fee, Nonce, StarkFelt, TransactionHash,
    TransactionSignature, TransactionVersion};

verus! {

/// A paid account transaction: one of the three kinds the pipeline accepts.
#[derive(Clone, Debug)]
pub enum AccountTransaction {
    Declare(DeclareTransaction),
    DeployAccount(DeployAccountTransaction),
    Invoke(InvokeTransaction),
}

/// What the execute phase left behind when it failed after a successful
/// validate: the human-readable error trace, and — when the executor
/// reported it — the step budget still unspent at failure time. A revert
/// carries no execute trace: the two are mutually exclusive by construction.
#[derive(Clone, Debug)]
pub struct RevertData {
    pub revert_error: String,
    pub remaining_steps: Option<u64>,
}

/// What validate and execute left behind, fed to accounting and fee charge.
#[derive(Clone, Debug)]
pub struct ValidateExecuteCallInfo {
    pub validate_call_info: Option<CallInfo>,
    pub execute_call_info: Option<CallInfo>,
    pub revert_data: Option<RevertData>,
}

/// The trace of a completed call outcome.
pub open spec fn spec_completed_info(o: CallOutcome) -> CallInfo {
    match o {
        CallOutcome::Completed { call_info, .. } => call_info,
        CallOutcome::Failed { .. } => vstd::pervasive::arbitrary(),
    }
}

/// The storage writes of a completed call outcome.
pub open spec fn spec_completed_writes(o: CallOutcome) -> Seq<StorageWrite> {
    match o {
        CallOutcome::Completed { storage_writes, .. } => storage_writes@,
        CallOutcome::Failed { .. } => vstd::pervasive::arbitrary(),
    }
}

/// The error trace of a failed call outcome.
pub open spec fn spec_failed_error(o: CallOutcome) -> String {
    match o {
        CallOutcome::Completed { .. } => vstd::pervasive::arbitrary(),
        CallOutcome::Failed { error, .. } => error,
    }
}

/// The remaining step budget a failed call outcome reported.
pub open spec fn spec_failed_remaining(o: CallOutcome) -> Option<u64> {
    match o {
        CallOutcome::Completed { .. } => vstd::pervasive::arbitrary(),
        CallOutcome::Failed { remaining_steps, .. } => remaining_steps,
    }
}

/// The fee token a transaction of the given version pays in: the later
/// token from version three on, the earlier one before.
pub open spec fn spec_fee_token_for_version(
    block_context: &BlockContext,
    version: TransactionVersion,
) -> ContractAddress {
    if version.0 >= 3 {
        block_context.fee_token_addresses.strk_fee_token_address
    } else {
        block_context.fee_token_addresses.eth_fee_token_address
    }
}

impl AccountTransaction {
    /// The transaction's kind.
    pub open spec fn spec_tx_type(&self) -> TransactionType {
        match self {
            AccountTransaction::Declare(_) => TransactionType::Declare,
            AccountTransaction::DeployAccount(_) => TransactionType::DeployAccount,
            AccountTransaction::Invoke(_) => TransactionType::InvokeFunction,
        }
    }

    /// The declared max fee.
    pub open spec fn spec_max_fee(&self) -> Fee {
        match self {
            AccountTransaction::Declare(tx) => tx.max_fee,
            AccountTransaction::DeployAccount(tx) => tx.max_fee,
            AccountTransaction::Invoke(tx) => tx.spec_max_fee(),
        }
    }

    /// The declared version.
    pub open spec fn spec_version(&self) -> TransactionVersion {
        match self {
            AccountTransaction::Declare(tx) => tx.version,
            AccountTransaction::DeployAccount(tx) => tx.version,
            AccountTransaction::Invoke(tx) => tx.spec_version(),
        }
    }

    /// The stated nonce.
    pub open spec fn spec_nonce(&self) -> Nonce {
        match self {
            AccountTransaction::Declare(tx) => tx.nonce,
            AccountTransaction::DeployAccount(tx) => tx.nonce,
            AccountTransaction::Invoke(tx) => tx.spec_nonce(),
        }
    }

    /// The sending account: for deploy-account, the address being deployed.
    pub open spec fn spec_sender_address(&self) -> ContractAddress {
        match self {
            AccountTransaction::Declare(tx) => tx.sender_address,
            AccountTransaction::DeployAccount(tx) => tx.contract_address,
            AccountTransaction::Invoke(tx) => tx.spec_sender_address(),
        }
    }

    /// The transaction hash.
    pub open spec fn spec_transaction_hash(&self) -> TransactionHash {
        match self {
            AccountTransaction::Declare(tx) => tx.transaction_hash,
            AccountTransaction::DeployAccount(tx) => tx.transaction_hash,
            AccountTransaction::Invoke(tx) => tx.tx_hash,
        }
    }

    /// The signature field elements.
    pub open spec fn spec_signature(&self) -> Seq<u128> {
        match self {
            AccountTransaction::Declare(tx) => tx.signature.0@,
            AccountTransaction::DeployAccount(tx) => tx.signature.0@,
            AccountTransaction::Invoke(tx) => tx.spec_signature(),
        }
    }

    /// The versions this transaction's kind accepts: declare up to two,
    /// invoke up to one, deploy-account exactly one.
    pub open spec fn spec_allowed_versions(&self) -> Seq<TransactionVersion> {
        match self {
            AccountTransaction::Declare(_) => seq![
                TransactionVersion(0),
                TransactionVersion(1),
                TransactionVersion(2),
            ],
            AccountTransaction::Invoke(_) => seq![TransactionVersion(0), TransactionVersion(1)],
            AccountTransaction::DeployAccount(_) => seq![TransactionVersion(1)],
        }
    }

    /// Whether `version` is in this kind's allow-list.
    pub open spec fn spec_version_allowed(&self, version: TransactionVersion) -> bool {
        match self {
            AccountTransaction::Declare(_) => version.0 == 0 || version.0 == 1 || version.0 == 2,
            AccountTransaction::Invoke(_) => version.0 == 0 || version.0 == 1,
            AccountTransaction::DeployAccount(_) => version.0 == 1,
        }
    }

    pub fn tx_type(&self) -> (r: TransactionType)
        ensures
            r == self.spec_tx_type(),
    {
        match self {
            AccountTransaction::Declare(_) => TransactionType::Declare,
            AccountTransaction::DeployAccount(_) => TransactionType::DeployAccount,
            AccountTransaction::Invoke(_) => TransactionType::InvokeFunction,
        }
    }

    /// The declared max fee.
    pub fn max_fee(&self) -> (r: Fee)
        ensures
            r == self.spec_max_fee(),
    {
        match self {
            AccountTransaction::Declare(declare) => declare.max_fee,
            AccountTransaction::DeployAccount(deploy_account) => deploy_account.max_fee,
            AccountTransaction::Invoke(invoke) => invoke.max_fee(),
        }
    }

    /// Whether any fee rule applies at all: a zero max fee disables the
    /// balance check and all fee enforcement.
    pub fn enforce_fee(&self) -> (r: bool)
        ensures
            r == (self.spec_max_fee() != Fee(0)),
    {
        let max_fee = self.max_fee();
        max_fee.0 != 0
    }

    /// The name of this kind's validate entry point, standing for its
    /// selector; deriving the on-chain selector hashes the name, which is
    /// out of scope here.
    pub fn validate_entry_point_selector(&self) -> (r: String)
        ensures
            match self {
                AccountTransaction::Declare(_) => r@ == "__validate_declare__"@,
                AccountTransaction::DeployAccount(_) => r@ == "__validate_deploy__"@,
                AccountTransaction::Invoke(_) => r@ == "__validate__"@,
            },
    {
        match self {
            AccountTransaction::Declare(_) => String::from_str("__validate_declare__"),
            AccountTransaction::DeployAccount(_) => String::from_str("__validate_deploy__"),
            AccountTransaction::Invoke(_) => String::from_str("__validate__"),
        }
    }

    /// The calldata the validate entry point receives: the transaction
    /// fields a contract could not learn by asking for its own context.
    pub open spec fn spec_validate_entrypoint_calldata(&self) -> Seq<u128> {
        match self {
            AccountTransaction::Declare(tx) => seq![tx.class_hash.0],
            AccountTransaction::DeployAccount(tx) => seq![
                tx.class_hash.0,
                tx.contract_address_salt.0,
            ] + tx.constructor_calldata.0@,
            AccountTransaction::Invoke(tx) => tx.spec_calldata(),
        }
    }

    pub fn validate_entrypoint_calldata(&self) -> (r: Calldata)
        ensures
            r.0@ == self.spec_validate_entrypoint_calldata(),
    {
        match self {
            AccountTransaction::Declare(tx) => {
                let mut v: Vec<u128> = Vec::new();
                v.push(tx.class_hash.0);
                proof {
                    assert(v@ =~= seq![tx.class_hash.0]);
                }
                Calldata(v)
            },
            AccountTransaction::DeployAccount(tx) => {
                let mut v: Vec<u128> = Vec::new();
                v.push(tx.class_hash.0);
                v.push(tx.contract_address_salt.0);
                let ghost head = seq![tx.class_hash.0, tx.contract_address_salt.0];
                proof {
                    assert(v@ =~= head);
                }
                let n = tx.constructor_calldata.0.len();
                let mut i: usize = 0;
                while i < n
                    invariant
                        n == tx.constructor_calldata.0@.len(),
                        0 <= i <= n,
                        v@ == head + tx.constructor_calldata.0@.subrange(0, i as int),
                        head == seq![tx.class_hash.0, tx.contract_address_salt.0],
                    decreases n - i,
                {
                    v.push(tx.constructor_calldata.0[i]);
                    proof {
                        assert(v@ =~= head + tx.constructor_calldata.0@.subrange(0, i + 1));
                    }
                    i += 1;
                }
                proof {
                    assert(tx.constructor_calldata.0@.subrange(0, n as int)
                        =~= tx.constructor_calldata.0@);
                }
                Calldata(v)
            },
            AccountTransaction::Invoke(tx) => {
                match &tx.tx {
                    InvokeTransactionVariant::V0(t) => Calldata(copy_felts(&t.calldata.0)),
                    InvokeTransactionVariant::V1(t) => Calldata(copy_felts(&t.calldata.0)),
                    InvokeTransactionVariant::V3(t) => Calldata(copy_felts(&t.calldata.0)),
                }
            },
        }
    }

    /// Snapshots the account-facing fields. The snapshot reproduces exactly
    /// the version, sender, nonce, fee and hash that reading the transaction
    /// directly gives.
    pub fn get_account_transaction_context(&self) -> (r: AccountTransactionContext)
        ensures
            r.transaction_hash == self.spec_transaction_hash(),
            r.max_fee == self.spec_max_fee(),
            r.version == self.spec_version(),
            r.signature.0@ == self.spec_signature(),
            r.nonce == self.spec_nonce(),
            r.sender_address == self.spec_sender_address(),
    {
        match self {
            AccountTransaction::Declare(tx) => AccountTransactionContext {
                transaction_hash: tx.transaction_hash,
                max_fee: tx.max_fee,
                version: tx.version,
                signature: TransactionSignature(copy_felts(&tx.signature.0)),
                nonce: tx.nonce,
                sender_address: tx.sender_address,
            },
            AccountTransaction::DeployAccount(tx) => AccountTransactionContext {
                transaction_hash: tx.transaction_hash,
                max_fee: tx.max_fee,
                version: tx.version,
                signature: TransactionSignature(copy_felts(&tx.signature.0)),
                nonce: tx.nonce,
                sender_address: tx.contract_address,
            },
            AccountTransaction::Invoke(tx) => {
                let signature = match &tx.tx {
                    InvokeTransactionVariant::V0(t) => TransactionSignature(
                        copy_felts(&t.signature.0),
                    ),
                    InvokeTransactionVariant::V1(t) => TransactionSignature(
                        copy_felts(&t.signature.0),
                    ),
                    InvokeTransactionVariant::V3(t) => TransactionSignature(
                        copy_felts(&t.signature.0),
                    ),
                };
                AccountTransactionContext {
                    transaction_hash: tx.tx_hash,
                    max_fee: tx.max_fee(),
                    version: match &tx.tx {
                        InvokeTransactionVariant::V0(_) => TransactionVersion(0),
                        InvokeTransactionVariant::V1(_) => TransactionVersion(1),
                        InvokeTransactionVariant::V3(_) => TransactionVersion(3),
                    },
                    signature,
                    nonce: tx.nonce(),
                    sender_address: tx.sender_address(),
                }
            },
        }
    }

    /// Accepts exactly the versions in this kind's allow-list; any other
    /// version is rejected with the allow-list in the error.
    pub fn verify_tx_version(&self, version: TransactionVersion) -> (r: Result<
        (),
        TransactionExecutionError,
    >)
        ensures
            r is Ok <==> self.spec_version_allowed(version),
            !self.spec_version_allowed(version) ==> (r->Err_0 matches
                TransactionExecutionError::InvalidVersion {
                    version: v,
                    allowed_versions,
                } && v == version && allowed_versions@ == self.spec_allowed_versions()),
    {
        let mut allowed_versions: Vec<TransactionVersion> = Vec::new();
        match self {
            AccountTransaction::Declare(_) => {
                allowed_versions.push(TransactionVersion(0));
                allowed_versions.push(TransactionVersion(1));
                allowed_versions.push(TransactionVersion(2));
            },
            AccountTransaction::Invoke(_) => {
                allowed_versions.push(TransactionVersion(0));
                allowed_versions.push(TransactionVersion(1));
            },
            AccountTransaction::DeployAccount(_) => {
                allowed_versions.push(TransactionVersion(1));
            },
        }
        proof {
            assert(allowed_versions@ =~= self.spec_allowed_versions());
        }
        let ok = match self {
            AccountTransaction::Declare(_) => version.0 == 0 || version.0 == 1 || version.0 == 2,
            AccountTransaction::Invoke(_) => version.0 == 0 || version.0 == 1,
            AccountTransaction::DeployAccount(_) => version.0 == 1,
        };
        if ok {
            Ok(())
        } else {
            Err(TransactionExecutionError::InvalidVersion { version, allowed_versions })
        }
    }

    /// Compares the stated nonce to the sender's current nonce: a mismatch
    /// is a terminal rejection that leaves the nonce unchanged; a match
    /// increments the stored nonce, a side effect no later failure ever
    /// rolls back. Version zero skips the check entirely.
    pub fn handle_nonce(
        account_tx_context: &AccountTransactionContext,
        state: &mut TransactionalState,
    ) -> (r: Result<(), TransactionExecutionError>)
        requires
            old(state).wf(),
            account_tx_context.version.0 != 0 && old(state).nonce_of(
                account_tx_context.sender_address,
            ) == account_tx_context.nonce ==> account_tx_context.nonce.0 < u128::MAX,
        ensures
            final(state).wf(),
            account_tx_context.version.0 == 0 ==> r is Ok && *final(state) == *old(state),
            account_tx_context.version.0 != 0 && old(state).nonce_of(
                account_tx_context.sender_address,
            ) != account_tx_context.nonce ==> *final(state) == *old(state) && (r->Err_0 matches
                TransactionExecutionError::InvalidNonce {
                    address,
                    expected_nonce,
                    actual_nonce,
                } && address == account_tx_context.sender_address && expected_nonce == old(
                state,
            ).nonce_of(account_tx_context.sender_address) && actual_nonce
                == account_tx_context.nonce) && r is Err,
            account_tx_context.version.0 != 0 && old(state).nonce_of(
                account_tx_context.sender_address,
            ) == account_tx_context.nonce ==> r is Ok && final(state).nonce_of(
                account_tx_context.sender_address,
            ).0 == old(state).nonce_of(account_tx_context.sender_address).0 + 1 && (forall|
                a: ContractAddress,
            |
                a != account_tx_context.sender_address ==> #[trigger] final(state).nonce_of(a)
                    == old(state).nonce_of(a)) && final(state).balances_match(old(state))
                && final(state).storage_match(old(state)),
    {
        if account_tx_context.version.0 == 0 {
            return Ok(());
        }
        let address = account_tx_context.sender_address;
        let current_nonce = state.get_nonce_at(address);
        if current_nonce.0 != account_tx_context.nonce.0 {
            return Err(TransactionExecutionError::InvalidNonce {
                address,
                expected_nonce: current_nonce,
                actual_nonce: account_tx_context.nonce,
            });
        }
        state.increment_nonce(address);
        Ok(())
    }
}

/// Rejects a validate trace that called into any other contract: inside
/// validate, a nested call to a different contract address is a protocol
/// violation.
pub fn verify_no_calls_to_other_contracts(
    call_info: &CallInfo,
    entry_point_kind: String,
) -> (r: Result<(), TransactionExecutionError>)
    ensures
        r is Ok <==> call_info.spec_no_calls_to_other_contracts(),
        !call_info.spec_no_calls_to_other_contracts() ==> (r->Err_0 matches
            TransactionExecutionError::UnauthorizedInnerCall { entry_point_kind: k } && k
            == entry_point_kind),
{
    let n = call_info.inner_call_storage_addresses.len();
    let mut i: usize = 0;
    while i < n
        invariant
            n == call_info.inner_call_storage_addresses@.len(),
            0 <= i <= n,
            forall|j: int|
                0 <= j < i ==> #[trigger] call_info.inner_call_storage_addresses@[j]
                    == call_info.storage_address,
        decreases n - i,
    {
        if call_info.inner_call_storage_addresses[i].0 != call_info.storage_address.0 {
            return Err(TransactionExecutionError::UnauthorizedInnerCall { entry_point_kind });
        }
        i += 1;
    }
    Ok(())
}

impl AccountTransaction {
    /// This transaction deploys the sender's own account contract.
    pub open spec fn spec_is_deploy_account(&self) -> bool {
        self matches AccountTransaction::DeployAccount(_)
    }

    /// The execute phase failed after validate succeeded: the revert case.
    pub open spec fn spec_reverted(&self, outcomes: &ExternalOutcomes) -> bool {
        !self.spec_is_deploy_account() && outcomes.execute matches CallOutcome::Failed { .. }
    }

    /// The stated nonce matches the sender's current nonce, or the version
    /// is zero and the check is skipped.
    pub open spec fn spec_nonce_ok(&self, st: &TransactionalState) -> bool {
        self.spec_version().0 == 0 || st.nonce_of(self.spec_sender_address())
            == self.spec_nonce()
    }

    /// The sender's fee-token balance covers the declared max fee, or the
    /// max fee is zero and the check is disabled.
    pub open spec fn spec_balance_ok(
        &self,
        st: &TransactionalState,
        block_context: &BlockContext,
    ) -> bool {
        self.spec_max_fee().0 == 0 || {
            let bal = st.balance_of(
                TokenAccount {
                    fee_token_address: spec_fee_token_for_version(
                        block_context,
                        self.spec_version(),
                    ),
                    account_address: self.spec_sender_address(),
                },
            );
            !(bal.1 == StarkFelt(0) && bal.0.0 < self.spec_max_fee().0)
        }
    }

    /// The validate phase passes: skipped at version zero, otherwise the
    /// call completed without calling into another contract.
    pub open spec fn spec_validate_passes(&self, outcomes: &ExternalOutcomes) -> bool {
        self.spec_version().0 == 0 || (outcomes.validate matches CallOutcome::Completed { .. }
            && spec_completed_info(outcomes.validate).spec_no_calls_to_other_contracts())
    }

    /// The transaction reaches accounting: version allowed, nonce and
    /// balance checks passed, validate passed, and — for deploy-account,
    /// whose execute may not revert — execute completed.
    pub open spec fn spec_accepted(
        &self,
        st: &TransactionalState,
        block_context: &BlockContext,
        outcomes: &ExternalOutcomes,
    ) -> bool {
        &&& self.spec_version_allowed(self.spec_version())
        &&& self.spec_nonce_ok(st)
        &&& self.spec_balance_ok(st, block_context)
        &&& self.spec_validate_passes(outcomes)
        &&& (self.spec_is_deploy_account() ==> outcomes.execute matches CallOutcome::Completed {
            ..
        })
    }

    /// The resources one outcome's trace reports for resource `k`; a failed
    /// call reports none.
    pub open spec fn spec_outcome_amount(o: CallOutcome, k: Seq<char>) -> u64 {
        match o {
            CallOutcome::Completed { call_info, .. } => call_info.resources.spec_amount(k),
            CallOutcome::Failed { .. } => 0,
        }
    }

    /// The validate trace's resources, zero when validate is skipped.
    pub open spec fn spec_validate_amount(&self, outcomes: &ExternalOutcomes, k: Seq<char>) -> u64 {
        if self.spec_version().0 == 0 {
            0
        } else {
            Self::spec_outcome_amount(outcomes.validate, k)
        }
    }

    /// The steps folded back in on revert: the budget minus what was left at
    /// failure time, on the step resource only.
    pub open spec fn spec_revert_steps(
        &self,
        outcomes: &ExternalOutcomes,
        max_steps: u64,
        k: Seq<char>,
    ) -> int {
        if self.spec_reverted(outcomes) && (spec_failed_remaining(outcomes.execute) matches Some(
            rem,
        )) && k == spec_n_steps_key() {
            max_steps - spec_failed_remaining(outcomes.execute)->0
        } else {
            0
        }
    }

    /// The writes the accepted phases perform, in application order: for
    /// deploy-account the execute writes precede the validate writes (its
    /// account must exist before it can validate); everywhere else validate
    /// precedes execute; a skipped validate and a reverted execute
    /// contribute nothing.
    pub open spec fn spec_accepted_writes(&self, outcomes: &ExternalOutcomes) -> Seq<StorageWrite> {
        let vw = if self.spec_version().0 == 0 {
            Seq::<StorageWrite>::empty()
        } else {
            spec_completed_writes(outcomes.validate)
        };
        if self.spec_is_deploy_account() {
            spec_completed_writes(outcomes.execute) + vw
        } else if self.spec_reverted(outcomes) {
            vw
        } else {
            vw + spec_completed_writes(outcomes.execute)
        }
    }

    /// Runs the nonce check and then, if any fee is enforced, checks that
    /// the sender's fee-token balance covers the declared max fee. The nonce
    /// increment, once done, survives a balance rejection.
    pub fn handle_nonce_and_check_fee_balance(
        &self,
        state: &mut TransactionalState,
        account_tx_context: &AccountTransactionContext,
        block_context: &BlockContext,
    ) -> (r: Result<(), TransactionExecutionError>)
        requires
            old(state).wf(),
            account_tx_context.version == self.spec_version(),
            account_tx_context.nonce == self.spec_nonce(),
            account_tx_context.sender_address == self.spec_sender_address(),
            account_tx_context.max_fee == self.spec_max_fee(),
            self.spec_version().0 != 0 && old(state).nonce_of(self.spec_sender_address())
                == self.spec_nonce() ==> self.spec_nonce().0 < u128::MAX,
        ensures
            final(state).wf(),
            final(state).balances_match(old(state)),
            final(state).storage_match(old(state)),
            !self.spec_nonce_ok(old(state)) ==> *final(state) == *old(state) && r is Err && (
            r->Err_0 matches TransactionExecutionError::InvalidNonce {
                address,
                expected_nonce,
                actual_nonce,
            } && address == self.spec_sender_address() && expected_nonce == old(state).nonce_of(
                self.spec_sender_address(),
            ) && actual_nonce == self.spec_nonce()),
            self.spec_nonce_ok(old(state)) ==> {
                &&& final(state).nonce_of(self.spec_sender_address()) == (if self.spec_version().0
                    == 0 {
                    old(state).nonce_of(self.spec_sender_address())
                } else {
                    Nonce((old(state).nonce_of(self.spec_sender_address()).0 + 1) as u128)
                })
                &&& forall|a: ContractAddress|
                    a != self.spec_sender_address() ==> #[trigger] final(state).nonce_of(a) == old(
                        state,
                    ).nonce_of(a)
            },
            self.spec_nonce_ok(old(state)) && !self.spec_balance_ok(old(state), block_context)
                ==> r is Err && (r->Err_0 matches
            TransactionExecutionError::MaxFeeExceedsBalance {
                max_fee,
                balance_low,
                balance_high,
            } && max_fee == self.spec_max_fee() && (balance_low, balance_high) == old(
                state,
            ).balance_of(
                TokenAccount {
                    fee_token_address: spec_fee_token_for_version(
                        block_context,
                        self.spec_version(),
                    ),
                    account_address: self.spec_sender_address(),
                },
            )),
            self.spec_nonce_ok(old(state)) && self.spec_balance_ok(old(state), block_context)
                ==> r is Ok,
    {
        let r = Self::handle_nonce(account_tx_context, state);
        match r {
            Err(e) => {
                return Err(e);
            },
            Ok(()) => {},
        }
        if self.enforce_fee() {
            let fee_token_address = block_context.fee_token_address(account_tx_context);
            let (balance_low, balance_high) = state.get_fee_token_balance(
                fee_token_address,
                account_tx_context.sender_address,
            );
            if balance_high.0 == 0 && balance_low.0 < account_tx_context.max_fee.0 {
                return Err(TransactionExecutionError::MaxFeeExceedsBalance {
                    max_fee: account_tx_context.max_fee,
                    balance_low,
                    balance_high,
                });
            }
        }
        Ok(())
    }

    /// The validate phase: skipped entirely at version zero; otherwise the
    /// account's validate call must complete without calling another
    /// contract, and its storage writes are applied. A failure here is a
    /// terminal rejection that leaves the state untouched.
    pub fn validate_tx(
        &self,
        state: &mut TransactionalState,
        account_tx_context: &AccountTransactionContext,
        validate_outcome: CallOutcome,
    ) -> (r: Result<Option<CallInfo>, TransactionExecutionError>)
        requires
            old(state).wf(),
        ensures
            final(state).wf(),
            final(state).nonces_match(old(state)),
            final(state).balances_match(old(state)),
            account_tx_context.version.0 == 0 ==> r is Ok && r->Ok_0 is None && *final(state)
                == *old(state),
            account_tx_context.version.0 != 0 ==> match validate_outcome {
                CallOutcome::Failed { .. } => r is Err && (r->Err_0 matches
                    TransactionExecutionError::ValidateTransactionError { error } && error
                    == spec_failed_error(validate_outcome)) && *final(state) == *old(state),
                CallOutcome::Completed { .. } => {
                    if spec_completed_info(validate_outcome).spec_no_calls_to_other_contracts() {
                        &&& r is Ok
                        &&& r->Ok_0 == Some(spec_completed_info(validate_outcome))
                        &&& forall|s: StorageSlot|
                            #[trigger] final(state).storage_of(s) == applied_value(
                                spec_completed_writes(validate_outcome),
                                old(state).storage_of(s),
                                s,
                            )
                    } else {
                        &&& r is Err
                        &&& (r->Err_0 matches
                        TransactionExecutionError::UnauthorizedInnerCall { entry_point_kind }
                            && entry_point_kind@ == "__validate__"@)
                        &&& *final(state) == *old(state)
                    }
                },
            },
    {
        if account_tx_context.version.0 == 0 {
            return Ok(None);
        }
        match validate_outcome {
            CallOutcome::Failed { error, remaining_steps: _ } => Err(
                TransactionExecutionError::ValidateTransactionError { error },
            ),
            CallOutcome::Completed { call_info, storage_writes } => {
                match verify_no_calls_to_other_contracts(
                    &call_info,
                    String::from_str("__validate__"),
                ) {
                    Err(e) => Err(e),
                    Ok(()) => {
                        state.apply_writes(&storage_writes);
                        Ok(Some(call_info))
                    },
                }
            },
        }
    }

    /// Runs validation and execution. Deploy-account executes first (its
    /// account contract must exist before it can validate) and a failure
    /// there is a hard error; every other kind validates first and then
    /// executes against the buffering child writer, committing it on
    /// success and discarding it on failure, in which case the transaction
    /// reverts: validate's writes stand, execute's are gone, and the error
    /// trace and remaining step budget are recorded.
    pub fn run_or_revert(
        &self,
        state: &mut TransactionalState,
        account_tx_context: &AccountTransactionContext,
        validate_outcome: CallOutcome,
        execute_outcome: CallOutcome,
    ) -> (r: Result<ValidateExecuteCallInfo, TransactionExecutionError>)
        requires
            old(state).wf(),
            account_tx_context.version == self.spec_version(),
        ensures
            final(state).wf(),
            final(state).nonces_match(old(state)),
            final(state).balances_match(old(state)),
            r is Err ==> *final(state) == *old(state),
            r is Ok ==> {
                &&& r->Ok_0.validate_call_info == (if self.spec_version().0 == 0 {
                    Option::<CallInfo>::None
                } else {
                    Option::Some(spec_completed_info(validate_outcome))
                })
                &&& r->Ok_0.revert_data is Some ==> r->Ok_0.execute_call_info is None
            },
            ({
                let outcomes = ExternalOutcomes {
                    validate: validate_outcome,
                    execute: execute_outcome,
                    calculated_fee: Fee(0),
                    fee_transfer: CallOutcome::Failed {
                        error: spec_failed_error(execute_outcome),
                        remaining_steps: Option::None,
                    },
                };
                &&& (self.spec_is_deploy_account() && !(execute_outcome matches
                    CallOutcome::Completed { .. }) ==> r is Err && (r->Err_0 matches
                    TransactionExecutionError::EntryPointExecutionError { error } && error
                    == spec_failed_error(execute_outcome)))
                &&& (!(self.spec_is_deploy_account() && !(execute_outcome matches
                    CallOutcome::Completed { .. })) && self.spec_version().0 != 0 && (
                validate_outcome matches CallOutcome::Failed { .. }) ==> r is Err && (
                r->Err_0 matches TransactionExecutionError::ValidateTransactionError { error }
                    && error == spec_failed_error(validate_outcome)))
                &&& (!(self.spec_is_deploy_account() && !(execute_outcome matches
                    CallOutcome::Completed { .. })) && self.spec_version().0 != 0 && (
                validate_outcome matches CallOutcome::Completed { .. }) && !spec_completed_info(
                    validate_outcome,
                ).spec_no_calls_to_other_contracts() ==> r is Err && (r->Err_0 matches
                    TransactionExecutionError::UnauthorizedInnerCall { entry_point_kind }
                    && entry_point_kind@ == "__validate__"@))
                &&& (self.spec_validate_passes(&outcomes) && (self.spec_is_deploy_account()
                    ==> execute_outcome matches CallOutcome::Completed { .. }) ==> r is Ok && {
                    &&& forall|s: StorageSlot|
                        #[trigger] final(state).storage_of(s) == applied_value(
                            self.spec_accepted_writes(&outcomes),
                            old(state).storage_of(s),
                            s,
                        )
                    &&& (execute_outcome matches CallOutcome::Completed { .. } ==> {
                        &&& r->Ok_0.execute_call_info == Option::Some(spec_completed_info(
                            execute_outcome,
                        ))
                        &&& r->Ok_0.revert_data is None
                    })
                    &&& (!(execute_outcome matches CallOutcome::Completed { .. }) ==> {
                        &&& r->Ok_0.execute_call_info is None
                        &&& (r->Ok_0.revert_data matches Some(rd) && rd.revert_error
                            == spec_failed_error(execute_outcome) && rd.remaining_steps
                            == spec_failed_remaining(execute_outcome))
                    })
                })
            }),
    {
        let is_deploy = match self {
            AccountTransaction::DeployAccount(_) => true,
            _ => false,
        };
        if is_deploy {
            match execute_outcome {
                CallOutcome::Failed { error, remaining_steps: _ } => {
                    return Err(TransactionExecutionError::EntryPointExecutionError { error });
                },
                CallOutcome::Completed { call_info: execute_info, storage_writes: execute_writes } => {
                    if account_tx_context.version.0 == 0 {
                        state.apply_writes(&execute_writes);
                        proof {
                            assert(execute_writes@ + Seq::<StorageWrite>::empty()
                                =~= execute_writes@);
                        }
                        return Ok(ValidateExecuteCallInfo {
                            validate_call_info: None,
                            execute_call_info: Some(execute_info),
                            revert_data: None,
                        });
                    }
                    match validate_outcome {
                        CallOutcome::Failed { error, remaining_steps: _ } => {
                            return Err(TransactionExecutionError::ValidateTransactionError {
                                error,
                            });
                        },
                        CallOutcome::Completed {
                            call_info: validate_info,
                            storage_writes: validate_writes,
                        } => {
                            match verify_no_calls_to_other_contracts(
                                &validate_info,
                                String::from_str("__validate__"),
                            ) {
                                Err(e) => {
                                    return Err(e);
                                },
                                Ok(()) => {
                                    let ghost pre = *state;
                                    state.apply_writes(&execute_writes);
                                    let ghost mid = *state;
                                    state.apply_writes(&validate_writes);
                                    proof {
                                        assert forall|s: StorageSlot| true implies
                                            state.storage_of(s) == applied_value(
                                            execute_writes@ + validate_writes@,
                                            pre.storage_of(s),
                                            s,
                                        ) by {
                                            lemma_applied_concat(
                                                execute_writes@,
                                                validate_writes@,
                                                pre.storage_of(s),
                                                s,
                                            );
                                        };
                                    }
                                    return Ok(ValidateExecuteCallInfo {
                                        validate_call_info: Some(validate_info),
                                        execute_call_info: Some(execute_info),
                                        revert_data: None,
                                    });
                                },
                            }
                        },
                    }
                },
            }
        }
        let validate_call_info = match self.validate_tx(state, account_tx_context, validate_outcome) {
            Err(e) => {
                return Err(e);
            },
            Ok(info) => info,
        };
        let ghost mid = *state;
        match execute_outcome {
            CallOutcome::Completed { call_info: execute_info, storage_writes: execute_writes } => {
                let mut buffer = StagedWrites::new();
                let n = execute_writes.len();
                let mut i: usize = 0;
                while i < n
                    invariant
                        n == execute_writes@.len(),
                        0 <= i <= n,
                        buffer.spec_writes() == execute_writes@.subrange(0, i as int),
                    decreases n - i,
                {
                    buffer.stage(execute_writes[i]);
                    proof {
                        assert(execute_writes@.subrange(0, i as int).push(execute_writes@[i as int])
                            =~= execute_writes@.subrange(0, i + 1));
                    }
                    i += 1;
                }
                proof {
                    assert(execute_writes@.subrange(0, n as int) =~= execute_writes@);
                }
                buffer.commit(state);
                proof {
                    if account_tx_context.version.0 == 0 {
                        assert forall|s: StorageSlot| true implies state.storage_of(s)
                            == applied_value(
                            Seq::<StorageWrite>::empty() + execute_writes@,
                            old(state).storage_of(s),
                            s,
                        ) by {
                            assert(Seq::<StorageWrite>::empty() + execute_writes@
                                =~= execute_writes@);
                        };
                    } else {
                        assert forall|s: StorageSlot| true implies state.storage_of(s)
                            == applied_value(
                            spec_completed_writes(validate_outcome) + execute_writes@,
                            old(state).storage_of(s),
                            s,
                        ) by {
                            lemma_applied_concat(
                                spec_completed_writes(validate_outcome),
                                execute_writes@,
                                old(state).storage_of(s),
                                s,
                            );
                        };
                    }
                }
                Ok(ValidateExecuteCallInfo {
                    validate_call_info,
                    execute_call_info: Some(execute_info),
                    revert_data: None,
                })
            },
            CallOutcome::Failed { error, remaining_steps } => Ok(ValidateExecuteCallInfo {
                validate_call_info,
                execute_call_info: None,
                revert_data: Some(RevertData { revert_error: error, remaining_steps }),
            }),
        }
    }
}

impl AccountTransaction {
    /// Every completed outcome's trace carries a well-formed resource
    /// mapping.
    pub open spec fn spec_outcomes_wf(outcomes: &ExternalOutcomes) -> bool {
        &&& (outcomes.validate matches CallOutcome::Completed { call_info, .. }
            ==> call_info.resources.wf())
        &&& (outcomes.execute matches CallOutcome::Completed { call_info, .. }
            ==> call_info.resources.wf())
        &&& (outcomes.fee_transfer matches CallOutcome::Completed { call_info, .. }
            ==> call_info.resources.wf())
    }

    /// The accounted resources stay within the machine's range: for every
    /// resource, the validate and execute amounts plus the whole step budget
    /// fit in a word.
    pub open spec fn spec_resources_fit(
        &self,
        outcomes: &ExternalOutcomes,
        block_context: &BlockContext,
    ) -> bool {
        forall|k: Seq<char>|
            #![auto]
            self.spec_validate_amount(outcomes, k) + Self::spec_outcome_amount(
                outcomes.execute,
                k,
            ) + block_context.invoke_tx_max_n_steps <= u64::MAX
    }

    /// The fee charge: a zero max fee means a zero fee and no transfer; a
    /// computed fee above the declared max fee is a cost-model bug reported
    /// as an error; otherwise the transfer of the computed fee runs and its
    /// trace is kept.
    pub fn execute_fee_transfer(
        state: &mut TransactionalState,
        account_tx_context: &AccountTransactionContext,
        actual_fee: Fee,
        fee_transfer_outcome: CallOutcome,
    ) -> (r: Result<CallInfo, TransactionExecutionError>)
        requires
            old(state).wf(),
        ensures
            final(state).wf(),
            final(state).nonces_match(old(state)),
            final(state).balances_match(old(state)),
            r is Err ==> *final(state) == *old(state),
            actual_fee.0 > account_tx_context.max_fee.0 ==> r is Err && (r->Err_0 matches
                TransactionExecutionError::FeeTransferError { max_fee, actual_fee: af } && max_fee
                == account_tx_context.max_fee && af == actual_fee),
            actual_fee.0 <= account_tx_context.max_fee.0 ==> match fee_transfer_outcome {
                CallOutcome::Failed { .. } => r is Err && (r->Err_0 matches
                    TransactionExecutionError::EntryPointExecutionError { error } && error
                    == spec_failed_error(fee_transfer_outcome)),
                CallOutcome::Completed { .. } => {
                    &&& r is Ok
                    &&& r->Ok_0 == spec_completed_info(fee_transfer_outcome)
                    &&& forall|s: StorageSlot|
                        #[trigger] final(state).storage_of(s) == applied_value(
                            spec_completed_writes(fee_transfer_outcome),
                            old(state).storage_of(s),
                            s,
                        )
                },
            },
    {
        let max_fee = account_tx_context.max_fee;
        if actual_fee.0 > max_fee.0 {
            return Err(TransactionExecutionError::FeeTransferError { max_fee, actual_fee });
        }
        match fee_transfer_outcome {
            CallOutcome::Failed { error, remaining_steps: _ } => Err(
                TransactionExecutionError::EntryPointExecutionError { error },
            ),
            CallOutcome::Completed { call_info, storage_writes } => {
                state.apply_writes(&storage_writes);
                Ok(call_info)
            },
        }
    }

    /// Computes what is owed and transfers it. A zero max fee disables the
    /// charge entirely: the fee is zero and no transfer happens, whatever
    /// resources were consumed.
    pub fn charge_fee(
        state: &mut TransactionalState,
        account_tx_context: &AccountTransactionContext,
        calculated_fee: Fee,
        fee_transfer_outcome: CallOutcome,
    ) -> (r: Result<(Fee, Option<CallInfo>), TransactionExecutionError>)
        requires
            old(state).wf(),
        ensures
            final(state).wf(),
            final(state).nonces_match(old(state)),
            final(state).balances_match(old(state)),
            r is Err ==> *final(state) == *old(state),
            account_tx_context.max_fee.0 == 0 ==> r is Ok && r->Ok_0.0 == Fee(0) && r->Ok_0.1
                is None && *final(state) == *old(state),
            account_tx_context.max_fee.0 != 0 && calculated_fee.0 > account_tx_context.max_fee.0
                ==> r is Err && (r->Err_0 matches
            TransactionExecutionError::FeeTransferError { max_fee, actual_fee } && max_fee
                == account_tx_context.max_fee && actual_fee == calculated_fee),
            account_tx_context.max_fee.0 != 0 && calculated_fee.0 <= account_tx_context.max_fee.0
                ==> match fee_transfer_outcome {
                CallOutcome::Failed { .. } => r is Err && (r->Err_0 matches
                    TransactionExecutionError::EntryPointExecutionError { error } && error
                    == spec_failed_error(fee_transfer_outcome)),
                CallOutcome::Completed { .. } => {
                    &&& r is Ok
                    &&& r->Ok_0.0 == calculated_fee
                    &&& r->Ok_0.1 == Option::Some(spec_completed_info(fee_transfer_outcome))
                    &&& forall|s: StorageSlot|
                        #[trigger] final(state).storage_of(s) == applied_value(
                            spec_completed_writes(fee_transfer_outcome),
                            old(state).storage_of(s),
                            s,
                        )
                },
            },
    {
        if account_tx_context.max_fee.0 == 0 {
            return Ok((Fee(0), None));
        }
        match Self::execute_fee_transfer(
            state,
            account_tx_context,
            calculated_fee,
            fee_transfer_outcome,
        ) {
            Err(e) => Err(e),
            Ok(call_info) => Ok((calculated_fee, Some(call_info))),
        }
    }
}

impl AccountTransaction {
    /// Runs the whole pipeline to its terminal outcome. An `Ok` result is a
    /// successful or a reverted transaction; an `Err` is a rejection or a
    /// hard failure. The nonce increment, once performed, survives every
    /// later failure; a rejection applies nothing else; a revert keeps
    /// validate's writes and discards execute's; and a zero max fee means a
    /// zero fee and no fee transfer, whatever resources were consumed.
    pub fn execute_raw(
        &self,
        state: &mut TransactionalState,
        block_context: &BlockContext,
        outcomes: ExternalOutcomes,
    ) -> (r: Result<TransactionExecutionInfo, TransactionExecutionError>)
        requires
            old(state).wf(),
            self.spec_version().0 != 0 && old(state).nonce_of(self.spec_sender_address())
                == self.spec_nonce() ==> self.spec_nonce().0 < u128::MAX,
            Self::spec_outcomes_wf(&outcomes),
            self.spec_resources_fit(&outcomes, block_context),
        ensures
            final(state).wf(),
            final(state).balances_match(old(state)),
            // which version check fails, and that a failed one changes nothing
            !self.spec_version_allowed(self.spec_version()) ==> *final(state) == *old(state) && r
                is Err && (r->Err_0 matches TransactionExecutionError::InvalidVersion {
                version: v,
                allowed_versions,
            } && v == self.spec_version() && allowed_versions@ == self.spec_allowed_versions()),
            // a stated nonce differing from the current nonce is rejected, nonce unchanged
            self.spec_version_allowed(self.spec_version()) && !self.spec_nonce_ok(old(state))
                ==> *final(state) == *old(state) && r is Err && (r->Err_0 matches
                TransactionExecutionError::InvalidNonce {
                    address,
                    expected_nonce,
                    actual_nonce,
                } && address == self.spec_sender_address() && expected_nonce == old(
                state,
            ).nonce_of(self.spec_sender_address()) && actual_nonce == self.spec_nonce()),
            // a matching nonce is incremented, a side effect never rolled back
            self.spec_version_allowed(self.spec_version()) && self.spec_nonce_ok(old(state)) ==> {
                &&& final(state).nonce_of(self.spec_sender_address()) == (if self.spec_version().0
                    == 0 {
                    old(state).nonce_of(self.spec_sender_address())
                } else {
                    Nonce((old(state).nonce_of(self.spec_sender_address()).0 + 1) as u128)
                })
                &&& forall|a: ContractAddress|
                    a != self.spec_sender_address() ==> #[trigger] final(state).nonce_of(a) == old(
                        state,
                    ).nonce_of(a)
            },
            // insufficient balance for the declared max fee
            self.spec_version_allowed(self.spec_version()) && self.spec_nonce_ok(old(state))
                && !self.spec_balance_ok(old(state), block_context) ==> final(state).storage_match(old(state)) && r is Err && (r->Err_0 matches
                TransactionExecutionError::MaxFeeExceedsBalance {
                    max_fee,
                    balance_low,
                    balance_high,
                } && max_fee == self.spec_max_fee() && (balance_low, balance_high) == old(
                state,
            ).balance_of(
                TokenAccount {
                    fee_token_address: spec_fee_token_for_version(
                        block_context,
                        self.spec_version(),
                    ),
                    account_address: self.spec_sender_address(),
                },
            )),
            // a deploy-account execute failure is a hard error, not a revert
            self.spec_version_allowed(self.spec_version()) && self.spec_nonce_ok(old(state))
                && self.spec_balance_ok(old(state), block_context)
                && self.spec_is_deploy_account() && !(outcomes.execute matches
                CallOutcome::Completed { .. }) ==> final(state).storage_match(old(state)) && r
                is Err && (r->Err_0 matches
            TransactionExecutionError::EntryPointExecutionError { error } && error
                == spec_failed_error(outcomes.execute)),
            // a failed validate call rejects the transaction
            self.spec_version_allowed(self.spec_version()) && self.spec_nonce_ok(old(state))
                && self.spec_balance_ok(old(state), block_context) && !(
            self.spec_is_deploy_account() && !(outcomes.execute matches CallOutcome::Completed {
                ..
            })) && self.spec_version().0 != 0 && (outcomes.validate matches CallOutcome::Failed {
                ..
            }) ==> final(state).storage_match(old(state)) && r is Err && (r->Err_0 matches
                TransactionExecutionError::ValidateTransactionError { error } && error
                == spec_failed_error(outcomes.validate)),
            // a validate call that called another contract rejects it too
            self.spec_version_allowed(self.spec_version()) && self.spec_nonce_ok(old(state))
                && self.spec_balance_ok(old(state), block_context) && !(
            self.spec_is_deploy_account() && !(outcomes.execute matches CallOutcome::Completed {
                ..
            })) && self.spec_version().0 != 0 && (outcomes.validate matches
                CallOutcome::Completed { .. }) && !spec_completed_info(
                outcomes.validate,
            ).spec_no_calls_to_other_contracts() ==> final(state).storage_match(old(state)) && r
                is Err && (r->Err_0 matches
            TransactionExecutionError::UnauthorizedInnerCall { entry_point_kind }
                && entry_point_kind@ == "__validate__"@),
            // the accepted cases: success, revert, and the fee-phase errors
            self.spec_version_allowed(self.spec_version()) && self.spec_nonce_ok(old(state))
                && self.spec_accepted(old(state), block_context, &outcomes) ==> ({
                let max_steps = block_context.invoke_tx_max_n_steps as u64;
                let bad_steps = self.spec_reverted(&outcomes) && (spec_failed_remaining(
                    outcomes.execute,
                ) matches Some(rem) && rem > max_steps);
                let writes_applied = forall|slot: StorageSlot|
                    #[trigger] final(state).storage_of(slot) == applied_value(
                        self.spec_accepted_writes(&outcomes),
                        old(state).storage_of(slot),
                        slot,
                    );
                &&& (bad_steps ==> r is Err && (r->Err_0 matches
                    TransactionExecutionError::RemainingStepsExceedBudget {
                        remaining_steps,
                        max_steps: ms,
                    } && Option::Some(remaining_steps) == spec_failed_remaining(outcomes.execute)
                    && ms == max_steps) && writes_applied)
                &&& (!bad_steps && self.spec_max_fee().0 != 0 && outcomes.calculated_fee.0
                    > self.spec_max_fee().0 ==> r is Err && (r->Err_0 matches
                    TransactionExecutionError::FeeTransferError { max_fee, actual_fee } && max_fee
                    == self.spec_max_fee() && actual_fee == outcomes.calculated_fee)
                    && writes_applied)
                &&& (!bad_steps && self.spec_max_fee().0 != 0 && outcomes.calculated_fee.0
                    <= self.spec_max_fee().0 && !(outcomes.fee_transfer matches
                    CallOutcome::Completed { .. }) ==> r is Err && (r->Err_0 matches
                    TransactionExecutionError::EntryPointExecutionError { error } && error
                    == spec_failed_error(outcomes.fee_transfer)) && writes_applied)
                &&& (!bad_steps && (self.spec_max_fee().0 == 0 || (outcomes.calculated_fee.0
                    <= self.spec_max_fee().0 && outcomes.fee_transfer matches
                    CallOutcome::Completed { .. })) ==> r is Ok && ({
                    let info = r->Ok_0;
                    &&& info.validate_call_info == (if self.spec_version().0 == 0 {
                        Option::<CallInfo>::None
                    } else {
                        Option::Some(spec_completed_info(outcomes.validate))
                    })
                    &&& info.execute_call_info == (if self.spec_reverted(&outcomes) {
                        Option::<CallInfo>::None
                    } else {
                        Option::Some(spec_completed_info(outcomes.execute))
                    })
                    &&& info.revert_error == (if self.spec_reverted(&outcomes) {
                        Option::Some(spec_failed_error(outcomes.execute))
                    } else {
                        Option::<String>::None
                    })
                    &&& (self.spec_max_fee().0 == 0 ==> info.actual_fee == Fee(0)
                        && info.fee_transfer_call_info is None && writes_applied)
                    &&& (self.spec_max_fee().0 != 0 ==> info.actual_fee == outcomes.calculated_fee
                        && info.fee_transfer_call_info == Option::Some(spec_completed_info(
                        outcomes.fee_transfer,
                    )) && (forall|slot: StorageSlot|
                        #[trigger] final(state).storage_of(slot) == applied_value(
                            self.spec_accepted_writes(&outcomes) + spec_completed_writes(
                                outcomes.fee_transfer,
                            ),
                            old(state).storage_of(slot),
                            slot,
                        )))
                    &&& info.actual_resources.wf()
                    &&& forall|k: Seq<char>|
                        #![auto]
                        info.actual_resources.spec_amount(k) == self.spec_validate_amount(
                            &outcomes,
                            k,
                        ) + Self::spec_outcome_amount(outcomes.execute, k) + self.spec_revert_steps(
                            &outcomes,
                            max_steps,
                            k,
                        )
                }))
            }),
    {
        let account_tx_context = self.get_account_transaction_context();
        match self.verify_tx_version(account_tx_context.version) {
            Err(e) => {
                return Err(e);
            },
            Ok(()) => {},
        }
        let max_steps: u64 = block_context.invoke_tx_max_n_steps as u64;
        match self.handle_nonce_and_check_fee_balance(state, &account_tx_context, block_context) {
            Err(e) => {
                return Err(e);
            },
            Ok(()) => {},
        }
        let ghost state_checked = *state;
        let ExternalOutcomes { validate, execute, calculated_fee, fee_transfer } = outcomes;
        let veci = match self.run_or_revert(state, &account_tx_context, validate, execute) {
            Err(e) => {
                return Err(e);
            },
            Ok(v) => v,
        };
        let ghost state_run = *state;
        let ValidateExecuteCallInfo { validate_call_info, execute_call_info, revert_data } = veci;
        let mut actual_resources = ResourcesMapping::new();
        proof {
            if self.spec_version().0 != 0 {
                assert(outcomes.validate matches CallOutcome::Completed { .. });
            }
        }
        match &validate_call_info {
            Some(info) => {
                proof {
                    assert(self.spec_version().0 != 0);
                    assert(*info == spec_completed_info(outcomes.validate));
                    assert(info.resources.wf());
                    assert forall|k: Seq<char>|
                        #![auto]
                        actual_resources.spec_amount(k) + info.resources.spec_amount(k)
                            <= u64::MAX by {
                        assert(self.spec_validate_amount(&outcomes, k) + Self::spec_outcome_amount(
                            outcomes.execute,
                            k,
                        ) + block_context.invoke_tx_max_n_steps <= u64::MAX);
                    };
                }
                actual_resources.merge(&info.resources);
            },
            None => {},
        }
        proof {
            assert forall|k: Seq<char>|
                #![auto]
                actual_resources.spec_amount(k) == self.spec_validate_amount(&outcomes, k) by {
                if validate_call_info is Some {
                    assert(actual_resources.spec_amount(k) == 0 + spec_completed_info(
                        outcomes.validate,
                    ).resources.spec_amount(k));
                } else {
                    assert(self.spec_version().0 == 0);
                }
            };
        }
        match &execute_call_info {
            Some(info) => {
                proof {
                    assert(*info == spec_completed_info(outcomes.execute));
                    assert(outcomes.execute matches CallOutcome::Completed { .. });
                    assert(info.resources.wf());
                    assert forall|k: Seq<char>|
                        #![auto]
                        actual_resources.spec_amount(k) + info.resources.spec_amount(k)
                            <= u64::MAX by {
                        assert(self.spec_validate_amount(&outcomes, k) + Self::spec_outcome_amount(
                            outcomes.execute,
                            k,
                        ) + block_context.invoke_tx_max_n_steps <= u64::MAX);
                    };
                }
                actual_resources.merge(&info.resources);
            },
            None => {},
        }
        proof {
            assert forall|k: Seq<char>|
                #![auto]
                actual_resources.spec_amount(k) == self.spec_validate_amount(&outcomes, k)
                    + Self::spec_outcome_amount(outcomes.execute, k) by {
                if execute_call_info is Some {
                    assert(outcomes.execute matches CallOutcome::Completed { .. });
                } else {
                    assert(Self::spec_outcome_amount(outcomes.execute, k) == 0);
                }
            };
        }
        let revert_error: Option<String> = match revert_data {
            Some(rd) => {
                match rd.remaining_steps {
                    Some(rem) => {
                        if rem > max_steps {
                            return Err(
                                TransactionExecutionError::RemainingStepsExceedBudget {
                                    remaining_steps: rem,
                                    max_steps,
                                },
                            );
                        }
                        actual_resources.add_amount(n_steps_resource(), max_steps - rem);
                    },
                    None => {},
                }
                Some(rd.revert_error)
            },
            None => None,
        };
        let (actual_fee, fee_transfer_call_info) = match Self::charge_fee(
            state,
            &account_tx_context,
            calculated_fee,
            fee_transfer,
        ) {
            Err(e) => {
                return Err(e);
            },
            Ok(t) => t,
        };
        proof {
            if self.spec_accepted(old(state), block_context, &outcomes) && self.spec_max_fee().0
                != 0 {
                assert forall|slot: StorageSlot| true implies state.storage_of(slot)
                    == applied_value(
                    self.spec_accepted_writes(&outcomes) + spec_completed_writes(
                        outcomes.fee_transfer,
                    ),
                    old(state).storage_of(slot),
                    slot,
                ) by {
                    lemma_applied_concat(
                        self.spec_accepted_writes(&outcomes),
                        spec_completed_writes(outcomes.fee_transfer),
                        old(state).storage_of(slot),
                        slot,
                    );
                };
            }
        }
        Ok(
            TransactionExecutionInfo {
                validate_call_info,
                execute_call_info,
                fee_transfer_call_info,
                actual_fee,
                actual_resources,
                revert_error,
            },
        )
    }
}

/// A transaction that reverts after burning part of the step budget is
/// billed for the steps actually burned: strictly more than zero and
/// strictly less than the whole budget whenever execution did some work and
/// left some budget.
pub proof fn lemma_revert_billing_strict(max_steps: u64, remaining_steps: u64)
    requires
        0 < remaining_steps < max_steps,
    ensures
        0 < max_steps - remaining_steps < max_steps,
{
}

} // verus!

