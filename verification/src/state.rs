//! The state capability the pipeline runs against: the sender nonces and
//! fee-token balances it checks, the contract storage the executed calls
//! write, and the buffering child writer that isolates the execute phase so
//! a failure can be discarded without touching earlier writes.

use vstd::prelude::*;

use crate::objects::StorageWrite;
use crate::types::{ContractAddress, Nonce, StarkFelt, StorageKey};

verus! {

/// The value bound to key `k`, or `d` if `k` is not bound.
pub open spec fn lookup_in<K, V>(s: Seq<(K, V)>, k: K, d: V) -> V
    decreases s.len(),
{
    if s.len() == 0 {
        d
    } else if s.last().0 == k {
        s.last().1
    } else {
        lookup_in(s.drop_last(), k, d)
    }
}

/// Every key is bound at most once.
pub open spec fn assoc_keys_unique<K, V>(s: Seq<(K, V)>) -> bool {
    forall|i: int, j: int| 0 <= i < j < s.len() ==> #[trigger] s[i].0 != #[trigger] s[j].0
}

proof fn lemma_lookup_absent<K, V>(s: Seq<(K, V)>, k: K, d: V)
    requires
        forall|i: int| 0 <= i < s.len() ==> #[trigger] s[i].0 != k,
    ensures
        lookup_in(s, k, d) == d,
    decreases s.len(),
{
    if s.len() > 0 {
        assert(s[s.len() - 1].0 != k);
        assert(forall|i: int| 0 <= i < s.drop_last().len() ==> #[trigger] s.drop_last()[i].0 != k);
        lemma_lookup_absent(s.drop_last(), k, d);
    }
}

proof fn lemma_lookup_found<K, V>(s: Seq<(K, V)>, i: int, d: V)
    requires
        assoc_keys_unique(s),
        0 <= i < s.len(),
    ensures
        lookup_in(s, s[i].0, d) == s[i].1,
    decreases s.len(),
{
    if i == s.len() - 1 {
        assert(s.last() == s[i]);
    } else {
        assert(s[i].0 != s[s.len() - 1].0);
        assert(assoc_keys_unique(s.drop_last()));
        assert(s.drop_last()[i] == s[i]);
        lemma_lookup_found(s.drop_last(), i, d);
    }
}

proof fn lemma_lookup_update<K, V>(s: Seq<(K, V)>, i: int, e: (K, V), k: K, d: V)
    requires
        assoc_keys_unique(s),
        0 <= i < s.len(),
        s[i].0 == e.0,
    ensures
        lookup_in(s.update(i, e), k, d) == if k == e.0 {
            e.1
        } else {
            lookup_in(s, k, d)
        },
    decreases s.len(),
{
    if i == s.len() - 1 {
        assert(s.update(i, e).drop_last() =~= s.drop_last());
        assert(s.update(i, e).last() == e);
        if k != e.0 && s.last().0 == k {
            assert(false);
        }
    } else {
        assert(assoc_keys_unique(s.drop_last()));
        assert(s.drop_last()[i] == s[i]);
        lemma_lookup_update(s.drop_last(), i, e, k, d);
        assert(s.update(i, e).drop_last() =~= s.drop_last().update(i, e));
        assert(s.update(i, e).last() == s.last());
        assert(s[i].0 != s[s.len() - 1].0);
    }
}

proof fn lemma_lookup_push<K, V>(s: Seq<(K, V)>, e: (K, V), k: K, d: V)
    ensures
        lookup_in(s.push(e), k, d) == if k == e.0 {
            e.1
        } else {
            lookup_in(s, k, d)
        },
{
    assert(s.push(e).drop_last() =~= s);
    assert(s.push(e).last() == e);
}

/// One account's balance entry in one fee token.
#[derive(PartialEq, Eq, Structural, Clone, Copy, Debug)]
pub struct TokenAccount {
    pub fee_token_address: ContractAddress,
    pub account_address: ContractAddress,
}

/// One contract-storage slot.
#[derive(PartialEq, Eq, Structural, Clone, Copy, Debug)]
pub struct StorageSlot {
    pub contract_address: ContractAddress,
    pub storage_key: StorageKey,
}

/// The value of `slot` after applying the buffered `writes` in order on top
/// of the base value `base`.
pub open spec fn applied_value(writes: Seq<StorageWrite>, base: StarkFelt, slot: StorageSlot) -> StarkFelt
    decreases writes.len(),
{
    if writes.len() == 0 {
        base
    } else if writes.last().contract_address == slot.contract_address
        && writes.last().storage_key == slot.storage_key {
        writes.last().value
    } else {
        applied_value(writes.drop_last(), base, slot)
    }
}

/// Writes applied one run after another act like their concatenation
/// applied once.
pub proof fn lemma_applied_concat(
    a: Seq<StorageWrite>,
    b: Seq<StorageWrite>,
    base: StarkFelt,
    slot: StorageSlot,
)
    ensures
        applied_value(a + b, base, slot) == applied_value(b, applied_value(a, base, slot), slot),
    decreases b.len(),
{
    if b.len() == 0 {
        assert(a + b =~= a);
    } else {
        assert((a + b).drop_last() =~= a + b.drop_last());
        assert((a + b).last() == b.last());
        lemma_applied_concat(a, b.drop_last(), base, slot);
    }
}

/// The chain state a transaction reads and writes: sender nonces, fee-token
/// balances (as 128-bit low/high word pairs), and contract storage. An
/// account or slot never written holds zero.
pub struct TransactionalState {
    nonces: Vec<(ContractAddress, Nonce)>,
    balances: Vec<(TokenAccount, (StarkFelt, StarkFelt))>,
    storage: Vec<(StorageSlot, StarkFelt)>,
}

impl TransactionalState {
    /// The nonce of `address`; zero if never set.
    pub closed spec fn nonce_of(&self, address: ContractAddress) -> Nonce {
        lookup_in(self.nonces@, address, Nonce(0))
    }

    /// The (low, high) fee-token balance words of an account; zero if never
    /// set.
    pub closed spec fn balance_of(&self, account: TokenAccount) -> (StarkFelt, StarkFelt) {
        lookup_in(self.balances@, account, (StarkFelt(0), StarkFelt(0)))
    }

    /// The value of one contract-storage slot; zero if never written.
    pub closed spec fn storage_of(&self, slot: StorageSlot) -> StarkFelt {
        lookup_in(self.storage@, slot, StarkFelt(0))
    }

    /// Each key is bound at most once.
    pub closed spec fn wf(&self) -> bool {
        &&& assoc_keys_unique(self.nonces@)
        &&& assoc_keys_unique(self.balances@)
        &&& assoc_keys_unique(self.storage@)
    }

    /// Nonces agree with `other` everywhere.
    pub open spec fn nonces_match(&self, other: &TransactionalState) -> bool {
        forall|a: ContractAddress| #[trigger] self.nonce_of(a) == other.nonce_of(a)
    }

    /// Balances agree with `other` everywhere.
    pub open spec fn balances_match(&self, other: &TransactionalState) -> bool {
        forall|t: TokenAccount| #[trigger] self.balance_of(t) == other.balance_of(t)
    }

    /// Storage agrees with `other` everywhere.
    pub open spec fn storage_match(&self, other: &TransactionalState) -> bool {
        forall|s: StorageSlot| #[trigger] self.storage_of(s) == other.storage_of(s)
    }

    /// The whole observable state agrees with `other`.
    pub open spec fn state_match(&self, other: &TransactionalState) -> bool {
        &&& self.nonces_match(other)
        &&& self.balances_match(other)
        &&& self.storage_match(other)
    }

    /// The empty state: every nonce, balance and slot is zero.
    pub fn new() -> (r: Self)
        ensures
            r.wf(),
            forall|a: ContractAddress| #[trigger] r.nonce_of(a) == Nonce(0),
            forall|t: TokenAccount| #[trigger] r.balance_of(t) == (StarkFelt(0), StarkFelt(0)),
            forall|s: StorageSlot| #[trigger] r.storage_of(s) == StarkFelt(0),
    {
        TransactionalState { nonces: Vec::new(), balances: Vec::new(), storage: Vec::new() }
    }

    /// The current nonce of `address`.
    pub fn get_nonce_at(&self, address: ContractAddress) -> (r: Nonce)
        requires
            self.wf(),
        ensures
            r == self.nonce_of(address),
    {
        let n = self.nonces.len();
        let mut i: usize = 0;
        while i < n
            invariant
                self.wf(),
                n == self.nonces@.len(),
                0 <= i <= n,
                forall|j: int| 0 <= j < i ==> #[trigger] self.nonces@[j].0 != address,
            decreases n - i,
        {
            if self.nonces[i].0 == address {
                proof {
                    lemma_lookup_found(self.nonces@, i as int, Nonce(0));
                }
                return self.nonces[i].1;
            }
            i += 1;
        }
        proof {
            lemma_lookup_absent(self.nonces@, address, Nonce(0));
        }
        Nonce(0)
    }

    /// Sets the nonce of `address`, leaving every other account and the
    /// balances and storage untouched.
    pub fn set_nonce_at(&mut self, address: ContractAddress, nonce: Nonce)
        requires
            old(self).wf(),
        ensures
            final(self).wf(),
            final(self).nonce_of(address) == nonce,
            forall|a: ContractAddress|
                a != address ==> #[trigger] final(self).nonce_of(a) == old(self).nonce_of(a),
            final(self).balances_match(old(self)),
            final(self).storage_match(old(self)),
    {
        let n = self.nonces.len();
        let mut i: usize = 0;
        while i < n
            invariant
                *self == *old(self),
                self.wf(),
                n == self.nonces@.len(),
                0 <= i <= n,
                forall|j: int| 0 <= j < i ==> #[trigger] self.nonces@[j].0 != address,
            decreases n - i,
        {
            if self.nonces[i].0 == address {
                let entry = (address, nonce);
                proof {
                    assert forall|a: ContractAddress| true implies lookup_in(
                        self.nonces@.update(i as int, entry),
                        a,
                        Nonce(0),
                    ) == if a == address {
                        nonce
                    } else {
                        lookup_in(self.nonces@, a, Nonce(0))
                    } by {
                        lemma_lookup_update(self.nonces@, i as int, entry, a, Nonce(0));
                    };
                    let s_new = self.nonces@.update(i as int, entry);
                    assert forall|a: int, b: int| 0 <= a < b < s_new.len() implies #[trigger] s_new[a].0
                        != #[trigger] s_new[b].0 by {
                        assert(s_new[a].0 == self.nonces@[a].0 || a == i);
                        assert(s_new[b].0 == self.nonces@[b].0 || b == i);
                    };
                }
                self.nonces[i] = entry;
                return ;
            }
            i += 1;
        }
        let entry = (address, nonce);
        proof {
            assert forall|a: ContractAddress| true implies lookup_in(
                self.nonces@.push(entry),
                a,
                Nonce(0),
            ) == if a == address {
                nonce
            } else {
                lookup_in(self.nonces@, a, Nonce(0))
            } by {
                lemma_lookup_push(self.nonces@, entry, a, Nonce(0));
            };
            let s_new = self.nonces@.push(entry);
            assert forall|a: int, b: int| 0 <= a < b < s_new.len() implies #[trigger] s_new[a].0
                != #[trigger] s_new[b].0 by {
                assert(s_new[a] == self.nonces@[a]);
                if b < self.nonces@.len() {
                    assert(s_new[b] == self.nonces@[b]);
                } else {
                    assert(s_new[b] == entry);
                }
            };
        }
        self.nonces.push(entry);
    }

    /// Increments the nonce of `address` by one. This side effect, once
    /// performed, is never rolled back by any later failure.
    pub fn increment_nonce(&mut self, address: ContractAddress)
        requires
            old(self).wf(),
            old(self).nonce_of(address).0 < u128::MAX,
        ensures
            final(self).wf(),
            final(self).nonce_of(address).0 == old(self).nonce_of(address).0 + 1,
            forall|a: ContractAddress|
                a != address ==> #[trigger] final(self).nonce_of(a) == old(self).nonce_of(a),
            final(self).balances_match(old(self)),
            final(self).storage_match(old(self)),
    {
        let current = self.get_nonce_at(address);
        self.set_nonce_at(address, Nonce(current.0 + 1));
    }

    /// The (low, high) words of the balance `account_address` holds in the
    /// fee token at `fee_token_address`.
    pub fn get_fee_token_balance(
        &self,
        fee_token_address: ContractAddress,
        account_address: ContractAddress,
    ) -> (r: (StarkFelt, StarkFelt))
        requires
            self.wf(),
        ensures
            r == self.balance_of(TokenAccount { fee_token_address, account_address }),
    {
        let key = TokenAccount { fee_token_address, account_address };
        let n = self.balances.len();
        let mut i: usize = 0;
        while i < n
            invariant
                self.wf(),
                key == (TokenAccount { fee_token_address, account_address }),
                n == self.balances@.len(),
                0 <= i <= n,
                forall|j: int| 0 <= j < i ==> #[trigger] self.balances@[j].0 != key,
            decreases n - i,
        {
            if self.balances[i].0 == key {
                proof {
                    lemma_lookup_found(self.balances@, i as int, (StarkFelt(0), StarkFelt(0)));
                }
                return self.balances[i].1;
            }
            i += 1;
        }
        proof {
            lemma_lookup_absent(self.balances@, key, (StarkFelt(0), StarkFelt(0)));
        }
        (StarkFelt(0), StarkFelt(0))
    }

    /// Sets one account's balance words in one fee token, leaving every other
    /// entry and the nonces and storage untouched.
    pub fn set_fee_token_balance(
        &mut self,
        fee_token_address: ContractAddress,
        account_address: ContractAddress,
        balance_low: StarkFelt,
        balance_high: StarkFelt,
    )
        requires
            old(self).wf(),
        ensures
            final(self).wf(),
            final(self).balance_of(TokenAccount { fee_token_address, account_address }) == (
            balance_low, balance_high),
            forall|t: TokenAccount|
                t != (TokenAccount { fee_token_address, account_address })
                    ==> #[trigger] final(self).balance_of(t) == old(self).balance_of(t),
            final(self).nonces_match(old(self)),
            final(self).storage_match(old(self)),
    {
        let key = TokenAccount { fee_token_address, account_address };
        let value = (balance_low, balance_high);
        let n = self.balances.len();
        let mut i: usize = 0;
        while i < n
            invariant
                *self == *old(self),
                self.wf(),
                key == (TokenAccount { fee_token_address, account_address }),
                value == (balance_low, balance_high),
                n == self.balances@.len(),
                0 <= i <= n,
                forall|j: int| 0 <= j < i ==> #[trigger] self.balances@[j].0 != key,
            decreases n - i,
        {
            if self.balances[i].0 == key {
                let entry = (key, value);
                proof {
                    assert forall|t: TokenAccount| true implies lookup_in(
                        self.balances@.update(i as int, entry),
                        t,
                        (StarkFelt(0), StarkFelt(0)),
                    ) == if t == key {
                        value
                    } else {
                        lookup_in(self.balances@, t, (StarkFelt(0), StarkFelt(0)))
                    } by {
                        lemma_lookup_update(
                            self.balances@,
                            i as int,
                            entry,
                            t,
                            (StarkFelt(0), StarkFelt(0)),
                        );
                    };
                    let s_new = self.balances@.update(i as int, entry);
                    assert forall|a: int, b: int| 0 <= a < b < s_new.len() implies #[trigger] s_new[a].0
                        != #[trigger] s_new[b].0 by {
                        assert(s_new[a].0 == self.balances@[a].0 || a == i);
                        assert(s_new[b].0 == self.balances@[b].0 || b == i);
                    };
                }
                self.balances[i] = entry;
                return ;
            }
            i += 1;
        }
        let entry = (key, value);
        proof {
            assert forall|t: TokenAccount| true implies lookup_in(
                self.balances@.push(entry),
                t,
                (StarkFelt(0), StarkFelt(0)),
            ) == if t == key {
                value
            } else {
                lookup_in(self.balances@, t, (StarkFelt(0), StarkFelt(0)))
            } by {
                lemma_lookup_push(self.balances@, entry, t, (StarkFelt(0), StarkFelt(0)));
            };
            let s_new = self.balances@.push(entry);
            assert forall|a: int, b: int| 0 <= a < b < s_new.len() implies #[trigger] s_new[a].0
                != #[trigger] s_new[b].0 by {
                assert(s_new[a] == self.balances@[a]);
                if b < self.balances@.len() {
                    assert(s_new[b] == self.balances@[b]);
                } else {
                    assert(s_new[b] == entry);
                }
            };
        }
        self.balances.push(entry);
    }

    /// The value of one contract-storage slot.
    pub fn get_storage_at(&self, contract_address: ContractAddress, storage_key: StorageKey) -> (r:
        StarkFelt)
        requires
            self.wf(),
        ensures
            r == self.storage_of(StorageSlot { contract_address, storage_key }),
    {
        let key = StorageSlot { contract_address, storage_key };
        let n = self.storage.len();
        let mut i: usize = 0;
        while i < n
            invariant
                self.wf(),
                key == (StorageSlot { contract_address, storage_key }),
                n == self.storage@.len(),
                0 <= i <= n,
                forall|j: int| 0 <= j < i ==> #[trigger] self.storage@[j].0 != key,
            decreases n - i,
        {
            if self.storage[i].0 == key {
                proof {
                    lemma_lookup_found(self.storage@, i as int, StarkFelt(0));
                }
                return self.storage[i].1;
            }
            i += 1;
        }
        proof {
            lemma_lookup_absent(self.storage@, key, StarkFelt(0));
        }
        StarkFelt(0)
    }

    /// Writes one contract-storage slot, leaving every other slot and the
    /// nonces and balances untouched.
    pub fn set_storage_at(
        &mut self,
        contract_address: ContractAddress,
        storage_key: StorageKey,
        value: StarkFelt,
    )
        requires
            old(self).wf(),
        ensures
            final(self).wf(),
            final(self).storage_of(StorageSlot { contract_address, storage_key }) == value,
            forall|s: StorageSlot|
                s != (StorageSlot { contract_address, storage_key })
                    ==> #[trigger] final(self).storage_of(s) == old(self).storage_of(s),
            final(self).nonces_match(old(self)),
            final(self).balances_match(old(self)),
    {
        let key = StorageSlot { contract_address, storage_key };
        let n = self.storage.len();
        let mut i: usize = 0;
        while i < n
            invariant
                *self == *old(self),
                self.wf(),
                key == (StorageSlot { contract_address, storage_key }),
                n == self.storage@.len(),
                0 <= i <= n,
                forall|j: int| 0 <= j < i ==> #[trigger] self.storage@[j].0 != key,
            decreases n - i,
        {
            if self.storage[i].0 == key {
                let entry = (key, value);
                proof {
                    assert forall|s: StorageSlot| true implies lookup_in(
                        self.storage@.update(i as int, entry),
                        s,
                        StarkFelt(0),
                    ) == if s == key {
                        value
                    } else {
                        lookup_in(self.storage@, s, StarkFelt(0))
                    } by {
                        lemma_lookup_update(self.storage@, i as int, entry, s, StarkFelt(0));
                    };
                    let s_new = self.storage@.update(i as int, entry);
                    assert forall|a: int, b: int| 0 <= a < b < s_new.len() implies #[trigger] s_new[a].0
                        != #[trigger] s_new[b].0 by {
                        assert(s_new[a].0 == self.storage@[a].0 || a == i);
                        assert(s_new[b].0 == self.storage@[b].0 || b == i);
                    };
                }
                self.storage[i] = entry;
                return ;
            }
            i += 1;
        }
        let entry = (key, value);
        proof {
            assert forall|s: StorageSlot| true implies lookup_in(
                self.storage@.push(entry),
                s,
                StarkFelt(0),
            ) == if s == key {
                value
            } else {
                lookup_in(self.storage@, s, StarkFelt(0))
            } by {
                lemma_lookup_push(self.storage@, entry, s, StarkFelt(0));
            };
            let s_new = self.storage@.push(entry);
            assert forall|a: int, b: int| 0 <= a < b < s_new.len() implies #[trigger] s_new[a].0
                != #[trigger] s_new[b].0 by {
                assert(s_new[a] == self.storage@[a]);
                if b < self.storage@.len() {
                    assert(s_new[b] == self.storage@[b]);
                } else {
                    assert(s_new[b] == entry);
                }
            };
        }
        self.storage.push(entry);
    }

    /// Applies the storage writes in order: afterwards each slot holds the
    /// last write targeting it, or its old value if none does. Nonces and
    /// balances are untouched.
    pub fn apply_writes(&mut self, writes: &Vec<StorageWrite>)
        requires
            old(self).wf(),
        ensures
            final(self).wf(),
            forall|s: StorageSlot|
                #[trigger] final(self).storage_of(s) == applied_value(
                    writes@,
                    old(self).storage_of(s),
                    s,
                ),
            final(self).nonces_match(old(self)),
            final(self).balances_match(old(self)),
    {
        let n = writes.len();
        let mut i: usize = 0;
        while i < n
            invariant
                n == writes@.len(),
                0 <= i <= n,
                self.wf(),
                forall|s: StorageSlot|
                    #[trigger] self.storage_of(s) == applied_value(
                        writes@.subrange(0, i as int),
                        old(self).storage_of(s),
                        s,
                    ),
                self.nonces_match(old(self)),
                self.balances_match(old(self)),
            decreases n - i,
        {
            let w = writes[i];
            self.set_storage_at(w.contract_address, w.storage_key, w.value);
            proof {
                let pre = writes@.subrange(0, i as int);
                let cur = writes@.subrange(0, i as int + 1);
                assert(cur.drop_last() =~= pre);
                assert(cur.last() == writes@[i as int]);
                assert forall|s: StorageSlot| true implies self.storage_of(s) == applied_value(
                    cur,
                    old(self).storage_of(s),
                    s,
                ) by {
                    if w.contract_address == s.contract_address && w.storage_key == s.storage_key {
                        assert(s == (StorageSlot {
                            contract_address: w.contract_address,
                            storage_key: w.storage_key,
                        }));
                    }
                };
            }
            i += 1;
        }
        proof {
            assert(writes@.subrange(0, n as int) =~= writes@);
        }
    }
}

/// The buffering child writer of the execute phase: it collects the storage
/// writes the phase performs and, on exit, is either committed (folded into
/// its parent state) or dropped, leaving the parent untouched. Committing or
/// dropping it is the only transactional boundary; no partial commit exists.
pub struct StagedWrites {
    writes: Vec<StorageWrite>,
}

impl StagedWrites {
    /// The buffered writes, oldest first.
    pub closed spec fn spec_writes(&self) -> Seq<StorageWrite> {
        self.writes@
    }

    /// An empty buffer.
    pub fn new() -> (r: Self)
        ensures
            r.spec_writes() == Seq::<StorageWrite>::empty(),
    {
        StagedWrites { writes: Vec::new() }
    }

    /// Buffers one write; the parent state is untouched until commit.
    pub fn stage(&mut self, w: StorageWrite)
        ensures
            final(self).spec_writes() == old(self).spec_writes().push(w),
    {
        self.writes.push(w);
    }

    /// Folds the buffered writes into the parent state, in order.
    pub fn commit(self, state: &mut TransactionalState)
        requires
            old(state).wf(),
        ensures
            final(state).wf(),
            forall|s: StorageSlot|
                #[trigger] final(state).storage_of(s) == applied_value(
                    self.spec_writes(),
                    old(state).storage_of(s),
                    s,
                ),
            final(state).nonces_match(old(state)),
            final(state).balances_match(old(state)),
    {
        state.apply_writes(&self.writes);
    }

    /// Discards the buffer: the parent state is left exactly as it was.
    pub fn abort(self) {
    }
}

} // verus!
