//! The versioned state: four independently-typed versioned cell stores (one
//! per state category) behind a uniform read/write surface. A request carries
//! its cell id and payload in one statically-typed variant, so a payload of
//! the wrong type for its category cannot be expressed at all.

use vstd::prelude::*;

use crate::types::{ClassHash, CompiledClassHash, ContractAddress, Nonce, StarkFelt, StorageKey};
use crate::versioned_storage::{reads_latest, CellId, StateError, VersionedStorage};
use crate::Version;

verus! {

/// The cell identifying one contract-storage slot.
pub open spec fn spec_storage_cell(address: ContractAddress, key: StorageKey) -> CellId {
    CellId { major: address.0, minor: key.0 }
}

/// The cell holding a contract's class hash.
pub open spec fn spec_class_hash_cell(address: ContractAddress) -> CellId {
    CellId { major: address.0, minor: 0 }
}

/// The cell holding a contract's nonce.
pub open spec fn spec_nonce_cell(address: ContractAddress) -> CellId {
    CellId { major: address.0, minor: 0 }
}

/// The cell holding a class's compiled class hash.
pub open spec fn spec_compiled_class_hash_cell(class_hash: ClassHash) -> CellId {
    CellId { major: class_hash.0, minor: 0 }
}

/// Identifies one cell of the versioned state, tagged by its state category.
#[derive(PartialEq, Eq, Structural, Clone, Copy, Debug)]
pub enum StateCellId {
    ContractStorage { contract_address: ContractAddress, storage_key: StorageKey },
    ClassHash { contract_address: ContractAddress },
    Nonce { contract_address: ContractAddress },
    CompiledClassHash { class_hash: ClassHash },
}

/// A value read from the versioned state; its variant always matches the
/// category of the cell id it was read for.
#[derive(PartialEq, Eq, Structural, Clone, Copy, Debug)]
pub enum StateValue {
    ContractStorage(StarkFelt),
    ClassHash(ClassHash),
    Nonce(Nonce),
    CompiledClassHash(CompiledClassHash),
}

/// One write request: the cell and the value of its category, in one variant,
/// so a mismatched pair is rejected at compile time.
#[derive(PartialEq, Eq, Structural, Clone, Copy, Debug)]
pub enum StateWrite {
    ContractStorage { contract_address: ContractAddress, storage_key: StorageKey, value: StarkFelt },
    ClassHash { contract_address: ContractAddress, class_hash: ClassHash },
    Nonce { contract_address: ContractAddress, nonce: Nonce },
    CompiledClassHash { class_hash: ClassHash, compiled_class_hash: CompiledClassHash },
}

/// A collection of versioned cell stores, one per state category, each bound
/// at construction to a base-value reader over the chain-state snapshot taken
/// at batch start.
pub struct VersionedState<F1, F2, F3, F4> where
    F1: Fn(CellId) -> Result<StarkFelt, StateError>,
    F2: Fn(CellId) -> Result<ClassHash, StateError>,
    F3: Fn(CellId) -> Result<Nonce, StateError>,
    F4: Fn(CellId) -> Result<CompiledClassHash, StateError>,
 {
    pub contract_storage_versioned_storage: VersionedStorage<StarkFelt, F1>,
    pub class_hash_versioned_storage: VersionedStorage<ClassHash, F2>,
    pub nonce_versioned_storage: VersionedStorage<Nonce, F3>,
    pub compiled_class_hash_versioned_storage: VersionedStorage<CompiledClassHash, F4>,
}

impl<F1, F2, F3, F4> VersionedState<F1, F2, F3, F4> where
    F1: Fn(CellId) -> Result<StarkFelt, StateError>,
    F2: Fn(CellId) -> Result<ClassHash, StateError>,
    F3: Fn(CellId) -> Result<Nonce, StateError>,
    F4: Fn(CellId) -> Result<CompiledClassHash, StateError>,
 {
    /// All four stores record at most one value per (cell, version).
    pub open spec fn wf(&self) -> bool {
        &&& self.contract_storage_versioned_storage.wf()
        &&& self.class_hash_versioned_storage.wf()
        &&& self.nonce_versioned_storage.wf()
        &&& self.compiled_class_hash_versioned_storage.wf()
    }

    /// The base-value reader for `cell_id`'s category accepts its cell.
    pub open spec fn can_read_base(&self, cell_id: StateCellId) -> bool {
        match cell_id {
            StateCellId::ContractStorage { contract_address, storage_key } => call_requires(
                self.contract_storage_versioned_storage.callback(),
                (spec_storage_cell(contract_address, storage_key),),
            ),
            StateCellId::ClassHash { contract_address } => call_requires(
                self.class_hash_versioned_storage.callback(),
                (spec_class_hash_cell(contract_address),),
            ),
            StateCellId::Nonce { contract_address } => call_requires(
                self.nonce_versioned_storage.callback(),
                (spec_nonce_cell(contract_address),),
            ),
            StateCellId::CompiledClassHash { class_hash } => call_requires(
                self.compiled_class_hash_versioned_storage.callback(),
                (spec_compiled_class_hash_cell(class_hash),),
            ),
        }
    }

    /// What `read` promises: the highest write at or before the version when
    /// one exists, wrapped in the category's variant; otherwise whatever the
    /// category's base-value reader returns for the cell.
    pub open spec fn read_gives(
        &self,
        cell_id: StateCellId,
        version: Version,
        r: Result<StateValue, StateError>,
    ) -> bool {
        match cell_id {
            StateCellId::ContractStorage { contract_address, storage_key } => {
                let store = self.contract_storage_versioned_storage;
                let cell = spec_storage_cell(contract_address, storage_key);
                if store.has_write_at_or_before(cell, version) {
                    r is Ok && r->Ok_0 is ContractStorage && reads_latest(
                        store.model(),
                        cell,
                        version,
                        r->Ok_0->ContractStorage_0,
                    )
                } else {
                    exists|b: Result<StarkFelt, StateError>|
                        #![auto]
                        call_ensures(store.callback(), (cell,), b) && r == (match b {
                            Ok(v) => Ok(StateValue::ContractStorage(v)),
                            Err(e) => Err::<StateValue, StateError>(e),
                        })
                }
            },
            StateCellId::ClassHash { contract_address } => {
                let store = self.class_hash_versioned_storage;
                let cell = spec_class_hash_cell(contract_address);
                if store.has_write_at_or_before(cell, version) {
                    r is Ok && r->Ok_0 is ClassHash && reads_latest(
                        store.model(),
                        cell,
                        version,
                        r->Ok_0->ClassHash_0,
                    )
                } else {
                    exists|b: Result<ClassHash, StateError>|
                        #![auto]
                        call_ensures(store.callback(), (cell,), b) && r == (match b {
                            Ok(v) => Ok(StateValue::ClassHash(v)),
                            Err(e) => Err::<StateValue, StateError>(e),
                        })
                }
            },
            StateCellId::Nonce { contract_address } => {
                let store = self.nonce_versioned_storage;
                let cell = spec_nonce_cell(contract_address);
                if store.has_write_at_or_before(cell, version) {
                    r is Ok && r->Ok_0 is Nonce && reads_latest(
                        store.model(),
                        cell,
                        version,
                        r->Ok_0->Nonce_0,
                    )
                } else {
                    exists|b: Result<Nonce, StateError>|
                        #![auto]
                        call_ensures(store.callback(), (cell,), b) && r == (match b {
                            Ok(v) => Ok(StateValue::Nonce(v)),
                            Err(e) => Err::<StateValue, StateError>(e),
                        })
                }
            },
            StateCellId::CompiledClassHash { class_hash } => {
                let store = self.compiled_class_hash_versioned_storage;
                let cell = spec_compiled_class_hash_cell(class_hash);
                if store.has_write_at_or_before(cell, version) {
                    r is Ok && r->Ok_0 is CompiledClassHash && reads_latest(
                        store.model(),
                        cell,
                        version,
                        r->Ok_0->CompiledClassHash_0,
                    )
                } else {
                    exists|b: Result<CompiledClassHash, StateError>|
                        #![auto]
                        call_ensures(store.callback(), (cell,), b) && r == (match b {
                            Ok(v) => Ok(StateValue::CompiledClassHash(v)),
                            Err(e) => Err::<StateValue, StateError>(e),
                        })
                }
            },
        }
    }

    /// What `write` does: the targeted store gains exactly the one
    /// (cell, version) entry, and the other three stores are untouched.
    pub open spec fn write_updates(
        &self,
        pre: &Self,
        w: StateWrite,
        version: Version,
    ) -> bool {
        match w {
            StateWrite::ContractStorage { contract_address, storage_key, value } => {
                &&& self.contract_storage_versioned_storage.model()
                    == pre.contract_storage_versioned_storage.model().insert(
                    (spec_storage_cell(contract_address, storage_key), version),
                    value,
                )
                &&& self.contract_storage_versioned_storage.callback()
                    == pre.contract_storage_versioned_storage.callback()
                &&& self.class_hash_versioned_storage == pre.class_hash_versioned_storage
                &&& self.nonce_versioned_storage == pre.nonce_versioned_storage
                &&& self.compiled_class_hash_versioned_storage
                    == pre.compiled_class_hash_versioned_storage
            },
            StateWrite::ClassHash { contract_address, class_hash } => {
                &&& self.class_hash_versioned_storage.model()
                    == pre.class_hash_versioned_storage.model().insert(
                    (spec_class_hash_cell(contract_address), version),
                    class_hash,
                )
                &&& self.class_hash_versioned_storage.callback()
                    == pre.class_hash_versioned_storage.callback()
                &&& self.contract_storage_versioned_storage
                    == pre.contract_storage_versioned_storage
                &&& self.nonce_versioned_storage == pre.nonce_versioned_storage
                &&& self.compiled_class_hash_versioned_storage
                    == pre.compiled_class_hash_versioned_storage
            },
            StateWrite::Nonce { contract_address, nonce } => {
                &&& self.nonce_versioned_storage.model()
                    == pre.nonce_versioned_storage.model().insert(
                    (spec_nonce_cell(contract_address), version),
                    nonce,
                )
                &&& self.nonce_versioned_storage.callback()
                    == pre.nonce_versioned_storage.callback()
                &&& self.contract_storage_versioned_storage
                    == pre.contract_storage_versioned_storage
                &&& self.class_hash_versioned_storage == pre.class_hash_versioned_storage
                &&& self.compiled_class_hash_versioned_storage
                    == pre.compiled_class_hash_versioned_storage
            },
            StateWrite::CompiledClassHash { class_hash, compiled_class_hash } => {
                &&& self.compiled_class_hash_versioned_storage.model()
                    == pre.compiled_class_hash_versioned_storage.model().insert(
                    (spec_compiled_class_hash_cell(class_hash), version),
                    compiled_class_hash,
                )
                &&& self.compiled_class_hash_versioned_storage.callback()
                    == pre.compiled_class_hash_versioned_storage.callback()
                &&& self.contract_storage_versioned_storage
                    == pre.contract_storage_versioned_storage
                &&& self.class_hash_versioned_storage == pre.class_hash_versioned_storage
                &&& self.nonce_versioned_storage == pre.nonce_versioned_storage
            },
        }
    }

    /// Four empty stores, each bound to its base-value reader.
    pub fn new(
        get_storage: F1,
        get_class_hash: F2,
        get_nonce: F3,
        get_compiled_class_hash: F4,
    ) -> (r: Self)
        ensures
            r.wf(),
            r.contract_storage_versioned_storage.model() == Map::<
                (CellId, Version),
                StarkFelt,
            >::empty(),
            r.class_hash_versioned_storage.model() == Map::<(CellId, Version), ClassHash>::empty(),
            r.nonce_versioned_storage.model() == Map::<(CellId, Version), Nonce>::empty(),
            r.compiled_class_hash_versioned_storage.model() == Map::<
                (CellId, Version),
                CompiledClassHash,
            >::empty(),
            r.contract_storage_versioned_storage.callback() == get_storage,
            r.class_hash_versioned_storage.callback() == get_class_hash,
            r.nonce_versioned_storage.callback() == get_nonce,
            r.compiled_class_hash_versioned_storage.callback() == get_compiled_class_hash,
    {
        VersionedState {
            contract_storage_versioned_storage: VersionedStorage::new(get_storage),
            class_hash_versioned_storage: VersionedStorage::new(get_class_hash),
            nonce_versioned_storage: VersionedStorage::new(get_nonce),
            compiled_class_hash_versioned_storage: VersionedStorage::new(get_compiled_class_hash),
        }
    }

    /// Reads one cell at a version, dispatching to the store of the cell's
    /// category; the result's variant always matches the request's.
    pub fn read(&self, cell_id: StateCellId, version: Version) -> (r: Result<
        StateValue,
        StateError,
    >)
        requires
            self.wf(),
            self.can_read_base(cell_id),
        ensures
            self.read_gives(cell_id, version, r),
    {
        match cell_id {
            StateCellId::ContractStorage { contract_address, storage_key } => {
                let cell = CellId { major: contract_address.0, minor: storage_key.0 };
                match self.contract_storage_versioned_storage.read(cell, version) {
                    Ok(v) => Ok(StateValue::ContractStorage(v)),
                    Err(e) => Err(e),
                }
            },
            StateCellId::ClassHash { contract_address } => {
                let cell = CellId { major: contract_address.0, minor: 0 };
                match self.class_hash_versioned_storage.read(cell, version) {
                    Ok(v) => Ok(StateValue::ClassHash(v)),
                    Err(e) => Err(e),
                }
            },
            StateCellId::Nonce { contract_address } => {
                let cell = CellId { major: contract_address.0, minor: 0 };
                match self.nonce_versioned_storage.read(cell, version) {
                    Ok(v) => Ok(StateValue::Nonce(v)),
                    Err(e) => Err(e),
                }
            },
            StateCellId::CompiledClassHash { class_hash } => {
                let cell = CellId { major: class_hash.0, minor: 0 };
                match self.compiled_class_hash_versioned_storage.read(cell, version) {
                    Ok(v) => Ok(StateValue::CompiledClassHash(v)),
                    Err(e) => Err(e),
                }
            },
        }
    }

    /// Writes one cell at a version in the store of its category; always
    /// succeeds, overwriting a repeated write at the same (cell, version).
    pub fn write(&mut self, w: StateWrite, version: Version)
        requires
            old(self).wf(),
        ensures
            final(self).wf(),
            final(self).write_updates(old(self), w, version),
    {
        match w {
            StateWrite::ContractStorage { contract_address, storage_key, value } => {
                let cell = CellId { major: contract_address.0, minor: storage_key.0 };
                self.contract_storage_versioned_storage.write(cell, version, value);
            },
            StateWrite::ClassHash { contract_address, class_hash } => {
                let cell = CellId { major: contract_address.0, minor: 0 };
                self.class_hash_versioned_storage.write(cell, version, class_hash);
            },
            StateWrite::Nonce { contract_address, nonce } => {
                let cell = CellId { major: contract_address.0, minor: 0 };
                self.nonce_versioned_storage.write(cell, version, nonce);
            },
            StateWrite::CompiledClassHash { class_hash, compiled_class_hash } => {
                let cell = CellId { major: class_hash.0, minor: 0 };
                self.compiled_class_hash_versioned_storage.write(cell, version, compiled_class_hash);
            },
        }
    }
}

} // verus!
