//! The versioned cell store: one mapping from a logical cell id to an ordered
//! write history, with a lazy base-value fallback. Many concurrent logical
//! versions can read and write a shared cell consistently with
//! sequential-in-version-order execution.

use vstd::prelude::*;

use crate::Version;

verus! {

/// Identifies one addressable state cell. A cell that is naturally keyed by a
/// pair (a contract address and a storage key) uses both words; a cell keyed
/// by a single id puts it in `major` and leaves `minor` zero.
#[derive(PartialEq, Eq, Structural, Clone, Copy, Debug)]
pub struct CellId {
    pub major: u128,
    pub minor: u128,
}

/// Error produced when the base-value read callback fails. Such a failure is
/// unrecoverable for the read in progress: the read aborts with this error.
#[derive(PartialEq, Eq, Structural, Clone, Copy, Debug)]
pub enum StateError {
    BaseValueReadFailure,
}

/// One recorded write: a value written to a cell at a version.
#[derive(Clone, Copy, Debug)]
pub struct WriteEntry<V> {
    pub cell_id: CellId,
    pub version: Version,
    pub value: V,
}

/// The mathematical content of a store's write histories: a partial map from
/// (cell, version) to the value written there.
pub open spec fn write_map<V>(s: Seq<WriteEntry<V>>) -> Map<(CellId, Version), V>
    decreases s.len(),
{
    if s.len() == 0 {
        Map::empty()
    } else {
        write_map(s.drop_last()).insert((s.last().cell_id, s.last().version), s.last().value)
    }
}

/// No two entries record a write to the same cell at the same version.
pub open spec fn entries_unique<V>(s: Seq<WriteEntry<V>>) -> bool {
    forall|i: int, j: int|
        0 <= i < j < s.len() ==> !(#[trigger] s[i].cell_id == #[trigger] s[j].cell_id
            && s[i].version == s[j].version)
}

proof fn lemma_write_map_contains<V>(s: Seq<WriteEntry<V>>, c: CellId, w: Version)
    ensures
        write_map(s).dom().contains((c, w)) <==> exists|i: int|
            0 <= i < s.len() && #[trigger] s[i].cell_id == c && s[i].version == w,
    decreases s.len(),
{
    if s.len() > 0 {
        lemma_write_map_contains(s.drop_last(), c, w);
        if s.last().cell_id == c && s.last().version == w {
            assert(s[s.len() - 1].cell_id == c && s[s.len() - 1].version == w);
        }
        if write_map(s).dom().contains((c, w)) && !(s.last().cell_id == c && s.last().version
            == w) {
            let i = choose|i: int|
                0 <= i < s.drop_last().len() && #[trigger] s.drop_last()[i].cell_id == c
                    && s.drop_last()[i].version == w;
            assert(s[i].cell_id == c && s[i].version == w);
        }
        if exists|i: int| 0 <= i < s.len() && #[trigger] s[i].cell_id == c && s[i].version == w {
            let i = choose|i: int|
                0 <= i < s.len() && #[trigger] s[i].cell_id == c && s[i].version == w;
            if i < s.len() - 1 {
                assert(s.drop_last()[i].cell_id == c && s.drop_last()[i].version == w);
            }
        }
    }
}

proof fn lemma_write_map_value<V>(s: Seq<WriteEntry<V>>, i: int)
    requires
        entries_unique(s),
        0 <= i < s.len(),
    ensures
        write_map(s).dom().contains((s[i].cell_id, s[i].version)),
        write_map(s)[(s[i].cell_id, s[i].version)] == s[i].value,
    decreases s.len(),
{
    if i == s.len() - 1 {
        assert(s.last() == s[i]);
    } else {
        assert(entries_unique(s.drop_last()));
        assert(s.drop_last()[i] == s[i]);
        lemma_write_map_value(s.drop_last(), i);
        assert(!(s[i].cell_id == s[s.len() - 1].cell_id && s[i].version == s[s.len()
            - 1].version));
    }
}

proof fn lemma_write_map_push<V>(s: Seq<WriteEntry<V>>, e: WriteEntry<V>)
    ensures
        write_map(s.push(e)) == write_map(s).insert((e.cell_id, e.version), e.value),
{
    assert(s.push(e).drop_last() =~= s);
    assert(s.push(e).last() == e);
}

proof fn lemma_write_map_update<V>(s: Seq<WriteEntry<V>>, i: int, e: WriteEntry<V>)
    requires
        entries_unique(s),
        0 <= i < s.len(),
        s[i].cell_id == e.cell_id,
        s[i].version == e.version,
    ensures
        write_map(s.update(i, e)) =~= write_map(s).insert((e.cell_id, e.version), e.value),
    decreases s.len(),
{
    let key = (e.cell_id, e.version);
    if i == s.len() - 1 {
        assert(s.update(i, e).drop_last() =~= s.drop_last());
        assert(s.update(i, e).last() == e);
        assert(write_map(s.update(i, e)) =~= write_map(s.drop_last()).insert(key, e.value));
        assert(write_map(s).insert(key, e.value) =~= write_map(s.drop_last()).insert(
            (s.last().cell_id, s.last().version),
            s.last().value,
        ).insert(key, e.value));
        assert((s.last().cell_id, s.last().version) == key);
    } else {
        assert(entries_unique(s.drop_last()));
        assert(s.drop_last()[i] == s[i]);
        lemma_write_map_update(s.drop_last(), i, e);
        assert(s.update(i, e).drop_last() =~= s.drop_last().update(i, e));
        assert(s.update(i, e).last() == s.last());
        let last_key = (s.last().cell_id, s.last().version);
        assert(!(s[i].cell_id == s[s.len() - 1].cell_id && s[i].version == s[s.len()
            - 1].version));
        assert(last_key != key);
        assert(write_map(s.update(i, e)) =~= write_map(s.drop_last()).insert(key, e.value).insert(
            last_key,
            s.last().value,
        ));
    }
}

/// Holds when `v` is the value of the highest write to `cell` at or before
/// `version` recorded in the write-history map `m`.
pub open spec fn reads_latest<V>(
    m: Map<(CellId, Version), V>,
    cell: CellId,
    version: Version,
    v: V,
) -> bool {
    exists|w: Version|
        #![auto]
        m.dom().contains((cell, w)) && w <= version && v == m[(cell, w)] && (forall|w2: Version|
            m.dom().contains((cell, w2)) && w2 <= version ==> w2 <= w)
}

/// The versioned cell store. It owns, per cell, the history of in-batch
/// writes, and falls back to the base-value read callback (the cell's value at
/// batch start) for a cell no version has written yet.
#[verifier::reject_recursive_types(V)]
pub struct VersionedStorage<V, F> where F: Fn(CellId) -> Result<V, StateError> {
    /// Reads a cell's value from the chain-state snapshot taken at batch
    /// start. Expected to be pure; its failure aborts the read that needed it.
    pub base_value_read_callback: F,
    entries: Vec<WriteEntry<V>>,
}

impl<V: Copy, F: Fn(CellId) -> Result<V, StateError>> VersionedStorage<V, F> {
    /// The write histories of all cells, as a map from (cell, version) to the
    /// value written there.
    pub closed spec fn model(&self) -> Map<(CellId, Version), V> {
        write_map(self.entries@)
    }

    /// The base-value read callback the store was bound to at construction.
    pub closed spec fn callback(&self) -> F {
        self.base_value_read_callback
    }

    /// The store records at most one value per (cell, version).
    pub closed spec fn wf(&self) -> bool {
        entries_unique(self.entries@)
    }

    /// Some version at or before `version` has written `cell`.
    pub open spec fn has_write_at_or_before(&self, cell: CellId, version: Version) -> bool {
        exists|w: Version| self.model().dom().contains((cell, w)) && w <= version
    }

    /// An empty store bound to its base-value reader.
    pub fn new(base_value_read_callback: F) -> (r: Self)
        ensures
            r.wf(),
            r.model() == Map::<(CellId, Version), V>::empty(),
            r.callback() == base_value_read_callback,
    {
        VersionedStorage { base_value_read_callback, entries: Vec::new() }
    }

    /// Returns the value of the highest write to `cell` at or before
    /// `version`; if no such write exists, returns what the base-value read
    /// callback returns (an error from the callback aborts the read).
    pub fn read(&self, cell_id: CellId, version: Version) -> (r: Result<V, StateError>)
        requires
            self.wf(),
            call_requires(self.callback(), (cell_id,)),
        ensures
            self.has_write_at_or_before(cell_id, version) ==> r is Ok && reads_latest(
                self.model(),
                cell_id,
                version,
                r->Ok_0,
            ),
            !self.has_write_at_or_before(cell_id, version) ==> call_ensures(
                self.callback(),
                (cell_id,),
                r,
            ),
    {
        let mut i: usize = 0;
        let mut best: Option<(Version, V)> = None;
        let n = self.entries.len();
        while i < n
            invariant
                n == self.entries@.len(),
                0 <= i <= n,
                match best {
                    Option::None => forall|j: int|
                        0 <= j < i ==> !(#[trigger] self.entries@[j].cell_id == cell_id
                            && self.entries@[j].version <= version),
                    Option::Some((bv, bval)) => {
                        &&& bv <= version
                        &&& exists|j: int|
                            0 <= j < i && #[trigger] self.entries@[j].cell_id == cell_id
                                && self.entries@[j].version == bv && self.entries@[j].value == bval
                        &&& forall|j: int|
                            0 <= j < i && #[trigger] self.entries@[j].cell_id == cell_id
                                && self.entries@[j].version <= version
                                ==> self.entries@[j].version <= bv
                    },
                },
            decreases n - i,
        {
            let e = &self.entries[i];
            if e.cell_id == cell_id && e.version <= version {
                match best {
                    Option::None => {
                        best = Some((e.version, e.value));
                    },
                    Option::Some((bv, _)) => {
                        if e.version >= bv {
                            best = Some((e.version, e.value));
                        }
                    },
                }
            }
            i += 1;
        }
        proof {
            lemma_write_map_contains(self.entries@, cell_id, version);
        }
        match best {
            Option::Some((bv, bval)) => {
                proof {
                    let j = choose|j: int|
                        0 <= j < self.entries@.len() && #[trigger] self.entries@[j].cell_id
                            == cell_id && self.entries@[j].version == bv && self.entries@[j].value
                            == bval;
                    lemma_write_map_value(self.entries@, j);
                    assert(self.model().dom().contains((cell_id, bv)));
                    assert(self.model()[(cell_id, bv)] == bval);
                    assert forall|w2: Version|
                        self.model().dom().contains((cell_id, w2)) && w2 <= version implies w2
                        <= bv by {
                        lemma_write_map_contains(self.entries@, cell_id, w2);
                    };
                }
                Ok(bval)
            },
            Option::None => {
                proof {
                    assert forall|w: Version| !(self.model().dom().contains((cell_id, w)) && w
                        <= version) by {
                        lemma_write_map_contains(self.entries@, cell_id, w);
                    };
                }
                (self.base_value_read_callback)(cell_id)
            },
        }
    }

    /// Inserts or overwrites the value written to `cell` at `version`. A
    /// repeated write at the same (cell, version) overwrites; the histories of
    /// all other (cell, version) pairs are untouched.
    pub fn write(&mut self, cell_id: CellId, version: Version, value: V)
        requires
            old(self).wf(),
        ensures
            final(self).wf(),
            final(self).model() == old(self).model().insert((cell_id, version), value),
            final(self).callback() == old(self).callback(),
    {
        let mut i: usize = 0;
        let n = self.entries.len();
        while i < n
            invariant
                *self == *old(self),
                entries_unique(self.entries@),
                n == self.entries@.len(),
                0 <= i <= n,
                forall|j: int|
                    0 <= j < i ==> !(#[trigger] self.entries@[j].cell_id == cell_id
                        && self.entries@[j].version == version),
            decreases n - i,
        {
            let e = &self.entries[i];
            if e.cell_id == cell_id && e.version == version {
                let entry = WriteEntry { cell_id, version, value };
                proof {
                    lemma_write_map_update(self.entries@, i as int, entry);
                }
                let ghost s_before = self.entries@;
                self.entries[i] = entry;
                proof {
                    assert(self.entries@ == s_before.update(i as int, entry));
                    assert forall|a: int, b: int|
                        0 <= a < b < self.entries@.len() implies !(
                    #[trigger] self.entries@[a].cell_id == #[trigger] self.entries@[b].cell_id
                        && self.entries@[a].version == self.entries@[b].version) by {
                        assert(s_before[a].cell_id == self.entries@[a].cell_id
                            && s_before[a].version == self.entries@[a].version);
                        assert(s_before[b].cell_id == self.entries@[b].cell_id
                            && s_before[b].version == self.entries@[b].version);
                    };
                }
                return ;
            }
            i += 1;
        }
        let entry = WriteEntry { cell_id, version, value };
        proof {
            lemma_write_map_push(self.entries@, entry);
            let s_after = self.entries@.push(entry);
            assert forall|a: int, b: int|
                0 <= a < b < s_after.len() implies !(#[trigger] s_after[a].cell_id
                == #[trigger] s_after[b].cell_id && s_after[a].version == s_after[b].version) by {
                if b == self.entries@.len() {
                    assert(s_after[a] == self.entries@[a]);
                    assert(s_after[b] == entry);
                } else {
                    assert(s_after[a] == self.entries@[a]);
                    assert(s_after[b] == self.entries@[b]);
                }
            };
        }
        self.entries.push(entry);
    }
}

/// For all cells with no prior write at or before the version read, `read`
/// returns exactly what the base-value callback returns, so two such reads
/// through a pure callback (one whose possible results for a cell are all
/// equal) return the same value: pre-write reads are idempotent.
pub proof fn lemma_unwritten_read_idempotent<V: Copy, F: Fn(CellId) -> Result<V, StateError>>(
    store: VersionedStorage<V, F>,
    cell: CellId,
    version1: Version,
    version2: Version,
    r1: Result<V, StateError>,
    r2: Result<V, StateError>,
)
    requires
        !store.has_write_at_or_before(cell, version1),
        !store.has_write_at_or_before(cell, version2),
        call_ensures(store.callback(), (cell,), r1),
        call_ensures(store.callback(), (cell,), r2),
        forall|a: Result<V, StateError>, b: Result<V, StateError>|
            call_ensures(store.callback(), (cell,), a) && call_ensures(
                store.callback(),
                (cell,),
                b,
            ) ==> a == b,
    ensures
        r1 == r2,
{
}

/// After `write(cell, v, x)`, a read of `cell` at any version `v2 >= v` that
/// sees no intervening write in `(v, v2]` finds the highest write at or
/// before `v2` to be exactly the write of `x` at `v`: the written value is
/// visible at its own version and stays visible at later versions.
pub proof fn lemma_write_then_read_visible<V>(
    m: Map<(CellId, Version), V>,
    cell: CellId,
    v: Version,
    x: V,
    v2: Version,
    w: Version,
)
    requires
        v <= v2,
        forall|u: Version| m.insert((cell, v), x).dom().contains((cell, u)) ==> !(v < u <= v2),
        m.insert((cell, v), x).dom().contains((cell, w)),
        w <= v2,
        forall|u: Version|
            m.insert((cell, v), x).dom().contains((cell, u)) && u <= v2 ==> u <= w,
    ensures
        w == v,
        m.insert((cell, v), x)[(cell, w)] == x,
{
    assert(m.insert((cell, v), x).dom().contains((cell, v)));
}

/// A write at version `v1` never changes what a read at any version
/// `v2 < v1` observes: the set of writes at or before `v2` and their values
/// are untouched, for every cell.
pub proof fn lemma_write_preserves_earlier_reads<V>(
    m: Map<(CellId, Version), V>,
    cell: CellId,
    v1: Version,
    x: V,
    cell2: CellId,
    v2: Version,
)
    requires
        v2 < v1,
    ensures
        forall|u: Version|
            u <= v2 ==> (m.insert((cell, v1), x).dom().contains((cell2, u))
                <==> m.dom().contains((cell2, u))),
        forall|u: Version|
            u <= v2 && m.dom().contains((cell2, u)) ==> m.insert((cell, v1), x)[(cell2, u)] == m[(
                cell2,
                u,
            )],
{
}

} // verus!
