//! The table store: a live cache and a write-through backing store, both
//! keyed by the pair of table identifier and encoded key bytes.
//!
//! The store is modelled by [`StoreModel`]: two finite maps from
//! [`EntryModel`] to, respectively, an erased value and a byte blob. Every
//! operation's contract is stated as an equation on that model.

use vstd::prelude::*;
use core::marker::PhantomData;
use crate::erase::{round_trips, StoredModel, StoredValue, TableKey, TableValue};

verus! {

/// The mathematical identity of one entry: the numeric table identifier
/// together with the canonical byte encoding of the entry's key.
pub ghost struct EntryModel {
    pub id: u64,
    pub key: Seq<u8>,
}

/// The runtime key of one entry: a table identifier and the encoded key.
pub struct TableEntry {
    pub id: u64,
    pub key: Vec<u8>,
}

impl View for TableEntry {
    type V = EntryModel;

    open spec fn view(&self) -> EntryModel {
        EntryModel { id: self.id, key: self.key@ }
    }
}

impl TableEntry {
    /// The entry a table identifier and a key value address jointly.
    pub fn from_key<K: TableKey>(table_id: u64, key: &K) -> (r: TableEntry)
        ensures
            r@ == (EntryModel { id: table_id, key: key.encoded_key() }),
    {
        TableEntry { id: table_id, key: key.encode_key() }
    }
}

/// A compile-time-typed table handle: a stable numeric identifier plus
/// phantom markers for the table's key and value types. Only the number is
/// stored at runtime; the markers let the type system keep every access
/// through this handle to one key type and one value type.
///
/// Within one store, all accesses through a given numeric identifier must
/// agree on `K` and `V`; the store does not check this at runtime.
pub struct TableId<K: TableKey, V: TableValue> {
    pub id: u64,
    pub key: PhantomData<K>,
    pub value: PhantomData<V>,
}

impl<K: TableKey, V: TableValue> TableId<K, V> {
    /// A handle for the table with the given numeric identifier.
    pub fn new(id: u64) -> (r: TableId<K, V>)
        ensures
            r.id == id,
    {
        TableId { id, key: PhantomData, value: PhantomData }
    }
}

/// Compares two byte vectors by content.
fn bytes_eq(a: &Vec<u8>, b: &Vec<u8>) -> (r: bool)
    ensures
        r == (a@ == b@),
{
    if a.len() != b.len() {
        return false;
    }
    let mut i: usize = 0;
    while i < a.len()
        invariant
            i <= a.len(),
            a@.len() == b@.len(),
            forall|j: int| 0 <= j < i ==> a@[j] == b@[j],
        decreases a.len() - i,
    {
        if a[i] != b[i] {
            return false;
        }
        i = i + 1;
    }
    proof {
        assert(a@ =~= b@);
    }
    true
}

/// Compares two entry keys by content.
fn entry_eq(a: &TableEntry, b: &TableEntry) -> (r: bool)
    ensures
        r == (a@ == b@),
{
    a.id == b.id && bytes_eq(&a.key, &b.key)
}

/// The map a sequence of entry/value pairs denotes, later pairs shadowing
/// earlier ones with the same entry.
spec fn pairs_map<V: View>(s: Seq<(TableEntry, V)>) -> Map<EntryModel, V::V>
    decreases s.len(),
{
    if s.len() == 0 {
        Map::empty()
    } else {
        pairs_map(s.drop_last()).insert(s.last().0@, s.last().1@)
    }
}

proof fn lemma_pairs_map_absent<V: View>(s: Seq<(TableEntry, V)>, k: EntryModel)
    requires
        forall|i: int| 0 <= i < s.len() ==> (#[trigger] s[i]).0@ != k,
    ensures
        !pairs_map(s).contains_key(k),
    decreases s.len(),
{
    if s.len() > 0 {
        assert(forall|i: int| 0 <= i < s.len() - 1 ==> (#[trigger] s.drop_last()[i]).0@ != k);
        lemma_pairs_map_absent(s.drop_last(), k);
    }
}

proof fn lemma_pairs_map_found<V: View>(s: Seq<(TableEntry, V)>, k: EntryModel, i: int)
    requires
        0 <= i < s.len(),
        s[i].0@ == k,
        forall|j: int| i < j < s.len() ==> (#[trigger] s[j]).0@ != k,
    ensures
        pairs_map(s).contains_key(k),
        pairs_map(s)[k] == s[i].1@,
    decreases s.len(),
{
    if i < s.len() - 1 {
        assert(forall|j: int| i < j < s.len() - 1 ==> (#[trigger] s.drop_last()[j]).0@ != k);
        lemma_pairs_map_found(s.drop_last(), k, i);
    }
}

/// An association map from entry keys to values, the store's one
/// homogeneous container.
pub(crate) struct AssocMap<V> {
    pairs: Vec<(TableEntry, V)>,
}

impl<V: View> View for AssocMap<V> {
    type V = Map<EntryModel, V::V>;

    closed spec fn view(&self) -> Map<EntryModel, V::V> {
        pairs_map(self.pairs@)
    }
}

impl<V: View> AssocMap<V> {
    /// An empty map.
    pub(crate) fn new() -> (r: AssocMap<V>)
        ensures
            r@ == Map::<EntryModel, V::V>::empty(),
    {
        AssocMap { pairs: Vec::new() }
    }

    /// Binds `key` to `value`, shadowing any earlier binding.
    pub(crate) fn insert(&mut self, key: TableEntry, value: V)
        ensures
            final(self)@ == old(self)@.insert(key@, value@),
    {
        let ghost k = key@;
        let ghost v = value@;
        self.pairs.push((key, value));
        proof {
            assert(self.pairs@.drop_last() =~= old(self).pairs@);
            assert(self.pairs@.last().0@ == k);
            assert(self.pairs@.last().1@ == v);
        }
    }

    /// Looks the key up.
    pub(crate) fn get(&self, key: &TableEntry) -> (r: Option<&V>)
        ensures
            match r {
                Some(v) => self@.contains_key(key@) && v@ == self@[key@],
                None => !self@.contains_key(key@),
            },
    {
        let mut i: usize = self.pairs.len();
        while i > 0
            invariant
                i <= self.pairs.len(),
                forall|j: int| i <= j < self.pairs@.len() ==> (#[trigger] self.pairs@[j]).0@ != key@,
            decreases i,
        {
            i = i - 1;
            if entry_eq(&self.pairs[i].0, key) {
                proof {
                    lemma_pairs_map_found(self.pairs@, key@, i as int);
                }
                return Some(&self.pairs[i].1);
            }
        }
        proof {
            lemma_pairs_map_absent(self.pairs@, key@);
        }
        None
    }

    /// True iff the key is bound.
    pub(crate) fn contains_key(&self, key: &TableEntry) -> (r: bool)
        ensures
            r == self@.contains_key(key@),
    {
        match self.get(key) {
            Some(_) => true,
            None => false,
        }
    }
}

/// The mathematical content of a whole store: the live cache and the
/// backing store, as maps over entry identities.
pub ghost struct StoreModel {
    pub cache: Map<EntryModel, StoredModel>,
    pub db: Map<EntryModel, Seq<u8>>,
}

/// The entry a typed table handle and a key value address jointly.
pub open spec fn entry_of<K: TableKey, V: TableValue>(table_id: TableId<K, V>, key: K) -> EntryModel {
    EntryModel { id: table_id.id, key: key.encoded_key() }
}

/// Whether an entry exists anywhere in the store, live or backed.
pub open spec fn present(s: StoreModel, ek: EntryModel) -> bool {
    s.cache.contains_key(ek) || s.db.contains_key(ek)
}

/// The store after a put of a value with view `w` at entry `ek`: the
/// erased value enters the live cache and its encoding enters the backing
/// store, each shadowing whatever was there (write-through).
pub open spec fn store_put<V: TableValue>(s: StoreModel, ek: EntryModel, w: V::V) -> StoreModel {
    StoreModel {
        cache: s.cache.insert(ek, StoredModel { tag: V::tag(), bytes: V::encoding(w) }),
        db: s.db.insert(ek, V::encoding(w)),
    }
}

/// The store after a cache-only write of a value with view `w` at entry
/// `ek`: the live cache is updated, the backing store untouched.
pub open spec fn store_put_cached<V: TableValue>(s: StoreModel, ek: EntryModel, w: V::V) -> StoreModel {
    StoreModel {
        cache: s.cache.insert(ek, StoredModel { tag: V::tag(), bytes: V::encoding(w) }),
        db: s.db,
    }
}

/// The store after the lazy hydrate a borrow performs: an entry absent
/// from the live cache but present in the backing store is decoded as `V`
/// and, when it decodes, re-erased into the cache; an undecodable entry,
/// like any other, leaves the store exactly as it was.
pub open spec fn hydrated<V: TableValue>(s: StoreModel, ek: EntryModel) -> StoreModel {
    if !s.cache.contains_key(ek) && s.db.contains_key(ek) {
        match V::decoded(s.db[ek]) {
            Some(w) => StoreModel {
                cache: s.cache.insert(ek, StoredModel { tag: V::tag(), bytes: V::encoding(w) }),
                db: s.db,
            },
            None => s,
        }
    } else {
        s
    }
}

/// Whether the hydrate step fails: the entry is resident only in the
/// backing store and its bytes do not decode as `V`.
pub open spec fn hydrate_fails<V: TableValue>(s: StoreModel, ek: EntryModel) -> bool {
    !s.cache.contains_key(ek) && s.db.contains_key(ek) && V::decoded(s.db[ek]) is None
}

/// The bytes a borrow of `ek` must decode: the cached bytes when the
/// entry is live, the backed bytes otherwise.
pub open spec fn resident_bytes(s: StoreModel, ek: EntryModel) -> Seq<u8>
    recommends
        present(s, ek),
{
    if s.cache.contains_key(ek) {
        s.cache[ek].bytes
    } else {
        s.db[ek]
    }
}

/// What a borrow returns out of a cache that holds the entry: the typed
/// value the cached bytes decode to, if they decode.
pub open spec fn borrow_view<V: TableValue>(s: StoreModel, ek: EntryModel) -> Option<V::V>
    recommends
        s.cache.contains_key(ek),
{
    V::decoded(s.cache[ek].bytes)
}

/// The error a typed accessor can surface: backing-store bytes that do not
/// decode as the expected value type.
#[derive(Clone, Copy, PartialEq, Eq, Debug)]
pub enum StorageError {
    Decode,
}

/// The heterogeneous table store: a live cache of erased values and a
/// write-through backing store of serialized blobs.
pub struct Storage {
    entries: AssocMap<StoredValue>,
    database: AssocMap<Vec<u8>>,
}

impl View for Storage {
    type V = StoreModel;

    closed spec fn view(&self) -> StoreModel {
        StoreModel { cache: self.entries@, db: self.database@ }
    }
}

impl Storage {
    /// An empty store.
    pub fn new() -> (r: Storage)
        ensures
            r@.cache == Map::<EntryModel, StoredModel>::empty(),
            r@.db == Map::<EntryModel, Seq<u8>>::empty(),
    {
        Storage { entries: AssocMap::new(), database: AssocMap::new() }
    }

    /// Ensures the entry is resident in the live cache: a no-op when it is
    /// already there or nowhere, a decode-and-erase from the backing store
    /// when only the backing store holds it. Backed bytes that do not
    /// decode as `V` surface as the decode error and leave both maps
    /// exactly as they were.
    fn ensure_cached_table_entry<V: TableValue>(&mut self, table_entry: &TableEntry) -> (r: Result<
        (),
        StorageError,
    >)
        ensures
            match r {
                Ok(u) => {
                    &&& !hydrate_fails::<V>(old(self)@, table_entry@)
                    &&& final(self)@ == hydrated::<V>(old(self)@, table_entry@)
                    &&& present(old(self)@, table_entry@) ==> {
                        &&& final(self)@.cache.contains_key(table_entry@)
                        &&& V::decoded(final(self)@.cache[table_entry@].bytes) == V::decoded(
                            resident_bytes(old(self)@, table_entry@),
                        )
                    }
                },
                Err(e) => {
                    &&& hydrate_fails::<V>(old(self)@, table_entry@)
                    &&& final(self)@ == old(self)@
                    &&& e == StorageError::Decode
                },
            },
    {
        if self.entries.contains_key(table_entry) {
            return Ok(());
        }
        let value: V = match self.database.get(table_entry) {
            Some(bytes) => match V::from_bytes(bytes.as_slice()) {
                Some(v) => v,
                None => {
                    return Err(StorageError::Decode);
                },
            },
            None => {
                return Ok(());
            },
        };
        let revived = StoredValue::erase(&value);
        let table_entry_again = TableEntry { id: table_entry.id, key: copy_bytes(&table_entry.key) };
        self.entries.insert(table_entry_again, revived);
        Ok(())
    }

    /// True iff the entry exists in the live cache or the backing store;
    /// the store is left exactly as it was. The error side is unreachable
    /// and kept for the accessor surface's uniformity.
    pub fn contains_table_entry<K: TableKey, V: TableValue>(
        &mut self,
        table_id: &TableId<K, V>,
        key: &K,
    ) -> (r: Result<bool, StorageError>)
        ensures
            final(self)@ == old(self)@,
            r == Ok::<bool, StorageError>(present(old(self)@, entry_of(*table_id, *key))),
    {
        let table_entry = TableEntry::from_key(table_id.id, key);
        if self.entries.contains_key(&table_entry) {
            return Ok(true);
        }
        if self.database.contains_key(&table_entry) {
            return Ok(true);
        }
        Ok(false)
    }

    /// Stores `value` under `key` in the table `table_id` names: the
    /// erased value replaces any cached one and its encoding replaces any
    /// backed one, unconditionally (overwrite semantics, write-through).
    pub fn put_table_entry<K: TableKey, V: TableValue>(
        &mut self,
        table_id: &TableId<K, V>,
        key: K,
        value: V,
    )
        ensures
            final(self)@ == store_put::<V>(old(self)@, entry_of(*table_id, key), value@),
            round_trips::<V>(value@),
    {
        let table_entry = TableEntry::from_key(table_id.id, &key);
        let table_entry_again = TableEntry::from_key(table_id.id, &key);
        let bytes = value.to_bytes();
        let stored = StoredValue::erase(&value);
        self.database.insert(table_entry, bytes);
        self.entries.insert(table_entry_again, stored);
    }

    /// Reads the entry under `key` in the table `table_id` names, reviving
    /// it from the backing store first when the live cache lacks it. The
    /// entry must exist somewhere in the store, and a cached entry must
    /// carry `V`'s tag: a caller holding a rightly typed handle has both
    /// by construction. The read fails exactly when the resident bytes —
    /// cached if the entry is live, backed otherwise — do not decode as
    /// `V`, and a failed read leaves both maps exactly as they were.
    pub fn borrow_table_entry<K: TableKey, V: TableValue>(
        &mut self,
        table_id: &TableId<K, V>,
        key: &K,
    ) -> (r: Result<V, StorageError>)
        requires
            present(old(self)@, entry_of(*table_id, *key)),
            old(self)@.cache.contains_key(entry_of(*table_id, *key))
                ==> old(self)@.cache[entry_of(*table_id, *key)].tag == V::tag(),
        ensures
            ({
                let ek = entry_of(*table_id, *key);
                match r {
                    Ok(v) => {
                        &&& V::decoded(resident_bytes(old(self)@, ek)) == Some(v@)
                        &&& final(self)@ == hydrated::<V>(old(self)@, ek)
                        &&& final(self)@.cache.contains_key(ek)
                        &&& borrow_view::<V>(final(self)@, ek) == Some(v@)
                    },
                    Err(e) => {
                        &&& V::decoded(resident_bytes(old(self)@, ek)) is None
                        &&& final(self)@ == old(self)@
                        &&& e == StorageError::Decode
                    },
                }
            }),
    {
        let table_entry = TableEntry::from_key(table_id.id, key);
        match self.ensure_cached_table_entry::<V>(&table_entry) {
            Ok(u) => u,
            Err(e) => {
                return Err(e);
            },
        }
        match self.entries.get(&table_entry) {
            Some(stored) => match stored.downcast_ref::<V>() {
                Some(v) => Ok(v),
                None => Err(StorageError::Decode),
            },
            None => {
                proof {
                    assert(false);
                }
                Err(StorageError::Decode)
            },
        }
    }

    /// The exclusive-access counterpart of [`Self::borrow_table_entry`]:
    /// the same hydrate-then-read contract, handing out the resident value
    /// for mutation. A mutated value is written back into the live cache
    /// with [`Self::put_cached_table_entry`]; it does not reach the
    /// backing store until an explicit [`Self::put_table_entry`].
    pub fn borrow_table_entry_mut<K: TableKey, V: TableValue>(
        &mut self,
        table_id: &TableId<K, V>,
        key: &K,
    ) -> (r: Result<V, StorageError>)
        requires
            present(old(self)@, entry_of(*table_id, *key)),
            old(self)@.cache.contains_key(entry_of(*table_id, *key))
                ==> old(self)@.cache[entry_of(*table_id, *key)].tag == V::tag(),
        ensures
            ({
                let ek = entry_of(*table_id, *key);
                match r {
                    Ok(v) => {
                        &&& V::decoded(resident_bytes(old(self)@, ek)) == Some(v@)
                        &&& final(self)@ == hydrated::<V>(old(self)@, ek)
                        &&& final(self)@.cache.contains_key(ek)
                        &&& borrow_view::<V>(final(self)@, ek) == Some(v@)
                    },
                    Err(e) => {
                        &&& V::decoded(resident_bytes(old(self)@, ek)) is None
                        &&& final(self)@ == old(self)@
                        &&& e == StorageError::Decode
                    },
                }
            }),
    {
        let table_entry = TableEntry::from_key(table_id.id, key);
        match self.ensure_cached_table_entry::<V>(&table_entry) {
            Ok(u) => u,
            Err(e) => {
                return Err(e);
            },
        }
        match self.entries.get(&table_entry) {
            Some(stored) => match stored.downcast_ref::<V>() {
                Some(v) => Ok(v),
                None => Err(StorageError::Decode),
            },
            None => {
                proof {
                    assert(false);
                }
                Err(StorageError::Decode)
            },
        }
    }

    /// Writes `value` into the live cache alone, leaving the backing store
    /// untouched: the write-back half of a mutable borrow, so the entry
    /// must already exist, as one a borrow handed out does. The divergence
    /// this opens between cache and backing store lasts until the next
    /// [`Self::put_table_entry`], by design.
    pub fn put_cached_table_entry<K: TableKey, V: TableValue>(
        &mut self,
        table_id: &TableId<K, V>,
        key: &K,
        value: V,
    )
        requires
            present(old(self)@, entry_of(*table_id, *key)),
        ensures
            final(self)@ == store_put_cached::<V>(old(self)@, entry_of(*table_id, *key), value@),
            round_trips::<V>(value@),
    {
        let table_entry = TableEntry::from_key(table_id.id, key);
        let stored = StoredValue::erase(&value);
        self.entries.insert(table_entry, stored);
    }

    /// Empties the live cache while keeping the backing store: the state
    /// from which every surviving entry is revived lazily, as after a
    /// restart of a persistent deployment.
    pub fn clear_live_cache(&mut self)
        ensures
            final(self)@ == (StoreModel { cache: Map::empty(), db: old(self)@.db }),
    {
        self.entries = AssocMap::new();
    }
}

/// Copies a byte vector.
fn copy_bytes(b: &Vec<u8>) -> (r: Vec<u8>)
    ensures
        r@ == b@,
{
    let mut r: Vec<u8> = Vec::new();
    let mut i: usize = 0;
    while i < b.len()
        invariant
            i <= b.len(),
            r@ =~= b@.take(i as int),
        decreases b.len() - i,
    {
        r.push(b[i]);
        i = i + 1;
    }
    proof {
        assert(r@ =~= b@);
    }
    r
}

} // verus!
