//! The store's laws: what the accessor contracts add up to, stated and
//! proved once over the store's mathematical model.

use vstd::prelude::*;
use crate::erase::{round_trips, TableValue};
use crate::storage::{
    borrow_view, hydrated, store_put, store_put_cached, EntryModel, StoreModel,
};

verus! {

/// Round trip: a put of a storable value, followed by a borrow of the same
/// entry, yields that value back.
pub proof fn lemma_round_trip<V: TableValue>(s: StoreModel, ek: EntryModel, w: V::V)
    requires
        round_trips::<V>(w),
    ensures
        ({
            let s1 = store_put::<V>(s, ek, w);
            let s2 = hydrated::<V>(s1, ek);
            s2 == s1 && borrow_view::<V>(s2, ek) == Some(w)
        }),
{
}

/// Overwrite: after two puts at the same entry, a borrow yields the second
/// value, never the first.
pub proof fn lemma_overwrite<V: TableValue>(s: StoreModel, ek: EntryModel, w1: V::V, w2: V::V)
    requires
        round_trips::<V>(w2),
    ensures
        ({
            let s2 = store_put::<V>(store_put::<V>(s, ek, w1), ek, w2);
            let s3 = hydrated::<V>(s2, ek);
            borrow_view::<V>(s3, ek) == Some(w2) && (w1 != w2 ==> borrow_view::<V>(s3, ek)
                != Some(w1))
        }),
{
}

/// Type isolation: entries are keyed by table identifier and encoded key
/// jointly, so tables with distinct identifiers never collide, even when
/// their encoded keys coincide byte for byte.
pub proof fn lemma_type_isolation<V1: TableValue, V2: TableValue>(
    s: StoreModel,
    id1: u64,
    id2: u64,
    key_bytes: Seq<u8>,
    w1: V1::V,
    w2: V2::V,
)
    requires
        id1 != id2,
        round_trips::<V1>(w1),
        round_trips::<V2>(w2),
    ensures
        ({
            let ek1 = EntryModel { id: id1, key: key_bytes };
            let ek2 = EntryModel { id: id2, key: key_bytes };
            let s2 = store_put::<V2>(store_put::<V1>(s, ek1, w1), ek2, w2);
            borrow_view::<V1>(s2, ek1) == Some(w1) && borrow_view::<V2>(s2, ek2) == Some(w2)
        }),
{
}

/// Lazy hydrate: after a put, a store whose live cache is cleared but
/// whose backing store is kept still yields the value on borrow, revived
/// from the backing store.
pub proof fn lemma_lazy_hydrate<V: TableValue>(s: StoreModel, ek: EntryModel, w: V::V)
    requires
        round_trips::<V>(w),
    ensures
        ({
            let s1 = store_put::<V>(s, ek, w);
            let cold = StoreModel { cache: Map::empty(), db: s1.db };
            let s2 = hydrated::<V>(cold, ek);
            s2.cache.contains_key(ek) && borrow_view::<V>(s2, ek) == Some(w)
        }),
{
}

/// Mutation non-propagation: a cache-only write after a put is seen by a
/// warm borrow but leaves the backing store alone, so a cold borrow
/// (cleared cache, kept backing store) still yields the originally put
/// value, until an explicit put writes through.
pub proof fn lemma_mutation_non_propagation<V: TableValue>(
    s: StoreModel,
    ek: EntryModel,
    w: V::V,
    w2: V::V,
)
    requires
        round_trips::<V>(w),
        round_trips::<V>(w2),
    ensures
        ({
            let s1 = store_put::<V>(s, ek, w);
            let s2 = store_put_cached::<V>(s1, ek, w2);
            let cold = StoreModel { cache: Map::empty(), db: s2.db };
            let s3 = hydrated::<V>(cold, ek);
            s2.db == s1.db && borrow_view::<V>(s2, ek) == Some(w2) && borrow_view::<V>(s3, ek)
                == Some(w)
        }),
{
}

} // verus!
