//! The type-erasure layer: the capability set a storable value must
//! provide, and the tagged erased representation the store holds.
//!
//! A storable value is erased into a [`StoredValue`]: its canonical byte
//! encoding together with a numeric tag recorded for its concrete type at
//! construction. Recovery goes through a downcast that first checks the
//! recorded tag against the requested type's tag, so a mismatched request
//! yields absence, never a value of the wrong type.

use vstd::prelude::*;

verus! {

/// Marker token passed to [`TableValue::type_tag`]: the tag method takes it
/// so that its role as an internal bookkeeping hook stays visible at every
/// call site.
pub struct Internal;

/// The capability set of a table key: a canonical byte encoding.
///
/// Two key values with the same encoding address the same entry; the store
/// never needs to decode a key, so no decoding capability is asked for.
pub trait TableKey {
    /// The canonical byte encoding of this key value.
    spec fn encoded_key(&self) -> Seq<u8>;

    /// Produces the canonical byte encoding of this key value.
    fn encode_key(&self) -> (r: Vec<u8>)
        ensures
            r@ == self.encoded_key(),
    ;
}

/// The capability set of a storable value: a per-type tag, a canonical
/// byte encoding, and a decoder that inverts it.
///
/// The library assigns each implementing type a distinct tag; two distinct
/// implementations must never share one, since the tag is all that tells
/// their erased values apart.
pub trait TableValue: View + Sized {
    /// The tag recorded for this type when one of its values is erased.
    spec fn tag() -> u64;

    /// The canonical byte encoding of a value whose view is `w`.
    spec fn encoding(w: Self::V) -> Seq<u8>;

    /// What a byte blob decodes to as this type, if anything.
    spec fn decoded(b: Seq<u8>) -> Option<Self::V>;

    /// Produces this type's tag.
    fn type_tag(token: Internal) -> (r: u64)
        ensures
            r == Self::tag(),
    ;

    /// Produces the canonical byte encoding of this value; the encoding
    /// always decodes back to the value it came from.
    fn to_bytes(&self) -> (r: Vec<u8>)
        ensures
            r@ == Self::encoding(self@),
            Self::decoded(r@) == Some(self@),
    ;

    /// Decodes a byte blob as this type, or reports that it does not parse.
    fn from_bytes(bytes: &[u8]) -> (r: Option<Self>)
        ensures
            match r {
                Some(v) => Self::decoded(bytes@) == Some(v@),
                None => Self::decoded(bytes@) is None,
            },
    ;
}

/// A value of a storable type round-trips: decoding its canonical encoding
/// gives the value back. [`TableValue::to_bytes`] establishes this for
/// every value it is ever called on.
pub open spec fn round_trips<V: TableValue>(w: V::V) -> bool {
    V::decoded(V::encoding(w)) == Some(w)
}

/// The mathematical content of an erased value: the recorded type tag and
/// the held bytes.
pub ghost struct StoredModel {
    pub tag: u64,
    pub bytes: Seq<u8>,
}

/// An ownership-erased storable value: the canonical byte encoding of some
/// value, tagged with the concrete type it was erased from.
pub struct StoredValue {
    tag: u64,
    bytes: Vec<u8>,
}

impl View for StoredValue {
    type V = StoredModel;

    closed spec fn view(&self) -> StoredModel {
        StoredModel { tag: self.tag, bytes: self.bytes@ }
    }
}

impl StoredValue {
    /// Erases a typed value: records the type's tag beside the value's
    /// canonical encoding.
    pub fn erase<T: TableValue>(value: &T) -> (r: StoredValue)
        ensures
            r@ == (StoredModel { tag: T::tag(), bytes: T::encoding(value@) }),
            round_trips::<T>(value@),
    {
        StoredValue { tag: T::type_tag(Internal), bytes: value.to_bytes() }
    }

    /// True iff this value was erased from `T`, judged by the recorded tag.
    pub fn is<T: TableValue>(&self) -> (r: bool)
        ensures
            r == (self@.tag == T::tag()),
    {
        self.tag == T::type_tag(Internal)
    }

    /// Recovers the typed value iff `is::<T>()` and the held bytes decode
    /// as `T`; a mismatched tag or an undecodable blob yields `None`.
    pub fn downcast_ref<T: TableValue>(&self) -> (r: Option<T>)
        ensures
            self@.tag != T::tag() ==> r is None,
            self@.tag == T::tag() ==> match r {
                Some(v) => T::decoded(self@.bytes) == Some(v@),
                None => T::decoded(self@.bytes) is None,
            },
    {
        if self.is::<T>() {
            T::from_bytes(self.bytes.as_slice())
        } else {
            None
        }
    }

    /// The write counterpart of [`Self::downcast_ref`]: overwrites the held
    /// value with `value` iff `is::<T>()`, and reports whether it did.
    pub fn downcast_mut<T: TableValue>(&mut self, value: &T) -> (r: bool)
        ensures
            r == (old(self)@.tag == T::tag()),
            r ==> final(self)@ == (StoredModel { tag: T::tag(), bytes: T::encoding(value@) })
                && round_trips::<T>(value@),
            !r ==> final(self)@ == old(self)@,
    {
        if self.is::<T>() {
            self.bytes = value.to_bytes();
            true
        } else {
            false
        }
    }
}

} // verus!
