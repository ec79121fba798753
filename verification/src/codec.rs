//! Canonical byte encodings for the key and value types the library
//! ships, produced by a structured textual encoding so that heterogeneous
//! key types can share one map's key space.

use vstd::prelude::*;
use crate::erase::{Internal, TableKey, TableValue};

verus! {

/// The decimal digits of `n`, most significant first, as ASCII bytes.
pub open spec fn dec_of(n: nat) -> Seq<u8>
    decreases n,
{
    if n < 10 {
        seq![(48 + n) as u8]
    } else {
        dec_of(n / 10).push((48 + n % 10) as u8)
    }
}

/// The four bytes `null`: the canonical encoding of the unit key.
pub open spec fn null_bytes() -> Seq<u8> {
    seq![110u8, 117u8, 108u8, 108u8]
}

/// What a byte blob parses to as an unsigned 64-bit number, if anything.
pub uninterp spec fn u64_of_json(b: Seq<u8>) -> Option<u64>;

/// The canonical encoded form of a character string.
pub uninterp spec fn json_of_str(s: Seq<char>) -> Seq<u8>;

/// What a byte blob parses to as a character string, if anything.
pub uninterp spec fn str_of_json(b: Seq<u8>) -> Option<Seq<char>>;

/// Relies on serde_json::to_vec on u64: a number serializes as its plain
/// decimal digits, it cannot fail, and serde_json reads its own output
/// back as the same number.
#[verifier::external_body]
fn encode_u64(v: u64) -> (r: Vec<u8>)
    ensures
        r@ == dec_of(v as nat),
        u64_of_json(r@) == Some(v),
{
    serde_json::to_vec(&v).unwrap()
}

/// Relies on serde_json::from_slice on u64: the parse depends on the bytes
/// alone, and fails exactly when they are not the encoding of a number
/// that fits.
#[verifier::external_body]
fn decode_u64(b: &[u8]) -> (r: Option<u64>)
    ensures
        r == u64_of_json(b@),
{
    serde_json::from_slice(b).ok()
}

/// Relies on serde_json::to_vec on (): the unit value serializes as the
/// four bytes `null` and cannot fail.
#[verifier::external_body]
fn encode_unit(v: &()) -> (r: Vec<u8>)
    ensures
        r@ == null_bytes(),
{
    serde_json::to_vec(v).unwrap()
}

/// Relies on serde_json::to_vec on String: the encoding depends on the
/// characters alone, it cannot fail on valid UTF-8, and serde_json reads
/// its own output back as the same string.
#[verifier::external_body]
fn encode_str(s: &String) -> (r: Vec<u8>)
    ensures
        r@ == json_of_str(s@),
        str_of_json(r@) == Some(s@),
{
    serde_json::to_vec(s).unwrap()
}

/// Relies on serde_json::from_slice on String: the parse depends on the
/// bytes alone, and fails exactly when they are not an encoded string.
#[verifier::external_body]
fn decode_str(b: &[u8]) -> (r: Option<String>)
    ensures
        match r {
            Some(s) => str_of_json(b@) == Some(s@),
            None => str_of_json(b@) is None,
        },
{
    serde_json::from_slice(b).ok()
}

impl TableKey for u64 {
    open spec fn encoded_key(&self) -> Seq<u8> {
        dec_of(*self as nat)
    }

    fn encode_key(&self) -> (r: Vec<u8>) {
        encode_u64(*self)
    }
}

impl TableKey for () {
    open spec fn encoded_key(&self) -> Seq<u8> {
        null_bytes()
    }

    fn encode_key(&self) -> (r: Vec<u8>) {
        encode_unit(self)
    }
}

impl TableKey for String {
    open spec fn encoded_key(&self) -> Seq<u8> {
        json_of_str(self@)
    }

    fn encode_key(&self) -> (r: Vec<u8>) {
        encode_str(self)
    }
}

impl TableValue for u64 {
    open spec fn tag() -> u64 {
        1
    }

    open spec fn encoding(w: u64) -> Seq<u8> {
        dec_of(w as nat)
    }

    open spec fn decoded(b: Seq<u8>) -> Option<u64> {
        u64_of_json(b)
    }

    fn type_tag(_token: Internal) -> (r: u64) {
        1
    }

    fn to_bytes(&self) -> (r: Vec<u8>) {
        encode_u64(*self)
    }

    fn from_bytes(bytes: &[u8]) -> (r: Option<u64>) {
        decode_u64(bytes)
    }
}

impl TableValue for String {
    open spec fn tag() -> u64 {
        2
    }

    open spec fn encoding(w: Seq<char>) -> Seq<u8> {
        json_of_str(w)
    }

    open spec fn decoded(b: Seq<u8>) -> Option<Seq<char>> {
        str_of_json(b)
    }

    fn type_tag(_token: Internal) -> (r: u64) {
        2
    }

    fn to_bytes(&self) -> (r: Vec<u8>) {
        encode_str(self)
    }

    fn from_bytes(bytes: &[u8]) -> (r: Option<String>) {
        decode_str(bytes)
    }
}

} // verus!
