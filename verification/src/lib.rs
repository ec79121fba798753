//! An in-process typed heterogeneous table store.
//!
//! A single [`storage::Storage`] holds entries of many different value
//! types, addressed by a numeric table identifier plus a per-table key.
//! Values are erased into a tagged canonical byte encoding before they
//! reach the store, and recovered through a tag-checked downcast.

pub mod codec;
pub mod erase;
pub mod laws;
pub mod storage;
