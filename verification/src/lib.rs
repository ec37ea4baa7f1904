//! Dynamically typed keys for associative containers.
//!
//! A hash map or an ordered map normally fixes one concrete key type at
//! compile time.  This crate supplies erased key handles that let one
//! container hold keys of many concrete types at once: every concrete type
//! is named by a process-wide unique `u64` tag, and a handle pairs that tag
//! with the payload bytes that stand for the concrete value.
//!
//! Erased operations first compare tags.  Equality holds only when the tags
//! match and the payloads agree; ordering delegates to the payload order on
//! a tag match and falls back to the tag order otherwise, which makes the
//! erased comparison a total order over handles of arbitrarily mixed types.
//! Hashing feeds the pair (tag, payload) to the accumulator, so equal
//! handles hash alike while byte-identical payloads of different types are
//! free to differ.
//!
//! The capability interfaces `AnyHash` and `AnyOrd` state these rules as
//! contracts; the handle types `HashKey` and `OrdKey` implement them.  No
//! container is provided here: the handles are keys for externally
//! supplied maps.  Assigning tags to concrete types (one tag per type,
//! the same tag for the same type) is the caller's side of the contract.

pub mod byte_order;
pub mod hash_key;
pub mod hasher;
pub mod model;
pub mod ord_key;
pub mod render;
