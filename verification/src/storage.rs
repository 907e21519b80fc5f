//! The persistence layer: one `u8` kept under one key of a key-value store.
//!
//! The store itself comes from the host framework (`cosmwasm_std`), and the
//! typed accessors come from `cw_storage_plus`. Both are reached only through
//! the trusted items below; everything else in the crate is verified against
//! their contracts. The store's contents are modelled by `stored_values`, a
//! map from storage key to the `u8` its bytes decode to.

use vstd::prelude::*;

use cosmwasm_std::testing::MockStorage;
use cw_storage_plus::Item;

use crate::error::ContractError;

verus! {

#[verifier::external_type_specification]
#[verifier::external_body]
pub struct ExMockStorage(MockStorage);

/// The `u8` values that `cw_storage_plus::Item` can read back out of the
/// store: one for each storage key whose bytes are the JSON encoding of a
/// byte, keyed by the storage key as a string. Keys holding anything else
/// are absent from this map.
pub uninterp spec fn stored_values(s: MockStorage) -> Map<Seq<char>, u8>;

/// Whether the counter's own key is clean: either no bytes sit under
/// `counter_key()`, or the bytes there are the JSON encoding of a byte, so
/// that a typed read cannot fail. A fresh store satisfies this, and every
/// write this crate makes preserves it.
pub uninterp spec fn counter_decodes(s: MockStorage) -> bool;

/// The one storage key the counter lives under.
pub open spec fn counter_key() -> Seq<char> {
    "value"@
}

/// A view with no entries: what a fresh store holds.
pub open spec fn empty_view() -> Map<Seq<char>, u8> {
    Map::empty()
}

/// The counter a key-value view holds: the entry under `counter_key()`,
/// if there is one.
pub open spec fn counter_of(m: Map<Seq<char>, u8>) -> Option<u8> {
    if m.contains_key(counter_key()) {
        Some(m[counter_key()])
    } else {
        None
    }
}

/// The counter as the store holds it.
pub open spec fn counter_state(s: MockStorage) -> Option<u8> {
    counter_of(stored_values(s))
}

/// What a read from a clean store returns: the stored counter, wrapped in
/// `Ok`.
pub open spec fn load_ok(s: MockStorage) -> Result<Option<u8>, ContractError> {
    Ok(counter_state(s))
}

/// Relies on `cosmwasm_std::testing::MockStorage::new`: the store starts
/// with no entries at all.
#[verifier::external_body]
pub(crate) fn storage_new() -> (s: MockStorage)
    ensures
        stored_values(s) == empty_view(),
        counter_decodes(s),
{
    MockStorage::new()
}

/// Relies on `cw_storage_plus::Item::save` under the key `"value"`: it
/// stores the JSON encoding of `v` (one to three digit bytes, never empty,
/// so the in-memory store accepts the write) and leaves every other key
/// alone.
#[verifier::external_body]
pub(crate) fn counter_save(store: &mut MockStorage, v: u8) -> (r: Result<(), ContractError>)
    ensures
        r is Ok,
        stored_values(*final(store)) == stored_values(*old(store)).insert(counter_key(), v),
        counter_decodes(*final(store)),
{
    match Item::<u8>::new("value").save(store, &v) {
        Ok(()) => Ok(()),
        Err(_) => Err(ContractError::StorageError),
    }
}

/// Relies on `cw_storage_plus::Item::may_load` under the key `"value"`: it
/// returns the decoded value under the key, `None` when the key is absent,
/// and an error only when bytes sit there that do not decode as a `u8`.
#[verifier::external_body]
pub(crate) fn counter_may_load(store: &MockStorage) -> (r: Result<Option<u8>, ContractError>)
    ensures
        counter_decodes(*store) ==> r == load_ok(*store),
{
    match Item::<u8>::new("value").may_load(store) {
        Ok(v) => Ok(v),
        Err(_) => Err(ContractError::StorageError),
    }
}

} // verus!
