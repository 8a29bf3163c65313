//! Trusted interface to the hash maps backing the engine's two stores.
//!
//! The engine keeps its account ledger and its dispute index in
//! `rustc_hash::FxHashMap`, the standard library's `HashMap` built with
//! rustc-hash's deterministic `FxHasher`.  Verus gives unconditional map
//! semantics only to hash maps using the standard random hasher, so the few
//! operations the engine needs stand here as trusted wrappers.  Each contract
//! states ordinary map semantics, which hold because `FxHasher` is a
//! deterministic hasher and the keys are plain integers with the standard
//! derived equality and hash.

use vstd::prelude::*;

use rustc_hash::FxHashMap;

use crate::engine::ClientData;
use crate::transaction::DisputableTransaction;

verus! {

/// rustc-hash's `FxBuildHasher`, the hasher builder of `FxHashMap`; declared
/// so such maps can stand in verified signatures and fields.
#[verifier::external_type_specification]
#[verifier::external_body]
pub struct ExFxBuildHasher(rustc_hash::FxBuildHasher);

/// Relies on `HashMap::default`: a freshly built map is empty.
#[verifier::external_body]
pub(crate) fn account_map_new() -> (m: FxHashMap<u16, ClientData>)
    ensures
        forall|k: u16| !(#[trigger] m@.contains_key(k)),
{
    FxHashMap::default()
}

/// Relies on `HashMap::get`: returns the value stored under the key, if any.
#[verifier::external_body]
pub(crate) fn account_map_get(m: &FxHashMap<u16, ClientData>, k: u16) -> (r: Option<ClientData>)
    ensures
        (match r {
            Some(v) => m@.contains_key(k) && m@[k] == v,
            None => !m@.contains_key(k),
        }),
{
    m.get(&k).copied()
}

/// Relies on `HashMap::insert`: stores the value under the key, replacing any
/// earlier entry.
#[verifier::external_body]
pub(crate) fn account_map_insert(m: &mut FxHashMap<u16, ClientData>, k: u16, v: ClientData)
    ensures
        final(m)@ == old(m)@.insert(k, v),
{
    m.insert(k, v);
}

/// Relies on `HashMap::default`: a freshly built map is empty.
#[verifier::external_body]
pub(crate) fn dispute_map_new() -> (m: FxHashMap<u32, DisputableTransaction>)
    ensures
        forall|k: u32| !(#[trigger] m@.contains_key(k)),
{
    FxHashMap::default()
}

/// Relies on `HashMap::get`: returns the value stored under the key, if any.
#[verifier::external_body]
pub(crate) fn dispute_map_get(m: &FxHashMap<u32, DisputableTransaction>, k: u32) -> (r: Option<
    DisputableTransaction,
>)
    ensures
        (match r {
            Some(v) => m@.contains_key(k) && m@[k] == v,
            None => !m@.contains_key(k),
        }),
{
    m.get(&k).copied()
}

/// Relies on `HashMap::insert`: stores the value under the key, replacing any
/// earlier entry.
#[verifier::external_body]
pub(crate) fn dispute_map_insert(
    m: &mut FxHashMap<u32, DisputableTransaction>,
    k: u32,
    v: DisputableTransaction,
)
    ensures
        final(m)@ == old(m)@.insert(k, v),
{
    m.insert(k, v);
}

} // verus!
