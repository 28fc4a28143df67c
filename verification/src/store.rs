//! The outside types that hold the cached files (`dashmap::DashMap` and
//! `bytes::Bytes`), and the calls the cache makes on them. Each item here is
//! trusted: its contract restates what the outside crate's source does.
use vstd::prelude::*;
use bytes::Bytes;
use dashmap::DashMap;
use std::sync::Arc;

verus! {

#[verifier::external_type_specification]
#[verifier::external_body]
pub struct ExBytes(Bytes);

#[verifier::external_type_specification]
#[verifier::external_body]
#[verifier::reject_recursive_types(K)]
#[verifier::reject_recursive_types(V)]
#[verifier::reject_recursive_types(S)]
pub struct ExDashMap<K, V, S>(DashMap<K, V, S>);

/// One cached file: its bytes, their number, and the logical time of its last use.
pub struct CacheEntry {
    pub data: Arc<Bytes>,
    pub size_bytes: usize,
    pub last_accessed: u64,
}

/// What a stored entry stands for: (bytes, size in bytes, logical time of last use).
pub open spec fn entry_view(e: CacheEntry) -> (Seq<u8>, usize, u64) {
    (bytes_contents(*e.data), e.size_bytes, e.last_accessed)
}

/// The bytes a `Bytes` buffer holds.
pub uninterp spec fn bytes_contents(b: Bytes) -> Seq<u8>;

/// The entries a map of cached files holds, keyed by file id.
pub uninterp spec fn stored_entries(m: DashMap<String, CacheEntry>) -> Map<Seq<char>, (Seq<u8>, usize, u64)>;

/// `Bytes::from(Vec<u8>)` takes over the vector's buffer: the result holds exactly
/// the vector's bytes.
#[verifier::external_body]
pub(crate) fn bytes_from_vec(v: Vec<u8>) -> (b: Bytes)
    ensures
        bytes_contents(b) == v@,
{
    Bytes::from(v)
}

/// `Arc::clone` gives another pointer to the same buffer, so the pointee is unchanged.
#[verifier::external_body]
pub(crate) fn share_bytes(a: &Arc<Bytes>) -> (r: Arc<Bytes>)
    ensures
        *r == **a,
{
    Arc::clone(a)
}

/// `DashMap::new` makes a map with no entries.
#[verifier::external_body]
pub(crate) fn store_new() -> (r: DashMap<String, CacheEntry>)
    ensures
        stored_entries(r) =~= Map::empty(),
{
    DashMap::new()
}

/// `DashMap::contains_key` tells whether an entry is stored under the key.
#[verifier::external_body]
pub(crate) fn store_contains(m: &DashMap<String, CacheEntry>, key: &str) -> (r: bool)
    ensures
        r == stored_entries(*m).contains_key(key@),
{
    m.contains_key(key)
}

/// `DashMap::get` finds the entry stored under the key; the entry handed back is a
/// field-by-field copy of it (the buffer is shared through `Arc::clone`).
#[verifier::external_body]
pub(crate) fn store_get(m: &DashMap<String, CacheEntry>, key: &str) -> (r: Option<CacheEntry>)
    ensures
        r is Some <==> stored_entries(*m).contains_key(key@),
        r matches Some(e) ==> entry_view(e) == stored_entries(*m)[key@],
{
    m.get(key).map(|e| CacheEntry {
        data: Arc::clone(&e.data),
        size_bytes: e.size_bytes,
        last_accessed: e.last_accessed,
    })
}

/// `DashMap::insert` stores the entry under the key, replacing and handing back the
/// entry stored there before, if any.
#[verifier::external_body]
pub(crate) fn store_insert(m: &mut DashMap<String, CacheEntry>, key: String, e: CacheEntry) -> (r: Option<CacheEntry>)
    ensures
        stored_entries(*final(m)) == stored_entries(*old(m)).insert(key@, entry_view(e)),
        r is Some <==> stored_entries(*old(m)).contains_key(key@),
        r matches Some(o) ==> entry_view(o) == stored_entries(*old(m))[key@],
{
    m.insert(key, e)
}

/// `DashMap::remove` takes the entry stored under the key out of the map and hands
/// back the key and the entry, or `None` when no entry was stored there.
#[verifier::external_body]
pub(crate) fn store_remove(m: &mut DashMap<String, CacheEntry>, key: &str) -> (r: Option<(String, CacheEntry)>)
    ensures
        stored_entries(*final(m)) == stored_entries(*old(m)).remove(key@),
        r is Some <==> stored_entries(*old(m)).contains_key(key@),
        r matches Some((k, e)) ==> k@ == key@ && entry_view(e) == stored_entries(*old(m))[key@],
{
    m.remove(key)
}

/// `DashMap::iter`, with each entry mapped to its key and its time of last use: every
/// entry of the map is visited once, in an order the source leaves open.
#[verifier::external_body]
pub(crate) fn store_access_times(m: &DashMap<String, CacheEntry>) -> (r: Vec<(String, u64)>)
    ensures
        forall|i: int| 0 <= i < r@.len() ==> {
            &&& stored_entries(*m).contains_key(#[trigger] r@[i].0@)
            &&& stored_entries(*m)[r@[i].0@].2 == r@[i].1
        },
        forall|k: Seq<char>| #[trigger] stored_entries(*m).contains_key(k) ==>
            exists|i: int| 0 <= i < r@.len() && #[trigger] r@[i].0@ == k,
{
    m.iter().map(|e| (e.key().clone(), e.last_accessed)).collect()
}

} // verus!
