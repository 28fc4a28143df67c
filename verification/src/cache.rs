//! An in-memory cache of small files, bounded in total size, that makes room for
//! a new file by dropping the files used least recently.
//!
//! Recency is kept as a logical clock: every lookup that hits and every insertion
//! stamps the entry with the clock's current value and advances the clock, so a
//! smaller stamp always means an older use.
use vstd::prelude::*;
use bytes::Bytes;
use dashmap::DashMap;
use std::sync::Arc;
use crate::store::{
    CacheEntry, bytes_contents, bytes_from_vec, entry_view, share_bytes, store_access_times,
    store_contains, store_get, store_insert, store_new, store_remove, stored_entries,
};

verus! {

/// Cached files by id: (bytes, size in bytes, logical time of last use).
pub type CacheEntries = Map<Seq<char>, (Seq<u8>, usize, u64)>;

/// The number of bytes in one mebibyte.
pub const BYTES_PER_MB: usize = 1048576;

/// The sum of the sizes of all entries.
pub open spec fn total_size(m: CacheEntries) -> nat
    decreases m.dom().len(),
    when m.dom().finite()
{
    if m.dom().len() == 0 {
        0
    } else {
        let k = m.dom().choose();
        m[k].1 as nat + total_size(m.remove(k))
    }
}

/// The largest file the cache takes: a fifth (20%) of its capacity.
pub open spec fn max_entry_size(capacity: nat) -> nat {
    capacity / 5
}

/// `k` is an entry whose last use is no later than that of any other entry.
pub open spec fn is_oldest(m: CacheEntries, k: Seq<char>) -> bool {
    &&& m.contains_key(k)
    &&& forall|j: Seq<char>| #[trigger] m.contains_key(j) ==> m[k].2 <= m[j].2
}

/// The least recently used entry.
pub open spec fn oldest(m: CacheEntries) -> Seq<char> {
    choose|k: Seq<char>| is_oldest(m, k)
}

/// What is left of `m` after dropping least recently used entries, one at a time,
/// until `incoming` more bytes fit within `capacity` or nothing is left.
pub open spec fn evict_for(m: CacheEntries, incoming: nat, capacity: nat) -> CacheEntries
    decreases m.dom().len(),
    when m.dom().finite()
{
    if m.dom().len() == 0 || total_size(m) + incoming <= capacity {
        m
    } else {
        proof {
            lemma_oldest_exists(m);
        }
        evict_for(m.remove(oldest(m)), incoming, capacity)
    }
}

/// No two entries were last used at the same logical time.
pub open spec fn distinct_stamps(m: CacheEntries) -> bool {
    forall|a: Seq<char>, b: Seq<char>|
        #[trigger] m.contains_key(a) && #[trigger] m.contains_key(b) && a != b ==> m[a].2 != m[b].2
}

/// The abstract state of a cache.
pub struct CacheView {
    pub entries: CacheEntries,
    /// Bytes currently held.
    pub used: nat,
    /// Bytes the cache may hold at most.
    pub capacity: nat,
    /// The logical time the next use is stamped with.
    pub clock: nat,
}

impl CacheView {
    /// The cache's invariant: finitely many entries, each recording its own size,
    /// none larger than a fifth of the capacity, each stamped before the clock and
    /// with distinct stamps; `used` is the sum of the sizes and within capacity.
    pub open spec fn valid(self) -> bool {
        &&& self.entries.dom().finite()
        &&& forall|k: Seq<char>| #[trigger] self.entries.contains_key(k) ==> {
            &&& self.entries[k].1 == self.entries[k].0.len()
            &&& self.entries[k].1 <= max_entry_size(self.capacity)
            &&& self.entries[k].2 < self.clock
        }
        &&& distinct_stamps(self.entries)
        &&& self.used == total_size(self.entries)
        &&& self.used <= self.capacity
        &&& self.clock <= u64::MAX
    }
}

/// Dropping one entry lowers the total by that entry's size.
pub proof fn lemma_total_size_remove(m: CacheEntries, k: Seq<char>)
    requires
        m.dom().finite(),
        m.contains_key(k),
    ensures
        total_size(m) == m[k].1 + total_size(m.remove(k)),
    decreases m.dom().len(),
{
    let c = m.dom().choose();
    if c != k {
        lemma_total_size_remove(m.remove(c), k);
        lemma_total_size_remove(m.remove(k), c);
        assert(m.remove(c).remove(k) =~= m.remove(k).remove(c));
    }
}

/// Adding an entry under a new key raises the total by that entry's size.
pub proof fn lemma_total_size_insert(m: CacheEntries, k: Seq<char>, v: (Seq<u8>, usize, u64))
    requires
        m.dom().finite(),
        !m.contains_key(k),
    ensures
        total_size(m.insert(k, v)) == total_size(m) + v.1,
{
    lemma_total_size_remove(m.insert(k, v), k);
    assert(m.insert(k, v).remove(k) =~= m);
}

/// A map with no entries has total size zero.
pub proof fn lemma_total_size_empty(m: CacheEntries)
    requires
        m.dom().finite(),
        m.dom().len() == 0,
    ensures
        total_size(m) == 0,
{
}

/// A finite map with entries has a least recently used one.
pub proof fn lemma_oldest_exists(m: CacheEntries)
    requires
        m.dom().finite(),
        m.dom().len() > 0,
    ensures
        exists|k: Seq<char>| is_oldest(m, k),
        is_oldest(m, oldest(m)),
    decreases m.dom().len(),
{
    let c = m.dom().choose();
    let rest = m.remove(c);
    if rest.dom().len() == 0 {
        assert forall|j: Seq<char>| #[trigger] m.contains_key(j) implies m[c].2 <= m[j].2 by {
            if j != c {
                assert(rest.contains_key(j));
            }
        }
        assert(is_oldest(m, c));
    } else {
        lemma_oldest_exists(rest);
        let k = oldest(rest);
        if m[c].2 <= m[k].2 {
            assert forall|j: Seq<char>| #[trigger] m.contains_key(j) implies m[c].2 <= m[j].2 by {
                if j != c {
                    assert(rest.contains_key(j));
                }
            }
            assert(is_oldest(m, c));
        } else {
            assert forall|j: Seq<char>| #[trigger] m.contains_key(j) implies m[k].2 <= m[j].2 by {
                if j != c {
                    assert(rest.contains_key(j));
                }
            }
            assert(is_oldest(m, k));
        }
    }
}

/// With distinct stamps there is only one least recently used entry.
pub proof fn lemma_oldest_unique(m: CacheEntries, k: Seq<char>)
    requires
        m.dom().finite(),
        distinct_stamps(m),
        is_oldest(m, k),
    ensures
        oldest(m) == k,
{
    lemma_oldest_exists(m);
    let o = oldest(m);
    if o != k {
        assert(m[o].2 <= m[k].2);
        assert(m[k].2 <= m[o].2);
    }
}

/// Eviction only drops entries: what is left is a part of what was there.
pub proof fn lemma_evict_submap(m: CacheEntries, incoming: nat, capacity: nat)
    requires
        m.dom().finite(),
    ensures
        evict_for(m, incoming, capacity).dom().finite(),
        evict_for(m, incoming, capacity).submap_of(m),
    decreases m.dom().len(),
{
    if !(m.dom().len() == 0 || total_size(m) + incoming <= capacity) {
        lemma_oldest_exists(m);
        lemma_evict_submap(m.remove(oldest(m)), incoming, capacity);
    }
}

/// Eviction drops least recently used entries first: every entry it drops was
/// last used before every entry it keeps.
pub proof fn lemma_evict_drops_oldest_first(m: CacheEntries, incoming: nat, capacity: nat)
    requires
        m.dom().finite(),
        distinct_stamps(m),
    ensures
        forall|gone: Seq<char>, kept: Seq<char>|
            #![trigger m.contains_key(gone), evict_for(m, incoming, capacity).contains_key(kept)]
            m.contains_key(gone) && !evict_for(m, incoming, capacity).contains_key(gone)
                && evict_for(m, incoming, capacity).contains_key(kept) ==> m[gone].2 < m[kept].2,
    decreases m.dom().len(),
{
    let result = evict_for(m, incoming, capacity);
    if !(m.dom().len() == 0 || total_size(m) + incoming <= capacity) {
        lemma_oldest_exists(m);
        let o = oldest(m);
        let rest = m.remove(o);
        lemma_evict_drops_oldest_first(rest, incoming, capacity);
        lemma_evict_submap(rest, incoming, capacity);
        assert(result == evict_for(rest, incoming, capacity));
        assert forall|gone: Seq<char>, kept: Seq<char>|
            m.contains_key(gone) && !result.contains_key(gone) && result.contains_key(kept)
            implies m[gone].2 < m[kept].2 by {
            assert(rest.contains_key(kept));
            if gone == o {
                assert(m.contains_key(kept));
                assert(m[o].2 <= m[kept].2);
                assert(kept != o);
            } else {
                assert(rest.contains_key(gone));
            }
        }
    }
}

/// After eviction the incoming bytes fit, unless they could not fit even in an
/// empty cache.
pub proof fn lemma_evict_makes_room(m: CacheEntries, incoming: nat, capacity: nat)
    requires
        m.dom().finite(),
        incoming <= capacity,
    ensures
        total_size(evict_for(m, incoming, capacity)) + incoming <= capacity,
    decreases m.dom().len(),
{
    if m.dom().len() == 0 {
        lemma_total_size_empty(m);
    } else if total_size(m) + incoming > capacity {
        lemma_oldest_exists(m);
        lemma_evict_makes_room(m.remove(oldest(m)), incoming, capacity);
    }
}

/// Eviction happens only when it must: when the incoming bytes already fit,
/// nothing is dropped.
pub proof fn law_no_eviction_when_room(m: CacheEntries, incoming: nat, capacity: nat)
    requires
        m.dom().finite(),
        total_size(m) + incoming <= capacity,
    ensures
        evict_for(m, incoming, capacity) == m,
{
}

/// A file the cache took is found by the next lookup of its id, with the bytes
/// it was given.
pub proof fn law_lookup_after_insert(before: CacheView, after: CacheView, id: Seq<char>, data: Seq<u8>)
    requires
        after.entries == evict_for(before.entries, data.len(), before.capacity).insert(
            id,
            (data, data.len() as usize, before.clock as u64),
        ),
    ensures
        after.entries.contains_key(id),
        after.entries[id].0 == data,
{
}

/// A file dropped from the cache is not found by a lookup of its id.
pub proof fn law_lookup_after_remove(before: CacheView, after: CacheView, id: Seq<char>)
    requires
        after.entries == before.entries.remove(id),
    ensures
        !after.entries.contains_key(id),
{
}

/// A lookup that hits makes the file the most recently used one: every other
/// cached file was last used before it, so it is the last to be evicted.
pub proof fn law_lookup_makes_most_recent(before: CacheView, after: CacheView, id: Seq<char>)
    requires
        before.valid(),
        before.entries.contains_key(id),
        after.entries == before.entries.insert(
            id,
            (before.entries[id].0, before.entries[id].1, before.clock as u64),
        ),
    ensures
        forall|k: Seq<char>| #[trigger] after.entries.contains_key(k) && k != id ==> after.entries[k].2
            < after.entries[id].2,
{
    assert forall|k: Seq<char>| #[trigger] after.entries.contains_key(k) && k != id implies after.entries[k].2
        < after.entries[id].2 by {
        assert(before.entries.contains_key(k));
    }
}

/// Eviction stops as soon as the incoming bytes fit: when it dropped anything,
/// keeping the last file it dropped would have left too little room.
pub proof fn law_eviction_stops_when_room(m: CacheEntries, incoming: nat, capacity: nat)
    requires
        m.dom().finite(),
        evict_for(m, incoming, capacity) != m,
    ensures
        exists|g: Seq<char>|
            #![trigger m.contains_key(g)]
            m.contains_key(g) && !evict_for(m, incoming, capacity).contains_key(g)
                && total_size(evict_for(m, incoming, capacity)) + m[g].1 + incoming > capacity,
    decreases m.dom().len(),
{
    lemma_oldest_exists(m);
    let o = oldest(m);
    let rest = m.remove(o);
    lemma_evict_submap(rest, incoming, capacity);
    if evict_for(rest, incoming, capacity) == rest {
        lemma_total_size_remove(m, o);
        assert(m.contains_key(o) && !evict_for(m, incoming, capacity).contains_key(o));
    } else {
        law_eviction_stops_when_room(rest, incoming, capacity);
        let g = choose|g: Seq<char>|
            #![trigger rest.contains_key(g)]
            rest.contains_key(g) && !evict_for(rest, incoming, capacity).contains_key(g)
                && total_size(evict_for(rest, incoming, capacity)) + rest[g].1 + incoming > capacity;
        assert(m.contains_key(g));
    }
}

/// Inserting a file drops only files that were used before every file it keeps.
pub proof fn law_insert_drops_least_recent(before: CacheView, after: CacheView, id: Seq<char>, data: Seq<u8>)
    requires
        before.valid(),
        !before.entries.contains_key(id),
        after.entries == evict_for(before.entries, data.len(), before.capacity).insert(
            id,
            (data, data.len() as usize, before.clock as u64),
        ),
    ensures
        forall|gone: Seq<char>, kept: Seq<char>|
            #![trigger before.entries.contains_key(gone), after.entries.contains_key(kept)]
            before.entries.contains_key(gone) && !after.entries.contains_key(gone)
                && before.entries.contains_key(kept) && after.entries.contains_key(kept)
                ==> before.entries[gone].2 < before.entries[kept].2,
{
    let kept_map = evict_for(before.entries, data.len(), before.capacity);
    lemma_evict_drops_oldest_first(before.entries, data.len(), before.capacity);
    assert forall|gone: Seq<char>, kept: Seq<char>|
        before.entries.contains_key(gone) && !after.entries.contains_key(gone)
            && before.entries.contains_key(kept) && after.entries.contains_key(kept)
        implies before.entries[gone].2 < before.entries[kept].2 by {
        assert(kept != id);
        assert(kept_map.contains_key(kept));
        assert(!kept_map.contains_key(gone));
    }
}

/// The per-file limit is exactly a fifth of the capacity, rounded down: five
/// times it fits in the capacity, five times one more does not.
pub proof fn law_entry_limit_is_a_fifth(capacity: nat)
    ensures
        5 * max_entry_size(capacity) <= capacity < 5 * (max_entry_size(capacity) + 1),
{
}

/// A file fits under the per-file limit exactly when five copies of it fit in
/// the capacity.
pub proof fn law_entry_fits_iff_fifth(capacity: nat, len: nat)
    ensures
        len <= max_entry_size(capacity) <==> 5 * len <= capacity,
{
}

/// A bounded cache of whole files, keyed by file id.
pub struct FileCache {
    entries: DashMap<String, CacheEntry>,
    max_size_bytes: usize,
    current_size_bytes: usize,
    clock: u64,
}

impl View for FileCache {
    type V = CacheView;

    closed spec fn view(&self) -> CacheView {
        CacheView {
            entries: stored_entries(self.entries),
            used: self.current_size_bytes as nat,
            capacity: self.max_size_bytes as nat,
            clock: self.clock as nat,
        }
    }
}

impl FileCache {
    /// Makes an empty cache that holds at most `max_size_mb` mebibytes.
    pub fn new(max_size_mb: u16) -> (cache: Self)
        requires
            max_size_mb as int * BYTES_PER_MB as int <= usize::MAX,
        ensures
            cache@.valid(),
            cache@.entries == CacheEntries::empty(),
            cache@.used == 0,
            cache@.capacity == max_size_mb as nat * BYTES_PER_MB as nat,
            cache@.clock == 0,
    {
        let entries = store_new();
        proof {
            lemma_total_size_empty(stored_entries(entries));
        }
        FileCache {
            entries,
            max_size_bytes: max_size_mb as usize * BYTES_PER_MB,
            current_size_bytes: 0,
            clock: 0,
        }
    }

    /// The largest file the cache takes: 20% of its capacity, rounded down.
    pub fn get_max_size_per_entry(&self) -> (max: usize)
        ensures
            max == max_entry_size(self@.capacity),
            5 * max <= self@.capacity < 5 * (max + 1),
    {
        self.max_size_bytes / 5
    }

    /// Looks a file up. A hit marks the file as just used.
    pub fn get(&mut self, id: &str) -> (data: Option<Arc<Bytes>>)
        requires
            old(self)@.valid(),
        ensures
            final(self)@.valid(),
            data is Some <==> old(self)@.entries.contains_key(id@),
            data matches Some(d) ==> bytes_contents(*d) == old(self)@.entries[id@].0,
            final(self)@.capacity == old(self)@.capacity,
            final(self)@.used == old(self)@.used,
            final(self)@.entries.dom() == old(self)@.entries.dom(),
            ({
                let before = old(self)@;
                let after = final(self)@;
                if before.entries.contains_key(id@) && before.clock < u64::MAX {
                    &&& after.entries == before.entries.insert(
                        id@,
                        (before.entries[id@].0, before.entries[id@].1, before.clock as u64),
                    )
                    &&& after.clock == before.clock + 1
                } else {
                    after == before
                }
            }),
    {
        let ghost before = self@;
        match store_get(&self.entries, id) {
            None => None,
            Some(entry) => {
                let shared = share_bytes(&entry.data);
                if self.clock < u64::MAX {
                    let stamp = self.clock;
                    let key = id.to_owned();
                    let _ = store_insert(
                        &mut self.entries,
                        key,
                        CacheEntry { data: entry.data, size_bytes: entry.size_bytes, last_accessed: stamp },
                    );
                    self.clock = stamp + 1;
                    proof {
                        let m = before.entries;
                        let m2 = self@.entries;
                        assert(m2 == m.insert(id@, (m[id@].0, m[id@].1, stamp)));
                        assert(m2.dom() =~= m.dom());
                        lemma_total_size_remove(m, id@);
                        lemma_total_size_remove(m2, id@);
                        assert(m.remove(id@) =~= m2.remove(id@));
                        assert forall|a: Seq<char>, b: Seq<char>|
                            #[trigger] m2.contains_key(a) && #[trigger] m2.contains_key(b) && a != b
                            implies m2[a].2 != m2[b].2 by {
                            if a != id@ && b != id@ {
                                assert(m.contains_key(a) && m.contains_key(b));
                            } else if a == id@ {
                                assert(m.contains_key(b));
                            } else {
                                assert(m.contains_key(a));
                            }
                        }
                    }
                }
                Some(shared)
            },
        }
    }

    /// The id of the least recently used file, if the cache holds any.
    fn oldest_key(&self) -> (key: Option<String>)
        requires
            self@.valid(),
        ensures
            key is None <==> self@.entries.dom().len() == 0,
            key matches Some(k) ==> self@.entries.contains_key(k@) && oldest(self@.entries) == k@,
    {
        let ghost m = self@.entries;
        let times = store_access_times(&self.entries);
        if times.len() == 0 {
            proof {
                if m.dom().len() != 0 {
                    let k = m.dom().choose();
                    assert(m.contains_key(k));
                }
            }
            return None;
        }
        let mut best: usize = 0;
        let mut i: usize = 1;
        while i < times.len()
            invariant
                1 <= i <= times@.len(),
                best < i,
                forall|j: int| 0 <= j < i ==> times@[best as int].1 <= #[trigger] times@[j].1,
            decreases times@.len() - i,
        {
            if times[i].1 < times[best].1 {
                best = i;
            }
            i = i + 1;
        }
        let key = times[best].0.clone();
        proof {
            let k = times@[best as int].0@;
            assert(m.contains_key(k));
            assert forall|j: Seq<char>| #[trigger] m.contains_key(j) implies m[k].2 <= m[j].2 by {
                let idx = choose|idx: int| 0 <= idx < times@.len() && #[trigger] times@[idx].0@ == j;
                assert(times@[idx].1 >= times@[best as int].1);
            }
            assert(is_oldest(m, k));
            lemma_oldest_unique(m, k);
            assert(m.dom().len() > 0);
        }
        Some(key)
    }

    /// Adds a file, first dropping least recently used files until it fits.
    /// Refused (returning `false`, cache unchanged) when the file is larger than a
    /// fifth of the capacity, when a file with that id is already cached, or when
    /// the logical clock is exhausted.
    pub fn insert(&mut self, id: String, data: Vec<u8>) -> (inserted: bool)
        requires
            old(self)@.valid(),
        ensures
            final(self)@.valid(),
            final(self)@.capacity == old(self)@.capacity,
            inserted == (data@.len() <= max_entry_size(old(self)@.capacity)
                && !old(self)@.entries.contains_key(id@)
                && old(self)@.clock < u64::MAX),
            inserted == (5 * data@.len() <= old(self)@.capacity
                && !old(self)@.entries.contains_key(id@)
                && old(self)@.clock < u64::MAX),
            !inserted ==> final(self)@ == old(self)@,
            inserted ==> {
                &&& final(self)@.entries == evict_for(
                    old(self)@.entries,
                    data@.len(),
                    old(self)@.capacity,
                ).insert(id@, (data@, data@.len() as usize, old(self)@.clock as u64))
                &&& final(self)@.clock == old(self)@.clock + 1
            },
    {
        let ghost before = self@;
        let entry_size = data.len();
        if entry_size > self.get_max_size_per_entry() {
            return false;
        }
        if store_contains(&self.entries, id.as_str()) {
            return false;
        }
        if self.clock == u64::MAX {
            return false;
        }
        while entry_size > self.max_size_bytes - self.current_size_bytes
            invariant
                self@.valid(),
                self@.capacity == before.capacity,
                self@.clock == before.clock,
                entry_size <= max_entry_size(self@.capacity),
                !self@.entries.contains_key(id@),
                before.entries.dom().finite(),
                evict_for(self@.entries, entry_size as nat, self@.capacity)
                    == evict_for(before.entries, entry_size as nat, before.capacity),
            ensures
                self@.valid(),
                self@.capacity == before.capacity,
                self@.clock == before.clock,
                !self@.entries.contains_key(id@),
                self@.used + entry_size <= self@.capacity,
                evict_for(self@.entries, entry_size as nat, self@.capacity)
                    == evict_for(before.entries, entry_size as nat, before.capacity),
            decreases self@.entries.dom().len(),
        {
            let ghost m = self@.entries;
            match self.oldest_key() {
                Some(key) => {
                    proof {
                        lemma_total_size_remove(m, key@);
                        assert(m.dom().len() != 0);
                        assert(!(total_size(m) + entry_size <= self@.capacity));
                    }
                    let removed = store_remove(&mut self.entries, key.as_str());
                    if let Some((_, e)) = removed {
                        self.current_size_bytes = self.current_size_bytes - e.size_bytes;
                    }
                    proof {
                        let m2 = self@.entries;
                        assert(m2 == m.remove(key@));
                        assert forall|a: Seq<char>, b: Seq<char>|
                            #[trigger] m2.contains_key(a) && #[trigger] m2.contains_key(b) && a != b
                            implies m2[a].2 != m2[b].2 by {
                            assert(m.contains_key(a) && m.contains_key(b));
                        }
                        assert forall|k: Seq<char>| #[trigger] m2.contains_key(k) implies {
                            &&& m2[k].1 == m2[k].0.len()
                            &&& m2[k].1 <= max_entry_size(self@.capacity)
                            &&& m2[k].2 < self@.clock
                        } by {
                            assert(m.contains_key(k));
                        }
                    }
                },
                None => {
                    proof {
                        lemma_total_size_empty(m);
                    }
                    break;
                },
            }
        }
        let ghost kept = self@.entries;
        proof {
            if kept.dom().len() == 0 {
                lemma_total_size_empty(kept);
            }
            assert(evict_for(kept, entry_size as nat, self@.capacity) == kept);
            lemma_total_size_insert(kept, id@, (data@, entry_size, self.clock));
        }
        let stamp = self.clock;
        let ghost bytes = data@;
        let buffer = Arc::new(bytes_from_vec(data));
        self.current_size_bytes = self.current_size_bytes + entry_size;
        let _ = store_insert(
            &mut self.entries,
            id,
            CacheEntry { data: buffer, size_bytes: entry_size, last_accessed: stamp },
        );
        self.clock = stamp + 1;
        proof {
            let m2 = self@.entries;
            assert(m2 == kept.insert(id@, (bytes, entry_size, stamp)));
            assert forall|a: Seq<char>, b: Seq<char>|
                #[trigger] m2.contains_key(a) && #[trigger] m2.contains_key(b) && a != b
                implies m2[a].2 != m2[b].2 by {
                if a != id@ && b != id@ {
                    assert(kept.contains_key(a) && kept.contains_key(b));
                } else if a == id@ {
                    assert(kept.contains_key(b));
                } else {
                    assert(kept.contains_key(a));
                }
            }
            assert forall|k: Seq<char>| #[trigger] m2.contains_key(k) implies {
                &&& m2[k].1 == m2[k].0.len()
                &&& m2[k].1 <= max_entry_size(self@.capacity)
                &&& m2[k].2 < self@.clock
            } by {
                if k != id@ {
                    assert(kept.contains_key(k));
                }
            }
        }
        true
    }

    /// Drops the file with this id, if it is cached.
    pub fn remove(&mut self, id: &str)
        requires
            old(self)@.valid(),
        ensures
            final(self)@.valid(),
            final(self)@.entries == old(self)@.entries.remove(id@),
            final(self)@.capacity == old(self)@.capacity,
            final(self)@.clock == old(self)@.clock,
    {
        let ghost m = self@.entries;
        proof {
            if m.contains_key(id@) {
                lemma_total_size_remove(m, id@);
            } else {
                assert(m.remove(id@) =~= m);
            }
        }
        if let Some((_, e)) = store_remove(&mut self.entries, id) {
            self.current_size_bytes = self.current_size_bytes - e.size_bytes;
        }
        proof {
            let m2 = self@.entries;
            assert forall|a: Seq<char>, b: Seq<char>|
                #[trigger] m2.contains_key(a) && #[trigger] m2.contains_key(b) && a != b
                implies m2[a].2 != m2[b].2 by {
                assert(m.contains_key(a) && m.contains_key(b));
            }
            assert forall|k: Seq<char>| #[trigger] m2.contains_key(k) implies {
                &&& m2[k].1 == m2[k].0.len()
                &&& m2[k].1 <= max_entry_size(self@.capacity)
                &&& m2[k].2 < self@.clock
            } by {
                assert(m.contains_key(k));
            }
        }
    }
}

} // verus!
