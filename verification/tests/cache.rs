use geek_storage::cache::FileCache;

fn filled(n: usize, byte: u8) -> Vec<u8> {
    vec![byte; n]
}

#[test]
fn max_entry_size_is_a_fifth_of_capacity() {
    let cache = FileCache::new(1);
    assert_eq!(cache.get_max_size_per_entry(), 209715);
    let cache = FileCache::new(10);
    assert_eq!(cache.get_max_size_per_entry(), 2097152);
    let cache = FileCache::new(0);
    assert_eq!(cache.get_max_size_per_entry(), 0);
}

#[test]
fn lookup_after_insert_gives_the_bytes() {
    let mut cache = FileCache::new(1);
    assert!(cache.insert("abcde".to_string(), b"hello".to_vec()));
    let data = cache.get("abcde").expect("cached");
    assert_eq!(&data[..], b"hello");
    assert!(cache.get("zzzzz").is_none());
}

#[test]
fn oversized_entry_is_refused() {
    let mut cache = FileCache::new(1);
    assert!(!cache.insert("big01".to_string(), filled(209716, 1)));
    assert!(cache.get("big01").is_none());
    assert!(cache.insert("big02".to_string(), filled(209715, 1)));
    assert!(cache.get("big02").is_some());
}

#[test]
fn duplicate_id_is_refused_and_keeps_first_bytes() {
    let mut cache = FileCache::new(1);
    assert!(cache.insert("dup00".to_string(), b"first".to_vec()));
    assert!(!cache.insert("dup00".to_string(), b"second".to_vec()));
    assert_eq!(&cache.get("dup00").unwrap()[..], b"first");
}

#[test]
fn least_recently_used_is_evicted_first() {
    let mut cache = FileCache::new(1);
    for id in ["aaaaa", "bbbbb", "ccccc", "ddddd", "eeeee"] {
        assert!(cache.insert(id.to_string(), filled(200000, 7)));
    }
    // Using `aaaaa` makes `bbbbb` the least recently used file.
    assert!(cache.get("aaaaa").is_some());
    assert!(cache.insert("fffff".to_string(), filled(200000, 8)));
    assert!(cache.get("bbbbb").is_none());
    for id in ["aaaaa", "ccccc", "ddddd", "eeeee", "fffff"] {
        assert!(cache.get(id).is_some(), "{id} should still be cached");
    }
}

#[test]
fn eviction_drops_only_as_many_as_needed() {
    let mut cache = FileCache::new(1);
    for id in ["aaaaa", "bbbbb", "ccccc", "ddddd", "eeeee"] {
        assert!(cache.insert(id.to_string(), filled(200000, 7)));
    }
    // 1_000_000 bytes are used and 1_100_000 exceed the 1_048_576 allowed: dropping
    // the oldest file leaves 800_000, to which the 100_000 new bytes fit.
    assert!(cache.insert("small".to_string(), filled(100000, 9)));
    assert!(cache.get("aaaaa").is_none());
    assert!(cache.get("bbbbb").is_some());
    assert!(cache.get("small").is_some());
}

#[test]
fn no_eviction_when_there_is_room() {
    let mut cache = FileCache::new(1);
    assert!(cache.insert("one01".to_string(), filled(1000, 1)));
    assert!(cache.insert("two02".to_string(), filled(1000, 2)));
    assert!(cache.get("one01").is_some());
    assert!(cache.get("two02").is_some());
}

#[test]
fn lookup_after_remove_misses() {
    let mut cache = FileCache::new(1);
    assert!(cache.insert("gone1".to_string(), b"bytes".to_vec()));
    cache.remove("gone1");
    assert!(cache.get("gone1").is_none());
    // Removing an id that is not cached changes nothing.
    cache.remove("never");
    // The space is free again: the id can be cached anew.
    assert!(cache.insert("gone1".to_string(), b"again".to_vec()));
    assert_eq!(&cache.get("gone1").unwrap()[..], b"again");
}

#[test]
fn zero_capacity_cache_takes_only_empty_files() {
    let mut cache = FileCache::new(0);
    assert!(!cache.insert("one01".to_string(), vec![1]));
    assert!(cache.insert("empty".to_string(), Vec::new()));
    assert_eq!(cache.get("empty").unwrap().len(), 0);
}
