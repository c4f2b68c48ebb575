use knock::cache::Cache;

#[test]
fn memory_round_trip_returns_exact_bytes() {
    let mut cache = Cache::open_memory();
    let key = Cache::generate_key("find large files", "macos", "zsh", "standard");
    cache.insert(key.clone(), "find . -type f -size +100M".to_string());
    assert_eq!(
        cache.get(&key),
        Some("find . -type f -size +100M".to_string())
    );
}

#[test]
fn memory_round_trip_keeps_non_ascii_text() {
    let mut cache = Cache::open_memory();
    cache.insert("k".to_string(), "echo '\u{e9}\u{1f980} fin'".to_string());
    assert_eq!(cache.get("k"), Some("echo '\u{e9}\u{1f980} fin'".to_string()));
}

#[test]
fn memory_miss_on_unseen_key_returns_nothing() {
    let cache = Cache::open_memory();
    assert_eq!(cache.get("0123456789abcdef"), None);
}

#[test]
fn memory_upsert_last_writer_wins() {
    let mut cache = Cache::open_memory();
    cache.insert("k".to_string(), "first".to_string());
    cache.insert("k".to_string(), "second".to_string());
    assert_eq!(cache.get("k"), Some("second".to_string()));
}

#[test]
fn temporary_store_round_trip_returns_exact_bytes() {
    let mut cache = Cache::open_temporary();
    let key = Cache::generate_key("show disk usage", "linux", "bash", "standard");
    cache.insert(key.clone(), "df -h".to_string());
    assert_eq!(cache.get(&key), Some("df -h".to_string()));
}

#[test]
fn temporary_store_miss_returns_nothing() {
    let cache = Cache::open_temporary();
    assert_eq!(cache.get("feedfacefeedface"), None);
}

#[test]
fn temporary_store_upsert_last_writer_wins() {
    let mut cache = Cache::open_temporary();
    cache.insert("k".to_string(), "old".to_string());
    cache.insert("k".to_string(), "new".to_string());
    assert_eq!(cache.get("k"), Some("new".to_string()));
}

#[test]
fn entries_under_different_keys_stay_apart() {
    let mut cache = Cache::open_memory();
    cache.insert("a".to_string(), "one".to_string());
    cache.insert("b".to_string(), "two".to_string());
    assert_eq!(cache.get("a"), Some("one".to_string()));
    assert_eq!(cache.get("b"), Some("two".to_string()));
}
