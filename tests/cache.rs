use std::time::Duration;
use zfs_monitor::rate::Timestamp;
use zfs_monitor::Cache;

#[test]
fn test_cache_insert_and_get() {
    let mut cache = Cache::new(Duration::from_secs(1));
    cache.insert("test".to_string(), 42);

    assert_eq!(cache.get("test"), Some(&42));
    assert_eq!(cache.get("nonexistent"), None);
}

#[test]
fn test_cache_overwrite() {
    let mut cache = Cache::new(Duration::from_secs(1));

    cache.insert("test".to_string(), 100);
    assert_eq!(cache.get("test"), Some(&100));

    cache.insert("test".to_string(), 200);
    assert_eq!(cache.get("test"), Some(&200));

    cache.insert_with_ttl("test".to_string(), 300, Duration::from_secs(2));
    assert_eq!(cache.get("test"), Some(&300));
}

#[test]
fn test_cache_with_complex_types() {
    let mut cache: Cache<Vec<String>> = Cache::new(Duration::from_secs(1));

    let value1 = vec!["hello".to_string(), "world".to_string()];
    let value2 = vec!["foo".to_string(), "bar".to_string(), "baz".to_string()];

    cache.insert("list1".to_string(), value1.clone());
    cache.insert("list2".to_string(), value2.clone());

    assert_eq!(cache.get("list1"), Some(&value1));
    assert_eq!(cache.get("list2"), Some(&value2));
}

#[test]
fn test_cache_empty_operations() {
    let mut cache: Cache<i32> = Cache::new(Duration::from_secs(1));

    assert!(cache.is_empty());
    assert_eq!(cache.len(), 0);
    assert_eq!(cache.get("anything"), None);

    cache.clear();
    assert!(cache.is_empty());

    cache.cleanup();
    assert!(cache.is_empty());
}

#[test]
fn test_cache_large_number_of_entries() {
    let mut cache = Cache::new(Duration::from_secs(10));

    for i in 0..1000 {
        cache.insert(format!("key_{}", i), i);
    }

    assert_eq!(cache.len(), 1000);
    assert!(!cache.is_empty());

    assert_eq!(cache.get("key_0"), Some(&0));
    assert_eq!(cache.get("key_500"), Some(&500));
    assert_eq!(cache.get("key_999"), Some(&999));

    cache.clear();
    assert_eq!(cache.len(), 0);
    assert!(cache.is_empty());
}

#[test]
fn test_cache_default_ttl() {
    let _cache: Cache<i32> = Cache::default();

    let mut cache = Cache::default();
    cache.insert("test".to_string(), 42);
    assert_eq!(cache.get("test"), Some(&42));
}

#[test]
fn test_cache_zero_ttl() {
    let mut cache = Cache::new(Duration::from_secs(0));

    cache.insert("test".to_string(), 42);

    assert_eq!(cache.get("test"), None);
}

#[test]
fn test_cache_unicode_keys() {
    let mut cache = Cache::new(Duration::from_secs(1));

    let key = "æµ‹è¯•_key_ðŸš€";
    cache.insert(key.to_string(), 42);

    assert_eq!(cache.get(key), Some(&42));
}

#[test]
fn cache_entry_expires_exactly_at_its_deadline() {
    let mut cache: Cache<i32> = Cache::with_ttl_nanos(50);
    cache.insert_at("test".to_string(), 42, Timestamp::from_nanos(1000));
    assert_eq!(cache.get_at("test", Timestamp::from_nanos(1000)), Some(&42));
    assert_eq!(cache.get_at("test", Timestamp::from_nanos(1049)), Some(&42));
    assert_eq!(cache.get_at("test", Timestamp::from_nanos(1050)), None);
    assert_eq!(cache.get_at("test", Timestamp::from_nanos(5000)), None);
    // Expired entries stay stored until a cleanup.
    assert_eq!(cache.len(), 1);
}

#[test]
fn cache_custom_ttl_at_fixed_times() {
    let mut cache: Cache<i32> = Cache::with_ttl_nanos(1_000_000_000);
    let t0 = Timestamp::from_nanos(0);
    cache.insert_with_ttl_at("short".to_string(), 1, 50_000_000, t0);
    cache.insert_with_ttl_at("long".to_string(), 2, 2_000_000_000, t0);
    assert_eq!(cache.get_at("short", t0), Some(&1));
    assert_eq!(cache.get_at("long", t0), Some(&2));
    let later = Timestamp::from_nanos(60_000_000);
    assert_eq!(cache.get_at("short", later), None);
    assert_eq!(cache.get_at("long", later), Some(&2));
}

#[test]
fn cache_cleanup_removes_only_expired_entries() {
    let mut cache: Cache<i32> = Cache::with_ttl_nanos(1_000);
    let t0 = Timestamp::from_nanos(0);
    cache.insert_with_ttl_at("short".to_string(), 1, 50, t0);
    cache.insert_with_ttl_at("long".to_string(), 2, 2_000, t0);
    cache.insert_at("default".to_string(), 3, t0);
    assert_eq!(cache.len(), 3);
    let later = Timestamp::from_nanos(60);
    cache.cleanup_at(later);
    assert_eq!(cache.len(), 2);
    assert_eq!(cache.get_at("long", later), Some(&2));
    assert_eq!(cache.get_at("default", later), Some(&3));
    assert_eq!(cache.get_at("short", later), None);
    cache.cleanup_at(Timestamp::from_nanos(1_000));
    assert_eq!(cache.len(), 1);
    assert_eq!(cache.get_at("long", Timestamp::from_nanos(1_000)), Some(&2));
}

#[test]
fn cache_zero_ttl_at_fixed_time() {
    let mut cache: Cache<i32> = Cache::with_ttl_nanos(0);
    let t = Timestamp::from_nanos(7);
    cache.insert_at("test".to_string(), 42, t);
    assert_eq!(cache.get_at("test", t), None);
}

#[test]
fn cache_ttl_that_overflows_never_expires() {
    let mut cache: Cache<i32> = Cache::with_ttl_nanos(u64::MAX);
    cache.insert_at("k".to_string(), 1, Timestamp::from_nanos(10));
    assert_eq!(cache.get_at("k", Timestamp::from_nanos(u64::MAX - 1)), Some(&1));
}

#[test]
fn cache_clear_empties_unconditionally() {
    let mut cache: Cache<i32> = Cache::with_ttl_nanos(1_000);
    cache.insert_at("a".to_string(), 1, Timestamp::from_nanos(0));
    cache.insert_at("b".to_string(), 2, Timestamp::from_nanos(0));
    cache.clear();
    assert!(cache.is_empty());
    assert_eq!(cache.get_at("a", Timestamp::from_nanos(0)), None);
}
