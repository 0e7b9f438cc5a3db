use slonik_proto::cache::QueryCache;

#[test]
fn cached_query_is_found() {
    let mut cache = QueryCache::new(4);
    let q = String::from("select 1");
    assert_eq!(cache.lookup(&q), None);
    assert!(cache.insert(q.clone(), 10));
    assert_eq!(cache.lookup(&q), Some(10));
    assert_eq!(cache.lookup(&String::from("select 2")), None);
    assert_eq!(cache.len(), 1);
}

#[test]
fn cached_query_gets_new_handle() {
    let mut cache = QueryCache::new(1);
    assert!(cache.insert(String::from("a"), 1));
    assert!(cache.insert(String::from("a"), 2));
    assert_eq!(cache.lookup(&String::from("a")), Some(2));
    assert_eq!(cache.len(), 1);
}

#[test]
fn full_cache_stops_storing() {
    let mut cache = QueryCache::new(2);
    assert!(cache.insert(String::from("a"), 1));
    assert!(cache.insert(String::from("b"), 2));
    assert!(!cache.insert(String::from("c"), 3));
    assert_eq!(cache.lookup(&String::from("c")), None);
    assert_eq!(cache.lookup(&String::from("a")), Some(1));
    assert_eq!(cache.lookup(&String::from("b")), Some(2));
}

#[test]
fn zero_capacity_cache_is_disabled() {
    let mut cache = QueryCache::new(0);
    assert!(!cache.insert(String::from("a"), 1));
    assert_eq!(cache.lookup(&String::from("a")), None);
    assert_eq!(cache.len(), 0);
}
