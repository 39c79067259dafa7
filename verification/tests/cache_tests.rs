use pdf_cache::DocCache;

#[test]
fn empty_cache_finds_nothing() {
    let cache: DocCache<i64> = DocCache::new();
    assert_eq!(cache.get(&"anything".to_string()), None);
}

#[test]
fn insert_then_get_returns_value() {
    let mut cache: DocCache<i64> = DocCache::new();
    assert!(cache.insert("doc-1".to_string(), 41));
    assert_eq!(cache.get(&"doc-1".to_string()), Some(&41));
}

#[test]
fn insert_is_idempotent_by_identifier() {
    // A second insert under the same identifier is refused and the first
    // value stays, whatever the second call carries.
    let mut cache: DocCache<i64> = DocCache::new();
    assert!(cache.insert("doc-1".to_string(), 1));
    assert!(!cache.insert("doc-1".to_string(), 2));
    assert_eq!(cache.get(&"doc-1".to_string()), Some(&1));
}

#[test]
fn remove_then_get_is_absent() {
    let mut cache: DocCache<String> = DocCache::new();
    assert!(cache.insert("doc-1".to_string(), "payload".to_string()));
    assert!(cache.remove(&"doc-1".to_string()));
    assert_eq!(cache.get(&"doc-1".to_string()), None);
}

#[test]
fn remove_absent_identifier_reports_false() {
    let mut cache: DocCache<i64> = DocCache::new();
    assert!(!cache.remove(&"never-opened".to_string()));
    assert_eq!(cache.get(&"never-opened".to_string()), None);
}

#[test]
fn remove_leaves_other_entries_alone() {
    let mut cache: DocCache<i64> = DocCache::new();
    assert!(cache.insert("a".to_string(), 1));
    assert!(cache.insert("b".to_string(), 2));
    assert!(cache.insert("c".to_string(), 3));
    assert!(cache.remove(&"b".to_string()));
    assert_eq!(cache.get(&"a".to_string()), Some(&1));
    assert_eq!(cache.get(&"b".to_string()), None);
    assert_eq!(cache.get(&"c".to_string()), Some(&3));
}

#[test]
fn distinct_identifiers_hold_distinct_values() {
    let mut cache: DocCache<i64> = DocCache::new();
    assert!(cache.insert("x".to_string(), 10));
    assert!(cache.insert("y".to_string(), 20));
    assert_eq!(cache.get(&"x".to_string()), Some(&10));
    assert_eq!(cache.get(&"y".to_string()), Some(&20));
}

#[test]
fn reinsert_after_remove_takes_new_value() {
    let mut cache: DocCache<i64> = DocCache::new();
    assert!(cache.insert("doc".to_string(), 1));
    assert!(cache.remove(&"doc".to_string()));
    assert!(cache.insert("doc".to_string(), 2));
    assert_eq!(cache.get(&"doc".to_string()), Some(&2));
}

#[test]
fn empty_identifier_is_an_ordinary_key() {
    let mut cache: DocCache<i64> = DocCache::new();
    assert!(cache.insert(String::new(), 5));
    assert_eq!(cache.get(&String::new()), Some(&5));
    assert!(cache.remove(&String::new()));
    assert_eq!(cache.get(&String::new()), None);
}

#[test]
fn identifiers_differ_by_their_characters() {
    let mut cache: DocCache<i64> = DocCache::new();
    assert!(cache.insert("Doc".to_string(), 1));
    assert!(cache.insert("doc".to_string(), 2));
    assert!(cache.insert("doc ".to_string(), 3));
    assert_eq!(cache.get(&"Doc".to_string()), Some(&1));
    assert_eq!(cache.get(&"doc".to_string()), Some(&2));
    assert_eq!(cache.get(&"doc ".to_string()), Some(&3));
}

#[test]
fn many_repeated_reads_are_consistent() {
    // Lookups are read-only: many probes of a populated cache all return
    // the same answers.
    let mut cache: DocCache<i64> = DocCache::new();
    assert!(cache.insert("stable".to_string(), 7));
    for _ in 0..1000 {
        assert_eq!(cache.get(&"stable".to_string()), Some(&7));
        assert_eq!(cache.get(&"missing".to_string()), None);
    }
}
