use image_gateway::cache::{CacheEngine, HashMapCacheEngine, MemoryCache, NoCacheEngine};

#[test]
fn test_get_set() {
    let mut memory_cache: MemoryCache<String> = MemoryCache::new();
    let identifier = String::from("unit test identifier");
    let object = String::from("unit test object");
    assert!(memory_cache.set(identifier.clone(), object.clone()).is_ok());
    let found_object = memory_cache.get(&identifier);
    match found_object {
        Ok(found_object) => {
            assert_eq!(found_object, object);
        }
        Err(_) => {
            assert!(false)
        }
    }
}

#[test]
fn test_set_override() {
    let mut memory_cache: MemoryCache<String> = MemoryCache::new();
    let identifier = String::from("unit test identifier");
    let object = String::from("unit test object");
    let object_overriden = String::from("unit test object iv");
    assert!(memory_cache.set(identifier.clone(), object.clone()).is_ok());
    assert!(memory_cache.set(identifier.clone(), object_overriden.clone()).is_ok());
    let found_object = memory_cache.get(&identifier);
    match found_object {
        Ok(found_object) => {
            assert_eq!(found_object, object_overriden);
        }
        Err(_) => {
            assert!(false)
        }
    }
}

#[test]
fn test_delete() {
    let mut memory_cache: MemoryCache<String> = MemoryCache::new();
    let identifier = String::from("unit test identifier");
    let object = String::from("unit test object");
    assert!(memory_cache.set(identifier.clone(), object.clone()).is_ok());
    assert!(memory_cache.get(&identifier).is_ok());
    assert!(memory_cache.delete(&identifier));
    assert!(memory_cache.get(&identifier).is_err());
    assert!(!memory_cache.delete(&identifier));
}

#[test]
fn memory_cache_counts_distinct_keys() {
    let mut memory_cache: MemoryCache<u32> = MemoryCache::new();
    assert_eq!(memory_cache.count(), 0);
    memory_cache.set(String::from("a"), 1).unwrap();
    memory_cache.set(String::from("b"), 2).unwrap();
    memory_cache.set(String::from("a"), 3).unwrap();
    assert_eq!(memory_cache.count(), 2);
    assert_eq!(memory_cache.get(&String::from("a")).unwrap(), 3);
    assert!(memory_cache.delete(&String::from("a")));
    assert_eq!(memory_cache.count(), 1);
    assert_eq!(memory_cache.get(&String::from("b")).unwrap(), 2);
}

#[test]
fn hash_map_engine_keeps_what_is_set() {
    let mut engine = HashMapCacheEngine::new();
    assert_eq!(engine.get("key"), None);
    engine.set("key", &vec![1, 2, 3]).unwrap();
    assert_eq!(engine.get("key"), Some(vec![1, 2, 3]));
    engine.set("key", &vec![4]).unwrap();
    assert_eq!(engine.get("key"), Some(vec![4]));
    assert_eq!(engine.get("other"), None);
}

#[test]
fn no_cache_engine_keeps_nothing() {
    let mut engine = NoCacheEngine {};
    assert!(engine.set("key", &vec![1, 2, 3]).is_ok());
    assert_eq!(engine.get("key"), None);
}
