use gpt_cli::cache::{cache_path, Cache, CacheError};

#[test]
fn test_new_with_path() {
    let cache = Cache::new(Some("/tmp/test_cache.json"));
    assert_eq!(cache.path(), "/tmp/test_cache.json");
}

#[test]
fn test_new_without_path() {
    let cache = Cache::new(None);
    let default_path = format!("{}/.gpt-cache.json", dirs::home_dir().unwrap().display());
    assert_eq!(cache.path(), default_path);
}

#[test]
fn test_get_nonexistent_key() {
    let mut cache = Cache::new(Some("/tmp/.gpt-cache-test.json"));
    assert_eq!(cache.get("nonexistent", None), Ok(None));
}

#[test]
fn test_set_and_get() {
    let mut cache = Cache::new(Some("/tmp/.gpt-cache-test.json"));
    let file = cache.set("key", "value");
    assert_eq!(cache.get("key", Some(&file)), Ok(Some("value".to_string())));
}

#[test]
fn test_set_multiple_and_get() {
    let mut cache = Cache::new(Some("/tmp/.gpt-cache-test.json"));
    cache.set("key1", "value1");
    let file = cache.set("key2", "value2");
    assert_eq!(cache.get("key1", Some(&file)), Ok(Some("value1".to_string())));
    assert_eq!(cache.get("key2", Some(&file)), Ok(Some("value2".to_string())));
}

#[test]
fn test_set_same_key() {
    let mut cache = Cache::new(Some("/tmp/.gpt-cache-test.json"));
    cache.set("key", "value1");
    let file = cache.set("key", "value2");
    assert_eq!(cache.get("key", Some(&file)), Ok(Some("value2".to_string())));
}

#[test]
fn fresh_cache_reads_what_another_wrote() {
    let mut writer = Cache::new(Some("/tmp/c.json"));
    writer.set("[{\"role\":\"user\"}]", "{\"id\":\"x\"}");
    writer.set("second \"quoted\"\nkey", "v2");
    let file = writer.set("[{\"role\":\"user\"}]", "{\"id\":\"y\"}");
    let mut reader = Cache::new(Some("/tmp/c.json"));
    assert!(reader.is_empty());
    assert_eq!(reader.get("[{\"role\":\"user\"}]", Some(&file)), Ok(Some("{\"id\":\"y\"}".to_string())));
    assert!(!reader.is_empty());
    assert_eq!(reader.get("second \"quoted\"\nkey", Some(&file)), Ok(Some("v2".to_string())));
    assert_eq!(reader.get("other", Some(&file)), Ok(None));
}

#[test]
fn written_file_is_a_json_object() {
    let mut cache = Cache::new(Some("/tmp/c.json"));
    let file = cache.set("b", "2");
    assert_eq!(file, "{\"b\":\"2\"}");
    let file = cache.set("a", "1");
    assert_eq!(file, "{\"a\":\"1\",\"b\":\"2\"}");
}

#[test]
fn missing_file_gives_nothing_even_when_loaded() {
    let mut cache = Cache::new(Some("/tmp/c.json"));
    cache.set("key", "value");
    assert_eq!(cache.get("key", None), Ok(None));
}

#[test]
fn malformed_file_is_an_error() {
    let mut cache = Cache::new(Some("/tmp/c.json"));
    assert_eq!(cache.get("key", Some("not json")), Err(CacheError::MalformedCacheData));
    assert_eq!(cache.get("key", Some("{\"key\": 3}")), Err(CacheError::MalformedCacheData));
    assert!(cache.is_empty());
}

#[test]
fn loaded_cache_ignores_the_file() {
    let mut cache = Cache::new(Some("/tmp/c.json"));
    cache.set("key", "value");
    assert_eq!(cache.get("key", Some("{\"key\":\"other\"}")), Ok(Some("value".to_string())));
}

#[test]
fn cache_path_choices() {
    assert_eq!(cache_path(Some("/x/y.json"), Some("/home/u")), "/x/y.json");
    assert_eq!(cache_path(None, Some("/home/u")), "/home/u/.gpt-cache.json");
    assert_eq!(cache_path(None, None), ".gpt-cache.json");
}
