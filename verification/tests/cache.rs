use authtoken::cache::TokenCache;
use authtoken::codec::{encode, Claims};

const KEY: &[u8] = b"0123456789abcdef";

fn token(sub: &str, exp: u64) -> String {
    encode(&Claims { sub: sub.to_string(), exp }, KEY)
}

#[test]
fn fresh_cache_has_no_entries() {
    let cache = TokenCache::new();
    assert_eq!(cache.get("user_id_example", KEY, 0), None);
}

#[test]
fn get_returns_a_live_entry() {
    let mut cache = TokenCache::new();
    let t = token("user_id_example", 1_000);
    cache.put("user_id_example".to_string(), t.clone());
    assert_eq!(cache.get("user_id_example", KEY, 500), Some(t));
}

#[test]
fn get_never_returns_an_expired_entry() {
    let mut cache = TokenCache::new();
    let t = token("user_id_example", 1_000);
    cache.put("user_id_example".to_string(), t);
    assert_eq!(cache.get("user_id_example", KEY, 1_001), None);
}

#[test]
fn get_treats_an_undecodable_entry_as_absent() {
    let mut cache = TokenCache::new();
    cache.put("user_id_example".to_string(), "not a token".to_string());
    assert_eq!(cache.get("user_id_example", KEY, 0), None);
}

#[test]
fn put_replaces_the_entry_for_a_subject() {
    let mut cache = TokenCache::new();
    let first = token("user_id_example", 1_000);
    let second = token("user_id_example", 2_000);
    cache.put("user_id_example".to_string(), first);
    cache.put("user_id_example".to_string(), second.clone());
    assert_eq!(cache.get("user_id_example", KEY, 1_500), Some(second));
}

#[test]
fn entries_are_per_subject() {
    let mut cache = TokenCache::new();
    let t = token("user_id_example", 1_000);
    cache.put("user_id_example".to_string(), t.clone());
    assert_eq!(cache.get("someone_else", KEY, 0), None);
    assert_eq!(cache.get("user_id_example", KEY, 0), Some(t));
}
