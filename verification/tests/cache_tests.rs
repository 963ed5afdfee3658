use inframint::cache::{
    CacheCommand, CacheReply, CachedEntitlement, EntitlementCache, MemoryStore,
};
use inframint::entitlement::Entitlement;
use inframint::error::ValidatorError;

fn record(id: &str) -> Entitlement {
    Entitlement {
        id: id.to_string(),
        service_id: "service-1".to_string(),
        buyer: "0x2c7536E3605D9C16a7a3D7b1898e529396a65c23".to_string(),
        tier_id: 1,
        quota_requests: 1000,
        quota_used: 7,
        purchased_at: 1,
        expires_at: 9_000,
        active: true,
    }
}

fn cache(ttl: u64) -> EntitlementCache {
    EntitlementCache::new("redis://localhost:6379", ttl).expect("a cache")
}

fn read(store: &mut MemoryStore, cache: &EntitlementCache, id: &str, now: u64) -> Option<CachedEntitlement> {
    let reply = store.execute(cache.get(id), now);
    EntitlementCache::read(reply).expect("the store in memory does not fail")
}

#[test]
fn cache_keys_are_prefixed() {
    assert_eq!(EntitlementCache::key("abc"), "ent:abc");
    assert_eq!(EntitlementCache::key(""), "ent:");
    assert_eq!(EntitlementCache::key("ent:abc"), "ent:ent:abc");
}

#[test]
fn cache_is_built_for_a_store_address() {
    let cache = cache(300);
    assert_eq!(cache.ttl_seconds(), 300);
    let _client = cache.client();
}

#[test]
fn cache_hands_out_the_client_of_its_own_store() {
    let cache = EntitlementCache::new("redis://cache.internal:6380/2", 300).expect("a cache");
    let info = cache.client().get_connection_info();
    match &info.addr {
        redis::ConnectionAddr::Tcp(host, port) => {
            assert_eq!(host, "cache.internal");
            assert_eq!(*port, 6380);
        }
        other => panic!("a TCP address was expected, not {:?}", other),
    }
    assert_eq!(info.redis.db, 2);
    let other = EntitlementCache::new("redis://localhost:6379", 300).expect("a cache");
    match &other.client().get_connection_info().addr {
        redis::ConnectionAddr::Tcp(host, port) => {
            assert_eq!(host, "localhost");
            assert_eq!(*port, 6379);
        }
        other => panic!("a TCP address was expected, not {:?}", other),
    }
}

#[test]
fn cache_refuses_what_is_no_store_address() {
    assert!(matches!(
        EntitlementCache::new("not a url", 300),
        Err(ValidatorError::RedisError(_))
    ));
    assert!(matches!(
        EntitlementCache::new("http://localhost:6379", 300),
        Err(ValidatorError::RedisError(_))
    ));
}

#[test]
fn cache_commands_carry_key_value_and_lifetime() {
    let cache = cache(300);
    assert!(matches!(cache.get("abc"), CacheCommand::Get { key } if key == "ent:abc"));
    assert!(matches!(cache.invalidate("abc"), CacheCommand::Del { key } if key == "ent:abc"));
    let copy = CachedEntitlement::from_entitlement(record("abc"));
    match cache.set("abc", copy) {
        CacheCommand::SetEx { key, value, seconds } => {
            assert_eq!(key, "ent:abc");
            assert_eq!(seconds, 300);
            assert_eq!(value.entitlement.id, "abc");
            assert_eq!(value.entitlement.quota_used, 7);
            assert_eq!(value.rate_limit_per_second, None);
        }
        other => panic!("a write was expected, not {:?}", other),
    }
}

#[test]
fn cache_round_trip_before_and_after_expiry() {
    let cache = cache(300);
    let mut store = MemoryStore::new();
    assert!(read(&mut store, &cache, "abc", 1_000).is_none());
    let mut copy = CachedEntitlement::from_entitlement(record("abc"));
    copy.rate_limit_per_second = Some(25);
    assert!(matches!(store.execute(cache.set("abc", copy), 1_000), CacheReply::Done));
    let hit = read(&mut store, &cache, "abc", 1_000).expect("a hit");
    assert_eq!(hit.entitlement.id, "abc");
    assert_eq!(hit.entitlement.service_id, "service-1");
    assert_eq!(hit.entitlement.buyer, "0x2c7536E3605D9C16a7a3D7b1898e529396a65c23");
    assert_eq!(hit.entitlement.tier_id, 1);
    assert_eq!(hit.entitlement.quota_requests, 1000);
    assert_eq!(hit.entitlement.quota_used, 7);
    assert_eq!(hit.entitlement.purchased_at, 1);
    assert_eq!(hit.entitlement.expires_at, 9_000);
    assert!(hit.entitlement.active);
    assert_eq!(hit.rate_limit_per_second, Some(25));
    assert!(read(&mut store, &cache, "abc", 1_299).is_some());
    assert!(read(&mut store, &cache, "abc", 1_300).is_none());
    assert!(read(&mut store, &cache, "abc", 5_000).is_none());
}

#[test]
fn cache_invalidate_removes_the_copy() {
    let cache = cache(300);
    let mut store = MemoryStore::new();
    store.execute(cache.set("abc", CachedEntitlement::from_entitlement(record("abc"))), 1_000);
    store.execute(cache.set("xyz", CachedEntitlement::from_entitlement(record("xyz"))), 1_000);
    assert!(matches!(store.execute(cache.invalidate("abc"), 1_001), CacheReply::Done));
    assert!(read(&mut store, &cache, "abc", 1_001).is_none());
    assert_eq!(read(&mut store, &cache, "xyz", 1_001).expect("untouched").entitlement.id, "xyz");
    assert!(matches!(store.execute(cache.invalidate("never-set"), 1_001), CacheReply::Done));
}

#[test]
fn cache_set_replaces_the_copy_and_its_lifetime() {
    let cache = cache(300);
    let mut store = MemoryStore::new();
    store.execute(cache.set("abc", CachedEntitlement::from_entitlement(record("abc"))), 1_000);
    let mut newer = record("abc");
    newer.quota_used = 8;
    store.execute(cache.set("abc", CachedEntitlement::from_entitlement(newer)), 1_200);
    assert_eq!(read(&mut store, &cache, "abc", 1_300).expect("a hit").entitlement.quota_used, 8);
    assert!(read(&mut store, &cache, "abc", 1_499).is_some());
    assert!(read(&mut store, &cache, "abc", 1_500).is_none());
}

#[test]
fn cache_with_no_lifetime_holds_nothing() {
    let cache = cache(0);
    let mut store = MemoryStore::new();
    store.execute(cache.set("abc", CachedEntitlement::from_entitlement(record("abc"))), 1_000);
    assert!(read(&mut store, &cache, "abc", 1_000).is_none());
}

#[test]
fn cache_lifetimes_do_not_overflow() {
    let cache = cache(u64::MAX);
    let mut store = MemoryStore::new();
    store.execute(cache.set("abc", CachedEntitlement::from_entitlement(record("abc"))), u64::MAX);
    assert!(read(&mut store, &cache, "abc", u64::MAX).is_some());
}

#[test]
fn cache_read_treats_what_cannot_be_decoded_as_a_miss() {
    assert!(matches!(EntitlementCache::read(CacheReply::Undecodable), Ok(None)));
    assert!(matches!(EntitlementCache::read(CacheReply::Miss), Ok(None)));
    assert!(matches!(EntitlementCache::read(CacheReply::Done), Ok(None)));
    let copy = CachedEntitlement::from_entitlement(record("abc"));
    assert!(matches!(
        EntitlementCache::read(CacheReply::Hit(copy)),
        Ok(Some(hit)) if hit.entitlement.id == "abc"
    ));
}

#[test]
fn cache_read_reports_a_failed_store() {
    assert!(matches!(
        EntitlementCache::read(CacheReply::Failed("connection refused".to_string())),
        Err(ValidatorError::CacheError(words)) if words == "connection refused"
    ));
}
