use plaid::verification::cache::KeyFetcher;
use plaid::{
    ApiError, EllipticCurve, Error, ErrorType, Jwk, KeyCache, KeyParameters,
    WebhookVerificationError,
};

struct FixedKeys {
    keys: Result<Vec<Jwk>, ()>,
    calls: usize,
}

impl KeyFetcher for FixedKeys {
    fn fetch_keys(&mut self) -> Result<Vec<Jwk>, Error> {
        self.calls += 1;
        match &self.keys {
            Ok(keys) => Ok(keys.clone()),
            Err(()) => Err(Error::Api(ApiError {
                error_type: ErrorType::ApiError,
                error_code: "INTERNAL_SERVER_ERROR".to_string(),
                error_message: "unavailable".to_string(),
                display_message: None,
                request_id: None,
                documentation_url: None,
                suggested_action: None,
            })),
        }
    }
}

fn key(id: &str, x: &str, expired_at: Option<u64>) -> Jwk {
    Jwk {
        key_id: id.to_string(),
        algorithm: KeyParameters::EllipticCurve {
            curve: EllipticCurve::P256,
            x: x.to_string(),
            y: "y".to_string(),
        },
        created_at: 100,
        expired_at,
    }
}

fn x_of(k: &Jwk) -> String {
    match &k.algorithm {
        KeyParameters::EllipticCurve { x, .. } => x.clone(),
        _ => String::new(),
    }
}

#[test]
fn is_expired_reports_expiry() {
    assert_eq!(key("k", "x", None).is_expired(5), None);
    assert_eq!(key("k", "x", Some(10)).is_expired(9), Some(false));
    assert_eq!(key("k", "x", Some(10)).is_expired(10), Some(true));
    assert_eq!(key("k", "x", Some(10)).is_expired(11), Some(true));
}

#[test]
fn miss_fetches_and_caches_every_key() {
    let mut cache = KeyCache::new();
    let mut fetcher =
        FixedKeys { keys: Ok(vec![key("k1", "one", None), key("k2", "two", None)]), calls: 0 };
    let k = cache.resolve("k1", 1000, &mut fetcher).unwrap();
    assert_eq!(k.key_id, "k1");
    assert_eq!(x_of(&k), "one");
    assert_eq!(fetcher.calls, 1);
    assert_eq!(cache.fetch_count(), 1);
    assert_eq!(x_of(&cache.get("k1").unwrap()), "one");
    assert_eq!(x_of(&cache.get("k2").unwrap()), "two");
    assert!(cache.get("k3").is_none());
}

#[test]
fn cached_key_is_served_without_fetching() {
    let mut cache = KeyCache::new();
    let mut fetcher = FixedKeys { keys: Ok(vec![key("k1", "one", Some(2000))]), calls: 0 };
    cache.resolve("k1", 1000, &mut fetcher).unwrap();
    for _ in 0..5 {
        let k = cache.resolve("k1", 1999, &mut fetcher).unwrap();
        assert_eq!(x_of(&k), "one");
    }
    assert_eq!(fetcher.calls, 1);
    assert_eq!(cache.fetch_count(), 1);
}

#[test]
fn expired_key_is_fetched_again() {
    let mut cache = KeyCache::new();
    cache.insert(key("k1", "stale", Some(500)));
    let mut fetcher = FixedKeys { keys: Ok(vec![key("k1", "fresh", None)]), calls: 0 };
    let k = cache.resolve("k1", 1000, &mut fetcher).unwrap();
    assert_eq!(x_of(&k), "fresh");
    assert_eq!(fetcher.calls, 1);
    assert_eq!(x_of(&cache.get("k1").unwrap()), "fresh");
    assert!(cache.lookup("k1", 1000).is_some());
}

#[test]
fn expired_key_is_never_returned() {
    let mut cache = KeyCache::new();
    cache.insert(key("k1", "stale", Some(500)));
    assert!(cache.lookup("k1", 500).is_none());
    assert!(cache.lookup("k1", 499).is_some());
    let mut fetcher = FixedKeys { keys: Ok(vec![key("k1", "still stale", Some(600))]), calls: 0 };
    assert!(matches!(
        cache.resolve("k1", 1000, &mut fetcher),
        Err(WebhookVerificationError::KeyNotFound)
    ));
}

#[test]
fn absent_key_is_not_found() {
    let mut cache = KeyCache::new();
    let mut fetcher = FixedKeys { keys: Ok(vec![key("k2", "two", None)]), calls: 0 };
    assert!(matches!(
        cache.resolve("k1", 1000, &mut fetcher),
        Err(WebhookVerificationError::KeyNotFound)
    ));
    assert!(cache.get("k2").is_some());
}

#[test]
fn failed_fetch_is_reported_and_changes_nothing() {
    let mut cache = KeyCache::new();
    cache.insert(key("k2", "two", None));
    let mut fetcher = FixedKeys { keys: Err(()), calls: 0 };
    assert!(matches!(
        cache.resolve("k1", 1000, &mut fetcher),
        Err(WebhookVerificationError::ApiError(Error::Api(_)))
    ));
    assert_eq!(cache.fetch_count(), 1);
    assert!(cache.get("k1").is_none());
    assert!(cache.get("k2").is_some());
}

#[test]
fn later_fetched_key_replaces_earlier() {
    let mut cache = KeyCache::new();
    cache.insert(key("k1", "old", None));
    cache.install(&vec![key("k1", "first", None), key("k2", "two", None), key("k1", "second", None)]);
    assert_eq!(x_of(&cache.get("k1").unwrap()), "second");
    assert_eq!(x_of(&cache.get("k2").unwrap()), "two");
}
