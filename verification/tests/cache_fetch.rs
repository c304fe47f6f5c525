//! The key-set fetcher and the refreshing cache: cache-policy handling,
//! key-material validation, freshness arithmetic, and the read-or-refresh
//! protocol.

use api::cache::KeyCache;
use api::fetch::FetchError;
use api::fetch::FetchedKeys;
use api::fetch::process_fetch_response;
use api::jwk::JwkKey;
use api::jwk::lookup_key;

fn jwks_body(entries: &[(&str, &str, &str)]) -> String {
    let mut keys: Vec<serde_json::Value> = Vec::new();
    for (kid, n, e) in entries {
        let mut m = serde_json::Map::new();
        m.insert("kid".to_string(), serde_json::Value::from(*kid));
        m.insert("n".to_string(), serde_json::Value::from(*n));
        m.insert("e".to_string(), serde_json::Value::from(*e));
        keys.push(serde_json::Value::Object(m));
    }
    let mut doc = serde_json::Map::new();
    doc.insert("keys".to_string(), serde_json::Value::Array(keys));
    serde_json::to_string(&serde_json::Value::Object(doc)).unwrap()
}

#[test]
fn fetch_requires_cache_control_header() {
    let body = jwks_body(&[("kid1", "AQAB", "AQAB")]);
    assert_eq!(
        process_fetch_response(0, None, &body).unwrap_err(),
        FetchError::MissingCachePolicy
    );
}

#[test]
fn fetch_requires_max_age_directive() {
    let body = jwks_body(&[("kid1", "AQAB", "AQAB")]);
    assert_eq!(
        process_fetch_response(0, Some("no-store"), &body).unwrap_err(),
        FetchError::MissingCachePolicy
    );
}

#[test]
fn fetch_rejects_unparsable_body() {
    assert_eq!(
        process_fetch_response(0, Some("public, max-age=600"), "not json").unwrap_err(),
        FetchError::InvalidKeyMaterial
    );
}

#[test]
fn fetch_rejects_entry_without_kid() {
    let body = "{\"keys\":[{\"n\":\"AQAB\",\"e\":\"AQAB\"}]}";
    assert_eq!(
        process_fetch_response(0, Some("max-age=600"), body).unwrap_err(),
        FetchError::InvalidKeyMaterial
    );
}

#[test]
fn fetch_rejects_one_bad_key_wholesale() {
    // The second key's modulus is not base64url (a `+` belongs to plain
    // base64); even one bad descriptor fails the whole fetch.
    let body = jwks_body(&[("kid1", "AQAB", "AQAB"), ("kid2", "bad+key!", "AQAB")]);
    assert_eq!(
        process_fetch_response(0, Some("max-age=600"), &body).unwrap_err(),
        FetchError::InvalidKeyMaterial
    );
}

#[test]
fn fetch_computes_deadline_from_max_age() {
    let body = jwks_body(&[("kid1", "AQAB", "AQAB")]);
    let fetched = process_fetch_response(1000, Some("public, max-age=600"), &body).unwrap();
    assert_eq!(fetched.refresh_at, 1600);
    assert_eq!(fetched.keys.len(), 1);
    assert_eq!(fetched.keys[0].kid, "kid1");
}

#[test]
fn lookup_lets_a_later_duplicate_kid_win() {
    let keys = vec![
        JwkKey { kid: "a".to_string(), n: "AA".to_string(), e: "AQAB".to_string() },
        JwkKey { kid: "b".to_string(), n: "BB".to_string(), e: "AQAB".to_string() },
        JwkKey { kid: "a".to_string(), n: "CC".to_string(), e: "AQAB".to_string() },
    ];
    assert_eq!(lookup_key(&keys, &"b".to_string()).unwrap().n, "BB");
    // Two descriptors carry kid "a": the later one wins, as in a map
    // filled in document order.
    assert_eq!(lookup_key(&keys, &"a".to_string()).unwrap().n, "CC");
    assert!(lookup_key(&keys, &"c".to_string()).is_none());
}

fn fetched(kid: &str, refresh_at: u64) -> FetchedKeys {
    FetchedKeys {
        keys: vec![JwkKey {
            kid: kid.to_string(),
            n: "AQAB".to_string(),
            e: "AQAB".to_string(),
        }],
        refresh_at,
    }
}

#[test]
fn cold_cache_reads_nothing() {
    let cache = KeyCache::new(0);
    assert!(cache.read(0).is_none());
    assert!(cache.read(1000).is_none());
}

#[test]
fn fresh_reads_serve_the_cache_and_change_nothing() {
    let mut cache = KeyCache::new(0);
    let keys = cache.absorb(Ok(fetched("kid1", 600))).unwrap();
    assert_eq!(keys.len(), 1);
    // Many reads while fresh: all served from the cache, no fetch needed.
    for now in [0u64, 100, 200, 300, 400, 500, 540] {
        let served = cache.read(now).expect("fresh cache must serve");
        assert_eq!(served.len(), 1);
        assert_eq!(served[0].kid, "kid1");
    }
}

#[test]
fn refresh_outcome_is_what_every_later_read_serves() {
    let mut cache = KeyCache::new(0);
    assert!(cache.read(0).is_none());
    let served = cache.absorb(Ok(fetched("kid2", 700))).unwrap();
    assert_eq!(served[0].kid, "kid2");
    // All callers that waited for the one fetch now observe its mapping.
    for now in [0u64, 600, 640] {
        assert_eq!(cache.read(now).unwrap()[0].kid, "kid2");
    }
}

#[test]
fn failed_refresh_keeps_stale_keys_and_reports_the_error() {
    let mut cache = KeyCache::new(0);
    cache.absorb(Ok(fetched("kid1", 600))).unwrap();
    // Time passes the deadline; the refresh fails.
    assert!(cache.read(601).is_none());
    let err = cache.absorb(Err(FetchError::Network)).unwrap_err();
    assert_eq!(err, FetchError::Network);
    // The stale mapping is still there, available once a fetch succeeds or
    // for a caller that chooses to inspect it.
    assert_eq!(cache.keys.len(), 1);
    assert_eq!(cache.refresh_at, 600);
}

#[test]
fn refresh_fires_only_inside_the_safety_margin() {
    // Populated at t=0 with max-age 600: the deadline is 600, the margin
    // 60, so 539 is still fresh and 541 is not.
    let body = jwks_body(&[("kid1", "AQAB", "AQAB")]);
    let fetched = process_fetch_response(0, Some("max-age=600"), &body).unwrap();
    let mut cache = KeyCache::new(0);
    cache.absorb(Ok(fetched)).unwrap();
    assert!(cache.read(539).is_some());
    assert!(cache.read(540).is_some());
    assert!(cache.read(541).is_none());
}
