//! Tests of the cache-aside alias resolver and the directory request.

use nostr_keysend_notifier::alias::{alias_query_body, AliasCache};

/// A resolve as the surrounding process runs it: cache first, then one
/// directory query on a miss, recording only successes.
fn resolve(
    cache: &mut AliasCache,
    pk: &[u8],
    directory: &dyn Fn(&[u8]) -> Result<Vec<u8>, ()>,
    queries: &mut usize,
) -> Result<Vec<u8>, ()> {
    let key = pk.to_vec();
    if let Some(alias) = cache.lookup(&key) {
        return Ok(alias.clone());
    }
    *queries += 1;
    match directory(pk) {
        Ok(alias) => {
            cache.record(key, alias.clone());
            Ok(alias)
        }
        Err(()) => Err(()),
    }
}

#[test]
fn second_resolve_issues_no_query() {
    let mut cache = AliasCache::new();
    let mut queries: usize = 0;
    let directory = |_pk: &[u8]| Ok(b"alice".to_vec());
    let pk = b"02aa".to_vec();
    assert_eq!(resolve(&mut cache, &pk, &directory, &mut queries), Ok(b"alice".to_vec()));
    assert_eq!(resolve(&mut cache, &pk, &directory, &mut queries), Ok(b"alice".to_vec()));
    assert_eq!(queries, 1);
}

#[test]
fn failed_query_is_not_cached_and_retries() {
    let mut cache = AliasCache::new();
    let mut queries: usize = 0;
    let failing = |_pk: &[u8]| Err(());
    let pk = b"02bb".to_vec();
    assert_eq!(resolve(&mut cache, &pk, &failing, &mut queries), Err(()));
    assert_eq!(resolve(&mut cache, &pk, &failing, &mut queries), Err(()));
    assert_eq!(queries, 2);
    let healed = |_pk: &[u8]| Ok(b"bob".to_vec());
    assert_eq!(resolve(&mut cache, &pk, &healed, &mut queries), Ok(b"bob".to_vec()));
    assert_eq!(queries, 3);
    assert_eq!(resolve(&mut cache, &pk, &healed, &mut queries), Ok(b"bob".to_vec()));
    assert_eq!(queries, 3);
}

#[test]
fn empty_cache_misses() {
    let cache = AliasCache::new();
    assert!(cache.lookup(&b"02aa".to_vec()).is_none());
}

#[test]
fn last_recorded_alias_wins() {
    let mut cache = AliasCache::new();
    cache.record(b"02aa".to_vec(), b"old".to_vec());
    cache.record(b"02aa".to_vec(), b"new".to_vec());
    assert_eq!(cache.lookup(&b"02aa".to_vec()), Some(&b"new".to_vec()));
    assert!(cache.lookup(&b"02ab".to_vec()).is_none());
}

#[test]
fn query_body_is_exact() {
    let body = alias_query_body(&b"02aa".to_vec());
    assert_eq!(
        String::from_utf8(body).unwrap(),
        r#"{"query":"query{getNodeAlias(pubkey:\"02aa\")}"}"#
    );
}
