use rayspace::cache::{read_stars, StarCache, STAR_TTL_SECONDS};
use rayspace::errors::UpstreamError;
use rayspace::session::{user_status, Session};

#[test]
fn logout_then_status_reports_false() {
    let mut session = Session {
        oauth_state: Some("pending".to_string()),
        user_id: Some("42".to_string()),
        user_name: Some("Ray".to_string()),
    };
    assert!(user_status(&session));
    session.purge();
    assert!(!user_status(&session));
    assert!(session.oauth_state.is_none());
    // Idempotent: purging an already-empty session succeeds identically.
    session.purge();
    assert!(!user_status(&session));
}

#[test]
fn status_needs_both_identity_fields() {
    let only_id = Session {
        oauth_state: None,
        user_id: Some("42".to_string()),
        user_name: None,
    };
    assert!(!user_status(&only_id));
    let only_name = Session {
        oauth_state: None,
        user_id: None,
        user_name: Some("Ray".to_string()),
    };
    assert!(!user_status(&only_name));
    assert!(!user_status(&Session::new()));
}

#[test]
fn cache_serves_fresh_reads_without_refresh() {
    let mut cache = StarCache::new();
    cache.store(5, 1_000);
    // Two reads inside the TTL window both see the stored value.
    assert_eq!(cache.probe(1_000), Some(5));
    assert_eq!(cache.probe(1_000 + STAR_TTL_SECONDS - 1), Some(5));
    // At the TTL boundary the entry is stale and a refresh is due.
    assert_eq!(cache.probe(1_000 + STAR_TTL_SECONDS), None);
}

#[test]
fn cache_new_starts_stale() {
    let cache = StarCache::new();
    assert_eq!(cache.star_count, 0);
    assert_eq!(cache.last_fetched, 0);
    // Stamped at the epoch: the first read against a present-day clock is
    // already stale, so a fresh process never serves the zero value.
    assert_eq!(cache.probe(1_700_000_000), None);
}

#[test]
fn clock_moving_backwards_counts_as_fresh() {
    let mut cache = StarCache::new();
    cache.store(9, 1_000);
    assert_eq!(cache.probe(500), Some(9));
}

#[test]
fn successful_refresh_overwrites_entry() {
    let mut cache = StarCache::new();
    let r = cache.apply_refresh(Ok(31), 2_000);
    assert_eq!(r, Ok(31));
    assert_eq!(cache.star_count, 31);
    assert_eq!(cache.last_fetched, 2_000);
}

#[test]
fn failed_refresh_leaves_entry_untouched() {
    let mut cache = StarCache::new();
    cache.store(5, 1_000);
    let r = cache.apply_refresh(Err(UpstreamError::FetchFailed), 5_000);
    assert_eq!(r, Err(UpstreamError::FetchFailed));
    assert_eq!(cache.star_count, 5);
    assert_eq!(cache.last_fetched, 1_000);
}

#[test]
fn read_stars_serves_fresh_entry() {
    // An entry stamped far in the future is fresh against any real clock.
    let mut cache = StarCache::new();
    cache.store(3, i64::MAX - STAR_TTL_SECONDS);
    assert_eq!(read_stars(&cache), Some(3));
}

#[test]
fn read_stars_reports_stale_entry() {
    // An entry stamped at the far past is stale against any real clock.
    let mut cache = StarCache::new();
    cache.store(3, i64::MIN + STAR_TTL_SECONDS);
    assert_eq!(read_stars(&cache), None);
}
