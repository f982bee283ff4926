use vrc_yt_proxy::cache::{Lookup, ResolutionCache, ResolveError};

const ID: &str = "dQw4w9WgXcQ";

#[test]
fn concurrent_requests_resolve_once() {
    let mut cache = ResolutionCache::new();
    let url = "https://example/media?exp=1700000600";
    assert_eq!(cache.lookup(ID, 1700000000), Lookup::Resolve);
    for t in 0..5u64 {
        assert_eq!(cache.lookup(ID, 1700000000 + t), Lookup::Wait);
    }
    assert_eq!(cache.finish(ID, Some(url.to_string()), 1700000010), Ok(url.to_string()));
    for t in 0..5u64 {
        assert_eq!(cache.lookup(ID, 1700000011 + t), Lookup::Hit(url.to_string()));
    }
}

#[test]
fn waiting_does_not_depend_on_time() {
    let mut cache = ResolutionCache::new();
    assert_eq!(cache.lookup(ID, 10), Lookup::Resolve);
    assert_eq!(cache.lookup(ID, u64::MAX), Lookup::Wait);
}

#[test]
fn marker_bounds_the_cached_url() {
    let mut cache = ResolutionCache::new();
    let url = "https://example/media?exp=1700000600";
    assert_eq!(cache.lookup(ID, 1700000000), Lookup::Resolve);
    cache.finish(ID, Some(url.to_string()), 1700000000).unwrap();
    assert_eq!(cache.lookup(ID, 1700000599), Lookup::Hit(url.to_string()));
    assert_eq!(cache.lookup(ID, 1700000600), Lookup::Resolve);
    assert_eq!(cache.lookup(ID, 1700000601), Lookup::Wait);
}

#[test]
fn url_without_marker_is_valid_for_ten_minutes() {
    let mut cache = ResolutionCache::new();
    let url = "https://example/media?sig=abc";
    assert_eq!(cache.lookup(ID, 1000), Lookup::Resolve);
    cache.finish(ID, Some(url.to_string()), 1000).unwrap();
    assert_eq!(cache.lookup(ID, 1599), Lookup::Hit(url.to_string()));
    assert_eq!(cache.lookup(ID, 1600), Lookup::Resolve);
}

#[test]
fn failure_is_not_cached() {
    let mut cache = ResolutionCache::new();
    assert_eq!(cache.lookup(ID, 5), Lookup::Resolve);
    assert_eq!(cache.finish(ID, None, 6), Err(ResolveError::ResolutionFailed));
    assert_eq!(cache.lookup(ID, 6), Lookup::Resolve);
    assert_eq!(cache.lookup(ID, 7), Lookup::Wait);
}

#[test]
fn pending_key_does_not_block_other_keys() {
    let mut cache = ResolutionCache::new();
    let other = "aaaaaaaaaaa";
    assert_eq!(cache.lookup(ID, 1), Lookup::Resolve);
    assert_eq!(cache.lookup(other, 1), Lookup::Resolve);
    let url = "https://example/other?expire=100";
    cache.finish(other, Some(url.to_string()), 2).unwrap();
    assert_eq!(cache.lookup(other, 3), Lookup::Hit(url.to_string()));
    assert_eq!(cache.lookup(ID, 3), Lookup::Wait);
    cache.finish(ID, None, 4).unwrap_err();
    assert_eq!(cache.lookup(other, 5), Lookup::Hit(url.to_string()));
}

#[test]
fn scenario_expiring_media_url() {
    let mut cache = ResolutionCache::new();
    let url = "https://example/media?exp=1700000600";
    let mut resolver_calls = 0;

    assert_eq!(cache.lookup(ID, 1700000000), Lookup::Resolve);
    resolver_calls += 1;
    assert_eq!(cache.finish(ID, Some(url.to_string()), 1700000000), Ok(url.to_string()));

    assert_eq!(cache.lookup(ID, 1700000500), Lookup::Hit(url.to_string()));

    assert_eq!(cache.lookup(ID, 1700000700), Lookup::Resolve);
    resolver_calls += 1;
    assert_eq!(resolver_calls, 2);
}

#[test]
fn error_messages() {
    assert_eq!(
        ResolveError::NoMatch.message(),
        "Unable to capture video id from request uri with regex"
    );
    assert_eq!(ResolveError::ResolutionFailed.message(), "Unable to proxy video with yt-dlp");
}
