use image_gateway::fetcher::{HttpImageFetcher, Resource, TaggedElement};
use image_gateway::http_cache::{can_serve_cache_at, CacheMetadata, CanServeCache};

const SECOND: i64 = 1_000_000;

fn current_instant() -> i64 {
    chrono::Utc::now().timestamp_micros()
}

fn meta(
    cache_control: Option<&str>,
    etag: Option<&str>,
    expires: Option<String>,
    request_time: Option<i64>,
) -> CacheMetadata {
    CacheMetadata {
        request_time,
        etag: etag.map(String::from),
        expires,
        cache_control: cache_control.map(String::from),
    }
}

fn http_date(micros: i64) -> String {
    chrono::DateTime::from_timestamp_micros(micros)
        .unwrap()
        .format("%a, %d %b %Y %H:%M:%S GMT")
        .to_string()
}

fn is_yes(v: &CanServeCache) -> bool {
    matches!(v, CanServeCache::Yes)
}

fn is_no(v: &CanServeCache) -> bool {
    matches!(v, CanServeCache::No)
}

// Each verdict is taken a moment (one microsecond) after `now` was read.

#[test]
fn empty_metadata_cannot_be_served() {
    let now = current_instant();
    assert!(is_no(&can_serve_cache_at(&meta(None, None, None, None), now + 1)));
}

#[test]
fn immutable_is_served() {
    let now = current_instant();
    assert!(is_yes(&can_serve_cache_at(&meta(Some("immutable"), None, None, None), now + 1)));
}

#[test]
fn no_store_is_not_served() {
    let now = current_instant();
    assert!(is_no(&can_serve_cache_at(&meta(Some("no-store"), None, None, None), now + 1)));
}

#[test]
fn max_age_within_window_is_served() {
    let now = current_instant();
    let m = meta(Some("max-age=60"), None, None, Some(now - 59 * SECOND));
    assert!(is_yes(&can_serve_cache_at(&m, now + 1)));
}

#[test]
fn max_age_elapsed_revalidates_by_time() {
    let now = current_instant();
    let m = meta(Some("max-age=60"), None, None, Some(now - 60 * SECOND));
    match can_serve_cache_at(&m, now + 1) {
        CanServeCache::MustReinvalidateByRequestTime(t) => assert_eq!(t, now - 60 * SECOND),
        other => panic!("unexpected verdict {:?}", other),
    }
}

#[test]
fn max_age_elapsed_with_etag_revalidates_by_etag() {
    let now = current_instant();
    let m = meta(Some("max-age=60"), Some("W/11"), None, Some(now - 60 * SECOND));
    match can_serve_cache_at(&m, now + 1) {
        CanServeCache::MustReinvalidateETag(e) => assert_eq!(e, "W/11"),
        other => panic!("unexpected verdict {:?}", other),
    }
}

#[test]
fn future_expires_is_served() {
    let now = current_instant();
    let m = meta(None, None, Some(http_date(now + 10 * SECOND)), None);
    assert!(is_yes(&can_serve_cache_at(&m, now + 1)));
}

#[test]
fn past_expires_is_not_served() {
    let now = current_instant();
    let m = meta(None, None, Some(http_date(now - 10 * SECOND)), None);
    assert!(is_no(&can_serve_cache_at(&m, now + 1)));
}

#[test]
fn unreadable_expires_has_passed() {
    let now = current_instant();
    let m = meta(None, None, Some(String::from("0")), None);
    assert!(is_no(&can_serve_cache_at(&m, now + 1)));
}

#[test]
fn etag_alone_revalidates_by_etag() {
    let now = current_instant();
    match can_serve_cache_at(&meta(None, Some("W/38271"), None, None), now + 1) {
        CanServeCache::MustReinvalidateETag(e) => assert_eq!(e, "W/38271"),
        other => panic!("unexpected verdict {:?}", other),
    }
}

#[test]
fn request_time_alone_revalidates_by_time() {
    let now = current_instant();
    match can_serve_cache_at(&meta(None, None, None, Some(now - 59 * SECOND)), now + 1) {
        CanServeCache::MustReinvalidateByRequestTime(t) => assert_eq!(t, now - 59 * SECOND),
        other => panic!("unexpected verdict {:?}", other),
    }
}

#[test]
fn max_age_window_edges() {
    let start: i64 = 1_700_000_000 * SECOND;
    let m = meta(Some("public, max-age=1"), None, None, Some(start));
    assert!(is_yes(&can_serve_cache_at(&m, start + SECOND)));
    assert!(matches!(
        can_serve_cache_at(&m, start + SECOND + 1),
        CanServeCache::MustReinvalidateByRequestTime(t) if t == start
    ));
}

#[test]
fn unparsable_cache_control_falls_through() {
    let start: i64 = 1_700_000_000 * SECOND;
    let m = meta(Some("max-age=soon"), Some("tag"), None, Some(start));
    assert!(matches!(
        can_serve_cache_at(&m, start),
        CanServeCache::MustReinvalidateETag(ref e) if e == "tag"
    ));
}

#[test]
fn clock_reading_verdict() {
    let resource = TaggedElement {
        object: Resource::default(),
        cache_data: meta(Some("immutable"), None, None, None),
    };
    assert!(is_yes(&HttpImageFetcher::can_serve_cache(&resource)));
    let stale = TaggedElement {
        object: Resource::default(),
        cache_data: meta(Some("max-age=1"), None, None, Some(0)),
    };
    assert!(matches!(
        HttpImageFetcher::can_serve_cache(&stale),
        CanServeCache::MustReinvalidateByRequestTime(0)
    ));
}
