use image_gateway::cache::{CacheEngine, HashMapCacheEngine};
use image_gateway::config::{ApplicationCache, CacheType, Config, OverriddenCache};
use image_gateway::fetcher::{
    Condition, FetchError, FetchPlan, HttpImageFetcher, Resource, UpstreamRequest, UpstreamResponse,
};
use image_gateway::gateway::GatewayError;
use image_gateway::tag::generate_resource_tag;

const SECOND: i64 = 1_000_000;
const T0: i64 = 1_700_000_000 * SECOND;

fn config(allow_from: Vec<&str>, overrides: Vec<(&str, &str)>) -> Config {
    Config {
        allow_from: allow_from.into_iter().map(String::from).collect(),
        overridden_cache: overrides
            .into_iter()
            .map(|(d, c)| OverriddenCache { domain: String::from(d), cache_control: String::from(c) })
            .collect(),
        maximum_image_size: 3840 * 2160,
        cache: ApplicationCache { cache_type: CacheType::InMemory },
    }
}

fn answer(status: u16, body: &str, cache_control: Option<&str>, etag: Option<&str>) -> UpstreamResponse {
    UpstreamResponse {
        status,
        content_type: Some(String::from("image/jpeg")),
        etag: etag.map(String::from),
        expires: None,
        cache_control: cache_control.map(String::from),
        body: body.as_bytes().to_vec(),
    }
}

fn request_of(plan: FetchPlan) -> UpstreamRequest {
    match plan {
        FetchPlan::Request(r) => r,
        FetchPlan::Serve(_) => panic!("expected an upstream request"),
    }
}

fn served(plan: FetchPlan) -> Resource {
    match plan {
        FetchPlan::Serve(r) => r,
        FetchPlan::Request(_) => panic!("expected the cached resource"),
    }
}

/// Fetches `url` once, answering 200 with `body`.
fn prime(
    fetcher: &HttpImageFetcher,
    cache: &mut HashMapCacheEngine,
    url: &str,
    body: &str,
    cache_control: Option<&str>,
    etag: Option<&str>,
    at: i64,
) -> Resource {
    let request = request_of(fetcher.begin_fetch(cache, url, at).unwrap());
    fetcher.complete_fetch(cache, request, answer(200, body, cache_control, etag), at).unwrap()
}

#[test]
fn test_fetch_image() {
    let url = "http://127.0.0.1:8080/nocache.png";
    let fetcher = HttpImageFetcher { config: config(vec![], vec![]) };
    let mut cache = HashMapCacheEngine::new();
    assert!(cache.get(&generate_resource_tag(url)).is_none());

    let request = request_of(fetcher.begin_fetch(&cache, url, T0).unwrap());
    assert!(matches!(request.condition, Condition::Unconditional));
    assert!(request.cached.is_none());
    let image = fetcher.complete_fetch(&mut cache, request, answer(200, "jpg", None, None), T0).unwrap();

    assert_eq!(image.content, b"jpg".to_vec());
    assert_eq!(image.response_data.content_type, "image/jpeg");
    assert!(image.response_data.cache_control.is_none());
    assert!(cache.get(&generate_resource_tag(url)).is_some());
}

#[test]
fn test_try_to_fetch_if_cache_found() {
    let url = "http://127.0.0.1:8080/cached-etag.png";
    let fetcher = HttpImageFetcher { config: config(vec![], vec![]) };
    let mut cache = HashMapCacheEngine::new();
    prime(&fetcher, &mut cache, url, "cached-object-etag", None, Some("existing"), T0);

    let request = request_of(fetcher.begin_fetch(&cache, url, T0 + SECOND).unwrap());
    assert!(matches!(request.condition, Condition::IfNoneMatch(ref e) if e == "existing"));
    let image = fetcher.complete_fetch(&mut cache, request, answer(304, "new body", None, None), T0 + SECOND).unwrap();

    assert_eq!(image.content, b"cached-object-etag".to_vec());
}

#[test]
fn test_try_to_fetch_if_cache_found_but_newer_exists() {
    let url = "http://127.0.0.1:8080/cached-etag.png";
    let fetcher = HttpImageFetcher { config: config(vec![], vec![]) };
    let mut cache = HashMapCacheEngine::new();
    prime(&fetcher, &mut cache, url, "cached-object-etag", None, Some("existing"), T0);

    let request = request_of(fetcher.begin_fetch(&cache, url, T0 + SECOND).unwrap());
    assert!(matches!(request.condition, Condition::IfNoneMatch(_)));
    let image = fetcher.complete_fetch(&mut cache, request, answer(200, "new body", None, None), T0 + SECOND).unwrap();

    assert_eq!(image.content, b"new body".to_vec());
}

#[test]
fn immutable_responses_are_served_without_upstream() {
    let url = "http://origin/pic.jpg";
    let fetcher = HttpImageFetcher { config: config(vec![], vec![]) };
    let mut cache = HashMapCacheEngine::new();
    let first = prime(&fetcher, &mut cache, url, "bytes", Some("immutable"), None, T0);
    for later in [T0, T0 + SECOND, T0 + 365 * 24 * 3600 * SECOND] {
        let again = served(fetcher.begin_fetch(&cache, url, later).unwrap());
        assert_eq!(again.content, first.content);
        assert_eq!(again.response_data.id, first.response_data.id);
    }
}

#[test]
fn no_store_responses_are_fetched_again() {
    let url = "http://origin/pic.jpg";
    let fetcher = HttpImageFetcher { config: config(vec![], vec![]) };
    let mut cache = HashMapCacheEngine::new();
    prime(&fetcher, &mut cache, url, "bytes", Some("no-store"), None, T0);
    let request = request_of(fetcher.begin_fetch(&cache, url, T0).unwrap());
    assert!(matches!(request.condition, Condition::Unconditional));
    // The peek still finds the stored data; only its freshness is refused.
    assert!(fetcher.serve_cache(&cache, url).is_some());
}

#[test]
fn max_age_serves_then_revalidates_with_etag() {
    let url = "http://origin/pic.jpg";
    let fetcher = HttpImageFetcher { config: config(vec![], vec![]) };
    let mut cache = HashMapCacheEngine::new();
    prime(&fetcher, &mut cache, url, "bytes", Some("max-age=60"), Some("\"v1\""), T0);
    served(fetcher.begin_fetch(&cache, url, T0 + 60 * SECOND).unwrap());
    let peek = fetcher.serve_cache(&cache, url).unwrap();
    assert_eq!(peek.cache_control.as_deref(), Some("max-age=60"));
    assert!(fetcher.serve_cache(&cache, "http://origin/other.jpg").is_none());
    let request = request_of(fetcher.begin_fetch(&cache, url, T0 + 61 * SECOND).unwrap());
    assert!(matches!(request.condition, Condition::IfNoneMatch(ref e) if e == "\"v1\""));
}

#[test]
fn max_age_expired_revalidates_by_date_and_keeps_the_identifier() {
    let url = "http://origin/pic.jpg";
    let fetcher = HttpImageFetcher { config: config(vec![], vec![]) };
    let mut cache = HashMapCacheEngine::new();
    let first = prime(&fetcher, &mut cache, url, "bytes", Some("max-age=1"), None, T0);

    let later = T0 + 2 * SECOND;
    let request = request_of(fetcher.begin_fetch(&cache, url, later).unwrap());
    assert!(matches!(
        request.condition,
        Condition::IfModifiedSince(ref d) if d == "Tue, 14 Nov 2023 22:13:20 GMT"
    ));
    let again = fetcher.complete_fetch(&mut cache, request, answer(304, "", None, None), later).unwrap();
    assert_eq!(again.content, first.content);
    assert_eq!(again.response_data.id, first.response_data.id);
}

#[test]
fn second_fetch_needs_no_upstream() {
    let url = "http://origin/pic.jpg";
    let fetcher = HttpImageFetcher { config: config(vec![], vec![]) };
    let mut cache = HashMapCacheEngine::new();
    let first = prime(&fetcher, &mut cache, url, "bytes", Some("max-age=600"), None, T0);
    let again = served(fetcher.begin_fetch(&cache, url, T0 + SECOND).unwrap());
    assert_eq!(again.content, first.content);
    assert_eq!(again.response_data.id, first.response_data.id);
}

#[test]
fn allow_list_refuses_other_hosts() {
    let fetcher = HttpImageFetcher { config: config(vec!["example.com"], vec![]) };
    let cache = HashMapCacheEngine::new();
    let refused = fetcher.begin_fetch(&cache, "https://evil.test/x.png", T0).unwrap_err();
    assert!(matches!(refused, FetchError::NoAccess));
    assert_eq!(GatewayError::Fetch(refused).status(), 403);
    assert!(fetcher.begin_fetch(&cache, "https://cdn.example.com/x.png", T0).is_ok());
}

#[test]
fn unparsable_urls_are_refused() {
    let fetcher = HttpImageFetcher { config: config(vec![], vec![]) };
    let cache = HashMapCacheEngine::new();
    assert!(matches!(
        fetcher.begin_fetch(&cache, "not a url", T0),
        Err(FetchError::InvalidResourceTag(_))
    ));
    let listed = HttpImageFetcher { config: config(vec!["example.com"], vec![]) };
    assert!(matches!(
        listed.begin_fetch(&cache, "data:text/plain,hi", T0),
        Err(FetchError::InvalidResourceTag(_))
    ));
}

#[test]
fn upstream_errors_map_to_fetch_errors() {
    let url = "http://origin/pic.jpg";
    let fetcher = HttpImageFetcher { config: config(vec![], vec![]) };
    let mut cache = HashMapCacheEngine::new();
    let request = request_of(fetcher.begin_fetch(&cache, url, T0).unwrap());
    let e = fetcher.complete_fetch(&mut cache, request, answer(404, "", None, None), T0).unwrap_err();
    assert!(matches!(e, FetchError::NotFound));
    assert_eq!(GatewayError::Fetch(e).status(), 404);
    let request = request_of(fetcher.begin_fetch(&cache, url, T0).unwrap());
    let e = fetcher.complete_fetch(&mut cache, request, answer(503, "", None, None), T0).unwrap_err();
    assert!(matches!(e, FetchError::NotAvailable));
    assert_eq!(GatewayError::Fetch(e).status(), 503);
    let request = request_of(fetcher.begin_fetch(&cache, url, T0).unwrap());
    let e = fetcher.complete_fetch(&mut cache, request, answer(304, "", None, None), T0).unwrap_err();
    assert!(matches!(e, FetchError::Unknown(_)));
    assert!(cache.get(&generate_resource_tag(url)).is_none());
}

#[test]
fn overrides_replace_upstream_cache_control() {
    let url = "http://img.localhost/pic.jpg";
    let fetcher = HttpImageFetcher { config: config(vec![], vec![("localhost", "immutable")]) };
    let mut cache = HashMapCacheEngine::new();
    let first = prime(&fetcher, &mut cache, url, "bytes", Some("no-store"), None, T0);
    assert_eq!(first.response_data.cache_control.as_deref(), Some("immutable"));
    served(fetcher.begin_fetch(&cache, url, T0 + 1000 * SECOND).unwrap());
}

#[test]
fn missing_content_type_falls_back_to_octet_stream() {
    let url = "http://origin/blob";
    let fetcher = HttpImageFetcher { config: config(vec![], vec![]) };
    let mut cache = HashMapCacheEngine::new();
    let request = request_of(fetcher.begin_fetch(&cache, url, T0).unwrap());
    let mut response = answer(200, "x", None, None);
    response.content_type = None;
    let r = fetcher.complete_fetch(&mut cache, request, response, T0).unwrap();
    assert_eq!(r.response_data.content_type, "application/octet-stream");
    assert_eq!(r.response_data.id.len(), 36);
}

#[test]
fn default_config_values() {
    let c = Config::default();
    assert_eq!(c.allow_from, vec![String::from("localhost")]);
    assert_eq!(c.maximum_image_size, 3840 * 2160);
    assert_eq!(c.overridden_cache[0].cache_control, "immutable");
    assert!(c.allows_host("localhost"));
    assert!(c.allows_host("img.localhost"));
    assert!(!c.allows_host("example.com"));
}
