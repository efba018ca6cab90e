//! HTTP caching rules: `Cache-Control` directives, HTTP dates and the verdict
//! on whether a stored upstream response may be served as it is.
//!
//! Instants are microseconds since the Unix epoch.

use vstd::prelude::*;
use crate::wire::opt_str_view;

verus! {

/// The `Cache-Control` directives that decide freshness.
#[derive(Clone, Copy, Debug)]
pub struct CacheDirectives {
    pub immutable: bool,
    pub no_store: bool,
    /// `max-age`, in seconds.
    pub max_age: Option<u64>,
}

/// What the `cache_control` crate makes of a `Cache-Control` value
/// (`None` where a numeric directive does not parse).
pub uninterp spec fn cache_directives_of(value: Seq<char>) -> Option<CacheDirectives>;

/// Relies on `cache_control::CacheControl::from_value`: a function of the value
/// alone; `max_age` is built with `Duration::from_secs`, so whole seconds come back.
#[verifier::external_body]
pub(crate) fn parse_cache_control(value: &str) -> (r: Option<CacheDirectives>)
    ensures
        r == cache_directives_of(value@),
{
    cache_control::CacheControl::from_value(value).map(|cc| CacheDirectives {
        immutable: cc.immutable,
        no_store: cc.no_store,
        max_age: cc.max_age.map(|d| d.as_secs()),
    })
}

/// The format of HTTP dates (`Mon, 02 Jan 2006 15:04:05 GMT`).
pub const HTTP_DATE_FORMAT: &'static str = "%a, %d %b %Y %H:%M:%S GMT";

/// The instant an HTTP date names, as chrono reads it.
pub uninterp spec fn http_date_instant(text: Seq<char>) -> Option<i64>;

/// Relies on `chrono::NaiveDateTime::parse_from_str` with the HTTP date format,
/// read as UTC: a function of the text alone.
#[verifier::external_body]
pub(crate) fn parse_http_date(text: &str) -> (r: Option<i64>)
    ensures
        r == http_date_instant(text@),
{
    chrono::NaiveDateTime::parse_from_str(text, HTTP_DATE_FORMAT)
        .ok()
        .map(|t| t.and_utc().timestamp_micros())
}

/// An instant written as an HTTP date, where chrono can represent it.
pub uninterp spec fn http_date_text(instant: i64) -> Option<Seq<char>>;

/// Relies on `chrono::DateTime::from_timestamp_micros` and `format` with the
/// HTTP date format: a function of the instant alone.
#[verifier::external_body]
pub(crate) fn format_http_date(instant: i64) -> (r: Option<String>)
    ensures
        opt_str_view(&r) == http_date_text(instant),
{
    chrono::DateTime::from_timestamp_micros(instant).map(|t| t.format(HTTP_DATE_FORMAT).to_string())
}

/// Relies on `chrono::Utc::now`: the current instant. Nothing is promised of it.
#[verifier::external_body]
pub(crate) fn current_instant() -> (r: i64) {
    chrono::Utc::now().timestamp_micros()
}

/// What was recorded about a stored upstream response.
#[derive(Clone, Debug)]
pub struct CacheMetadata {
    /// When the request that produced the response was sent.
    pub request_time: Option<i64>,
    pub etag: Option<String>,
    pub expires: Option<String>,
    pub cache_control: Option<String>,
}

pub ghost struct MetadataView {
    pub request_time: Option<i64>,
    pub etag: Option<Seq<char>>,
    pub expires: Option<Seq<char>>,
    pub cache_control: Option<Seq<char>>,
}

impl View for CacheMetadata {
    type V = MetadataView;

    open spec fn view(&self) -> MetadataView {
        MetadataView {
            request_time: self.request_time,
            etag: opt_str_view(&self.etag),
            expires: opt_str_view(&self.expires),
            cache_control: opt_str_view(&self.cache_control),
        }
    }
}

/// Whether a stored response may be served, and how to revalidate it if not.
#[derive(Debug)]
pub enum CanServeCache {
    Yes,
    MustReinvalidateETag(String),
    MustReinvalidateByRequestTime(i64),
    No,
}

pub ghost enum Verdict {
    Yes,
    ETag(Seq<char>),
    ByTime(i64),
    No,
}

impl View for CanServeCache {
    type V = Verdict;

    open spec fn view(&self) -> Verdict {
        match self {
            CanServeCache::Yes => Verdict::Yes,
            CanServeCache::MustReinvalidateETag(e) => Verdict::ETag(e@),
            CanServeCache::MustReinvalidateByRequestTime(t) => Verdict::ByTime(*t),
            CanServeCache::No => Verdict::No,
        }
    }
}

pub open spec fn micros_per_second() -> int {
    1_000_000
}

/// The verdict that `Cache-Control` settles on its own, if any. A value that
/// does not parse settles nothing.
pub open spec fn directive_verdict(m: MetadataView, now: int) -> Option<Verdict> {
    match m.cache_control {
        None => None,
        Some(cc) => match cache_directives_of(cc) {
            None => None,
            Some(d) => if d.immutable {
                Some(Verdict::Yes)
            } else if d.no_store {
                Some(Verdict::No)
            } else {
                match (m.request_time, d.max_age) {
                    (Some(t), Some(age)) => Some(
                        if now <= t + age * micros_per_second() {
                            Verdict::Yes
                        } else {
                            match m.etag {
                                Some(e) => Verdict::ETag(e),
                                None => Verdict::ByTime(t),
                            }
                        },
                    ),
                    _ => None,
                }
            },
        },
    }
}

/// The freshness verdict at instant `now`: `Cache-Control` first, then
/// `Expires` (one that does not parse has passed), then an `ETag`, then the
/// request time.
pub open spec fn cache_verdict(m: MetadataView, now: int) -> Verdict {
    match directive_verdict(m, now) {
        Some(v) => v,
        None => match m.expires {
            Some(x) => match http_date_instant(x) {
                Some(t) => if now <= t {
                    Verdict::Yes
                } else {
                    Verdict::No
                },
                None => Verdict::No,
            },
            None => match m.etag {
                Some(e) => Verdict::ETag(e),
                None => match m.request_time {
                    Some(t) => Verdict::ByTime(t),
                    None => Verdict::No,
                },
            },
        },
    }
}

fn clone_str(s: &String) -> (r: String)
    ensures
        r@ == s@,
{
    s.clone()
}

/// The freshness verdict on `meta` at instant `now`.
pub fn can_serve_cache_at(meta: &CacheMetadata, now: i64) -> (r: CanServeCache)
    ensures
        r@ == cache_verdict(meta@, now as int),
{
    if let Some(cc) = &meta.cache_control {
        if let Some(d) = parse_cache_control(cc.as_str()) {
            if d.immutable {
                return CanServeCache::Yes;
            }
            if d.no_store {
                return CanServeCache::No;
            }
            if let (Some(t), Some(age)) = (meta.request_time, d.max_age) {
                let expires_at: i128 = t as i128 + age as i128 * 1_000_000i128;
                if (now as i128) <= expires_at {
                    return CanServeCache::Yes;
                }
                return match &meta.etag {
                    Some(e) => CanServeCache::MustReinvalidateETag(clone_str(e)),
                    None => CanServeCache::MustReinvalidateByRequestTime(t),
                };
            }
        }
    }
    if let Some(x) = &meta.expires {
        return match parse_http_date(x.as_str()) {
            Some(t) => if now <= t {
                CanServeCache::Yes
            } else {
                CanServeCache::No
            },
            None => CanServeCache::No,
        };
    }
    if let Some(e) = &meta.etag {
        return CanServeCache::MustReinvalidateETag(clone_str(e));
    }
    if let Some(t) = meta.request_time {
        return CanServeCache::MustReinvalidateByRequestTime(t);
    }
    CanServeCache::No
}

} // verus!
