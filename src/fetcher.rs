//! The fetcher: upstream resources, their cached form, and the decisions
//! around an upstream request (serve, revalidate, or fetch; and what to keep).

use vstd::prelude::*;
use vstd::string::*;
use vstd::utf8::encode_utf8;
use crate::cache::CacheEngine;
use crate::config::{host_allowed, override_for, Config};
use crate::http_cache::{
    cache_directives_of, micros_per_second,
    cache_verdict, format_http_date, http_date_text, can_serve_cache_at, current_instant, CacheMetadata,
    CanServeCache, MetadataView, Verdict,
};
use crate::tag::{generate_resource_tag, tag_of};
use crate::wire::{
    lemma_bytes_round_trip, lemma_opt_i64_round_trip, lemma_opt_str_round_trip, lemma_str_round_trip,
    opt_str_view, read_bytes, read_opt_i64, read_opt_str, read_str, ser_bytes, ser_opt_i64, ser_opt_str,
    ser_str, take_bytes, take_opt_i64, take_opt_str, take_str, write_bytes, write_opt_i64, write_opt_str,
    write_str,
};

verus! {

/// What the gateway forwards of an upstream response.
#[derive(Clone, Debug)]
pub struct ResponseData {
    /// Minted on the first successful fetch; downstream caches key by it.
    pub id: String,
    pub content_type: String,
    /// Forwarded `Cache-Control` (after any override).
    pub cache_control: Option<String>,
    /// Forwarded `Expires`.
    pub expires: Option<String>,
}

/// An upstream resource: its response data and its bytes.
#[derive(Clone, Debug)]
pub struct Resource {
    pub response_data: ResponseData,
    pub content: Vec<u8>,
}

/// A cached value together with what decides its freshness.
#[derive(Clone, Debug)]
pub struct TaggedElement<T> {
    pub object: T,
    pub cache_data: CacheMetadata,
}

pub ghost struct ResourceView {
    pub id: Seq<char>,
    pub content_type: Seq<char>,
    pub cache_control: Option<Seq<char>>,
    pub expires: Option<Seq<char>>,
    pub content: Seq<u8>,
}

pub ghost struct TaggedView {
    pub resource: ResourceView,
    pub meta: MetadataView,
}

impl View for Resource {
    type V = ResourceView;

    open spec fn view(&self) -> ResourceView {
        ResourceView {
            id: self.response_data.id@,
            content_type: self.response_data.content_type@,
            cache_control: opt_str_view(&self.response_data.cache_control),
            expires: opt_str_view(&self.response_data.expires),
            content: self.content@,
        }
    }
}

impl View for TaggedElement<Resource> {
    type V = TaggedView;

    open spec fn view(&self) -> TaggedView {
        TaggedView { resource: self.object@, meta: self.cache_data@ }
    }
}

pub open spec fn ser_resource(r: ResourceView) -> Seq<u8> {
    ser_str(r.id) + ser_str(r.content_type) + ser_opt_str(r.cache_control) + ser_opt_str(r.expires)
        + ser_bytes(r.content)
}

pub open spec fn ser_meta(m: MetadataView) -> Seq<u8> {
    ser_opt_i64(m.request_time) + ser_opt_str(m.etag) + ser_opt_str(m.expires) + ser_opt_str(
        m.cache_control,
    )
}

/// The cached form of a tagged resource.
pub open spec fn ser_tagged(t: TaggedView) -> Seq<u8> {
    ser_resource(t.resource) + ser_meta(t.meta)
}

pub open spec fn opt_fits(o: Option<Seq<char>>) -> bool {
    o matches Some(s) ==> encode_utf8(s).len() <= u64::MAX
}

/// Every length in the cached form fits its 64-bit prefix (true of any value in memory).
pub open spec fn wire_sized(t: TaggedView) -> bool {
    &&& encode_utf8(t.resource.id).len() <= u64::MAX
    &&& encode_utf8(t.resource.content_type).len() <= u64::MAX
    &&& opt_fits(t.resource.cache_control)
    &&& opt_fits(t.resource.expires)
    &&& t.resource.content.len() <= u64::MAX
    &&& opt_fits(t.meta.etag)
    &&& opt_fits(t.meta.expires)
    &&& opt_fits(t.meta.cache_control)
}

pub open spec fn parse_resource(b: Seq<u8>) -> Option<(ResourceView, Seq<u8>)> {
    match take_str(b) {
        None => None,
        Some((id, b)) => match take_str(b) {
            None => None,
            Some((content_type, b)) => match take_opt_str(b) {
                None => None,
                Some((cache_control, b)) => match take_opt_str(b) {
                    None => None,
                    Some((expires, b)) => match take_bytes(b) {
                        None => None,
                        Some((content, b)) => Some(
                            (ResourceView { id, content_type, cache_control, expires, content }, b),
                        ),
                    },
                },
            },
        },
    }
}

pub open spec fn parse_meta(b: Seq<u8>) -> Option<(MetadataView, Seq<u8>)> {
    match take_opt_i64(b) {
        None => None,
        Some((request_time, b)) => match take_opt_str(b) {
            None => None,
            Some((etag, b)) => match take_opt_str(b) {
                None => None,
                Some((expires, b)) => match take_opt_str(b) {
                    None => None,
                    Some((cache_control, b)) => Some(
                        (MetadataView { request_time, etag, expires, cache_control }, b),
                    ),
                },
            },
        },
    }
}

/// Reading back a cached tagged resource: all of the bytes, or nothing.
pub open spec fn parse_tagged(b: Seq<u8>) -> Option<TaggedView> {
    match parse_resource(b) {
        None => None,
        Some((resource, b)) => match parse_meta(b) {
            None => None,
            Some((meta, b)) => if b.len() == 0 {
                Some(TaggedView { resource, meta })
            } else {
                None
            },
        },
    }
}

proof fn lemma_resource_round_trip(r: ResourceView, rest: Seq<u8>)
    requires
        encode_utf8(r.id).len() <= u64::MAX,
        encode_utf8(r.content_type).len() <= u64::MAX,
        opt_fits(r.cache_control),
        opt_fits(r.expires),
        r.content.len() <= u64::MAX,
    ensures
        parse_resource(ser_resource(r) + rest) == Some((r, rest)),
{
    let s5 = ser_bytes(r.content) + rest;
    let s4 = ser_opt_str(r.expires) + s5;
    let s3 = ser_opt_str(r.cache_control) + s4;
    let s2 = ser_str(r.content_type) + s3;
    let s1 = ser_str(r.id) + s2;
    assert(ser_resource(r) + rest =~= s1);
    lemma_str_round_trip(r.id, s2);
    lemma_str_round_trip(r.content_type, s3);
    lemma_opt_str_round_trip(r.cache_control, s4);
    lemma_opt_str_round_trip(r.expires, s5);
    lemma_bytes_round_trip(r.content, rest);
}

#[verifier::rlimit(30)]
proof fn lemma_meta_round_trip(m: MetadataView, rest: Seq<u8>)
    requires
        opt_fits(m.etag),
        opt_fits(m.expires),
        opt_fits(m.cache_control),
    ensures
        parse_meta(ser_meta(m) + rest) == Some((m, rest)),
{
    let s4 = ser_opt_str(m.cache_control) + rest;
    let s3 = ser_opt_str(m.expires) + s4;
    let s2 = ser_opt_str(m.etag) + s3;
    let s1 = ser_opt_i64(m.request_time) + s2;
    assert(ser_meta(m) + rest =~= s1);
    lemma_opt_i64_round_trip(m.request_time, s2);
    lemma_opt_str_round_trip(m.etag, s3);
    lemma_opt_str_round_trip(m.expires, s4);
    lemma_opt_str_round_trip(m.cache_control, rest);
    assert(take_opt_i64(s1) == Some((m.request_time, s2)));
    assert(take_opt_str(s2) == Some((m.etag, s3)));
    assert(take_opt_str(s3) == Some((m.expires, s4)));
    assert(take_opt_str(s4) == Some((m.cache_control, rest)));
    let mv = MetadataView {
        request_time: m.request_time,
        etag: m.etag,
        expires: m.expires,
        cache_control: m.cache_control,
    };
    assert(mv == m);
}

/// A tagged resource reads back as itself.
pub proof fn lemma_tagged_round_trip(t: TaggedView)
    requires
        wire_sized(t),
    ensures
        parse_tagged(ser_tagged(t)) == Some(t),
{
    let e = Seq::<u8>::empty();
    lemma_meta_round_trip(t.meta, e);
    assert(ser_meta(t.meta) + e =~= ser_meta(t.meta));
    lemma_resource_round_trip(t.resource, ser_meta(t.meta));
}

impl TaggedElement<Resource> {
    /// The cached form of this tagged resource.
    pub fn to_bytes(&self) -> (r: Vec<u8>)
        ensures
            r@ == ser_tagged(self@),
            wire_sized(self@),
    {
        let res = &self.object;
        let meta = &self.cache_data;
        let mut out: Vec<u8> = Vec::new();
        write_str(&mut out, res.response_data.id.as_str());
        write_str(&mut out, res.response_data.content_type.as_str());
        write_opt_str(&mut out, &res.response_data.cache_control);
        write_opt_str(&mut out, &res.response_data.expires);
        write_bytes(&mut out, res.content.as_slice());
        write_opt_i64(&mut out, meta.request_time);
        write_opt_str(&mut out, &meta.etag);
        write_opt_str(&mut out, &meta.expires);
        write_opt_str(&mut out, &meta.cache_control);
        assert(out@ =~= ser_tagged(self@));
        out
    }

    /// Reads a tagged resource back from its cached form.
    pub fn from_bytes(b: &[u8]) -> (r: Option<TaggedElement<Resource>>)
        ensures
            match r {
                Some(t) => parse_tagged(b@) == Some(t@),
                None => parse_tagged(b@) is None,
            },
    {
        assert(b@.skip(0) =~= b@);
        let (object, p) = match read_resource(b, 0) {
            Some(x) => x,
            None => return None,
        };
        let (cache_data, p) = match read_meta(b, p) {
            Some(x) => x,
            None => return None,
        };
        if p != b.len() {
            return None;
        }
        Some(TaggedElement { object, cache_data })
    }
}

fn read_resource(b: &[u8], pos: usize) -> (r: Option<(Resource, usize)>)
    requires
        pos <= b@.len(),
    ensures
        match r {
            Some((res, p)) => pos <= p <= b@.len() && parse_resource(b@.skip(pos as int)) == Some(
                (res@, b@.skip(p as int)),
            ),
            None => parse_resource(b@.skip(pos as int)) is None,
        },
{
    let (id, p) = match read_str(b, pos) {
        Some(x) => x,
        None => return None,
    };
    let (content_type, p) = match read_str(b, p) {
        Some(x) => x,
        None => return None,
    };
    let (cache_control, p) = match read_opt_str(b, p) {
        Some(x) => x,
        None => return None,
    };
    let (expires, p) = match read_opt_str(b, p) {
        Some(x) => x,
        None => return None,
    };
    let (content, p) = match read_bytes(b, p) {
        Some(x) => x,
        None => return None,
    };
    let res = Resource {
        response_data: ResponseData { id, content_type, cache_control, expires },
        content,
    };
    Some((res, p))
}

#[verifier::rlimit(30)]
fn read_meta(b: &[u8], pos: usize) -> (r: Option<(CacheMetadata, usize)>)
    requires
        pos <= b@.len(),
    ensures
        match r {
            Some((m, p)) => pos <= p <= b@.len() && parse_meta(b@.skip(pos as int)) == Some(
                (m@, b@.skip(p as int)),
            ),
            None => parse_meta(b@.skip(pos as int)) is None,
        },
{
    let (request_time, p) = match read_opt_i64(b, pos) {
        Some(x) => x,
        None => return None,
    };
    let (etag, p) = match read_opt_str(b, p) {
        Some(x) => x,
        None => return None,
    };
    let (expires, p) = match read_opt_str(b, p) {
        Some(x) => x,
        None => return None,
    };
    let (cache_control, p) = match read_opt_str(b, p) {
        Some(x) => x,
        None => return None,
    };
    Some((CacheMetadata { request_time, etag, expires, cache_control }, p))
}

/// The host of a URL as the `url` crate reads it: `None` when the text does
/// not parse, `Some(None)` when the URL has no host.
pub uninterp spec fn url_host_of(url: Seq<char>) -> Option<Option<Seq<char>>>;

pub open spec fn opt_opt_view(o: &Option<Option<String>>) -> Option<Option<Seq<char>>> {
    match o {
        None => None,
        Some(None) => Some(None),
        Some(Some(h)) => Some(Some(h@)),
    }
}

/// Relies on `url::Url::parse` and `Url::host` (written out with `to_string`):
/// a function of the text alone.
#[verifier::external_body]
fn url_host(url: &str) -> (r: Option<Option<String>>)
    ensures
        opt_opt_view(&r) == url_host_of(url@),
{
    url::Url::parse(url).ok().map(|u| u.host().map(|h| h.to_string()))
}

/// Relies on `uuid::Uuid::new_v4`: a random identifier, written in its
/// hyphenated form of 36 characters.
#[verifier::external_body]
fn new_resource_id() -> (r: String)
    ensures
        r@.len() == 36,
{
    uuid::Uuid::new_v4().to_string()
}

impl Default for Resource {
    /// An empty resource under a fresh random identifier.
    fn default() -> (r: Resource)
        ensures
            r@.id.len() == 36,
            r@.content_type.len() == 0,
            r@.cache_control is None,
            r@.expires is None,
            r@.content.len() == 0,
    {
        Resource {
            content: Vec::new(),
            response_data: ResponseData {
                id: new_resource_id(),
                content_type: String::new(),
                cache_control: None,
                expires: None,
            },
        }
    }
}

/// Why a fetch failed.
#[derive(Debug)]
pub enum FetchError {
    /// Upstream answered 4xx.
    NotFound,
    /// Upstream answered 5xx.
    NotAvailable,
    /// The host is not on the allow-list.
    NoAccess,
    /// The URL does not parse, or has no host where one is needed.
    InvalidResourceTag(String),
    InvalidFormat,
    Unknown(String),
}

/// Why the allow-list check refuses a URL.
pub ghost enum AccessError {
    InvalidResourceTag,
    NoAccess,
}

/// The allow-list check: the URL must parse; with a non-empty list it must
/// have a host, and the host must end with a listed suffix.
pub open spec fn access_error(allow_from: Seq<String>, url: Seq<char>) -> Option<AccessError> {
    match url_host_of(url) {
        None => Some(AccessError::InvalidResourceTag),
        Some(host) => if allow_from.len() == 0 {
            None
        } else {
            match host {
                None => Some(AccessError::InvalidResourceTag),
                Some(h) => if host_allowed(allow_from, h) {
                    None
                } else {
                    Some(AccessError::NoAccess)
                },
            }
        },
    }
}

/// The precondition of an upstream GET.
#[derive(Debug)]
pub enum Condition {
    Unconditional,
    IfNoneMatch(String),
    /// An HTTP date.
    IfModifiedSince(String),
}

pub ghost enum ConditionView {
    Unconditional,
    IfNoneMatch(Seq<char>),
    IfModifiedSince(Seq<char>),
}

impl View for Condition {
    type V = ConditionView;

    open spec fn view(&self) -> ConditionView {
        match self {
            Condition::Unconditional => ConditionView::Unconditional,
            Condition::IfNoneMatch(e) => ConditionView::IfNoneMatch(e@),
            Condition::IfModifiedSince(d) => ConditionView::IfModifiedSince(d@),
        }
    }
}

/// A GET to send upstream, with the cached entry it may revalidate.
#[derive(Debug)]
pub struct UpstreamRequest {
    pub url: String,
    pub condition: Condition,
    pub cached: Option<TaggedElement<Resource>>,
}

/// What to do about a requested URL.
#[derive(Debug)]
pub enum FetchPlan {
    /// The cached resource is fresh: serve it without contacting upstream.
    Serve(Resource),
    Request(UpstreamRequest),
}

pub ghost enum PlanView {
    Serve(ResourceView),
    Request(Seq<char>, ConditionView, Option<TaggedView>),
}

pub open spec fn opt_tagged_view(o: &Option<TaggedElement<Resource>>) -> Option<TaggedView> {
    match o {
        Some(t) => Some(t@),
        None => None,
    }
}

impl View for FetchPlan {
    type V = PlanView;

    open spec fn view(&self) -> PlanView {
        match self {
            FetchPlan::Serve(r) => PlanView::Serve(r@),
            FetchPlan::Request(q) => PlanView::Request(
                q.url@,
                q.condition@,
                opt_tagged_view(&q.cached),
            ),
        }
    }
}

/// What the cache holds for `url`, if it reads back.
pub open spec fn stored_entry(entries: Map<Seq<char>, Seq<u8>>, url: Seq<char>) -> Option<TaggedView> {
    if entries.contains_key(tag_of(url)) {
        parse_tagged(entries[tag_of(url)])
    } else {
        None
    }
}

/// How a stale entry is revalidated.
pub open spec fn condition_for(v: Verdict) -> ConditionView {
    match v {
        Verdict::ETag(e) => ConditionView::IfNoneMatch(e),
        Verdict::ByTime(t) => match http_date_text(t) {
            Some(d) => ConditionView::IfModifiedSince(d),
            None => ConditionView::Unconditional,
        },
        _ => ConditionView::Unconditional,
    }
}

/// The plan for `url` at instant `now`, given the cache entries.
pub open spec fn fetch_plan(entries: Map<Seq<char>, Seq<u8>>, url: Seq<char>, now: int) -> PlanView {
    match stored_entry(entries, url) {
        Some(t) => if cache_verdict(t.meta, now) == Verdict::Yes {
            PlanView::Serve(t.resource)
        } else {
            PlanView::Request(url, condition_for(cache_verdict(t.meta, now)), Some(t))
        },
        None => PlanView::Request(url, ConditionView::Unconditional, None),
    }
}

/// An upstream answer, as the HTTP client hands it over.
#[derive(Debug)]
pub struct UpstreamResponse {
    pub status: u16,
    pub content_type: Option<String>,
    pub etag: Option<String>,
    pub expires: Option<String>,
    pub cache_control: Option<String>,
    pub body: Vec<u8>,
}

pub ghost struct UpstreamView {
    pub status: u16,
    pub content_type: Option<Seq<char>>,
    pub etag: Option<Seq<char>>,
    pub expires: Option<Seq<char>>,
    pub cache_control: Option<Seq<char>>,
    pub body: Seq<u8>,
}

impl View for UpstreamResponse {
    type V = UpstreamView;

    open spec fn view(&self) -> UpstreamView {
        UpstreamView {
            status: self.status,
            content_type: opt_str_view(&self.content_type),
            etag: opt_str_view(&self.etag),
            expires: opt_str_view(&self.expires),
            cache_control: opt_str_view(&self.cache_control),
            body: self.body@,
        }
    }
}

pub open spec fn octet_stream() -> Seq<char> {
    "application/octet-stream"@
}

/// The `Cache-Control` kept for a fresh response: the override for the URL's
/// host if there is one, else the upstream's; an empty value is none.
pub open spec fn effective_cache_control(
    overrides: Seq<crate::config::OverriddenCache>,
    url: Seq<char>,
    header: Option<Seq<char>>,
) -> Option<Seq<char>> {
    let chosen = match url_host_of(url) {
        Some(Some(h)) => match override_for(overrides, h) {
            Some(c) => Some(c),
            None => header,
        },
        _ => header,
    };
    match chosen {
        Some(c) => if c.len() == 0 {
            None
        } else {
            Some(c)
        },
        None => None,
    }
}

/// The entry stored for a 200 answer.
pub open spec fn fresh_entry(
    overrides: Seq<crate::config::OverriddenCache>,
    url: Seq<char>,
    resp: UpstreamView,
    request_time: i64,
    id: Seq<char>,
) -> TaggedView {
    let cc = effective_cache_control(overrides, url, resp.cache_control);
    TaggedView {
        resource: ResourceView {
            id,
            content_type: match resp.content_type {
                Some(c) => c,
                None => octet_stream(),
            },
            cache_control: cc,
            expires: resp.expires,
            content: resp.body,
        },
        meta: MetadataView {
            request_time: Some(request_time),
            etag: resp.etag,
            expires: resp.expires,
            cache_control: cc,
        },
    }
}

fn clone_opt_str(o: &Option<String>) -> (r: Option<String>)
    ensures
        opt_str_view(&r) == opt_str_view(o),
{
    match o {
        Some(s) => Some(s.clone()),
        None => None,
    }
}

fn copy_resource(r: &Resource) -> (c: Resource)
    ensures
        c@ == r@,
{
    Resource {
        response_data: ResponseData {
            id: r.response_data.id.clone(),
            content_type: r.response_data.content_type.clone(),
            cache_control: clone_opt_str(&r.response_data.cache_control),
            expires: clone_opt_str(&r.response_data.expires),
        },
        content: vstd::slice::slice_to_vec(r.content.as_slice()),
    }
}

/// Fetches upstream resources through the cache.
pub struct HttpImageFetcher {
    pub config: Config,
}

impl HttpImageFetcher {
    /// The freshness verdict on a cached resource now.
    pub fn can_serve_cache(resource: &TaggedElement<Resource>) -> (r: CanServeCache)
        ensures
            exists|now: i64| r@ == cache_verdict(resource.cache_data@, now as int),
    {
        let now = current_instant();
        can_serve_cache_at(&resource.cache_data, now)
    }

    fn check_access(&self, resource: &str) -> (r: Result<(), FetchError>)
        ensures
            match access_error(self.config.allow_from@, resource@) {
                Some(AccessError::NoAccess) => r matches Err(FetchError::NoAccess),
                Some(AccessError::InvalidResourceTag) => r matches Err(
                    FetchError::InvalidResourceTag(_),
                ),
                None => r is Ok,
            },
    {
        match url_host(resource) {
            None => Err(FetchError::InvalidResourceTag(String::from_str(resource))),
            Some(host) => {
                if self.config.allow_from.len() == 0 {
                    return Ok(());
                }
                match host {
                    None => Err(FetchError::InvalidResourceTag(String::from_str(resource))),
                    Some(h) => if self.config.allows_host(h.as_str()) {
                        Ok(())
                    } else {
                        Err(FetchError::NoAccess)
                    },
                }
            },
        }
    }

    /// Reads the cache entry for `resource`, if it is there and reads back.
    pub fn cached_entry<C: CacheEngine>(cache: &C, resource: &str) -> (r: Option<
        TaggedElement<Resource>,
    >)
        requires
            cache.wf(),
        ensures
            cache.describes_contents() ==> opt_tagged_view(&r) == stored_entry(
                cache.entries(),
                resource@,
            ),
    {
        let tag = generate_resource_tag(resource);
        match cache.get(tag.as_str()) {
            Some(bytes) => TaggedElement::from_bytes(bytes.as_slice()),
            None => None,
        }
    }

    /// Decides, at instant `now`, whether `resource` is served from the cache
    /// or requested upstream, and with which precondition.
    pub fn begin_fetch<C: CacheEngine>(&self, cache: &C, resource: &str, now: i64) -> (r: Result<
        FetchPlan,
        FetchError,
    >)
        requires
            cache.wf(),
        ensures
            match access_error(self.config.allow_from@, resource@) {
                Some(AccessError::NoAccess) => r matches Err(FetchError::NoAccess),
                Some(AccessError::InvalidResourceTag) => r matches Err(
                    FetchError::InvalidResourceTag(_),
                ),
                None => r is Ok && (cache.describes_contents() ==> (r matches Ok(p) && p@ == fetch_plan(
                    cache.entries(),
                    resource@,
                    now as int,
                ))),
            },
    {
        match self.check_access(resource) {
            Err(e) => return Err(e),
            Ok(()) => {},
        }
        let cached = Self::cached_entry(cache, resource);
        match cached {
            Some(t) => {
                let verdict = can_serve_cache_at(&t.cache_data, now);
                let condition = match verdict {
                    CanServeCache::Yes => {
                        return Ok(FetchPlan::Serve(copy_resource(&t.object)));
                    },
                    CanServeCache::MustReinvalidateETag(e) => Condition::IfNoneMatch(e),
                    CanServeCache::MustReinvalidateByRequestTime(time) => match format_http_date(
                        time,
                    ) {
                        Some(d) => Condition::IfModifiedSince(d),
                        None => Condition::Unconditional,
                    },
                    CanServeCache::No => Condition::Unconditional,
                };
                Ok(
                    FetchPlan::Request(
                        UpstreamRequest {
                            url: String::from_str(resource),
                            condition,
                            cached: Some(t),
                        },
                    ),
                )
            },
            None => Ok(
                FetchPlan::Request(
                    UpstreamRequest {
                        url: String::from_str(resource),
                        condition: Condition::Unconditional,
                        cached: None,
                    },
                ),
            ),
        }
    }

    /// The response data of the cached resource for `resource`, whenever an
    /// entry is stored for it and reads back, fresh or not. Nothing is sent upstream.
    pub fn serve_cache<C: CacheEngine>(&self, cache: &C, resource: &str) -> (r: Option<
        ResponseData,
    >)
        requires
            cache.wf(),
        ensures
            cache.describes_contents() ==> match stored_entry(cache.entries(), resource@) {
                Some(t) => r matches Some(d) && d.id@ == t.resource.id && d.content_type@
                    == t.resource.content_type && opt_str_view(&d.cache_control)
                    == t.resource.cache_control && opt_str_view(&d.expires) == t.resource.expires,
                None => r is None,
            },
    {
        match Self::cached_entry(cache, resource) {
            Some(t) => Some(t.object.response_data),
            None => None,
        }
    }

    /// The `Cache-Control` kept for a 200 answer to `url`.
    fn kept_cache_control(&self, url: &str, header: &Option<String>) -> (r: Option<String>)
        ensures
            opt_str_view(&r) == effective_cache_control(
                self.config.overridden_cache@,
                url@,
                opt_str_view(header),
            ),
    {
        let overridden = match url_host(url) {
            Some(Some(h)) => self.config.cache_control_override(h.as_str()),
            _ => None,
        };
        let chosen = match overridden {
            Some(c) => Some(c),
            None => clone_opt_str(header),
        };
        match chosen {
            Some(c) => if c.unicode_len() == 0 {
                None
            } else {
                Some(c)
            },
            None => None,
        }
    }

    /// Handles the upstream answer to `request`, sent at instant `request_time`:
    /// 4xx and 5xx fail; 200 stores a fresh entry under a new identifier and
    /// returns its resource; 304 returns the entry being revalidated.
    pub fn complete_fetch<C: CacheEngine>(
        &self,
        cache: &mut C,
        request: UpstreamRequest,
        response: UpstreamResponse,
        request_time: i64,
    ) -> (r: Result<Resource, FetchError>)
        requires
            old(cache).wf(),
        ensures
            final(cache).wf(),
            final(cache).keeps_entries() == old(cache).keeps_entries(),
            final(cache).infallible() == old(cache).infallible(),
            response.status == 200 && old(cache).infallible() ==> r is Ok,
            response.status != 200 ==> final(cache).entries() == old(cache).entries(),
            400 <= response.status < 500 ==> r matches Err(FetchError::NotFound),
            500 <= response.status < 600 ==> r matches Err(FetchError::NotAvailable),
            response.status == 304 ==> match request.cached {
                Some(t) => r matches Ok(res) && res@ == t@.resource,
                None => r matches Err(FetchError::Unknown(_)),
            },
            response.status != 200 && response.status != 304 && !(400 <= response.status < 600)
                ==> r matches Err(FetchError::Unknown(_)),
            response.status == 200 ==> {
                &&& r matches Ok(res) ==> res@ == fresh_entry(
                    self.config.overridden_cache@,
                    request.url@,
                    response@,
                    request_time,
                    res@.id,
                ).resource && res@.id.len() == 36 && wire_sized(
                    fresh_entry(
                        self.config.overridden_cache@,
                        request.url@,
                        response@,
                        request_time,
                        res@.id,
                    ),
                ) && (old(cache).keeps_entries() ==> final(cache).entries() == old(
                    cache,
                ).entries().insert(
                    tag_of(request.url@),
                    ser_tagged(
                        fresh_entry(
                            self.config.overridden_cache@,
                            request.url@,
                            response@,
                            request_time,
                            res@.id,
                        ),
                    ),
                ))
                &&& r matches Err(e) ==> e is Unknown
                &&& !old(cache).keeps_entries() ==> final(cache).entries() == old(cache).entries()
                &&& final(cache).entries().remove(tag_of(request.url@)) == old(
                    cache,
                ).entries().remove(tag_of(request.url@))
            },
    {
        let status = response.status;
        if 400 <= status && status < 500 {
            return Err(FetchError::NotFound);
        }
        if 500 <= status && status < 600 {
            return Err(FetchError::NotAvailable);
        }
        if status == 304 {
            return match request.cached {
                Some(t) => Ok(t.object),
                None => Err(
                    FetchError::Unknown(
                        String::from_str("upstream answered 304 but nothing is cached"),
                    ),
                ),
            };
        }
        if status != 200 {
            return Err(FetchError::Unknown(String::from_str("unexpected upstream status")));
        }
        let cache_control = self.kept_cache_control(request.url.as_str(), &response.cache_control);
        let content_type = match response.content_type {
            Some(c) => c,
            None => String::from_str("application/octet-stream"),
        };
        let id = new_resource_id();
        let entry = TaggedElement {
            object: Resource {
                response_data: ResponseData {
                    id,
                    content_type,
                    cache_control: clone_opt_str(&cache_control),
                    expires: clone_opt_str(&response.expires),
                },
                content: response.body,
            },
            cache_data: CacheMetadata {
                request_time: Some(request_time),
                etag: response.etag,
                expires: response.expires,
                cache_control,
            },
        };
        let bytes = entry.to_bytes();
        let tag = generate_resource_tag(request.url.as_str());
        match cache.set(tag.as_str(), &bytes) {
            Ok(_) => Ok(entry.object),
            Err(_) => Err(FetchError::Unknown(String::from_str("the cache refused the entry"))),
        }
    }
}

/// Once a 200 answer whose kept `Cache-Control` is `immutable` is stored, every
/// later plan for that URL serves the stored resource without contacting upstream.
pub proof fn lemma_immutable_is_served(
    overrides: Seq<crate::config::OverriddenCache>,
    entries: Map<Seq<char>, Seq<u8>>,
    url: Seq<char>,
    response: UpstreamView,
    request_time: i64,
    id: Seq<char>,
    now: int,
)
    requires
        wire_sized(fresh_entry(overrides, url, response, request_time, id)),
        effective_cache_control(overrides, url, response.cache_control) matches Some(cc)
            && cache_directives_of(cc) matches Some(d) && d.immutable,
    ensures
        fetch_plan(
            entries.insert(
                tag_of(url),
                ser_tagged(fresh_entry(overrides, url, response, request_time, id)),
            ),
            url,
            now,
        ) == PlanView::Serve(fresh_entry(overrides, url, response, request_time, id).resource),
{
    lemma_tagged_round_trip(fresh_entry(overrides, url, response, request_time, id));
}

/// An entry whose `Cache-Control` says `no-store` (and not `immutable`) is
/// never served as it is: every plan for it goes upstream.
pub proof fn lemma_no_store_refetches(
    entries: Map<Seq<char>, Seq<u8>>,
    url: Seq<char>,
    now: int,
)
    requires
        stored_entry(entries, url) matches Some(t) && t.meta.cache_control matches Some(cc)
            && cache_directives_of(cc) matches Some(d) && d.no_store && !d.immutable,
    ensures
        fetch_plan(entries, url, now) is Request,
{
}

/// An entry with `max-age=n` recorded at `request_time` is served up to `n`
/// seconds later; after that it is revalidated with `If-None-Match` when it
/// has an ETag, else with `If-Modified-Since` (the request time as an HTTP date).
pub proof fn lemma_max_age_window(entries: Map<Seq<char>, Seq<u8>>, url: Seq<char>, now: int)
    requires
        stored_entry(entries, url) matches Some(t) && t.meta.cache_control matches Some(cc)
            && cache_directives_of(cc) matches Some(d) && !d.immutable && !d.no_store
            && d.max_age is Some && t.meta.request_time is Some,
    ensures
        ({
            let t = stored_entry(entries, url)->Some_0;
            let d = cache_directives_of(t.meta.cache_control->Some_0)->Some_0;
            let start = t.meta.request_time->Some_0;
            if now <= start + d.max_age->Some_0 * micros_per_second() {
                fetch_plan(entries, url, now) == PlanView::Serve(t.resource)
            } else {
                fetch_plan(entries, url, now) == PlanView::Request(
                    url,
                    match t.meta.etag {
                        Some(e) => ConditionView::IfNoneMatch(e),
                        None => match http_date_text(start) {
                            Some(text) => ConditionView::IfModifiedSince(text),
                            None => ConditionView::Unconditional,
                        },
                    },
                    Some(t),
                )
            }
        }),
{
}

} // verus!