//! The request pipeline around the stages: the short cut through the caches,
//! the transform of a fetched resource, and the HTTP status of each failure.

use vstd::prelude::*;
use vstd::string::*;
use crate::cache::CacheEngine;
use crate::decoder::{
    decode_step, decoder_hit, decoder_key, source_codec, CachedImageDecoder, DecodeError,
};
use crate::encoder::{
    cached_artifact, encode_step, encoded_sized, encoder_key, lemma_encoded_round_trip, format_parse, AllInOneCachedImageEncoder, EncodedImage,
    EncodedView, EncodingError, FormatParse, OutputFormat, ParseError,
};
use crate::fetcher::{
    stored_entry, FetchError, HttpImageFetcher, Resource, ResourceView, ResponseData,
};
use crate::http_cache::{cache_verdict, can_serve_cache_at, CanServeCache, Verdict};
use crate::image::{lemma_image_round_trip, ser_image, Image, ImageView};
use crate::output_dimensions::OutputDimensions;
use crate::resizer::{
    fits_already, requested_pixels, resize_hit, resize_step, resizer_key, CachedResizer, ResizeError,
};
use crate::wire::opt_str_view;

verus! {

/// Why a request failed.
#[derive(Debug)]
pub enum GatewayError {
    Fetch(FetchError),
    Decode(DecodeError),
    Resize(ResizeError),
    Format(ParseError),
    Encode(EncodingError),
}

/// The HTTP status that answers a failure.
pub open spec fn status_for(e: &GatewayError) -> u16 {
    match e {
        GatewayError::Fetch(FetchError::NotFound) => 404,
        GatewayError::Fetch(FetchError::InvalidResourceTag(_)) => 404,
        GatewayError::Fetch(FetchError::NoAccess) => 403,
        GatewayError::Fetch(FetchError::InvalidFormat) => 422,
        GatewayError::Fetch(FetchError::NotAvailable) => 503,
        GatewayError::Fetch(FetchError::Unknown(_)) => 500,
        GatewayError::Decode(DecodeError::CacheWrite(_)) => 500,
        GatewayError::Decode(_) => 422,
        GatewayError::Resize(ResizeError::CacheWrite(_)) => 500,
        GatewayError::Resize(_) => 400,
        GatewayError::Format(_) => 422,
        GatewayError::Encode(_) => 500,
    }
}

impl GatewayError {
    /// The HTTP status that answers this failure.
    pub fn status(&self) -> (r: u16)
        ensures
            r == status_for(self),
    {
        match self {
            GatewayError::Fetch(FetchError::NotFound) => 404,
            GatewayError::Fetch(FetchError::InvalidResourceTag(_)) => 404,
            GatewayError::Fetch(FetchError::NoAccess) => 403,
            GatewayError::Fetch(FetchError::InvalidFormat) => 422,
            GatewayError::Fetch(FetchError::NotAvailable) => 503,
            GatewayError::Fetch(FetchError::Unknown(_)) => 500,
            GatewayError::Decode(DecodeError::CacheWrite(_)) => 500,
            GatewayError::Decode(_) => 422,
            GatewayError::Resize(ResizeError::CacheWrite(_)) => 500,
            GatewayError::Resize(_) => 400,
            GatewayError::Format(_) => 422,
            GatewayError::Encode(_) => 500,
        }
    }
}

/// A transformed image with the cache headers to forward.
#[derive(Debug)]
pub struct ImageResponse {
    pub content_type: String,
    pub cache_control: Option<String>,
    pub expires: Option<String>,
    pub body: Vec<u8>,
}

/// Where a transform stands: done, or waiting for a lossy WebP encoding made
/// outside the library (to be stored with `AllInOneCachedImageEncoder::store_encoded`).
#[derive(Debug)]
pub enum Transform {
    Done(ImageResponse),
    EncodeLossyWebp { image: Image, quality_hundredths: u16, format: OutputFormat },
}

/// The format a request asks for: the path's token, else the upstream media type.
pub open spec fn requested_format_text(format: Option<Seq<char>>, content_type: Seq<char>) -> Seq<
    char,
> {
    match format {
        Some(f) => f,
        None => content_type,
    }
}

fn respond(data: &ResponseData, encoded: EncodedImage) -> (r: ImageResponse)
    ensures
        r.content_type@ == encoded.content_type@,
        r.body@ == encoded.image@,
        opt_str_view(&r.cache_control) == opt_str_view(&data.cache_control),
        opt_str_view(&r.expires) == opt_str_view(&data.expires),
{
    ImageResponse {
        content_type: encoded.content_type,
        cache_control: match &data.cache_control {
            Some(c) => Some(c.clone()),
            None => None,
        },
        expires: match &data.expires {
            Some(e) => Some(e.clone()),
            None => None,
        },
        body: encoded.image,
    }
}

/// The text that percent-decoding gives, where the decoded bytes are UTF-8.
pub uninterp spec fn percent_decoded(text: Seq<char>) -> Option<Seq<char>>;

/// Relies on `urlencoding::decode`: a function of the text alone, failing
/// where the decoded bytes are not UTF-8; text without `%` comes back as it
/// is (`decode_binary` borrows it unchanged).
#[verifier::external_body]
fn percent_decode(text: &str) -> (r: Option<String>)
    ensures
        opt_str_view(&r) == percent_decoded(text@),
        !text@.contains('%') ==> opt_str_view(&r) == Some(text@),
{
    urlencoding::decode(text).ok().map(|c| c.into_owned())
}

/// The upstream URL that a request path's tail names, percent-decoded.
pub fn upstream_url(tail: &str) -> (r: Result<String, GatewayError>)
    ensures
        !tail@.contains('%') ==> (r matches Ok(u) && u@ == tail@),
        match percent_decoded(tail@) {
            Some(u) => r matches Ok(s) && s@ == u,
            None => r matches Err(GatewayError::Fetch(FetchError::InvalidResourceTag(_))),
        },
{
    match percent_decode(tail) {
        Some(u) => Ok(u),
        None => Err(GatewayError::Fetch(FetchError::InvalidResourceTag(String::from_str(tail)))),
    }
}

/// Where a transform ends, as a value.
pub ghost enum TransformPlan {
    Done(EncodedView),
    LossyWebp(ImageView, u16),
    FormatError,
    DecodeFailed,
    Oversize(usize, usize),
    CodecFailed,
}

/// The raster a resize target gives on entries `entries`, and the entries it
/// leaves (`None` over the budget).
pub open spec fn sized_step(
    entries: Map<Seq<char>, Seq<u8>>,
    keeps: bool,
    id: Seq<char>,
    img: ImageView,
    dims: OutputDimensions,
    maximum: usize,
) -> Option<(ImageView, Map<Seq<char>, Seq<u8>>)> {
    match dims {
        OutputDimensions::Original => Some((img, entries)),
        OutputDimensions::ScaledExact(w, h) => resize_step(entries, keeps, id, img, w, h, true, maximum),
        OutputDimensions::ScaledWithRatio(w, h) => resize_step(
            entries,
            keeps,
            id,
            img,
            w,
            h,
            false,
            maximum,
        ),
    }
}

/// The pixel count a resize target asks for.
pub open spec fn target_pixels(dims: OutputDimensions) -> usize {
    match dims {
        OutputDimensions::Original => 0,
        OutputDimensions::ScaledExact(w, h) => requested_pixels(w, h),
        OutputDimensions::ScaledWithRatio(w, h) => requested_pixels(w, h),
    }
}

/// The whole transform on cache entries `entries`: where it ends, and the
/// entries it leaves. No resize and no format: the upstream bytes as they are.
/// Else the format must parse, the decoder must give a raster, the target must
/// lie within the budget, and the encoder answers (lossy WebP is left to the caller).
pub open spec fn transform_plan(
    entries: Map<Seq<char>, Seq<u8>>,
    keeps: bool,
    res: ResourceView,
    dims: OutputDimensions,
    format: Option<Seq<char>>,
    maximum: usize,
) -> (TransformPlan, Map<Seq<char>, Seq<u8>>) {
    if format is None && dims == OutputDimensions::Original {
        (
            TransformPlan::Done(EncodedView { content_type: res.content_type, bytes: res.content }),
            entries,
        )
    } else {
        match format_parse(requested_format_text(format, res.content_type)) {
            FormatParse::Format(f) => match decode_step(
                entries,
                keeps,
                res.id,
                res.content_type,
                res.content,
            ) {
                None => (TransformPlan::DecodeFailed, entries),
                Some((d, decoded_entries)) => match sized_step(
                    decoded_entries,
                    keeps,
                    res.id,
                    d,
                    dims,
                    maximum,
                ) {
                    None => (TransformPlan::Oversize(maximum, target_pixels(dims)), decoded_entries),
                    Some((z, sized_entries)) => match encode_step(
                        sized_entries,
                        keeps,
                        res.id,
                        dims,
                        f,
                        z,
                    ) {
                        Some((v, encoded_entries)) => (TransformPlan::Done(v), encoded_entries),
                        None => (
                            match f {
                                OutputFormat::Webp(q) => TransformPlan::LossyWebp(z, q),
                                _ => TransformPlan::CodecFailed,
                            },
                            sized_entries,
                        ),
                    },
                },
            },
            _ => (TransformPlan::FormatError, entries),
        }
    }
}

/// Whether a transform's result is the one a plan names.
pub open spec fn answers_plan(
    r: &Result<Transform, GatewayError>,
    plan: TransformPlan,
    content_type: Seq<char>,
) -> bool {
    match plan {
        TransformPlan::Done(v) => r matches Ok(Transform::Done(resp)) && resp.body@ == v.bytes
            && resp.content_type@ == v.content_type,
        TransformPlan::LossyWebp(z, q) => r matches Ok(
            Transform::EncodeLossyWebp { image, quality_hundredths, format },
        ) && image@ == z && quality_hundredths == q && format == OutputFormat::Webp(q),
        TransformPlan::FormatError => r matches Err(GatewayError::Format(_)),
        TransformPlan::DecodeFailed => if source_codec(content_type) is Sniff {
            r matches Err(GatewayError::Decode(DecodeError::UnknownFormat(m))) && m@ == content_type
        } else {
            r matches Err(GatewayError::Decode(DecodeError::MismatchedFormat))
        },
        TransformPlan::Oversize(m, q) => r matches Err(
            GatewayError::Resize(ResizeError::ResizeExceedsMaximumSize(a, b)),
        ) && a == m && b == q,
        TransformPlan::CodecFailed => r matches Err(GatewayError::Encode(EncodingError::CodecFailed)),
    }
}

/// A failure to write the cache, fatal to the request.
pub open spec fn is_cache_write(r: &Result<Transform, GatewayError>) -> bool {
    r matches Err(GatewayError::Decode(DecodeError::CacheWrite(_))) || r matches Err(
        GatewayError::Resize(ResizeError::CacheWrite(_)),
    ) || r matches Err(GatewayError::Encode(EncodingError::CacheWrite(_)))
}

/// The resizer key a target uses, if it resizes.
pub open spec fn target_key(id: Seq<char>, dims: OutputDimensions) -> Option<Seq<char>> {
    match dims {
        OutputDimensions::Original => None,
        OutputDimensions::ScaledExact(w, h) => Some(resizer_key(id, w, h, true)),
        OutputDimensions::ScaledWithRatio(w, h) => Some(resizer_key(id, w, h, false)),
    }
}

/// The stage keys of one request differ from each other (distinct MD5 tags).
pub open spec fn stage_keys_distinct(id: Seq<char>, dims: OutputDimensions, f: OutputFormat) -> bool {
    &&& decoder_key(id) != encoder_key(id, dims, f)
    &&& target_key(id, dims) matches Some(k) ==> k != decoder_key(id) && k != encoder_key(id, dims, f)
}

/// Every value a transform on a keeping engine stores fits the 64-bit length
/// prefixes of the cached forms (true of any value held in memory).
pub open spec fn stored_values_fit(
    entries: Map<Seq<char>, Seq<u8>>,
    res: ResourceView,
    dims: OutputDimensions,
    f: OutputFormat,
    maximum: usize,
) -> bool {
    match decode_step(entries, true, res.id, res.content_type, res.content) {
        None => true,
        Some((d, e1)) => d.pixels.len() <= u64::MAX && match sized_step(e1, true, res.id, d, dims, maximum) {
            None => true,
            Some((z, e2)) => z.pixels.len() <= u64::MAX && match encode_step(e2, true, res.id, dims, f, z) {
                None => true,
                Some((v, _)) => encoded_sized(v),
            },
        },
    }
}

/// Two identical requests on an engine that keeps its writes give the same
/// body: the second finds what the first stored (or what it found). A
/// transformed body is left in the encoder's cache, where `short_circuit`
/// finds it while the upstream entry stays fresh.
pub proof fn lemma_repeated_transform_same_body(
    entries: Map<Seq<char>, Seq<u8>>,
    res: ResourceView,
    dims: OutputDimensions,
    format: Option<Seq<char>>,
    maximum: usize,
)
    requires
        transform_plan(entries, true, res, dims, format, maximum).0 is Done,
        format_parse(requested_format_text(format, res.content_type)) matches FormatParse::Format(f)
            ==> stage_keys_distinct(res.id, dims, f) && stored_values_fit(entries, res, dims, f, maximum),
    ensures
        ({
            let first = transform_plan(entries, true, res, dims, format, maximum);
            transform_plan(first.1, true, res, dims, format, maximum).0 == first.0
        }),
        !(format is None && dims == OutputDimensions::Original) ==> ({
            let first = transform_plan(entries, true, res, dims, format, maximum);
            let f = format_parse(requested_format_text(format, res.content_type))->Format_0;
            cached_artifact(first.1, encoder_key(res.id, dims, f)) == Some(first.0->Done_0)
        }),
{
    let first = transform_plan(entries, true, res, dims, format, maximum);
    if !(format is None && dims == OutputDimensions::Original) {
        let f = format_parse(requested_format_text(format, res.content_type))->Format_0;
        let dk = decoder_key(res.id);
        let ek = encoder_key(res.id, dims, f);
        let (d, e1) = decode_step(entries, true, res.id, res.content_type, res.content)->Some_0;
        let (z, e2) = sized_step(e1, true, res.id, d, dims, maximum)->Some_0;
        let (v, e3) = encode_step(e2, true, res.id, dims, f, z)->Some_0;
        assert(e3 == first.1);
        // The decoder finds `d` under its key in `e3`.
        if decoder_hit(entries, res.id) is None {
            lemma_image_round_trip(d);
        }
        assert(e3.contains_key(dk) && e3[dk] == e1[dk]);
        assert(decoder_hit(e3, res.id) == Some(d));
        assert(decode_step(e3, true, res.id, res.content_type, res.content) == Some((d, e3)));
        // The sized raster comes out as `z`, leaving `e3` as it is.
        match dims {
            OutputDimensions::Original => {},
            OutputDimensions::ScaledExact(w, h) => {
                lemma_resize_again(e1, e2, e3, res.id, d, w, h, true, maximum, ek);
            },
            OutputDimensions::ScaledWithRatio(w, h) => {
                lemma_resize_again(e1, e2, e3, res.id, d, w, h, false, maximum, ek);
            },
        }
        assert(sized_step(e3, true, res.id, d, dims, maximum) == Some((z, e3)));
        // The encoder finds `v`.
        if cached_artifact(e2, ek) is None {
            lemma_encoded_round_trip(v);
        }
        assert(cached_artifact(e3, ek) == Some(v));
        assert(encode_step(e3, true, res.id, dims, f, z) == Some((v, e3)));
    }
}

proof fn lemma_resize_again(
    e1: Map<Seq<char>, Seq<u8>>,
    e2: Map<Seq<char>, Seq<u8>>,
    e3: Map<Seq<char>, Seq<u8>>,
    id: Seq<char>,
    d: ImageView,
    w: usize,
    h: usize,
    exact: bool,
    maximum: usize,
    ek: Seq<char>,
)
    requires
        resize_step(e1, true, id, d, w, h, exact, maximum) == Some((
            resize_step(e1, true, id, d, w, h, exact, maximum)->Some_0.0,
            e2,
        )),
        resize_step(e1, true, id, d, w, h, exact, maximum)->Some_0.0.pixels.len() <= u64::MAX,
        resizer_key(id, w, h, exact) != ek,
        e3 == e2 || e3 == e2.insert(ek, e3[ek]),
        e3.contains_key(ek),
    ensures
        resize_step(e3, true, id, d, w, h, exact, maximum) == Some((
            resize_step(e1, true, id, d, w, h, exact, maximum)->Some_0.0,
            e3,
        )),
{
    let rk = resizer_key(id, w, h, exact);
    let z = resize_step(e1, true, id, d, w, h, exact, maximum)->Some_0.0;
    if !fits_already(d, w, h, exact) {
        if resize_hit(e1, id, w, h, exact) is None {
            lemma_image_round_trip(z);
            assert(e2 == e1.insert(rk, ser_image(z)));
            assert(e3.contains_key(rk) && e3[rk] == ser_image(z));
            if resize_hit(e3, id, w, h, exact) is None {
                assert(e3.insert(rk, ser_image(z)) =~= e3);
            }
        } else {
            assert(e2 == e1);
            assert(e3[rk] == e1[rk]);
        }
    }
}

/// The stages of the pipeline, sharing one cache engine.
pub struct Gateway {
    pub fetcher: HttpImageFetcher,
    pub decoder: CachedImageDecoder,
    pub resizer: CachedResizer,
    pub encoder: AllInOneCachedImageEncoder,
}

impl Gateway {
    fn format_of(format: &Option<String>, content_type: &String) -> (r: Result<
        OutputFormat,
        GatewayError,
    >)
        ensures
            match format_parse(requested_format_text(opt_str_view(format), content_type@)) {
                FormatParse::Format(f) => r == Ok::<OutputFormat, GatewayError>(f),
                _ => r matches Err(GatewayError::Format(_)),
            },
    {
        let parsed = match format {
            Some(f) => OutputFormat::from_str(f.as_str()),
            None => OutputFormat::from_str(content_type.as_str()),
        };
        match parsed {
            Ok(f) => Ok(f),
            Err(e) => Err(GatewayError::Format(e)),
        }
    }

    /// Answers from the caches alone, when the stored upstream entry for `url`
    /// is fresh at instant `now` and the encoder already holds the transform.
    pub fn short_circuit<C: CacheEngine>(
        &self,
        cache: &C,
        url: &str,
        dimensions: &OutputDimensions,
        format: &Option<String>,
        now: i64,
    ) -> (r: Result<Option<ImageResponse>, GatewayError>)
        requires
            cache.wf(),
        ensures
            cache.describes_contents() ==> match stored_entry(cache.entries(), url@) {
                Some(t) => if cache_verdict(t.meta, now as int) == Verdict::Yes {
                    match format_parse(
                        requested_format_text(opt_str_view(format), t.resource.content_type),
                    ) {
                        FormatParse::Format(f) => match cached_artifact(
                            cache.entries(),
                            encoder_key(t.resource.id, *dimensions, f),
                        ) {
                            Some(v) => r matches Ok(Some(resp)) && resp.body@ == v.bytes
                                && resp.content_type@ == v.content_type && opt_str_view(
                                &resp.cache_control,
                            ) == t.resource.cache_control && opt_str_view(&resp.expires)
                                == t.resource.expires,
                            None => r matches Ok(None),
                        },
                        _ => r matches Err(GatewayError::Format(_)),
                    }
                } else {
                    r matches Ok(None)
                },
                None => r matches Ok(None),
            },
    {
        let entry = match HttpImageFetcher::cached_entry(cache, url) {
            None => return Ok(None),
            Some(t) => t,
        };
        match can_serve_cache_at(&entry.cache_data, now) {
            CanServeCache::Yes => {},
            _ => return Ok(None),
        }
        let data = entry.object.response_data;
        let output_format = Self::format_of(format, &data.content_type)?;
        match self.encoder.serve_cache(cache, &data.id, dimensions, &output_format) {
            Some(encoded) => Ok(Some(respond(&data, encoded))),
            None => Ok(None),
        }
    }

    /// Decodes, resizes and encodes a fetched resource as the request asks; a
    /// request for neither a resize nor a format gets the upstream bytes as they are.
    pub fn transform<C: CacheEngine>(
        &self,
        cache: &mut C,
        resource: &Resource,
        dimensions: &OutputDimensions,
        format: &Option<String>,
    ) -> (r: Result<Transform, GatewayError>)
        requires
            old(cache).wf(),
        ensures
            final(cache).wf(),
            final(cache).describes_contents() == old(cache).describes_contents(),
            final(cache).keeps_entries() == old(cache).keeps_entries(),
            final(cache).infallible() == old(cache).infallible(),
            r matches Ok(Transform::Done(resp)) ==> (opt_str_view(&resp.cache_control)
                == resource@.cache_control && opt_str_view(&resp.expires) == resource@.expires),
            old(cache).describes_contents() ==> ({
                let plan = transform_plan(
                    old(cache).entries(),
                    old(cache).keeps_entries(),
                    resource@,
                    *dimensions,
                    opt_str_view(format),
                    self.resizer.config.maximum_image_size,
                );
                (answers_plan(&r, plan.0, resource@.content_type) && final(cache).entries()
                    == plan.1) || (is_cache_write(&r) && !old(cache).infallible())
            }),
    {
        let data = &resource.response_data;
        if format.is_none() {
            if let OutputDimensions::Original = dimensions {
                return Ok(
                    Transform::Done(
                        respond(
                            data,
                            EncodedImage {
                                content_type: data.content_type.clone(),
                                image: vstd::slice::slice_to_vec(resource.content.as_slice()),
                            },
                        ),
                    ),
                );
            }
        }
        let output_format = Self::format_of(format, &data.content_type)?;
        let decoded = match self.decoder.decode(cache, &data.id, resource) {
            Ok(img) => img,
            Err(e) => return Err(GatewayError::Decode(e)),
        };
        let sized = match dimensions {
            OutputDimensions::Original => decoded,
            OutputDimensions::ScaledExact(w, h) => match self.resizer.resize_exact(
                cache,
                &data.id,
                &decoded,
                (*w, *h),
            ) {
                Ok(img) => img,
                Err(e) => return Err(GatewayError::Resize(e)),
            },
            OutputDimensions::ScaledWithRatio(w, h) => match self.resizer.resize(
                cache,
                &data.id,
                &decoded,
                (*w, *h),
            ) {
                Ok(img) => img,
                Err(e) => return Err(GatewayError::Resize(e)),
            },
        };
        match self.encoder.encode(cache, &data.id, &sized, dimensions, &output_format) {
            Ok(encoded) => Ok(Transform::Done(respond(data, encoded))),
            Err(EncodingError::ExternalCodecRequired) => match output_format {
                OutputFormat::Webp(q) => Ok(
                    Transform::EncodeLossyWebp {
                        image: sized,
                        quality_hundredths: q,
                        format: output_format,
                    },
                ),
                _ => Err(GatewayError::Encode(EncodingError::CodecFailed)),
            },
            Err(e) => Err(GatewayError::Encode(e)),
        }
    }
}

} // verus!
