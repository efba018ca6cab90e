//! The decoder stage: upstream bytes to an RGBA raster, memoised per resource.

use vstd::prelude::*;
use vstd::string::*;
use crate::cache::{CacheEngine, CacheError};
use crate::fetcher::Resource;
use crate::image::{
    image_decode, image_decode_guessed, image_decode_guessed_of, image_decode_of, parse_image,
    raster_wf, ser_image, usable_raster, webp_decode, webp_decode_of, Image, ImageView,
    RasterFormat,
};
use crate::tag::{generate_resource_tag, tag_of};

verus! {

#[derive(Debug)]
pub enum DecodeError {
    /// No codec read the bytes; carries the declared media type.
    UnknownFormat(String),
    /// The declared codec refused the bytes.
    MismatchedFormat,
    /// The cache refused the decoded raster.
    CacheWrite(CacheError),
}

/// The codec chosen for a declared media type.
pub enum SourceCodec {
    Raster(RasterFormat),
    Webp,
    /// Guess the format from the leading bytes.
    Sniff,
}

pub ghost enum SourceCodecView {
    Raster(RasterFormat),
    Webp,
    Sniff,
}

/// The codec for a declared media type.
pub open spec fn source_codec(content_type: Seq<char>) -> SourceCodecView {
    if content_type == "image/jpeg"@ {
        SourceCodecView::Raster(RasterFormat::Jpeg)
    } else if content_type == "image/png"@ {
        SourceCodecView::Raster(RasterFormat::Png)
    } else if content_type == "image/bmp"@ {
        SourceCodecView::Raster(RasterFormat::Bmp)
    } else if content_type == "image/x-tga"@ || content_type == "image/x-targa"@ {
        SourceCodecView::Raster(RasterFormat::Tga)
    } else if content_type == "image/webp"@ {
        SourceCodecView::Webp
    } else {
        SourceCodecView::Sniff
    }
}

fn is(s: &String, literal: &str) -> (r: bool)
    ensures
        r == (s@ == literal@),
{
    *s == String::from_str(literal)
}

/// Chooses the codec for a declared media type.
pub fn select_codec(content_type: &String) -> (r: SourceCodec)
    ensures
        match (r, source_codec(content_type@)) {
            (SourceCodec::Raster(a), SourceCodecView::Raster(b)) => a == b,
            (SourceCodec::Webp, SourceCodecView::Webp) => true,
            (SourceCodec::Sniff, SourceCodecView::Sniff) => true,
            _ => false,
        },
{
    if is(content_type, "image/jpeg") {
        SourceCodec::Raster(RasterFormat::Jpeg)
    } else if is(content_type, "image/png") {
        SourceCodec::Raster(RasterFormat::Png)
    } else if is(content_type, "image/bmp") {
        SourceCodec::Raster(RasterFormat::Bmp)
    } else if is(content_type, "image/x-tga") || is(content_type, "image/x-targa") {
        SourceCodec::Raster(RasterFormat::Tga)
    } else if is(content_type, "image/webp") {
        SourceCodec::Webp
    } else {
        SourceCodec::Sniff
    }
}

/// What decoding bytes declared as `content_type` gives: a well-formed raster
/// of at least one pixel each way, or nothing.
pub open spec fn decoded(content_type: Seq<char>, bytes: Seq<u8>) -> Option<ImageView> {
    let out = match source_codec(content_type) {
        SourceCodecView::Raster(f) => image_decode_of(f, bytes),
        SourceCodecView::Webp => webp_decode_of(bytes),
        SourceCodecView::Sniff => image_decode_guessed_of(bytes),
    };
    match out {
        Some(v) => if usable_raster(v) {
            Some(v)
        } else {
            None
        },
        None => None,
    }
}

/// The error for bytes that do not decode: a codec named by the media type
/// refused them, or (when none is named) no guess read them.
pub open spec fn decode_failure(content_type: Seq<char>, r: &Result<Image, DecodeError>) -> bool {
    if source_codec(content_type) is Sniff {
        r matches Err(DecodeError::UnknownFormat(m)) && m@ == content_type
    } else {
        r matches Err(DecodeError::MismatchedFormat)
    }
}

/// Decodes bytes declared as `content_type` to an RGBA raster.
pub fn decode_bytes(content_type: &String, bytes: &[u8]) -> (r: Result<Image, DecodeError>)
    ensures
        match decoded(content_type@, bytes@) {
            Some(v) => r matches Ok(img) && img@ == v,
            None => decode_failure(content_type@, &r),
        },
{
    let codec = select_codec(content_type);
    let out = match codec {
        SourceCodec::Raster(f) => image_decode(f, bytes),
        SourceCodec::Webp => webp_decode(bytes),
        SourceCodec::Sniff => image_decode_guessed(bytes),
    };
    let failure = match codec {
        SourceCodec::Sniff => DecodeError::UnknownFormat(content_type.clone()),
        _ => DecodeError::MismatchedFormat,
    };
    match out {
        Some(img) => if img.is_usable() {
            Ok(img)
        } else {
            Err(failure)
        },
        None => Err(failure),
    }
}

/// The decoder cache key of a resource identifier.
pub open spec fn decoder_key(id: Seq<char>) -> Seq<char> {
    tag_of("Image Decoder "@ + id)
}

/// The well-formed raster cached under the decoder key of `id`, if any.
pub open spec fn decoder_hit(entries: Map<Seq<char>, Seq<u8>>, id: Seq<char>) -> Option<ImageView> {
    let key = decoder_key(id);
    if entries.contains_key(key) {
        match parse_image(entries[key]) {
            Some(v) => if usable_raster(v) {
                Some(v)
            } else {
                None
            },
            None => None,
        }
    } else {
        None
    }
}

/// The decoder's answer on cache entries `entries` and the entries it leaves:
/// a hit leaves them as they are; a fresh raster is stored when the engine keeps writes.
pub open spec fn decode_step(
    entries: Map<Seq<char>, Seq<u8>>,
    keeps: bool,
    id: Seq<char>,
    content_type: Seq<char>,
    bytes: Seq<u8>,
) -> Option<(ImageView, Map<Seq<char>, Seq<u8>>)> {
    match decoder_hit(entries, id) {
        Some(v) => Some((v, entries)),
        None => match decoded(content_type, bytes) {
            Some(v) => Some(
                (
                    v,
                    if keeps {
                        entries.insert(decoder_key(id), ser_image(v))
                    } else {
                        entries
                    },
                ),
            ),
            None => None,
        },
    }
}

/// The decoder, memoised in a cache engine.
pub struct CachedImageDecoder {}

impl CachedImageDecoder {
    /// The raster of `resource`: from the cache under the decoder key of `tag`
    /// when a well-formed raster reads back there, else decoded and stored.
    pub fn decode<C: CacheEngine>(&self, cache: &mut C, tag: &String, resource: &Resource) -> (r:
        Result<Image, DecodeError>)
        requires
            old(cache).wf(),
        ensures
            final(cache).wf(),
            final(cache).entries().remove(decoder_key(tag@)) == old(cache).entries().remove(
                decoder_key(tag@),
            ),
            final(cache).describes_contents() == old(cache).describes_contents(),
            final(cache).keeps_entries() == old(cache).keeps_entries(),
            final(cache).infallible() == old(cache).infallible(),
            r matches Ok(img) ==> usable_raster(img@),
            old(cache).describes_contents() ==> ({
                let before = old(cache).entries();
                let after = final(cache).entries();
                let content_type = resource@.content_type;
                match decode_step(
                    before,
                    old(cache).keeps_entries(),
                    tag@,
                    content_type,
                    resource@.content,
                ) {
                    Some((v, stored)) => (r matches Ok(img) && img@ == v && after == stored) || (
                    r matches Err(DecodeError::CacheWrite(_)) && !old(cache).infallible() && after
                        == before),
                    None => decode_failure(content_type, &r) && after == before,
                }
            }),
    {
        let mut label = String::from_str("Image Decoder ");
        label.append(tag.as_str());
        proof {
            reveal_strlit("Image Decoder ");
        }
        let key = generate_resource_tag(label.as_str());
        assert(key@ == decoder_key(tag@));
        if let Some(bytes) = cache.get(key.as_str()) {
            if let Some(img) = Image::from_bytes(bytes.as_slice()) {
                if img.is_usable() {
                    return Ok(img);
                }
            }
        }
        let img = decode_bytes(&resource.response_data.content_type, resource.content.as_slice())?;
        let bytes = img.to_bytes();
        match cache.set(key.as_str(), &bytes) {
            Ok(_) => Ok(img),
            Err(e) => Err(DecodeError::CacheWrite(e)),
        }
    }
}

} // verus!
