use std::io::Cursor;

use image_gateway::cache::{CacheEngine, CacheError, HashMapCacheEngine, NoCacheEngine};
use image_gateway::config::{ApplicationCache, CacheType, Config};
use image_gateway::decoder::{decode_bytes, CachedImageDecoder, DecodeError};
use image_gateway::encoder::{
    AllInOneCachedImageEncoder, ImagePngJpgEncoder, ImagePngJpgEncoderType, ImageWebpEncoder,
    OutputFormat,
};
use image_gateway::fetcher::{HttpImageFetcher, Resource, ResponseData};
use image_gateway::gateway::{upstream_url, Gateway, GatewayError, ImageResponse, Transform};
use image_gateway::image::Image;
use image_gateway::output_dimensions::OutputDimensions;
use image_gateway::resizer::{CachedResizer, Lanczos3ImageScaler, ResizeError};
use image_gateway::tag::generate_resource_tag;

fn config() -> Config {
    Config {
        allow_from: vec![],
        overridden_cache: vec![],
        maximum_image_size: 3840 * 2160,
        cache: ApplicationCache { cache_type: CacheType::InMemory },
    }
}

fn gateway() -> Gateway {
    Gateway {
        fetcher: HttpImageFetcher { config: config() },
        decoder: CachedImageDecoder {},
        resizer: CachedResizer { config: config() },
        encoder: AllInOneCachedImageEncoder {},
    }
}

fn picture(w: u32, h: u32) -> image::DynamicImage {
    image::DynamicImage::ImageRgba8(image::RgbaImage::from_fn(w, h, |x, y| {
        image::Rgba([(x * 7 % 256) as u8, (y * 13 % 256) as u8, ((x + y) % 256) as u8, 255])
    }))
}

fn encoded(img: image::DynamicImage, format: image::ImageOutputFormat) -> Vec<u8> {
    let mut out = Vec::new();
    img.write_to(&mut Cursor::new(&mut out), format).unwrap();
    out
}

fn resource(id: &str, content_type: &str, content: Vec<u8>) -> Resource {
    Resource {
        response_data: ResponseData {
            id: String::from(id),
            content_type: String::from(content_type),
            cache_control: Some(String::from("max-age=60")),
            expires: None,
        },
        content,
    }
}

fn done(t: Result<Transform, GatewayError>) -> ImageResponse {
    match t {
        Ok(Transform::Done(r)) => r,
        Ok(Transform::EncodeLossyWebp { .. }) => panic!("lossy WebP is encoded by the caller"),
        Err(e) => panic!("transform failed with status {}", e.status()),
    }
}

#[test]
fn untransformed_request_passes_bytes_through() {
    let gw = gateway();
    let mut cache = HashMapCacheEngine::new();
    let res = resource("id-1", "image/png", vec![0, 1, 2, 3, 4, 5]);
    let out = done(gw.transform(&mut cache, &res, &OutputDimensions::Original, &None));
    assert_eq!(out.body, vec![0, 1, 2, 3, 4, 5]);
    assert_eq!(out.content_type, "image/png");
    assert_eq!(out.cache_control.as_deref(), Some("max-age=60"));
}

#[test]
fn jpeg_to_exact_lossless_webp() {
    let gw = gateway();
    let mut cache = HashMapCacheEngine::new();
    let jpeg = encoded(picture(200, 100), image::ImageOutputFormat::Jpeg(90));
    let res = resource("id-2", "image/jpeg", jpeg);
    let dims = OutputDimensions::from_parts("100", "50", false);
    let out = done(gw.transform(&mut cache, &res, &dims, &Some(String::from("webp"))));
    assert_eq!(out.content_type, "image/webp");
    let back = decode_bytes(&String::from("image/webp"), &out.body).unwrap();
    assert_eq!((back.width, back.height), (100, 50));
    assert!(cache.get(&generate_resource_tag("Image Decoder id-2")).is_some());
    assert!(cache.get(&generate_resource_tag("id-2 - 100x50 exact")).is_some());
    assert!(cache.get(&generate_resource_tag("id-2 - image/webp - loseless 100x50 exact")).is_some());
}

#[test]
fn keep_ratio_caps_without_enlarging() {
    let gw = gateway();
    let mut cache = HashMapCacheEngine::new();
    let png = encoded(picture(400, 300), image::ImageOutputFormat::Png);
    let res = resource("id-3", "image/png", png);
    let dims = OutputDimensions::from_parts("800", "600", true);
    let out = done(gw.transform(&mut cache, &res, &dims, &Some(String::from("jpeg80"))));
    assert_eq!(out.content_type, "image/jpeg");
    let back = decode_bytes(&String::from("image/jpeg"), &out.body).unwrap();
    assert_eq!((back.width, back.height), (400, 300));
    let direct = ImagePngJpgEncoder::new(ImagePngJpgEncoderType::JPG)
        .encode(&decode_bytes(&String::from("image/png"), &res.content).unwrap(), 80)
        .unwrap();
    assert_eq!(out.body, direct);
}

#[test]
fn keep_ratio_shrinks_larger_images() {
    let gw = gateway();
    let mut cache = HashMapCacheEngine::new();
    let png = encoded(picture(400, 300), image::ImageOutputFormat::Png);
    let res = resource("id-4", "image/png", png);
    let out = done(gw.transform(&mut cache, &res, &OutputDimensions::ScaledWithRatio(200, 200), &Some(String::from("png"))));
    let back = decode_bytes(&String::from("image/png"), &out.body).unwrap();
    assert_eq!((back.width, back.height), (200, 150));
}

#[test]
fn repeated_requests_give_identical_bodies() {
    let gw = gateway();
    let png = encoded(picture(64, 48), image::ImageOutputFormat::Png);
    let res = resource("id-5", "image/png", png);
    let dims = OutputDimensions::ScaledExact(32, 24);
    let format = Some(String::from("jpeg70"));
    let mut cache = HashMapCacheEngine::new();
    let first = done(gw.transform(&mut cache, &res, &dims, &format));
    let second = done(gw.transform(&mut cache, &res, &dims, &format));
    assert_eq!(first.body, second.body);
    let short = gw.short_circuit(&cache, "http://origin/x.png", &dims, &format, 0).unwrap();
    assert!(short.is_none());
    let mut none = NoCacheEngine {};
    let third = done(gw.transform(&mut none, &res, &dims, &format));
    assert_eq!(first.body, third.body);
}

#[test]
fn oversized_resize_is_a_bad_request() {
    let gw = gateway();
    let mut cache = HashMapCacheEngine::new();
    let png = encoded(picture(8, 8), image::ImageOutputFormat::Png);
    let res = resource("id-6", "image/png", png);
    let e = match gw.transform(&mut cache, &res, &OutputDimensions::ScaledExact(4000, 3000), &None) {
        Err(e) => e,
        Ok(_) => panic!("the resize must be refused"),
    };
    assert!(matches!(e, GatewayError::Resize(ResizeError::ResizeExceedsMaximumSize(8294400, 12000000))));
    assert_eq!(e.status(), 400);
    assert!(cache.get(&generate_resource_tag("id-6 - 4000x3000 exact")).is_none());
}

#[test]
fn resize_at_the_budget_is_allowed() {
    let resizer = CachedResizer { config: Config { maximum_image_size: 100, ..config() } };
    let mut cache = HashMapCacheEngine::new();
    let img = decode_bytes(&String::from("image/png"), &encoded(picture(20, 20), image::ImageOutputFormat::Png)).unwrap();
    let out = resizer.resize_exact(&mut cache, &String::from("id-7"), &img, (10, 10)).unwrap();
    assert_eq!((out.width, out.height), (10, 10));
    assert!(matches!(
        resizer.resize_exact(&mut cache, &String::from("id-7"), &img, (11, 10)),
        Err(ResizeError::ResizeExceedsMaximumSize(100, 110))
    ));
}

#[test]
fn png_round_trip_is_lossless() {
    let original = decode_bytes(&String::from("image/png"), &encoded(picture(17, 9), image::ImageOutputFormat::Png)).unwrap();
    let png = ImagePngJpgEncoder::new(ImagePngJpgEncoderType::PNG).encode(&original, 0).unwrap();
    let again = decode_bytes(&String::from("image/png"), &png).unwrap();
    assert_eq!((again.width, again.height), (original.width, original.height));
    assert_eq!(again.image, original.image);
}

#[test]
fn webp_lossless_round_trip_is_lossless() {
    let original = decode_bytes(&String::from("image/png"), &encoded(picture(17, 9), image::ImageOutputFormat::Png)).unwrap();
    let webp = ImageWebpEncoder::new().encode(&original).unwrap();
    let again = decode_bytes(&String::from("image/webp"), &webp).unwrap();
    assert_eq!((again.width, again.height), (original.width, original.height));
    assert_eq!(again.image, original.image);
}

#[test]
fn lossy_webp_is_left_to_the_caller() {
    let gw = gateway();
    let mut cache = HashMapCacheEngine::new();
    let png = encoded(picture(8, 8), image::ImageOutputFormat::Png);
    let res = resource("id-8", "image/png", png);
    match gw.transform(&mut cache, &res, &OutputDimensions::Original, &Some(String::from("webp80"))) {
        Ok(Transform::EncodeLossyWebp { quality_hundredths, format, image }) => {
            assert_eq!(quality_hundredths, 8000);
            assert_eq!(format, OutputFormat::Webp(8000));
            assert_eq!((image.width, image.height), (8, 8));
            let stored = gw.encoder.store_encoded(&mut cache, &String::from("id-8"), &OutputDimensions::Original, &format, vec![9, 9]).unwrap();
            assert_eq!(stored.content_type, "image/webp");
            let hit = gw.encoder.serve_cache(&cache, &String::from("id-8"), &OutputDimensions::Original, &format).unwrap();
            assert_eq!(hit.image, vec![9, 9]);
        }
        _ => panic!("lossy WebP is encoded by the caller"),
    }
}

#[test]
fn undecodable_bytes_are_unprocessable() {
    let gw = gateway();
    let mut cache = HashMapCacheEngine::new();
    let res = resource("id-9", "image/png", vec![0, 1, 2, 3, 4, 5]);
    let e = match gw.transform(&mut cache, &res, &OutputDimensions::Original, &Some(String::from("png"))) {
        Err(e) => e,
        Ok(_) => panic!("decoding must fail"),
    };
    assert!(matches!(e, GatewayError::Decode(DecodeError::MismatchedFormat)));
    assert_eq!(e.status(), 422);
    assert!(matches!(
        decode_bytes(&String::from("application/octet-stream"), &[0, 1, 2, 3]),
        Err(DecodeError::UnknownFormat(ref m)) if m == "application/octet-stream"
    ));
    assert!(matches!(
        decode_bytes(&String::from("image/webp"), &[1, 2, 3]),
        Err(DecodeError::MismatchedFormat)
    ));
    let bad_format = gw.transform(&mut cache, &res, &OutputDimensions::Original, &Some(String::from("gif")));
    assert!(matches!(bad_format, Err(GatewayError::Format(_))));
}

#[test]
fn sniffed_formats_decode() {
    let png = encoded(picture(3, 2), image::ImageOutputFormat::Png);
    let img = decode_bytes(&String::from("application/octet-stream"), &png).unwrap();
    assert_eq!((img.width, img.height), (3, 2));
    assert_eq!(img.image.len(), 3 * 2 * 4);
}

#[test]
fn cached_decoder_answers_from_cache() {
    let decoder = CachedImageDecoder {};
    let mut cache = HashMapCacheEngine::new();
    let res = resource("id-10", "image/png", encoded(picture(5, 4), image::ImageOutputFormat::Png));
    let first = decoder.decode(&mut cache, &String::from("id-10"), &res).unwrap();
    let garbage = resource("id-10", "image/png", vec![1, 2, 3]);
    let second = decoder.decode(&mut cache, &String::from("id-10"), &garbage).unwrap();
    assert_eq!(first.image, second.image);
    let stored = cache.get(&generate_resource_tag("Image Decoder id-10")).unwrap();
    assert_eq!(Image::from_bytes(&stored).unwrap().image, first.image);
}

#[test]
fn upstream_urls_are_percent_decoded() {
    assert_eq!(upstream_url("http%3A%2F%2Forigin%2Fpic.jpg").unwrap(), "http://origin/pic.jpg");
    assert_eq!(upstream_url("https://example.com/a.png").unwrap(), "https://example.com/a.png");
    let e = upstream_url("%FF%FE").unwrap_err();
    assert_eq!(e.status(), 404);
}

#[test]
fn codec_names_and_media_types() {
    assert_eq!(ImagePngJpgEncoderType::PNG.to_mime(), "image/png");
    assert_eq!(ImagePngJpgEncoderType::JPG.to_mime(), "image/jpeg");
    assert_eq!(ImagePngJpgEncoderType::PNG.to_display_string(), "PNG");
    assert_eq!(ImagePngJpgEncoderType::JPG.to_display_string(), "JPG");
    assert_eq!(OutputFormat::Webp(1).mime(), "image/webp");
    assert_eq!(OutputFormat::Bmp.mime(), "image/bmp");
}

#[test]
fn default_resource_has_a_fresh_identifier() {
    let a = Resource::default();
    let b = Resource::default();
    assert_eq!(a.response_data.id.len(), 36);
    assert_ne!(a.response_data.id, b.response_data.id);
    assert!(a.content.is_empty());
}

#[test]
fn scaler_hits_exact_dimensions() {
    let img = decode_bytes(&String::from("image/png"), &encoded(picture(30, 20), image::ImageOutputFormat::Png)).unwrap();
    let out = Lanczos3ImageScaler::new().scale(&img, 7, 9, true).unwrap();
    assert_eq!((out.width, out.height), (7, 9));
    assert_eq!(out.image.len(), 7 * 9 * 4);
    let fit = Lanczos3ImageScaler::new().scale(&img, 15, 15, false).unwrap();
    assert_eq!((fit.width, fit.height), (15, 10));
}

#[test]
fn bmp_output_round_trips() {
    let gw = gateway();
    let mut cache = HashMapCacheEngine::new();
    let png = encoded(picture(6, 5), image::ImageOutputFormat::Png);
    let res = resource("id-11", "image/png", png.clone());
    let out = done(gw.transform(&mut cache, &res, &OutputDimensions::Original, &Some(String::from("bmp"))));
    assert_eq!(out.content_type, "image/bmp");
    let back = decode_bytes(&String::from("image/bmp"), &out.body).unwrap();
    let original = decode_bytes(&String::from("image/png"), &png).unwrap();
    assert_eq!(back.image, original.image);
}

/// An engine whose every write fails.
struct RefusingEngine {}

impl CacheEngine for RefusingEngine {
    fn get(&self, _name: &str) -> Option<Vec<u8>> {
        None
    }

    fn set(&mut self, _name: &str, _data: &Vec<u8>) -> Result<bool, CacheError> {
        Err(CacheError::Io(String::from("read-only")))
    }
}

#[test]
fn refused_cache_writes_fail_the_request() {
    let gw = gateway();
    let mut cache = RefusingEngine {};
    let png = encoded(picture(8, 8), image::ImageOutputFormat::Png);
    let res = resource("id-12", "image/png", png);
    let e = match gw.transform(&mut cache, &res, &OutputDimensions::Original, &Some(String::from("png"))) {
        Err(e) => e,
        Ok(_) => panic!("the refused write must fail the request"),
    };
    assert!(matches!(e, GatewayError::Decode(DecodeError::CacheWrite(_))));
    assert_eq!(e.status(), 500);
}

#[test]
fn resized_rasters_have_the_target_size() {
    let resizer = CachedResizer { config: config() };
    let mut cache = HashMapCacheEngine::new();
    let img = decode_bytes(&String::from("image/png"), &encoded(picture(40, 10), image::ImageOutputFormat::Png)).unwrap();
    let exact = resizer.resize_exact(&mut cache, &String::from("id-13"), &img, (13, 17)).unwrap();
    assert_eq!((exact.width, exact.height), (13, 17));
    let fit = resizer.resize(&mut cache, &String::from("id-13"), &img, (20, 20)).unwrap();
    assert_eq!((fit.width, fit.height), (20, 5));
    let again = resizer.resize(&mut cache, &String::from("id-13"), &img, (20, 20)).unwrap();
    assert_eq!(again.image, fit.image);
}
