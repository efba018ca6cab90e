//! Decoded rasters (RGBA, eight bits per channel), their cached form, and the
//! codec and scaling calls that produce and consume them.

use vstd::prelude::*;
use crate::wire::{
    le_bytes, le_value, lemma_bytes_round_trip, lemma_le_round_trip, pow256, read_bytes, read_le,
    ser_bytes, take_bytes, write_bytes, write_le,
};

verus! {

/// A raster: `width * height` pixels, four bytes each, row by row.
#[derive(Debug, Clone)]
pub struct Image {
    pub image: Vec<u8>,
    pub width: u32,
    pub height: u32,
}

pub ghost struct ImageView {
    pub pixels: Seq<u8>,
    pub width: u32,
    pub height: u32,
}

impl View for Image {
    type V = ImageView;

    open spec fn view(&self) -> ImageView {
        ImageView { pixels: self.image@, width: self.width, height: self.height }
    }
}

/// The pixel buffer holds exactly four bytes per pixel.
pub open spec fn raster_wf(v: ImageView) -> bool {
    v.pixels.len() == v.width as int * v.height as int * 4
}

/// A well-formed raster with at least one pixel in each direction.
pub open spec fn usable_raster(v: ImageView) -> bool {
    raster_wf(v) && v.width >= 1 && v.height >= 1
}

impl Default for Image {
    fn default() -> (r: Image)
        ensures
            r@.pixels.len() == 0,
            r.width == 0,
            r.height == 0,
    {
        Image { image: Vec::new(), width: 0, height: 0 }
    }
}

/// The cached form of a raster: the pixel bytes behind their length, then
/// width and height as four little-endian bytes each.
pub open spec fn ser_image(v: ImageView) -> Seq<u8> {
    ser_bytes(v.pixels) + le_bytes(v.width as nat, 4) + le_bytes(v.height as nat, 4)
}

pub open spec fn take_u32(b: Seq<u8>) -> Option<(u32, Seq<u8>)> {
    if b.len() >= 4 {
        Some((le_value(b.take(4)) as u32, b.skip(4)))
    } else {
        None
    }
}

/// Reading back a cached raster: all of the bytes, or nothing.
pub open spec fn parse_image(b: Seq<u8>) -> Option<ImageView> {
    match take_bytes(b) {
        None => None,
        Some((pixels, b)) => match take_u32(b) {
            None => None,
            Some((width, b)) => match take_u32(b) {
                None => None,
                Some((height, b)) => if b.len() == 0 {
                    Some(ImageView { pixels, width, height })
                } else {
                    None
                },
            },
        },
    }
}

proof fn lemma_u32_round_trip(n: u32, rest: Seq<u8>)
    ensures
        take_u32(le_bytes(n as nat, 4) + rest) == Some((n, rest)),
{
    assert(pow256(4) == 0x1_0000_0000) by {
        reveal_with_fuel(pow256, 5);
    }
    lemma_le_round_trip(n as nat, 4);
    let b = le_bytes(n as nat, 4) + rest;
    assert(b.take(4) =~= le_bytes(n as nat, 4));
    assert(b.skip(4) =~= rest);
}

/// A raster reads back as itself.
pub proof fn lemma_image_round_trip(v: ImageView)
    requires
        v.pixels.len() <= u64::MAX,
    ensures
        parse_image(ser_image(v)) == Some(v),
{
    let e = Seq::<u8>::empty();
    let s3 = le_bytes(v.height as nat, 4);
    let s2 = le_bytes(v.width as nat, 4) + s3;
    assert(ser_image(v) =~= ser_bytes(v.pixels) + s2);
    lemma_bytes_round_trip(v.pixels, s2);
    lemma_u32_round_trip(v.width, s3);
    lemma_u32_round_trip(v.height, e);
    assert(s3 + e =~= s3);
}

impl Image {
    /// The cached form of this raster.
    pub fn to_bytes(&self) -> (r: Vec<u8>)
        ensures
            r@ == ser_image(self@),
            self@.pixels.len() <= u64::MAX,
    {
        let mut out: Vec<u8> = Vec::new();
        write_bytes(&mut out, self.image.as_slice());
        write_le(&mut out, self.width as u64, 4);
        write_le(&mut out, self.height as u64, 4);
        assert(out@ =~= ser_image(self@));
        out
    }

    /// Reads a raster back from its cached form.
    pub fn from_bytes(b: &[u8]) -> (r: Option<Image>)
        ensures
            match r {
                Some(img) => parse_image(b@) == Some(img@),
                None => parse_image(b@) is None,
            },
    {
        assert(b@.skip(0) =~= b@);
        let (image, p) = match read_bytes(b, 0) {
            Some(x) => x,
            None => return None,
        };
        proof {
            lemma_pow256_four();
            crate::wire::lemma_le_value_bound(b@.skip(p as int).take(4));
        }
        let (width, at_height) = match read_le(b, p, 4) {
            Some(x) => x,
            None => return None,
        };
        proof {
            crate::wire::lemma_le_value_bound(b@.skip(at_height as int).take(4));
        }
        let (height, end) = match read_le(b, at_height, 4) {
            Some(x) => x,
            None => return None,
        };
        if end != b.len() {
            return None;
        }
        Some(Image { image, width: width as u32, height: height as u32 })
    }

    /// Whether the raster is well formed and has at least one pixel each way.
    pub fn is_usable(&self) -> (r: bool)
        ensures
            r == usable_raster(self@),
    {
        self.width >= 1 && self.height >= 1 && self.is_well_formed()
    }

    /// Whether the pixel buffer holds exactly four bytes per pixel.
    pub fn is_well_formed(&self) -> (r: bool)
        ensures
            r == raster_wf(self@),
    {
        let w = self.width as u128;
        let h = self.height as u128;
        assert(w * h <= 0xffff_ffff * 0xffff_ffff) by (nonlinear_arith)
            requires
                w <= 0xffff_ffff,
                h <= 0xffff_ffff,
        ;
        self.image.len() as u128 == w * h * 4
    }
}

proof fn lemma_pow256_four()
    ensures
        pow256(4) == 0x1_0000_0000,
{
    reveal_with_fuel(pow256, 5);
}

/// The formats the `image` crate is told to read.
#[derive(Clone, Copy, Debug)]
pub enum RasterFormat {
    Jpeg,
    Png,
    Bmp,
    Tga,
}

/// The largest width or height libwebp encodes.
pub const WEBP_MAX_DIMENSION: u32 = 16383;

/// What the `image` crate decodes from `bytes` read as `format`, as RGBA.
pub uninterp spec fn image_decode_of(format: RasterFormat, bytes: Seq<u8>) -> Option<ImageView>;

/// Relies on `image::io::Reader` with `set_format` and `decode`, then
/// `to_rgba8`: a function of the format and the bytes.
#[verifier::external_body]
pub(crate) fn image_decode(format: RasterFormat, bytes: &[u8]) -> (r: Option<Image>)
    ensures
        opt_image_view(&r) == image_decode_of(format, bytes@),
{
    let mut reader = image::io::Reader::new(std::io::Cursor::new(bytes));
    reader.set_format(match format {
        RasterFormat::Jpeg => image::ImageFormat::Jpeg,
        RasterFormat::Png => image::ImageFormat::Png,
        RasterFormat::Bmp => image::ImageFormat::Bmp,
        RasterFormat::Tga => image::ImageFormat::Tga,
    });
    reader.decode().ok().map(|d| d.to_rgba8()).map(|b| Image { width: b.width(), height: b.height(), image: b.into_raw() })
}

/// What the `image` crate decodes from `bytes` in the format it guesses from them, as RGBA.
pub uninterp spec fn image_decode_guessed_of(bytes: Seq<u8>) -> Option<ImageView>;

/// Relies on `image::io::Reader::with_guessed_format` and `decode`, then
/// `to_rgba8`: a function of the bytes.
#[verifier::external_body]
pub(crate) fn image_decode_guessed(bytes: &[u8]) -> (r: Option<Image>)
    ensures
        opt_image_view(&r) == image_decode_guessed_of(bytes@),
{
    let reader = image::io::Reader::new(std::io::Cursor::new(bytes)).with_guessed_format().ok()?;
    reader.decode().ok().map(|d| d.to_rgba8()).map(|b| Image { width: b.width(), height: b.height(), image: b.into_raw() })
}

/// What libwebp decodes from `bytes`, as RGBA.
pub uninterp spec fn webp_decode_of(bytes: Seq<u8>) -> Option<ImageView>;

/// Relies on `webp::Decoder::decode` and `WebPImage::to_image`, then
/// `to_rgba8`: a function of the bytes.
#[verifier::external_body]
pub(crate) fn webp_decode(bytes: &[u8]) -> (r: Option<Image>)
    ensures
        opt_image_view(&r) == webp_decode_of(bytes@),
{
    webp::Decoder::new(bytes).decode().map(|w| w.to_image().to_rgba8()).map(|b| Image { width: b.width(), height: b.height(), image: b.into_raw() })
}

pub open spec fn opt_image_view(o: &Option<Image>) -> Option<ImageView> {
    match o {
        Some(i) => Some(i@),
        None => None,
    }
}

/// The formats the `image` crate writes.
#[derive(Clone, Copy, Debug)]
pub enum RasterOutput {
    /// JPEG at a quality from 0 to 100.
    Jpeg(u8),
    Png,
    Bmp,
}

/// What the `image` crate writes for a raster.
pub uninterp spec fn image_encode_of(format: RasterOutput, img: ImageView) -> Option<Seq<u8>>;

/// Relies on `DynamicImage::write_to` on the RGBA buffer that
/// `RgbaImage::from_raw` makes of the raster (it accepts a buffer of four
/// bytes per pixel): a function of the format and the raster.
#[verifier::external_body]
pub(crate) fn image_encode(format: RasterOutput, img: &Image) -> (r: Option<Vec<u8>>)
    requires
        raster_wf(img@),
    ensures
        match r {
            Some(b) => image_encode_of(format, img@) == Some(b@),
            None => image_encode_of(format, img@) is None,
        },
{
    let buffer = image::RgbaImage::from_raw(img.width, img.height, img.image.clone())?;
    let mut out: Vec<u8> = Vec::new();
    let target = match format {
        RasterOutput::Jpeg(q) => image::ImageOutputFormat::Jpeg(q),
        RasterOutput::Png => image::ImageOutputFormat::Png,
        RasterOutput::Bmp => image::ImageOutputFormat::Bmp,
    };
    image::DynamicImage::ImageRgba8(buffer).write_to(&mut std::io::Cursor::new(&mut out), target).ok()?;
    Some(out)
}

/// What libwebp writes for a raster in lossless mode.
pub uninterp spec fn webp_lossless_of(img: ImageView) -> Seq<u8>;

/// Relies on `webp::Encoder::from_rgba` and `encode_lossless`: a function of
/// the raster. `encode_lossless` panics where libwebp refuses the picture, so
/// both sides must lie in `1..=16383` and the buffer must hold every pixel.
#[verifier::external_body]
pub(crate) fn webp_encode_lossless(img: &Image) -> (r: Vec<u8>)
    requires
        raster_wf(img@),
        1 <= img.width <= WEBP_MAX_DIMENSION,
        1 <= img.height <= WEBP_MAX_DIMENSION,
    ensures
        r@ == webp_lossless_of(img@),
{
    webp::Encoder::from_rgba(&img.image, img.width, img.height).encode_lossless().to_vec()
}

/// The Lanczos3 resize that keeps the aspect ratio, as the `image` crate computes it.
pub uninterp spec fn lanczos3_fit_of(img: ImageView, width: u32, height: u32) -> ImageView;

/// The Lanczos3 resize to exact dimensions, as the `image` crate computes it.
pub uninterp spec fn lanczos3_exact_of(img: ImageView, width: u32, height: u32) -> ImageView;

/// Relies on `DynamicImage::resize` with `FilterType::Lanczos3` (the largest
/// size within the bounds that keeps the aspect ratio) on the RGBA buffer that
/// `RgbaImage::from_raw` makes of the raster: a function of its arguments.
/// The result is built by `ImageBuffer::new`, four bytes per pixel; its sides
/// are `max(round(side * ratio), 1)` with the smaller of the two box ratios
/// (`resize_dimensions`), so a box of at least one pixel each way bounds them.
#[verifier::external_body]
pub(crate) fn lanczos3_fit(img: &Image, width: u32, height: u32) -> (r: Option<Image>)
    requires
        raster_wf(img@),
    ensures
        opt_image_view(&r) == Some(lanczos3_fit_of(img@, width, height)),
        r is Some && raster_wf(r->Some_0@),
        width >= 1 && height >= 1 ==> r is Some && r->Some_0.width <= width && r->Some_0.height
            <= height,
{
    let buffer = image::RgbaImage::from_raw(img.width, img.height, img.image.clone())?;
    let b = image::DynamicImage::ImageRgba8(buffer).resize(width, height, image::imageops::FilterType::Lanczos3).to_rgba8();
    Some(Image { width: b.width(), height: b.height(), image: b.into_raw() })
}

/// Relies on `DynamicImage::resize_exact` with `FilterType::Lanczos3` on the
/// RGBA buffer that `RgbaImage::from_raw` makes of the raster: the result has
/// exactly the dimensions asked for, built by `ImageBuffer::new` with four
/// bytes per pixel.
#[verifier::external_body]
pub(crate) fn lanczos3_exact(img: &Image, width: u32, height: u32) -> (r: Option<Image>)
    requires
        raster_wf(img@),
    ensures
        opt_image_view(&r) == Some(lanczos3_exact_of(img@, width, height)),
        r is Some && r->Some_0.width == width && r->Some_0.height == height,
        r is Some && raster_wf(r->Some_0@),
{
    let buffer = image::RgbaImage::from_raw(img.width, img.height, img.image.clone())?;
    let b = image::DynamicImage::ImageRgba8(buffer).resize_exact(width, height, image::imageops::FilterType::Lanczos3).to_rgba8();
    Some(Image { width: b.width(), height: b.height(), image: b.into_raw() })
}

} // verus!
