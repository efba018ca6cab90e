//! The encoder stage: output formats and their canonical text, encoded
//! artifacts and their cached form, and the memoised encoder.

use vstd::prelude::*;
use vstd::string::*;
use crate::cache::{CacheEngine, CacheError};
use crate::image::{
    image_encode, image_encode_of, raster_wf, webp_encode_lossless, webp_lossless_of, Image,
    ImageView, RasterOutput, WEBP_MAX_DIMENSION,
};
use crate::output_dimensions::{dimensions_text, OutputDimensions};
use crate::tag::{generate_resource_tag, hex_char, hex_digit_str, tag_of};
use crate::text::{all_digits, digit_value, is_digit, decimal_string, decimal_text, digits_value, read_digits, unsigned_value};
use crate::wire::{
    lemma_bytes_round_trip, lemma_str_round_trip, read_bytes, read_str, ser_bytes, ser_str,
    take_bytes, take_str, write_bytes, write_str,
};

verus! {

/// The codec and settings of an encoded response. A lossy WebP quality is
/// kept in hundredths (`7550` is quality 75.5).
#[derive(Debug, Clone, Copy, PartialEq, Eq, Structural)]
pub enum OutputFormat {
    Jpeg(u8),
    Png,
    WebpLoseless,
    Webp(u16),
    Bmp,
}

/// Why a format token was refused.
#[derive(Debug)]
pub enum ParseError {
    /// The JPEG quality is not an integer from 0 to 255; carries the text.
    InvalidIntQuality(String),
    /// The WebP quality is not a decimal number with at most two decimals; carries the text.
    InvalidFloatQuality(String),
    QualityOutOfRange(String),
    InvalidFormat(String),
}

pub ghost enum FormatParse {
    Format(OutputFormat),
    InvalidIntQuality,
    InvalidFloatQuality,
    QualityOutOfRange,
    InvalidFormat,
}

/// What a lossy WebP quality text reads as.
pub ghost enum QualityText {
    Invalid,
    OutOfRange,
    Hundredths(nat),
}

/// The index of the first `.`, or the length when there is none.
pub open spec fn first_dot(s: Seq<char>) -> int
    decreases s.len(),
{
    if s.len() == 0 {
        0
    } else if s[0] == '.' {
        0
    } else {
        1 + first_dot(s.drop_first())
    }
}

/// A lossy WebP quality: an optional sign, then digits with an optional
/// fraction of at most two digits (at least one digit in all). Negative
/// values and values above 100 are out of range.
pub open spec fn quality_text(s: Seq<char>) -> QualityText {
    let negative = s.len() > 0 && s[0] == '-';
    let body = if s.len() > 0 && (s[0] == '+' || s[0] == '-') {
        s.drop_first()
    } else {
        s
    };
    let dot = first_dot(body);
    let whole = body.take(dot);
    let frac = if dot < body.len() {
        body.skip(dot + 1)
    } else {
        Seq::empty()
    };
    if !all_digits(whole) || !all_digits(frac) || frac.len() > 2 || (whole.len() == 0 && frac.len()
        == 0) {
        QualityText::Invalid
    } else {
        let h = digits_value(whole) * 100 + if frac.len() == 1 {
            digits_value(frac) * 10
        } else {
            digits_value(frac)
        };
        if negative || h > 10000 {
            QualityText::OutOfRange
        } else {
            QualityText::Hundredths(h)
        }
    }
}

/// `c` is the lowercase letter `l`, or its uppercase form.
pub open spec fn char_matches(c: char, l: char) -> bool {
    c == l || ('A' <= c <= 'Z' && c as u32 + 32 == l as u32)
}

/// `s` is the lowercase token `lit`, ignoring ASCII case.
pub open spec fn token_is(s: Seq<char>, lit: Seq<char>) -> bool {
    s.len() == lit.len() && forall|i: int| 0 <= i < s.len() ==> char_matches(s[i], #[trigger] lit[i])
}

/// `s` starts with the four-letter codec name `lit`, ignoring ASCII case.
pub open spec fn codec_prefix(s: Seq<char>, lit: Seq<char>) -> bool {
    s.len() >= 4 && token_is(s.take(4), lit)
}

/// How a format token reads: `png`, `bmp`, `jpeg[q]`, `webp[q]` or a media
/// type, ignoring ASCII case. A JPEG quality is an unsigned integer (above 100:
/// out of range); a WebP quality reads as `quality_text`.
pub open spec fn format_parse(s: Seq<char>) -> FormatParse {
    if token_is(s, "png"@) {
        FormatParse::Format(OutputFormat::Png)
    } else if token_is(s, "bmp"@) {
        FormatParse::Format(OutputFormat::Bmp)
    } else if codec_prefix(s, "jpeg"@) {
        let q = s.skip(4);
        if q.len() == 0 {
            FormatParse::Format(OutputFormat::Jpeg(90))
        } else {
            match unsigned_value(q) {
                None => FormatParse::InvalidIntQuality,
                Some(v) => if v > 100 {
                    FormatParse::QualityOutOfRange
                } else {
                    FormatParse::Format(OutputFormat::Jpeg(v as u8))
                },
            }
        }
    } else if codec_prefix(s, "webp"@) {
        let q = s.skip(4);
        if q.len() == 0 {
            FormatParse::Format(OutputFormat::WebpLoseless)
        } else {
            match quality_text(q) {
                QualityText::Invalid => FormatParse::InvalidFloatQuality,
                QualityText::OutOfRange => FormatParse::QualityOutOfRange,
                QualityText::Hundredths(h) => FormatParse::Format(OutputFormat::Webp(h as u16)),
            }
        }
    } else if token_is(s, "image/webp"@) {
        FormatParse::Format(OutputFormat::WebpLoseless)
    } else if token_is(s, "image/png"@) {
        FormatParse::Format(OutputFormat::Png)
    } else if token_is(s, "image/bmp"@) {
        FormatParse::Format(OutputFormat::Bmp)
    } else if token_is(s, "image/jpeg"@) {
        FormatParse::Format(OutputFormat::Jpeg(90))
    } else {
        FormatParse::InvalidFormat
    }
}

pub open spec fn parse_view(r: &Result<OutputFormat, ParseError>) -> FormatParse {
    match r {
        Ok(f) => FormatParse::Format(*f),
        Err(ParseError::InvalidIntQuality(_)) => FormatParse::InvalidIntQuality,
        Err(ParseError::InvalidFloatQuality(_)) => FormatParse::InvalidFloatQuality,
        Err(ParseError::QualityOutOfRange(_)) => FormatParse::QualityOutOfRange,
        Err(ParseError::InvalidFormat(_)) => FormatParse::InvalidFormat,
    }
}

/// A quality in hundredths written as the shortest decimal: `75`, `75.5`, `75.25`.
pub open spec fn hundredths_text(h: nat) -> Seq<char> {
    let whole = decimal_text(h / 100);
    let frac = h % 100;
    if frac == 0 {
        whole
    } else if frac % 10 == 0 {
        whole + "."@ + seq![hex_char((frac / 10) as int)]
    } else {
        whole + "."@ + seq![hex_char((frac / 10) as int), hex_char((frac % 10) as int)]
    }
}

/// The canonical text of a format.
pub open spec fn format_text(f: OutputFormat) -> Seq<char> {
    match f {
        OutputFormat::Png => "image/png"@,
        OutputFormat::Bmp => "image/bmp"@,
        OutputFormat::WebpLoseless => "image/webp - loseless"@,
        OutputFormat::Jpeg(q) => "image/jpeg - quality: "@ + decimal_text(q as nat),
        OutputFormat::Webp(h) => "image/webp - quality: "@ + hundredths_text(h as nat),
    }
}

/// The media type of a format.
pub open spec fn format_mime(f: OutputFormat) -> Seq<char> {
    match f {
        OutputFormat::Png => "image/png"@,
        OutputFormat::Bmp => "image/bmp"@,
        OutputFormat::Jpeg(_) => "image/jpeg"@,
        _ => "image/webp"@,
    }
}

proof fn lemma_first_dot_at(s: Seq<char>, i: int)
    requires
        0 <= i <= s.len(),
        forall|j: int| 0 <= j < i ==> s[j] != '.',
        i == s.len() || s[i] == '.',
    ensures
        first_dot(s) == i,
    decreases i,
{
    if i > 0 {
        lemma_first_dot_at(s.drop_first(), i - 1);
    }
}

fn all_digits_in(s: &str, from: usize, to: usize) -> (r: bool)
    requires
        from <= to <= s@.len(),
    ensures
        r == all_digits(s@.subrange(from as int, to as int)),
{
    let mut i = from;
    while i < to
        invariant
            from <= i <= to <= s@.len(),
            all_digits(s@.subrange(from as int, i as int)),
        decreases to - i,
    {
        let c = s.get_char(i);
        if !('0' <= c && c <= '9') {
            assert(s@.subrange(from as int, to as int)[i - from] == c);
            return false;
        }
        assert(s@.subrange(from as int, i + 1) =~= s@.subrange(from as int, i as int).push(c));
        i = i + 1;
    }
    true
}

pub enum QualityRead {
    Invalid,
    OutOfRange,
    Hundredths(u16),
}

/// Reads a lossy WebP quality.
fn read_quality(q: &str) -> (r: QualityRead)
    ensures
        match (r, quality_text(q@)) {
            (QualityRead::Invalid, QualityText::Invalid) => true,
            (QualityRead::OutOfRange, QualityText::OutOfRange) => true,
            (QualityRead::Hundredths(a), QualityText::Hundredths(b)) => a == b,
            _ => false,
        },
{
    let n = q.unicode_len();
    let negative = n > 0 && q.get_char(0) == '-';
    let start: usize = if n > 0 && (q.get_char(0) == '+' || q.get_char(0) == '-') {
        1
    } else {
        0
    };
    let ghost body = q@.skip(start as int);
    assert(body =~= if q@.len() > 0 && (q@[0] == '+' || q@[0] == '-') {
        q@.drop_first()
    } else {
        q@
    });
    let mut dot = start;
    while dot < n && q.get_char(dot) != '.'
        invariant
            start <= dot <= n,
            n == q@.len(),
            body == q@.skip(start as int),
            forall|j: int| 0 <= j < dot - start ==> body[j] != '.',
        decreases n - dot,
    {
        dot = dot + 1;
    }
    proof {
        lemma_first_dot_at(body, dot - start);
        assert(body.take(dot - start) =~= q@.subrange(start as int, dot as int));
    }
    let frac_from: usize = if dot < n {
        dot + 1
    } else {
        n
    };
    proof {
        if dot < n {
            assert(body.skip(dot - start + 1) =~= q@.subrange(frac_from as int, n as int));
        } else {
            assert(q@.subrange(frac_from as int, n as int) =~= Seq::<char>::empty());
        }
    }
    if !all_digits_in(q, start, dot) || !all_digits_in(q, frac_from, n) || n - frac_from > 2 || (
    dot == start && frac_from == n) {
        return QualityRead::Invalid;
    }
    let whole_text = q.substring_char(start, dot);
    let frac_text = q.substring_char(frac_from, n);
    let whole = if dot == start {
        Ok(Some(0u64))
    } else {
        read_digits(whole_text, 0, 100)
    };
    assert(whole_text@.skip(0) =~= whole_text@);
    assert(frac_text@.skip(0) =~= frac_text@);
    let frac: u64 = if frac_from == n {
        0
    } else {
        match read_digits(frac_text, 0, 99) {
            Ok(Some(v)) => if n - frac_from == 1 {
                v * 10
            } else {
                v
            },
            _ => 0,
        }
    };
    proof {
        if frac_from < n {
            assert(digits_value(frac_text@) <= 99) by {
                lemma_two_digits(frac_text@);
            }
        }
        if dot == start {
            assert(digits_value(whole_text@) == 0);
        }
    }
    match whole {
        Ok(Some(w)) => {
            let h = w * 100 + frac;
            if negative || h > 10000 {
                QualityRead::OutOfRange
            } else {
                QualityRead::Hundredths(h as u16)
            }
        },
        _ => QualityRead::OutOfRange,
    }
}

proof fn lemma_two_digits(s: Seq<char>)
    requires
        s.len() <= 2,
        all_digits(s),
    ensures
        digits_value(s) <= 99,
{
    if s.len() > 0 {
        assert(is_digit(s[s.len() - 1]));
        let t = s.drop_last();
        if t.len() == 1 {
            assert(is_digit(t[0]) && t[0] == s[0]);
            assert(t.drop_last().len() == 0);
            assert(digits_value(t.drop_last()) == 0);
            assert(t.last() == t[0]);
            assert(digits_value(t) == digit_value(t[0]));
        } else {
            assert(digits_value(t) == 0);
        }
    }
}

/// Whether the characters `from..to` of `s` are the lowercase token `lit`, ignoring ASCII case.
fn token_at(s: &str, from: usize, to: usize, lit: &str) -> (r: bool)
    requires
        from <= to <= s@.len(),
    ensures
        r == token_is(s@.subrange(from as int, to as int), lit@),
{
    let m = lit.unicode_len();
    if to - from != m {
        return false;
    }
    let mut i: usize = 0;
    while i < m
        invariant
            m == lit@.len(),
            from + m == to <= s@.len(),
            i <= m,
            forall|j: int| 0 <= j < i ==> char_matches(s@[from + j], #[trigger] lit@[j]),
        decreases m - i,
    {
        let c = s.get_char(from + i);
        let l = lit.get_char(i);
        if !(c == l || ('A' <= c && c <= 'Z' && c as u32 + 32 == l as u32)) {
            assert(s@.subrange(from as int, to as int)[i as int] == c);
            return false;
        }
        i = i + 1;
    }
    assert forall|j: int| 0 <= j < m implies char_matches(
        s@.subrange(from as int, to as int)[j],
        #[trigger] lit@[j],
    ) by {
        assert(s@.subrange(from as int, to as int)[j] == s@[from + j]);
    }
    true
}

impl OutputFormat {
    /// Reads a format token (`png`, `bmp`, `jpeg[q]`, `webp[q]`, or a media
    /// type), ignoring ASCII case.
    pub fn from_str(s: &str) -> (r: Result<OutputFormat, ParseError>)
        ensures
            parse_view(&r) == format_parse(s@),
            r matches Err(ParseError::InvalidFormat(t)) ==> t@ == s@,
            r matches Err(ParseError::InvalidIntQuality(t)) ==> t@ == s@.skip(4),
            r matches Err(ParseError::InvalidFloatQuality(t)) ==> t@ == s@.skip(4),
    {
        let n = s.unicode_len();
        if token_at(s, 0, n, "png") {
            assert(s@.subrange(0, n as int) =~= s@);
            return Ok(OutputFormat::Png);
        }
        assert(s@.subrange(0, n as int) =~= s@);
        if token_at(s, 0, n, "bmp") {
            return Ok(OutputFormat::Bmp);
        }
        if n >= 4 && token_at(s, 0, 4, "jpeg") {
            assert(s@.subrange(0, 4) =~= s@.take(4));
            let q = s.substring_char(4, n);
            assert(q@ =~= s@.skip(4));
            if n == 4 {
                return Ok(OutputFormat::Jpeg(90));
            }
            let start: usize = if q.get_char(0) == '+' {
                1
            } else {
                0
            };
            assert(q@.skip(start as int) =~= if q@.len() > 0 && q@[0] == '+' {
                q@.drop_first()
            } else {
                q@
            });
            return match read_digits(q, start, 100) {
                Ok(Some(v)) => Ok(OutputFormat::Jpeg(v as u8)),
                Ok(None) => Err(
                    ParseError::QualityOutOfRange(
                        String::from_str("JPEG quality must be between 0 (worst) and 100 (best)"),
                    ),
                ),
                Err(()) => Err(ParseError::InvalidIntQuality(String::from_str(q))),
            };
        }
        if n >= 4 {
            assert(s@.subrange(0, 4) =~= s@.take(4));
        }
        if n >= 4 && token_at(s, 0, 4, "webp") {
            let q = s.substring_char(4, n);
            assert(q@ =~= s@.skip(4));
            if n == 4 {
                return Ok(OutputFormat::WebpLoseless);
            }
            return match read_quality(q) {
                QualityRead::Invalid => Err(ParseError::InvalidFloatQuality(String::from_str(q))),
                QualityRead::OutOfRange => Err(
                    ParseError::QualityOutOfRange(
                        String::from_str("WebP quality must be between 0 (worst) and 100 (best)"),
                    ),
                ),
                QualityRead::Hundredths(h) => Ok(OutputFormat::Webp(h)),
            };
        }
        if token_at(s, 0, n, "image/webp") {
            return Ok(OutputFormat::WebpLoseless);
        }
        if token_at(s, 0, n, "image/png") {
            return Ok(OutputFormat::Png);
        }
        if token_at(s, 0, n, "image/bmp") {
            return Ok(OutputFormat::Bmp);
        }
        if token_at(s, 0, n, "image/jpeg") {
            return Ok(OutputFormat::Jpeg(90));
        }
        Err(ParseError::InvalidFormat(String::from_str(s)))
    }

    /// The canonical text of this format (part of the encoder's cache keys).
    pub fn to_display_string(&self) -> (r: String)
        ensures
            r@ == format_text(*self),
    {
        match self {
            OutputFormat::Png => String::from_str("image/png"),
            OutputFormat::Bmp => String::from_str("image/bmp"),
            OutputFormat::WebpLoseless => String::from_str("image/webp - loseless"),
            OutputFormat::Jpeg(q) => {
                let mut r = String::from_str("image/jpeg - quality: ");
                r.append(decimal_string(*q as u64).as_str());
                r
            },
            OutputFormat::Webp(h) => {
                let mut r = String::from_str("image/webp - quality: ");
                r.append(hundredths_string(*h).as_str());
                r
            },
        }
    }

    /// The media type of this format.
    pub fn mime(&self) -> (r: String)
        ensures
            r@ == format_mime(*self),
    {
        match self {
            OutputFormat::Png => String::from_str("image/png"),
            OutputFormat::Bmp => String::from_str("image/bmp"),
            OutputFormat::Jpeg(_) => String::from_str("image/jpeg"),
            _ => String::from_str("image/webp"),
        }
    }
}

fn hundredths_string(h: u16) -> (r: String)
    ensures
        r@ == hundredths_text(h as nat),
{
    let mut r = decimal_string((h / 100) as u64);
    let frac = h % 100;
    if frac == 0 {
        return r;
    }
    r.append(".");
    r.append(hex_digit_str((frac / 10) as u8));
    if frac % 10 != 0 {
        r.append(hex_digit_str((frac % 10) as u8));
    }
    r
}

/// An encoded response body and its media type.
#[derive(Clone, Debug)]
pub struct EncodedImage {
    pub content_type: String,
    pub image: Vec<u8>,
}

pub ghost struct EncodedView {
    pub content_type: Seq<char>,
    pub bytes: Seq<u8>,
}

impl View for EncodedImage {
    type V = EncodedView;

    open spec fn view(&self) -> EncodedView {
        EncodedView { content_type: self.content_type@, bytes: self.image@ }
    }
}

/// The cached form of an encoded artifact.
pub open spec fn ser_encoded(e: EncodedView) -> Seq<u8> {
    ser_str(e.content_type) + ser_bytes(e.bytes)
}

/// Reading back a cached artifact: all of the bytes, or nothing.
pub open spec fn parse_encoded(b: Seq<u8>) -> Option<EncodedView> {
    match take_str(b) {
        None => None,
        Some((content_type, b)) => match take_bytes(b) {
            None => None,
            Some((bytes, b)) => if b.len() == 0 {
                Some(EncodedView { content_type, bytes })
            } else {
                None
            },
        },
    }
}

pub open spec fn encoded_sized(e: EncodedView) -> bool {
    vstd::utf8::encode_utf8(e.content_type).len() <= u64::MAX && e.bytes.len() <= u64::MAX
}

/// An artifact reads back as itself.
pub proof fn lemma_encoded_round_trip(e: EncodedView)
    requires
        encoded_sized(e),
    ensures
        parse_encoded(ser_encoded(e)) == Some(e),
{
    let empty = Seq::<u8>::empty();
    lemma_str_round_trip(e.content_type, ser_bytes(e.bytes));
    lemma_bytes_round_trip(e.bytes, empty);
    assert(ser_bytes(e.bytes) + empty =~= ser_bytes(e.bytes));
}

impl EncodedImage {
    /// The cached form of this artifact.
    pub fn to_bytes(&self) -> (r: Vec<u8>)
        ensures
            r@ == ser_encoded(self@),
            encoded_sized(self@),
    {
        let mut out: Vec<u8> = Vec::new();
        write_str(&mut out, self.content_type.as_str());
        write_bytes(&mut out, self.image.as_slice());
        assert(out@ =~= ser_encoded(self@));
        out
    }

    /// Reads an artifact back from its cached form.
    pub fn from_bytes(b: &[u8]) -> (r: Option<EncodedImage>)
        ensures
            match r {
                Some(e) => parse_encoded(b@) == Some(e@),
                None => parse_encoded(b@) is None,
            },
    {
        assert(b@.skip(0) =~= b@);
        let (content_type, p) = match read_str(b, 0) {
            Some(x) => x,
            None => return None,
        };
        let (image, p) = match read_bytes(b, p) {
            Some(x) => x,
            None => return None,
        };
        if p != b.len() {
            return None;
        }
        Some(EncodedImage { content_type, image })
    }
}

#[derive(Debug)]
pub enum EncodingError {
    /// The codec refused the raster.
    CodecFailed,
    /// Lossy WebP takes a floating-point quality, and runs outside this
    /// library: encode there, then hand the bytes to `store_encoded`.
    ExternalCodecRequired,
    /// The cache refused the encoded artifact.
    CacheWrite(CacheError),
}

/// The PNG and JPEG codecs of the `image` crate.
#[derive(Debug, Clone, Copy, PartialEq, Eq, Structural)]
pub enum ImagePngJpgEncoderType {
    JPG,
    PNG,
}

impl ImagePngJpgEncoderType {
    /// The codec's short name: `PNG` or `JPG`.
    pub fn to_display_string(&self) -> (r: String)
        ensures
            r@ == (match self {
                ImagePngJpgEncoderType::JPG => "JPG"@,
                ImagePngJpgEncoderType::PNG => "PNG"@,
            }),
    {
        match self {
            ImagePngJpgEncoderType::PNG => String::from_str("PNG"),
            ImagePngJpgEncoderType::JPG => String::from_str("JPG"),
        }
    }

    /// The media type the codec writes.
    pub fn to_mime(&self) -> (r: String)
        ensures
            r@ == (match self {
                ImagePngJpgEncoderType::JPG => "image/jpeg"@,
                ImagePngJpgEncoderType::PNG => "image/png"@,
            }),
    {
        match self {
            ImagePngJpgEncoderType::PNG => String::from_str("image/png"),
            ImagePngJpgEncoderType::JPG => String::from_str("image/jpeg"),
        }
    }
}

/// Writes PNG or JPEG through the `image` crate.
pub struct ImagePngJpgEncoder {
    pub output_format: ImagePngJpgEncoderType,
}

impl ImagePngJpgEncoder {
    pub fn new(output_format: ImagePngJpgEncoderType) -> (r: ImagePngJpgEncoder)
        ensures
            r.output_format == output_format,
    {
        ImagePngJpgEncoder { output_format }
    }

    /// The encoded raster (JPEG at `quality`); `None` where the raster is
    /// malformed or the codec refuses it.
    pub fn encode(&self, image: &Image, quality: u8) -> (r: Option<Vec<u8>>)
        ensures
            ({
                let format = match self.output_format {
                    ImagePngJpgEncoderType::JPG => RasterOutput::Jpeg(quality),
                    ImagePngJpgEncoderType::PNG => RasterOutput::Png,
                };
                match r {
                    Some(b) => raster_wf(image@) && image_encode_of(format, image@) == Some(b@),
                    None => !raster_wf(image@) || image_encode_of(format, image@) is None,
                }
            }),
    {
        if !image.is_well_formed() {
            return None;
        }
        match self.output_format {
            ImagePngJpgEncoderType::JPG => image_encode(RasterOutput::Jpeg(quality), image),
            ImagePngJpgEncoderType::PNG => image_encode(RasterOutput::Png, image),
        }
    }
}

/// Writes lossless WebP through libwebp.
pub struct ImageWebpEncoder {}

/// The rasters that libwebp encodes: well-formed, each side in `1..=16383`.
pub open spec fn webp_encodable(v: ImageView) -> bool {
    raster_wf(v) && 1 <= v.width <= WEBP_MAX_DIMENSION && 1 <= v.height <= WEBP_MAX_DIMENSION
}

impl ImageWebpEncoder {
    pub fn new() -> (r: ImageWebpEncoder) {
        ImageWebpEncoder {  }
    }

    /// The lossless WebP encoding of the raster, where libwebp takes it.
    pub fn encode(&self, image: &Image) -> (r: Option<Vec<u8>>)
        ensures
            match r {
                Some(b) => webp_encodable(image@) && b@ == webp_lossless_of(image@),
                None => !webp_encodable(image@),
            },
    {
        if !image.is_well_formed() || image.width < 1 || image.width > WEBP_MAX_DIMENSION
            || image.height < 1 || image.height > WEBP_MAX_DIMENSION {
            return None;
        }
        Some(webp_encode_lossless(image))
    }
}

/// What the library's codecs make of a raster in a format (nothing for lossy WebP).
pub open spec fn codec_output(format: OutputFormat, img: ImageView) -> Option<Seq<u8>> {
    match format {
        OutputFormat::Jpeg(q) => if raster_wf(img) {
            image_encode_of(RasterOutput::Jpeg(q), img)
        } else {
            None
        },
        OutputFormat::Png => if raster_wf(img) {
            image_encode_of(RasterOutput::Png, img)
        } else {
            None
        },
        OutputFormat::Bmp => if raster_wf(img) {
            image_encode_of(RasterOutput::Bmp, img)
        } else {
            None
        },
        OutputFormat::WebpLoseless => if webp_encodable(img) {
            Some(webp_lossless_of(img))
        } else {
            None
        },
        OutputFormat::Webp(_) => None,
    }
}

/// The encoder cache key of a resource identifier, resize and format.
pub open spec fn encoder_key(id: Seq<char>, dims: OutputDimensions, format: OutputFormat) -> Seq<
    char,
> {
    tag_of(id + " - "@ + format_text(format) + " "@ + dimensions_text(dims))
}

/// The artifact cached under `key`, if one reads back.
pub open spec fn cached_artifact(entries: Map<Seq<char>, Seq<u8>>, key: Seq<char>) -> Option<
    EncodedView,
> {
    if entries.contains_key(key) {
        parse_encoded(entries[key])
    } else {
        None
    }
}

/// What the encoder answers: the cached artifact, else the codec's output.
pub open spec fn encode_outcome(
    entries: Map<Seq<char>, Seq<u8>>,
    id: Seq<char>,
    dims: OutputDimensions,
    format: OutputFormat,
    img: ImageView,
) -> Option<EncodedView> {
    match cached_artifact(entries, encoder_key(id, dims, format)) {
        Some(v) => Some(v),
        None => match codec_output(format, img) {
            Some(b) => Some(EncodedView { content_type: format_mime(format), bytes: b }),
            None => None,
        },
    }
}

/// The encoder's answer on cache entries `entries` and the entries it leaves:
/// a cached artifact leaves them as they are; a fresh one is stored when the
/// engine keeps writes.
pub open spec fn encode_step(
    entries: Map<Seq<char>, Seq<u8>>,
    keeps: bool,
    id: Seq<char>,
    dims: OutputDimensions,
    format: OutputFormat,
    img: ImageView,
) -> Option<(EncodedView, Map<Seq<char>, Seq<u8>>)> {
    let key = encoder_key(id, dims, format);
    match cached_artifact(entries, key) {
        Some(v) => Some((v, entries)),
        None => match encode_outcome(entries, id, dims, format, img) {
            Some(v) => Some(
                (
                    v,
                    if keeps {
                        entries.insert(key, ser_encoded(v))
                    } else {
                        entries
                    },
                ),
            ),
            None => None,
        },
    }
}

/// Asking the encoder twice for the same artifact gives the same answer,
/// whether or not the first answer was kept in the cache.
pub proof fn lemma_encode_repeatable(
    entries: Map<Seq<char>, Seq<u8>>,
    id: Seq<char>,
    dims: OutputDimensions,
    format: OutputFormat,
    img: ImageView,
)
    requires
        encode_outcome(entries, id, dims, format, img) matches Some(v) && encoded_sized(v),
    ensures
        ({
            let first = encode_outcome(entries, id, dims, format, img);
            let kept = entries.insert(encoder_key(id, dims, format), ser_encoded(first->Some_0));
            encode_outcome(kept, id, dims, format, img) == first
        }),
{
    let v = encode_outcome(entries, id, dims, format, img)->Some_0;
    lemma_encoded_round_trip(v);
}

/// The encoder, memoised in a cache engine.
pub struct AllInOneCachedImageEncoder {}

impl AllInOneCachedImageEncoder {
    fn key(tag: &String, dims: &OutputDimensions, format: &OutputFormat) -> (r: String)
        ensures
            r@ == encoder_key(tag@, *dims, *format),
    {
        let mut label = tag.clone();
        label.append(" - ");
        label.append(format.to_display_string().as_str());
        label.append(" ");
        label.append(dims.to_display_string().as_str());
        generate_resource_tag(label.as_str())
    }

    fn lookup<C: CacheEngine>(cache: &C, key: &String) -> (r: Option<EncodedImage>)
        requires
            cache.wf(),
        ensures
            cache.describes_contents() ==> match r {
                Some(e) => cached_artifact(cache.entries(), key@) == Some(e@),
                None => cached_artifact(cache.entries(), key@) is None,
            },
    {
        match cache.get(key.as_str()) {
            Some(bytes) => EncodedImage::from_bytes(bytes.as_slice()),
            None => None,
        }
    }

    /// The cached artifact for this resource, resize and format, if any.
    pub fn serve_cache<C: CacheEngine>(
        &self,
        cache: &C,
        tag: &String,
        dimensions: &OutputDimensions,
        output_format: &OutputFormat,
    ) -> (r: Option<EncodedImage>)
        requires
            cache.wf(),
        ensures
            cache.describes_contents() ==> match r {
                Some(e) => cached_artifact(
                    cache.entries(),
                    encoder_key(tag@, *dimensions, *output_format),
                ) == Some(e@),
                None => cached_artifact(
                    cache.entries(),
                    encoder_key(tag@, *dimensions, *output_format),
                ) is None,
            },
    {
        let key = Self::key(tag, dimensions, output_format);
        Self::lookup(cache, &key)
    }

    fn run_codec(image: &Image, format: &OutputFormat) -> (r: Option<Vec<u8>>)
        ensures
            match r {
                Some(b) => codec_output(*format, image@) == Some(b@),
                None => codec_output(*format, image@) is None,
            },
    {
        match format {
            OutputFormat::Jpeg(q) => ImagePngJpgEncoder::new(ImagePngJpgEncoderType::JPG).encode(
                image,
                *q,
            ),
            OutputFormat::Png => ImagePngJpgEncoder::new(ImagePngJpgEncoderType::PNG).encode(
                image,
                0,
            ),
            OutputFormat::Bmp => if image.is_well_formed() {
                image_encode(RasterOutput::Bmp, image)
            } else {
                None
            },
            OutputFormat::WebpLoseless => ImageWebpEncoder::new().encode(image),
            OutputFormat::Webp(_) => None,
        }
    }

    /// The artifact for this resource, resize and format: from the cache when
    /// one reads back there, else encoded and stored.
    pub fn encode<C: CacheEngine>(
        &self,
        cache: &mut C,
        tag: &String,
        image: &Image,
        dimensions: &OutputDimensions,
        output_format: &OutputFormat,
    ) -> (r: Result<EncodedImage, EncodingError>)
        requires
            old(cache).wf(),
        ensures
            final(cache).wf(),
            final(cache).describes_contents() == old(cache).describes_contents(),
            final(cache).keeps_entries() == old(cache).keeps_entries(),
            final(cache).infallible() == old(cache).infallible(),
            old(cache).describes_contents() ==> ({
                let before = old(cache).entries();
                let after = final(cache).entries();
                match encode_step(
                    before,
                    old(cache).keeps_entries(),
                    tag@,
                    *dimensions,
                    *output_format,
                    image@,
                ) {
                    Some((v, stored)) => (r matches Ok(e) && e@ == v && after == stored) || (
                    r matches Err(EncodingError::CacheWrite(_)) && !old(cache).infallible()
                        && after == before),
                    None => after == before && if output_format is Webp {
                        r matches Err(EncodingError::ExternalCodecRequired)
                    } else {
                        r matches Err(EncodingError::CodecFailed)
                    },
                }
            }),
    {
        let key = Self::key(tag, dimensions, output_format);
        if let Some(cached) = Self::lookup(cache, &key) {
            return Ok(cached);
        }
        let bytes = match Self::run_codec(image, output_format) {
            Some(b) => b,
            None => {
                return match output_format {
                    OutputFormat::Webp(_) => Err(EncodingError::ExternalCodecRequired),
                    _ => Err(EncodingError::CodecFailed),
                };
            },
        };
        let encoded = EncodedImage { content_type: output_format.mime(), image: bytes };
        let stored = encoded.to_bytes();
        match cache.set(key.as_str(), &stored) {
            Ok(_) => Ok(encoded),
            Err(e) => Err(EncodingError::CacheWrite(e)),
        }
    }

    /// Stores bytes encoded outside the library for this resource, resize and
    /// format, and returns the artifact; fails when the cache refuses it.
    pub fn store_encoded<C: CacheEngine>(
        &self,
        cache: &mut C,
        tag: &String,
        dimensions: &OutputDimensions,
        output_format: &OutputFormat,
        bytes: Vec<u8>,
    ) -> (r: Result<EncodedImage, EncodingError>)
        requires
            old(cache).wf(),
        ensures
            final(cache).wf(),
            final(cache).describes_contents() == old(cache).describes_contents(),
            final(cache).keeps_entries() == old(cache).keeps_entries(),
            final(cache).infallible() == old(cache).infallible(),
            ({
                let before = old(cache).entries();
                let after = final(cache).entries();
                let key = encoder_key(tag@, *dimensions, *output_format);
                let v = EncodedView { content_type: format_mime(*output_format), bytes: bytes@ };
                &&& r matches Ok(e) ==> e@ == v && (old(cache).keeps_entries() ==> after
                    == before.insert(key, ser_encoded(v))) && (!old(cache).keeps_entries() ==> after
                    == before)
                &&& r is Err ==> (r matches Err(EncodingError::CacheWrite(_)) && !old(
                    cache,
                ).infallible() && after == before)
                &&& old(cache).infallible() ==> r is Ok
            }),
    {
        let key = Self::key(tag, dimensions, output_format);
        let encoded = EncodedImage { content_type: output_format.mime(), image: bytes };
        let stored = encoded.to_bytes();
        match cache.set(key.as_str(), &stored) {
            Ok(_) => Ok(encoded),
            Err(e) => Err(EncodingError::CacheWrite(e)),
        }
    }
}

} // verus!
