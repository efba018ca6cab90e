use image_gateway::encoder::{OutputFormat, ParseError};
use image_gateway::output_dimensions::OutputDimensions;

#[test]
fn format_tokens_parse() {
    assert_eq!(OutputFormat::from_str("png").unwrap(), OutputFormat::Png);
    assert_eq!(OutputFormat::from_str("bmp").unwrap(), OutputFormat::Bmp);
    assert_eq!(OutputFormat::from_str("jpeg").unwrap(), OutputFormat::Jpeg(90));
    assert_eq!(OutputFormat::from_str("jpeg80").unwrap(), OutputFormat::Jpeg(80));
    assert_eq!(OutputFormat::from_str("jpeg0").unwrap(), OutputFormat::Jpeg(0));
    assert_eq!(OutputFormat::from_str("jpeg100").unwrap(), OutputFormat::Jpeg(100));
    assert_eq!(OutputFormat::from_str("webp").unwrap(), OutputFormat::WebpLoseless);
    assert_eq!(OutputFormat::from_str("webp75").unwrap(), OutputFormat::Webp(7500));
    assert_eq!(OutputFormat::from_str("webp75.5").unwrap(), OutputFormat::Webp(7550));
    assert_eq!(OutputFormat::from_str("webp0.25").unwrap(), OutputFormat::Webp(25));
    assert_eq!(OutputFormat::from_str("webp100").unwrap(), OutputFormat::Webp(10000));
    assert_eq!(OutputFormat::from_str("image/webp").unwrap(), OutputFormat::WebpLoseless);
    assert_eq!(OutputFormat::from_str("image/png").unwrap(), OutputFormat::Png);
    assert_eq!(OutputFormat::from_str("image/bmp").unwrap(), OutputFormat::Bmp);
    assert_eq!(OutputFormat::from_str("image/jpeg").unwrap(), OutputFormat::Jpeg(90));
}

#[test]
fn format_tokens_ignore_case() {
    assert_eq!(OutputFormat::from_str("PNG").unwrap(), OutputFormat::Png);
    assert_eq!(OutputFormat::from_str("Bmp").unwrap(), OutputFormat::Bmp);
    assert_eq!(OutputFormat::from_str("JPEG80").unwrap(), OutputFormat::Jpeg(80));
    assert_eq!(OutputFormat::from_str("WebP").unwrap(), OutputFormat::WebpLoseless);
    assert_eq!(OutputFormat::from_str("Image/PNG").unwrap(), OutputFormat::Png);
    assert_eq!(OutputFormat::from_str("IMAGE/JPEG").unwrap(), OutputFormat::Jpeg(90));
}

#[test]
fn format_errors() {
    assert!(matches!(OutputFormat::from_str("jpeg101"), Err(ParseError::QualityOutOfRange(_))));
    assert!(matches!(OutputFormat::from_str("jpeg256"), Err(ParseError::QualityOutOfRange(_))));
    assert!(matches!(OutputFormat::from_str("jpeg99999999999999999999"), Err(ParseError::QualityOutOfRange(_))));
    assert!(matches!(OutputFormat::from_str("webp-1"), Err(ParseError::QualityOutOfRange(_))));
    assert!(matches!(OutputFormat::from_str("pngx"), Err(ParseError::InvalidFormat(ref t)) if t == "pngx"));
    assert!(matches!(OutputFormat::from_str("bmp2"), Err(ParseError::InvalidFormat(_))));
    assert!(matches!(OutputFormat::from_str("jpegx"), Err(ParseError::InvalidIntQuality(_))));
    assert!(matches!(OutputFormat::from_str("webp100.5"), Err(ParseError::QualityOutOfRange(_))));
    assert!(matches!(OutputFormat::from_str("webp-5"), Err(ParseError::QualityOutOfRange(_))));
    assert!(matches!(OutputFormat::from_str("webpfast"), Err(ParseError::InvalidFloatQuality(_))));
    assert!(matches!(OutputFormat::from_str("webp."), Err(ParseError::InvalidFloatQuality(_))));
    assert!(matches!(OutputFormat::from_str("gif"), Err(ParseError::InvalidFormat(_))));
    assert!(matches!(OutputFormat::from_str("image/gif"), Err(ParseError::InvalidFormat(_))));
}

#[test]
fn format_display_forms() {
    assert_eq!(OutputFormat::Png.to_display_string(), "image/png");
    assert_eq!(OutputFormat::Bmp.to_display_string(), "image/bmp");
    assert_eq!(OutputFormat::Jpeg(80).to_display_string(), "image/jpeg - quality: 80");
    assert_eq!(OutputFormat::WebpLoseless.to_display_string(), "image/webp - loseless");
    assert_eq!(OutputFormat::Webp(7500).to_display_string(), "image/webp - quality: 75");
    assert_eq!(OutputFormat::Webp(7550).to_display_string(), "image/webp - quality: 75.5");
    assert_eq!(OutputFormat::Webp(25).to_display_string(), "image/webp - quality: 0.25");
    // Same text as the default formatting of the equal f32 value.
    assert_eq!(format!("image/webp - quality: {}", 75.5f32), "image/webp - quality: 75.5");
    assert_eq!(format!("image/webp - quality: {}", 0.25f32), "image/webp - quality: 0.25");
}

#[test]
fn dimensions_from_path_segments() {
    assert_eq!(OutputDimensions::from_parts("100", "50", false), OutputDimensions::ScaledExact(100, 50));
    assert_eq!(OutputDimensions::from_parts("800", "600", true), OutputDimensions::ScaledWithRatio(800, 600));
    assert_eq!(OutputDimensions::from_parts("+7", "8", false), OutputDimensions::ScaledExact(7, 8));
    assert_eq!(OutputDimensions::from_parts("no-width", "50", false), OutputDimensions::Original);
    assert_eq!(OutputDimensions::from_parts("100", "", true), OutputDimensions::Original);
    assert_eq!(
        OutputDimensions::from_parts("99999999999999999999999", "1", true),
        OutputDimensions::Original
    );
}

#[test]
fn dimensions_display_forms() {
    assert_eq!(OutputDimensions::Original.to_display_string(), "original");
    assert_eq!(OutputDimensions::ScaledExact(100, 50).to_display_string(), "100x50 exact");
    assert_eq!(OutputDimensions::ScaledWithRatio(800, 600).to_display_string(), "800x600 keep ratio");
    assert_eq!(OutputDimensions::ScaledExact(0, 10).to_display_string(), "0x10 exact");
}
