use image_gateway::tag::{generate_resource_tag, to_hex};

#[test]
fn tag_is_hex_md5() {
    assert_eq!(generate_resource_tag(""), "d41d8cd98f00b204e9800998ecf8427e");
    assert_eq!(generate_resource_tag("abc"), "900150983cd24fb0d6963f7d28e17f72");
    assert_eq!(
        generate_resource_tag("The quick brown fox jumps over the lazy dog"),
        "9e107d9d372bb6826bd81d3542a419d6"
    );
}

#[test]
fn tag_has_32_lowercase_hex_digits() {
    for s in ["", "a", "http://origin/pic.jpg", "Image Decoder 1234", "ünïcödé"] {
        let t = generate_resource_tag(s);
        assert_eq!(t.len(), 32);
        assert!(t.chars().all(|c| c.is_ascii_digit() || ('a'..='f').contains(&c)));
    }
}

#[test]
fn hex_writes_two_digits_per_byte() {
    assert_eq!(to_hex(&[0x00, 0x0f, 0xa0, 0xff]), "000fa0ff");
    assert_eq!(to_hex(&[]), "");
}
