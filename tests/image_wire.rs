use image::{DynamicImage, GenericImage, Rgba};
use image_gateway::image::Image;

fn image_of(img: &DynamicImage) -> Image {
    let rgba = img.to_rgba8();
    Image { width: rgba.width(), height: rgba.height(), image: rgba.into_raw() }
}

#[test]
fn serialize_image_struct() {
    let mut img: DynamicImage = DynamicImage::new_rgb8(2, 3).into();
    img.put_pixel(1, 1, Rgba([255, 0, 100, 255]));

    let image_struct: Image = image_of(&img);

    let s = image_struct.to_bytes();
    let expected_bincode: Vec<u8> = Vec::from([24, 0, 0, 0, 0, 0, 0, 0, 0, 0, 0, 255, 0, 0, 0, 255, 0, 0, 0, 255, 255, 0, 100, 255, 0, 0, 0, 255, 0, 0, 0, 255, 2, 0, 0, 0, 3, 0, 0, 0]);

    assert_eq!(expected_bincode, s);
}

#[test]
fn deserialize_image_struct() {
    let image_bincode: &[u8] = &[24, 0, 0, 0, 0, 0, 0, 0, 0, 0, 0, 255, 0, 0, 0, 255, 0, 0, 0, 255, 255, 0, 100, 255, 0, 0, 0, 255, 0, 0, 0, 255, 2, 0, 0, 0, 3, 0, 0, 0];

    let image: Image = Image::from_bytes(image_bincode).unwrap();

    assert_eq!(image.width, 2);
    assert_eq!(image.height, 3);
    assert_eq!(image.image, Vec::from([0, 0, 0, 255, 0, 0, 0, 255, 0, 0, 0, 255, 255, 0, 100, 255, 0, 0, 0, 255, 0, 0, 0, 255]))
}

#[test]
fn truncated_or_padded_raster_bytes_are_refused() {
    let bytes: Vec<u8> = vec![4, 0, 0, 0, 0, 0, 0, 0, 1, 2, 3, 4, 1, 0, 0, 0, 1, 0, 0, 0];
    let image = Image::from_bytes(&bytes).unwrap();
    assert_eq!((image.width, image.height), (1, 1));
    assert!(image.is_well_formed());
    assert!(Image::from_bytes(&bytes[..bytes.len() - 1]).is_none());
    let mut padded = bytes.clone();
    padded.push(0);
    assert!(Image::from_bytes(&padded).is_none());
    assert!(Image::from_bytes(&[]).is_none());
}
