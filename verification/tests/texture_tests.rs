use game_core::texture::{rgba8_from_decoding, rgba8_texture, PixelFormat, TextureError};
use image::png::PngEncoder;
use image::ColorType;

fn png_bytes(pixels: &[u8], width: u32, height: u32, color: ColorType) -> Vec<u8> {
    let mut out = Vec::new();
    PngEncoder::new(&mut out).encode(pixels, width, height, color).unwrap();
    out
}

#[test]
fn rgba8_png_gives_its_pixels() {
    let pixels = vec![255u8, 0, 0, 255, 0, 255, 0, 128, 0, 0, 255, 0, 1, 2, 3, 4, 9, 8, 7, 6, 10, 20, 30, 40];
    let data = png_bytes(&pixels, 3, 2, ColorType::Rgba8);
    assert_eq!(rgba8_texture(&data), Ok((3, 2, pixels)));
}

#[test]
fn other_pixel_formats_are_refused() {
    let rgb = png_bytes(&[1u8, 2, 3, 4, 5, 6], 2, 1, ColorType::Rgb8);
    assert_eq!(rgba8_texture(&rgb), Err(TextureError::NotRgba8));
    let gray = png_bytes(&[7u8], 1, 1, ColorType::L8);
    assert_eq!(rgba8_texture(&gray), Err(TextureError::NotRgba8));
}

#[test]
fn broken_png_data_is_a_decode_error() {
    assert_eq!(rgba8_texture(b"not a png"), Err(TextureError::Decode));
    assert_eq!(rgba8_texture(&[]), Err(TextureError::Decode));
    let data = png_bytes(&[5u8; 64], 4, 4, ColorType::Rgba8);
    let header_only = &data[..33];
    assert_eq!(rgba8_texture(header_only), Err(TextureError::Decode));
}

#[test]
fn decoded_images_become_textures() {
    assert_eq!(rgba8_from_decoding(None), Err(TextureError::Decode));
    assert_eq!(rgba8_from_decoding(Some((PixelFormat::Rgba8, 1, 1, None))), Err(TextureError::Decode));
    assert_eq!(rgba8_from_decoding(Some((PixelFormat::Rgb8, 1, 1, None))), Err(TextureError::NotRgba8));
    assert_eq!(rgba8_from_decoding(Some((PixelFormat::Bgra8, 1, 1, Some(vec![1, 2, 3, 4])))), Err(TextureError::NotRgba8));
    assert_eq!(
        rgba8_from_decoding(Some((PixelFormat::Rgba8, 1, 1, Some(vec![1, 2, 3, 4])))),
        Ok((1, 1, vec![1, 2, 3, 4]))
    );
}
