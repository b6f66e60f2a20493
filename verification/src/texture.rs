use vstd::prelude::*;
use image::png::PngDecoder;
use image::{ColorType, ImageDecoder};

verus! {

/// The pixel layout of a decoded image, one variant per color type of the
/// image crate (`Unknown` for any it may add).
#[derive(Clone, Copy, Debug, PartialEq, Eq, Structural)]
pub enum PixelFormat {
    L8,
    La8,
    Rgb8,
    Rgba8,
    L16,
    La16,
    Rgb16,
    Rgba16,
    Bgr8,
    Bgra8,
    Unknown,
}

/// What the image crate's PNG decoder makes of the bytes `data`: `None`
/// when it refuses the header, else the pixel format, the width and the
/// height, and the pixels (`None` when reading the image data fails).
pub uninterp spec fn png_decoding(data: Seq<u8>) -> Option<(PixelFormat, u32, u32, Option<Seq<u8>>)>;

/// Decodes `data` with `image::png::PngDecoder`: `PngDecoder::new` reads
/// the header, `color_type` and `dimensions` describe the image, and
/// `read_image` fills a buffer of `total_bytes` bytes. The contract claims
/// only that the result is `png_decoding` of the bytes, since decoding
/// depends on them alone. An image too large for memory makes the buffer's
/// allocation fail; this is left unsaid.
#[verifier::external_body]
fn decode_png(data: &[u8]) -> (r: Option<(PixelFormat, u32, u32, Option<Vec<u8>>)>)
    ensures
        png_decoding(data@) == decoding_view(r),
{
    let decoder = match PngDecoder::new(data) { Ok(d) => d, Err(_) => return None };
    let format = match decoder.color_type() {
        ColorType::L8 => PixelFormat::L8, ColorType::La8 => PixelFormat::La8,
        ColorType::Rgb8 => PixelFormat::Rgb8, ColorType::Rgba8 => PixelFormat::Rgba8,
        ColorType::L16 => PixelFormat::L16, ColorType::La16 => PixelFormat::La16,
        ColorType::Rgb16 => PixelFormat::Rgb16, ColorType::Rgba16 => PixelFormat::Rgba16,
        ColorType::Bgr8 => PixelFormat::Bgr8, ColorType::Bgra8 => PixelFormat::Bgra8,
        _ => PixelFormat::Unknown,
    };
    let (width, height) = decoder.dimensions();
    let mut buf = vec![0u8; decoder.total_bytes() as usize];
    let pixels = match decoder.read_image(&mut buf) { Ok(()) => Some(buf), Err(_) => None };
    Some((format, width, height, pixels))
}

/// Why PNG bytes give no texture.
#[derive(Clone, Copy, Debug, PartialEq, Eq, Structural)]
pub enum TextureError {
    /// The decoder refused the header or the image data.
    Decode,
    /// The image is not 8-bit RGBA, the only layout textures are made from.
    NotRgba8,
}

/// The width, height and pixels of the RGBA8 image that `decoding`
/// describes: a decoding that failed before or after the header is
/// `Decode`; an image of another pixel format is `NotRgba8`, whether or not
/// its pixels could be read.
pub open spec fn rgba8_image(decoding: Option<(PixelFormat, u32, u32, Option<Seq<u8>>)>) -> Result<(u32, u32, Seq<u8>), TextureError> {
    match decoding {
        None => Err(TextureError::Decode),
        Some((format, width, height, pixels)) => if format != PixelFormat::Rgba8 {
            Err(TextureError::NotRgba8)
        } else {
            match pixels {
                None => Err(TextureError::Decode),
                Some(p) => Ok((width, height, p)),
            }
        },
    }
}

/// Only the 8-bit RGBA format makes a texture: every other pixel format is
/// refused as `NotRgba8`, and an RGBA8 image is handed out with its own
/// width, height and pixels unless they could not be read.
pub proof fn law_only_rgba8_makes_textures(decoding: Option<(PixelFormat, u32, u32, Option<Seq<u8>>)>)
    ensures
        rgba8_image(decoding) is Ok ==> (decoding is Some && decoding.unwrap().0 == PixelFormat::Rgba8),
        (decoding is Some && decoding.unwrap().0 != PixelFormat::Rgba8) ==> rgba8_image(decoding)
            == Err::<(u32, u32, Seq<u8>), TextureError>(TextureError::NotRgba8),
        (decoding is Some && decoding.unwrap().0 == PixelFormat::Rgba8 && decoding.unwrap().3 is Some)
            ==> rgba8_image(decoding) == Ok::<(u32, u32, Seq<u8>), TextureError>(
            (decoding.unwrap().1, decoding.unwrap().2, (decoding.unwrap().3).unwrap()),
        ),
        rgba8_image(decoding) == Err::<(u32, u32, Seq<u8>), TextureError>(TextureError::Decode)
            ==> (decoding is None || (decoding.unwrap().3 is None)),
{
}

/// The view of what `decode_png` hands out.
pub open spec fn decoding_view(decoded: Option<(PixelFormat, u32, u32, Option<Vec<u8>>)>) -> Option<(PixelFormat, u32, u32, Option<Seq<u8>>)> {
    match decoded {
        None => None,
        Some((format, width, height, pixels)) => Some((format, width, height, match pixels {
            Some(p) => Some(p@),
            None => None,
        })),
    }
}

/// The texture that a decoded PNG gives, as `rgba8_image` says: only an
/// RGBA8 image whose pixels were read gives one.
pub fn rgba8_from_decoding(decoded: Option<(PixelFormat, u32, u32, Option<Vec<u8>>)>) -> (r: Result<(u32, u32, Vec<u8>), TextureError>)
    ensures
        r matches Ok(t) ==> rgba8_image(decoding_view(decoded)) == Ok::<(u32, u32, Seq<u8>), TextureError>((t.0, t.1, t.2@)),
        r matches Err(e) ==> rgba8_image(decoding_view(decoded)) == Err::<(u32, u32, Seq<u8>), TextureError>(e),
        r is Ok ==> (decoded is Some && decoded.unwrap().0 == PixelFormat::Rgba8),
        decoded is None ==> r == Err::<(u32, u32, Vec<u8>), TextureError>(TextureError::Decode),
        (decoded is Some && decoded.unwrap().0 != PixelFormat::Rgba8)
            ==> r == Err::<(u32, u32, Vec<u8>), TextureError>(TextureError::NotRgba8),
        (decoded is Some && decoded.unwrap().0 == PixelFormat::Rgba8 && decoded.unwrap().3 is None)
            ==> r == Err::<(u32, u32, Vec<u8>), TextureError>(TextureError::Decode),
        (decoded is Some && decoded.unwrap().0 == PixelFormat::Rgba8 && decoded.unwrap().3 is Some)
            ==> (r is Ok && r.unwrap().0 == decoded.unwrap().1 && r.unwrap().1 == decoded.unwrap().2),
        (decoded is Some && decoded.unwrap().0 == PixelFormat::Rgba8 && decoded.unwrap().3 is Some)
            ==> r.unwrap().2@ == (decoded.unwrap().3).unwrap()@,
{
    match decoded {
        None => Err(TextureError::Decode),
        Some((format, width, height, pixels)) => {
            if format != PixelFormat::Rgba8 {
                Err(TextureError::NotRgba8)
            } else {
                match pixels {
                    None => Err(TextureError::Decode),
                    Some(p) => Ok((width, height, p)),
                }
            }
        },
    }
}

/// Decodes PNG bytes into the width, height and RGBA8 pixels of a texture;
/// only an RGBA8 image gives one.
pub fn rgba8_texture(data: &[u8]) -> (r: Result<(u32, u32, Vec<u8>), TextureError>)
    ensures
        r matches Ok(t) ==> rgba8_image(png_decoding(data@)) == Ok::<(u32, u32, Seq<u8>), TextureError>((t.0, t.1, t.2@)),
        r matches Err(e) ==> rgba8_image(png_decoding(data@)) == Err::<(u32, u32, Seq<u8>), TextureError>(e),
        r is Ok ==> (png_decoding(data@) is Some && png_decoding(data@).unwrap().0 == PixelFormat::Rgba8),
        (png_decoding(data@) is Some && png_decoding(data@).unwrap().0 != PixelFormat::Rgba8)
            ==> r == Err::<(u32, u32, Vec<u8>), TextureError>(TextureError::NotRgba8),
        png_decoding(data@) is None ==> r == Err::<(u32, u32, Vec<u8>), TextureError>(TextureError::Decode),
{
    let decoded = decode_png(data);
    rgba8_from_decoding(decoded)
}

} // verus!
