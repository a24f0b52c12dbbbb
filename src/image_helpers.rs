//! PNG encoding of raw pixel buffers.

use crate::graphics::RenderError;
use vstd::prelude::*;

verus! {

/// PNG encoding of an RGB8 buffer by the image crate; `None` when it fails.
pub uninterp spec fn png_of_rgb(width: u32, height: u32, data: Seq<u8>) -> Option<Seq<u8>>;

/// PNG encoding of an RGBA8 buffer by the image crate; `None` when it fails.
pub uninterp spec fn png_of_rgba(width: u32, height: u32, data: Seq<u8>) -> Option<Seq<u8>>;

/// Encode an RGB8 buffer as a PNG file.
///
/// Relies on image's `ImageBuffer::<Rgb<u8>, _>::from_raw` and `write_to`
/// with `ImageFormat::Png`: the PNG file of the buffer, or an error when the
/// buffer is too short for the dimensions or encoding fails.
#[verifier::external_body]
pub fn rgb_to_png(width: u32, height: u32, data: &[u8]) -> (r: Result<Vec<u8>, RenderError>)
    ensures
        match r {
            Ok(v) => png_of_rgb(width, height, data@) == Some(v@),
            Err(e) => png_of_rgb(width, height, data@) is None && e == RenderError::EncodingFailed,
        },
{
    let img = image::ImageBuffer::<image::Rgb<u8>, &[u8]>::from_raw(width, height, data)
        .ok_or(RenderError::EncodingFailed)?;
    let mut png: Vec<u8> = Vec::new();
    img.write_to(&mut std::io::Cursor::new(&mut png), image::ImageFormat::Png)
        .map_err(|_| RenderError::EncodingFailed)?;
    Ok(png)
}

/// Encode an RGBA8 buffer as a PNG file, alpha kept.
///
/// Relies on image's `ImageBuffer::<Rgba<u8>, _>::from_raw` and `write_to`
/// with `ImageFormat::Png`: the PNG file of the buffer, or an error when the
/// buffer is too short for the dimensions or encoding fails.
#[verifier::external_body]
pub fn rgba_to_png(width: u32, height: u32, data: &[u8]) -> (r: Result<Vec<u8>, RenderError>)
    ensures
        match r {
            Ok(v) => png_of_rgba(width, height, data@) == Some(v@),
            Err(e) => png_of_rgba(width, height, data@) is None && e == RenderError::EncodingFailed,
        },
{
    let img = image::ImageBuffer::<image::Rgba<u8>, &[u8]>::from_raw(width, height, data)
        .ok_or(RenderError::EncodingFailed)?;
    let mut png: Vec<u8> = Vec::new();
    img.write_to(&mut std::io::Cursor::new(&mut png), image::ImageFormat::Png)
        .map_err(|_| RenderError::EncodingFailed)?;
    Ok(png)
}

} // verus!
