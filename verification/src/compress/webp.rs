//! The WebP encoder. The configured quality and method knobs are declared
//! but the backend applies its own defaults; they are currently inert.

use vstd::prelude::*;
use crate::config::WebPOptions;
use crate::error::{AppError, AppResult};
use crate::image_buf::RgbaBuffer;

verus! {

/// What the WebP encoding path produces for a `width x height` 8-bit RGBA
/// buffer.
pub uninterp spec fn webp_of(width: u32, height: u32, rgba: Seq<u8>) -> Seq<u8>;

/// Relies on image's `DynamicImage::write_to` with the WebP format: encodes
/// an 8-bit RGBA image; the output is a function of the pixels alone. The
/// length precondition is what `RgbaImage::from_raw` checks. The encoder's
/// only failure is its dimension check (both sides must fit in 1..=16384);
/// everything is written into a fresh byte vector, which cannot fail.
#[verifier::external_body]
fn encode_webp_rgba(data: &Vec<u8>, width: u32, height: u32) -> (r: Result<Vec<u8>, String>)
    requires
        data@.len() == width as int * height as int * 4,
    ensures
        r matches Ok(v) ==> v@ == webp_of(width, height, data@),
        1 <= width <= 16384 && 1 <= height <= 16384 ==> r is Ok,
{
    let rgba = image::RgbaImage::from_raw(width, height, data.clone())
        .ok_or_else(|| "failed to create image from buffer".to_string())?;
    let img = image::DynamicImage::ImageRgba8(rgba);
    let mut out: Vec<u8> = Vec::new();
    let cursor = std::io::Cursor::new(&mut out);
    img.write_to(&mut std::io::BufWriter::new(cursor), image::ImageFormat::WebP)
        .map_err(|e| format!("WebP encoding error: {}", e))?;
    Ok(out)
}

/// Encodes an image as WebP through the generic encoding path.
pub fn compress_webp(img: &RgbaBuffer, _options: &WebPOptions) -> (r: AppResult<Vec<u8>>)
    requires
        img.wf(),
    ensures
        r matches Ok(v) ==> v@ == webp_of(img.width, img.height, img.data@),
        1 <= img.width <= 16384 && 1 <= img.height <= 16384 ==> r is Ok,
        r is Err ==> r matches Err(AppError::Processing(_)),
{
    match encode_webp_rgba(&img.data, img.width, img.height) {
        Ok(v) => Ok(v),
        Err(m) => Err(AppError::Processing(m)),
    }
}

} // verus!
