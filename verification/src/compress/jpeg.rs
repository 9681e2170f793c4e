//! The JPEG encoder: alpha is discarded and the codec runs at the configured
//! quality. The `progressive` and `optimize_coding` options are declared
//! configuration knobs that this backend does not consume; they are inert.

use vstd::prelude::*;
use crate::config::JpegOptions;
use crate::error::{AppError, AppResult};
use crate::image_buf::{rgb_of, RgbaBuffer};

verus! {

/// What the JPEG codec produces for a `width x height` packed 8-bit RGB
/// buffer at a quality setting.
pub uninterp spec fn jpeg_of(width: u32, height: u32, rgb: Seq<u8>, quality: u8) -> Seq<u8>;

/// Relies on image's `JpegEncoder::new_with_quality` and `encode`: encodes a
/// `width x height` packed 8-bit RGB buffer at the given quality (clamped by
/// the codec to 1-100); the output is a function of these arguments alone.
/// The length precondition is the codec's own buffer check. The codec's only
/// failure is its dimension check (both sides must fit in 1..=65535); all
/// writes go into a fresh byte vector, which cannot fail.
#[verifier::external_body]
pub(crate) fn encode_jpeg_rgb(rgb: &Vec<u8>, width: u32, height: u32, quality: u8) -> (r: Result<
    Vec<u8>,
    String,
>)
    requires
        rgb@.len() == width as int * height as int * 3,
    ensures
        r matches Ok(v) ==> v@ == jpeg_of(width, height, rgb@, quality),
        1 <= width <= 65535 && 1 <= height <= 65535 ==> r is Ok,
{
    let mut out: Vec<u8> = Vec::new();
    let mut enc = image::codecs::jpeg::JpegEncoder::new_with_quality(&mut out, quality);
    enc.encode(rgb.as_slice(), width, height, image::ExtendedColorType::Rgb8)
        .map_err(|e| format!("JPEG encoding error: {}", e))?;
    Ok(out)
}

/// Encodes an image as JPEG at `options.quality`. The image is converted to
/// packed 8-bit RGB first: JPEG has no alpha channel, so alpha is discarded.
pub fn compress_jpeg(img: &RgbaBuffer, options: &JpegOptions) -> (r: AppResult<Vec<u8>>)
    requires
        img.wf(),
    ensures
        r matches Ok(v) ==> v@ == jpeg_of(
            img.width,
            img.height,
            rgb_of(img.data@),
            options.quality,
        ),
        1 <= img.width <= 65535 && 1 <= img.height <= 65535 ==> r is Ok,
        r is Err ==> r matches Err(AppError::Processing(_)),
{
    let rgb = img.to_rgb_bytes();
    match encode_jpeg_rgb(&rgb, img.width, img.height, options.quality) {
        Ok(v) => Ok(v),
        Err(m) => Err(AppError::Processing(m)),
    }
}

} // verus!
