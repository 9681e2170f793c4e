//! The pipeline for one image: decode, resize, encode, and the result
//! record. The caller reads the input bytes and writes the output bytes; the
//! transformation between them lives here.

use vstd::prelude::*;
use crate::compress::jpeg::{compress_jpeg, jpeg_of};
use crate::compress::png::{compress_png, png_lossless_of};
use crate::compress::webp::{compress_webp, webp_of};
use crate::config::{OutputFormat, ProcessConfig, ProcessResult};
use crate::error::{AppError, AppResult};
use crate::image_buf::{rgb_of, RgbaBuffer};
use crate::resize::{resample_rgba, resize_image, target_height_spec, target_width_spec};
use crate::stats::{compression_ratio, ratio_spec};

verus! {

/// What decoding a byte string yields: the dimensions and packed 8-bit RGBA
/// pixels of the image the bytes hold, or nothing when they hold no
/// decodable image.
pub uninterp spec fn decode_rgba(bytes: Seq<u8>) -> Option<(u32, u32, Seq<u8>)>;

/// Relies on image's `load_from_memory` (format inferred from content) and
/// `DynamicImage::to_rgba8`: decodes image bytes into an 8-bit RGBA buffer
/// holding four bytes per pixel; success and result are a function of the
/// bytes alone.
#[verifier::external_body]
fn decode_image(bytes: &Vec<u8>) -> (r: Result<RgbaBuffer, String>)
    ensures
        r matches Ok(img) ==> (decode_rgba(bytes@) matches Some(d) && d.0 == img.width && d.1
            == img.height && d.2 == img.data@ && img.wf()),
        r is Err ==> decode_rgba(bytes@) is None,
{
    let img = image::load_from_memory(bytes.as_slice()).map_err(|e| format!("{}", e))?;
    let rgba = img.to_rgba8();
    let width = rgba.width();
    let height = rgba.height();
    Ok(RgbaBuffer { width, height, data: rgba.into_raw() })
}

/// The quality fields a configuration must keep on their 0-100 scale.
pub open spec fn config_wf(c: ProcessConfig) -> bool {
    c.png_options.quality <= 100 && c.jpeg_options.quality <= 100 && c.webp_options.quality <= 100
}

/// `out` is exactly the configured encoding of the image the input bytes
/// decode to, with no resampling in between. (For lossy PNG the quantizer
/// intervenes, so no exact claim is made there.)
pub open spec fn encodes_decoded_input(input: Seq<u8>, config: ProcessConfig, out: Seq<u8>) -> bool {
    match decode_rgba(input) {
        Some(d) => match config.output_format {
            OutputFormat::Png => config.png_options.lossy || out == png_lossless_of(d.0, d.1, d.2),
            OutputFormat::Jpeg => out == jpeg_of(d.0, d.1, rgb_of(d.2), config.jpeg_options.quality),
            OutputFormat::WebP => out == webp_of(d.0, d.1, d.2),
        },
        None => false,
    }
}

/// The width the pipeline encodes at: the resize target of the decoded
/// dimensions when resizing is on, the decoded width itself otherwise.
pub open spec fn pipeline_width(d: (u32, u32, Seq<u8>), config: ProcessConfig) -> int {
    if config.resize.enabled {
        target_width_spec(d.0, d.1, config.resize.mode)
    } else {
        d.0 as int
    }
}

/// The height the pipeline encodes at, like `pipeline_width`.
pub open spec fn pipeline_height(d: (u32, u32, Seq<u8>), config: ProcessConfig) -> int {
    if config.resize.enabled {
        target_height_spec(d.0, d.1, config.resize.mode)
    } else {
        d.1 as int
    }
}

/// The inputs on which the pipeline owes success: the bytes decode, the
/// decoded and target dimensions are positive, and the target fits the
/// configured codec's dimension range (65535 a side for JPEG, 16384 for
/// WebP, unbounded for lossless PNG). Lossy PNG is exempt: there the
/// quantizer decides, and no contract promises its success.
pub open spec fn pipeline_supported(input: Seq<u8>, config: ProcessConfig) -> bool {
    match decode_rgba(input) {
        Some(d) => {
            let tw = pipeline_width(d, config);
            let th = pipeline_height(d, config);
            d.0 >= 1 && d.1 >= 1 && tw >= 1 && th >= 1 && match config.output_format {
                OutputFormat::Png => !config.png_options.lossy,
                OutputFormat::Jpeg => tw <= 65535 && th <= 65535,
                OutputFormat::WebP => tw <= 16384 && th <= 16384,
            }
        },
        None => false,
    }
}

/// `out` is an encoding, in the configured format, of some image whose
/// dimensions are exactly the pipeline's target for the decoded input.
pub open spec fn encodes_at_target_dims(input: Seq<u8>, config: ProcessConfig, out: Seq<u8>) -> bool {
    match decode_rgba(input) {
        Some(d) => {
            let tw = pipeline_width(d, config);
            let th = pipeline_height(d, config);
            match config.output_format {
                OutputFormat::Png => config.png_options.lossy || (exists|pix: Seq<u8>|
                    out == #[trigger] png_lossless_of(tw as u32, th as u32, pix)),
                OutputFormat::Jpeg => exists|pix: Seq<u8>|
                    out == #[trigger] jpeg_of(tw as u32, th as u32, pix, config.jpeg_options.quality),
                OutputFormat::WebP => exists|pix: Seq<u8>|
                    out == #[trigger] webp_of(tw as u32, th as u32, pix),
            }
        },
        None => false,
    }
}

/// Runs the in-memory pipeline for one image: decode the input bytes, resize
/// per the configuration, encode into the configured output format, and
/// report sizes and the signed compression ratio against `original_size`.
///
/// Undecodable input yields an `Image` error; a decoded image with a zero
/// dimension is rejected the same way; every other failure is a resize or
/// encode backend failure and surfaces as a `Processing` error. Success is
/// owed on every supported input (`pipeline_supported`). On success the
/// encoded bytes are returned beside a result record that carries
/// `original_size`, the encoded length, the exact compression ratio, and the
/// configured output path.
pub fn process_image(input: &Vec<u8>, original_size: u64, config: &ProcessConfig) -> (r:
    AppResult<(Vec<u8>, ProcessResult)>)
    requires
        config_wf(*config),
    ensures
        decode_rgba(input@) is None ==> (r matches Err(e) && e matches AppError::Image(_)),
        r matches Ok(p) ==> decode_rgba(input@) is Some,
        r matches Ok(p) ==> ({
            let res = p.1;
            res.success && res.original_size == original_size && res.new_size == p.0@.len()
                && res.compression_ratio == ratio_spec(original_size, p.0@.len() as u64)
                && res.output_path@ == config.output_path@ && res.error is None
        }),
        !config.resize.enabled ==> (r matches Ok(p) ==> encodes_decoded_input(
            input@,
            *config,
            p.0@,
        )),
        r matches Ok(p) ==> encodes_at_target_dims(input@, *config, p.0@),
        pipeline_supported(input@, *config) ==> r is Ok,
        decode_rgba(input@) matches Some(d) && (d.0 == 0 || d.1 == 0) ==> (r matches Err(e)
            && e matches AppError::Image(_)),
        decode_rgba(input@) matches Some(d) && d.0 >= 1 && d.1 >= 1 ==> (r matches Err(e)
            ==> e matches AppError::Processing(_)),
{
    let img = match decode_image(input) {
        Ok(i) => i,
        Err(m) => {
            return Err(AppError::Image(m));
        },
    };
    if img.width == 0 || img.height == 0 {
        return Err(AppError::Image(String::from_str("image has zero dimensions")));
    }
    let resized = match resize_image(&img, &config.resize) {
        Ok(i) => i,
        Err(e) => {
            return Err(e);
        },
    };
    let encoded = match config.output_format {
        OutputFormat::Png => compress_png(&resized, &config.png_options),
        OutputFormat::Jpeg => compress_jpeg(&resized, &config.jpeg_options),
        OutputFormat::WebP => compress_webp(&resized, &config.webp_options),
    };
    let out = match encoded {
        Ok(d) => d,
        Err(e) => {
            return Err(e);
        },
    };
    proof {
        let d = decode_rgba(input@).unwrap();
        assert(resized.width as int == pipeline_width(d, *config));
        assert(resized.height as int == pipeline_height(d, *config));
        match config.output_format {
            OutputFormat::Png => {
                if !config.png_options.lossy {
                    assert(out@ == png_lossless_of(
                        pipeline_width(d, *config) as u32,
                        pipeline_height(d, *config) as u32,
                        resized.data@,
                    ));
                }
            },
            OutputFormat::Jpeg => {
                assert(out@ == jpeg_of(
                    pipeline_width(d, *config) as u32,
                    pipeline_height(d, *config) as u32,
                    rgb_of(resized.data@),
                    config.jpeg_options.quality,
                ));
            },
            OutputFormat::WebP => {
                assert(out@ == webp_of(
                    pipeline_width(d, *config) as u32,
                    pipeline_height(d, *config) as u32,
                    resized.data@,
                ));
            },
        }
        assert(encodes_at_target_dims(input@, *config, out@));
    }
    let new_size: u64 = out.len() as u64;
    let ratio = compression_ratio(original_size, new_size);
    let result = ProcessResult {
        success: true,
        original_size,
        new_size,
        compression_ratio: ratio,
        output_path: config.output_path.clone(),
        error: None,
    };
    Ok((out, result))
}

/// What the base64 standard-alphabet encoding of a byte string is.
pub uninterp spec fn base64_of(bytes: Seq<u8>) -> Seq<char>;

/// Relies on base64's `STANDARD` engine `encode`: the padded standard
/// alphabet, a function of the bytes alone.
#[verifier::external_body]
fn base64_encode(bytes: &Vec<u8>) -> (r: String)
    ensures
        r@ == base64_of(bytes@),
{
    base64::Engine::encode(&base64::engine::general_purpose::STANDARD, bytes.as_slice())
}

/// The longer edge of a `w x h` image.
pub open spec fn longer_edge(w: u32, h: u32) -> int {
    if w >= h {
        w as int
    } else {
        h as int
    }
}

/// The preview width: the image is scaled so its longer edge fits
/// `max_size`, and never scaled up.
pub open spec fn preview_width_spec(w: u32, h: u32, max_size: u32) -> int {
    if longer_edge(w, h) <= max_size {
        w as int
    } else {
        (w * max_size) as int / longer_edge(w, h)
    }
}

/// The preview height, scaled like the width.
pub open spec fn preview_height_spec(w: u32, h: u32, max_size: u32) -> int {
    if longer_edge(w, h) <= max_size {
        h as int
    } else {
        (h * max_size) as int / longer_edge(w, h)
    }
}

/// A preview never upscales: its dimensions never exceed the source's.
pub proof fn lemma_preview_never_upscales(w: u32, h: u32, max_size: u32)
    requires
        w > 0,
        h > 0,
    ensures
        preview_width_spec(w, h, max_size) <= w,
        preview_height_spec(w, h, max_size) <= h,
{
    let le = longer_edge(w, h);
    if le > max_size {
        assert((w * max_size) as int / le <= w && (h * max_size) as int / le <= h)
            by (nonlinear_arith)
            requires
                w > 0,
                h > 0,
                le == longer_edge(w, h),
                le > max_size,
                w <= le,
                h <= le,
        ;
    }
}

/// Produces a display preview of an image: scaled to fit `max_size` on the
/// longer edge (never upscaled), encoded as JPEG at quality 85, and returned
/// as base64 text.
///
/// When no downscale is needed the result is exactly the base64 text of the
/// source's JPEG encoding. Success is owed whenever the computed preview
/// dimensions are positive and within the JPEG codec's 65535-a-side range;
/// a zero computed dimension (a `max_size` of zero, or an extreme aspect
/// ratio) is rejected; every failure is a `Processing` error.
pub fn generate_preview(img: &RgbaBuffer, max_size: u32) -> (r: AppResult<String>)
    requires
        img.wf(),
        img.width > 0,
        img.height > 0,
    ensures
        longer_edge(img.width, img.height) <= max_size ==> (r matches Ok(s) ==> s@ == base64_of(
            jpeg_of(img.width, img.height, rgb_of(img.data@), 85),
        )),
        r matches Ok(s) ==> exists|pix: Seq<u8>|
            s@ == base64_of(
                #[trigger] jpeg_of(
                    preview_width_spec(img.width, img.height, max_size) as u32,
                    preview_height_spec(img.width, img.height, max_size) as u32,
                    pix,
                    85,
                ),
            ),
        1 <= preview_width_spec(img.width, img.height, max_size) <= 65535 && 1
            <= preview_height_spec(img.width, img.height, max_size) <= 65535 ==> r is Ok,
        r is Err ==> r matches Err(AppError::Processing(_)),
{
    let longer: u32 = if img.width >= img.height {
        img.width
    } else {
        img.height
    };
    if longer <= max_size {
        let rgb = img.to_rgb_bytes();
        let jpeg = match crate::compress::jpeg::encode_jpeg_rgb(&rgb, img.width, img.height, 85) {
            Ok(v) => v,
            Err(m) => {
                return Err(AppError::Processing(m));
            },
        };
        let text = base64_encode(&jpeg);
        proof {
            assert(text@ == base64_of(
                jpeg_of(
                    preview_width_spec(img.width, img.height, max_size) as u32,
                    preview_height_spec(img.width, img.height, max_size) as u32,
                    rgb_of(img.data@),
                    85,
                ),
            ));
        }
        Ok(text)
    } else {
        let pw = crate::resize::mul_div_u32(img.width, max_size, longer);
        let ph = crate::resize::mul_div_u32(img.height, max_size, longer);
        proof {
            lemma_preview_never_upscales(img.width, img.height, max_size);
            assert(pw == preview_width_spec(img.width, img.height, max_size) as u32);
            assert(ph == preview_height_spec(img.width, img.height, max_size) as u32);
        }
        if pw == 0 || ph == 0 {
            return Err(AppError::Processing(String::from_str("preview dimensions are zero")));
        }
        let preview = match resample_rgba(img, pw, ph, 0) {
            Ok(p) => p,
            Err(m) => {
                return Err(AppError::Processing(m));
            },
        };
        let rgb = preview.to_rgb_bytes();
        let jpeg = match crate::compress::jpeg::encode_jpeg_rgb(&rgb, preview.width, preview.height, 85) {
            Ok(v) => v,
            Err(m) => {
                return Err(AppError::Processing(m));
            },
        };
        let text = base64_encode(&jpeg);
        proof {
            assert(text@ == base64_of(
                jpeg_of(
                    preview_width_spec(img.width, img.height, max_size) as u32,
                    preview_height_spec(img.width, img.height, max_size) as u32,
                    rgb_of(preview.data@),
                    85,
                ),
            ));
        }
        Ok(text)
    }
}

} // verus!
