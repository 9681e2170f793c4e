//! The resize engine: target-dimension computation for each resize mode, and
//! resampling through a trusted backend call.
//!
//! All dimension arithmetic is exact rational scaling truncated toward zero,
//! saturated at `u32::MAX` where a product leaves the 32-bit range.

use vstd::prelude::*;
use fast_image_resize::images::Image;
use fast_image_resize::{FilterType, PixelType, ResizeAlg, ResizeOptions, Resizer};
use crate::config::{ResizeAlgorithm, ResizeConfig, ResizeMode};
use crate::error::{AppError, AppResult};
use crate::image_buf::RgbaBuffer;

verus! {

/// Clamps a nonnegative scaling result into the `u32` range.
pub open spec fn sat_u32(x: int) -> int {
    if x > u32::MAX as int {
        u32::MAX as int
    } else {
        x
    }
}

/// The target width for source dimensions `w x h` under `mode`.
pub open spec fn target_width_spec(w: u32, h: u32, mode: ResizeMode) -> int
    recommends
        w > 0,
        h > 0,
{
    match mode {
        ResizeMode::FixedWidth { width } => width as int,
        ResizeMode::FixedHeight { height } => sat_u32((height * w) as int / h as int),
        ResizeMode::Exact { width, height } => width as int,
        ResizeMode::Percentage { scale } => sat_u32((w * scale) as int / 100),
        ResizeMode::FitBox { max_width, max_height } => if max_width * h <= max_height * w {
            max_width as int
        } else {
            sat_u32((w * max_height) as int / h as int)
        },
        ResizeMode::FillBox { width, height } => width as int,
    }
}

/// The target height for source dimensions `w x h` under `mode`.
pub open spec fn target_height_spec(w: u32, h: u32, mode: ResizeMode) -> int
    recommends
        w > 0,
        h > 0,
{
    match mode {
        ResizeMode::FixedWidth { width } => sat_u32((width * h) as int / w as int),
        ResizeMode::FixedHeight { height } => height as int,
        ResizeMode::Exact { width, height } => height as int,
        ResizeMode::Percentage { scale } => sat_u32((h * scale) as int / 100),
        ResizeMode::FitBox { max_width, max_height } => if max_width * h <= max_height * w {
            sat_u32((h * max_width) as int / w as int)
        } else {
            max_height as int
        },
        ResizeMode::FillBox { width, height } => height as int,
    }
}

/// Multiplies two 32-bit dimensions exactly in 64 bits.
fn mul32(a: u32, b: u32) -> (r: u64)
    ensures
        r == a as int * b as int,
{
    proof {
        assert(a as int * b as int <= u32::MAX as int * u32::MAX as int) by (nonlinear_arith)
            requires
                a <= u32::MAX,
                b <= u32::MAX,
        ;
    }
    (a as u64) * (b as u64)
}

/// Divides a 64-bit product by a positive divisor and saturates the quotient
/// into `u32`.
fn scale_div_sat(num: u64, den: u64) -> (r: u32)
    requires
        den > 0,
    ensures
        r as int == sat_u32(num as int / den as int),
{
    let q: u64 = num / den;
    if q > (u32::MAX as u64) {
        u32::MAX
    } else {
        q as u32
    }
}

/// Scales `a` by the ratio `b / d`, truncating, saturated into `u32`.
pub(crate) fn mul_div_u32(a: u32, b: u32, d: u32) -> (r: u32)
    requires
        d > 0,
    ensures
        r as int == sat_u32((a * b) as int / d as int),
{
    scale_div_sat(mul32(a, b), d as u64)
}

/// Computes the target dimensions for a `w x h` source under `mode`.
pub fn compute_target_dimensions(w: u32, h: u32, mode: &ResizeMode) -> (r: (u32, u32))
    requires
        w > 0,
        h > 0,
    ensures
        r.0 as int == target_width_spec(w, h, *mode),
        r.1 as int == target_height_spec(w, h, *mode),
{
    match mode {
        ResizeMode::FixedWidth { width } => {
            let th = scale_div_sat(mul32(*width, h), w as u64);
            (*width, th)
        },
        ResizeMode::FixedHeight { height } => {
            let tw = scale_div_sat(mul32(*height, w), h as u64);
            (tw, *height)
        },
        ResizeMode::Exact { width, height } => (*width, *height),
        ResizeMode::Percentage { scale } => {
            let tw = scale_div_sat(mul32(w, *scale), 100);
            let th = scale_div_sat(mul32(h, *scale), 100);
            (tw, th)
        },
        ResizeMode::FitBox { max_width, max_height } => {
            if mul32(*max_width, h) <= mul32(*max_height, w) {
                let th = scale_div_sat(mul32(h, *max_width), w as u64);
                (*max_width, th)
            } else {
                let tw = scale_div_sat(mul32(w, *max_height), h as u64);
                (tw, *max_height)
            }
        },
        ResizeMode::FillBox { width, height } => (*width, *height),
    }
}

/// The backend code for a resampling kernel.
pub open spec fn algorithm_code_spec(alg: ResizeAlgorithm) -> u8 {
    match alg {
        ResizeAlgorithm::Lanczos3 => 0,
        ResizeAlgorithm::CatmullRom => 1,
        ResizeAlgorithm::Nearest => 2,
        ResizeAlgorithm::Mitchell => 3,
    }
}

fn algorithm_code(alg: &ResizeAlgorithm) -> (r: u8)
    ensures
        r == algorithm_code_spec(*alg),
{
    match alg {
        ResizeAlgorithm::Lanczos3 => 0,
        ResizeAlgorithm::CatmullRom => 1,
        ResizeAlgorithm::Nearest => 2,
        ResizeAlgorithm::Mitchell => 3,
    }
}

/// Relies on fast_image_resize: `Resizer::resize` from an 8-bit RGBA source
/// image into a freshly allocated `tw x th` 8-bit RGBA destination image,
/// with the kernel selected by `alg_code`; the destination buffer holds
/// `tw * th * 4` bytes. Under these preconditions the call cannot fail: both
/// images carry the same pixel type, the source buffer length is exactly
/// what `Image::from_vec_u8` checks, and the default crop box (the whole
/// positive-sized source) passes every bounds check.
#[verifier::external_body]
pub(crate) fn resample_rgba(img: &RgbaBuffer, tw: u32, th: u32, alg_code: u8) -> (r: Result<RgbaBuffer, String>)
    requires
        img.wf(),
        img.width > 0,
        img.height > 0,
        tw > 0,
        th > 0,
    ensures
        r matches Ok(o) ==> o.width == tw && o.height == th && o.wf(),
        r is Ok,
{
    let alg = match alg_code {
        1 => ResizeAlg::Convolution(FilterType::CatmullRom),
        2 => ResizeAlg::Nearest,
        3 => ResizeAlg::Convolution(FilterType::Mitchell),
        _ => ResizeAlg::Convolution(FilterType::Lanczos3),
    };
    let src = Image::from_vec_u8(img.width, img.height, img.data.clone(), PixelType::U8x4)
        .map_err(|e| format!("failed to create source image: {:?}", e))?;
    let mut dst = Image::new(tw, th, PixelType::U8x4);
    let mut resizer = Resizer::new();
    resizer.resize(&src, &mut dst, &ResizeOptions::new().resize_alg(alg))
        .map_err(|e| format!("resize failed: {:?}", e))?;
    Ok(RgbaBuffer { width: tw, height: th, data: dst.into_vec() })
}

/// Resizes an image according to `config`.
///
/// With resizing disabled, or when the computed target equals the source
/// dimensions, the input passes through unchanged and resampling is skipped.
/// Success is owed in every other case but one computed target dimension of
/// zero, which is rejected; every failure is a `Processing` error.
pub fn resize_image(img: &RgbaBuffer, config: &ResizeConfig) -> (r: AppResult<RgbaBuffer>)
    requires
        img.wf(),
        img.width > 0,
        img.height > 0,
    ensures
        !config.enabled ==> (r matches Ok(o) && o.width == img.width && o.height == img.height
            && o.data@ == img.data@),
        config.enabled && target_width_spec(img.width, img.height, config.mode) == img.width
            && target_height_spec(img.width, img.height, config.mode) == img.height
            ==> (r matches Ok(o) && o.width == img.width && o.height == img.height
                && o.data@ == img.data@),
        config.enabled ==> (r matches Ok(o) ==>
            o.width as int == target_width_spec(img.width, img.height, config.mode)
            && o.height as int == target_height_spec(img.width, img.height, config.mode)),
        config.enabled && (target_width_spec(img.width, img.height, config.mode) == 0
            || target_height_spec(img.width, img.height, config.mode) == 0) ==> r is Err,
        config.enabled && target_width_spec(img.width, img.height, config.mode) >= 1
            && target_height_spec(img.width, img.height, config.mode) >= 1 ==> r is Ok,
        r matches Ok(o) ==> o.wf(),
        r is Err ==> r matches Err(AppError::Processing(_)),
{
    if !config.enabled {
        return Ok(img.duplicate());
    }
    let (tw, th) = compute_target_dimensions(img.width, img.height, &config.mode);
    if tw == img.width && th == img.height {
        return Ok(img.duplicate());
    }
    if tw == 0 || th == 0 {
        return Err(AppError::Processing(String::from_str("target dimensions are zero")));
    }
    match resample_rgba(img, tw, th, algorithm_code(&config.algorithm)) {
        Ok(out) => Ok(out),
        Err(msg) => Err(AppError::Processing(msg)),
    }
}

/// A percentage scale of 100 computes exactly the original dimensions, so the
/// resample step is skipped and the image passes through unchanged.
pub proof fn lemma_percentage_identity(w: u32, h: u32)
    requires
        w > 0,
        h > 0,
    ensures
        target_width_spec(w, h, ResizeMode::Percentage { scale: 100u32 }) == w,
        target_height_spec(w, h, ResizeMode::Percentage { scale: 100u32 }) == h,
{
    vstd::arithmetic::div_mod::lemma_div_multiples_vanish(w as int, 100);
    vstd::arithmetic::div_mod::lemma_div_multiples_vanish(h as int, 100);
    assert((w * 100) as int == 100 * (w as int));
    assert((h * 100) as int == 100 * (h as int));
}

/// FitBox keeps the target inside the box on both axes, and its target
/// aspect ratio equals the source ratio up to the truncation of one division:
/// the scaled-down axis `t` of a `w x h` source satisfies
/// `t * w <= tw * h < (t + 1) * w` (or symmetrically with the roles swapped).
pub proof fn lemma_fitbox_within_box(w: u32, h: u32, mw: u32, mh: u32)
    requires
        w > 0,
        h > 0,
    ensures
        target_width_spec(w, h, ResizeMode::FitBox { max_width: mw, max_height: mh }) <= mw,
        target_height_spec(w, h, ResizeMode::FitBox { max_width: mw, max_height: mh }) <= mh,
        ({
            let tw = target_width_spec(w, h, ResizeMode::FitBox { max_width: mw, max_height: mh });
            let th = target_height_spec(w, h, ResizeMode::FitBox { max_width: mw, max_height: mh });
            (th * w <= tw * h && tw * h < (th + 1) * w) || (tw * h <= th * w && th * w < (tw + 1) * h)
        }),
{
    let mode = ResizeMode::FitBox { max_width: mw, max_height: mh };
    if mw * h <= mh * w {
        let x = h as int * mw as int;
        let q = x / (w as int);
        let rem = x % (w as int);
        vstd::arithmetic::div_mod::lemma_fundamental_div_mod(x, w as int);
        vstd::arithmetic::div_mod::lemma_mod_bound(x, w as int);
        assert(0 <= q && q <= mh && q * w <= x && x < (q + 1) * w) by (nonlinear_arith)
            requires
                w > 0,
                h > 0,
                x == (w as int) * q + rem,
                0 <= rem < w as int,
                (mw * h) as int <= (mh * w) as int,
                x == h as int * mw as int,
        ;
        assert(target_width_spec(w, h, mode) == mw);
        assert(target_height_spec(w, h, mode) == q);
    } else {
        let x = w as int * mh as int;
        let q = x / (h as int);
        let rem = x % (h as int);
        vstd::arithmetic::div_mod::lemma_fundamental_div_mod(x, h as int);
        vstd::arithmetic::div_mod::lemma_mod_bound(x, h as int);
        assert(0 <= q && q <= mw && q * h <= x && x < (q + 1) * h) by (nonlinear_arith)
            requires
                w > 0,
                h > 0,
                x == (h as int) * q + rem,
                0 <= rem < h as int,
                ((mh * w) as int) < ((mw * h) as int),
                x == w as int * mh as int,
        ;
        assert(target_width_spec(w, h, mode) == q);
        assert(target_height_spec(w, h, mode) == mh);
    }
}

} // verus!
