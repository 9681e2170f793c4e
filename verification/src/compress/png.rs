//! The PNG encoder: a lossless RGBA mode, and a lossy mode that quantizes
//! the image to a bounded palette and writes an indexed-color PNG.

use vstd::prelude::*;
use crate::config::PngOptions;
use crate::error::{AppError, AppResult};
use crate::image_buf::RgbaBuffer;

verus! {

/// What the PNG codec produces for a `width x height` 8-bit RGBA buffer in
/// lossless mode (color type RGBA, bit depth 8, best compression).
pub uninterp spec fn png_lossless_of(width: u32, height: u32, rgba: Seq<u8>) -> Seq<u8>;

/// What the PNG codec produces for a `width x height` indexed-color image
/// with the given RGB palette, optional per-entry alpha table, and one
/// palette index per pixel.
pub uninterp spec fn png_indexed_of(
    width: u32,
    height: u32,
    palette_rgb: Seq<u8>,
    trns: Option<Seq<u8>>,
    pixels: Seq<u8>,
) -> Seq<u8>;

/// The RGBA quadruples of a packed RGBA byte sequence.
pub open spec fn quads_of(data: Seq<u8>) -> Seq<(u8, u8, u8, u8)> {
    Seq::new(
        data.len() / 4,
        |i: int| (data[4 * i], data[4 * i + 1], data[4 * i + 2], data[4 * i + 3]),
    )
}

/// The flattened RGB bytes of a palette: three bytes per entry, alpha
/// dropped.
pub open spec fn palette_rgb_of(pal: Seq<(u8, u8, u8, u8)>) -> Seq<u8> {
    Seq::new(
        pal.len() * 3,
        |i: int| if i % 3 == 0 {
            pal[i / 3].0
        } else if i % 3 == 1 {
            pal[i / 3].1
        } else {
            pal[i / 3].2
        },
    )
}

/// The alpha byte of each palette entry, in order.
pub open spec fn palette_alpha_of(pal: Seq<(u8, u8, u8, u8)>) -> Seq<u8> {
    Seq::new(pal.len(), |i: int| pal[i].3)
}

/// The view of an optional byte vector.
pub open spec fn opt_bytes_view(o: Option<Vec<u8>>) -> Option<Seq<u8>> {
    match o {
        Some(v) => Some(v@),
        None => None,
    }
}

/// The palette-size budget for a quality on the 0-100 scale: a linear map
/// into [2, 256].
pub open spec fn lossy_max_colors_spec(quality: u8) -> int {
    (quality * 254) / 100 + 2
}

/// Computes the palette-size budget for a quality setting.
pub fn lossy_max_colors(quality: u8) -> (r: u32)
    requires
        quality <= 100,
    ensures
        r == lossy_max_colors_spec(quality),
        2 <= r <= 256,
{
    (quality as u32) * 254 / 100 + 2
}

/// The palette budget lies in [2, 256] for every quality on the 0-100 scale,
/// reaching 2 exactly at quality 0 and 256 exactly at quality 100.
pub proof fn lemma_max_colors_bounds(quality: u8)
    requires
        quality <= 100,
    ensures
        2 <= lossy_max_colors_spec(quality) <= 256,
        quality == 0 ==> lossy_max_colors_spec(quality) == 2,
        quality == 100 ==> lossy_max_colors_spec(quality) == 256,
{
}

/// Groups a packed RGBA byte buffer into quadruples.
fn group_rgba(data: &Vec<u8>) -> (r: Vec<(u8, u8, u8, u8)>)
    ensures
        r@ == quads_of(data@),
{
    let mut out: Vec<(u8, u8, u8, u8)> = Vec::new();
    let n: usize = data.len();
    let npix: usize = n / 4;
    let mut p: usize = 0;
    while p < npix
        invariant
            p <= npix,
            n == data@.len(),
            npix == n / 4,
            npix * 4 <= n,
            out@ == quads_of(data@).subrange(0, p as int),
        decreases npix - p,
    {
        assert(p as int * 4 + 3 < n);
        out.push((data[p * 4], data[p * 4 + 1], data[p * 4 + 2], data[p * 4 + 3]));
        p = p + 1;
        proof {
            assert(out@ =~= quads_of(data@).subrange(0, p as int));
        }
    }
    proof {
        assert(out@ =~= quads_of(data@));
    }
    out
}

/// Flattens a palette into its RGB bytes.
fn flatten_palette_rgb(pal: &Vec<(u8, u8, u8, u8)>) -> (r: Vec<u8>)
    requires
        pal@.len() <= 256,
    ensures
        r@ == palette_rgb_of(pal@),
{
    let mut out: Vec<u8> = Vec::new();
    let mut i: usize = 0;
    while i < pal.len()
        invariant
            i <= pal@.len(),
            pal@.len() <= 256,
            out@ == palette_rgb_of(pal@).subrange(0, i as int * 3),
        decreases pal@.len() - i,
    {
        let e = pal[i];
        out.push(e.0);
        out.push(e.1);
        out.push(e.2);
        i = i + 1;
        proof {
            assert(out@ =~= palette_rgb_of(pal@).subrange(0, i as int * 3));
        }
    }
    proof {
        assert(out@ =~= palette_rgb_of(pal@));
    }
    out
}

/// Collects the alpha byte of each palette entry.
fn palette_alphas(pal: &Vec<(u8, u8, u8, u8)>) -> (r: Vec<u8>)
    ensures
        r@ == palette_alpha_of(pal@),
{
    let mut out: Vec<u8> = Vec::new();
    let mut i: usize = 0;
    while i < pal.len()
        invariant
            i <= pal@.len(),
            out@ == palette_alpha_of(pal@).subrange(0, i as int),
        decreases pal@.len() - i,
    {
        out.push(pal[i].3);
        i = i + 1;
        proof {
            assert(out@ =~= palette_alpha_of(pal@).subrange(0, i as int));
        }
    }
    proof {
        assert(out@ =~= palette_alpha_of(pal@));
    }
    out
}

/// Relies on png's `Encoder`: writes a `width x height` image as RGBA8 at
/// best compression into a fresh byte vector; the output is a function of
/// these arguments alone. The codec's only reachable failures are its zero-
/// dimension checks and its buffer-size check, which the length precondition
/// rules out; writes into the vector cannot fail.
#[verifier::external_body]
fn encode_png_rgba(data: &Vec<u8>, width: u32, height: u32) -> (r: Result<Vec<u8>, String>)
    requires
        data@.len() == width as int * height as int * 4,
    ensures
        r matches Ok(v) ==> v@ == png_lossless_of(width, height, data@),
        width >= 1 && height >= 1 ==> r is Ok,
{
    let mut out: Vec<u8> = Vec::new();
    {
        let mut enc = png::Encoder::new(&mut out, width, height);
        enc.set_color(png::ColorType::Rgba);
        enc.set_depth(png::BitDepth::Eight);
        enc.set_compression(png::Compression::Best);
        let mut writer = enc.write_header().map_err(|e| format!("PNG encoding error: {}", e))?;
        writer.write_image_data(data.as_slice()).map_err(
            |e| format!("PNG encoding error: {}", e),
        )?;
    }
    Ok(out)
}

/// Relies on png's `Encoder`: writes a `width x height` indexed-color image
/// (bit depth 8) with the given RGB palette, an optional transparency table,
/// and one palette index per pixel; the output is a function of these
/// arguments alone. Beyond the zero-dimension checks, the codec's reachable
/// failures are its buffer-size check (one byte per pixel, ruled out by the
/// precondition) and an over-long chunk (the palette bound rules it out);
/// the palette is always set, so the no-palette error cannot fire.
#[verifier::external_body]
fn encode_png_indexed(
    width: u32,
    height: u32,
    palette_rgb: &Vec<u8>,
    trns: &Option<Vec<u8>>,
    pixels: &Vec<u8>,
) -> (r: Result<Vec<u8>, String>)
    requires
        pixels@.len() == width as int * height as int,
        palette_rgb@.len() <= 768,
    ensures
        r matches Ok(v) ==> v@ == png_indexed_of(width, height, palette_rgb@, opt_bytes_view(*trns), pixels@),
        width >= 1 && height >= 1 ==> r is Ok,
{
    let mut out: Vec<u8> = Vec::new();
    {
        let mut enc = png::Encoder::new(&mut out, width, height);
        enc.set_color(png::ColorType::Indexed);
        enc.set_depth(png::BitDepth::Eight);
        enc.set_palette(palette_rgb.clone());
        if let Some(t) = trns {
            enc.set_trns(t.clone());
        }
        let mut writer = enc.write_header().map_err(|e| format!("PNG encoding error: {}", e))?;
        writer.write_image_data(pixels.as_slice()).map_err(
            |e| format!("PNG encoding error: {}", e),
        )?;
    }
    Ok(out)
}

/// Relies on imagequant's quantization pipeline (`Attributes::set_max_colors`
/// and `set_quality`, `Attributes::new_image` and `quantize`,
/// `QuantizationResult::remapped`): builds a palette of at most `max_colors`
/// entries for a `width x height` RGBA image at the given quality target and
/// remaps every pixel to a palette index. With `dithering` off,
/// `set_dithering_level` forces the remap to dithering level zero; otherwise
/// the library's default level applies. Palette entries come out as plain
/// RGBA quadruples; `remapped` returns one in-range palette index per pixel.
#[verifier::external_body]
fn quantize_rgba(
    pixels: &Vec<(u8, u8, u8, u8)>,
    width: usize,
    height: usize,
    max_colors: u32,
    quality: u8,
    dithering: bool,
) -> (r: Result<(Vec<(u8, u8, u8, u8)>, Vec<u8>), String>)
    requires
        pixels@.len() == width * height,
        2 <= max_colors <= 256,
        quality <= 100,
    ensures
        r matches Ok(pq) ==> pq.0@.len() <= max_colors && pq.1@.len() == width * height && (
        forall|i: int| 0 <= i < pq.1@.len() ==> pq.1@[i] < pq.0@.len()),
{
    let fmt = |e| format!("Imagequant error: {:?}", e);
    let mut liq = imagequant::Attributes::new();
    liq.set_max_colors(max_colors).map_err(fmt)?;
    liq.set_quality(0, quality).map_err(fmt)?;
    let px: Vec<imagequant::RGBA> = pixels.iter().copied().map(Into::into).collect();
    let mut img = liq.new_image(px, width, height, Default::default()).map_err(fmt)?;
    let mut res = liq.quantize(&mut img).map_err(fmt)?;
    if !dithering {
        res.set_dithering_level(Default::default()).ok();
    }
    let (palette, idx) = res.remapped(&mut img).map_err(fmt)?;
    Ok((palette.into_iter().map(Into::into).collect(), idx))
}

/// Encodes an image as a lossless PNG: RGBA, bit depth 8, best compression.
pub fn compress_png_lossless(img: &RgbaBuffer) -> (r: AppResult<Vec<u8>>)
    requires
        img.wf(),
    ensures
        r matches Ok(v) ==> v@ == png_lossless_of(img.width, img.height, img.data@),
        img.width >= 1 && img.height >= 1 ==> r is Ok,
        r is Err ==> r matches Err(AppError::Processing(_)),
{
    match encode_png_rgba(&img.data, img.width, img.height) {
        Ok(v) => Ok(v),
        Err(m) => Err(AppError::Processing(m)),
    }
}

/// Encodes an image as PNG.
///
/// Without `lossy`, the lossless RGBA path runs and quality is ignored. With
/// `lossy`, the image is quantized to a palette of at most
/// `lossy_max_colors_spec(quality)` entries and written as an indexed-color
/// PNG; `preserve_transparency` decides whether a per-entry alpha table is
/// embedded beside the palette.
pub fn compress_png(img: &RgbaBuffer, options: &PngOptions) -> (r: AppResult<Vec<u8>>)
    requires
        img.wf(),
        options.quality <= 100,
    ensures
        !options.lossy ==> (r matches Ok(v) ==> v@ == png_lossless_of(
            img.width,
            img.height,
            img.data@,
        )),
        options.lossy ==> (r matches Ok(v) ==> exists|pal: Seq<(u8, u8, u8, u8)>, pix: Seq<u8>|
            pal.len() <= lossy_max_colors_spec(options.quality) && pix.len() == img.width as int
                * img.height as int && v@ == png_indexed_of(
                img.width,
                img.height,
                palette_rgb_of(pal),
                if options.preserve_transparency {
                    Some(palette_alpha_of(pal))
                } else {
                    None
                },
                pix,
            )),
        !options.lossy && img.width >= 1 && img.height >= 1 ==> r is Ok,
        r is Err ==> r matches Err(AppError::Processing(_)),
{
    if !options.lossy {
        return compress_png_lossless(img);
    }
    let max_colors = lossy_max_colors(options.quality);
    let quads = group_rgba(&img.data);
    proof {
        assert(quads@.len() == img.width as int * img.height as int) by {
            assert(img.data@.len() / 4 == img.width as int * img.height as int) by (nonlinear_arith)
                requires
                    img.data@.len() == img.width as int * img.height as int * 4,
            ;
        }
    }
    match quantize_rgba(
        &quads,
        img.width as usize,
        img.height as usize,
        max_colors,
        options.quality,
        options.dithering,
    ) {
        Ok((palette, pixels)) => {
            let palette_rgb = flatten_palette_rgb(&palette);
            let trns: Option<Vec<u8>> = if options.preserve_transparency {
                Some(palette_alphas(&palette))
            } else {
                None
            };
            match encode_png_indexed(img.width, img.height, &palette_rgb, &trns, &pixels) {
                Ok(v) => {
                    proof {
                        let pal = palette@;
                        let pix = pixels@;
                        assert(pal.len() <= lossy_max_colors_spec(options.quality) && pix.len()
                            == img.width as int * img.height as int && v@ == png_indexed_of(
                            img.width,
                            img.height,
                            palette_rgb_of(pal),
                            if options.preserve_transparency {
                                Some(palette_alpha_of(pal))
                            } else {
                                None
                            },
                            pix,
                        ));
                    }
                    Ok(v)
                },
                Err(m) => Err(AppError::Processing(m)),
            }
        },
        Err(m) => Err(AppError::Processing(m)),
    }
}

} // verus!
