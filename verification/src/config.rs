//! Configuration for one optimization run: output format, resize strategy,
//! per-format encoder options, and file-conflict policy.

use vstd::prelude::*;

verus! {

/// The format the optimized image is encoded into.
#[derive(Debug, Clone, Copy, PartialEq, Eq, Structural)]
pub enum OutputFormat {
    Png,
    Jpeg,
    WebP,
}

/// A strategy for computing target pixel dimensions from the source
/// dimensions. `Percentage` carries a whole-percent scale; all dimension
/// arithmetic truncates toward zero.
#[derive(Debug, Clone, Copy, PartialEq, Eq, Structural)]
pub enum ResizeMode {
    FixedWidth { width: u32 },
    FixedHeight { height: u32 },
    Exact { width: u32, height: u32 },
    Percentage { scale: u32 },
    FitBox { max_width: u32, max_height: u32 },
    FillBox { width: u32, height: u32 },
}

/// The resampling kernel used when pixels are actually rescaled.
#[derive(Debug, Clone, Copy, PartialEq, Eq, Structural)]
pub enum ResizeAlgorithm {
    Lanczos3,
    CatmullRom,
    Nearest,
    Mitchell,
}

/// Resize settings: when `enabled` is false, mode and algorithm are ignored
/// and the source image passes through unchanged.
#[derive(Debug, Clone, Copy, PartialEq, Eq, Structural)]
pub struct ResizeConfig {
    pub enabled: bool,
    pub mode: ResizeMode,
    pub algorithm: ResizeAlgorithm,
}

/// Which PNG encoding backend is requested.
#[derive(Debug, Clone, Copy, PartialEq, Eq, Structural)]
pub enum PngEncoder {
    Imagequant,
    Standard,
    OxiPng,
}

/// PNG encoding options; `quality` is on a 0-100 scale and, for the lossy
/// path, maps to a palette-size budget.
#[derive(Debug, Clone, Copy, PartialEq, Eq, Structural)]
pub struct PngOptions {
    pub encoder: PngEncoder,
    pub lossy: bool,
    pub quality: u8,
    pub dithering: bool,
    pub preserve_transparency: bool,
}

/// Which JPEG encoding backend is requested.
#[derive(Debug, Clone, Copy, PartialEq, Eq, Structural)]
pub enum JpegEncoder {
    MozJpeg,
    Standard,
}

/// JPEG encoding options; `quality` is passed to the codec directly.
#[derive(Debug, Clone, Copy, PartialEq, Eq, Structural)]
pub struct JpegOptions {
    pub encoder: JpegEncoder,
    pub quality: u8,
    pub progressive: bool,
    pub optimize_coding: bool,
}

/// Which WebP encoding backend is requested.
#[derive(Debug, Clone, Copy, PartialEq, Eq, Structural)]
pub enum WebPEncoder {
    LibWebP,
}

/// WebP encoding options; `method` trades speed against compression, 0-6.
#[derive(Debug, Clone, Copy, PartialEq, Eq, Structural)]
pub struct WebPOptions {
    pub encoder: WebPEncoder,
    pub lossy: bool,
    pub quality: u8,
    pub method: u8,
}

/// How image metadata is treated. Configured but not acted upon by the
/// pipeline itself.
#[derive(Debug, Clone, Copy, PartialEq, Eq, Structural)]
pub enum MetadataMode {
    StripAll,
    KeepOrientation,
    KeepColorProfile,
    Custom,
}

/// Policy for an output path that already names an existing file.
#[derive(Debug, Clone, Copy, PartialEq, Eq, Structural)]
pub enum FileConflictMode {
    Overwrite,
    Rename,
    Skip,
}

/// Immutable per-run configuration. Exactly one of the three option blocks
/// is active, selected by `output_format`.
#[derive(Debug, Clone)]
pub struct ProcessConfig {
    pub output_format: OutputFormat,
    pub resize: ResizeConfig,
    pub png_options: PngOptions,
    pub jpeg_options: JpegOptions,
    pub webp_options: WebPOptions,
    pub metadata_mode: MetadataMode,
    pub file_conflict_mode: FileConflictMode,
    pub preserve_folder_structure: bool,
    pub base_path: Option<String>,
    pub output_path: String,
}

/// A scan-result record for one file. `width`/`height` are `(0, 0)` and
/// `format` is the `"unknown"` sentinel when header inspection failed.
#[derive(Debug, Clone)]
pub struct FileInfo {
    pub path: String,
    pub name: String,
    pub size: u64,
    pub width: u32,
    pub height: u32,
    pub format: String,
}

/// The outcome of one pipeline run. `compression_ratio` is a signed
/// percentage in hundredths (positive = savings, negative = growth).
#[derive(Debug, Clone)]
pub struct ProcessResult {
    pub success: bool,
    pub original_size: u64,
    pub new_size: u64,
    pub compression_ratio: i128,
    pub output_path: String,
    pub error: Option<String>,
}

/// Ordered lifecycle markers for one pipeline run.
#[derive(Debug, Clone)]
pub enum ProgressEvent {
    Loading,
    Resizing,
    Compressing,
    WritingMetadata,
    Done,
    Error(String),
}

impl ProgressEvent {
    /// The position of an event in the lifecycle order
    /// `Loading < Resizing < Compressing < WritingMetadata < Done`;
    /// the absorbing `Error` ranks alongside `Done`.
    pub open spec fn rank_spec(&self) -> u8 {
        match self {
            ProgressEvent::Loading => 0,
            ProgressEvent::Resizing => 1,
            ProgressEvent::Compressing => 2,
            ProgressEvent::WritingMetadata => 3,
            ProgressEvent::Done => 4,
            ProgressEvent::Error(_) => 4,
        }
    }

    /// The lifecycle position of this event, for consumers that check order.
    pub fn rank(&self) -> (r: u8)
        ensures
            r == self.rank_spec(),
    {
        match self {
            ProgressEvent::Loading => 0,
            ProgressEvent::Resizing => 1,
            ProgressEvent::Compressing => 2,
            ProgressEvent::WritingMetadata => 3,
            ProgressEvent::Done => 4,
            ProgressEvent::Error(_) => 4,
        }
    }
}

impl Default for ResizeConfig {
    /// Resizing off; an identity percentage scale and the Lanczos3 kernel
    /// stand by for when it is switched on.
    fn default() -> (r: Self)
        ensures
            !r.enabled,
            r.mode == (ResizeMode::Percentage { scale: 100u32 }),
            r.algorithm == ResizeAlgorithm::Lanczos3,
    {
        Self { enabled: false, mode: ResizeMode::Percentage { scale: 100 }, algorithm: ResizeAlgorithm::Lanczos3 }
    }
}

impl Default for PngOptions {
    /// Lossy palette quantization at quality 80 with dithering, keeping
    /// transparency.
    fn default() -> (r: Self)
        ensures
            r == (PngOptions {
                encoder: PngEncoder::Imagequant,
                lossy: true,
                quality: 80u8,
                dithering: true,
                preserve_transparency: true,
            }),
    {
        Self {
            encoder: PngEncoder::Imagequant,
            lossy: true,
            quality: 80,
            dithering: true,
            preserve_transparency: true,
        }
    }
}

impl Default for JpegOptions {
    /// The standard codec at quality 60, progressive, with optimized coding.
    fn default() -> (r: Self)
        ensures
            r == (JpegOptions {
                encoder: JpegEncoder::Standard,
                quality: 60u8,
                progressive: true,
                optimize_coding: true,
            }),
    {
        Self { encoder: JpegEncoder::Standard, quality: 60, progressive: true, optimize_coding: true }
    }
}

impl Default for WebPOptions {
    /// Lossy WebP at quality 85, method 4.
    fn default() -> (r: Self)
        ensures
            r == (WebPOptions { encoder: WebPEncoder::LibWebP, lossy: true, quality: 85u8, method: 4u8 }),
    {
        Self { encoder: WebPEncoder::LibWebP, lossy: true, quality: 85, method: 4 }
    }
}

} // verus!
