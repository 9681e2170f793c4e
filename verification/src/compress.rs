//! Format encoders: lossless and palette-quantized PNG, quality-based JPEG,
//! and WebP, each consuming a decoded RGBA buffer and format options.

pub mod jpeg;
pub mod png;
pub mod webp;
