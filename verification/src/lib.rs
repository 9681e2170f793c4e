//! An image-optimization library: resize-mode resolution, format-specific
//! compression, output-path conflict resolution, and batch execution with
//! per-item failure isolation.

pub mod batch;
pub mod compress;
pub mod config;
pub mod error;
pub mod image_buf;
pub mod pathutil;
pub mod pipeline;
pub mod resize;
pub mod resolve;
pub mod scan;
pub mod single;
pub mod stats;
pub mod strnum;
