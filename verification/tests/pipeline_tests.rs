use imgopt::batch::{process_batch, BatchItem};
use imgopt::config::{
    FileConflictMode, JpegOptions, MetadataMode, OutputFormat, PngEncoder, PngOptions,
    ProcessConfig, ProgressEvent, ResizeConfig, WebPOptions,
};
use imgopt::compress::png::compress_png_lossless;
use imgopt::error::AppError;
use imgopt::image_buf::RgbaBuffer;
use imgopt::pipeline::{generate_preview, process_image};
use imgopt::single::skipped_result;

fn sample(width: u32, height: u32) -> RgbaBuffer {
    let mut data = Vec::new();
    for y in 0..height {
        for x in 0..width {
            data.push((x * 30 % 256) as u8);
            data.push((y * 50 % 256) as u8);
            data.push(((x * y) % 256) as u8);
            data.push(255);
        }
    }
    RgbaBuffer { width, height, data }
}

fn png_bytes(width: u32, height: u32) -> Vec<u8> {
    compress_png_lossless(&sample(width, height)).unwrap()
}

fn config(format: OutputFormat) -> ProcessConfig {
    ProcessConfig {
        output_format: format,
        resize: ResizeConfig::default(),
        png_options: PngOptions { lossy: false, ..PngOptions::default() },
        jpeg_options: JpegOptions::default(),
        webp_options: WebPOptions::default(),
        metadata_mode: MetadataMode::StripAll,
        file_conflict_mode: FileConflictMode::Overwrite,
        preserve_folder_structure: false,
        base_path: None,
        output_path: "out/result.png".to_string(),
    }
}

#[test]
fn pipeline_reports_sizes_and_ratio() {
    let input = png_bytes(6, 6);
    let original_size = input.len() as u64;
    let cfg = config(OutputFormat::Png);
    let (bytes, res) = process_image(&input, original_size, &cfg).unwrap();
    assert!(res.success);
    assert_eq!(res.error, None);
    assert_eq!(res.original_size, original_size);
    assert_eq!(res.new_size, bytes.len() as u64);
    assert_eq!(res.output_path, "out/result.png");
    let expected = if res.new_size <= original_size {
        ((original_size - res.new_size) as i128 * 10000) / original_size as i128
    } else {
        -(((res.new_size - original_size) as i128 * 10000) / original_size as i128)
    };
    assert_eq!(res.compression_ratio, expected);
}

#[test]
fn pipeline_output_decodes_back() {
    let input = png_bytes(5, 5);
    let cfg = config(OutputFormat::Png);
    let (bytes, _res) = process_image(&input, input.len() as u64, &cfg).unwrap();
    let decoded = image::load_from_memory(&bytes).unwrap().to_rgba8();
    assert_eq!((decoded.width(), decoded.height()), (5, 5));
    assert_eq!(decoded.into_raw(), sample(5, 5).data);
}

#[test]
fn pipeline_rejects_corrupt_input() {
    let input = vec![1u8, 2, 3, 4, 5];
    let cfg = config(OutputFormat::Png);
    let r = process_image(&input, 5, &cfg);
    assert!(matches!(r, Err(AppError::Image(_))));
}

#[test]
fn pipeline_encodes_jpeg_and_webp() {
    let input = png_bytes(7, 3);
    let (jpeg, _r) = process_image(&input, 1, &config(OutputFormat::Jpeg)).unwrap();
    assert_eq!(image::guess_format(&jpeg).unwrap(), image::ImageFormat::Jpeg);
    let (webp, _r) = process_image(&input, 1, &config(OutputFormat::WebP)).unwrap();
    assert_eq!(image::guess_format(&webp).unwrap(), image::ImageFormat::WebP);
}

#[test]
fn batch_isolates_the_failing_item() {
    let good = png_bytes(4, 4);
    let mut items = Vec::new();
    for i in 0..5 {
        let read = if i == 3 {
            Err("unreadable file".to_string())
        } else {
            Ok((good.clone(), good.len() as u64))
        };
        items.push(BatchItem { input_path: format!("in/pic{}.png", i), read });
    }
    let results = process_batch(&items, &config(OutputFormat::Png), &vec![]);
    assert_eq!(results.len(), 5);
    for (i, slot) in results.iter().enumerate() {
        if i == 3 {
            assert!(!slot.result.success);
            assert!(slot.result.error.is_some());
            assert!(slot.encoded.is_none());
        } else {
            assert!(slot.result.success, "item {} should succeed", i);
            assert_eq!(slot.result.error, None);
            assert_eq!(slot.result.output_path, format!("out/result.png/pic{}_optimized.png", i));
            let bytes = slot.encoded.as_ref().unwrap();
            assert_eq!(bytes.len() as u64, slot.result.new_size);
        }
    }
}

#[test]
fn batch_isolates_corrupt_bytes() {
    let good = png_bytes(4, 4);
    let items = vec![
        BatchItem { input_path: "a.png".to_string(), read: Ok((good.clone(), 10)) },
        BatchItem { input_path: "b.png".to_string(), read: Ok((vec![0u8; 8], 8)) },
        BatchItem { input_path: "c.png".to_string(), read: Ok((good.clone(), 10)) },
    ];
    let results = process_batch(&items, &config(OutputFormat::Png), &vec![]);
    assert_eq!(results.len(), 3);
    assert!(results[0].result.success);
    assert!(!results[1].result.success);
    assert!(results[2].result.success);
}

#[test]
fn batch_skip_mode_writes_nothing_for_existing_outputs() {
    let good = png_bytes(4, 4);
    let items = vec![
        BatchItem { input_path: "a.png".to_string(), read: Ok((good.clone(), 10)) },
        BatchItem { input_path: "b.png".to_string(), read: Ok((good.clone(), 10)) },
    ];
    let mut cfg = config(OutputFormat::Png);
    cfg.file_conflict_mode = FileConflictMode::Skip;
    let existing = vec!["out/result.png/a_optimized.png".to_string()];
    let results = process_batch(&items, &cfg, &existing);
    assert_eq!(results.len(), 2);
    assert!(results[0].result.success);
    assert_eq!(results[0].result.output_path, "Skipped (file exists)");
    assert!(results[0].encoded.is_none());
    assert!(results[1].result.success);
    assert_eq!(results[1].result.output_path, "out/result.png/b_optimized.png");
    assert!(results[1].encoded.is_some());
}

#[test]
fn batch_rename_mode_avoids_existing_outputs() {
    let good = png_bytes(4, 4);
    let items = vec![BatchItem { input_path: "a.png".to_string(), read: Ok((good.clone(), 10)) }];
    let mut cfg = config(OutputFormat::Png);
    cfg.file_conflict_mode = FileConflictMode::Rename;
    let existing = vec!["out/result.png/a_optimized.png".to_string()];
    let results = process_batch(&items, &cfg, &existing);
    assert_eq!(results[0].result.output_path, "out/result.png/a_optimized_(1).png");
    assert!(results[0].result.success);
}

#[test]
fn preview_is_base64_jpeg() {
    let img = sample(6, 4);
    let text = generate_preview(&img, 800).unwrap();
    let bytes = base64::Engine::decode(&base64::engine::general_purpose::STANDARD, text).unwrap();
    assert_eq!(image::guess_format(&bytes).unwrap(), image::ImageFormat::Jpeg);
    let decoded = image::load_from_memory(&bytes).unwrap();
    assert_eq!((decoded.width(), decoded.height()), (6, 4));
}

#[test]
fn preview_downscales_longer_edge() {
    let img = sample(8, 4);
    let text = generate_preview(&img, 4).unwrap();
    let bytes = base64::Engine::decode(&base64::engine::general_purpose::STANDARD, text).unwrap();
    let decoded = image::load_from_memory(&bytes).unwrap();
    assert_eq!((decoded.width(), decoded.height()), (4, 2));
}

#[test]
fn skipped_result_is_a_distinguishable_success() {
    let r = skipped_result();
    assert!(r.success);
    assert_eq!(r.error, None);
    assert_eq!(r.output_path, "Skipped (file exists)");
    assert_eq!(r.original_size, 0);
    assert_eq!(r.new_size, 0);
}

#[test]
fn progress_events_are_ordered() {
    assert!(ProgressEvent::Loading.rank() < ProgressEvent::Resizing.rank());
    assert!(ProgressEvent::Resizing.rank() < ProgressEvent::Compressing.rank());
    assert!(ProgressEvent::Compressing.rank() < ProgressEvent::WritingMetadata.rank());
    assert!(ProgressEvent::WritingMetadata.rank() < ProgressEvent::Done.rank());
    assert_eq!(ProgressEvent::Error("boom".to_string()).rank(), ProgressEvent::Done.rank());
}
