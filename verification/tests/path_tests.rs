use imgopt::batch::derive_batch_output_path;
use imgopt::config::{
    FileConflictMode, JpegOptions, MetadataMode, OutputFormat, PngOptions, ProcessConfig,
    ResizeConfig, WebPOptions,
};
use imgopt::pathutil::{format_ext, output_file_name};
use imgopt::single::derive_single_output_path;
use imgopt::strnum::u32_to_string;

fn config(format: OutputFormat) -> ProcessConfig {
    ProcessConfig {
        output_format: format,
        resize: ResizeConfig::default(),
        png_options: PngOptions::default(),
        jpeg_options: JpegOptions::default(),
        webp_options: WebPOptions::default(),
        metadata_mode: MetadataMode::StripAll,
        file_conflict_mode: FileConflictMode::Overwrite,
        preserve_folder_structure: false,
        base_path: None,
        output_path: "out".to_string(),
    }
}

#[test]
fn decimal_rendering() {
    assert_eq!(u32_to_string(0), "0");
    assert_eq!(u32_to_string(7), "7");
    assert_eq!(u32_to_string(10), "10");
    assert_eq!(u32_to_string(1000), "1000");
    assert_eq!(u32_to_string(4294967295), "4294967295");
}

#[test]
fn format_extensions() {
    assert_eq!(format_ext(&OutputFormat::Png), "png");
    assert_eq!(format_ext(&OutputFormat::Jpeg), "jpg");
    assert_eq!(format_ext(&OutputFormat::WebP), "webp");
}

#[test]
fn output_name_replaces_extension() {
    assert_eq!(output_file_name("dir/pic.png", &OutputFormat::Jpeg), "pic_optimized.jpg");
    assert_eq!(output_file_name("pic.jpeg", &OutputFormat::Png), "pic_optimized.png");
    assert_eq!(output_file_name("a/b/c.tiff", &OutputFormat::WebP), "c_optimized.webp");
}

#[test]
fn output_name_for_missing_stem_is_output() {
    assert_eq!(output_file_name("dir/", &OutputFormat::Png), "output_optimized.png");
    assert_eq!(output_file_name("", &OutputFormat::Png), "output_optimized.png");
}

#[test]
fn output_name_keeps_dotless_names() {
    assert_eq!(output_file_name("dir/readme", &OutputFormat::Png), "readme_optimized.png");
}

#[test]
fn batch_path_joins_output_directory() {
    let cfg = config(OutputFormat::Png);
    assert_eq!(
        derive_batch_output_path(&"in/pic.jpg".to_string(), &cfg),
        "out/pic_optimized.png"
    );
}

#[test]
fn single_path_without_preservation() {
    let cfg = config(OutputFormat::Jpeg);
    assert_eq!(
        derive_single_output_path(&"base/sub/pic.png".to_string(), &cfg),
        "out/pic_optimized.jpg"
    );
}

#[test]
fn single_path_preserves_folder_structure() {
    let mut cfg = config(OutputFormat::Png);
    cfg.preserve_folder_structure = true;
    cfg.base_path = Some("base".to_string());
    assert_eq!(
        derive_single_output_path(&"base/sub/deep/pic.png".to_string(), &cfg),
        "out/sub/deep/pic_optimized.png"
    );
}

#[test]
fn single_path_preservation_with_file_at_base_root() {
    let mut cfg = config(OutputFormat::Png);
    cfg.preserve_folder_structure = true;
    cfg.base_path = Some("base".to_string());
    assert_eq!(
        derive_single_output_path(&"base/pic.png".to_string(), &cfg),
        "out/pic_optimized.png"
    );
}

#[test]
fn single_path_preservation_falls_back_outside_base() {
    let mut cfg = config(OutputFormat::Png);
    cfg.preserve_folder_structure = true;
    cfg.base_path = Some("base".to_string());
    assert_eq!(
        derive_single_output_path(&"elsewhere/pic.png".to_string(), &cfg),
        "out/pic_optimized.png"
    );
}
