use imgopt::config::{JpegOptions, PngOptions, ResizeConfig, ResizeMode, WebPOptions};
use imgopt::error::AppError;
use imgopt::scan::{build_file_info, is_supported_extension};

#[test]
fn supported_extensions_match_the_scanner_list() {
    for ext in ["png", "jpg", "jpeg", "webp", "bmp", "tiff", "gif"] {
        assert!(is_supported_extension(&ext.to_string()), "{} should be supported", ext);
    }
    assert!(is_supported_extension(&"PNG".to_string()));
    assert!(is_supported_extension(&"TiFf".to_string()));
    assert!(!is_supported_extension(&"xyz".to_string()));
    assert!(!is_supported_extension(&"svg".to_string()));
    assert!(!is_supported_extension(&"".to_string()));
}

#[test]
fn file_info_uppercases_the_format() {
    let info = build_file_info(
        &"dir/pic.png".to_string(),
        &"pic.png".to_string(),
        1234,
        Some((640, 480)),
        &"png".to_string(),
    );
    assert_eq!(info.path, "dir/pic.png");
    assert_eq!(info.name, "pic.png");
    assert_eq!(info.size, 1234);
    assert_eq!((info.width, info.height), (640, 480));
    assert_eq!(info.format, "PNG");
}

#[test]
fn file_info_uses_sentinels_when_the_header_fails() {
    let info = build_file_info(
        &"dir/broken.gif".to_string(),
        &"broken.gif".to_string(),
        77,
        None,
        &"gif".to_string(),
    );
    assert_eq!((info.width, info.height), (0, 0));
    assert_eq!(info.format, "unknown");
    assert_eq!(info.size, 77);
}

#[test]
fn error_messages_carry_their_kind() {
    assert_eq!(AppError::Io("nope".to_string()).message(), "IO error: nope");
    assert_eq!(AppError::Image("bad".to_string()).message(), "Image error: bad");
    assert_eq!(AppError::ConflictExhausted.message(), "Too many conflicting files");
    assert_eq!(
        AppError::InvalidConfig("x".to_string()).message(),
        "Invalid configuration: x"
    );
}

#[test]
fn defaults_match_the_documented_values() {
    let r = ResizeConfig::default();
    assert!(!r.enabled);
    assert_eq!(r.mode, ResizeMode::Percentage { scale: 100 });
    let p = PngOptions::default();
    assert!(p.lossy && p.dithering && p.preserve_transparency);
    assert_eq!(p.quality, 80);
    let j = JpegOptions::default();
    assert_eq!(j.quality, 60);
    assert!(j.progressive && j.optimize_coding);
    let w = WebPOptions::default();
    assert!(w.lossy);
    assert_eq!((w.quality, w.method), (85, 4));
}
