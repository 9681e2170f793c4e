use imgopt::config::{ResizeAlgorithm, ResizeConfig, ResizeMode};
use imgopt::error::AppError;
use imgopt::image_buf::RgbaBuffer;
use imgopt::resize::{compute_target_dimensions, resize_image};

fn buffer(width: u32, height: u32) -> RgbaBuffer {
    let mut data = Vec::new();
    for i in 0..(width * height) {
        data.push((i % 256) as u8);
        data.push(((i * 7) % 256) as u8);
        data.push(((i * 13) % 256) as u8);
        data.push(255);
    }
    RgbaBuffer { width, height, data }
}

#[test]
fn disabled_resize_keeps_dimensions() {
    let img = buffer(5, 3);
    let config = ResizeConfig {
        enabled: false,
        mode: ResizeMode::Exact { width: 1, height: 1 },
        algorithm: ResizeAlgorithm::Lanczos3,
    };
    let out = resize_image(&img, &config).unwrap();
    assert_eq!(out.width, 5);
    assert_eq!(out.height, 3);
    assert_eq!(out.data, img.data);
}

#[test]
fn percentage_100_is_identity() {
    let img = buffer(6, 4);
    let config = ResizeConfig {
        enabled: true,
        mode: ResizeMode::Percentage { scale: 100 },
        algorithm: ResizeAlgorithm::Nearest,
    };
    let out = resize_image(&img, &config).unwrap();
    assert_eq!(out.width, 6);
    assert_eq!(out.height, 4);
    assert_eq!(out.data, img.data);
}

#[test]
fn percentage_50_halves_dimensions() {
    let (w, h) = compute_target_dimensions(6, 4, &ResizeMode::Percentage { scale: 50 });
    assert_eq!((w, h), (3, 2));
}

#[test]
fn fixed_width_keeps_aspect() {
    let (w, h) = compute_target_dimensions(400, 300, &ResizeMode::FixedWidth { width: 200 });
    assert_eq!((w, h), (200, 150));
}

#[test]
fn fixed_height_keeps_aspect() {
    let (w, h) = compute_target_dimensions(400, 300, &ResizeMode::FixedHeight { height: 150 });
    assert_eq!((w, h), (200, 150));
}

#[test]
fn exact_ignores_aspect() {
    let (w, h) = compute_target_dimensions(400, 300, &ResizeMode::Exact { width: 10, height: 90 });
    assert_eq!((w, h), (10, 90));
}

#[test]
fn fillbox_is_the_requested_box() {
    let (w, h) = compute_target_dimensions(400, 300, &ResizeMode::FillBox { width: 64, height: 64 });
    assert_eq!((w, h), (64, 64));
}

#[test]
fn fitbox_fits_within_box_landscape() {
    let (w, h) = compute_target_dimensions(
        400,
        300,
        &ResizeMode::FitBox { max_width: 200, max_height: 200 },
    );
    assert_eq!((w, h), (200, 150));
    assert!(w <= 200 && h <= 200);
}

#[test]
fn fitbox_fits_within_box_portrait() {
    let (w, h) = compute_target_dimensions(
        300,
        400,
        &ResizeMode::FitBox { max_width: 200, max_height: 200 },
    );
    assert_eq!((w, h), (150, 200));
    assert!(w <= 200 && h <= 200);
}

#[test]
fn fitbox_truncates_toward_zero() {
    // scale = 100/99 is not exact: 99 * (100/99) truncates to 100, and the
    // other axis to 50 * 100 / 99 = 50.
    let (w, h) = compute_target_dimensions(
        99,
        50,
        &ResizeMode::FitBox { max_width: 100, max_height: 100 },
    );
    assert_eq!((w, h), (100, 50));
}

#[test]
fn enabled_resize_resamples_to_target() {
    let img = buffer(4, 4);
    let config = ResizeConfig {
        enabled: true,
        mode: ResizeMode::FitBox { max_width: 2, max_height: 2 },
        algorithm: ResizeAlgorithm::CatmullRom,
    };
    let out = resize_image(&img, &config).unwrap();
    assert_eq!(out.width, 2);
    assert_eq!(out.height, 2);
    assert_eq!(out.data.len(), 2 * 2 * 4);
}

#[test]
fn zero_target_dimension_is_an_error() {
    let img = buffer(4, 4);
    let config = ResizeConfig {
        enabled: true,
        mode: ResizeMode::Percentage { scale: 0 },
        algorithm: ResizeAlgorithm::Lanczos3,
    };
    assert!(matches!(resize_image(&img, &config), Err(AppError::Processing(_))));
}

#[test]
fn resize_succeeds_on_any_positive_target() {
    let img = buffer(3, 3);
    let config = ResizeConfig {
        enabled: true,
        mode: ResizeMode::Exact { width: 7, height: 2 },
        algorithm: ResizeAlgorithm::Mitchell,
    };
    let out = resize_image(&img, &config).unwrap();
    assert_eq!((out.width, out.height), (7, 2));
}
