use wallrus::errors::BufferError;
use wallrus::scaler::{reorder_channels, ImageScaler, PixelFormat, MAX_DIMENSION};

#[test]
fn argb_swaps_red_and_blue() {
    let rgba: Vec<u8> = vec![1, 2, 3, 4, 10, 20, 30, 40];
    assert_eq!(reorder_channels(&rgba, PixelFormat::Argb8888), vec![3, 2, 1, 4, 30, 20, 10, 40]);
    assert_eq!(reorder_channels(&rgba, PixelFormat::Xrgb8888), vec![3, 2, 1, 4, 30, 20, 10, 40]);
}

#[test]
fn abgr_keeps_the_order() {
    let rgba: Vec<u8> = vec![1, 2, 3, 4, 10, 20, 30, 40];
    assert_eq!(reorder_channels(&rgba, PixelFormat::Abgr8888), rgba);
    assert_eq!(reorder_channels(&rgba, PixelFormat::Xbgr8888), rgba);
}

#[test]
fn partial_pixel_is_dropped() {
    let rgba: Vec<u8> = vec![1, 2, 3, 4, 10, 20, 30];
    assert_eq!(reorder_channels(&rgba, PixelFormat::Argb8888), vec![3, 2, 1, 4]);
    assert_eq!(reorder_channels(&vec![1, 2, 3], PixelFormat::Argb8888), Vec::<u8>::new());
    assert_eq!(reorder_channels(&vec![], PixelFormat::Abgr8888), Vec::<u8>::new());
}

#[test]
fn source_must_match_its_geometry() {
    assert!(matches!(ImageScaler::new(0, 2, vec![]), Err(BufferError::EmptyGeometry)));
    assert!(matches!(ImageScaler::new(2, 0, vec![]), Err(BufferError::EmptyGeometry)));
    assert!(matches!(ImageScaler::new(2, 2, vec![0; 15]), Err(BufferError::SourceMismatch)));
    assert!(matches!(ImageScaler::new(2, 2, vec![0; 17]), Err(BufferError::SourceMismatch)));
    let scaler = ImageScaler::new(2, 2, vec![0; 16]).unwrap();
    assert_eq!(scaler.width(), 2);
    assert_eq!(scaler.height(), 2);
}

#[test]
fn source_above_the_largest_dimension_is_too_large() {
    assert_eq!(MAX_DIMENSION, 65_535);
    assert!(matches!(ImageScaler::new(1, 65_536, vec![0; 262_144]), Err(BufferError::TooLarge)));
    assert!(matches!(ImageScaler::new(65_536, 1, vec![0; 262_144]), Err(BufferError::TooLarge)));
    assert!(matches!(ImageScaler::new(70_000, 1, vec![]), Err(BufferError::TooLarge)));
    assert!(matches!(ImageScaler::new(u32::MAX, u32::MAX, vec![]), Err(BufferError::TooLarge)));
    assert!(matches!(ImageScaler::new(0, 70_000, vec![]), Err(BufferError::EmptyGeometry)));
    assert!(matches!(ImageScaler::new(65_535, 1, vec![0; 262_139]), Err(BufferError::SourceMismatch)));
    let tall = ImageScaler::new(1, 65_535, vec![7; 262_140]).unwrap();
    assert_eq!(tall.height(), 65_535);
    assert_eq!(tall.scale(1, 65_534, PixelFormat::Abgr8888).unwrap().len(), 262_136);
    assert_eq!(tall.scale(1, 65_536, PixelFormat::Abgr8888), Err(BufferError::TooLarge));
}

#[test]
fn target_above_the_largest_dimension_is_too_large() {
    let scaler = ImageScaler::new(2, 2, vec![9; 16]).unwrap();
    assert_eq!(scaler.scale(65_536, 1, PixelFormat::Argb8888), Err(BufferError::TooLarge));
    assert_eq!(scaler.scale(1, 65_536, PixelFormat::Argb8888), Err(BufferError::TooLarge));
    assert_eq!(scaler.scale(0, 65_536, PixelFormat::Argb8888), Err(BufferError::EmptyGeometry));
    assert_eq!(scaler.scale(65_535, 1, PixelFormat::Argb8888).unwrap().len(), 262_140);
    assert_eq!(scaler.scale(1, 65_535, PixelFormat::Argb8888).unwrap().len(), 262_140);
}

#[test]
fn scaling_to_the_same_size_reorders_only() {
    let pixels: Vec<u8> = vec![
        255, 0, 0, 255, 0, 255, 0, 128, //
        0, 0, 255, 64, 9, 8, 7, 6,
    ];
    let scaler = ImageScaler::new(2, 2, pixels.clone()).unwrap();
    assert_eq!(
        scaler.scale(2, 2, PixelFormat::Argb8888).unwrap(),
        vec![0, 0, 255, 255, 0, 255, 0, 128, 255, 0, 0, 64, 7, 8, 9, 6]
    );
    assert_eq!(scaler.scale(2, 2, PixelFormat::Abgr8888).unwrap(), pixels);
}

#[test]
fn scaling_gives_four_bytes_per_pixel() {
    let scaler = ImageScaler::new(2, 2, vec![200; 16]).unwrap();
    assert_eq!(scaler.scale(4, 4, PixelFormat::Argb8888).unwrap().len(), 64);
    assert_eq!(scaler.scale(1, 1, PixelFormat::Argb8888).unwrap().len(), 4);
    assert_eq!(scaler.scale(7, 3, PixelFormat::Xbgr8888).unwrap().len(), 84);
    assert_eq!(scaler.scale(640, 480, PixelFormat::Argb8888).unwrap().len(), 640 * 480 * 4);
}

#[test]
fn scaling_a_flat_image_keeps_its_colour() {
    let mut pixels: Vec<u8> = Vec::new();
    for _ in 0..9 {
        pixels.extend_from_slice(&[10, 20, 30, 255]);
    }
    let scaler = ImageScaler::new(3, 3, pixels).unwrap();
    let scaled = scaler.scale(5, 4, PixelFormat::Argb8888).unwrap();
    assert_eq!(scaled.len(), 80);
    for pixel in scaled.chunks(4) {
        assert_eq!(pixel, &[30, 20, 10, 255]);
    }
}

#[test]
fn scaling_refuses_what_cannot_be_held() {
    let scaler = ImageScaler::new(2, 2, vec![0; 16]).unwrap();
    assert_eq!(scaler.scale(0, 4, PixelFormat::Argb8888), Err(BufferError::EmptyGeometry));
    assert_eq!(scaler.scale(4, 0, PixelFormat::Argb8888), Err(BufferError::EmptyGeometry));
    assert_eq!(scaler.scale(0, 0, PixelFormat::Argb8888), Err(BufferError::EmptyGeometry));
    assert_eq!(scaler.scale(32768, 16384, PixelFormat::Argb8888), Err(BufferError::TooLarge));
    assert_eq!(
        scaler.scale(u32::MAX, u32::MAX, PixelFormat::Argb8888),
        Err(BufferError::TooLarge)
    );
}
