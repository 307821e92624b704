use render_engine::pixels::{to_rgba8, PixelFormat};

#[test]
fn rgba_passes_through() {
    let p = vec![1, 2, 3, 4, 5, 6, 7, 8];
    assert_eq!(to_rgba8(PixelFormat::R8G8B8A8, &p), Some(p.clone()));
}

#[test]
fn rgb_gains_opaque_alpha() {
    let p = vec![10, 20, 30, 40, 50, 60];
    assert_eq!(
        to_rgba8(PixelFormat::R8G8B8, &p),
        Some(vec![10, 20, 30, 255, 40, 50, 60, 255])
    );
}

#[test]
fn rgb_trailing_partial_pixel() {
    let p = vec![1, 2, 3, 4, 5];
    assert_eq!(to_rgba8(PixelFormat::R8G8B8, &p), Some(vec![1, 2, 3, 255, 4, 5, 255]));
    assert_eq!(to_rgba8(PixelFormat::R8G8B8, &vec![9]), Some(vec![9, 255]));
}

#[test]
fn grey_is_replicated() {
    assert_eq!(
        to_rgba8(PixelFormat::R8, &vec![7, 200]),
        Some(vec![7, 7, 7, 255, 200, 200, 200, 255])
    );
}

#[test]
fn two_channels_are_intensity_and_alpha() {
    assert_eq!(
        to_rgba8(PixelFormat::R8G8, &vec![100, 50, 3, 4]),
        Some(vec![100, 100, 100, 50, 3, 3, 3, 4])
    );
}

#[test]
fn empty_images_stay_empty() {
    for f in [PixelFormat::R8, PixelFormat::R8G8, PixelFormat::R8G8B8, PixelFormat::R8G8B8A8] {
        assert_eq!(to_rgba8(f, &Vec::new()), Some(Vec::new()));
    }
}

#[test]
fn wide_formats_are_unsupported() {
    let p = vec![0u8; 12];
    for f in [
        PixelFormat::R16,
        PixelFormat::R16G16,
        PixelFormat::R16G16B16,
        PixelFormat::R16G16B16A16,
        PixelFormat::R32G32B32FLOAT,
        PixelFormat::R32G32B32A32FLOAT,
    ] {
        assert_eq!(to_rgba8(f, &p), None);
    }
}
