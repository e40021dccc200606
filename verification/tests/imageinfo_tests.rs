//! Derived image metadata.

use certmaker::imageinfo::{pixel_metrics, size_category, PngColorKind};

#[test]
fn rgba_metrics() {
    let m = pixel_metrics(800, 600, PngColorKind::Rgba, false);
    assert_eq!(m.pixel_count, 480_000);
    assert_eq!(m.bytes_per_pixel, 4);
    assert!(m.has_transparency);
}

#[test]
fn bytes_per_pixel_by_layout() {
    let cases = [
        (PngColorKind::Grayscale, 1),
        (PngColorKind::Rgb, 3),
        (PngColorKind::Indexed, 1),
        (PngColorKind::GrayscaleAlpha, 2),
        (PngColorKind::Rgba, 4),
    ];
    for (kind, expected) in cases {
        assert_eq!(pixel_metrics(1, 1, kind, false).bytes_per_pixel, expected);
    }
}

#[test]
fn transparency_comes_from_alpha_or_chunk() {
    assert!(!pixel_metrics(2, 2, PngColorKind::Rgb, false).has_transparency);
    assert!(pixel_metrics(2, 2, PngColorKind::Rgb, true).has_transparency);
    assert!(pixel_metrics(2, 2, PngColorKind::GrayscaleAlpha, false).has_transparency);
}

#[test]
fn huge_dimensions_do_not_overflow_the_pixel_count() {
    let m = pixel_metrics(u32::MAX, u32::MAX, PngColorKind::Rgb, false);
    assert_eq!(m.pixel_count, (u32::MAX as u64) * (u32::MAX as u64));
}

#[test]
fn size_categories() {
    assert_eq!(size_category(100, 100), "Thumbnail");
    assert_eq!(size_category(128, 128), "Thumbnail");
    assert_eq!(size_category(512, 200), "Small");
    assert_eq!(size_category(800, 600), "Medium (HD)");
    assert_eq!(size_category(1920, 1080), "Medium (HD)");
    assert_eq!(size_category(3840, 2160), "Large (4K)");
    assert_eq!(size_category(4000, 2200), "Very Large");
    // either dimension over the bound moves the image up a class
    assert_eq!(size_category(100, 600), "Medium (HD)");
}
