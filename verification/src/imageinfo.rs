//! Derived image metadata: the per-pixel byte cost and pixel count that an
//! image's dimensions and color layout determine, and a coarse size label.

use vstd::prelude::*;
use vstd::string::StringExecFns;

verus! {

/// The color layout of a PNG image.
#[derive(Clone, Copy, Debug, PartialEq, Eq, Structural)]
pub enum PngColorKind {
    Grayscale,
    Rgb,
    Indexed,
    GrayscaleAlpha,
    Rgba,
}

/// How many bytes one pixel occupies uncompressed under a color layout.
pub open spec fn bytes_per_pixel_of(k: PngColorKind) -> int {
    match k {
        PngColorKind::Grayscale => 1,
        PngColorKind::Rgb => 3,
        PngColorKind::Indexed => 1,
        PngColorKind::GrayscaleAlpha => 2,
        PngColorKind::Rgba => 4,
    }
}

/// Metadata derived from an image's dimensions and color layout.
#[derive(Clone, Copy, Debug, PartialEq, Eq, Structural)]
pub struct PixelMetrics {
    pub pixel_count: u64,
    pub bytes_per_pixel: u8,
    pub has_transparency: bool,
}

/// Derive the pixel count, per-pixel byte cost and transparency flag: an
/// image is transparent when its layout carries an alpha channel or the file
/// declares a transparency chunk.
pub fn pixel_metrics(width: u32, height: u32, kind: PngColorKind, has_trns_chunk: bool) -> (m:
    PixelMetrics)
    ensures
        m.pixel_count == width as int * height as int,
        m.bytes_per_pixel == bytes_per_pixel_of(kind),
        m.has_transparency == (kind is GrayscaleAlpha || kind is Rgba || has_trns_chunk),
{
    proof {
        assert(width as int * height as int <= u32::MAX as int * u32::MAX as int) by (nonlinear_arith)
            requires
                width <= u32::MAX && height <= u32::MAX,
        ;
    }
    let pixel_count = (width as u64) * (height as u64);
    let bytes_per_pixel: u8 = match kind {
        PngColorKind::Grayscale => 1,
        PngColorKind::Rgb => 3,
        PngColorKind::Indexed => 1,
        PngColorKind::GrayscaleAlpha => 2,
        PngColorKind::Rgba => 4,
    };
    let has_transparency = match kind {
        PngColorKind::GrayscaleAlpha => true,
        PngColorKind::Rgba => true,
        _ => has_trns_chunk,
    };
    PixelMetrics { pixel_count, bytes_per_pixel, has_transparency }
}

/// The coarse label an image's dimensions fall under.
pub open spec fn size_category_spec(w: int, h: int) -> Seq<char> {
    if w <= 128 && h <= 128 {
        "Thumbnail"@
    } else if w <= 512 && h <= 512 {
        "Small"@
    } else if w <= 1920 && h <= 1080 {
        "Medium (HD)"@
    } else if w <= 3840 && h <= 2160 {
        "Large (4K)"@
    } else {
        "Very Large"@
    }
}

/// Classify an image's dimensions into a coarse size label.
pub fn size_category(width: u32, height: u32) -> (r: String)
    ensures
        r@ == size_category_spec(width as int, height as int),
{
    if width <= 128 && height <= 128 {
        String::from_str("Thumbnail")
    } else if width <= 512 && height <= 512 {
        String::from_str("Small")
    } else if width <= 1920 && height <= 1080 {
        String::from_str("Medium (HD)")
    } else if width <= 3840 && height <= 2160 {
        String::from_str("Large (4K)")
    } else {
        String::from_str("Very Large")
    }
}

} // verus!
