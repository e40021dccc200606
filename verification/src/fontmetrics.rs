//! Text metrics: the pixel bounding box of a rendered string, computed from
//! the per-glyph ink boxes that the font rasterizer reports.

use vstd::prelude::*;

use crate::batch::BatchError;

verus! {

/// Declares rusttype::Font so that parsed fonts can be held and passed
/// around; values of it are opaque here.
#[verifier::external_type_specification]
#[verifier::external_body]
pub struct ExFont<'a>(rusttype::Font<'a>);

/// Whether `rusttype` accepts these bytes as a font.
pub uninterp spec fn font_parses(data: Seq<u8>) -> bool;

/// An immutable, shareable handle to a parsed font, loaded once per batch.
/// Its view is the byte buffer it was parsed from.
pub struct FontHandle {
    inner: rusttype::Font<'static>,
    data: Ghost<Seq<u8>>,
}

impl View for FontHandle {
    type V = Seq<u8>;

    closed spec fn view(&self) -> Seq<u8> {
        self.data@
    }
}

impl FontHandle {
    /// The parsed font, for handing to the rasterizer.
    pub(crate) fn raw(&self) -> &rusttype::Font<'static> {
        &self.inner
    }
}

/// Relies on rusttype::Font::try_from_vec: parses the bytes as a font,
/// returning `None` exactly when they are not a valid font.
#[verifier::external_body]
fn font_try_from_vec(data: Vec<u8>) -> (r: Option<rusttype::Font<'static>>)
    ensures
        r is Some <==> font_parses(data@),
{
    rusttype::Font::try_from_vec(data)
}

/// Upper bound on the product of the scale and the character count that the
/// rasterizer is handed: it keeps the caret and pixel-box arithmetic, which
/// the font crates run in plain `i32`, far from the `i32` range for any font
/// with sane metric tables.
pub const MAX_SCALED_TEXT: u64 = 0x400_0000;

/// The line height that the font reports at a uniform scale: the ceiling of
/// ascent minus descent, in pixels. A function of the font bytes and the
/// scale alone.
pub uninterp spec fn line_height_of(data: Seq<u8>, scale: int) -> int;

/// The per-glyph ink boxes of a string laid out left-to-right at a baseline
/// derived from the font's ascent: for each character one entry, `Some((left,
/// right))` with the horizontal pixel extent of the glyph's ink, or `None`
/// for a glyph with no visible ink. A function of the font bytes, the scale
/// and the text alone.
pub uninterp spec fn ink_boxes_of(data: Seq<u8>, scale: int, text: Seq<char>) -> Seq<
    Option<(i32, i32)>,
>;

/// Relies on rusttype::Font::v_metrics: the scaled ascent and descent are
/// determined by the font bytes and the scale.
#[verifier::external_body]
fn line_height_px(font: &FontHandle, scale: u16) -> (h: i32)
    ensures
        h as int == line_height_of(font@, scale as int),
{
    let s = rusttype::Scale::uniform(scale.into());
    let vm = font.inner.v_metrics(s);
    (vm.ascent - vm.descent).ceil() as i32
}

/// Relies on rusttype::Font::layout and PositionedGlyph::pixel_bounding_box:
/// layout yields one glyph per character of the text, and each glyph's pixel
/// bounding box is determined by the font bytes, the scale and the preceding
/// characters. The precondition keeps the caret, which grows with every
/// glyph's advance, inside the `i32` arithmetic the layout runs in. Two
/// residual exposures stay with this trusted boundary, since no precondition
/// over bytes held opaque can name them: a font whose character map points
/// at a glyph beyond its declared glyph count trips an assert inside
/// rusttype's glyph lookup, and one whose declared descent exceeds its
/// ascent scales glyphs by a negative factor, so a reported box may have its
/// edges out of order.
#[verifier::external_body]
fn layout_ink_boxes(font: &FontHandle, scale: u16, text: &str) -> (boxes: Vec<Option<(i32, i32)>>)
    requires
        (scale as int) * (text@.len() as int) <= MAX_SCALED_TEXT as int,
    ensures
        boxes@ == ink_boxes_of(font@, scale as int, text@),
        boxes@.len() == text@.len(),
{
    let s = rusttype::Scale::uniform(scale.into());
    let vm = font.inner.v_metrics(s);
    font.inner
        .layout(text, s, rusttype::point(0u16.into(), vm.ascent))
        .map(|g| g.pixel_bounding_box().map(|b| (b.min.x, b.max.x)))
        .collect()
}

/// Whether any glyph of the laid-out string has visible ink.
pub open spec fn has_ink(boxes: Seq<Option<(i32, i32)>>) -> bool {
    exists|i: int| 0 <= i < boxes.len() && boxes[i] is Some
}

/// The leftmost ink edge over the glyphs with ink; `i32::MAX` when none has
/// any.
pub open spec fn ink_min_left(boxes: Seq<Option<(i32, i32)>>) -> int
    decreases boxes.len(),
{
    if boxes.len() == 0 {
        i32::MAX as int
    } else {
        let prev = ink_min_left(boxes.drop_last());
        match boxes.last() {
            Some(b) => if b.0 < prev {
                b.0 as int
            } else {
                prev
            },
            None => prev,
        }
    }
}

/// The rightmost ink edge over the glyphs with ink; `i32::MIN` when none has
/// any.
pub open spec fn ink_max_right(boxes: Seq<Option<(i32, i32)>>) -> int
    decreases boxes.len(),
{
    if boxes.len() == 0 {
        i32::MIN as int
    } else {
        let prev = ink_max_right(boxes.drop_last());
        match boxes.last() {
            Some(b) => if b.1 > prev {
                b.1 as int
            } else {
                prev
            },
            None => prev,
        }
    }
}

pub open spec fn clamp_to_zero(x: int) -> int {
    if x < 0 {
        0
    } else {
        x
    }
}

/// The pixel extent of a rendered string: width is the span from the leftmost
/// to the rightmost ink edge, height the font's line height; a string with no
/// visible ink measures (0, 0).
pub open spec fn bounds_spec(boxes: Seq<Option<(i32, i32)>>, line_height: int) -> (int, int) {
    if !has_ink(boxes) {
        (0, 0)
    } else {
        (
            clamp_to_zero(ink_max_right(boxes) - ink_min_left(boxes)),
            clamp_to_zero(line_height),
        )
    }
}

/// The pixel extent of a rendered string under a given font and scale.
#[derive(Clone, Copy, Debug, PartialEq, Eq, Structural)]
pub struct TextBounds {
    pub width: u32,
    pub height: u32,
}

/// Compute the tight pixel bounding box of `text` rendered with `font` at a
/// uniform `scale`: glyphs are laid out left-to-right from a baseline given
/// by the font's ascent, and the box is the union of the glyphs' visible
/// ink. The precondition is a machine limit: it keeps the rasterizer's own
/// pixel arithmetic in range.
pub fn calculate_text_size(font: &FontHandle, scale: u16, text: &str) -> (b: TextBounds)
    requires
        (scale as int) * (text@.len() as int) <= MAX_SCALED_TEXT as int,
    ensures
        ({
            let bs = bounds_spec(
                ink_boxes_of(font@, scale as int, text@),
                line_height_of(font@, scale as int),
            );
            b.width == bs.0 && b.height == bs.1
        }),
        text@.len() == 0 ==> b.width == 0 && b.height == 0,
{
    let boxes = layout_ink_boxes(font, scale, text);
    let ghost all = boxes@;
    let n = boxes.len();
    let mut mn: i32 = i32::MAX;
    let mut mx: i32 = i32::MIN;
    let mut found: bool = false;
    for i in 0..n
        invariant
            n == all.len(),
            boxes@ == all,
            mn as int == ink_min_left(all.take(i as int)),
            mx as int == ink_max_right(all.take(i as int)),
            found == has_ink(all.take(i as int)),
    {
        proof {
            assert(all.take(i + 1).drop_last() =~= all.take(i as int));
            assert(all.take(i + 1).last() == all[i as int]);
            if has_ink(all.take(i as int)) {
                let ghost w = choose|j: int|
                    0 <= j < all.take(i as int).len() && all.take(i as int)[j] is Some;
                assert(all.take(i + 1)[w] is Some);
            }
            if all[i as int] is Some {
                assert(all.take(i + 1)[i as int] is Some);
            }
            if !has_ink(all.take(i as int)) && !(all[i as int] is Some) {
                assert forall|j: int|
                    0 <= j < all.take(i + 1).len() implies !(#[trigger] all.take(i + 1)[j]
                    is Some) by {
                    if j < i {
                        assert(all.take(i as int)[j] == all.take(i + 1)[j]);
                    }
                }
            }
        }
        match boxes[i] {
            Some(b) => {
                if b.0 < mn {
                    mn = b.0;
                }
                if b.1 > mx {
                    mx = b.1;
                }
                found = true;
            },
            None => {},
        }
    }
    proof {
        assert(all.take(n as int) =~= all);
    }
    if !found {
        TextBounds { width: 0, height: 0 }
    } else {
        let d: i64 = mx as i64 - mn as i64;
        let width: u32 = if d < 0 {
            0
        } else {
            d as u32
        };
        let lh = line_height_px(font, scale);
        let height: u32 = if lh < 0 {
            0
        } else {
            lh as u32
        };
        TextBounds { width, height }
    }
}

/// The top-left draw position that centers a box of the given bounds on the
/// anchor point.
pub fn draw_origin(anchor_x: i32, anchor_y: i32, bounds: &TextBounds) -> (o: (i64, i64))
    ensures
        o.0 == anchor_x as int - bounds.width as int / 2,
        o.1 == anchor_y as int - bounds.height as int / 2,
{
    (anchor_x as i64 - (bounds.width / 2) as i64, anchor_y as i64 - (bounds.height / 2) as i64)
}

/// Centering is exact under integer division: moving the draw origin back by
/// half the bounds lands on the anchor again.
pub proof fn lemma_origin_centers(anchor_x: int, anchor_y: int, w: int, h: int, ox: int, oy: int)
    requires
        ox == anchor_x - w / 2,
        oy == anchor_y - h / 2,
    ensures
        ox + w / 2 == anchor_x,
        oy + h / 2 == anchor_y,
{
}

/// Parse font bytes into a handle usable for a whole batch.
pub fn load_font(data: Vec<u8>) -> (r: Result<FontHandle, BatchError>)
    ensures
        r is Ok <==> font_parses(data@),
        r is Ok ==> r->Ok_0@ == data@,
        r is Err ==> r->Err_0 == BatchError::FontLoadError,
{
    let ghost bytes = data@;
    match font_try_from_vec(data) {
        Some(f) => Ok(FontHandle { inner: f, data: Ghost(bytes) }),
        None => Err(BatchError::FontLoadError),
    }
}

} // verus!
