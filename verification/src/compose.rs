//! The image compositor: decode a template into an 8-bit RGBA buffer, draw
//! one string at a computed origin, and encode the result as PNG bytes.
//! Reading the template file and writing the output file are the caller's
//! business; this module works on bytes.

use vstd::prelude::*;
use vstd::string::StringExecFns;

use crate::color::Rgba8;
use crate::fontmetrics::FontHandle;
use crate::fontmetrics::bounds_spec;
use crate::fontmetrics::calculate_text_size;
use crate::fontmetrics::draw_origin;
use crate::fontmetrics::ink_boxes_of;
use crate::fontmetrics::line_height_of;
use crate::fontmetrics::MAX_SCALED_TEXT;

verus! {

/// An in-memory 8-bit RGBA image buffer. Verus cannot take the buffer
/// type's pixel-trait bound, so the buffer is held opaquely and described
/// through `image_rep` alone.
#[verifier::external_body]
pub struct Canvas {
    inner: image::ImageBuffer<image::Rgba<u8>, Vec<u8>>,
}

/// The content of an RGBA image buffer: its dimensions and its pixel values,
/// abstracted as one sequence.
pub uninterp spec fn image_rep(img: Canvas) -> Seq<u8>;

/// What decoding a byte buffer yields: the content of the resulting 8-bit
/// RGBA image, or `None` when the bytes are not a decodable raster image. A
/// function of the bytes alone.
pub uninterp spec fn decoded_rgba(bytes: Seq<u8>) -> Option<Seq<u8>>;

/// The content of an image after one string is drawn onto it, alpha-blended
/// at the given position, scale, font and color. A function of its arguments
/// alone.
pub uninterp spec fn drawn_rep(
    rep: Seq<u8>,
    r: u8,
    g: u8,
    b: u8,
    a: u8,
    x: int,
    y: int,
    scale: int,
    font: Seq<u8>,
    text: Seq<char>,
) -> Seq<u8>;

/// The PNG encoding of an image's content, or `None` when encoding fails. A
/// function of the content alone.
pub uninterp spec fn png_encoding(rep: Seq<u8>) -> Option<Seq<u8>>;

/// Relies on image::load_from_memory and DynamicImage::to_rgba8: the bytes
/// decode to an image, converted to 8-bit RGBA, exactly when they are a
/// readable raster format.
#[verifier::external_body]
fn decode_rgba(bytes: &[u8]) -> (r: Option<Canvas>)
    ensures
        match r {
            Some(img) => decoded_rgba(bytes@) == Some(image_rep(img)),
            None => decoded_rgba(bytes@) is None,
        },
{
    image::load_from_memory(bytes).ok().map(|i| Canvas { inner: i.to_rgba8() })
}

/// The band of draw coordinates handed to the rasterizer: wide enough for
/// any decodable image, and narrow enough that adding a pixel offset to a
/// coordinate in it cannot leave the `i32` range.
pub const DRAW_COORD_LIMIT: i32 = 0x4000_0000;

/// Relies on imageproc::drawing::draw_text_mut: draws the glyphs of `text`
/// onto the buffer, alpha-blending the color; deterministic in the buffer,
/// color, position, scale, font and text. The preconditions keep the
/// unchecked `i32` sums of draw coordinate and glyph pixel offset, and the
/// caret arithmetic of the layout the call runs internally, inside `i32`.
#[verifier::external_body]
fn draw_text_rgba(
    img: &mut Canvas,
    color: &Rgba8,
    x: i32,
    y: i32,
    scale: u16,
    font: &FontHandle,
    text: &str,
)
    requires
        -(DRAW_COORD_LIMIT as int) <= x as int <= DRAW_COORD_LIMIT as int,
        -(DRAW_COORD_LIMIT as int) <= y as int <= DRAW_COORD_LIMIT as int,
        (scale as int) * (text@.len() as int) <= MAX_SCALED_TEXT as int,
    ensures
        image_rep(*final(img)) == drawn_rep(
            image_rep(*old(img)),
            color.r,
            color.g,
            color.b,
            color.a,
            x as int,
            y as int,
            scale as int,
            font@,
            text@,
        ),
{
    let s = rusttype::Scale::uniform(scale.into());
    imageproc::drawing::draw_text_mut(
        &mut img.inner,
        image::Rgba([color.r, color.g, color.b, color.a]),
        x,
        y,
        s,
        font.raw(),
        text,
    );
}

/// Relies on ImageBuffer::write_to with the PNG format: encodes the buffer's
/// dimensions and pixels to PNG bytes in memory; deterministic in the
/// buffer's content.
#[verifier::external_body]
fn encode_png(img: &Canvas) -> (r: Option<Vec<u8>>)
    ensures
        match r {
            Some(v) => png_encoding(image_rep(*img)) == Some(v@),
            None => png_encoding(image_rep(*img)) is None,
        },
{
    let mut cur = std::io::Cursor::new(Vec::new());
    match img.inner.write_to(&mut cur, image::ImageOutputFormat::Png) {
        Ok(()) => Some(cur.into_inner()),
        Err(_) => None,
    }
}

/// Why one item failed to render. A failed item is recorded and skipped; it
/// never stops the other items.
#[derive(Clone, Copy, Debug, PartialEq, Eq, Structural)]
pub enum RenderError {
    /// The template bytes are not a decodable raster image.
    TemplateLoad,
    /// The composed image could not be encoded as PNG.
    Encode,
    /// The text is too long for the requested scale to rasterize safely.
    TextTooLarge,
}

/// The description an item's failure is reported with.
pub open spec fn render_error_text(e: RenderError) -> Seq<char> {
    match e {
        RenderError::TemplateLoad => "failed to load template image"@,
        RenderError::Encode => "failed to encode output image"@,
        RenderError::TextTooLarge => "text too large to render at this scale"@,
    }
}

impl RenderError {
    /// A short description for reporting.
    pub fn message(&self) -> (r: String)
        ensures
            r@ == render_error_text(*self),
    {
        match self {
            RenderError::TemplateLoad => String::from_str("failed to load template image"),
            RenderError::Encode => String::from_str("failed to encode output image"),
            RenderError::TextTooLarge => String::from_str(
                "text too large to render at this scale",
            ),
        }
    }
}

/// The parameters shared, unmodified, across every item of a batch.
pub struct RenderSpec {
    /// The pixel coordinate the text is centered on.
    pub anchor_x: i32,
    pub anchor_y: i32,
    /// The uniform font scale, in whole points; a caller holding a
    /// fractional size rounds it to whole points before it reaches the
    /// library.
    pub scale: u16,
    pub color: Rgba8,
    /// The font handle, loaded once per batch.
    pub font: FontHandle,
}

/// An out-of-range draw coordinate clamped into the band the rasterizer is
/// handed.
pub open spec fn sat_draw_coord(v: int) -> int {
    if v < -(DRAW_COORD_LIMIT as int) {
        -(DRAW_COORD_LIMIT as int)
    } else if v > DRAW_COORD_LIMIT as int {
        DRAW_COORD_LIMIT as int
    } else {
        v
    }
}

fn sat_to_draw_coord(v: i64) -> (r: i32)
    ensures
        r as int == sat_draw_coord(v as int),
{
    if v < -(DRAW_COORD_LIMIT as i64) {
        -DRAW_COORD_LIMIT
    } else if v > DRAW_COORD_LIMIT as i64 {
        DRAW_COORD_LIMIT
    } else {
        v as i32
    }
}

/// What compositing one certificate yields, as a function of the template
/// bytes, the text and the shared parameters: the text's bounding box is
/// centered on the anchor, drawn, and the image is encoded as PNG.
pub open spec fn compose_spec(
    template: Seq<u8>,
    text: Seq<char>,
    font: Seq<u8>,
    scale: int,
    anchor_x: int,
    anchor_y: int,
    color: Rgba8,
) -> Result<Seq<u8>, RenderError> {
    match decoded_rgba(template) {
        None => Err(RenderError::TemplateLoad),
        Some(rep) => {
            let bs = bounds_spec(ink_boxes_of(font, scale, text), line_height_of(font, scale));
            let ox = sat_draw_coord(anchor_x - bs.0 / 2);
            let oy = sat_draw_coord(anchor_y - bs.1 / 2);
            match png_encoding(
                drawn_rep(rep, color.r, color.g, color.b, color.a, ox, oy, scale, font, text),
            ) {
                None => Err(RenderError::Encode),
                Some(out) => Ok(out),
            }
        },
    }
}

/// Render one certificate: decode the template, center `name` on the anchor,
/// draw it with the batch's font, scale and color, and return the PNG bytes.
/// The precondition is a machine limit on the rasterizer's arithmetic;
/// `render_payload` makes the same call with the limit tested instead.
pub fn compose_certificate(template: &Vec<u8>, name: &str, rspec: &RenderSpec) -> (r: Result<
    Vec<u8>,
    RenderError,
>)
    requires
        (rspec.scale as int) * (name@.len() as int) <= MAX_SCALED_TEXT as int,
    ensures
        match r {
            Ok(v) => compose_spec(
                template@,
                name@,
                rspec.font@,
                rspec.scale as int,
                rspec.anchor_x as int,
                rspec.anchor_y as int,
                rspec.color,
            ) == Ok::<Seq<u8>, RenderError>(v@),
            Err(e) => compose_spec(
                template@,
                name@,
                rspec.font@,
                rspec.scale as int,
                rspec.anchor_x as int,
                rspec.anchor_y as int,
                rspec.color,
            ) == Err::<Seq<u8>, RenderError>(e),
        },
{
    match decode_rgba(template.as_slice()) {
        None => Err(RenderError::TemplateLoad),
        Some(mut img) => {
            let b = calculate_text_size(&rspec.font, rspec.scale, name);
            let o = draw_origin(rspec.anchor_x, rspec.anchor_y, &b);
            let ox = sat_to_draw_coord(o.0);
            let oy = sat_to_draw_coord(o.1);
            draw_text_rgba(&mut img, &rspec.color, ox, oy, rspec.scale, &rspec.font, name);
            match encode_png(&img) {
                Some(v) => Ok(v),
                None => Err(RenderError::Encode),
            }
        },
    }
}

/// Render one item from the template bytes its worker read, or record why it
/// cannot be rendered: a worker whose read failed hands `None` and gets the
/// template-load failure, exactly as an undecodable template does, and a
/// text too long for its scale is rejected rather than handed to the
/// rasterizer.
pub fn render_payload(template: Option<&Vec<u8>>, name: &str, rspec: &RenderSpec) -> (r: Result<
    Vec<u8>,
    RenderError,
>)
    ensures
        match template {
            None => r == Err::<Vec<u8>, RenderError>(RenderError::TemplateLoad),
            Some(t) => {
                if (rspec.scale as int) * (name@.len() as int) > MAX_SCALED_TEXT as int {
                    r == Err::<Vec<u8>, RenderError>(RenderError::TextTooLarge)
                } else {
                    match r {
                        Ok(v) => compose_spec(
                            t@,
                            name@,
                            rspec.font@,
                            rspec.scale as int,
                            rspec.anchor_x as int,
                            rspec.anchor_y as int,
                            rspec.color,
                        ) == Ok::<Seq<u8>, RenderError>(v@),
                        Err(e) => compose_spec(
                            t@,
                            name@,
                            rspec.font@,
                            rspec.scale as int,
                            rspec.anchor_x as int,
                            rspec.anchor_y as int,
                            rspec.color,
                        ) == Err::<Seq<u8>, RenderError>(e),
                    }
                }
            },
        },
{
    match template {
        None => Err(RenderError::TemplateLoad),
        Some(t) => {
            let n = name.unicode_len();
            proof {
                assert((rspec.scale as int) * (n as int) <= 65535int
                    * 18446744073709551615int) by (nonlinear_arith)
                    requires
                        rspec.scale as int <= 65535,
                        n as int <= 18446744073709551615,
                ;
            }
            let product: u128 = (rspec.scale as u128) * (n as u128);
            if product > MAX_SCALED_TEXT as u128 {
                Err(RenderError::TextTooLarge)
            } else {
                compose_certificate(t, name, rspec)
            }
        },
    }
}

/// Rendering is deterministic: the same template, name and parameters yield
/// the same bytes, every time.
pub proof fn lemma_render_deterministic(
    template: Seq<u8>,
    text: Seq<char>,
    font: Seq<u8>,
    scale: int,
    anchor_x: int,
    anchor_y: int,
    color: Rgba8,
    r1: Result<Seq<u8>, RenderError>,
    r2: Result<Seq<u8>, RenderError>,
)
    requires
        r1 == compose_spec(template, text, font, scale, anchor_x, anchor_y, color),
        r2 == compose_spec(template, text, font, scale, anchor_x, anchor_y, color),
    ensures
        r1 == r2,
{
}

} // verus!
