//! Painting rectangles of a raster: solid fills and the diagnostic test
//! pattern shown before a host draws.
use vstd::prelude::*;
use vstd::arithmetic::div_mod::{lemma_fundamental_div_mod, lemma_fundamental_div_mod_converse};
use crate::display::{
    encode_color, format_bpp, raster_outcome, validate_raster, write_pixel, RasterError,
    RgbColor, TransferFormat,
};
use crate::waiting::{waiting_color, waiting_pixel_color, WaitingLayout};

verus! {

/// What a painted pixel is coloured by.
#[derive(Clone, Copy, Debug, PartialEq, Eq, Structural)]
pub enum Paint {
    /// One colour everywhere.
    Solid(RgbColor),
    /// The diagnostic pattern of a `width` x `height` raster.
    Diagnostic { width: usize, height: usize },
    /// The waiting screen laid out as given.
    Waiting(WaitingLayout),
}

/// `a - b`, or zero when `b` is larger.
pub open spec fn saturating_sub(a: int, b: int) -> int {
    if a >= b {
        a - b
    } else {
        0
    }
}

/// Width of the coloured border of the diagnostic pattern.
pub const PATTERN_BORDER: usize = 48;
/// Size of the coloured corner squares.
pub const PATTERN_CORNER: usize = 128;
/// Thickness of the centre cross.
pub const PATTERN_CENTER_THICKNESS: usize = 24;
/// Horizontal spacing of the grid lines.
pub const PATTERN_GRID_X_STEP: usize = 180;
/// Vertical spacing of the grid lines.
pub const PATTERN_GRID_Y_STEP: usize = 240;
/// Thickness of the grid lines.
pub const PATTERN_GRID_THICKNESS: usize = 4;

/// The colour of pixel (`x`, `y`) of the diagnostic pattern on a `width` x
/// `height` raster. Later layers win: grid lines over the centre cross,
/// over the corners, over the border (blue left, green bottom, yellow
/// right, red top), over dark gray.
pub open spec fn diagnostic_color(x: int, y: int, width: int, height: int) -> RgbColor {
    let center_x = width / 2;
    let center_y = height / 2;
    let half = (PATTERN_CENTER_THICKNESS / 2) as int;
    let right = x >= saturating_sub(width, PATTERN_CORNER as int);
    let bottom = y >= saturating_sub(height, PATTERN_CORNER as int);
    let left = x < PATTERN_CORNER;
    let top = y < PATTERN_CORNER;
    if x % (PATTERN_GRID_X_STEP as int) < PATTERN_GRID_THICKNESS || y % (
    PATTERN_GRID_Y_STEP as int) < PATTERN_GRID_THICKNESS {
        RgbColor { r: 198, g: 195, b: 198 }
    } else if y >= saturating_sub(center_y, half) && y < center_y + half {
        RgbColor { r: 255, g: 0, b: 255 }
    } else if x >= saturating_sub(center_x, half) && x < center_x + half {
        RgbColor { r: 255, g: 255, b: 255 }
    } else if right && bottom {
        RgbColor { r: 255, g: 166, b: 0 }
    } else if left && bottom {
        RgbColor { r: 255, g: 0, b: 255 }
    } else if right && top {
        RgbColor { r: 0, g: 255, b: 255 }
    } else if left && top {
        RgbColor { r: 255, g: 255, b: 255 }
    } else if x < PATTERN_BORDER {
        RgbColor { r: 0, g: 0, b: 255 }
    } else if y >= saturating_sub(height, PATTERN_BORDER as int) {
        RgbColor { r: 0, g: 255, b: 0 }
    } else if x >= saturating_sub(width, PATTERN_BORDER as int) {
        RgbColor { r: 255, g: 255, b: 0 }
    } else if y < PATTERN_BORDER {
        RgbColor { r: 255, g: 0, b: 0 }
    } else {
        RgbColor { r: 66, g: 65, b: 66 }
    }
}

/// The colour of pixel (`x`, `y`) of the diagnostic pattern on a `width` x
/// `height` raster.
pub fn diagnostic_pattern_color(x: usize, y: usize, width: usize, height: usize) -> (r: RgbColor)
    ensures
        r == diagnostic_color(x as int, y as int, width as int, height as int),
{
    let mut color = RgbColor { r: 66, g: 65, b: 66 };
    if y < PATTERN_BORDER {
        color = RgbColor { r: 255, g: 0, b: 0 };
    }
    if x >= width.saturating_sub(PATTERN_BORDER) {
        color = RgbColor { r: 255, g: 255, b: 0 };
    }
    if y >= height.saturating_sub(PATTERN_BORDER) {
        color = RgbColor { r: 0, g: 255, b: 0 };
    }
    if x < PATTERN_BORDER {
        color = RgbColor { r: 0, g: 0, b: 255 };
    }
    if x < PATTERN_CORNER && y < PATTERN_CORNER {
        color = RgbColor { r: 255, g: 255, b: 255 };
    }
    if x >= width.saturating_sub(PATTERN_CORNER) && y < PATTERN_CORNER {
        color = RgbColor { r: 0, g: 255, b: 255 };
    }
    if x < PATTERN_CORNER && y >= height.saturating_sub(PATTERN_CORNER) {
        color = RgbColor { r: 255, g: 0, b: 255 };
    }
    if x >= width.saturating_sub(PATTERN_CORNER) && y >= height.saturating_sub(PATTERN_CORNER) {
        color = RgbColor { r: 255, g: 166, b: 0 };
    }
    let center_x = width / 2;
    let center_y = height / 2;
    let half = PATTERN_CENTER_THICKNESS / 2;
    if x >= center_x.saturating_sub(half) && x < center_x + half {
        color = RgbColor { r: 255, g: 255, b: 255 };
    }
    if y >= center_y.saturating_sub(half) && y < center_y + half {
        color = RgbColor { r: 255, g: 0, b: 255 };
    }
    if x % PATTERN_GRID_X_STEP < PATTERN_GRID_THICKNESS || y % PATTERN_GRID_Y_STEP
        < PATTERN_GRID_THICKNESS {
        color = RgbColor { r: 198, g: 195, b: 198 };
    }
    color
}

/// The colour `paint` gives pixel (`x`, `y`).
pub open spec fn paint_color(paint: Paint, x: int, y: int) -> RgbColor {
    match paint {
        Paint::Solid(color) => color,
        Paint::Diagnostic { width, height } => diagnostic_color(x, y, width as int, height as int),
        Paint::Waiting(layout) => waiting_color(x, y, layout),
    }
}

/// The colour `paint` gives pixel (`x`, `y`).
fn paint_pixel_color(paint: Paint, x: usize, y: usize) -> (r: RgbColor)
    ensures
        r == paint_color(paint, x as int, y as int),
{
    match paint {
        Paint::Solid(color) => color,
        Paint::Diagnostic { width, height } => diagnostic_pattern_color(x, y, width, height),
        Paint::Waiting(layout) => waiting_pixel_color(x, y, layout),
    }
}

/// The raster after the `w`-pixel-wide rectangle at (`x0`, `y0`) was
/// coloured by `colors` for `rows` full rows and `cols` bytes of the next;
/// every other byte keeps its value from `orig`.
pub open spec fn color_progress(
    orig: Seq<u8>,
    pitch: int,
    format: TransferFormat,
    x0: int,
    y0: int,
    w: int,
    rows: int,
    cols: int,
    colors: spec_fn(int, int) -> RgbColor,
) -> Seq<u8> {
    let bpp = format_bpp(format) as int;
    Seq::new(
        orig.len(),
        |i: int|
            {
                let y = i / pitch;
                let xb = i % pitch - x0 * bpp;
                if pitch > 0 && 0 <= xb < w * bpp && y0 <= y && (y < y0 + rows || (y == y0 + rows
                    && xb < cols)) {
                    encode_color(format, colors(x0 + xb / bpp, y))[xb % bpp]
                } else {
                    orig[i]
                }
            },
    )
}

/// The colours `paint` gives.
pub open spec fn paint_colors(paint: Paint) -> spec_fn(int, int) -> RgbColor {
    |x: int, y: int| paint_color(paint, x, y)
}

/// The raster after the `w` x `h` rectangle at (`x0`, `y0`) was painted.
pub open spec fn painted_rect(
    orig: Seq<u8>,
    pitch: usize,
    format: TransferFormat,
    x0: usize,
    y0: usize,
    w: usize,
    h: usize,
    paint: Paint,
) -> Seq<u8> {
    color_progress(
        orig,
        pitch as int,
        format,
        x0 as int,
        y0 as int,
        w as int,
        h as int,
        0,
        paint_colors(paint),
    )
}

/// A painted rectangle, byte by byte: each byte of a pixel (`x`, `y`) in
/// the rectangle holds that byte of the pixel's encoded colour, and every
/// byte outside the rectangle's pixels keeps its value.
pub proof fn lemma_painted_rect_pixels(
    orig: Seq<u8>,
    pitch: usize,
    format: TransferFormat,
    x0: usize,
    y0: usize,
    w: usize,
    h: usize,
    paint: Paint,
)
    requires
        pitch > 0,
        (x0 + w) * format_bpp(format) <= pitch,
    ensures
        painted_rect(orig, pitch, format, x0, y0, w, h, paint).len() == orig.len(),
        forall|x: int, y: int, k: int|
            #![trigger painted_rect(orig, pitch, format, x0, y0, w, h, paint)[y * pitch + x * format_bpp(format) + k], paint_color(paint, x, y)]
            x0 <= x < x0 + w && y0 <= y < y0 + h && 0 <= k < format_bpp(format) && y * pitch + x
                * format_bpp(format) + k < orig.len() ==> painted_rect(
                orig,
                pitch,
                format,
                x0,
                y0,
                w,
                h,
                paint,
            )[y * pitch + x * format_bpp(format) + k] == encode_color(
                format,
                paint_color(paint, x, y),
            )[k],
        forall|i: int|
            #![trigger painted_rect(orig, pitch, format, x0, y0, w, h, paint)[i]]
            0 <= i < orig.len() && !(y0 <= i / (pitch as int) < y0 + h && x0 * format_bpp(format)
                <= i % (pitch as int) < (x0 + w) * format_bpp(format)) ==> painted_rect(
                orig,
                pitch,
                format,
                x0,
                y0,
                w,
                h,
                paint,
            )[i] == orig[i],
{
    let bpp = format_bpp(format) as int;
    let p = painted_rect(orig, pitch, format, x0, y0, w, h, paint);
    assert forall|x: int, y: int, k: int|
        x0 <= x < x0 + w && y0 <= y < y0 + h && 0 <= k < bpp && y * pitch + x * bpp + k < orig.len()
        implies #[trigger] p[y * pitch + x * bpp + k] == encode_color(format, paint_color(paint, x, y))[k] by {
        let i = y * pitch + x * bpp + k;
        assert(x * bpp + k < pitch) by (nonlinear_arith)
            requires
                x < x0 + w,
                (x0 + w) * bpp <= pitch,
                k < bpp,
                x >= 0,
        ;
        assert(0 <= x * bpp) by (nonlinear_arith)
            requires
                x >= 0,
                bpp >= 0,
        ;
        lemma_fundamental_div_mod_converse(i, pitch as int, y, x * bpp + k);
        let xb = x * bpp + k - x0 * bpp;
        assert(xb == (x - x0) * bpp + k) by (nonlinear_arith)
            requires
                xb == x * bpp + k - x0 * bpp,
        ;
        assert(0 <= xb < w * bpp) by (nonlinear_arith)
            requires
                xb == (x - x0) * bpp + k,
                0 <= x - x0 < w,
                0 <= k < bpp,
        ;
        lemma_fundamental_div_mod_converse(xb, bpp, x - x0, k);
    }
}

/// Colouring the next pixel of a row extends the coloured part by that
/// pixel.
pub(crate) proof fn lemma_color_pixel(
    orig: Seq<u8>,
    pitch: int,
    format: TransferFormat,
    x0: int,
    y0: int,
    w: int,
    rows: int,
    xx: int,
    colors: spec_fn(int, int) -> RgbColor,
    cur: Seq<u8>,
)
    requires
        pitch > 0,
        x0 >= 0,
        y0 >= 0,
        rows >= 0,
        0 <= xx < w,
        (x0 + w) * format_bpp(format) <= pitch,
        (y0 + rows) * pitch + (x0 + xx) * format_bpp(format) + format_bpp(format) <= orig.len(),
        cur == color_progress(
            orig,
            pitch,
            format,
            x0,
            y0,
            w,
            rows,
            xx * format_bpp(format),
            colors,
        ),
    ensures
        ({
            let bpp = format_bpp(format) as int;
            let off = (y0 + rows) * pitch + (x0 + xx) * bpp;
            cur.take(off) + encode_color(format, colors(x0 + xx, y0 + rows))
                + cur.skip(off + bpp) == color_progress(
                orig,
                pitch,
                format,
                x0,
                y0,
                w,
                rows,
                (xx + 1) * bpp,
                colors,
            )
        }),
{
    let bpp = format_bpp(format) as int;
    let y = y0 + rows;
    let off = y * pitch + (x0 + xx) * bpp;
    let enc = encode_color(format, colors(x0 + xx, y));
    let lhs = cur.take(off) + enc + cur.skip(off + bpp);
    let rhs = color_progress(orig, pitch, format, x0, y0, w, rows, (xx + 1) * bpp, colors);
    assert((xx + 1) * bpp == xx * bpp + bpp) by (nonlinear_arith);
    assert((x0 + xx) * bpp == x0 * bpp + xx * bpp) by (nonlinear_arith);
    assert((x0 + xx + 1) * bpp <= (x0 + w) * bpp) by (nonlinear_arith)
        requires
            xx < w,
            bpp > 0,
    ;
    assert(lhs.len() == rhs.len());
    assert forall|i: int| 0 <= i < rhs.len() implies #[trigger] lhs[i] == rhs[i] by {
        lemma_fundamental_div_mod(i, pitch);
        if off <= i < off + bpp {
            let k = i - off;
            lemma_fundamental_div_mod_converse(i, pitch, y, (x0 + xx) * bpp + k);
            lemma_fundamental_div_mod_converse(xx * bpp + k, bpp, xx, k);
            assert(lhs[i] == enc[k]);
        } else {
            let yi = i / pitch;
            let xb = i % pitch - x0 * bpp;
            if yi == y && xx * bpp <= xb < xx * bpp + bpp {
                assert(i == pitch * y + (x0 * bpp + xb));
                assert(pitch * y == y * pitch) by (nonlinear_arith);
                assert(false);
            }
        }
    }
    assert(lhs =~= rhs);
}

/// Colouring a whole row is the same as starting the next one.
pub(crate) proof fn lemma_color_next_row(
    orig: Seq<u8>,
    pitch: int,
    format: TransferFormat,
    x0: int,
    y0: int,
    w: int,
    rows: int,
    colors: spec_fn(int, int) -> RgbColor,
)
    ensures
        color_progress(orig, pitch, format, x0, y0, w, rows, w * format_bpp(format), colors)
            == color_progress(orig, pitch, format, x0, y0, w, rows + 1, 0, colors),
{
    assert(color_progress(orig, pitch, format, x0, y0, w, rows, w * format_bpp(format), colors)
        =~= color_progress(orig, pitch, format, x0, y0, w, rows + 1, 0, colors));
}

/// Paints the `w` x `h` rectangle at (`x0`, `y0`) of a raster that holds it.
pub(crate) fn paint_rect(
    fb: &mut [u8],
    pitch: usize,
    x0: usize,
    y0: usize,
    w: usize,
    h: usize,
    format: TransferFormat,
    paint: Paint,
)
    requires
        (x0 + w) * format_bpp(format) <= pitch,
        (y0 + h) * pitch <= old(fb)@.len(),
    ensures
        final(fb)@ == painted_rect(old(fb)@, pitch, format, x0, y0, w, h, paint),
{
    let bpp = format.bytes_per_pixel();
    let ghost orig = fb@;
    assert(fb@ =~= color_progress(orig, pitch as int, format, x0 as int, y0 as int, w as int, 0, 0, paint_colors(paint)));
    if w == 0 || h == 0 {
        assert(fb@ =~= painted_rect(orig, pitch, format, x0, y0, w, h, paint));
        return;
    }
    assert(pitch > 0) by (nonlinear_arith)
        requires
            (x0 + w) * bpp <= pitch,
            w > 0,
            bpp > 0,
    ;
    let len = fb.len();
    assert(y0 + h <= (y0 + h) * pitch && x0 + w <= (x0 + w) * bpp) by (nonlinear_arith)
        requires
            pitch > 0,
            bpp > 0,
    ;
    let mut yy: usize = 0;
    while yy < h
        invariant
            0 <= yy <= h,
            y0 + h <= usize::MAX,
            x0 + w <= usize::MAX,
            h > 0,
            w > 0,
            pitch > 0,
            bpp == format_bpp(format),
            (x0 + w) * bpp <= pitch,
            (y0 + h) * pitch <= orig.len(),
            fb@.len() == orig.len(),
            fb@ == color_progress(orig, pitch as int, format, x0 as int, y0 as int, w as int, yy as int, 0, paint_colors(paint)),
        decreases h - yy,
    {
        let y = y0 + yy;
        assert(y * pitch + pitch <= (y0 + h) * pitch) by (nonlinear_arith)
            requires
                y < y0 + h,
        ;
        let mut xx: usize = 0;
        while xx < w
            invariant
                0 <= xx <= w,
                x0 + w <= usize::MAX,
                yy < h,
                y == y0 + yy,
                w > 0,
                pitch > 0,
                bpp == format_bpp(format),
                (x0 + w) * bpp <= pitch,
                y * pitch + pitch <= orig.len(),
                fb@.len() == orig.len(),
                fb@ == color_progress(orig, pitch as int, format, x0 as int, y0 as int, w as int, yy as int, xx * bpp, paint_colors(paint)),
            decreases w - xx,
        {
            let x = x0 + xx;
            assert(x * bpp + bpp <= (x0 + w) * bpp) by (nonlinear_arith)
                requires
                    x < x0 + w,
                    bpp > 0,
            ;
            let color = paint_pixel_color(paint, x, y);
            proof {
                lemma_color_pixel(orig, pitch as int, format, x0 as int, y0 as int, w as int, yy as int, xx as int, paint_colors(paint), fb@);
            }
            let written = write_pixel(fb, pitch, x, y, format, color);
            assert(written is Ok);
            xx = xx + 1;
        }
        proof {
            lemma_color_next_row(orig, pitch as int, format, x0 as int, y0 as int, w as int, yy as int, paint_colors(paint));
        }
        yy = yy + 1;
    }
    assert(fb@ =~= painted_rect(orig, pitch, format, x0, y0, w, h, paint));
}

/// Fills every pixel of a `width` x `height` raster with `color`, once the
/// raster is checked; bytes past a row's pixels are kept.
pub fn fill_solid(
    fb: &mut [u8],
    pitch: usize,
    width: usize,
    height: usize,
    format: TransferFormat,
    color: RgbColor,
) -> (r: Result<(), RasterError>)
    ensures
        r == raster_outcome(old(fb)@.len(), pitch, width, height, format_bpp(format)),
        r is Err ==> final(fb)@ == old(fb)@,
        r is Ok ==> final(fb)@ == painted_rect(
            old(fb)@,
            pitch,
            format,
            0,
            0,
            width,
            height,
            Paint::Solid(color),
        ),
{
    validate_raster(fb, pitch, width, height, format.bytes_per_pixel())?;
    assert((0 + height) * pitch == pitch * height) by (nonlinear_arith);
    paint_rect(fb, pitch, 0, 0, width, height, format, Paint::Solid(color));
    Ok(())
}

/// Why a diagnostic rectangle was refused.
#[derive(Clone, Copy, Debug, PartialEq, Eq, Structural)]
pub enum PatternError {
    RectXBeyondWidth { x: u32, width: u32 },
    RectYBeyondHeight { y: u32, height: u32 },
    RectXOverflow,
    RectWidthBeyondWidth { rect_width: u32, x: u32, width: u32 },
    RectYOverflow,
    RectHeightBeyondHeight { rect_height: u32, y: u32, height: u32 },
    Raster(RasterError),
}

/// Whether a diagnostic rectangle is accepted, and if not, the first check
/// that fails.
pub open spec fn pattern_rect_outcome(
    len: nat,
    pitch: usize,
    fb_width: u32,
    fb_height: u32,
    rect_x: u32,
    rect_y: u32,
    rect_width: u32,
    rect_height: u32,
    format: TransferFormat,
) -> Result<(), PatternError> {
    if rect_x > fb_width {
        Err(PatternError::RectXBeyondWidth { x: rect_x, width: fb_width })
    } else if rect_y > fb_height {
        Err(PatternError::RectYBeyondHeight { y: rect_y, height: fb_height })
    } else if rect_x + rect_width > u32::MAX {
        Err(PatternError::RectXOverflow)
    } else if rect_x + rect_width > fb_width {
        Err(PatternError::RectWidthBeyondWidth { rect_width, x: rect_x, width: fb_width })
    } else if rect_y + rect_height > u32::MAX {
        Err(PatternError::RectYOverflow)
    } else if rect_y + rect_height > fb_height {
        Err(PatternError::RectHeightBeyondHeight { rect_height, y: rect_y, height: fb_height })
    } else {
        match raster_outcome(len, pitch, fb_width as usize, fb_height as usize, format_bpp(format)) {
            Err(e) => Err(PatternError::Raster(e)),
            Ok(()) => Ok(()),
        }
    }
}

/// Paints the diagnostic pattern of the whole raster into one rectangle of
/// it, once the rectangle and the raster are checked.
pub fn fill_diagnostic_pattern_rect(
    fb: &mut [u8],
    pitch: usize,
    fb_width: u32,
    fb_height: u32,
    rect_x: u32,
    rect_y: u32,
    rect_width: u32,
    rect_height: u32,
    format: TransferFormat,
) -> (r: Result<(), PatternError>)
    ensures
        r == pattern_rect_outcome(
            old(fb)@.len(),
            pitch,
            fb_width,
            fb_height,
            rect_x,
            rect_y,
            rect_width,
            rect_height,
            format,
        ),
        r is Err ==> final(fb)@ == old(fb)@,
        r is Ok ==> final(fb)@ == painted_rect(
            old(fb)@,
            pitch,
            format,
            rect_x as usize,
            rect_y as usize,
            rect_width as usize,
            rect_height as usize,
            Paint::Diagnostic { width: fb_width as usize, height: fb_height as usize },
        ),
        r is Ok ==> forall|x: int, y: int, k: int|
            #![trigger final(fb)@[y * pitch + x * format_bpp(format) + k], diagnostic_color(x, y, fb_width as int, fb_height as int)]
            rect_x <= x < rect_x + rect_width && rect_y <= y < rect_y + rect_height && 0 <= k
                < format_bpp(format) ==> final(fb)@[y * pitch + x * format_bpp(format) + k]
                == encode_color(format, diagnostic_color(x, y, fb_width as int, fb_height as int))[k],
        r is Ok ==> forall|i: int|
            #![trigger final(fb)@[i]]
            0 <= i < old(fb)@.len() && !(rect_y <= i / (pitch as int) < rect_y + rect_height
                && rect_x * format_bpp(format) <= i % (pitch as int) < (rect_x + rect_width)
                * format_bpp(format)) ==> final(fb)@[i] == old(fb)@[i],
{
    if rect_x > fb_width {
        return Err(PatternError::RectXBeyondWidth { x: rect_x, width: fb_width });
    }
    if rect_y > fb_height {
        return Err(PatternError::RectYBeyondHeight { y: rect_y, height: fb_height });
    }
    let x_end = match rect_x.checked_add(rect_width) {
        Some(v) => v,
        None => return Err(PatternError::RectXOverflow),
    };
    if x_end > fb_width {
        return Err(
            PatternError::RectWidthBeyondWidth { rect_width, x: rect_x, width: fb_width },
        );
    }
    let y_end = match rect_y.checked_add(rect_height) {
        Some(v) => v,
        None => return Err(PatternError::RectYOverflow),
    };
    if y_end > fb_height {
        return Err(
            PatternError::RectHeightBeyondHeight { rect_height, y: rect_y, height: fb_height },
        );
    }
    let width = fb_width as usize;
    let height = fb_height as usize;
    let bpp = format.bytes_per_pixel();
    match validate_raster(fb, pitch, width, height, bpp) {
        Ok(()) => {},
        Err(e) => return Err(PatternError::Raster(e)),
    }
    assert((rect_x + rect_width) * bpp <= width * bpp) by (nonlinear_arith)
        requires
            rect_x + rect_width <= width,
    ;
    assert((rect_y + rect_height) * pitch <= pitch * height) by (nonlinear_arith)
        requires
            rect_y + rect_height <= height,
    ;
    paint_rect(
        fb,
        pitch,
        rect_x as usize,
        rect_y as usize,
        rect_width as usize,
        rect_height as usize,
        format,
        Paint::Diagnostic { width, height },
    );
    proof {
        let paint = Paint::Diagnostic { width, height };
        assert(pitch > 0) by (nonlinear_arith)
            requires
                width > 0,
                bpp > 0,
                pitch >= width * bpp,
        ;
        lemma_painted_rect_pixels(
            old(fb)@,
            pitch,
            format,
            rect_x as usize,
            rect_y as usize,
            rect_width as usize,
            rect_height as usize,
            paint,
        );
        assert forall|x: int, y: int, k: int|
            rect_x <= x < rect_x + rect_width && rect_y <= y < rect_y + rect_height && 0 <= k < bpp
            implies #[trigger] fb@[y * pitch + x * format_bpp(format) + k] == encode_color(
                format,
                diagnostic_color(x, y, fb_width as int, fb_height as int),
            )[k] by {
            assert(y * pitch + x * bpp + k < (y + 1) * pitch) by (nonlinear_arith)
                requires
                    x < width,
                    k < bpp,
                    width * bpp <= pitch,
                    x >= 0,
            ;
            assert((y + 1) * pitch <= height * pitch) by (nonlinear_arith)
                requires
                    y + 1 <= height,
                    pitch >= 0,
            ;
            assert(paint_color(paint, x, y) == diagnostic_color(x, y, fb_width as int, fb_height as int));
        }
    }
    Ok(())
}

} // verus!
