//! The waiting screen shown until a host draws: a small text-art scene in
//! bitmap glyphs, scaled as large as fits and centred, with "WAITING" in
//! green and the rest in white on black.
use vstd::prelude::*;
use vstd::string::StrSliceExecFns;
use crate::display::{format_bpp, raster_outcome, validate_raster, RasterError, RgbColor, TransferFormat};
use crate::paint::{fill_solid, lemma_painted_rect_pixels, paint_color, paint_rect, painted_rect, Paint};

verus! {

/// The RGB565 value of the highlighted text.
pub const RGB565_GREEN: u16 = 0x07e0;
/// The RGB565 value of the rest of the scene.
pub const RGB565_WHITE: u16 = 0xffff;
/// Lines of the scene.
pub const WAITING_LINE_COUNT: usize = 5;
/// The line holding the highlighted text.
pub const WAITING_HIGHLIGHT_LINE: usize = 1;
/// Glyph width in scene units.
pub const WAITING_GLYPH_WIDTH: usize = 5;
/// Glyph height in scene units.
pub const WAITING_GLYPH_HEIGHT: usize = 7;
/// Units between glyphs on a line.
pub const WAITING_GLYPH_SPACING: usize = 1;
/// Units between lines.
pub const WAITING_LINE_SPACING: usize = 1;

/// Line `i` of the scene.
pub open spec fn scene_line(i: int) -> Seq<char> {
    if i == 0 {
        "   _~_        .------------."@
    } else if i == 1 {
        "  (o o)       |  WAITING   |"@
    } else if i == 2 {
        " /  V  \\      '------------'"@
    } else if i == 3 {
        "/(  _  )\\         |    |"@
    } else {
        "  ^^ ^^           |____|"@
    }
}

/// The highlighted text.
pub open spec fn highlight_text() -> Seq<char> {
    "WAITING"@
}

/// Line `index` of the scene.
pub fn waiting_screen_line(index: usize) -> (r: &'static str)
    requires
        index < WAITING_LINE_COUNT,
    ensures
        r@ == scene_line(index as int),
{
    if index == 0 {
        "   _~_        .------------."
    } else if index == 1 {
        "  (o o)       |  WAITING   |"
    } else if index == 2 {
        " /  V  \\      '------------'"
    } else if index == 3 {
        "/(  _  )\\         |    |"
    } else {
        "  ^^ ^^           |____|"
    }
}

/// The rows of the glyph for `ch`, top first; bit 4 is the leftmost column.
pub open spec fn scene_glyph(ch: char) -> Option<Seq<u8>> {
    if ch == ' ' {
        Some(seq![0u8, 0, 0, 0, 0, 0, 0])
    } else if ch == '_' {
        Some(seq![0u8, 0, 0, 0, 0, 0, 0x1f])
    } else if ch == '~' {
        Some(seq![0u8, 0x0a, 0x15, 0, 0, 0, 0])
    } else if ch == '(' {
        Some(seq![0x06u8, 0x08, 0x10, 0x10, 0x10, 0x08, 0x06])
    } else if ch == ')' {
        Some(seq![0x0cu8, 0x02, 0x01, 0x01, 0x01, 0x02, 0x0c])
    } else if ch == 'o' {
        Some(seq![0u8, 0x0e, 0x11, 0x11, 0x11, 0x0e, 0])
    } else if ch == '/' {
        Some(seq![0x01u8, 0x02, 0x04, 0x08, 0x10, 0, 0])
    } else if ch == '\\' {
        Some(seq![0x10u8, 0x08, 0x04, 0x02, 0x01, 0, 0])
    } else if ch == 'V' {
        Some(seq![0x11u8, 0x11, 0x11, 0x11, 0x0a, 0x0a, 0x04])
    } else if ch == '^' {
        Some(seq![0x04u8, 0x0a, 0x11, 0, 0, 0, 0])
    } else if ch == '|' {
        Some(seq![0x04u8, 0x04, 0x04, 0x04, 0x04, 0x04, 0x04])
    } else if ch == '.' {
        Some(seq![0u8, 0, 0, 0, 0, 0x04, 0x04])
    } else if ch == '-' {
        Some(seq![0u8, 0, 0, 0x1f, 0, 0, 0])
    } else if ch == '\'' {
        Some(seq![0x04u8, 0x04, 0x02, 0, 0, 0, 0])
    } else if ch == 'A' {
        Some(seq![0x0eu8, 0x11, 0x11, 0x1f, 0x11, 0x11, 0x11])
    } else if ch == 'G' {
        Some(seq![0x0eu8, 0x11, 0x10, 0x17, 0x11, 0x11, 0x0e])
    } else if ch == 'I' {
        Some(seq![0x1fu8, 0x04, 0x04, 0x04, 0x04, 0x04, 0x1f])
    } else if ch == 'N' {
        Some(seq![0x11u8, 0x19, 0x15, 0x13, 0x11, 0x11, 0x11])
    } else if ch == 'T' {
        Some(seq![0x1fu8, 0x04, 0x04, 0x04, 0x04, 0x04, 0x04])
    } else if ch == 'W' {
        Some(seq![0x11u8, 0x11, 0x11, 0x15, 0x15, 0x15, 0x0a])
    } else {
        None
    }
}

/// The glyph for `ch`, if the scene has one.
pub fn waiting_scene_glyph(ch: char) -> (r: Option<[u8; 7]>)
    ensures
        match r {
            Some(rows) => scene_glyph(ch) == Some(rows@),
            None => scene_glyph(ch) is None,
        },
{
    let rows: [u8; 7] = if ch == ' ' {
        [0, 0, 0, 0, 0, 0, 0]
    } else if ch == '_' {
        [0, 0, 0, 0, 0, 0, 0b11111]
    } else if ch == '~' {
        [0, 0b01010, 0b10101, 0, 0, 0, 0]
    } else if ch == '(' {
        [0b00110, 0b01000, 0b10000, 0b10000, 0b10000, 0b01000, 0b00110]
    } else if ch == ')' {
        [0b01100, 0b00010, 0b00001, 0b00001, 0b00001, 0b00010, 0b01100]
    } else if ch == 'o' {
        [0, 0b01110, 0b10001, 0b10001, 0b10001, 0b01110, 0]
    } else if ch == '/' {
        [0b00001, 0b00010, 0b00100, 0b01000, 0b10000, 0, 0]
    } else if ch == '\\' {
        [0b10000, 0b01000, 0b00100, 0b00010, 0b00001, 0, 0]
    } else if ch == 'V' {
        [0b10001, 0b10001, 0b10001, 0b10001, 0b01010, 0b01010, 0b00100]
    } else if ch == '^' {
        [0b00100, 0b01010, 0b10001, 0, 0, 0, 0]
    } else if ch == '|' {
        [0b00100, 0b00100, 0b00100, 0b00100, 0b00100, 0b00100, 0b00100]
    } else if ch == '.' {
        [0, 0, 0, 0, 0, 0b00100, 0b00100]
    } else if ch == '-' {
        [0, 0, 0, 0b11111, 0, 0, 0]
    } else if ch == '\'' {
        [0b00100, 0b00100, 0b00010, 0, 0, 0, 0]
    } else if ch == 'A' {
        [0b01110, 0b10001, 0b10001, 0b11111, 0b10001, 0b10001, 0b10001]
    } else if ch == 'G' {
        [0b01110, 0b10001, 0b10000, 0b10111, 0b10001, 0b10001, 0b01110]
    } else if ch == 'I' {
        [0b11111, 0b00100, 0b00100, 0b00100, 0b00100, 0b00100, 0b11111]
    } else if ch == 'N' {
        [0b10001, 0b11001, 0b10101, 0b10011, 0b10001, 0b10001, 0b10001]
    } else if ch == 'T' {
        [0b11111, 0b00100, 0b00100, 0b00100, 0b00100, 0b00100, 0b00100]
    } else if ch == 'W' {
        [0b10001, 0b10001, 0b10001, 0b10101, 0b10101, 0b10101, 0b01010]
    } else {
        return None;
    };
    assert(scene_glyph(ch) == Some(rows@));
    Some(rows)
}

/// Where and how large the scene is drawn, and which columns of the
/// highlight line are highlighted.
#[derive(Clone, Copy, Debug, PartialEq, Eq, Structural)]
pub struct WaitingLayout {
    pub scale: usize,
    pub origin_x: usize,
    pub origin_y: usize,
    pub highlight_start: usize,
    pub highlight_end: usize,
}

/// The longest line of the scene, in characters.
pub open spec fn scene_max_cols() -> int {
    let a = scene_line(0).len() as int;
    let b = scene_line(1).len() as int;
    let c = scene_line(2).len() as int;
    let d = scene_line(3).len() as int;
    let e = scene_line(4).len() as int;
    let ab = if a >= b { a } else { b };
    let abc = if ab >= c { ab } else { c };
    let abcd = if abc >= d { abc } else { d };
    if abcd >= e { abcd } else { e }
}

/// The scene's width in units: glyphs with spacing between them.
pub open spec fn scene_width_units() -> int {
    scene_max_cols() * WAITING_GLYPH_WIDTH + (scene_max_cols() - 1) * WAITING_GLYPH_SPACING
}

/// The scene's height in units: lines with spacing between them.
pub open spec fn scene_height_units() -> int {
    WAITING_LINE_COUNT * WAITING_GLYPH_HEIGHT + (WAITING_LINE_COUNT - 1) * WAITING_LINE_SPACING
}

/// Where the highlighted text starts on its line.
pub open spec fn highlight_start() -> int {
    17
}

/// The highlighted text starts where its line first holds it.
pub proof fn lemma_highlight_start()
    ensures
        scene_line(WAITING_HIGHLIGHT_LINE as int).subrange(
            highlight_start(),
            highlight_start() + highlight_text().len(),
        ) == highlight_text(),
        forall|i: int|
            0 <= i < highlight_start() ==> #[trigger] scene_line(WAITING_HIGHLIGHT_LINE as int)[i]
                != highlight_text()[0],
        scene_max_cols() == 28,
        scene_line(WAITING_HIGHLIGHT_LINE as int).len() == 28,
        highlight_text().len() == 7,
{
    reveal_strlit("  (o o)       |  WAITING   |");
    reveal_strlit("WAITING");
    reveal_strlit("   _~_        .------------.");
    reveal_strlit(" /  V  \\      '------------'");
    reveal_strlit("/(  _  )\\         |    |");
    reveal_strlit("  ^^ ^^           |____|");
    assert(scene_line(1).subrange(17, 24) =~= highlight_text());
}

/// Every character of the scene has a glyph.
pub proof fn lemma_scene_glyphs_complete(line: int, col: int)
    requires
        0 <= line < WAITING_LINE_COUNT,
        0 <= col < scene_line(line).len(),
    ensures
        scene_glyph(scene_line(line)[col]) is Some,
{
    reveal_strlit("   _~_        .------------.");
    reveal_strlit("  (o o)       |  WAITING   |");
    reveal_strlit(" /  V  \\      '------------'");
    reveal_strlit("/(  _  )\\         |    |");
    reveal_strlit("  ^^ ^^           |____|");
}

/// The largest whole scale at which the scene fits, at least one.
pub open spec fn waiting_scale(width: int, height: int) -> int {
    let by_width = width / scene_width_units();
    let by_height = height / scene_height_units();
    let fit = if by_width <= by_height { by_width } else { by_height };
    if fit >= 1 { fit } else { 1 }
}

/// Whether the scene fits on a `width` x `height` raster at scale one.
pub open spec fn waiting_scene_fits(width: int, height: int) -> bool {
    width >= scene_width_units() && height >= scene_height_units()
}

/// The layout of the scene on a `width` x `height` raster.
pub open spec fn waiting_layout(width: int, height: int) -> WaitingLayout {
    let scale = waiting_scale(width, height);
    WaitingLayout {
        scale: scale as usize,
        origin_x: ((width - scene_width_units() * scale) / 2) as usize,
        origin_y: ((height - scene_height_units() * scale) / 2) as usize,
        highlight_start: highlight_start() as usize,
        highlight_end: (highlight_start() + highlight_text().len()) as usize,
    }
}

/// The colour of pixel (`x`, `y`) of the scene: a set glyph bit of the
/// character that covers it is green in the highlight and white elsewhere;
/// everything else is black.
pub open spec fn waiting_color(x: int, y: int, layout: WaitingLayout) -> RgbColor {
    let black = RgbColor { r: 0, g: 0, b: 0 };
    if x < layout.origin_x || y < layout.origin_y || layout.scale == 0 {
        black
    } else {
        let ux = (x - layout.origin_x) / (layout.scale as int);
        let uy = (y - layout.origin_y) / (layout.scale as int);
        let line = uy / ((WAITING_GLYPH_HEIGHT + WAITING_LINE_SPACING) as int);
        let glyph_row = uy % ((WAITING_GLYPH_HEIGHT + WAITING_LINE_SPACING) as int);
        let col = ux / ((WAITING_GLYPH_WIDTH + WAITING_GLYPH_SPACING) as int);
        let glyph_col = ux % ((WAITING_GLYPH_WIDTH + WAITING_GLYPH_SPACING) as int);
        if line < WAITING_LINE_COUNT && glyph_row < WAITING_GLYPH_HEIGHT && glyph_col
            < WAITING_GLYPH_WIDTH && col < scene_line(line).len() {
            match scene_glyph(scene_line(line)[col]) {
                Some(rows) => if rows[glyph_row] & (1u8 << ((WAITING_GLYPH_WIDTH - 1) - glyph_col) as u8)
                    != 0 {
                    if line == WAITING_HIGHLIGHT_LINE && layout.highlight_start <= col
                        < layout.highlight_end {
                        RgbColor { r: 0, g: 255, b: 0 }
                    } else {
                        RgbColor { r: 255, g: 255, b: 255 }
                    }
                } else {
                    black
                },
                None => black,
            }
        } else {
            black
        }
    }
}

/// Whether `needle` occurs in `hay` at `i`.
pub open spec fn occurs_at(hay: Seq<char>, needle: Seq<char>, i: int) -> bool {
    0 <= i && i + needle.len() <= hay.len() && hay.subrange(i, i + needle.len()) == needle
}

/// The first position of `needle` in `hay`, if any.
fn find_text(hay: &str, needle: &str) -> (r: Option<usize>)
    ensures
        r matches Some(i) ==> occurs_at(hay@, needle@, i as int) && forall|j: int|
            0 <= j < i ==> !occurs_at(hay@, needle@, j),
        r is None ==> forall|j: int| !occurs_at(hay@, needle@, j),
{
    let hay_len = hay.unicode_len();
    let needle_len = needle.unicode_len();
    if needle_len > hay_len {
        return None;
    }
    let mut i: usize = 0;
    while i <= hay_len - needle_len
        invariant
            hay_len == hay@.len(),
            needle_len == needle@.len(),
            needle_len <= hay_len,
            i <= hay_len,
            forall|j: int| 0 <= j < i ==> !occurs_at(hay@, needle@, j),
        decreases hay_len - i,
    {
        let mut k: usize = 0;
        let mut matched = true;
        while k < needle_len
            invariant
                hay_len == hay@.len(),
                needle_len == needle@.len(),
                i + needle_len <= hay_len,
                0 <= k <= needle_len,
                matched == forall|t: int| 0 <= t < k ==> hay@[i + t] == needle@[t],
            decreases needle_len - k,
        {
            if hay.get_char(i + k) != needle.get_char(k) {
                matched = false;
            }
            k = k + 1;
        }
        if matched {
            assert(hay@.subrange(i as int, i + needle_len) =~= needle@);
            return Some(i);
        }
        assert(!occurs_at(hay@, needle@, i as int)) by {
            let t = choose|t: int| 0 <= t < needle_len && hay@[i + t] != needle@[t];
            if hay@.subrange(i as int, i + needle_len) == needle@ {
                assert(hay@.subrange(i as int, i + needle_len)[t] == hay@[i + t]);
            }
        }
        i = i + 1;
    }
    None
}

/// The layout of the scene on a `width` x `height` raster it fits on.
pub fn compute_waiting_layout(width: usize, height: usize) -> (r: WaitingLayout)
    requires
        waiting_scene_fits(width as int, height as int),
    ensures
        r == waiting_layout(width as int, height as int),
{
    proof {
        lemma_highlight_start();
        reveal_strlit("WAITING");
    }
    let mut max_cols: usize = 0;
    let mut i: usize = 0;
    while i < WAITING_LINE_COUNT
        invariant
            0 <= i <= WAITING_LINE_COUNT,
            max_cols as int == if i == 0 { 0 } else if i == 1 { scene_line(0).len() as int } else if i == 2 {
                let a = scene_line(0).len() as int;
                let b = scene_line(1).len() as int;
                if a >= b { a } else { b }
            } else if i == 3 {
                let a = scene_line(0).len() as int;
                let b = scene_line(1).len() as int;
                let c = scene_line(2).len() as int;
                let ab = if a >= b { a } else { b };
                if ab >= c { ab } else { c }
            } else if i == 4 {
                let a = scene_line(0).len() as int;
                let b = scene_line(1).len() as int;
                let c = scene_line(2).len() as int;
                let d = scene_line(3).len() as int;
                let ab = if a >= b { a } else { b };
                let abc = if ab >= c { ab } else { c };
                if abc >= d { abc } else { d }
            } else {
                scene_max_cols()
            },
        decreases WAITING_LINE_COUNT - i,
    {
        let columns = waiting_screen_line(i).unicode_len();
        if columns > max_cols {
            max_cols = columns;
        }
        i = i + 1;
    }
    let scene_width_units = max_cols * WAITING_GLYPH_WIDTH + (max_cols - 1) * WAITING_GLYPH_SPACING;
    let scene_height_units = WAITING_LINE_COUNT * WAITING_GLYPH_HEIGHT + (WAITING_LINE_COUNT - 1)
        * WAITING_LINE_SPACING;
    let by_width = width / scene_width_units;
    let by_height = height / scene_height_units;
    let fit = if by_width <= by_height {
        by_width
    } else {
        by_height
    };
    assert(by_width >= 1 && by_height >= 1) by (nonlinear_arith)
        requires
            scene_width_units > 0,
            scene_height_units > 0,
            width >= scene_width_units,
            height >= scene_height_units,
            by_width == width / scene_width_units,
            by_height == height / scene_height_units,
    ;
    let scale = if fit >= 1 {
        fit
    } else {
        1
    };
    assert(scene_width_units * scale <= width && scene_height_units * scale <= height)
        by (nonlinear_arith)
        requires
            scene_width_units > 0,
            scene_height_units > 0,
            width >= scene_width_units,
            height >= scene_height_units,
            by_width == width / scene_width_units,
            by_height == height / scene_height_units,
            scale <= by_width,
            scale <= by_height,
    {
        assert(scene_width_units * by_width <= width);
        assert(scene_height_units * by_height <= height);
    }
    let origin_x = (width - scene_width_units * scale) / 2;
    let origin_y = (height - scene_height_units * scale) / 2;
    let highlight_line = waiting_screen_line(WAITING_HIGHLIGHT_LINE);
    let text = "WAITING";
    let start = match find_text(highlight_line, text) {
        Some(s) => s,
        None => {
            assert(occurs_at(highlight_line@, text@, highlight_start()));
            vstd::pervasive::unreached()
        },
    };
    if start != 17 {
        assert(occurs_at(highlight_line@, text@, highlight_start()));
        if start < 17 {
            assert(highlight_line@.subrange(start as int, start + 7)[0] == highlight_line@[start as int]);
        }
        vstd::pervasive::unreached()
    }
    let end = start + text.unicode_len();
    WaitingLayout { scale, origin_x, origin_y, highlight_start: start, highlight_end: end }
}

/// The colour of pixel (`x`, `y`) of the scene.
pub fn waiting_pixel_color(x: usize, y: usize, layout: WaitingLayout) -> (r: RgbColor)
    ensures
        r == waiting_color(x as int, y as int, layout),
{
    let black = RgbColor { r: 0, g: 0, b: 0 };
    if x < layout.origin_x || y < layout.origin_y || layout.scale == 0 {
        return black;
    }
    let ux = (x - layout.origin_x) / layout.scale;
    let uy = (y - layout.origin_y) / layout.scale;
    let line = uy / (WAITING_GLYPH_HEIGHT + WAITING_LINE_SPACING);
    let glyph_row = uy % (WAITING_GLYPH_HEIGHT + WAITING_LINE_SPACING);
    let col = ux / (WAITING_GLYPH_WIDTH + WAITING_GLYPH_SPACING);
    let glyph_col = ux % (WAITING_GLYPH_WIDTH + WAITING_GLYPH_SPACING);
    if line >= WAITING_LINE_COUNT || glyph_row >= WAITING_GLYPH_HEIGHT || glyph_col
        >= WAITING_GLYPH_WIDTH {
        return black;
    }
    let text = waiting_screen_line(line);
    if col >= text.unicode_len() {
        return black;
    }
    let ch = text.get_char(col);
    match waiting_scene_glyph(ch) {
        Some(rows) => {
            let bit: u8 = 1u8 << ((WAITING_GLYPH_WIDTH - 1 - glyph_col) as u8);
            if rows[glyph_row] & bit != 0 {
                if line == WAITING_HIGHLIGHT_LINE && layout.highlight_start <= col && col
                    < layout.highlight_end {
                    RgbColor { r: 0, g: 255, b: 0 }
                } else {
                    RgbColor { r: 255, g: 255, b: 255 }
                }
            } else {
                black
            }
        },
        None => black,
    }
}

/// Draws the waiting screen on a `width` x `height` raster once it is
/// checked. In RGB565 it is the scene; in any other format the raster is
/// cleared to black. Bytes past a row's pixels are kept.
pub fn render_waiting_screen(
    fb: &mut [u8],
    pitch: usize,
    width: u32,
    height: u32,
    format: TransferFormat,
) -> (r: Result<(), RasterError>)
    requires
        format == TransferFormat::Rgb565 && raster_outcome(
            old(fb)@.len(),
            pitch,
            width as usize,
            height as usize,
            format_bpp(format),
        ) is Ok ==> waiting_scene_fits(width as int, height as int),
    ensures
        r == raster_outcome(old(fb)@.len(), pitch, width as usize, height as usize, format_bpp(format)),
        r is Err ==> final(fb)@ == old(fb)@,
        r is Ok ==> final(fb)@ == painted_rect(
            old(fb)@,
            pitch,
            format,
            0,
            0,
            width as usize,
            height as usize,
            if format == TransferFormat::Rgb565 {
                Paint::Waiting(waiting_layout(width as int, height as int))
            } else {
                Paint::Solid(RgbColor { r: 0, g: 0, b: 0 })
            },
        ),
        r is Ok && format != TransferFormat::Rgb565 ==> forall|x: int, y: int, k: int|
            #![trigger final(fb)@[y * pitch + x * format_bpp(format) + k]]
            0 <= x < width && 0 <= y < height && 0 <= k < format_bpp(format) ==> final(fb)@[y * pitch
                + x * format_bpp(format) + k] == 0u8,
        r is Ok ==> forall|i: int|
            #![trigger final(fb)@[i]]
            0 <= i < old(fb)@.len() && !(i / (pitch as int) < height && i % (pitch as int) < width
                * format_bpp(format)) ==> final(fb)@[i] == old(fb)@[i],
{
    let ghost orig = fb@;
    let width = width as usize;
    let height = height as usize;
    let black = RgbColor { r: 0, g: 0, b: 0 };
    let ghost paint = if format != TransferFormat::Rgb565 {
        Paint::Solid(black)
    } else {
        Paint::Waiting(waiting_layout(width as int, height as int))
    };
    let r = if format != TransferFormat::Rgb565 {
        fill_solid(fb, pitch, width, height, format, black)
    } else {
        match validate_raster(fb, pitch, width, height, format.bytes_per_pixel()) {
            Ok(()) => {},
            Err(e) => return Err(e),
        }
        let layout = compute_waiting_layout(width, height);
        assert((0 + height) * pitch == pitch * height) by (nonlinear_arith);
        paint_rect(fb, pitch, 0, 0, width, height, format, Paint::Waiting(layout));
        Ok(())
    };
    proof {
        if r is Ok {
            let bpp = format_bpp(format) as int;
            assert(pitch > 0) by (nonlinear_arith)
                requires
                    width > 0,
                    bpp > 0,
                    pitch >= width * bpp,
            ;
            assert((0 + width) * bpp == width * bpp);
            lemma_painted_rect_pixels(orig, pitch, format, 0, 0, width, height, paint);
            assert forall|i: int|
                0 <= i < orig.len() && !(i / (pitch as int) < height && i % (pitch as int) < width * bpp)
                implies #[trigger] fb@[i] == orig[i] by {
                assert(0 <= i / (pitch as int)) by (nonlinear_arith)
                    requires
                        i >= 0,
                        pitch > 0,
                ;
            }
            if format != TransferFormat::Rgb565 {
                assert forall|x: int, y: int, k: int|
                    0 <= x < width && 0 <= y < height && 0 <= k < bpp
                    implies #[trigger] fb@[y * pitch + x * format_bpp(format) + k] == 0u8 by {
                    assert(y * pitch + x * bpp + k < (y + 1) * pitch) by (nonlinear_arith)
                        requires
                            x < width,
                            k < bpp,
                            width * bpp <= pitch,
                            x >= 0,
                    ;
                    assert((y + 1) * pitch <= height * pitch) by (nonlinear_arith)
                        requires
                            y + 1 <= height,
                            pitch >= 0,
                    ;
                    assert(paint_color(paint, x, y) == black);
                }
            }
        }
    }
    r
}

} // verus!
