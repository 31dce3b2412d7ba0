//! Presenting frames on the physical display: the transfer formats, pixel
//! encodings, letterboxed scaling of a source raster onto the output, and
//! deriving a timing for a smaller mode from the native one.
use vstd::prelude::*;
use vstd::arithmetic::div_mod::{lemma_div_denominator, lemma_fundamental_div_mod, lemma_fundamental_div_mod_converse};
use crate::text::{ascii_bytes, decimal, push_decimal_bytes};
use crate::gud::{DisplayMode, GUD_PIXEL_FORMAT_RGB565, GUD_PIXEL_FORMAT_RGB888, GUD_PIXEL_FORMAT_XRGB8888};

verus! {

/// The pixel formats frames are transferred and scanned out in.
#[derive(Clone, Copy, Debug, PartialEq, Eq, Structural)]
pub enum TransferFormat {
    Rgb565,
    Rgb888,
    Xrgb8888,
}

/// Bytes per pixel of a transfer format.
pub open spec fn format_bpp(format: TransferFormat) -> usize {
    match format {
        TransferFormat::Rgb565 => 2,
        TransferFormat::Rgb888 => 3,
        TransferFormat::Xrgb8888 => 4,
    }
}

impl TransferFormat {
    /// The GUD pixel format code.
    pub fn gud_pixel_format(self) -> (r: u8)
        ensures
            r == (match self {
                TransferFormat::Rgb565 => GUD_PIXEL_FORMAT_RGB565,
                TransferFormat::Rgb888 => GUD_PIXEL_FORMAT_RGB888,
                TransferFormat::Xrgb8888 => GUD_PIXEL_FORMAT_XRGB8888,
            }),
    {
        match self {
            TransferFormat::Rgb565 => GUD_PIXEL_FORMAT_RGB565,
            TransferFormat::Rgb888 => GUD_PIXEL_FORMAT_RGB888,
            TransferFormat::Xrgb8888 => GUD_PIXEL_FORMAT_XRGB8888,
        }
    }

    /// Colour depth in bits.
    pub fn depth(self) -> (r: u32)
        ensures
            r == (match self {
                TransferFormat::Rgb565 => 16u32,
                TransferFormat::Rgb888 => 24u32,
                TransferFormat::Xrgb8888 => 24u32,
            }),
    {
        match self {
            TransferFormat::Rgb565 => 16,
            TransferFormat::Rgb888 => 24,
            TransferFormat::Xrgb8888 => 24,
        }
    }

    /// Bits per pixel.
    pub fn bpp(self) -> (r: u32)
        ensures
            r == format_bpp(self) * 8,
    {
        match self {
            TransferFormat::Rgb565 => 16,
            TransferFormat::Rgb888 => 24,
            TransferFormat::Xrgb8888 => 32,
        }
    }

    /// Bytes per pixel.
    pub fn bytes_per_pixel(self) -> (r: usize)
        ensures
            r == format_bpp(self),
    {
        match self {
            TransferFormat::Rgb565 => 2,
            TransferFormat::Rgb888 => 3,
            TransferFormat::Xrgb8888 => 4,
        }
    }
}

/// An eight-bit-per-channel colour.
#[derive(Clone, Copy, Debug, PartialEq, Eq, Structural)]
pub struct RgbColor {
    pub r: u8,
    pub g: u8,
    pub b: u8,
}

/// The bytes a colour is stored as in `format`, little-endian as DRM lays
/// them out.
pub open spec fn encode_color(format: TransferFormat, color: RgbColor) -> Seq<u8> {
    match format {
        TransferFormat::Rgb565 => {
            let pixel = (((color.r as u16) >> 3u16) << 11u16) | (((color.g as u16) >> 2u16) << 5u16)
                | ((color.b as u16) >> 3u16);
            seq![(pixel & 0xffu16) as u8, (pixel >> 8u16) as u8]
        },
        TransferFormat::Rgb888 => seq![color.b, color.g, color.r],
        TransferFormat::Xrgb8888 => seq![color.b, color.g, color.r, 0u8],
    }
}

/// The bytes of `color` in `format`.
pub fn encode_pixel(format: TransferFormat, color: RgbColor) -> (r: Vec<u8>)
    ensures
        r@ == encode_color(format, color),
{
    match format {
        TransferFormat::Rgb565 => {
            let pixel: u16 = (((color.r as u16) >> 3u16) << 11u16) | (((color.g as u16) >> 2u16)
                << 5u16) | ((color.b as u16) >> 3u16);
            let lo = #[verifier::truncate] ((pixel & 0xffu16) as u8);
            let hi = #[verifier::truncate] ((pixel >> 8u16) as u8);
            let mut v: Vec<u8> = Vec::new();
            v.push(lo);
            v.push(hi);
            assert(v@ =~= encode_color(format, color));
            v
        },
        TransferFormat::Rgb888 => {
            let mut v: Vec<u8> = Vec::new();
            v.push(color.b);
            v.push(color.g);
            v.push(color.r);
            assert(v@ =~= encode_color(format, color));
            v
        },
        TransferFormat::Xrgb8888 => {
            let mut v: Vec<u8> = Vec::new();
            v.push(color.b);
            v.push(color.g);
            v.push(color.r);
            v.push(0u8);
            assert(v@ =~= encode_color(format, color));
            v
        },
    }
}

/// Why a raster was refused.
#[derive(Clone, Copy, Debug, PartialEq, Eq, Structural)]
pub enum RasterError {
    ZeroWidth,
    ZeroHeight,
    ZeroBytesPerPixel,
    PitchOverflow,
    PitchTooSmall { pitch: usize, minimum: usize },
    LengthOverflow,
    TooShort { got: usize, need: usize },
    PixelOffsetOverflow,
    PixelOutOfRange { x: usize, y: usize, len: usize },
}

/// Whether the checks of a raster pass, and if not, the first that fails.
pub open spec fn raster_outcome(len: nat, pitch: usize, width: usize, height: usize, bpp: usize) -> Result<
    (),
    RasterError,
> {
    if width == 0 {
        Err(RasterError::ZeroWidth)
    } else if height == 0 {
        Err(RasterError::ZeroHeight)
    } else if bpp == 0 {
        Err(RasterError::ZeroBytesPerPixel)
    } else if width * bpp > usize::MAX {
        Err(RasterError::PitchOverflow)
    } else if pitch < width * bpp {
        Err(RasterError::PitchTooSmall { pitch, minimum: (width * bpp) as usize })
    } else if pitch * height > usize::MAX {
        Err(RasterError::LengthOverflow)
    } else if len < pitch * height {
        Err(RasterError::TooShort { got: len as usize, need: (pitch * height) as usize })
    } else {
        Ok(())
    }
}

/// Checks that a raster of `width` x `height` pixels, rows `pitch` bytes
/// apart, fits in `pixels`.
pub fn validate_raster(pixels: &[u8], pitch: usize, width: usize, height: usize, bpp: usize) -> (r:
    Result<(), RasterError>)
    ensures
        r == raster_outcome(pixels@.len(), pitch, width, height, bpp),
{
    if width == 0 {
        return Err(RasterError::ZeroWidth);
    }
    if height == 0 {
        return Err(RasterError::ZeroHeight);
    }
    if bpp == 0 {
        return Err(RasterError::ZeroBytesPerPixel);
    }
    let minimum_pitch = match width.checked_mul(bpp) {
        Some(p) => p,
        None => return Err(RasterError::PitchOverflow),
    };
    if pitch < minimum_pitch {
        return Err(RasterError::PitchTooSmall { pitch, minimum: minimum_pitch });
    }
    let required_len = match pitch.checked_mul(height) {
        Some(l) => l,
        None => return Err(RasterError::LengthOverflow),
    };
    if pixels.len() < required_len {
        return Err(RasterError::TooShort { got: pixels.len(), need: required_len });
    }
    Ok(())
}

/// Where pixel (`x`, `y`) starts, if all of it lies in a buffer of `len`
/// bytes.
pub fn pixel_offset(len: usize, pitch: usize, x: usize, y: usize, bpp: usize) -> (r: Result<
    usize,
    RasterError,
>)
    ensures
        bpp == 0 ==> r == Err::<usize, RasterError>(RasterError::ZeroBytesPerPixel),
        bpp > 0 && (y * pitch > usize::MAX || x * bpp > usize::MAX || y * pitch + x * bpp
            > usize::MAX || y * pitch + x * bpp + bpp > usize::MAX) ==> r == Err::<
            usize,
            RasterError,
        >(RasterError::PixelOffsetOverflow),
        bpp > 0 && y * pitch + x * bpp + bpp <= usize::MAX && y * pitch + x * bpp + bpp > len
            ==> r == Err::<usize, RasterError>(RasterError::PixelOutOfRange { x, y, len }),
        bpp > 0 && y * pitch + x * bpp + bpp <= len ==> r == Ok::<usize, RasterError>(
            (y * pitch + x * bpp) as usize,
        ),
{
    if bpp == 0 {
        return Err(RasterError::ZeroBytesPerPixel);
    }
    let row = match y.checked_mul(pitch) {
        Some(v) => v,
        None => return Err(RasterError::PixelOffsetOverflow),
    };
    let column = match x.checked_mul(bpp) {
        Some(v) => v,
        None => return Err(RasterError::PixelOffsetOverflow),
    };
    let offset = match row.checked_add(column) {
        Some(v) => v,
        None => return Err(RasterError::PixelOffsetOverflow),
    };
    let end = match offset.checked_add(bpp) {
        Some(v) => v,
        None => return Err(RasterError::PixelOffsetOverflow),
    };
    if end > len {
        return Err(RasterError::PixelOutOfRange { x, y, len });
    }
    Ok(offset)
}

/// Where a scaled source lands on the output.
#[derive(Clone, Copy, Debug, PartialEq, Eq, Structural)]
pub struct ScaledLayout {
    pub dst_x: usize,
    pub dst_y: usize,
    pub dst_width: usize,
    pub dst_height: usize,
}

/// Why a scaled layout could not be made.
#[derive(Clone, Copy, Debug, PartialEq, Eq, Structural)]
pub enum LayoutError {
    ZeroSourceWidth,
    ZeroSourceHeight,
    ZeroDestinationWidth,
    ZeroDestinationHeight,
}

/// The larger of `v` and one.
pub open spec fn at_least_one(v: int) -> int {
    if v < 1 {
        1
    } else {
        v
    }
}

/// The size of the source scaled to fit the destination with its aspect
/// ratio kept: full width if the matching height fits, else full height.
pub open spec fn scaled_size(src_width: u32, src_height: u32, dst_width: u32, dst_height: u32) -> (
    int,
    int,
) {
    let width_limited_height = (dst_width * src_height) / (src_width as int);
    if width_limited_height <= dst_height {
        (dst_width as int, at_least_one(width_limited_height))
    } else {
        (at_least_one((dst_height * src_width) / (src_height as int)), dst_height as int)
    }
}

/// The scaled source, centred on the destination.
pub open spec fn layout_of(src_width: u32, src_height: u32, dst_width: u32, dst_height: u32) -> ScaledLayout {
    let (w, h) = scaled_size(src_width, src_height, dst_width, dst_height);
    ScaledLayout {
        dst_x: ((dst_width - w) / 2) as usize,
        dst_y: ((dst_height - h) / 2) as usize,
        dst_width: w as usize,
        dst_height: h as usize,
    }
}

/// The scaled size never exceeds the destination and is never empty.
pub proof fn lemma_scaled_size_fits(src_width: u32, src_height: u32, dst_width: u32, dst_height: u32)
    requires
        src_width > 0,
        src_height > 0,
        dst_width > 0,
        dst_height > 0,
    ensures
        1 <= scaled_size(src_width, src_height, dst_width, dst_height).0 <= dst_width,
        1 <= scaled_size(src_width, src_height, dst_width, dst_height).1 <= dst_height,
{
    let sw = src_width as int;
    let sh = src_height as int;
    let dw = dst_width as int;
    let dh = dst_height as int;
    let wlh = (dw * sh) / sw;
    if wlh > dh {
        assert((dh * sw) / sh < dw) by (nonlinear_arith)
            requires
                sw > 0,
                sh > 0,
                dw > 0,
                dh > 0,
                (dw * sh) / sw > dh,
        {
            assert(dw * sh >= ((dw * sh) / sw) * sw);
            assert(((dw * sh) / sw) * sw >= (dh + 1) * sw);
            assert(dh * sw < dw * sh);
            assert(((dh * sw) / sh) * sh <= dh * sw);
        }
        assert((dh * sw) / sh >= 0) by (nonlinear_arith)
            requires
                sw > 0,
                sh > 0,
                dh > 0,
        ;
    } else {
        assert(wlh >= 0) by (nonlinear_arith)
            requires
                sw > 0,
                sh > 0,
                dw > 0,
                wlh == (dw * sh) / sw,
        ;
    }
}

/// The layout fills the destination along one side and keeps the source's
/// aspect ratio up to rounding down along the other (a side of one pixel
/// at least), and centres the image: the margins on either side differ by
/// at most one pixel.
pub proof fn lemma_scaled_layout_keeps_aspect_and_centres(
    src_width: u32,
    src_height: u32,
    dst_width: u32,
    dst_height: u32,
)
    requires
        src_width > 0,
        src_height > 0,
        dst_width > 0,
        dst_height > 0,
    ensures
        ({
            let l = layout_of(src_width, src_height, dst_width, dst_height);
            let (w, h) = (l.dst_width as int, l.dst_height as int);
            let (sw, sh) = (src_width as int, src_height as int);
            &&& (w == dst_width && (h == 1 || h * sw <= dst_width * sh < (h + 1) * sw))
                || (h == dst_height && (w == 1 || w * sh <= dst_height * sw < (w + 1) * sh))
            &&& 2 * l.dst_x + w <= dst_width <= 2 * l.dst_x + w + 1
            &&& 2 * l.dst_y + h <= dst_height <= 2 * l.dst_y + h + 1
        }),
{
    lemma_scaled_size_fits(src_width, src_height, dst_width, dst_height);
    let sw = src_width as int;
    let sh = src_height as int;
    let dw = dst_width as int;
    let dh = dst_height as int;
    let wlh = (dw * sh) / sw;
    lemma_fundamental_div_mod(dw * sh, sw);
    let hlw = (dh * sw) / sh;
    lemma_fundamental_div_mod(dh * sw, sh);
    assert(wlh * sw <= dw * sh < (wlh + 1) * sw) by (nonlinear_arith)
        requires
            dw * sh == sw * wlh + (dw * sh) % sw,
            0 <= (dw * sh) % sw < sw,
    ;
    assert(hlw * sh <= dh * sw < (hlw + 1) * sh) by (nonlinear_arith)
        requires
            dh * sw == sh * hlw + (dh * sw) % sh,
            0 <= (dh * sw) % sh < sh,
    ;
}

/// Centres the source, scaled to fit with its aspect ratio kept, on the
/// destination.
pub fn compute_scaled_layout(src_width: u32, src_height: u32, dst_width: u32, dst_height: u32) -> (r:
    Result<ScaledLayout, LayoutError>)
    ensures
        src_width == 0 ==> r == Err::<ScaledLayout, LayoutError>(LayoutError::ZeroSourceWidth),
        src_width > 0 && src_height == 0 ==> r == Err::<ScaledLayout, LayoutError>(
            LayoutError::ZeroSourceHeight,
        ),
        src_width > 0 && src_height > 0 && dst_width == 0 ==> r == Err::<ScaledLayout, LayoutError>(
            LayoutError::ZeroDestinationWidth,
        ),
        src_width > 0 && src_height > 0 && dst_width > 0 && dst_height == 0 ==> r == Err::<
            ScaledLayout,
            LayoutError,
        >(LayoutError::ZeroDestinationHeight),
        src_width > 0 && src_height > 0 && dst_width > 0 && dst_height > 0 ==> r == Ok::<
            ScaledLayout,
            LayoutError,
        >(layout_of(src_width, src_height, dst_width, dst_height)),
        r matches Ok(l) ==> 1 <= l.dst_width && l.dst_x + l.dst_width <= dst_width && 1
            <= l.dst_height && l.dst_y + l.dst_height <= dst_height,
{
    if src_width == 0 {
        return Err(LayoutError::ZeroSourceWidth);
    }
    if src_height == 0 {
        return Err(LayoutError::ZeroSourceHeight);
    }
    if dst_width == 0 {
        return Err(LayoutError::ZeroDestinationWidth);
    }
    if dst_height == 0 {
        return Err(LayoutError::ZeroDestinationHeight);
    }
    proof {
        lemma_scaled_size_fits(src_width, src_height, dst_width, dst_height);
        assert(dst_width as u64 * src_height as u64 <= 0xffff_ffff * 0xffff_ffff) by (nonlinear_arith)
            requires
                dst_width <= 0xffff_ffff,
                src_height <= 0xffff_ffff,
        ;
        assert(dst_height as u64 * src_width as u64 <= 0xffff_ffff * 0xffff_ffff) by (nonlinear_arith)
            requires
                dst_height <= 0xffff_ffff,
                src_width <= 0xffff_ffff,
        ;
    }
    let width_limited_height: u64 = (dst_width as u64 * src_height as u64) / src_width as u64;
    let (scaled_width, scaled_height): (u64, u64) = if width_limited_height <= dst_height as u64 {
        (dst_width as u64, if width_limited_height < 1 { 1 } else { width_limited_height })
    } else {
        let width: u64 = (dst_height as u64 * src_width as u64) / src_height as u64;
        (if width < 1 { 1 } else { width }, dst_height as u64)
    };
    let scaled_width = scaled_width as usize;
    let scaled_height = scaled_height as usize;
    let dst_width = dst_width as usize;
    let dst_height = dst_height as usize;
    Ok(
        ScaledLayout {
            dst_x: (dst_width - scaled_width) / 2,
            dst_y: (dst_height - scaled_height) / 2,
            dst_width: scaled_width,
            dst_height: scaled_height,
        },
    )
}

/// The gap `delta` of the native timing, scaled from `native_active` to
/// `target_active` pixels, at least one, as a 16-bit value.
pub open spec fn scale_gap(delta: u16, native_active: u16, target_active: u16) -> u16 {
    at_least_one((delta as int * target_active as int) / (native_active as int)) as u16
}

/// Whether the native timing has its sync positions in order and non-empty
/// active and total sizes.
pub open spec fn timing_ordered(m: DisplayMode) -> bool {
    &&& 0 < m.hdisplay <= m.hsync_start <= m.hsync_end <= m.htotal
    &&& 0 < m.vdisplay <= m.vsync_start <= m.vsync_end <= m.vtotal
}

/// The timing derived for a `target_width` x `target_height` mode: each
/// porch and sync width of the native timing scaled by the ratio of active
/// sizes, and the pixel clock scaled by the ratio of total sizes so the
/// refresh rate is kept.
pub open spec fn derived_mode(native: DisplayMode, target_width: u16, target_height: u16) -> DisplayMode {
    let h_front = scale_gap((native.hsync_start - native.hdisplay) as u16, native.hdisplay, target_width);
    let h_sync = scale_gap((native.hsync_end - native.hsync_start) as u16, native.hdisplay, target_width);
    let h_back = scale_gap((native.htotal - native.hsync_end) as u16, native.hdisplay, target_width);
    let v_front = scale_gap((native.vsync_start - native.vdisplay) as u16, native.vdisplay, target_height);
    let v_sync = scale_gap((native.vsync_end - native.vsync_start) as u16, native.vdisplay, target_height);
    let v_back = scale_gap((native.vtotal - native.vsync_end) as u16, native.vdisplay, target_height);
    let hsync_start = (target_width + h_front) as u16;
    let hsync_end = (hsync_start + h_sync) as u16;
    let htotal = (hsync_end + h_back) as u16;
    let vsync_start = (target_height + v_front) as u16;
    let vsync_end = (vsync_start + v_sync) as u16;
    let vtotal = (vsync_end + v_back) as u16;
    DisplayMode {
        clock: ((native.clock as int * htotal as int * vtotal as int) / (native.htotal as int) / (
        native.vtotal as int)) as u32,
        hdisplay: target_width,
        hsync_start,
        hsync_end,
        htotal,
        vdisplay: target_height,
        vsync_start,
        vsync_end,
        vtotal,
        flags: 0,
    }
}

/// A derived mode refreshes as often as the native one: its pixel clock is
/// the native clock scaled by the ratio of total frame sizes, rounded down
/// (`clock * native_htotal * native_vtotal` is at most `native_clock *
/// htotal * vtotal`, and one more would exceed it), whenever that clock fits
/// in 32 bits, which it does for a mode no larger than the native one; such
/// a mode's clock is then no faster than the native clock.
pub proof fn lemma_derived_mode_keeps_refresh_rate(native: DisplayMode, target_width: u16, target_height: u16)
    requires
        timing_ordered(native),
    ensures
        ({
            let r = derived_mode(native, target_width, target_height);
            let native_frame = native.htotal as int * native.vtotal as int;
            let pixels = native.clock as int * r.htotal as int * r.vtotal as int;
            &&& pixels / native_frame <= u32::MAX ==> r.clock as int * native_frame <= pixels
                < (r.clock as int + 1) * native_frame
            &&& r.htotal <= native.htotal && r.vtotal <= native.vtotal ==> pixels / native_frame
                <= u32::MAX && r.clock <= native.clock
        }),
{
    let r = derived_mode(native, target_width, target_height);
    let nh = native.htotal as int;
    let nv = native.vtotal as int;
    let native_frame = nh * nv;
    let pixels = native.clock as int * r.htotal as int * r.vtotal as int;
    assert(native_frame > 0) by (nonlinear_arith)
        requires
            nh > 0,
            nv > 0,
            native_frame == nh * nv,
    ;
    assert(pixels >= 0) by (nonlinear_arith)
        requires
            pixels == native.clock as int * r.htotal as int * r.vtotal as int,
            native.clock >= 0,
            r.htotal >= 0,
            r.vtotal >= 0,
    ;
    lemma_div_denominator(pixels, nh, nv);
    let q = pixels / native_frame;
    lemma_fundamental_div_mod(pixels, native_frame);
    assert(0 <= pixels % native_frame < native_frame);
    assert(q * native_frame <= pixels < (q + 1) * native_frame) by (nonlinear_arith)
        requires
            pixels == native_frame * q + pixels % native_frame,
            0 <= pixels % native_frame < native_frame,
    ;
    assert(q >= 0) by (nonlinear_arith)
        requires
            q * native_frame <= pixels,
            pixels < (q + 1) * native_frame,
            pixels >= 0,
            native_frame > 0,
    ;
    if q <= u32::MAX {
        assert(r.clock as int == q);
    }
    if r.htotal <= native.htotal && r.vtotal <= native.vtotal {
        assert(pixels <= native.clock as int * native_frame) by (nonlinear_arith)
            requires
                pixels == native.clock as int * r.htotal as int * r.vtotal as int,
                native_frame == nh * nv,
                0 <= r.htotal <= nh,
                0 <= r.vtotal <= nv,
                native.clock >= 0,
        ;
        assert(q <= native.clock) by (nonlinear_arith)
            requires
                q * native_frame <= pixels,
                pixels <= native.clock as int * native_frame,
                native_frame > 0,
        ;
        assert(r.clock as int == q);
    }
}

/// Whether the derived timing's positions all fit in 16 bits.
pub open spec fn derived_mode_fits(native: DisplayMode, target_width: u16, target_height: u16) -> bool {
    let h_front = scale_gap((native.hsync_start - native.hdisplay) as u16, native.hdisplay, target_width);
    let h_sync = scale_gap((native.hsync_end - native.hsync_start) as u16, native.hdisplay, target_width);
    let h_back = scale_gap((native.htotal - native.hsync_end) as u16, native.hdisplay, target_width);
    let v_front = scale_gap((native.vsync_start - native.vdisplay) as u16, native.vdisplay, target_height);
    let v_sync = scale_gap((native.vsync_end - native.vsync_start) as u16, native.vdisplay, target_height);
    let v_back = scale_gap((native.vtotal - native.vsync_end) as u16, native.vdisplay, target_height);
    &&& target_width + h_front + h_sync + h_back <= u16::MAX
    &&& target_height + v_front + v_sync + v_back <= u16::MAX
}

/// Scales one gap of the native timing.
fn scale_dimension(delta: u16, native_active: u16, target_active: u16) -> (r: u16)
    requires
        native_active > 0,
    ensures
        r == scale_gap(delta, native_active, target_active),
{
    proof {
        assert(delta as u32 * target_active as u32 <= 0xffff * 0xffff) by (nonlinear_arith)
            requires
                delta <= 0xffff,
                target_active <= 0xffff,
        ;
    }
    let scaled: u32 = (delta as u32 * target_active as u32) / native_active as u32;
    let at_least = if scaled < 1 { 1 } else { scaled };
    #[verifier::truncate]
    (at_least as u16)
}

/// The timing for a `target_width` x `target_height` mode derived from the
/// native one.
pub fn derive_mode_from_native(native: &DisplayMode, target_width: u16, target_height: u16) -> (r:
    DisplayMode)
    requires
        timing_ordered(*native),
        derived_mode_fits(*native, target_width, target_height),
    ensures
        r == derived_mode(*native, target_width, target_height),
{
    let h_front = scale_dimension(native.hsync_start - native.hdisplay, native.hdisplay, target_width);
    let h_sync = scale_dimension(native.hsync_end - native.hsync_start, native.hdisplay, target_width);
    let h_back = scale_dimension(native.htotal - native.hsync_end, native.hdisplay, target_width);
    let v_front = scale_dimension(native.vsync_start - native.vdisplay, native.vdisplay, target_height);
    let v_sync = scale_dimension(native.vsync_end - native.vsync_start, native.vdisplay, target_height);
    let v_back = scale_dimension(native.vtotal - native.vsync_end, native.vdisplay, target_height);
    let hsync_start = target_width + h_front;
    let hsync_end = hsync_start + h_sync;
    let htotal = hsync_end + h_back;
    let vsync_start = target_height + v_front;
    let vsync_end = vsync_start + v_sync;
    let vtotal = vsync_end + v_back;
    proof {
        let c = native.clock as u64;
        assert(c * htotal as u64 <= 0xffff_ffff * 0xffff) by (nonlinear_arith)
            requires
                c <= 0xffff_ffff,
                htotal <= 0xffff,
        ;
        assert(c * htotal as u64 * vtotal as u64 <= 0xffff_ffff * 0xffff * 0xffff) by (nonlinear_arith)
            requires
                c * htotal as u64 <= 0xffff_ffff * 0xffff,
                vtotal <= 0xffff,
        ;
    }
    let product: u64 = native.clock as u64 * htotal as u64 * vtotal as u64;
    let clock = #[verifier::truncate] ((product / native.htotal as u64 / native.vtotal as u64) as u32);
    DisplayMode {
        clock,
        hdisplay: target_width,
        hsync_start,
        hsync_end,
        htotal,
        vdisplay: target_height,
        vsync_start,
        vsync_end,
        vtotal,
        flags: 0,
    }
}

/// Writes `color` at pixel (`x`, `y`).
pub fn write_pixel(
    fb: &mut [u8],
    pitch: usize,
    x: usize,
    y: usize,
    format: TransferFormat,
    color: RgbColor,
) -> (r: Result<(), RasterError>)
    ensures
        ({
            let bpp = format_bpp(format);
            &&& y * pitch + x * bpp + bpp > old(fb)@.len() ==> r is Err && final(fb)@ == old(fb)@
            &&& y * pitch + x * bpp + bpp <= old(fb)@.len() ==> r is Ok && final(fb)@ == old(
                fb,
            )@.take(y * pitch + x * bpp) + encode_color(format, color) + old(fb)@.skip(
                y * pitch + x * bpp + bpp,
            )
        }),
{
    let bpp = format.bytes_per_pixel();
    let len = fb.len();
    let offset = pixel_offset(len, pitch, x, y, bpp)?;
    let bytes = encode_pixel(format, color);
    let mut k: usize = 0;
    while k < bpp
        invariant
            0 <= k <= bpp,
            bpp == format_bpp(format),
            bytes@ == encode_color(format, color),
            offset + bpp <= fb@.len(),
            fb@.len() <= usize::MAX,
            fb@.len() == old(fb)@.len(),
            offset == y * pitch + x * bpp,
            fb@ == old(fb)@.take(offset as int) + bytes@.take(k as int) + old(fb)@.skip(offset + k),
        decreases bpp - k,
    {
        fb[offset + k] = bytes[k];
        k = k + 1;
        assert(fb@ =~= old(fb)@.take(offset as int) + bytes@.take(k as int) + old(fb)@.skip(
            offset + k,
        ));
    }
    assert(bytes@.take(bpp as int) =~= bytes@);
    Ok(())
}

/// The colour stored as `bytes` in `format`, widened back to eight bits per
/// channel.
pub open spec fn decode_color(format: TransferFormat, bytes: Seq<u8>) -> RgbColor {
    match format {
        TransferFormat::Rgb565 => {
            let pixel = (bytes[0] as u16) | ((bytes[1] as u16) << 8u16);
            let red = ((pixel >> 11u16) & 0x1fu16) as u8;
            let green = ((pixel >> 5u16) & 0x3fu16) as u8;
            let blue = (pixel & 0x1fu16) as u8;
            RgbColor {
                r: (red << 3u8) | (red >> 2u8),
                g: (green << 2u8) | (green >> 4u8),
                b: (blue << 3u8) | (blue >> 2u8),
            }
        },
        _ => RgbColor { r: bytes[2], g: bytes[1], b: bytes[0] },
    }
}

/// Reads the colour of pixel (`x`, `y`).
pub fn read_pixel(fb: &[u8], pitch: usize, x: usize, y: usize, format: TransferFormat) -> (r: Result<
    RgbColor,
    RasterError,
>)
    ensures
        ({
            let bpp = format_bpp(format);
            &&& y * pitch + x * bpp + bpp > fb@.len() ==> r is Err
            &&& y * pitch + x * bpp + bpp <= fb@.len() ==> r == Ok::<RgbColor, RasterError>(
                decode_color(format, fb@.subrange(y * pitch + x * bpp, y * pitch + x * bpp + bpp)),
            )
        }),
{
    let bpp = format.bytes_per_pixel();
    let offset = pixel_offset(fb.len(), pitch, x, y, bpp)?;
    let ghost px = fb@.subrange(offset as int, offset + bpp);
    match format {
        TransferFormat::Rgb565 => {
            let pixel: u16 = (fb[offset] as u16) | ((fb[offset + 1] as u16) << 8u16);
            let red = #[verifier::truncate] (((pixel >> 11u16) & 0x1fu16) as u8);
            let green = #[verifier::truncate] (((pixel >> 5u16) & 0x3fu16) as u8);
            let blue = #[verifier::truncate] ((pixel & 0x1fu16) as u8);
            assert(px[0] == fb@[offset as int] && px[1] == fb@[offset + 1]);
            Ok(
                RgbColor {
                    r: (red << 3u8) | (red >> 2u8),
                    g: (green << 2u8) | (green >> 4u8),
                    b: (blue << 3u8) | (blue >> 2u8),
                },
            )
        },
        _ => {
            assert(px[0] == fb@[offset as int] && px[1] == fb@[offset + 1] && px[2] == fb@[offset
                + 2]);
            Ok(RgbColor { r: fb[offset + 2], g: fb[offset + 1], b: fb[offset] })
        },
    }
}

/// The header of a binary PPM image of `width` x `height` pixels.
pub open spec fn ppm_header(width: nat, height: nat) -> Seq<u8> {
    ascii_bytes(seq!['P', '6', '\n'] + decimal(width) + seq![' '] + decimal(height) + seq![
        '\n',
        '2',
        '5',
        '5',
        '\n',
    ])
}

/// The red, green and blue bytes of each pixel of a raster, row by row.
pub open spec fn ppm_pixels(fb: Seq<u8>, pitch: int, width: int, height: int, format: TransferFormat) -> Seq<u8> {
    let bpp = format_bpp(format) as int;
    Seq::new(
        (width * height * 3) as nat,
        |i: int|
            {
                let p = i / 3;
                let x = p % width;
                let y = p / width;
                let c = decode_color(format, fb.subrange(y * pitch + x * bpp, y * pitch + x * bpp + bpp));
                if i % 3 == 0 {
                    c.r
                } else if i % 3 == 1 {
                    c.g
                } else {
                    c.b
                }
            },
    )
}

/// A binary PPM image of a `width` x `height` raster, once the raster is
/// checked: the header, then each pixel's colour.
pub fn encode_ppm(fb: &[u8], pitch: usize, width: u32, height: u32, format: TransferFormat) -> (r:
    Result<Vec<u8>, RasterError>)
    ensures
        match raster_outcome(fb@.len(), pitch, width as usize, height as usize, format_bpp(format)) {
            Err(e) => r == Err::<Vec<u8>, RasterError>(e),
            Ok(()) => r matches Ok(v) && v@ == ppm_header(width as nat, height as nat) + ppm_pixels(
                fb@,
                pitch as int,
                width as int,
                height as int,
                format,
            ),
        },
{
    let w = width as usize;
    let h = height as usize;
    let bpp = format.bytes_per_pixel();
    validate_raster(fb, pitch, w, h, bpp)?;
    let mut out: Vec<u8> = Vec::new();
    out.push(80u8);
    out.push(54u8);
    out.push(10u8);
    push_decimal_bytes(&mut out, width as u64);
    out.push(32u8);
    push_decimal_bytes(&mut out, height as u64);
    out.push(10u8);
    out.push(50u8);
    out.push(53u8);
    out.push(53u8);
    out.push(10u8);
    let ghost header = ppm_header(width as nat, height as nat);
    assert(out@ =~= header);
    let ghost pixels = ppm_pixels(fb@, pitch as int, w as int, h as int, format);
    let mut y: usize = 0;
    while y < h
        invariant
            0 <= y <= h,
            w == width,
            h == height,
            bpp == format_bpp(format),
            raster_outcome(fb@.len(), pitch, w, h, bpp) is Ok,
            pixels == ppm_pixels(fb@, pitch as int, w as int, h as int, format),
            out@ == header + pixels.take(y * w * 3),
        decreases h - y,
    {
        let mut x: usize = 0;
        while x < w
            invariant
                0 <= x <= w,
                y < h,
                w == width,
                h == height,
                bpp == format_bpp(format),
                raster_outcome(fb@.len(), pitch, w, h, bpp) is Ok,
                pixels == ppm_pixels(fb@, pitch as int, w as int, h as int, format),
                out@ == header + pixels.take((y * w + x) * 3),
            decreases w - x,
        {
            assert(y * pitch + x * bpp + bpp <= fb@.len()) by (nonlinear_arith)
                requires
                    x < w,
                    y < h,
                    w * bpp <= pitch,
                    pitch * h <= fb@.len(),
            {
                assert(x * bpp + bpp <= w * bpp);
                assert(y * pitch + pitch <= h * pitch);
            }
            let color = match read_pixel(fb, pitch, x, y, format) {
                Ok(c) => c,
                Err(_) => vstd::pervasive::unreached(),
            };
            let ghost count = y * w + x;
            assert((y * w + x) * 3 + 3 <= w * h * 3) by (nonlinear_arith)
                requires
                    x < w,
                    y < h,
            ;
            proof {
                vstd::arithmetic::div_mod::lemma_fundamental_div_mod_converse(count, w as int, y as int, x as int);
                vstd::arithmetic::div_mod::lemma_fundamental_div_mod_converse(count * 3, 3, count, 0);
                vstd::arithmetic::div_mod::lemma_fundamental_div_mod_converse(count * 3 + 1, 3, count, 1);
                vstd::arithmetic::div_mod::lemma_fundamental_div_mod_converse(count * 3 + 2, 3, count, 2);
            }
            out.push(color.r);
            out.push(color.g);
            out.push(color.b);
            assert(out@ =~= header + pixels.take((y * w + x + 1) * 3));
            x = x + 1;
        }
        assert((y * w + w) * 3 == (y + 1) * w * 3) by (nonlinear_arith);
        y = y + 1;
    }
    assert(pixels.take(h * w * 3) =~= pixels) by {
        assert(h * w * 3 == w * h * 3) by (nonlinear_arith);
    }
    Ok(out)
}

/// Why a scaled presentation failed.
#[derive(Clone, Copy, Debug, PartialEq, Eq, Structural)]
pub enum ScaleError {
    Layout(LayoutError),
    Source(RasterError),
    Destination(RasterError),
}

/// Byte `k` of output pixel (`x`, `y`): inside the scaled rectangle, the
/// nearest source pixel's byte; outside it, black (all zero bytes in every
/// format).
pub open spec fn scaled_byte(
    src: Seq<u8>,
    src_pitch: int,
    src_width: int,
    src_height: int,
    layout: ScaledLayout,
    bpp: int,
    x: int,
    y: int,
    k: int,
) -> u8 {
    if layout.dst_x <= x < layout.dst_x + layout.dst_width && layout.dst_y <= y < layout.dst_y
        + layout.dst_height {
        let sx = (x - layout.dst_x) * src_width / (layout.dst_width as int);
        let sy = (y - layout.dst_y) * src_height / (layout.dst_height as int);
        src[sy * src_pitch + sx * bpp + k]
    } else {
        0u8
    }
}

/// A scaled frame, pixel by pixel: a destination pixel inside the centred
/// rectangle shows the source pixel whose column and row are the pixel's
/// offset in the rectangle scaled by source over rectangle size, rounded
/// down (so a wrong or shifted source pixel is ruled out); a pixel outside
/// the rectangle is black; bytes past the row's pixels keep their value.
pub proof fn lemma_scaled_output_pixels(
    src: Seq<u8>,
    src_pitch: usize,
    src_width: u32,
    src_height: u32,
    dst: Seq<u8>,
    dst_pitch: usize,
    dst_width: u32,
    dst_height: u32,
    format: TransferFormat,
    x: int,
    y: int,
    k: int,
)
    requires
        src_width > 0,
        src_height > 0,
        dst_width > 0,
        dst_height > 0,
        raster_outcome(dst.len(), dst_pitch, dst_width as usize, dst_height as usize, format_bpp(format)) is Ok,
        0 <= x < dst_width,
        0 <= y < dst_height,
        0 <= k < format_bpp(format),
    ensures
        ({
            let out = scaled_output(src, src_pitch, src_width, src_height, dst, dst_pitch, dst_width, dst_height, format);
            let l = layout_of(src_width, src_height, dst_width, dst_height);
            let bpp = format_bpp(format) as int;
            let at = y * dst_pitch + x * bpp + k;
            &&& 0 <= at < dst.len()
            &&& (l.dst_x <= x < l.dst_x + l.dst_width && l.dst_y <= y < l.dst_y + l.dst_height) ==> exists|sx: int, sy: int|
                #![trigger src[sy * src_pitch + sx * bpp + k]]
                0 <= sx < src_width && 0 <= sy < src_height && sx * l.dst_width <= (x - l.dst_x) * src_width
                    < (sx + 1) * l.dst_width && sy * l.dst_height <= (y - l.dst_y) * src_height < (sy + 1)
                    * l.dst_height && out[at] == src[sy * src_pitch + sx * bpp + k]
            &&& !(l.dst_x <= x < l.dst_x + l.dst_width && l.dst_y <= y < l.dst_y + l.dst_height) ==> out[at]
                == 0u8
        }),
{
    let l = layout_of(src_width, src_height, dst_width, dst_height);
    lemma_scaled_size_fits(src_width, src_height, dst_width, dst_height);
    let bpp = format_bpp(format) as int;
    let dp = dst_pitch as int;
    let at = y * dp + x * bpp + k;
    assert(bpp > 0);
    assert(x * bpp + k < dst_width * bpp) by (nonlinear_arith)
        requires
            x + 1 <= dst_width,
            k < bpp,
            x >= 0,
            bpp > 0,
    ;
    assert(0 <= x * bpp) by (nonlinear_arith)
        requires
            x >= 0,
            bpp >= 0,
    ;
    assert(at < (y + 1) * dp) by (nonlinear_arith)
        requires
            at == y * dp + x * bpp + k,
            x * bpp + k < dst_width * bpp,
            dst_width * bpp <= dp,
    ;
    assert((y + 1) * dp <= dst_height * dp) by (nonlinear_arith)
        requires
            y + 1 <= dst_height,
            dp >= 0,
    ;
    assert(0 <= y * dp) by (nonlinear_arith)
        requires
            y >= 0,
            dp >= 0,
    ;
    assert(dp > 0) by (nonlinear_arith)
        requires
            dst_width > 0,
            bpp > 0,
            dp >= dst_width * bpp,
    ;
    lemma_fundamental_div_mod_converse(at, dp, y, x * bpp + k);
    lemma_fundamental_div_mod_converse(x * bpp + k, bpp, x, k);
    let out = scaled_output(src, src_pitch, src_width, src_height, dst, dst_pitch, dst_width, dst_height, format);
    assert(at / dp == y && at % dp == x * bpp + k);
    assert((x * bpp + k) / bpp == x && (x * bpp + k) % bpp == k);
    assert(out[at] == scaled_byte(src, src_pitch as int, src_width as int, src_height as int, l, bpp, x, y, k));
    if l.dst_x <= x < l.dst_x + l.dst_width && l.dst_y <= y < l.dst_y + l.dst_height {
        let lw = l.dst_width as int;
        let lh = l.dst_height as int;
        let ox = x - l.dst_x;
        let oy = y - l.dst_y;
        let sx = ox * src_width / lw;
        let sy = oy * src_height / lh;
        lemma_fundamental_div_mod(ox * src_width, lw);
        lemma_fundamental_div_mod(oy * src_height, lh);
        assert(sx * lw <= ox * src_width < (sx + 1) * lw) by (nonlinear_arith)
            requires
                ox * src_width == lw * sx + (ox * src_width) % lw,
                0 <= (ox * src_width) % lw < lw,
        ;
        assert(sy * lh <= oy * src_height < (sy + 1) * lh) by (nonlinear_arith)
            requires
                oy * src_height == lh * sy + (oy * src_height) % lh,
                0 <= (oy * src_height) % lh < lh,
        ;
        assert(0 <= sx < src_width) by (nonlinear_arith)
            requires
                sx * lw <= ox * src_width < (sx + 1) * lw,
                0 <= ox < lw,
                lw > 0,
                src_width > 0,
        ;
        assert(0 <= sy < src_height) by (nonlinear_arith)
            requires
                sy * lh <= oy * src_height < (sy + 1) * lh,
                0 <= oy < lh,
                lh > 0,
                src_height > 0,
        ;
        assert(out[at] == src[sy * src_pitch + sx * bpp + k]);
    }
}

/// The output after the first `rows` rows, and `cols` bytes of the next,
/// were written.
pub open spec fn scale_progress(
    src: Seq<u8>,
    src_pitch: int,
    src_width: int,
    src_height: int,
    layout: ScaledLayout,
    bpp: int,
    dst: Seq<u8>,
    dst_pitch: int,
    dst_width: int,
    rows: int,
    cols: int,
) -> Seq<u8> {
    Seq::new(
        dst.len(),
        |i: int|
            if dst_pitch > 0 && i % dst_pitch < dst_width * bpp && (i / dst_pitch < rows || (i
                / dst_pitch == rows && i % dst_pitch < cols)) {
                scaled_byte(
                    src,
                    src_pitch,
                    src_width,
                    src_height,
                    layout,
                    bpp,
                    (i % dst_pitch) / bpp,
                    i / dst_pitch,
                    (i % dst_pitch) % bpp,
                )
            } else {
                dst[i]
            },
    )
}

/// The output raster after the source is scaled onto it: every pixel of the
/// `dst_width` x `dst_height` area is written (the scaled source inside the
/// layout, black around it); bytes past a row's pixels are kept.
pub open spec fn scaled_output(
    src: Seq<u8>,
    src_pitch: usize,
    src_width: u32,
    src_height: u32,
    dst: Seq<u8>,
    dst_pitch: usize,
    dst_width: u32,
    dst_height: u32,
    format: TransferFormat,
) -> Seq<u8> {
    scale_progress(
        src,
        src_pitch as int,
        src_width as int,
        src_height as int,
        layout_of(src_width, src_height, dst_width, dst_height),
        format_bpp(format) as int,
        dst,
        dst_pitch as int,
        dst_width as int,
        dst_height as int,
        0,
    )
}

/// Writing byte `cols` of row `rows` extends the written part by that byte.
proof fn lemma_scale_step(
    src: Seq<u8>,
    src_pitch: int,
    src_width: int,
    src_height: int,
    layout: ScaledLayout,
    bpp: int,
    dst: Seq<u8>,
    dst_pitch: int,
    dst_width: int,
    rows: int,
    cols: int,
    j: int,
    v: u8,
)
    requires
        bpp > 0,
        dst_pitch > 0,
        rows >= 0,
        0 <= cols < dst_width * bpp,
        dst_width * bpp <= dst_pitch,
        j == rows * dst_pitch + cols,
        0 <= j < dst.len(),
        v == scaled_byte(src, src_pitch, src_width, src_height, layout, bpp, cols / bpp, rows, cols % bpp),
    ensures
        scale_progress(src, src_pitch, src_width, src_height, layout, bpp, dst, dst_pitch, dst_width, rows, cols).update(j, v)
            == scale_progress(src, src_pitch, src_width, src_height, layout, bpp, dst, dst_pitch, dst_width, rows, cols + 1),
{
    let before = scale_progress(src, src_pitch, src_width, src_height, layout, bpp, dst, dst_pitch, dst_width, rows, cols);
    let after = scale_progress(src, src_pitch, src_width, src_height, layout, bpp, dst, dst_pitch, dst_width, rows, cols + 1);
    lemma_fundamental_div_mod_converse(j, dst_pitch, rows, cols);
    assert forall|i: int| 0 <= i < dst.len() implies #[trigger] before.update(j, v)[i] == after[i] by {
        if i != j {
            lemma_fundamental_div_mod(i, dst_pitch);
            if i / dst_pitch == rows && i % dst_pitch == cols {
                assert(i == dst_pitch * rows + cols);
                assert(dst_pitch * rows == rows * dst_pitch) by (nonlinear_arith);
                assert(false);
            }
        }
    }
    assert(before.update(j, v) =~= after);
}

/// Finishing a row is the same as starting the next one.
proof fn lemma_scale_next_row(
    src: Seq<u8>,
    src_pitch: int,
    src_width: int,
    src_height: int,
    layout: ScaledLayout,
    bpp: int,
    dst: Seq<u8>,
    dst_pitch: int,
    dst_width: int,
    rows: int,
)
    ensures
        scale_progress(src, src_pitch, src_width, src_height, layout, bpp, dst, dst_pitch, dst_width, rows, dst_width * bpp)
            == scale_progress(src, src_pitch, src_width, src_height, layout, bpp, dst, dst_pitch, dst_width, rows + 1, 0),
{
    assert(scale_progress(src, src_pitch, src_width, src_height, layout, bpp, dst, dst_pitch, dst_width, rows, dst_width * bpp)
        =~= scale_progress(src, src_pitch, src_width, src_height, layout, bpp, dst, dst_pitch, dst_width, rows + 1, 0));
}

/// The nearest source index along one axis stays inside the source.
proof fn lemma_nearest_in_range(rel: int, src_size: int, dst_size: int)
    requires
        0 <= rel < dst_size,
        src_size > 0,
    ensures
        0 <= rel * src_size / dst_size < src_size,
{
    assert(0 <= rel * src_size / dst_size < src_size) by (nonlinear_arith)
        requires
            0 <= rel < dst_size,
            src_size > 0,
    {
        assert(rel * src_size < dst_size * src_size);
        assert((rel * src_size / dst_size) * dst_size <= rel * src_size);
    }
}

/// Scales the source raster to fit the output, centred and letterboxed in
/// black, with nearest-neighbour sampling. Both rasters are checked first;
/// nothing is written if a check fails. Returns the layout and how long it
/// took.
pub fn scale_to_fit(
    src: &[u8],
    src_pitch: usize,
    src_width: u32,
    src_height: u32,
    dst: &mut [u8],
    dst_pitch: usize,
    dst_width: u32,
    dst_height: u32,
    format: TransferFormat,
) -> (r: Result<(ScaledLayout, u128), ScaleError>)
    ensures
        match compute_layout_outcome(src_width, src_height, dst_width, dst_height) {
            Err(e) => r == Err::<(ScaledLayout, u128), ScaleError>(ScaleError::Layout(e)),
            Ok(layout) => {
                let bpp = format_bpp(format);
                match raster_outcome(src@.len(), src_pitch, src_width as usize, src_height as usize, bpp) {
                    Err(e) => r == Err::<(ScaledLayout, u128), ScaleError>(ScaleError::Source(e)),
                    Ok(()) => match raster_outcome(
                        old(dst)@.len(),
                        dst_pitch,
                        dst_width as usize,
                        dst_height as usize,
                        bpp,
                    ) {
                        Err(e) => r == Err::<(ScaledLayout, u128), ScaleError>(
                            ScaleError::Destination(e),
                        ),
                        Ok(()) => r matches Ok((l, _)) && l == layout,
                    },
                }
            },
        },
        r is Err ==> final(dst)@ == old(dst)@,
        r is Ok ==> final(dst)@ == scaled_output(
            src@,
            src_pitch,
            src_width,
            src_height,
            old(dst)@,
            dst_pitch,
            dst_width,
            dst_height,
            format,
        ),
{
    let start = crate::clock::monotonic_now();
    let layout = match compute_scaled_layout(src_width, src_height, dst_width, dst_height) {
        Ok(l) => l,
        Err(e) => return Err(ScaleError::Layout(e)),
    };
    let bpp = format.bytes_per_pixel();
    match validate_raster(src, src_pitch, src_width as usize, src_height as usize, bpp) {
        Ok(()) => {},
        Err(e) => return Err(ScaleError::Source(e)),
    }
    match validate_raster(dst, dst_pitch, dst_width as usize, dst_height as usize, bpp) {
        Ok(()) => {},
        Err(e) => return Err(ScaleError::Destination(e)),
    }
    let ghost orig = dst@;
    let ghost sp = src_pitch as int;
    let ghost sw = src_width as int;
    let ghost sh = src_height as int;
    let ghost dp = dst_pitch as int;
    let ghost dw = dst_width as int;
    let dw_u = dst_width as usize;
    let dh_u = dst_height as usize;
    let row_bytes = dw_u * bpp;
    let src_len = src.len();
    let dst_len = dst.len();
    assert(src@.len() == src_len && dst@.len() == dst_len);
    assert(row_bytes >= bpp) by (nonlinear_arith)
        requires
            dw_u >= 1,
            row_bytes == dw_u * bpp,
    ;
    assert(dst@ =~= scale_progress(src@, sp, sw, sh, layout, bpp as int, orig, dp, dw, 0, 0));
    let mut y: usize = 0;
    while y < dh_u
        invariant
            0 <= y <= dh_u,
            dh_u == dst_height,
            dw_u == dst_width,
            bpp == format_bpp(format),
            bpp > 0,
            row_bytes == dw_u * bpp,
            row_bytes <= dst_pitch,
            dst_pitch > 0,
            dst_pitch * dh_u <= dst@.len(),
            dst@.len() == orig.len(),
            dst@.len() <= usize::MAX,
            src_pitch >= src_width * bpp,
            src_pitch * src_height <= src@.len(),
            src@.len() <= usize::MAX,
            layout == layout_of(src_width, src_height, dst_width, dst_height),
            1 <= layout.dst_width && layout.dst_x + layout.dst_width <= dst_width,
            1 <= layout.dst_height && layout.dst_y + layout.dst_height <= dst_height,
            sp == src_pitch,
            sw == src_width,
            sh == src_height,
            src_width > 0 && src_height > 0,
            dp == dst_pitch,
            dw == dst_width,
            dst@ == scale_progress(src@, sp, sw, sh, layout, bpp as int, orig, dp, dw, y as int, 0),
        decreases dh_u - y,
    {
        assert(y * dst_pitch + dst_pitch <= dst_pitch * dh_u) by (nonlinear_arith)
            requires
                y < dh_u,
        ;
        let row = y * dst_pitch;
        let in_rows = layout.dst_y <= y && y < layout.dst_y + layout.dst_height;
        let src_row: usize = if in_rows {
            let rel = (y - layout.dst_y) as u64;
            proof {
                lemma_nearest_in_range(rel as int, sh, layout.dst_height as int);
                assert(rel * src_height as u64 <= 0xffff_ffff * 0xffff_ffff) by (nonlinear_arith)
                    requires
                        rel <= 0xffff_ffff,
                        src_height <= 0xffff_ffff,
                ;
            }
            let sy = (rel * src_height as u64 / layout.dst_height as u64) as usize;
            assert(sy * src_pitch + src_pitch <= src_pitch * src_height) by (nonlinear_arith)
                requires
                    sy < src_height,
            ;
            sy * src_pitch
        } else {
            0
        };
        let mut x: usize = 0;
        let mut col: usize = 0;
        while x < dw_u
            invariant
                0 <= x <= dw_u,
                col == x * bpp,
                0 <= y < dh_u,
                dh_u == dst_height,
                dw_u == dst_width,
                bpp == format_bpp(format),
                bpp > 0,
                row_bytes == dw_u * bpp,
                row_bytes <= dst_pitch,
                dst_pitch > 0,
                row == y * dst_pitch,
                row + dst_pitch <= dst@.len(),
                dst@.len() == orig.len(),
                dst@.len() <= usize::MAX,
                src_pitch >= src_width * bpp,
                src_pitch * src_height <= src@.len(),
                src@.len() <= usize::MAX,
                in_rows == (layout.dst_y <= y && y < layout.dst_y + layout.dst_height),
                in_rows ==> src_row == ((y - layout.dst_y) * sh / (layout.dst_height as int)) * src_pitch
                    && src_row + src_pitch <= src@.len(),
                layout == layout_of(src_width, src_height, dst_width, dst_height),
                1 <= layout.dst_width && layout.dst_x + layout.dst_width <= dst_width,
                1 <= layout.dst_height && layout.dst_y + layout.dst_height <= dst_height,
                sp == src_pitch,
                sw == src_width,
                sh == src_height,
                src_width > 0 && src_height > 0,
                dp == dst_pitch,
                dw == dst_width,
                dst@ == scale_progress(src@, sp, sw, sh, layout, bpp as int, orig, dp, dw, y as int, col as int),
            decreases dw_u - x,
        {
            let in_rect = in_rows && layout.dst_x <= x && x < layout.dst_x + layout.dst_width;
            let src_pixel: usize = if in_rect {
                let rel = (x - layout.dst_x) as u64;
                proof {
                    lemma_nearest_in_range(rel as int, sw, layout.dst_width as int);
                    assert(rel * src_width as u64 <= 0xffff_ffff * 0xffff_ffff) by (nonlinear_arith)
                        requires
                            rel <= 0xffff_ffff,
                            src_width <= 0xffff_ffff,
                    ;
                }
                let sx = (rel * src_width as u64 / layout.dst_width as u64) as usize;
                assert(sx * bpp + bpp <= src_width * bpp) by (nonlinear_arith)
                    requires
                        sx < src_width,
                ;
                src_row + sx * bpp
            } else {
                0
            };
            assert(col + bpp <= row_bytes) by (nonlinear_arith)
                requires
                    x < dw_u,
                    col == x * bpp,
                    row_bytes == dw_u * bpp,
            ;
            let mut k: usize = 0;
            while k < bpp
                invariant
                    0 <= k <= bpp,
                    col == x * bpp,
                    col + bpp <= row_bytes,
                    0 <= x < dw_u,
                    0 <= y < dh_u,
                    bpp > 0,
                    row_bytes == dw_u * bpp,
                    row_bytes <= dst_pitch,
                    dst_pitch > 0,
                    row == y * dst_pitch,
                    row + dst_pitch <= dst@.len(),
                    dst@.len() == orig.len(),
                    dst@.len() <= usize::MAX,
                    src@.len() <= usize::MAX,
                    in_rect == (layout.dst_y <= y && y < layout.dst_y + layout.dst_height
                        && layout.dst_x <= x && x < layout.dst_x + layout.dst_width),
                    in_rect ==> src_pixel == ((y - layout.dst_y) * sh / (layout.dst_height as int))
                        * src_pitch + ((x - layout.dst_x) * sw / (layout.dst_width as int)) * bpp
                        && src_pixel + bpp <= src@.len(),
                    sp == src_pitch,
                    sw == src_width,
                    sh == src_height,
                    dp == dst_pitch,
                    dw == dst_width,
                    dw_u == dst_width,
                    dst@ == scale_progress(src@, sp, sw, sh, layout, bpp as int, orig, dp, dw, y as int, (col + k) as int),
                decreases bpp - k,
            {
                let v: u8 = if in_rect {
                    src[src_pixel + k]
                } else {
                    0
                };
                proof {
                    lemma_fundamental_div_mod_converse((col + k) as int, bpp as int, x as int, k as int);
                    lemma_scale_step(
                        src@,
                        sp,
                        sw,
                        sh,
                        layout,
                        bpp as int,
                        orig,
                        dp,
                        dw,
                        y as int,
                        (col + k) as int,
                        (row + col + k) as int,
                        v,
                    );
                }
                dst[row + col + k] = v;
                k = k + 1;
            }
            col = col + bpp;
            x = x + 1;
        }
        proof {
            lemma_scale_next_row(src@, sp, sw, sh, layout, bpp as int, orig, dp, dw, y as int);
        }
        y = y + 1;
    }
    Ok((layout, crate::clock::millis_since(&start)))
}

/// Whether a layout can be made, and which.
pub open spec fn compute_layout_outcome(src_width: u32, src_height: u32, dst_width: u32, dst_height: u32) -> Result<
    ScaledLayout,
    LayoutError,
> {
    if src_width == 0 {
        Err(LayoutError::ZeroSourceWidth)
    } else if src_height == 0 {
        Err(LayoutError::ZeroSourceHeight)
    } else if dst_width == 0 {
        Err(LayoutError::ZeroDestinationWidth)
    } else if dst_height == 0 {
        Err(LayoutError::ZeroDestinationHeight)
    } else {
        Ok(layout_of(src_width, src_height, dst_width, dst_height))
    }
}

/// The transfer formats agree with each other everywhere they are named:
/// a pixel's encoding is exactly as many bytes as the format's bytes per
/// pixel, which is its bits per pixel over eight and what the GUD protocol
/// counts for the format's GUD code.
pub proof fn lemma_transfer_format_sizes_agree(format: TransferFormat, c: RgbColor)
    ensures
        encode_color(format, c).len() == format_bpp(format),
        crate::protocol::format_bytes_per_pixel(match format {
            TransferFormat::Rgb565 => GUD_PIXEL_FORMAT_RGB565,
            TransferFormat::Rgb888 => GUD_PIXEL_FORMAT_RGB888,
            TransferFormat::Xrgb8888 => GUD_PIXEL_FORMAT_XRGB8888,
        }) == Some(format_bpp(format)),
        format == TransferFormat::Xrgb8888 ==> encode_color(format, c)[3] == 0,
{
}

} // verus!
