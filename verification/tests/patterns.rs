use gud_gadget::display::{read_pixel, RgbColor, TransferFormat};
use gud_gadget::gud::{GUD_PIXEL_FORMAT_RGB565, GUD_PIXEL_FORMAT_RGB888, GUD_PIXEL_FORMAT_XRGB8888};
use gud_gadget::paint::{
    diagnostic_pattern_color, fill_diagnostic_pattern_rect, fill_solid, PatternError,
};
use gud_gadget::scanout::logical_memory_estimate;
use gud_gadget::shadow::{ShadowActivation, ShadowFramebuffer, ShadowRasterIdentity};
use gud_gadget::waiting::{
    compute_waiting_layout, render_waiting_screen, waiting_scene_glyph, waiting_screen_line,
    RGB565_GREEN, RGB565_WHITE, WAITING_LINE_COUNT,
};

const BLUE: RgbColor = RgbColor { r: 0, g: 0, b: 255 };
const CYAN: RgbColor = RgbColor { r: 0, g: 255, b: 255 };
const MAGENTA: RgbColor = RgbColor { r: 255, g: 0, b: 255 };
const WHITE: RgbColor = RgbColor { r: 255, g: 255, b: 255 };
const DARK_GRAY: RgbColor = RgbColor { r: 66, g: 65, b: 66 };
const LIGHT_GRAY: RgbColor = RgbColor { r: 198, g: 195, b: 198 };
const ORANGE: RgbColor = RgbColor { r: 255, g: 166, b: 0 };

#[test]
fn diagnostic_pattern_is_equivalent_and_partial_updates_stay_in_rect() {
    let width = 400usize;
    let height = 300usize;
    let mut rgb565 = vec![0xaa; width * height * 2];
    let mut xrgb = vec![0xaa; width * height * 4];
    fill_diagnostic_pattern_rect(
        &mut rgb565,
        width * 2,
        width as u32,
        height as u32,
        0,
        0,
        width as u32,
        height as u32,
        TransferFormat::Rgb565,
    )
    .unwrap();
    fill_diagnostic_pattern_rect(
        &mut xrgb,
        width * 4,
        width as u32,
        height as u32,
        0,
        0,
        width as u32,
        height as u32,
        TransferFormat::Xrgb8888,
    )
    .unwrap();

    for (x, y, expected) in [
        (180, 100, LIGHT_GRAY),
        (50, 50, WHITE),
        (350, 50, CYAN),
        (50, 250, MAGENTA),
        (350, 250, ORANGE),
        (160, 100, DARK_GRAY),
        (200, 150, MAGENTA),
    ] {
        assert_eq!(read_pixel(&xrgb, width * 4, x, y, TransferFormat::Xrgb8888).unwrap(), expected);
        let decoded = read_pixel(&rgb565, width * 2, x, y, TransferFormat::Rgb565).unwrap();
        assert!((decoded.r as i16 - expected.r as i16).abs() <= 7);
        assert!((decoded.g as i16 - expected.g as i16).abs() <= 3);
        assert!((decoded.b as i16 - expected.b as i16).abs() <= 7);
    }

    let mut partial = vec![0x5a; width * height * 4];
    fill_diagnostic_pattern_rect(
        &mut partial,
        width * 4,
        width as u32,
        height as u32,
        100,
        100,
        50,
        50,
        TransferFormat::Xrgb8888,
    )
    .unwrap();
    assert!(partial[..100 * width * 4].iter().all(|byte| *byte == 0x5a));
    assert_eq!(
        read_pixel(&partial, width * 4, 120, 120, TransferFormat::Xrgb8888).unwrap(),
        diagnostic_pattern_color(120, 120, width, height)
    );
}

#[test]
fn diagnostic_borders_and_refused_rectangles() {
    assert_eq!(diagnostic_pattern_color(10, 130, 400, 300), BLUE);
    assert_eq!(diagnostic_pattern_color(150, 10, 400, 300), RgbColor { r: 255, g: 0, b: 0 });
    assert_eq!(diagnostic_pattern_color(390, 130, 400, 300), RgbColor { r: 255, g: 255, b: 0 });
    assert_eq!(diagnostic_pattern_color(150, 290, 400, 300), RgbColor { r: 0, g: 255, b: 0 });
    let mut fb = vec![0u8; 8 * 8 * 2];
    let before = fb.clone();
    assert_eq!(
        fill_diagnostic_pattern_rect(&mut fb, 16, 8, 8, 9, 0, 1, 1, TransferFormat::Rgb565),
        Err(PatternError::RectXBeyondWidth { x: 9, width: 8 })
    );
    assert_eq!(
        fill_diagnostic_pattern_rect(&mut fb, 16, 8, 8, 4, 0, 5, 1, TransferFormat::Rgb565),
        Err(PatternError::RectWidthBeyondWidth { rect_width: 5, x: 4, width: 8 })
    );
    assert_eq!(
        fill_diagnostic_pattern_rect(&mut fb, 16, 8, 8, 0, 4, 1, u32::MAX, TransferFormat::Rgb565),
        Err(PatternError::RectYOverflow)
    );
    assert!(matches!(
        fill_diagnostic_pattern_rect(&mut fb, 15, 8, 8, 0, 0, 1, 1, TransferFormat::Rgb565),
        Err(PatternError::Raster(_))
    ));
    assert_eq!(fb, before);
}

#[test]
fn solid_fill_paints_pixels_and_keeps_padding() {
    let mut fb = vec![0x11u8; 2 * 7];
    fill_solid(&mut fb, 7, 2, 2, TransferFormat::Rgb888, RgbColor { r: 1, g: 2, b: 3 }).unwrap();
    assert_eq!(fb, vec![3, 2, 1, 3, 2, 1, 0x11, 3, 2, 1, 3, 2, 1, 0x11]);
    assert!(fill_solid(&mut fb, 5, 2, 2, TransferFormat::Rgb888, WHITE).is_err());
}

#[test]
fn preallocated_shadow_preserves_identity_and_zeros_only_when_required() {
    let mut shadow = ShadowFramebuffer::preallocated(32).unwrap();
    let identity = ShadowRasterIdentity { width: 4, height: 4, format: GUD_PIXEL_FORMAT_RGB565 };
    assert_eq!(shadow.activate_scaled(identity).unwrap(), ShadowActivation::Zeroed);
    shadow.pixels[0..4].copy_from_slice(&[1, 2, 3, 4]);

    assert_eq!(shadow.activate_scaled(identity).unwrap(), ShadowActivation::Preserved);
    assert_eq!(&shadow.pixels[0..4], &[1, 2, 3, 4]);

    shadow.invalidate_content();
    assert_eq!(shadow.activate_scaled(identity).unwrap(), ShadowActivation::Zeroed);
    assert_eq!(&shadow.pixels[0..4], &[0, 0, 0, 0]);
}

#[test]
fn same_geometry_timing_change_preserves_partial_shadow_without_allocation() {
    let mut shadow = ShadowFramebuffer::preallocated(64).unwrap();
    let identity = ShadowRasterIdentity { width: 4, height: 4, format: GUD_PIXEL_FORMAT_RGB565 };
    shadow.activate_scaled(identity).unwrap();
    shadow.pixels[6..10].copy_from_slice(&[9, 8, 7, 6]);
    let capacity = shadow.pixels.capacity();

    assert_eq!(shadow.activate_scaled(identity).unwrap(), ShadowActivation::Preserved);
    assert_eq!(&shadow.pixels[6..10], &[9, 8, 7, 6]);
    assert_eq!(shadow.pixels.capacity(), capacity);
}

#[test]
fn shadow_format_or_geometry_change_zeros_once_without_reallocation() {
    let mut shadow = ShadowFramebuffer::preallocated(64).unwrap();
    let capacity = shadow.pixels.capacity();
    let rgb565 = ShadowRasterIdentity { width: 4, height: 4, format: GUD_PIXEL_FORMAT_RGB565 };
    shadow.activate_scaled(rgb565).unwrap();
    shadow.pixels[0] = 0xff;

    let format_change = ShadowRasterIdentity { format: GUD_PIXEL_FORMAT_RGB888, ..rgb565 };
    assert_eq!(shadow.activate_scaled(format_change).unwrap(), ShadowActivation::Zeroed);
    shadow.pixels[0] = 0xaa;

    let geometry_change = ShadowRasterIdentity { width: 2, height: 2, format: GUD_PIXEL_FORMAT_RGB565 };
    assert_eq!(shadow.activate_scaled(geometry_change).unwrap(), ShadowActivation::Zeroed);
    assert_eq!(shadow.pixels[0], 0);
    assert_eq!(shadow.pixels.capacity(), capacity);
}

#[test]
fn maximum_shadow_allocation_and_capacity_fail_before_use() {
    assert!(ShadowFramebuffer::preallocated(usize::MAX).is_err());
    let mut shadow = ShadowFramebuffer::preallocated(8).unwrap();
    assert!(shadow
        .activate_scaled(ShadowRasterIdentity { width: 3, height: 2, format: GUD_PIXEL_FORMAT_RGB565 })
        .is_err());
}

#[test]
fn memory_accounting_and_shadow_capacity_cover_format_sizes() {
    let dimensions = [(1280, 720)];
    let rgb565 = logical_memory_estimate(&dimensions, &dimensions, 2).unwrap();
    let rgb888 = logical_memory_estimate(&dimensions, &dimensions, 3).unwrap();
    let xrgb8888 = logical_memory_estimate(&dimensions, &dimensions, 4).unwrap();
    assert_eq!(rgb888.max_shadow_bytes * 2, rgb565.max_shadow_bytes * 3);
    assert_eq!(xrgb8888.max_shadow_bytes, rgb565.max_shadow_bytes * 2);

    let mut adequate = ShadowFramebuffer::preallocated(1280 * 720 * 4).unwrap();
    assert!(adequate
        .activate_scaled(ShadowRasterIdentity {
            width: 1280,
            height: 720,
            format: GUD_PIXEL_FORMAT_XRGB8888,
        })
        .is_ok());
    let mut insufficient = ShadowFramebuffer::preallocated(1280 * 720 * 4 - 1).unwrap();
    assert!(insufficient
        .activate_scaled(ShadowRasterIdentity {
            width: 1280,
            height: 720,
            format: GUD_PIXEL_FORMAT_XRGB8888,
        })
        .is_err());
}

#[test]
fn growing_shadow_is_remade_at_the_needed_length() {
    let mut shadow = ShadowFramebuffer::default();
    let identity = ShadowRasterIdentity { width: 3, height: 2, format: GUD_PIXEL_FORMAT_RGB888 };
    assert_eq!(shadow.activate_scaled(identity).unwrap(), ShadowActivation::Zeroed);
    assert_eq!(shadow.pixels.len(), 18);
    assert_eq!(shadow.pitch, 9);
    assert!(shadow.is_active(identity));
    assert!(shadow.ensure_size(ShadowRasterIdentity { format: 0x99, ..identity }).is_err());
}

#[test]
fn waiting_scene_supports_all_glyphs() {
    for index in 0..WAITING_LINE_COUNT {
        for ch in waiting_screen_line(index).chars() {
            assert!(waiting_scene_glyph(ch).is_some(), "missing glyph for {:?}", ch);
        }
    }
}

#[test]
fn waiting_screen_contains_black_white_and_green_pixels() {
    let width = 320usize;
    let height = 240usize;
    let pitch = width * 2;
    let mut fb = vec![0u8; pitch * height];

    render_waiting_screen(&mut fb, pitch, width as u32, height as u32, TransferFormat::Rgb565)
        .unwrap();

    let mut has_black = false;
    let mut has_white = false;
    let mut has_green = false;
    for chunk in fb.chunks_exact(2) {
        let pixel = u16::from_le_bytes([chunk[0], chunk[1]]);
        has_black |= pixel == 0;
        has_white |= pixel == RGB565_WHITE;
        has_green |= pixel == RGB565_GREEN;
    }

    assert!(has_black);
    assert!(has_white);
    assert!(has_green);
}

#[test]
fn xrgb_waiting_screen_is_completely_black_and_bounded() {
    let width = 3usize;
    let height = 2usize;
    let pitch = width * 4 + 3;
    let mut fb = vec![0xa5; pitch * height];
    render_waiting_screen(&mut fb, pitch, width as u32, height as u32, TransferFormat::Xrgb8888)
        .unwrap();
    for row in fb.chunks_exact(pitch) {
        assert!(row[..width * 4].iter().all(|byte| *byte == 0));
        assert!(row[width * 4..].iter().all(|byte| *byte == 0xa5));
    }
}

#[test]
fn waiting_scene_is_centred_at_the_largest_scale() {
    let layout = compute_waiting_layout(1080, 2280);
    assert_eq!(layout.scale, 6);
    assert_eq!(layout.origin_x, (1080 - 167 * 6) / 2);
    assert_eq!(layout.origin_y, (2280 - 39 * 6) / 2);
    assert_eq!((layout.highlight_start, layout.highlight_end), (17, 24));
    let mut fb = vec![0u8; 1080 * 2 * 2280];
    render_waiting_screen(&mut fb, 1080 * 2, 1080, 2280, TransferFormat::Rgb565).unwrap();
    // The top-left unit of the 'W' of "WAITING" is lit green.
    let x = layout.origin_x + 17 * 6 * layout.scale;
    let y = layout.origin_y + 8 * layout.scale;
    assert_eq!(read_pixel(&fb, 1080 * 2, x, y, TransferFormat::Rgb565).unwrap(), RgbColor { r: 0, g: 255, b: 0 });
    assert_eq!(read_pixel(&fb, 1080 * 2, 0, 0, TransferFormat::Rgb565).unwrap(), RgbColor { r: 0, g: 0, b: 0 });
}
