use gud_gadget::gud::{GUD_PIXEL_FORMAT_RGB565, GUD_PIXEL_FORMAT_RGB888, GUD_PIXEL_FORMAT_XRGB8888};
use gud_gadget::display::{
    encode_ppm, compute_scaled_layout, derive_mode_from_native, read_pixel, scale_to_fit, write_pixel,
    LayoutError, RasterError, RgbColor, ScaleError, ScaledLayout, TransferFormat,
};
use gud_gadget::endpoint::PixelDataEndpoint;
use gud_gadget::gud::{DisplayMode, SetBuffer, GUD_DISPLAY_MODE_FLAG_PREFERRED};

const BLACK: RgbColor = RgbColor { r: 0, g: 0, b: 0 };
const RED: RgbColor = RgbColor { r: 255, g: 0, b: 0 };
const GREEN: RgbColor = RgbColor { r: 0, g: 255, b: 0 };
const BLUE: RgbColor = RgbColor { r: 0, g: 0, b: 255 };
const WHITE: RgbColor = RgbColor { r: 255, g: 255, b: 255 };

fn native_mode() -> DisplayMode {
    DisplayMode {
        clock: 174_359,
        hdisplay: 1080,
        hsync_start: 1192,
        hsync_end: 1208,
        htotal: 1244,
        vdisplay: 2280,
        vsync_start: 2316,
        vsync_end: 2324,
        vtotal: 2336,
        flags: GUD_DISPLAY_MODE_FLAG_PREFERRED,
    }
}

#[test]
fn compute_scaled_layout_preserves_aspect_ratio_for_4_3_mode() {
    assert_eq!(
        compute_scaled_layout(1024, 768, 1080, 2280).unwrap(),
        ScaledLayout { dst_x: 0, dst_y: 735, dst_width: 1080, dst_height: 810 }
    );
}

#[test]
fn compute_scaled_layout_keeps_native_mode_fullscreen() {
    assert_eq!(
        compute_scaled_layout(1080, 2280, 1080, 2280).unwrap(),
        ScaledLayout { dst_x: 0, dst_y: 0, dst_width: 1080, dst_height: 2280 }
    );
}

#[test]
fn compute_scaled_layout_centers_tall_source() {
    assert_eq!(
        compute_scaled_layout(720, 2280, 1080, 2280).unwrap(),
        ScaledLayout { dst_x: 180, dst_y: 0, dst_width: 720, dst_height: 2280 }
    );
}

#[test]
fn compute_scaled_layout_refuses_empty_rasters() {
    assert_eq!(compute_scaled_layout(0, 1, 1, 1), Err(LayoutError::ZeroSourceWidth));
    assert_eq!(compute_scaled_layout(1, 0, 1, 1), Err(LayoutError::ZeroSourceHeight));
    assert_eq!(compute_scaled_layout(1, 1, 0, 1), Err(LayoutError::ZeroDestinationWidth));
    assert_eq!(compute_scaled_layout(1, 1, 1, 0), Err(LayoutError::ZeroDestinationHeight));
}

#[test]
fn derive_mode_from_native_preserves_portrait_shape() {
    let derived = derive_mode_from_native(&native_mode(), 720, 1520);

    assert_eq!(derived.hdisplay, 720);
    assert_eq!(derived.vdisplay, 1520);
    assert!(derived.hsync_start > derived.hdisplay);
    assert!(derived.hsync_end > derived.hsync_start);
    assert!(derived.htotal > derived.hsync_end);
    assert!(derived.vsync_start > derived.vdisplay);
    assert!(derived.vsync_end > derived.vsync_start);
    assert!(derived.vtotal > derived.vsync_end);
    assert_eq!(derived.flags, 0);
}

#[test]
fn scale_to_fit_copies_pixels_and_preserves_padding_for_supported_formats() {
    for format in [TransferFormat::Rgb565, TransferFormat::Xrgb8888] {
        let bpp = format.bytes_per_pixel();
        let src_pitch = 2 * bpp + 3;
        let mut src = vec![0xee; src_pitch * 2];
        write_pixel(&mut src, src_pitch, 0, 0, format, RED).unwrap();
        write_pixel(&mut src, src_pitch, 1, 0, format, GREEN).unwrap();
        write_pixel(&mut src, src_pitch, 0, 1, format, BLUE).unwrap();
        write_pixel(&mut src, src_pitch, 1, 1, format, WHITE).unwrap();
        let dst_pitch = 4 * bpp + 5;
        let mut dst = vec![0xcc; dst_pitch * 4];
        let (layout, _) =
            scale_to_fit(&src, src_pitch, 2, 2, &mut dst, dst_pitch, 4, 4, format).unwrap();
        assert_eq!(layout, ScaledLayout { dst_x: 0, dst_y: 0, dst_width: 4, dst_height: 4 });
        assert_eq!(read_pixel(&dst, dst_pitch, 0, 0, format).unwrap(), RED);
        assert_eq!(read_pixel(&dst, dst_pitch, 3, 0, format).unwrap(), GREEN);
        assert_eq!(read_pixel(&dst, dst_pitch, 0, 3, format).unwrap(), BLUE);
        assert_eq!(read_pixel(&dst, dst_pitch, 3, 3, format).unwrap(), WHITE);
        assert!(dst
            .chunks_exact(dst_pitch)
            .all(|row| row[4 * bpp..].iter().all(|byte| *byte == 0xcc)));
    }
}

#[test]
fn scale_to_fit_centers_and_letterboxes_and_rejects_invalid_rasters() {
    let mut src = vec![0; 4 * 2];
    write_pixel(&mut src, 4, 0, 0, TransferFormat::Rgb565, RED).unwrap();
    write_pixel(&mut src, 4, 1, 0, TransferFormat::Rgb565, GREEN).unwrap();
    let mut dst = vec![0xff; 4 * 4 * 2];
    let (layout, _) =
        scale_to_fit(&src, 4, 2, 1, &mut dst, 8, 4, 4, TransferFormat::Rgb565).unwrap();
    assert_eq!(layout, ScaledLayout { dst_x: 0, dst_y: 1, dst_width: 4, dst_height: 2 });
    assert_eq!(read_pixel(&dst, 8, 0, 0, TransferFormat::Rgb565).unwrap(), BLACK);
    assert_eq!(read_pixel(&dst, 8, 0, 1, TransferFormat::Rgb565).unwrap(), RED);
    assert!(scale_to_fit(&src[..3], 4, 2, 1, &mut dst, 8, 4, 4, TransferFormat::Rgb565).is_err());
    assert!(scale_to_fit(&src, 3, 2, 1, &mut dst, 8, 4, 4, TransferFormat::Rgb565).is_err());
    assert!(scale_to_fit(&src, 4, 2, 1, &mut dst[..7], 8, 4, 4, TransferFormat::Rgb565).is_err());
    assert!(scale_to_fit(&src, 4, 2, 1, &mut dst, 7, 4, 4, TransferFormat::Rgb565).is_err());
}

#[test]
fn scale_to_fit_reports_which_raster_was_refused() {
    let src = vec![0u8; 8];
    let mut dst = vec![0x55u8; 32];
    assert!(matches!(
        scale_to_fit(&src, 4, 0, 1, &mut dst, 8, 4, 4, TransferFormat::Rgb565),
        Err(ScaleError::Layout(LayoutError::ZeroSourceWidth))
    ));
    assert!(matches!(
        scale_to_fit(&src, 3, 2, 1, &mut dst, 8, 4, 4, TransferFormat::Rgb565),
        Err(ScaleError::Source(_))
    ));
    assert!(matches!(
        scale_to_fit(&src, 4, 2, 1, &mut dst, 7, 4, 4, TransferFormat::Rgb565),
        Err(ScaleError::Destination(_))
    ));
    assert!(dst.iter().all(|b| *b == 0x55));
}

#[test]
fn pixels_round_trip_in_every_format() {
    let color = RgbColor { r: 0x12, g: 0x34, b: 0x56 };
    for format in [TransferFormat::Rgb888, TransferFormat::Xrgb8888] {
        let mut fb = vec![0u8; 3 * 4 * 2];
        write_pixel(&mut fb, 12, 2, 1, format, color).unwrap();
        assert_eq!(read_pixel(&fb, 12, 2, 1, format).unwrap(), color);
    }
    let mut fb = vec![0u8; 4];
    write_pixel(&mut fb, 4, 1, 0, TransferFormat::Rgb565, WHITE).unwrap();
    assert_eq!(fb, vec![0, 0, 0xff, 0xff]);
    assert_eq!(read_pixel(&fb, 4, 1, 0, TransferFormat::Rgb565).unwrap(), WHITE);
    assert!(matches!(
        write_pixel(&mut fb, 4, 2, 0, TransferFormat::Rgb565, WHITE),
        Err(RasterError::PixelOutOfRange { .. })
    ));
}

#[test]
fn copy_path_accepts_all_supported_pixel_widths_and_rejects_short_destination() {
    let info = SetBuffer {
        x: 1,
        y: 1,
        width: 2,
        height: 1,
        length: 0,
        compression: 0,
        compressed_length: 0,
    };
    for bpp in [2, 3, 4] {
        let src = (0..2 * bpp).map(|value| value as u8).collect::<Vec<_>>();
        let mut dst = vec![0; 4 * bpp * 2];
        PixelDataEndpoint::copy_buffer_to_framebuffer(&info, &src, &mut dst, 4 * bpp, bpp)
            .unwrap();
        assert_eq!(&dst[5 * bpp..7 * bpp], &src);
        assert!(PixelDataEndpoint::copy_buffer_to_framebuffer(
            &info,
            &src,
            &mut dst[..4 * bpp],
            4 * bpp,
            bpp,
        )
        .is_err());
    }
}

const CYAN: RgbColor = RgbColor { r: 0, g: 255, b: 255 };
const MAGENTA: RgbColor = RgbColor { r: 255, g: 0, b: 255 };
const YELLOW: RgbColor = RgbColor { r: 255, g: 255, b: 0 };

#[test]
fn transfer_format_metadata_matches_drm_and_gud() {
    assert_eq!(
        (
            TransferFormat::Rgb565.gud_pixel_format(),
            TransferFormat::Rgb565.drm_fourcc_name(),
            TransferFormat::Rgb565.depth(),
            TransferFormat::Rgb565.bpp(),
            TransferFormat::Rgb565.bytes_per_pixel(),
        ),
        (GUD_PIXEL_FORMAT_RGB565, "Rgb565", 16, 16, 2)
    );
    assert_eq!(
        (
            TransferFormat::Rgb888.gud_pixel_format(),
            TransferFormat::Rgb888.drm_fourcc_name(),
            TransferFormat::Rgb888.depth(),
            TransferFormat::Rgb888.bpp(),
            TransferFormat::Rgb888.bytes_per_pixel(),
        ),
        (GUD_PIXEL_FORMAT_RGB888, "Rgb888", 24, 24, 3)
    );
    assert_eq!(
        (
            TransferFormat::Xrgb8888.gud_pixel_format(),
            TransferFormat::Xrgb8888.drm_fourcc_name(),
            TransferFormat::Xrgb8888.depth(),
            TransferFormat::Xrgb8888.bpp(),
            TransferFormat::Xrgb8888.bytes_per_pixel(),
        ),
        (GUD_PIXEL_FORMAT_XRGB8888, "Xrgb8888", 24, 32, 4)
    );
}

#[test]
fn pixel_encoding_has_expected_little_endian_drm_layout() {
    let colors = [
        (BLACK, [0, 0, 0, 0]),
        (WHITE, [255, 255, 255, 0]),
        (RED, [0, 0, 255, 0]),
        (GREEN, [0, 255, 0, 0]),
        (BLUE, [255, 0, 0, 0]),
        (CYAN, [255, 255, 0, 0]),
        (MAGENTA, [255, 0, 255, 0]),
        (YELLOW, [0, 255, 255, 0]),
    ];

    for (color, xrgb_bytes) in colors {
        for format in [TransferFormat::Rgb565, TransferFormat::Rgb888, TransferFormat::Xrgb8888] {
            let mut fb = vec![0; format.bytes_per_pixel()];
            let pitch = fb.len();
            write_pixel(&mut fb, pitch, 0, 0, format, color).unwrap();
            match format {
                TransferFormat::Rgb565 => {
                    let expected = ((color.r as u16 >> 3) << 11)
                        | ((color.g as u16 >> 2) << 5)
                        | (color.b as u16 >> 3);
                    assert_eq!(fb, expected.to_le_bytes());
                }
                TransferFormat::Rgb888 => assert_eq!(&fb, &xrgb_bytes[..3]),
                TransferFormat::Xrgb8888 => assert_eq!(&fb, &xrgb_bytes),
            }
        }
    }
}

#[test]
fn ppm_dump_decodes_all_supported_formats_in_logical_rgb_order() {
    for format in [TransferFormat::Rgb565, TransferFormat::Rgb888, TransferFormat::Xrgb8888] {
        let bpp = format.bytes_per_pixel();
        let mut fb = vec![0; 2 * bpp];
        write_pixel(&mut fb, 2 * bpp, 0, 0, format, RED).unwrap();
        write_pixel(&mut fb, 2 * bpp, 1, 0, format, CYAN).unwrap();
        if format == TransferFormat::Xrgb8888 {
            fb[3] = 0x7f;
            fb[7] = 0xa5;
        }
        let ppm = encode_ppm(&fb, 2 * bpp, 2, 1, format).unwrap();
        assert_eq!(&ppm[..11], b"P6\n2 1\n255\n");
        assert_eq!(&ppm[11..14], &[255, 0, 0]);
        assert_eq!(&ppm[14..17], &[0, 255, 255]);
    }
    assert!(encode_ppm(&[0u8; 3], 4, 2, 1, TransferFormat::Rgb565).is_err());
}
