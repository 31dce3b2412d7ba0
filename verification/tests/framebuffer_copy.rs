use gud_gadget::endpoint::PixelDataEndpoint;
use gud_gadget::gud::SetBuffer;

#[test]
fn copy_buffer_to_framebuffer_copies_full_frame() {
    let info = SetBuffer {
        x: 0,
        y: 0,
        width: 2,
        height: 2,
        length: 8,
        compression: 0,
        compressed_length: 0,
    };
    let src = [1_u8, 2, 3, 4, 5, 6, 7, 8];
    let mut fb = [0_u8; 8];

    PixelDataEndpoint::copy_buffer_to_framebuffer(&info, &src, &mut fb, 4, 2).unwrap();

    assert_eq!(fb, src);
}

#[test]
fn copy_buffer_to_framebuffer_honors_offsets_and_pitch() {
    let info = SetBuffer {
        x: 1,
        y: 1,
        width: 2,
        height: 2,
        length: 8,
        compression: 0,
        compressed_length: 0,
    };
    let src = [10_u8, 11, 12, 13, 20, 21, 22, 23];
    let mut fb = [0xaa_u8; 24];

    PixelDataEndpoint::copy_buffer_to_framebuffer(&info, &src, &mut fb, 8, 2).unwrap();

    assert_eq!(&fb[0..8], &[0xaa; 8]);
    assert_eq!(&fb[8..16], &[0xaa, 0xaa, 10, 11, 12, 13, 0xaa, 0xaa]);
    assert_eq!(&fb[16..24], &[0xaa, 0xaa, 20, 21, 22, 23, 0xaa, 0xaa]);
}

#[test]
fn copy_buffer_to_framebuffer_rejects_short_payload() {
    let info = SetBuffer {
        x: 0,
        y: 0,
        width: 2,
        height: 2,
        length: 8,
        compression: 0,
        compressed_length: 0,
    };
    let src = [1_u8, 2, 3, 4, 5, 6];
    let mut fb = [0_u8; 8];

    let err =
        PixelDataEndpoint::copy_buffer_to_framebuffer(&info, &src, &mut fb, 4, 2).unwrap_err();

    assert!(
        err.message().contains("payload too short"),
        "unexpected error: {}",
        err.message()
    );
}

#[test]
fn copy_refuses_small_pitch_short_framebuffer_and_zero_bpp_without_writing() {
    let info = SetBuffer {
        x: 1,
        y: 0,
        width: 2,
        height: 2,
        length: 8,
        compression: 0,
        compressed_length: 0,
    };
    let src = [9_u8; 8];
    let mut fb = [0_u8; 12];

    let err = PixelDataEndpoint::copy_buffer_to_framebuffer(&info, &src, &mut fb, 5, 2).unwrap_err();
    assert_eq!(
        err.message(),
        "framebuffer pitch 5 is too small for update x=1 width=2 bpp=2"
    );
    let err = PixelDataEndpoint::copy_buffer_to_framebuffer(&info, &src, &mut fb[..11], 6, 2)
        .unwrap_err();
    assert_eq!(
        err.message(),
        "framebuffer too short: got 11 bytes, need at least 12 for update ending at row 2"
    );
    let err = PixelDataEndpoint::copy_buffer_to_framebuffer(&info, &src, &mut fb, 6, 0).unwrap_err();
    assert_eq!(err.message(), "bytes per pixel must be greater than zero");
    assert_eq!(fb, [0_u8; 12]);
}

#[test]
fn copy_with_stats_reports_success_like_the_plain_copy() {
    let info = SetBuffer {
        x: 0,
        y: 1,
        width: 1,
        height: 1,
        length: 3,
        compression: 0,
        compressed_length: 0,
    };
    let src = [7_u8, 8, 9];
    let mut fb = [0_u8; 6];
    PixelDataEndpoint::copy_buffer_to_framebuffer_with_stats(&info, &src, &mut fb, 3, 3).unwrap();
    assert_eq!(fb, [0, 0, 0, 7, 8, 9]);
}
