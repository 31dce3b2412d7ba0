use std::path::PathBuf;

use gud_gadget::viewer::{default_framebuffer_path, default_runtime_dir, default_socket_path, rgb565_to_rgba};

#[test]
fn converts_rgb565_to_rgba() {
    let pixels = [
        0x00, 0xf8, // red
        0xe0, 0x07, // green
        0x1f, 0x00, // blue
        0xff, 0xff, // white
    ];

    let rgba = rgb565_to_rgba(2, 2, 4, &pixels).expect("convert framebuffer");
    assert_eq!(
        rgba,
        vec![255, 0, 0, 255, 0, 255, 0, 255, 0, 0, 255, 255, 255, 255, 255, 255,]
    );
}

#[test]
fn default_paths_include_runtime_dir() {
    assert_eq!(
        PathBuf::from(default_socket_path(10000)),
        PathBuf::from("/run/user/10000/gud-viewer/control.sock")
    );
    assert_eq!(
        PathBuf::from(default_framebuffer_path(10000)),
        PathBuf::from("/run/user/10000/gud-viewer/framebuffer.bin")
    );
}

#[test]
fn runtime_dir_renders_uid_in_decimal() {
    assert_eq!(default_runtime_dir(0), "/run/user/0/gud-viewer");
    assert_eq!(default_runtime_dir(u32::MAX), "/run/user/4294967295/gud-viewer");
}

#[test]
fn rgb565_conversion_honors_stride_and_rejects_short_buffers() {
    let pixels = [0x1f, 0x00, 0xaa, 0xbb, 0x00, 0xf8, 0xcc, 0xdd];
    let rgba = rgb565_to_rgba(1, 2, 4, &pixels).unwrap();
    assert_eq!(rgba, vec![0, 0, 255, 255, 255, 0, 0, 255]);
    let err = rgb565_to_rgba(1, 2, 4, &pixels[..7]).unwrap_err();
    assert_eq!(err.message(), "shared framebuffer too short: got 7 bytes, need at least 8");
    assert!(rgb565_to_rgba(0, 0, usize::MAX, &[]).unwrap().is_empty());
}
