use gud_gadget::display::derive_mode_from_native;
use gud_gadget::gud::SetBuffer;
use gud_gadget::protocol::ActiveScanoutState;
use gud_gadget::publish::{
    build_advertised_modes, copy_rgb888_to_rgb565_framebuffer, default_native_mode,
    retain_delivered, runtime_paths, u32_setting_or, PublishedSession, Rgb888Error,
    udc_is_detached, UdcLinkState, ViewerPublisher, ViewerTransferFormat,
};
use gud_gadget::viewer::{PixelFormat, ServerMessage, PROTOCOL_VERSION};

#[test]
fn advertised_modes_are_native_then_portrait_fallbacks() {
    let native = default_native_mode();
    let modes = build_advertised_modes();
    assert_eq!(modes.len(), 4);
    assert_eq!(modes[0], native);
    assert_eq!(modes[1], derive_mode_from_native(&native, 900, 1900));
    assert_eq!((modes[2].hdisplay, modes[2].vdisplay), (810, 1710));
    assert_eq!((modes[3].hdisplay, modes[3].vdisplay), (720, 1520));
}

#[test]
fn rgb888_frames_land_converted_in_their_rectangle() {
    let info = SetBuffer { x: 1, y: 1, width: 2, height: 1, length: 6, compression: 0, compressed_length: 0 };
    let buf = [255, 0, 0, 0, 255, 0];
    let mut fb = vec![0xaa; 4 * 2 * 2];
    copy_rgb888_to_rgb565_framebuffer(&info, &buf, &mut fb, 8).unwrap();
    assert_eq!(&fb[..10], &[0xaa; 10]);
    assert_eq!(&fb[10..14], &[0x00, 0xf8, 0xe0, 0x07]);
    assert_eq!(&fb[14..], &[0xaa; 2]);
    assert_eq!(
        copy_rgb888_to_rgb565_framebuffer(&info, &buf[..5], &mut fb, 8),
        Err(Rgb888Error::TooShort { got: 5, expected: 6 })
    );
}

#[test]
fn publisher_greets_announces_and_forgets_sessions() {
    let mut publisher = ViewerPublisher::new();
    assert_eq!(
        publisher.greeting(),
        vec![ServerMessage::Hello { version: PROTOCOL_VERSION }, ServerMessage::Disconnected]
    );
    let state = ActiveScanoutState { width: 4, height: 3, format: 0x40, connector: 0 };
    assert!(publisher.needs_new_session(state));
    let session = PublishedSession::new(4, 3, "/tmp/fb".to_string()).unwrap();
    assert_eq!(session.byte_len(), 24);
    let announced = publisher.start_session(session);
    assert_eq!(
        announced,
        ServerMessage::SessionStart {
            width: 4,
            height: 3,
            stride: 8,
            pixel_format: PixelFormat::Rgb565,
            shm_path: "/tmp/fb".to_string(),
        }
    );
    assert!(!publisher.needs_new_session(state));
    assert!(publisher.needs_new_session(ActiveScanoutState { width: 5, ..state }));
    assert_eq!(
        publisher.frame_ready(),
        Some(ServerMessage::FrameReady { width: 4, height: 3, stride: 8, generation: 1, full_frame: true })
    );
    assert_eq!(publisher.greeting().len(), 3);
    assert_eq!(publisher.disconnected(), ServerMessage::Disconnected);
    assert_eq!(publisher.frame_ready(), None);
    assert_eq!(publisher.shutdown(), ServerMessage::Shutdown);
}

#[test]
fn failed_viewers_are_dropped_in_order() {
    let mut clients = vec!["a", "b", "c", "d"];
    retain_delivered(&mut clients, &[true, false, true, false]);
    assert_eq!(clients, vec!["a", "c"]);
}

#[test]
fn viewer_settings_fall_back_to_defaults() {
    assert_eq!(u32_setting_or(Some("1234"), 7), 1234);
    assert_eq!(u32_setting_or(Some("12x"), 7), 7);
    assert_eq!(u32_setting_or(None, 7), 7);
    assert_eq!(ViewerTransferFormat::from_value(Some(" RGB888")), ViewerTransferFormat::Rgb888);
    assert_eq!(ViewerTransferFormat::from_value(Some("xrgb8888")), ViewerTransferFormat::Rgb565);
    assert_eq!(ViewerTransferFormat::Rgb888.bytes_per_pixel(), 3);
    let paths = runtime_paths(1000, None, Some("/tmp/shared.bin"));
    assert_eq!(paths.socket_path, "/run/user/1000/gud-viewer/control.sock");
    assert_eq!(paths.framebuffer_path, "/tmp/shared.bin");
}

#[test]
fn udc_detach_reading_follows_configured_state() {
    assert!(!udc_is_detached(Some(UdcLinkState::Configured)));
    assert!(udc_is_detached(Some(UdcLinkState::NotAttached)));
    assert!(udc_is_detached(Some(UdcLinkState::Suspended)));
    assert!(udc_is_detached(Some(UdcLinkState::Unknown)));
    assert!(!udc_is_detached(None));
}
