use gud_gadget::gud::{
    build_display_descriptor, build_display_descriptor_with_flags, serialize_connector_descriptors,
    serialize_display_descriptor, serialize_display_modes, ConnectorDescriptor, DisplayMode,
    GUD_COMPRESSION_LZ4, GUD_CONNECTOR_TYPE_PANEL, GUD_DISPLAY_FLAG_STATUS_ON_SET,
    GUD_DISPLAY_MAGIC, GUD_DISPLAY_MODE_FLAG_PREFERRED, GUD_DISPLAY_MODE_FLAG_USER_MASK,
};

fn sample_mode() -> DisplayMode {
    DisplayMode {
        clock: 174_359,
        hdisplay: 1080,
        hsync_start: 1192,
        hsync_end: 1208,
        htotal: 1244,
        vdisplay: 2280,
        vsync_start: 2316,
        vsync_end: 2324,
        vtotal: 2336,
        flags: 0,
    }
}

#[test]
fn build_display_descriptor_sets_expected_fields() {
    let descriptor = build_display_descriptor(640, 480, 1080, 2280, 0, None).unwrap();

    assert_eq!(descriptor.magic, GUD_DISPLAY_MAGIC);
    assert_eq!(descriptor.version, 1);
    assert_eq!(descriptor.flags, 0);
    assert_eq!(descriptor.compression, 0);
    assert_eq!(descriptor.min_width, 640);
    assert_eq!(descriptor.min_height, 480);
    assert_eq!(descriptor.max_width, 1080);
    assert_eq!(descriptor.max_height, 2280);
    assert_eq!(descriptor.max_buffer_size, 1080 * 2280 * 4);
}

#[test]
fn build_display_descriptor_preserves_zero_flags_with_compression_enabled() {
    let descriptor =
        build_display_descriptor(640, 480, 1080, 2280, GUD_COMPRESSION_LZ4, None).unwrap();

    assert_eq!(descriptor.flags, 0);
    assert_eq!(descriptor.flags & GUD_DISPLAY_FLAG_STATUS_ON_SET, 0);
    assert_eq!(descriptor.compression, GUD_COMPRESSION_LZ4);
}

#[test]
fn guarded_descriptor_advertises_status_on_set_only_when_requested() {
    let ordinary = build_display_descriptor(640, 480, 1080, 2280, 0, None).unwrap();
    let guarded = build_display_descriptor_with_flags(
        640,
        480,
        1080,
        2280,
        0,
        Some(12_800),
        GUD_DISPLAY_FLAG_STATUS_ON_SET,
    )
    .unwrap();

    assert_eq!(ordinary.flags, 0);
    assert_eq!(guarded.flags, GUD_DISPLAY_FLAG_STATUS_ON_SET);
    assert_eq!(guarded.max_buffer_size, 12_800);
}

#[test]
fn build_display_descriptor_accepts_smaller_buffer_size_override() {
    let descriptor =
        build_display_descriptor(640, 480, 1920, 1080, GUD_COMPRESSION_LZ4, Some(64_000))
            .unwrap();

    assert_eq!(descriptor.max_buffer_size, 64_000);
    assert_eq!(descriptor.compression, GUD_COMPRESSION_LZ4);
}

#[test]
fn build_display_descriptor_rejects_invalid_buffer_size_override() {
    assert!(build_display_descriptor(640, 480, 1920, 1080, 0, Some(0)).is_err());
    assert!(
        build_display_descriptor(640, 480, 1920, 1080, 0, Some(1920 * 1080 * 4 + 1)).is_err()
    );
}

#[test]
fn serialize_display_descriptor_matches_expected_size_and_header() {
    let descriptor = build_display_descriptor(640, 480, 1080, 2280, 0, None).unwrap();

    let buf = serialize_display_descriptor(&descriptor);

    assert_eq!(buf.len(), 30);
    assert_eq!(&buf[0..4], &GUD_DISPLAY_MAGIC.to_le_bytes());
    assert_eq!(buf[4], 1);
}

#[test]
fn serialize_single_connector_descriptor_is_five_bytes() {
    let connectors = [ConnectorDescriptor {
        connector_type: GUD_CONNECTOR_TYPE_PANEL,
        flags: 0,
    }];

    let buf = serialize_connector_descriptors(&connectors);

    assert_eq!(buf.len(), 5);
    assert_eq!(buf[0], GUD_CONNECTOR_TYPE_PANEL);
    assert_eq!(&buf[1..5], &[0, 0, 0, 0]);
}

#[test]
fn serialize_single_display_mode_is_twenty_four_bytes() {
    let modes = [sample_mode()];

    let buf = serialize_display_modes(&modes);

    assert_eq!(buf.len(), 24);
    assert_eq!(&buf[0..4], &174_359_u32.to_le_bytes());
    assert_eq!(&buf[4..6], &1080_u16.to_le_bytes());
    assert_eq!(&buf[12..14], &2280_u16.to_le_bytes());
}

#[test]
fn serialize_display_mode_masks_private_flags_and_preserves_preferred_metadata() {
    let mut mode = sample_mode();
    mode.flags = GUD_DISPLAY_MODE_FLAG_USER_MASK | GUD_DISPLAY_MODE_FLAG_PREFERRED | (1 << 31);

    let buf = serialize_display_modes(&[mode]);
    let serialized_flags = u32::from_le_bytes(buf[20..24].try_into().unwrap());

    assert_eq!(
        serialized_flags,
        GUD_DISPLAY_MODE_FLAG_USER_MASK | GUD_DISPLAY_MODE_FLAG_PREFERRED
    );
}
