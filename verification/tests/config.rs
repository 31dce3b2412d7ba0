use gud_gadget::bulk::DEFAULT_FUNCTIONFS_BULK_OUT_READ_SIZE;
use gud_gadget::config::{
    advertised_preferred_mode_index, parse_functionfs_read_size, parse_test_compression,
    parse_test_dynamic_mode_match, parse_test_max_buffer_size, parse_test_output_mode,
    select_output_mode, validate_test_mode_policy, ConfigError, PatternMode, TestOutputMode,
};
use gud_gadget::display::TransferFormat;

#[test]
fn functionfs_read_size_parser_uses_default_and_accepts_numeric_override() {
    assert_eq!(parse_functionfs_read_size(None).unwrap(), DEFAULT_FUNCTIONFS_BULK_OUT_READ_SIZE);
    assert_eq!(parse_functionfs_read_size(Some("16384")).unwrap(), 16_384);
    assert!(parse_functionfs_read_size(Some("not-a-size")).is_err());
}

#[test]
fn transfer_format_parser_defaults_and_fails_closed() {
    assert_eq!(TransferFormat::from_env_value(None).unwrap(), TransferFormat::Rgb565);
    assert_eq!(TransferFormat::from_env_value(Some("rgb565")).unwrap(), TransferFormat::Rgb565);
    assert_eq!(TransferFormat::from_env_value(Some("rgb888")).unwrap(), TransferFormat::Rgb888);
    assert_eq!(TransferFormat::from_env_value(Some("xrgb8888")).unwrap(), TransferFormat::Xrgb8888);
    let err = TransferFormat::from_env_value(Some("bgr565")).unwrap_err();
    assert!(err.message().contains("bgr565"));
    assert!(err.message().contains("rgb565, rgb888, xrgb8888"));
}

#[test]
fn transfer_format_parser_trims_and_ignores_case() {
    assert_eq!(TransferFormat::from_env_value(Some(" XRGB8888\n")).unwrap(), TransferFormat::Xrgb8888);
    assert_eq!(TransferFormat::from_env_value(Some("\u{3000}Rgb888 ")).unwrap(), TransferFormat::Rgb888);
    assert!(TransferFormat::from_env_value(Some("rgb 565")).is_err());
    assert_eq!(
        TransferFormat::from_env_value(Some("x\"y")).unwrap_err().message(),
        format!("invalid GUD_TRANSFER_FORMAT={:?}; supported values: rgb565, rgb888, xrgb8888", "x\"y")
    );
    assert_eq!(TransferFormat::Xrgb8888.name(), "xrgb8888");
    assert_eq!(TransferFormat::Rgb888.drm_fourcc_name(), "Rgb888");
}

#[test]
fn test_compression_parser_preserves_default_and_accepts_named_values() {
    assert_eq!(parse_test_compression(None).unwrap(), 1);
    assert_eq!(parse_test_compression(Some("lz4")).unwrap(), 1);
    assert_eq!(parse_test_compression(Some("none")).unwrap(), 0);
    assert!(parse_test_compression(Some("off")).is_err());
}

#[test]
fn test_max_buffer_size_parser_accepts_positive_u32_only() {
    assert_eq!(parse_test_max_buffer_size(None).unwrap(), None);
    assert_eq!(parse_test_max_buffer_size(Some("64000")).unwrap(), Some(64_000));
    assert!(parse_test_max_buffer_size(Some("0")).is_err());
    assert!(parse_test_max_buffer_size(Some("-1")).is_err());
    assert!(parse_test_max_buffer_size(Some("not-a-size")).is_err());
}

#[test]
fn numbers_parse_as_rust_reads_them() {
    for text in ["0", "+7", "4294967295", "004294967295", "4294967296", "+", "", "1 ", "9999999999999999999999"] {
        let expected = text.parse::<u32>().ok().filter(|v| *v > 0);
        let got = parse_test_max_buffer_size(Some(text)).ok().flatten();
        assert_eq!(got, expected, "for {text:?}");
    }
    for text in ["18446744073709551615", "18446744073709551616", "+00", "12a"] {
        assert_eq!(parse_functionfs_read_size(Some(text)).ok(), text.parse::<usize>().ok(), "for {text:?}");
    }
}

#[test]
fn dynamic_mode_match_parser_accepts_exact_test_value_only() {
    assert!(!parse_test_dynamic_mode_match(None).unwrap());
    assert!(parse_test_dynamic_mode_match(Some("1")).unwrap());
    for value in ["", "0", "true", "yes", "01", "1\n"] {
        assert!(parse_test_dynamic_mode_match(Some(value)).is_err(), "unexpectedly accepted {value:?}");
    }
}

#[test]
fn test_output_mode_parser_preserves_default_and_accepts_exact_dimensions() {
    assert_eq!(parse_test_output_mode(None).unwrap(), None);
    assert_eq!(
        parse_test_output_mode(Some("1280x720")).unwrap(),
        Some(TestOutputMode { width: 1280, height: 720 })
    );
}

#[test]
fn test_output_mode_parser_rejects_ambiguous_or_invalid_values() {
    for value in ["1280", "1280X720", "1280x720x60", "0x720", "1280x0"] {
        assert!(parse_test_output_mode(Some(value)).is_err(), "unexpectedly accepted {value:?}");
    }
    assert_eq!(
        parse_test_output_mode(Some("1280x720x60")).unwrap_err().message(),
        "invalid GUD_TEST_OUTPUT_MODE height in \"1280x720x60\""
    );
}

#[test]
fn dynamic_and_fixed_output_test_policies_are_mutually_exclusive() {
    assert!(validate_test_mode_policy(false, None).is_ok());
    assert!(validate_test_mode_policy(false, Some(TestOutputMode { width: 1280, height: 720 })).is_ok());
    assert!(validate_test_mode_policy(true, None).is_ok());
    assert!(validate_test_mode_policy(true, Some(TestOutputMode { width: 1280, height: 720 })).is_err());
}

#[test]
fn advertised_preferred_mode_falls_back_to_first_connector_mode() {
    assert_eq!(advertised_preferred_mode_index(&[false, false, false]), 0);
}

#[test]
fn advertised_preferred_mode_uses_explicit_drm_preference() {
    assert_eq!(advertised_preferred_mode_index(&[false, true, false]), 1);
}

#[test]
fn output_mode_selection_takes_the_first_match() {
    let sizes = [(1920, 1080), (1280, 720), (1280, 720)];
    assert_eq!(select_output_mode(&sizes, None).unwrap(), 0);
    assert_eq!(select_output_mode(&sizes, Some(TestOutputMode { width: 1280, height: 720 })).unwrap(), 1);
    let err = select_output_mode(&sizes, Some(TestOutputMode { width: 640, height: 480 })).unwrap_err();
    assert_eq!(err, ConfigError::UnsupportedOutputMode { width: 640, height: 480 });
    assert_eq!(
        err.message(),
        "GUD_TEST_OUTPUT_MODE=640x480 is not supported by the connected DRM connector"
    );
    assert_eq!(select_output_mode(&[], None), Err(ConfigError::NoConnectorModes));
}

#[test]
fn pattern_modes_are_read_leniently() {
    assert_eq!(PatternMode::from_value(None), PatternMode::Off);
    assert_eq!(PatternMode::from_value(Some(" HOLD ")), PatternMode::Hold);
    assert_eq!(PatternMode::from_value(Some("usb")), PatternMode::Usb);
    assert_eq!(PatternMode::from_value(Some("sometimes")), PatternMode::Off);
    assert!(PatternMode::Startup.uses_startup_pattern());
    assert!(!PatternMode::Off.uses_startup_pattern());
}

#[test]
fn config_error_quotes_control_characters_as_unicode_escapes() {
    let err = ConfigError::InvalidCompression { raw: String::from("a\u{1}b\u{7f}\t") };
    assert_eq!(err.message(), format!("invalid GUD_TEST_COMPRESSION={:?}; expected exactly \"lz4\" or \"none\"", "a\u{1}b\u{7f}\t"));
    assert!(err.message().contains("\"a\\u{1}b\\u{7f}\\t\""));
}
