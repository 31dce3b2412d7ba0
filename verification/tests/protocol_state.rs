use gud_gadget::events::{Event, LifecycleEvent, ProtocolInvalidationReason};
use gud_gadget::gud::{
    serialize_state_check_header, DisplayMode, SetBuffer, StateCheckHeader, GUD_COMPRESSION_LZ4,
    GUD_CONNECTOR_STATUS_CHANGED, GUD_CONNECTOR_STATUS_CONNECTED,
    GUD_DISPLAY_MODE_FLAG_PREFERRED, GUD_DISPLAY_MODE_FLAG_USER_MASK, GUD_PIXEL_FORMAT_RGB565,
    GUD_STATUS_OK, GUD_STATUS_REQUEST_NOT_SUPPORTED,
};
use gud_gadget::gud::modes_have_same_user_timing;
use gud_gadget::protocol::{
    active_scanout_state, configure_state_check_validation, parse_enable_request,
    ActiveScanoutState, DisplayState, GudState,
};

fn sample_mode() -> DisplayMode {
    DisplayMode {
        clock: 174_359,
        hdisplay: 1080,
        hsync_start: 1192,
        hsync_end: 1208,
        htotal: 1244,
        vdisplay: 2280,
        vsync_start: 2316,
        vsync_end: 2324,
        vtotal: 2336,
        flags: 0,
    }
}

fn sample_state() -> DisplayState {
    DisplayState {
        mode: sample_mode(),
        format: GUD_PIXEL_FORMAT_RGB565,
        connector: 0,
    }
}

fn serialize_state_check_request(mode: DisplayMode, format: u8, connector: u8) -> Vec<u8> {
    let buf = serialize_state_check_header(&StateCheckHeader {
        mode,
        format,
        connector,
    });
    assert_eq!(buf.len(), 26);
    buf
}

fn committed_and_enabled() -> GudState {
    let mut state = GudState::new();
    state.reset_protocol_state();
    state.store_pending_state(sample_state()).unwrap();
    state.commit_pending_state().unwrap();
    state.update_controller_enabled(true);
    state.update_display_enabled(true).unwrap();
    state
}

fn full_frame() -> SetBuffer {
    SetBuffer {
        x: 0,
        y: 0,
        width: 1080,
        height: 2280,
        length: 1080 * 2280 * 2,
        compression: 0,
        compressed_length: 0,
    }
}

#[test]
fn connector_status_reports_changed_only_once() {
    let mut state = GudState::new();
    state.reset_connector_status_changed();

    let first = state.next_connector_status();
    let second = state.next_connector_status();

    assert_eq!(
        first,
        GUD_CONNECTOR_STATUS_CONNECTED | GUD_CONNECTOR_STATUS_CHANGED
    );
    assert_eq!(second, GUD_CONNECTOR_STATUS_CONNECTED);
}

#[test]
fn status_latches_until_next_success() {
    let mut state = GudState::new();
    state.reset_status();

    state.latch_status(GUD_STATUS_REQUEST_NOT_SUPPORTED);
    assert_eq!(state.current_status(), GUD_STATUS_REQUEST_NOT_SUPPORTED);
    assert_eq!(state.current_status(), GUD_STATUS_REQUEST_NOT_SUPPORTED);

    state.mark_success();
    assert_eq!(state.current_status(), GUD_STATUS_OK);
}

#[test]
fn validate_state_check_accepts_advertised_mode_and_format() {
    let mut state = GudState::new();
    let mode = sample_mode();
    configure_state_check_validation(
        &mut state,
        1,
        &[GUD_PIXEL_FORMAT_RGB565],
        std::slice::from_ref(&mode),
    );
    state.reset_protocol_state();

    let payload = serialize_state_check_request(mode, GUD_PIXEL_FORMAT_RGB565, 0);

    let checked = state.validate_state_check_payload(&payload).unwrap();
    assert_eq!(
        checked,
        DisplayState {
            mode: sample_mode(),
            format: GUD_PIXEL_FORMAT_RGB565,
            connector: 0,
        }
    );
}

#[test]
fn validate_state_check_uses_normalized_full_timing_membership() {
    let mut state = GudState::new();
    let mut advertised = sample_mode();
    advertised.flags =
        GUD_DISPLAY_MODE_FLAG_PREFERRED | GUD_DISPLAY_MODE_FLAG_USER_MASK | (1 << 31);
    configure_state_check_validation(&mut state, 1, &[GUD_PIXEL_FORMAT_RGB565], &[advertised]);
    state.reset_protocol_state();

    let mut echoed = advertised;
    echoed.flags = GUD_DISPLAY_MODE_FLAG_USER_MASK | (1 << 30);
    let payload = serialize_state_check_request(echoed, GUD_PIXEL_FORMAT_RGB565, 0);
    state.validate_state_check_payload(&payload).unwrap();

    let mut different_timing = advertised;
    different_timing.clock += 1;
    assert!(!modes_have_same_user_timing(
        &sample_mode(),
        &different_timing
    ));
    let payload = serialize_state_check_request(different_timing, GUD_PIXEL_FORMAT_RGB565, 0);
    assert!(state.validate_state_check_payload(&payload).is_err());
}

#[test]
fn validate_state_check_rejects_unknown_format() {
    let mut state = GudState::new();
    let mode = sample_mode();
    configure_state_check_validation(
        &mut state,
        1,
        &[GUD_PIXEL_FORMAT_RGB565],
        std::slice::from_ref(&mode),
    );
    state.reset_protocol_state();

    let payload = serialize_state_check_request(mode, 0x80, 0);
    let err = state.validate_state_check_payload(&payload).unwrap_err();

    assert!(err.message().contains("unsupported pixel format"));
}

#[test]
fn validate_state_check_rejects_unknown_connector() {
    let mut state = GudState::new();
    let mode = sample_mode();
    configure_state_check_validation(
        &mut state,
        1,
        &[GUD_PIXEL_FORMAT_RGB565],
        std::slice::from_ref(&mode),
    );
    state.reset_protocol_state();

    let payload = serialize_state_check_request(mode, GUD_PIXEL_FORMAT_RGB565, 1);
    let err = state.validate_state_check_payload(&payload).unwrap_err();

    assert!(err.message().contains("unsupported connector"));
}

#[test]
fn validate_state_check_rejects_unknown_mode() {
    let mut state = GudState::new();
    let mut mode = sample_mode();
    configure_state_check_validation(&mut state, 1, &[GUD_PIXEL_FORMAT_RGB565], &[mode]);
    state.reset_protocol_state();
    mode.vdisplay = 2400;

    let payload = serialize_state_check_request(mode, GUD_PIXEL_FORMAT_RGB565, 0);
    let err = state.validate_state_check_payload(&payload).unwrap_err();

    assert!(err.message().contains("unsupported mode"));
}

#[test]
fn state_commit_requires_pending_state() {
    let mut state = GudState::new();
    state.reset_protocol_state();

    let err = state.commit_pending_state().unwrap_err();

    assert!(err.message().contains("no checked state available"));
}

#[test]
fn state_generations_are_monotonic_across_replacement_and_resets() {
    let mut state = GudState::new();
    state.reset_protocol_state();
    let first = state.store_pending_state(sample_state()).unwrap();
    let replacement = state.store_pending_state(sample_state()).unwrap();
    assert!(replacement.generation > first.generation);

    assert_eq!(state.clear_pending_state(), Some(replacement.generation));
    let after_invalid_check = state.store_pending_state(sample_state()).unwrap();
    assert!(after_invalid_check.generation > replacement.generation);

    assert_eq!(
        state.handle_suspend_transition(),
        Some(after_invalid_check.generation)
    );
    let after_suspend = state.store_pending_state(sample_state()).unwrap();
    assert!(after_suspend.generation > after_invalid_check.generation);

    assert_eq!(
        state.handle_resume_transition(),
        Some(after_suspend.generation)
    );
    let after_resume = state.store_pending_state(sample_state()).unwrap();
    assert!(after_resume.generation > after_suspend.generation);
}

#[test]
fn successful_check_commit_promotes_the_same_generation() {
    let mut state = GudState::new();
    state.reset_protocol_state();
    let checked = state.store_pending_state(sample_state()).unwrap();

    let committed = state.commit_pending_state().unwrap();

    assert_eq!(committed, checked);
    assert_eq!(state.clear_pending_state(), None);

    let repeated = state.store_pending_state(sample_state()).unwrap();
    assert!(repeated.generation > committed.generation);
    assert_eq!(state.commit_pending_state().unwrap(), repeated);
}

#[test]
fn every_lifecycle_reset_reports_the_invalidated_generation() {
    let mut state = GudState::new();
    for (lifecycle, reason) in [
        (LifecycleEvent::Bind, ProtocolInvalidationReason::Bind),
        (LifecycleEvent::Enable, ProtocolInvalidationReason::Enable),
        (LifecycleEvent::Suspend, ProtocolInvalidationReason::Suspend),
        (LifecycleEvent::Resume, ProtocolInvalidationReason::Resume),
        (
            LifecycleEvent::Disable,
            ProtocolInvalidationReason::Disconnected,
        ),
    ] {
        let pending = state.store_pending_state(sample_state()).unwrap();

        let lifecycle_event = state.lifecycle_event(lifecycle);

        assert!(matches!(
            lifecycle_event,
            Event::ProtocolStateInvalidated {
                generation: Some(generation),
                reason: actual_reason,
            } if generation == pending.generation && actual_reason == reason
        ));
    }
}

#[test]
fn active_scanout_state_reports_committed_mode() {
    let mut state = GudState::new();
    state.reset_protocol_state();
    state.store_pending_state(sample_state()).unwrap();
    state.commit_pending_state().unwrap();

    assert_eq!(
        active_scanout_state(&state),
        Some(ActiveScanoutState {
            width: 1080,
            height: 2280,
            format: GUD_PIXEL_FORMAT_RGB565,
            connector: 0,
        })
    );
}

#[test]
fn validate_buffer_request_accepts_committed_full_frame() {
    let state = committed_and_enabled();

    let info = full_frame();

    state.validate_buffer_request(&info).unwrap();
}

#[test]
fn validate_buffer_request_accepts_lz4_metadata() {
    let state = committed_and_enabled();

    let info = SetBuffer {
        x: 0,
        y: 0,
        width: 1080,
        height: 2280,
        length: 1080 * 2280 * 2,
        compression: GUD_COMPRESSION_LZ4,
        compressed_length: (1080 * 2280 * 2) - 128,
    };

    state.validate_buffer_request(&info).unwrap();
}

#[test]
fn validate_buffer_request_rejects_without_committed_state() {
    let mut state = GudState::new();
    state.reset_protocol_state();

    let info = full_frame();
    let err = state.validate_buffer_request(&info).unwrap_err();

    assert!(err.message().contains("no committed state available"));
}

#[test]
fn validate_buffer_request_rejects_out_of_bounds_rect() {
    let state = committed_and_enabled();

    let info = SetBuffer {
        x: 1000,
        y: 2200,
        width: 200,
        height: 100,
        length: 200 * 100 * 2,
        compression: 0,
        compressed_length: 0,
    };
    let err = state.validate_buffer_request(&info).unwrap_err();

    assert!(err.message().contains("exceeds mode"));
}

#[test]
fn validate_buffer_request_rejects_length_mismatch() {
    let state = committed_and_enabled();

    let info = SetBuffer {
        x: 0,
        y: 0,
        width: 1080,
        height: 2280,
        length: 16,
        compression: 0,
        compressed_length: 0,
    };
    let err = state.validate_buffer_request(&info).unwrap_err();

    assert!(err.message().contains("buffer length"));
}

#[test]
fn validate_buffer_request_rejects_unknown_compression() {
    let state = committed_and_enabled();

    let info = SetBuffer {
        x: 0,
        y: 0,
        width: 1080,
        height: 2280,
        length: 1080 * 2280 * 2,
        compression: 0x7f,
        compressed_length: 1024,
    };
    let err = state.validate_buffer_request(&info).unwrap_err();

    assert!(err.message().contains("unsupported compression"));
}

#[test]
fn validate_buffer_request_rejects_compressed_length_larger_than_payload() {
    let state = committed_and_enabled();

    let info = SetBuffer {
        x: 0,
        y: 0,
        width: 1080,
        height: 2280,
        length: 1080 * 2280 * 2,
        compression: GUD_COMPRESSION_LZ4,
        compressed_length: (1080 * 2280 * 2) + 1,
    };
    let err = state.validate_buffer_request(&info).unwrap_err();

    assert!(err.message().contains("exceeds uncompressed length"));
}

#[test]
fn display_enable_requires_controller_and_commit() {
    let mut state = GudState::new();
    state.reset_protocol_state();

    let err = state.update_display_enabled(true).unwrap_err();
    assert!(err.message().contains("controller is disabled"));

    state.update_controller_enabled(true);
    let err = state.update_display_enabled(true).unwrap_err();
    assert!(err.message().contains("before state commit"));
}

#[test]
fn controller_disable_turns_off_display() {
    let mut state = committed_and_enabled();
    state.update_controller_enabled(false);

    let info = full_frame();
    let err = state.validate_buffer_request(&info).unwrap_err();

    assert!(err.message().contains("controller is disabled"));
}

#[test]
fn buffer_rejected_when_display_disabled() {
    let mut state = GudState::new();
    state.reset_protocol_state();
    state.store_pending_state(sample_state()).unwrap();
    state.commit_pending_state().unwrap();
    state.update_controller_enabled(true);

    let info = full_frame();
    let err = state.validate_buffer_request(&info).unwrap_err();

    assert!(err.message().contains("display is disabled"));
}

#[test]
fn parse_enable_request_accepts_only_zero_or_one() {
    assert!(!parse_enable_request(&[0], "test").unwrap());
    assert!(parse_enable_request(&[1], "test").unwrap());
    assert!(parse_enable_request(&[], "test").is_err());
    assert!(parse_enable_request(&[2], "test").is_err());
}

#[test]
fn suspend_transition_clears_committed_state() {
    let mut state = GudState::new();
    state.reset_protocol_state();
    state.store_pending_state(sample_state()).unwrap();
    state.commit_pending_state().unwrap();

    state.handle_suspend_transition();

    let info = full_frame();
    let err = state.validate_buffer_request(&info).unwrap_err();

    assert!(err.message().contains("no committed state available"));
    assert_eq!(state.current_status(), GUD_STATUS_OK);
}

#[test]
fn resume_transition_reports_connector_changed_again() {
    let mut state = GudState::new();
    state.reset_connector_status_changed();
    let _ = state.next_connector_status();

    state.handle_resume_transition();

    let status = state.next_connector_status();
    assert_eq!(
        status,
        GUD_CONNECTOR_STATUS_CONNECTED | GUD_CONNECTOR_STATUS_CHANGED
    );
}

#[test]
fn disable_event_maps_to_disconnected() {
    let mut state = GudState::new();
    let event = state.lifecycle_event(LifecycleEvent::Disable);
    assert!(matches!(
        event,
        Event::ProtocolStateInvalidated {
            reason: ProtocolInvalidationReason::Disconnected,
            ..
        }
    ));
}

#[test]
fn lifecycle_invalidations_do_not_count_as_host_activity() {
    for reason in [
        ProtocolInvalidationReason::Bind,
        ProtocolInvalidationReason::Enable,
        ProtocolInvalidationReason::Suspend,
        ProtocolInvalidationReason::Resume,
        ProtocolInvalidationReason::Disconnected,
    ] {
        let event = Event::ProtocolStateInvalidated {
            generation: None,
            reason,
        };
        assert!(!event.is_host_activity(), "{reason:?}");
    }

    for reason in [
        ProtocolInvalidationReason::InvalidStateCheck,
        ProtocolInvalidationReason::CommitWithoutPending,
    ] {
        let event = Event::ProtocolStateInvalidated {
            generation: None,
            reason,
        };
        assert!(event.is_host_activity(), "{reason:?}");
    }
}
