use gud_gadget::events::{DeviceToHostReply, Event, LifecycleEvent, ProtocolInvalidationReason};
use gud_gadget::gud::{
    decode_set_buffer, display_descriptor_reply, serialize_set_buffer,
    serialize_state_check_header, DisplayMode, SetBuffer, StateCheckHeader,
    GUD_CONNECTOR_STATUS_CHANGED, GUD_CONNECTOR_STATUS_CONNECTED, GUD_DISPLAY_FLAG_STATUS_ON_SET,
    GUD_PIXEL_FORMAT_RGB565, GUD_REQ_GET_CONNECTORS, GUD_REQ_GET_CONNECTOR_STATUS,
    GUD_REQ_GET_DESCRIPTOR, GUD_REQ_GET_STATUS, GUD_REQ_SET_BUFFER, GUD_REQ_SET_CONTROLLER_ENABLE,
    GUD_REQ_SET_DISPLAY_ENABLE, GUD_REQ_SET_STATE_CHECK, GUD_REQ_SET_STATE_COMMIT,
    GUD_STATUS_INVALID_PARAMETER, GUD_STATUS_OK, GUD_STATUS_REQUEST_NOT_SUPPORTED,
};
use gud_gadget::protocol::{configure_state_check_validation, GudState};

fn mode() -> DisplayMode {
    DisplayMode {
        clock: 1_000,
        hdisplay: 64,
        hsync_start: 68,
        hsync_end: 72,
        htotal: 80,
        vdisplay: 32,
        vsync_start: 33,
        vsync_end: 34,
        vtotal: 36,
        flags: 0,
    }
}

fn configured() -> GudState {
    let mut state = GudState::new();
    configure_state_check_validation(&mut state, 1, &[GUD_PIXEL_FORMAT_RGB565], &[mode()]);
    state
}

fn check_payload() -> Vec<u8> {
    serialize_state_check_header(&StateCheckHeader {
        mode: mode(),
        format: GUD_PIXEL_FORMAT_RGB565,
        connector: 0,
    })
}

#[test]
fn check_commit_enable_and_buffer_flow_through_requests() {
    let mut state = configured();
    let checked = match state.host_to_device_request(GUD_REQ_SET_STATE_CHECK, &check_payload()) {
        Ok(Some(Event::StateChecked(snapshot))) => snapshot,
        other => panic!("unexpected {other:?}"),
    };
    assert_eq!(checked.generation, 1);
    assert_eq!(
        state.host_to_device_request(GUD_REQ_SET_STATE_COMMIT, &[]),
        Ok(Some(Event::StateCommitted(checked)))
    );
    assert_eq!(state.host_to_device_request(GUD_REQ_SET_CONTROLLER_ENABLE, &[1]), Ok(None));
    assert_eq!(state.host_to_device_request(GUD_REQ_SET_DISPLAY_ENABLE, &[1]), Ok(None));
    let info = SetBuffer {
        x: 0,
        y: 0,
        width: 64,
        height: 32,
        length: 64 * 32 * 2,
        compression: 0,
        compressed_length: 0,
    };
    assert_eq!(
        state.host_to_device_request(GUD_REQ_SET_BUFFER, &serialize_set_buffer(&info)),
        Ok(Some(Event::Buffer(info)))
    );
    assert_eq!(state.current_status(), GUD_STATUS_OK);
}

#[test]
fn invalid_requests_latch_errors_and_report_invalidation() {
    let mut state = configured();
    let mut bad = check_payload();
    bad[25] = 3;
    assert_eq!(
        state.host_to_device_request(GUD_REQ_SET_STATE_CHECK, &bad),
        Ok(Some(Event::ProtocolStateInvalidated {
            generation: None,
            reason: ProtocolInvalidationReason::InvalidStateCheck,
        }))
    );
    assert_eq!(state.current_status(), GUD_STATUS_INVALID_PARAMETER);
    assert_eq!(
        state.host_to_device_request(GUD_REQ_SET_STATE_COMMIT, &[]),
        Ok(Some(Event::ProtocolStateInvalidated {
            generation: None,
            reason: ProtocolInvalidationReason::CommitWithoutPending,
        }))
    );
    assert_eq!(state.host_to_device_request(GUD_REQ_SET_CONTROLLER_ENABLE, &[2]), Ok(None));
    assert_eq!(state.current_status(), GUD_STATUS_INVALID_PARAMETER);
    assert_eq!(state.host_to_device_request(0x7f, &[]), Ok(None));
    assert_eq!(state.current_status(), GUD_STATUS_REQUEST_NOT_SUPPORTED);
    let err = state.host_to_device_request(GUD_REQ_SET_BUFFER, &[0; 24]).unwrap_err();
    assert_eq!(err.message(), "deserialize set buffer: got 24 bytes, expected at least 25");
}

#[test]
fn device_to_host_requests_answer_from_the_state() {
    let mut state = GudState::new();
    state.latch_status(GUD_STATUS_INVALID_PARAMETER);
    assert!(matches!(
        state.device_to_host_request(GUD_REQ_GET_STATUS),
        DeviceToHostReply::Status(GUD_STATUS_INVALID_PARAMETER)
    ));
    assert!(matches!(
        state.device_to_host_request(GUD_REQ_GET_DESCRIPTOR),
        DeviceToHostReply::Deliver(Event::GetDescriptor)
    ));
    match state.device_to_host_request(GUD_REQ_GET_CONNECTORS) {
        DeviceToHostReply::Send(bytes) => assert_eq!(bytes, vec![0, 0, 0, 0, 0]),
        other => panic!("unexpected {other:?}"),
    }
    match state.device_to_host_request(GUD_REQ_GET_CONNECTOR_STATUS) {
        DeviceToHostReply::Send(bytes) => assert_eq!(
            bytes,
            vec![GUD_CONNECTOR_STATUS_CONNECTED | GUD_CONNECTOR_STATUS_CHANGED]
        ),
        other => panic!("unexpected {other:?}"),
    }
    match state.device_to_host_request(GUD_REQ_GET_CONNECTOR_STATUS) {
        DeviceToHostReply::Send(bytes) => assert_eq!(bytes, vec![GUD_CONNECTOR_STATUS_CONNECTED]),
        other => panic!("unexpected {other:?}"),
    }
    assert!(matches!(state.device_to_host_request(0x3f), DeviceToHostReply::Unsupported));
    assert_eq!(state.current_status(), GUD_STATUS_REQUEST_NOT_SUPPORTED);
}

#[test]
fn lifecycle_events_reset_status_and_protocol() {
    let mut state = configured();
    state.host_to_device_request(GUD_REQ_SET_STATE_CHECK, &check_payload()).unwrap();
    state.latch_status(GUD_STATUS_INVALID_PARAMETER);
    let event = state.lifecycle_event(LifecycleEvent::Suspend);
    assert_eq!(
        event,
        Event::ProtocolStateInvalidated {
            generation: Some(1),
            reason: ProtocolInvalidationReason::Suspend,
        }
    );
    assert_eq!(state.current_status(), GUD_STATUS_OK);
    assert!(state.protocol.pending_state.is_none());
    assert_eq!(state.protocol.next_generation, 1);
}

#[test]
fn set_buffer_round_trips_and_ignores_trailing_bytes() {
    let info = SetBuffer {
        x: 1,
        y: 2,
        width: 3,
        height: 4,
        length: 0x0102_0304,
        compression: 1,
        compressed_length: 0xa0b0_c0d0,
    };
    let mut bytes = serialize_set_buffer(&info);
    assert_eq!(bytes.len(), 25);
    assert_eq!(decode_set_buffer(&bytes), Some(info));
    bytes.push(9);
    assert_eq!(decode_set_buffer(&bytes), Some(info));
    assert_eq!(decode_set_buffer(&bytes[..24]), None);
}

#[test]
fn descriptor_reply_refuses_unknown_flags() {
    let err = display_descriptor_reply(1, 1, 4, 4, 0, None, 2).unwrap_err();
    assert_eq!(err.message(), "unsupported GUD display flags 0x2");
    let bytes = display_descriptor_reply(1, 1, 4, 4, 0, None, GUD_DISPLAY_FLAG_STATUS_ON_SET).unwrap();
    assert_eq!(bytes.len(), 30);
    assert_eq!(&bytes[5..9], &1u32.to_le_bytes());
    assert_eq!(&bytes[10..14], &64u32.to_le_bytes());
}
