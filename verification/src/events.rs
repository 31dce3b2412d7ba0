//! Dispatch of GUD control requests and FunctionFS lifecycle events.
//!
//! The transport hands each request to these functions: for a device-to-host
//! request the state decides what to send back; for a host-to-device request
//! the received payload decides how the state moves and which event the
//! application sees.
use vstd::prelude::*;
use crate::gud::{
    decode_set_buffer, parse_set_buffer, serialize_connector_descriptors,
    connector_descriptors_bytes, ConnectorDescriptor, DisplayMode, SetBuffer, GUD_CONNECTOR_STATUS_CHANGED,
    GUD_CONNECTOR_STATUS_CONNECTED, GUD_CONNECTOR_TYPE_PANEL, GUD_REQ_GET_CONNECTORS,
    GUD_REQ_GET_CONNECTOR_EDID, GUD_REQ_GET_CONNECTOR_MODES, GUD_REQ_GET_CONNECTOR_PROPERTIES,
    GUD_REQ_GET_CONNECTOR_STATUS, GUD_REQ_GET_DESCRIPTOR, GUD_REQ_GET_FORMATS,
    GUD_REQ_GET_PROPERTIES, GUD_REQ_GET_STATUS, GUD_REQ_SET_BUFFER,
    GUD_REQ_SET_CONNECTOR_FORCE_DETECT, GUD_REQ_SET_CONTROLLER_ENABLE,
    GUD_REQ_SET_DISPLAY_ENABLE, GUD_REQ_SET_STATE_CHECK, GUD_REQ_SET_STATE_COMMIT,
    GUD_SET_BUFFER_LEN, GUD_STATUS_INVALID_PARAMETER, GUD_STATUS_REQUEST_NOT_SUPPORTED,
};
use crate::protocol::{
    buffer_request_outcome, parse_enable_request, reset_protocol, snapshot_generation,
    snapshot_of, state_check_outcome, status_after_latch, status_after_reset,
    status_after_success, DisplayStateSnapshot, GudState, ProtocolState, StatusState,
};

verus! {

/// Why the checked or committed state was dropped.
#[derive(Clone, Copy, Debug, PartialEq, Eq, Structural)]
pub enum ProtocolInvalidationReason {
    InvalidStateCheck,
    CommitWithoutPending,
    Bind,
    Enable,
    Suspend,
    Resume,
    Disconnected,
}

impl ProtocolInvalidationReason {
    /// Whether the device was disconnected.
    pub fn is_disconnect(self) -> (r: bool)
        ensures
            r <==> self == ProtocolInvalidationReason::Disconnected,
    {
        match self {
            ProtocolInvalidationReason::Disconnected => true,
            _ => false,
        }
    }

    /// Whether the invalidation was caused by a host request, as opposed to a
    /// lifecycle transition of the gadget.
    pub fn is_host_activity(self) -> (r: bool)
        ensures
            r <==> (self == ProtocolInvalidationReason::InvalidStateCheck || self
                == ProtocolInvalidationReason::CommitWithoutPending),
    {
        match self {
            ProtocolInvalidationReason::InvalidStateCheck => true,
            ProtocolInvalidationReason::CommitWithoutPending => true,
            _ => false,
        }
    }
}

/// What the application is told about a handled request or transition. The
/// three `Get*` events ask the application to answer the pending request.
#[derive(Clone, Copy, Debug, PartialEq, Eq, Structural)]
pub enum Event {
    GetDescriptor,
    GetDisplayModes,
    GetPixelFormats,
    StateChecked(DisplayStateSnapshot),
    StateCommitted(DisplayStateSnapshot),
    ProtocolStateInvalidated { generation: Option<u64>, reason: ProtocolInvalidationReason },
    Buffer(SetBuffer),
    StatusSent(u8),
}

impl Event {
    /// Whether the event shows that a host is talking to the device: every
    /// request but a status read, and no lifecycle transition.
    pub open spec fn is_host_activity_spec(&self) -> bool {
        match *self {
            Event::StatusSent(_) => false,
            Event::ProtocolStateInvalidated { reason, .. } => (reason
                == ProtocolInvalidationReason::InvalidStateCheck || reason
                == ProtocolInvalidationReason::CommitWithoutPending),
            _ => true,
        }
    }

    /// Whether the event shows that a host is talking to the device.
    pub fn is_host_activity(&self) -> (r: bool)
        ensures
            r == self.is_host_activity_spec(),
    {
        match self {
            Event::GetDescriptor => true,
            Event::GetDisplayModes => true,
            Event::GetPixelFormats => true,
            Event::StateChecked(_) => true,
            Event::StateCommitted(_) => true,
            Event::Buffer(_) => true,
            Event::StatusSent(_) => false,
            Event::ProtocolStateInvalidated { reason, .. } => reason.is_host_activity(),
        }
    }
}

/// A FunctionFS lifecycle transition.
#[derive(Clone, Copy, Debug, PartialEq, Eq, Structural)]
pub enum LifecycleEvent {
    Bind,
    Enable,
    Suspend,
    Resume,
    Disable,
}

/// A host-to-device request whose payload could not be read as the request.
#[derive(Clone, Copy, Debug, PartialEq, Eq, Structural)]
pub enum EventError {
    MalformedSetBuffer { len: usize },
}

/// What to do with a device-to-host request.
#[derive(Clone, Debug)]
pub enum DeviceToHostReply {
    /// Send this status byte; the request completes with `Event::StatusSent`.
    Status(u8),
    /// Hand the request to the application, which answers it.
    Deliver(Event),
    /// Send these bytes; once sent, the request counts as a success.
    Send(Vec<u8>),
    /// The request is not supported; nothing is sent.
    Unsupported,
}

/// The reason reported for a lifecycle transition.
pub open spec fn lifecycle_reason(e: LifecycleEvent) -> ProtocolInvalidationReason {
    match e {
        LifecycleEvent::Bind => ProtocolInvalidationReason::Bind,
        LifecycleEvent::Enable => ProtocolInvalidationReason::Enable,
        LifecycleEvent::Suspend => ProtocolInvalidationReason::Suspend,
        LifecycleEvent::Resume => ProtocolInvalidationReason::Resume,
        LifecycleEvent::Disable => ProtocolInvalidationReason::Disconnected,
    }
}

/// The status after a lifecycle transition: reset, and for every transition
/// but suspend and disable the connector is reported as changed again.
pub open spec fn status_after_lifecycle(s: StatusState, e: LifecycleEvent) -> StatusState {
    match e {
        LifecycleEvent::Suspend | LifecycleEvent::Disable => status_after_reset(s),
        _ => status_after_reset(StatusState { connector_changed_once: true, ..s }),
    }
}

/// Whether `request` is a host-to-device request this device handles; the
/// payload of any other request is not read.
pub open spec fn is_known_host_to_device(request: u8) -> bool {
    request == GUD_REQ_SET_CONNECTOR_FORCE_DETECT || request == GUD_REQ_SET_STATE_CHECK
        || request == GUD_REQ_SET_CONTROLLER_ENABLE || request == GUD_REQ_SET_DISPLAY_ENABLE
        || request == GUD_REQ_SET_STATE_COMMIT || request == GUD_REQ_SET_BUFFER
}

/// The single panel connector this device reports.
pub open spec fn panel_connectors() -> Seq<ConnectorDescriptor> {
    seq![ConnectorDescriptor { connector_type: GUD_CONNECTOR_TYPE_PANEL, flags: 0 }]
}

/// The protocol state, status and result of handling a host-to-device request.
pub open spec fn host_to_device_outcome(
    connector_count: u8,
    formats: Seq<u8>,
    modes: Seq<DisplayMode>,
    p: ProtocolState,
    s: StatusState,
    request: u8,
    payload: Seq<u8>,
) -> (ProtocolState, StatusState, Result<Option<Event>, EventError>) {
    if request == GUD_REQ_SET_CONNECTOR_FORCE_DETECT {
        (p, status_after_success(s), Ok(None))
    } else if request == GUD_REQ_SET_STATE_CHECK {
        let invalidated = (
            ProtocolState { pending_state: None, ..p },
            status_after_latch(s, GUD_STATUS_INVALID_PARAMETER),
            Ok(
                Some(
                    Event::ProtocolStateInvalidated {
                        generation: snapshot_generation(p.pending_state),
                        reason: ProtocolInvalidationReason::InvalidStateCheck,
                    },
                ),
            ),
        );
        match state_check_outcome(connector_count, formats, modes, payload) {
            Ok(ds) => if p.next_generation == u64::MAX {
                invalidated
            } else {
                let snap = snapshot_of(ds, (p.next_generation + 1) as u64);
                (
                    ProtocolState {
                        pending_state: Some(snap),
                        next_generation: snap.generation,
                        ..p
                    },
                    status_after_success(s),
                    Ok(Some(Event::StateChecked(snap))),
                )
            },
            Err(_) => invalidated,
        }
    } else if request == GUD_REQ_SET_CONTROLLER_ENABLE {
        if payload.len() == 1 && payload[0] <= 1 {
            let enable = payload[0] == 1;
            (
                ProtocolState {
                    controller_enabled: enable,
                    display_enabled: if enable {
                        p.display_enabled
                    } else {
                        false
                    },
                    ..p
                },
                status_after_success(s),
                Ok(None),
            )
        } else {
            (p, status_after_latch(s, GUD_STATUS_INVALID_PARAMETER), Ok(None))
        }
    } else if request == GUD_REQ_SET_DISPLAY_ENABLE {
        if payload.len() == 1 && payload[0] <= 1 {
            let enable = payload[0] == 1;
            if enable && !(p.controller_enabled && p.committed_state is Some) {
                (p, status_after_latch(s, GUD_STATUS_INVALID_PARAMETER), Ok(None))
            } else {
                (ProtocolState { display_enabled: enable, ..p }, status_after_success(s), Ok(None))
            }
        } else {
            (p, status_after_latch(s, GUD_STATUS_INVALID_PARAMETER), Ok(None))
        }
    } else if request == GUD_REQ_SET_STATE_COMMIT {
        match p.pending_state {
            Some(pending) => (
                ProtocolState { pending_state: None, committed_state: Some(pending), ..p },
                status_after_success(s),
                Ok(Some(Event::StateCommitted(pending))),
            ),
            None => (
                p,
                status_after_latch(s, GUD_STATUS_INVALID_PARAMETER),
                Ok(
                    Some(
                        Event::ProtocolStateInvalidated {
                            generation: None,
                            reason: ProtocolInvalidationReason::CommitWithoutPending,
                        },
                    ),
                ),
            ),
        }
    } else if request == GUD_REQ_SET_BUFFER {
        if payload.len() < GUD_SET_BUFFER_LEN {
            (p, s, Err(EventError::MalformedSetBuffer { len: payload.len() as usize }))
        } else {
            let b = parse_set_buffer(payload);
            match buffer_request_outcome(p, b) {
                Ok(()) => (p, s, Ok(Some(Event::Buffer(b)))),
                Err(_) => (p, status_after_latch(s, GUD_STATUS_INVALID_PARAMETER), Ok(None)),
            }
        }
    } else {
        (p, status_after_latch(s, GUD_STATUS_REQUEST_NOT_SUPPORTED), Ok(None))
    }
}

/// Whether the payload of `request` is to be received before handling it.
pub fn host_to_device_reads_payload(request: u8) -> (r: bool)
    ensures
        r == is_known_host_to_device(request),
{
    request == GUD_REQ_SET_CONNECTOR_FORCE_DETECT || request == GUD_REQ_SET_STATE_CHECK
        || request == GUD_REQ_SET_CONTROLLER_ENABLE || request == GUD_REQ_SET_DISPLAY_ENABLE
        || request == GUD_REQ_SET_STATE_COMMIT || request == GUD_REQ_SET_BUFFER
}

impl GudState {
    /// Handles a lifecycle transition: the checked and committed state are
    /// dropped and the status is reset; the event names the dropped checked
    /// generation.
    pub fn lifecycle_event(&mut self, event: LifecycleEvent) -> (r: Event)
        requires
            old(self).protocol.wf(),
        ensures
            r == (Event::ProtocolStateInvalidated {
                generation: snapshot_generation(old(self).protocol.pending_state),
                reason: lifecycle_reason(event),
            }),
            final(self).protocol == reset_protocol(old(self).protocol),
            final(self).protocol.wf(),
            final(self).status == status_after_lifecycle(old(self).status, event),
            final(self).validation == old(self).validation,
    {
        match event {
            LifecycleEvent::Bind => {
                self.reset_connector_status_changed();
                self.reset_status();
                let generation = self.reset_protocol_state();
                Event::ProtocolStateInvalidated {
                    generation,
                    reason: ProtocolInvalidationReason::Bind,
                }
            },
            LifecycleEvent::Enable => {
                self.reset_connector_status_changed();
                self.reset_status();
                let generation = self.reset_protocol_state();
                Event::ProtocolStateInvalidated {
                    generation,
                    reason: ProtocolInvalidationReason::Enable,
                }
            },
            LifecycleEvent::Suspend => {
                let generation = self.handle_suspend_transition();
                Event::ProtocolStateInvalidated {
                    generation,
                    reason: ProtocolInvalidationReason::Suspend,
                }
            },
            LifecycleEvent::Resume => {
                let generation = self.handle_resume_transition();
                Event::ProtocolStateInvalidated {
                    generation,
                    reason: ProtocolInvalidationReason::Resume,
                }
            },
            LifecycleEvent::Disable => {
                let generation = self.handle_suspend_transition();
                Event::ProtocolStateInvalidated {
                    generation,
                    reason: ProtocolInvalidationReason::Disconnected,
                }
            },
        }
    }

    /// Decides the answer to a device-to-host request.
    pub fn device_to_host_request(&mut self, request: u8) -> (r: DeviceToHostReply)
        requires
            old(self).protocol.wf(),
        ensures
            final(self).protocol == old(self).protocol,
            final(self).validation == old(self).validation,
            request == GUD_REQ_GET_STATUS ==> (r matches DeviceToHostReply::Status(v) && v
                == old(self).status.value && final(self).status == old(self).status),
            request == GUD_REQ_GET_DESCRIPTOR ==> (r matches DeviceToHostReply::Deliver(
                Event::GetDescriptor,
            ) && final(self).status == old(self).status),
            request == GUD_REQ_GET_FORMATS ==> (r matches DeviceToHostReply::Deliver(
                Event::GetPixelFormats,
            ) && final(self).status == old(self).status),
            request == GUD_REQ_GET_CONNECTOR_MODES ==> (r matches DeviceToHostReply::Deliver(
                Event::GetDisplayModes,
            ) && final(self).status == old(self).status),
            (request == GUD_REQ_GET_PROPERTIES || request == GUD_REQ_GET_CONNECTOR_PROPERTIES
                || request == GUD_REQ_GET_CONNECTOR_EDID) ==> (r matches DeviceToHostReply::Send(
                bytes,
            ) && bytes@.len() == 0 && final(self).status == old(self).status),
            request == GUD_REQ_GET_CONNECTORS ==> (r matches DeviceToHostReply::Send(bytes)
                && bytes@ == connector_descriptors_bytes(panel_connectors()) && final(self).status
                == old(self).status),
            request == GUD_REQ_GET_CONNECTOR_STATUS ==> (r matches DeviceToHostReply::Send(bytes)
                && bytes@ == seq![
                if old(self).status.connector_changed_once {
                    GUD_CONNECTOR_STATUS_CONNECTED | GUD_CONNECTOR_STATUS_CHANGED
                } else {
                    GUD_CONNECTOR_STATUS_CONNECTED
                },
            ] && final(self).status == (StatusState {
                connector_changed_once: false,
                ..old(self).status
            })),
            !(request == GUD_REQ_GET_STATUS || request == GUD_REQ_GET_DESCRIPTOR || request
                == GUD_REQ_GET_FORMATS || request == GUD_REQ_GET_CONNECTOR_MODES || request
                == GUD_REQ_GET_PROPERTIES || request == GUD_REQ_GET_CONNECTOR_PROPERTIES || request
                == GUD_REQ_GET_CONNECTOR_EDID || request == GUD_REQ_GET_CONNECTORS || request
                == GUD_REQ_GET_CONNECTOR_STATUS) ==> (r matches DeviceToHostReply::Unsupported
                && final(self).status == status_after_latch(
                old(self).status,
                GUD_STATUS_REQUEST_NOT_SUPPORTED,
            )),
    {
        if request == GUD_REQ_GET_STATUS {
            DeviceToHostReply::Status(self.current_status())
        } else if request == GUD_REQ_GET_DESCRIPTOR {
            DeviceToHostReply::Deliver(Event::GetDescriptor)
        } else if request == GUD_REQ_GET_FORMATS {
            DeviceToHostReply::Deliver(Event::GetPixelFormats)
        } else if request == GUD_REQ_GET_CONNECTOR_MODES {
            DeviceToHostReply::Deliver(Event::GetDisplayModes)
        } else if request == GUD_REQ_GET_PROPERTIES || request == GUD_REQ_GET_CONNECTOR_PROPERTIES
            || request == GUD_REQ_GET_CONNECTOR_EDID {
            DeviceToHostReply::Send(Vec::new())
        } else if request == GUD_REQ_GET_CONNECTORS {
            let connectors = [
                ConnectorDescriptor { connector_type: GUD_CONNECTOR_TYPE_PANEL, flags: 0 },
            ];
            let bytes = serialize_connector_descriptors(&connectors);
            assert(connectors@ =~= panel_connectors());
            DeviceToHostReply::Send(bytes)
        } else if request == GUD_REQ_GET_CONNECTOR_STATUS {
            let status = self.next_connector_status();
            let mut bytes: Vec<u8> = Vec::new();
            bytes.push(status);
            DeviceToHostReply::Send(bytes)
        } else {
            self.latch_status(GUD_STATUS_REQUEST_NOT_SUPPORTED);
            DeviceToHostReply::Unsupported
        }
    }

    /// Handles a host-to-device request with its received payload (an
    /// unsupported request is handled without reading its payload).
    pub fn host_to_device_request(&mut self, request: u8, payload: &[u8]) -> (r: Result<
        Option<Event>,
        EventError,
    >)
        requires
            old(self).protocol.wf(),
        ensures
            ({
                let (p, s, res) = host_to_device_outcome(
                    old(self).validation.connector_count,
                    old(self).validation.formats@,
                    old(self).validation.modes@,
                    old(self).protocol,
                    old(self).status,
                    request,
                    payload@,
                );
                &&& final(self).protocol == p
                &&& final(self).status == s
                &&& r == res
            }),
            final(self).protocol.wf(),
            final(self).validation == old(self).validation,
    {
        if request == GUD_REQ_SET_CONNECTOR_FORCE_DETECT {
            self.mark_success();
            Ok(None)
        } else if request == GUD_REQ_SET_STATE_CHECK {
            match self.validate_state_check_payload(payload) {
                Ok(state) => match self.store_pending_state(state) {
                    Ok(snapshot) => {
                        self.mark_success();
                        Ok(Some(Event::StateChecked(snapshot)))
                    },
                    Err(_) => {
                        let generation = self.clear_pending_state();
                        self.latch_status(GUD_STATUS_INVALID_PARAMETER);
                        Ok(
                            Some(
                                Event::ProtocolStateInvalidated {
                                    generation,
                                    reason: ProtocolInvalidationReason::InvalidStateCheck,
                                },
                            ),
                        )
                    },
                },
                Err(_) => {
                    let generation = self.clear_pending_state();
                    self.latch_status(GUD_STATUS_INVALID_PARAMETER);
                    Ok(
                        Some(
                            Event::ProtocolStateInvalidated {
                                generation,
                                reason: ProtocolInvalidationReason::InvalidStateCheck,
                            },
                        ),
                    )
                },
            }
        } else if request == GUD_REQ_SET_CONTROLLER_ENABLE {
            match parse_enable_request(payload, "controller enable") {
                Ok(enable) => {
                    self.update_controller_enabled(enable);
                    self.mark_success();
                },
                Err(_) => {
                    self.latch_status(GUD_STATUS_INVALID_PARAMETER);
                },
            }
            Ok(None)
        } else if request == GUD_REQ_SET_DISPLAY_ENABLE {
            match parse_enable_request(payload, "display enable") {
                Ok(enable) => match self.update_display_enabled(enable) {
                    Ok(()) => {
                        self.mark_success();
                    },
                    Err(_) => {
                        self.latch_status(GUD_STATUS_INVALID_PARAMETER);
                    },
                },
                Err(_) => {
                    self.latch_status(GUD_STATUS_INVALID_PARAMETER);
                },
            }
            Ok(None)
        } else if request == GUD_REQ_SET_STATE_COMMIT {
            match self.commit_pending_state() {
                Ok(snapshot) => {
                    self.mark_success();
                    Ok(Some(Event::StateCommitted(snapshot)))
                },
                Err(_) => {
                    self.latch_status(GUD_STATUS_INVALID_PARAMETER);
                    Ok(
                        Some(
                            Event::ProtocolStateInvalidated {
                                generation: None,
                                reason: ProtocolInvalidationReason::CommitWithoutPending,
                            },
                        ),
                    )
                },
            }
        } else if request == GUD_REQ_SET_BUFFER {
            let info = match decode_set_buffer(payload) {
                Some(info) => info,
                None => return Err(EventError::MalformedSetBuffer { len: payload.len() }),
            };
            match self.validate_buffer_request(&info) {
                Ok(()) => Ok(Some(Event::Buffer(info))),
                Err(_) => {
                    self.latch_status(GUD_STATUS_INVALID_PARAMETER);
                    Ok(None)
                },
            }
        } else {
            self.latch_status(GUD_STATUS_REQUEST_NOT_SUPPORTED);
            Ok(None)
        }
    }
}

/// A state check that validates, followed by a commit, commits exactly the
/// checked snapshot: both requests succeed, the commit reports the snapshot
/// the check reported, and nothing is left checked.
pub proof fn lemma_check_then_commit(
    connector_count: u8,
    formats: Seq<u8>,
    modes: Seq<DisplayMode>,
    p: ProtocolState,
    s: StatusState,
    check_payload: Seq<u8>,
    commit_payload: Seq<u8>,
)
    requires
        p.wf(),
        p.next_generation < u64::MAX,
        state_check_outcome(connector_count, formats, modes, check_payload) is Ok,
    ensures
        ({
            let (p1, s1, r1) = host_to_device_outcome(
                connector_count,
                formats,
                modes,
                p,
                s,
                GUD_REQ_SET_STATE_CHECK,
                check_payload,
            );
            let (p2, s2, r2) = host_to_device_outcome(
                connector_count,
                formats,
                modes,
                p1,
                s1,
                GUD_REQ_SET_STATE_COMMIT,
                commit_payload,
            );
            &&& r1 matches Ok(Some(Event::StateChecked(checked)))
            &&& r2 == Ok::<Option<Event>, EventError>(Some(Event::StateCommitted(checked)))
            &&& p2.committed_state == Some(checked)
            &&& p2.pending_state is None
            &&& checked.generation == p.next_generation + 1
        }),
{
}

/// A SET_BUFFER request is only ever delivered while a committed state is
/// scanned out with both the controller and the display on; any other
/// request is refused with the invalid-parameter status or not read at all.
pub proof fn lemma_buffer_needs_enabled_commit(
    connector_count: u8,
    formats: Seq<u8>,
    modes: Seq<DisplayMode>,
    p: ProtocolState,
    s: StatusState,
    payload: Seq<u8>,
)
    ensures
        ({
            let (p1, s1, r) = host_to_device_outcome(
                connector_count,
                formats,
                modes,
                p,
                s,
                GUD_REQ_SET_BUFFER,
                payload,
            );
            &&& p1 == p
            &&& (r matches Ok(Some(Event::Buffer(_))) ==> p.committed_state is Some
                && p.controller_enabled && p.display_enabled)
            &&& (r matches Ok(None) ==> s1 == status_after_latch(s, GUD_STATUS_INVALID_PARAMETER))
        }),
{
}

/// A host-to-device request this device does not know changes no protocol
/// state and answers with the not-supported status.
pub proof fn lemma_unknown_request_is_not_supported(
    connector_count: u8,
    formats: Seq<u8>,
    modes: Seq<DisplayMode>,
    p: ProtocolState,
    s: StatusState,
    request: u8,
    payload: Seq<u8>,
)
    requires
        !is_known_host_to_device(request),
    ensures
        host_to_device_outcome(connector_count, formats, modes, p, s, request, payload) == (
            p,
            status_after_latch(s, GUD_STATUS_REQUEST_NOT_SUPPORTED),
            Ok::<Option<Event>, EventError>(None),
        ),
{
}

} // verus!
