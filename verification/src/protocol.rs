//! Device-side state of the GUD control protocol: the checked and the
//! committed display state, the enable switches, the latched status byte and
//! the one-shot connector-changed flag, with the rules that move them.
use vstd::prelude::*;
use crate::gud::{
    decode_state_check_header, modes_have_same_user_timing, parse_state_check_header,
    same_user_timing, DisplayMode, SetBuffer, GUD_COMPRESSION_LZ4,
    GUD_CONNECTOR_STATUS_CHANGED, GUD_CONNECTOR_STATUS_CONNECTED, GUD_PIXEL_FORMAT_RGB565,
    GUD_PIXEL_FORMAT_RGB888, GUD_PIXEL_FORMAT_XRGB8888, GUD_PROPERTY_SIZE,
    GUD_STATE_CHECK_HEADER_LEN, GUD_STATUS_OK,
};

verus! {

/// A display state that passed validation.
#[derive(Clone, Copy, Debug, PartialEq, Eq, Structural)]
pub struct DisplayState {
    pub mode: DisplayMode,
    pub format: u8,
    pub connector: u8,
}

/// A checked or committed display state with the generation it was checked under.
#[derive(Clone, Copy, Debug, PartialEq, Eq, Structural)]
pub struct DisplayStateSnapshot {
    pub mode: DisplayMode,
    pub format: u8,
    pub connector: u8,
    pub generation: u64,
}

/// Geometry and format of the committed state, as a scanout consumer sees it.
#[derive(Clone, Copy, Debug, PartialEq, Eq, Structural)]
pub struct ActiveScanoutState {
    pub width: u32,
    pub height: u32,
    pub format: u8,
    pub connector: u8,
}

/// What a state check is validated against: the connectors, formats and modes
/// the device advertised.
#[derive(Clone, Debug)]
pub struct StateCheckValidation {
    pub connector_count: u8,
    pub formats: Vec<u8>,
    pub modes: Vec<DisplayMode>,
}

/// The checked and committed display state and the enable switches.
#[derive(Clone, Copy, Debug, PartialEq, Eq, Structural)]
pub struct ProtocolState {
    pub pending_state: Option<DisplayStateSnapshot>,
    pub committed_state: Option<DisplayStateSnapshot>,
    pub next_generation: u64,
    pub controller_enabled: bool,
    pub display_enabled: bool,
}

/// The status byte returned by GET_STATUS and the connector-changed flag.
#[derive(Clone, Copy, Debug, PartialEq, Eq, Structural)]
pub struct StatusState {
    pub value: u8,
    pub clear_on_next_success: bool,
    pub connector_changed_once: bool,
}

/// All device-wide protocol state.
#[derive(Clone, Debug)]
pub struct GudState {
    pub validation: StateCheckValidation,
    pub protocol: ProtocolState,
    pub status: StatusState,
}

/// Why a state check was refused.
#[derive(Clone, Copy, Debug, PartialEq, Eq, Structural)]
pub enum StateCheckError {
    TooShort { len: usize },
    InvalidPropertyLength { len: usize },
    NotConfigured,
    UnsupportedConnector { connector: u8 },
    UnsupportedFormat { format: u8 },
    UnsupportedMode { hdisplay: u16, vdisplay: u16 },
}

/// The pending-state generation counter cannot advance any further.
#[derive(Clone, Copy, Debug, PartialEq, Eq, Structural)]
pub enum GenerationError {
    Exhausted,
}

/// A state commit arrived without a checked state.
#[derive(Clone, Copy, Debug, PartialEq, Eq, Structural)]
pub enum CommitError {
    NoPendingState,
}

/// Why the display could not be enabled.
#[derive(Clone, Copy, Debug, PartialEq, Eq, Structural)]
pub enum DisplayEnableError {
    ControllerDisabled,
    NotCommitted,
}

/// Why an enable request payload was refused.
#[derive(Clone, Debug)]
pub enum EnableRequestError {
    InvalidLength { request: String, len: usize },
    InvalidValue { request: String, value: u8 },
}

/// A pixel format this device does not handle.
#[derive(Clone, Copy, Debug, PartialEq, Eq, Structural)]
pub enum PixelFormatError {
    Unsupported { format: u8 },
}

/// Why a SET_BUFFER request was refused.
#[derive(Clone, Copy, Debug, PartialEq, Eq, Structural)]
pub enum BufferError {
    NoCommittedState,
    ControllerDisabled,
    DisplayDisabled,
    UnsupportedFormat { format: u8 },
    ZeroWidth,
    ZeroHeight,
    XOutOfRange { x: u32, hdisplay: u16 },
    YOutOfRange { y: u32, vdisplay: u16 },
    RectExceedsWidth { width: u32, height: u32, x: u32, hdisplay: u16 },
    RectExceedsHeight { width: u32, height: u32, y: u32, vdisplay: u16 },
    LengthOverflow,
    LengthMismatch { length: u32, expected: usize },
    UnexpectedCompressedLength { compressed_length: u32 },
    UnsupportedCompression { compression: u8 },
    MissingCompressedLength,
    CompressedTooLarge { compressed_length: u32, length: u32 },
}

/// Bytes per pixel of a GUD pixel format.
pub open spec fn format_bytes_per_pixel(format: u8) -> Option<usize> {
    if format == GUD_PIXEL_FORMAT_RGB565 {
        Some(2usize)
    } else if format == GUD_PIXEL_FORMAT_RGB888 {
        Some(3usize)
    } else if format == GUD_PIXEL_FORMAT_XRGB8888 {
        Some(4usize)
    } else {
        None
    }
}

/// Bytes per pixel of a GUD pixel format; an error for any other format.
pub fn bytes_per_pixel(format: u8) -> (r: Result<usize, PixelFormatError>)
    ensures
        r == (match format_bytes_per_pixel(format) {
            Some(b) => Ok::<usize, PixelFormatError>(b),
            None => Err(PixelFormatError::Unsupported { format }),
        }),
{
    if format == GUD_PIXEL_FORMAT_RGB565 {
        Ok(2)
    } else if format == GUD_PIXEL_FORMAT_RGB888 {
        Ok(3)
    } else if format == GUD_PIXEL_FORMAT_XRGB8888 {
        Ok(4)
    } else {
        Err(PixelFormatError::Unsupported { format })
    }
}

/// The outcome of validating a state check payload against the advertised
/// connectors, formats and modes.
pub open spec fn state_check_outcome(
    connector_count: u8,
    formats: Seq<u8>,
    modes: Seq<DisplayMode>,
    payload: Seq<u8>,
) -> Result<DisplayState, StateCheckError> {
    if payload.len() < GUD_STATE_CHECK_HEADER_LEN {
        Err(StateCheckError::TooShort { len: payload.len() as usize })
    } else if (payload.len() - GUD_STATE_CHECK_HEADER_LEN) % (GUD_PROPERTY_SIZE as int) != 0 {
        Err(
            StateCheckError::InvalidPropertyLength {
                len: (payload.len() - GUD_STATE_CHECK_HEADER_LEN) as usize,
            },
        )
    } else {
        let h = parse_state_check_header(payload);
        if connector_count == 0 {
            Err(StateCheckError::NotConfigured)
        } else if h.connector >= connector_count {
            Err(StateCheckError::UnsupportedConnector { connector: h.connector })
        } else if !formats.contains(h.format) {
            Err(StateCheckError::UnsupportedFormat { format: h.format })
        } else if !(exists|i: int| 0 <= i < modes.len() && same_user_timing(modes[i], h.mode)) {
            Err(
                StateCheckError::UnsupportedMode {
                    hdisplay: h.mode.hdisplay,
                    vdisplay: h.mode.vdisplay,
                },
            )
        } else {
            Ok(DisplayState { mode: h.mode, format: h.format, connector: h.connector })
        }
    }
}

/// The outcome of validating a SET_BUFFER request against the protocol state.
pub open spec fn buffer_request_outcome(p: ProtocolState, info: SetBuffer) -> Result<(), BufferError> {
    match p.committed_state {
        None => Err(BufferError::NoCommittedState),
        Some(state) => if !p.controller_enabled {
            Err(BufferError::ControllerDisabled)
        } else if !p.display_enabled {
            Err(BufferError::DisplayDisabled)
        } else if format_bytes_per_pixel(state.format) is None {
            Err(BufferError::UnsupportedFormat { format: state.format })
        } else if info.width == 0 {
            Err(BufferError::ZeroWidth)
        } else if info.height == 0 {
            Err(BufferError::ZeroHeight)
        } else if info.x > state.mode.hdisplay {
            Err(BufferError::XOutOfRange { x: info.x, hdisplay: state.mode.hdisplay })
        } else if info.y > state.mode.vdisplay {
            Err(BufferError::YOutOfRange { y: info.y, vdisplay: state.mode.vdisplay })
        } else if info.x + info.width > state.mode.hdisplay {
            Err(
                BufferError::RectExceedsWidth {
                    width: info.width,
                    height: info.height,
                    x: info.x,
                    hdisplay: state.mode.hdisplay,
                },
            )
        } else if info.y + info.height > state.mode.vdisplay {
            Err(
                BufferError::RectExceedsHeight {
                    width: info.width,
                    height: info.height,
                    y: info.y,
                    vdisplay: state.mode.vdisplay,
                },
            )
        } else {
            let bpp = format_bytes_per_pixel(state.format).unwrap();
            let expected = info.width * info.height * bpp;
            if expected > usize::MAX {
                Err(BufferError::LengthOverflow)
            } else if info.length != expected {
                Err(BufferError::LengthMismatch { length: info.length, expected: expected as usize })
            } else if info.compression == 0 {
                if info.compressed_length == 0 || info.compressed_length == info.length {
                    Ok(())
                } else {
                    Err(
                        BufferError::UnexpectedCompressedLength {
                            compressed_length: info.compressed_length,
                        },
                    )
                }
            } else if info.compression != GUD_COMPRESSION_LZ4 {
                Err(BufferError::UnsupportedCompression { compression: info.compression })
            } else if info.compressed_length == 0 {
                Err(BufferError::MissingCompressedLength)
            } else if info.compressed_length > info.length {
                Err(
                    BufferError::CompressedTooLarge {
                        compressed_length: info.compressed_length,
                        length: info.length,
                    },
                )
            } else {
                Ok(())
            }
        },
    }
}

/// The protocol state after a reset: nothing checked, nothing committed, both
/// switches off; the generation counter is kept.
pub open spec fn reset_protocol(p: ProtocolState) -> ProtocolState {
    ProtocolState {
        pending_state: None,
        committed_state: None,
        controller_enabled: false,
        display_enabled: false,
        next_generation: p.next_generation,
    }
}

/// The generation of a snapshot, if there is one.
pub open spec fn snapshot_generation(s: Option<DisplayStateSnapshot>) -> Option<u64> {
    match s {
        Some(snapshot) => Some(snapshot.generation),
        None => None,
    }
}

/// The status after a success: a latched error is cleared once.
pub open spec fn status_after_success(s: StatusState) -> StatusState {
    if s.clear_on_next_success {
        StatusState { value: GUD_STATUS_OK, clear_on_next_success: false, ..s }
    } else {
        s
    }
}

/// The status after latching `status`.
pub open spec fn status_after_latch(s: StatusState, status: u8) -> StatusState {
    StatusState { value: status, clear_on_next_success: status != GUD_STATUS_OK, ..s }
}

/// The status after a reset.
pub open spec fn status_after_reset(s: StatusState) -> StatusState {
    StatusState { value: GUD_STATUS_OK, clear_on_next_success: false, ..s }
}

/// The pending state that storing `state` produces under generation `generation`.
pub open spec fn snapshot_of(state: DisplayState, generation: u64) -> DisplayStateSnapshot {
    DisplayStateSnapshot {
        mode: state.mode,
        format: state.format,
        connector: state.connector,
        generation,
    }
}

impl ProtocolState {
    /// Every checked state carries the latest generation and no committed state
    /// is newer than the counter.
    pub open spec fn wf(self) -> bool {
        &&& (self.pending_state matches Some(s) ==> s.generation == self.next_generation)
        &&& (self.committed_state matches Some(s) ==> s.generation <= self.next_generation)
        &&& (self.display_enabled ==> self.controller_enabled && self.committed_state is Some)
    }
}

impl GudState {
    /// The state of a freshly started device: nothing configured, nothing
    /// checked, status OK, and the connector reported as changed once.
    pub fn new() -> (r: GudState)
        ensures
            r.validation.connector_count == 0,
            r.validation.formats@.len() == 0,
            r.validation.modes@.len() == 0,
            r.protocol == (ProtocolState {
                pending_state: None,
                committed_state: None,
                next_generation: 0,
                controller_enabled: false,
                display_enabled: false,
            }),
            r.status == (StatusState {
                value: GUD_STATUS_OK,
                clear_on_next_success: false,
                connector_changed_once: true,
            }),
            r.protocol.wf(),
    {
        GudState {
            validation: StateCheckValidation {
                connector_count: 0,
                formats: Vec::new(),
                modes: Vec::new(),
            },
            protocol: ProtocolState {
                pending_state: None,
                committed_state: None,
                next_generation: 0,
                controller_enabled: false,
                display_enabled: false,
            },
            status: StatusState {
                value: GUD_STATUS_OK,
                clear_on_next_success: false,
                connector_changed_once: true,
            },
        }
    }

    /// Makes the next GET_CONNECTOR_STATUS report the connector as changed.
    pub fn reset_connector_status_changed(&mut self)
        ensures
            final(self).status == (StatusState { connector_changed_once: true, ..old(self).status }),
            final(self).protocol == old(self).protocol,
            final(self).validation == old(self).validation,
    {
        self.status.connector_changed_once = true;
    }

    /// The status byte GET_STATUS returns.
    pub fn current_status(&self) -> (r: u8)
        ensures
            r == self.status.value,
    {
        self.status.value
    }

    /// Sets the status back to OK.
    pub fn reset_status(&mut self)
        ensures
            final(self).status == status_after_reset(old(self).status),
            final(self).protocol == old(self).protocol,
            final(self).validation == old(self).validation,
    {
        self.status.value = GUD_STATUS_OK;
        self.status.clear_on_next_success = false;
    }

    /// Records the outcome of the last request; an error stays until the next success.
    pub fn latch_status(&mut self, status: u8)
        ensures
            final(self).status == status_after_latch(old(self).status, status),
            final(self).protocol == old(self).protocol,
            final(self).validation == old(self).validation,
    {
        self.status.value = status;
        self.status.clear_on_next_success = status != GUD_STATUS_OK;
    }

    /// Records a successful request: a latched error is cleared.
    pub fn mark_success(&mut self)
        ensures
            final(self).status == status_after_success(old(self).status),
            final(self).protocol == old(self).protocol,
            final(self).validation == old(self).validation,
    {
        if self.status.clear_on_next_success {
            self.status.clear_on_next_success = false;
            self.status.value = GUD_STATUS_OK;
        }
    }

    /// The connector status byte: always connected, and changed the first time
    /// after a reset of the flag.
    pub fn next_connector_status(&mut self) -> (r: u8)
        ensures
            r == connector_status_byte(old(self).status.connector_changed_once),
            r == (if old(self).status.connector_changed_once {
                GUD_CONNECTOR_STATUS_CONNECTED | GUD_CONNECTOR_STATUS_CHANGED
            } else {
                GUD_CONNECTOR_STATUS_CONNECTED
            }),
            final(self).status == (StatusState { connector_changed_once: false, ..old(self).status }),
            final(self).protocol == old(self).protocol,
            final(self).validation == old(self).validation,
    {
        let changed = self.status.connector_changed_once;
        self.status.connector_changed_once = false;
        if changed {
            GUD_CONNECTOR_STATUS_CONNECTED | GUD_CONNECTOR_STATUS_CHANGED
        } else {
            GUD_CONNECTOR_STATUS_CONNECTED
        }
    }

    /// Drops the checked and committed state and turns both switches off;
    /// returns the generation of the dropped checked state.
    pub fn reset_protocol_state(&mut self) -> (r: Option<u64>)
        requires
            old(self).protocol.wf(),
        ensures
            final(self).protocol == protocol_step(old(self).protocol, ProtocolOp::Reset),
            r == snapshot_generation(old(self).protocol.pending_state),
            final(self).protocol == reset_protocol(old(self).protocol),
            final(self).protocol.wf(),
            final(self).status == old(self).status,
            final(self).validation == old(self).validation,
    {
        let invalidated = match self.protocol.pending_state {
            Some(snapshot) => Some(snapshot.generation),
            None => None,
        };
        self.protocol.pending_state = None;
        self.protocol.committed_state = None;
        self.protocol.controller_enabled = false;
        self.protocol.display_enabled = false;
        invalidated
    }

    /// The host suspended or disconnected the device.
    pub fn handle_suspend_transition(&mut self) -> (r: Option<u64>)
        requires
            old(self).protocol.wf(),
        ensures
            r == snapshot_generation(old(self).protocol.pending_state),
            final(self).protocol == reset_protocol(old(self).protocol),
            final(self).protocol.wf(),
            final(self).status == status_after_reset(old(self).status),
            final(self).validation == old(self).validation,
    {
        let invalidated = self.reset_protocol_state();
        self.reset_status();
        invalidated
    }

    /// The host resumed the device: the connector is reported as changed again.
    pub fn handle_resume_transition(&mut self) -> (r: Option<u64>)
        requires
            old(self).protocol.wf(),
        ensures
            r == snapshot_generation(old(self).protocol.pending_state),
            final(self).protocol == reset_protocol(old(self).protocol),
            final(self).protocol.wf(),
            final(self).status == status_after_reset(
                StatusState { connector_changed_once: true, ..old(self).status },
            ),
            final(self).validation == old(self).validation,
    {
        self.reset_connector_status_changed();
        let invalidated = self.reset_protocol_state();
        self.reset_status();
        invalidated
    }

    /// Validates a SET_STATE_CHECK payload against the advertised configuration.
    pub fn validate_state_check_payload(&self, payload: &[u8]) -> (r: Result<
        DisplayState,
        StateCheckError,
    >)
        ensures
            r == state_check_outcome(
                self.validation.connector_count,
                self.validation.formats@,
                self.validation.modes@,
                payload@,
            ),
    {
        if payload.len() < GUD_STATE_CHECK_HEADER_LEN {
            return Err(StateCheckError::TooShort { len: payload.len() });
        }
        let properties_len = payload.len() - GUD_STATE_CHECK_HEADER_LEN;
        if properties_len % GUD_PROPERTY_SIZE != 0 {
            return Err(StateCheckError::InvalidPropertyLength { len: properties_len });
        }
        let header = decode_state_check_header(payload);
        if self.validation.connector_count == 0 {
            return Err(StateCheckError::NotConfigured);
        }
        if header.connector >= self.validation.connector_count {
            return Err(StateCheckError::UnsupportedConnector { connector: header.connector });
        }
        let mut format_found = false;
        let mut i: usize = 0;
        while i < self.validation.formats.len()
            invariant
                0 <= i <= self.validation.formats@.len(),
                format_found <==> exists|k: int| 0 <= k < i && self.validation.formats@[k] == header.format,
            decreases self.validation.formats@.len() - i,
        {
            if self.validation.formats[i] == header.format {
                format_found = true;
            }
            i = i + 1;
        }
        if !format_found {
            return Err(StateCheckError::UnsupportedFormat { format: header.format });
        }
        assert(self.validation.formats@.contains(header.format));
        let mut mode_found = false;
        let mut j: usize = 0;
        while j < self.validation.modes.len()
            invariant
                0 <= j <= self.validation.modes@.len(),
                mode_found <==> exists|k: int|
                    0 <= k < j && same_user_timing(self.validation.modes@[k], header.mode),
            decreases self.validation.modes@.len() - j,
        {
            if modes_have_same_user_timing(&self.validation.modes[j], &header.mode) {
                mode_found = true;
            }
            j = j + 1;
        }
        if !mode_found {
            return Err(
                StateCheckError::UnsupportedMode {
                    hdisplay: header.mode.hdisplay,
                    vdisplay: header.mode.vdisplay,
                },
            );
        }
        Ok(DisplayState { mode: header.mode, format: header.format, connector: header.connector })
    }

    /// Stores a validated state as the checked state under a fresh generation.
    pub fn store_pending_state(&mut self, state: DisplayState) -> (r: Result<
        DisplayStateSnapshot,
        GenerationError,
    >)
        requires
            old(self).protocol.wf(),
        ensures
            final(self).protocol == protocol_step(old(self).protocol, ProtocolOp::StorePending(state)),
            final(self).protocol.wf(),
            final(self).status == old(self).status,
            final(self).validation == old(self).validation,
            old(self).protocol.next_generation == u64::MAX ==> r == Err::<
                DisplayStateSnapshot,
                GenerationError,
            >(GenerationError::Exhausted) && final(self).protocol == old(self).protocol,
            old(self).protocol.next_generation < u64::MAX ==> {
                let snapshot = snapshot_of(state, (old(self).protocol.next_generation + 1) as u64);
                &&& r == Ok::<DisplayStateSnapshot, GenerationError>(snapshot)
                &&& final(self).protocol == (ProtocolState {
                    pending_state: Some(snapshot),
                    next_generation: snapshot.generation,
                    ..old(self).protocol
                })
            },
    {
        if self.protocol.next_generation == u64::MAX {
            return Err(GenerationError::Exhausted);
        }
        let generation = self.protocol.next_generation + 1;
        self.protocol.next_generation = generation;
        let snapshot = DisplayStateSnapshot {
            mode: state.mode,
            format: state.format,
            connector: state.connector,
            generation,
        };
        self.protocol.pending_state = Some(snapshot);
        Ok(snapshot)
    }

    /// Drops the checked state; returns its generation.
    pub fn clear_pending_state(&mut self) -> (r: Option<u64>)
        requires
            old(self).protocol.wf(),
        ensures
            final(self).protocol == protocol_step(old(self).protocol, ProtocolOp::ClearPending),
            r == snapshot_generation(old(self).protocol.pending_state),
            final(self).protocol == (ProtocolState { pending_state: None, ..old(self).protocol }),
            final(self).protocol.wf(),
            final(self).status == old(self).status,
            final(self).validation == old(self).validation,
    {
        let r = match self.protocol.pending_state {
            Some(snapshot) => Some(snapshot.generation),
            None => None,
        };
        self.protocol.pending_state = None;
        r
    }

    /// Turns the controller on or off; turning it off also turns the display off.
    pub fn update_controller_enabled(&mut self, enable: bool)
        requires
            old(self).protocol.wf(),
        ensures
            final(self).protocol == protocol_step(old(self).protocol, ProtocolOp::ControllerEnable(enable)),
            final(self).protocol == (ProtocolState {
                controller_enabled: enable,
                display_enabled: if enable {
                    old(self).protocol.display_enabled
                } else {
                    false
                },
                ..old(self).protocol
            }),
            final(self).protocol.wf(),
            final(self).status == old(self).status,
            final(self).validation == old(self).validation,
    {
        self.protocol.controller_enabled = enable;
        if !enable {
            self.protocol.display_enabled = false;
        }
    }

    /// Turns the display on or off; it can only be turned on while the
    /// controller is on and a state is committed.
    pub fn update_display_enabled(&mut self, enable: bool) -> (r: Result<(), DisplayEnableError>)
        requires
            old(self).protocol.wf(),
        ensures
            final(self).protocol == protocol_step(old(self).protocol, ProtocolOp::DisplayEnable(enable)),
            enable && !old(self).protocol.controller_enabled ==> r == Err::<(), DisplayEnableError>(
                DisplayEnableError::ControllerDisabled,
            ),
            enable && old(self).protocol.controller_enabled && old(self).protocol.committed_state is None
                ==> r == Err::<(), DisplayEnableError>(DisplayEnableError::NotCommitted),
            r is Err ==> final(self).protocol == old(self).protocol,
            r is Ok <==> (!enable || (old(self).protocol.controller_enabled
                && old(self).protocol.committed_state is Some)),
            r is Ok ==> final(self).protocol == (ProtocolState {
                display_enabled: enable,
                ..old(self).protocol
            }),
            final(self).protocol.wf(),
            final(self).status == old(self).status,
            final(self).validation == old(self).validation,
    {
        if enable {
            if !self.protocol.controller_enabled {
                return Err(DisplayEnableError::ControllerDisabled);
            }
            if self.protocol.committed_state.is_none() {
                return Err(DisplayEnableError::NotCommitted);
            }
        }
        self.protocol.display_enabled = enable;
        Ok(())
    }

    /// Promotes the checked state to the committed state.
    pub fn commit_pending_state(&mut self) -> (r: Result<DisplayStateSnapshot, CommitError>)
        requires
            old(self).protocol.wf(),
        ensures
            final(self).protocol == protocol_step(old(self).protocol, ProtocolOp::Commit),
            match old(self).protocol.pending_state {
                Some(pending) => {
                    &&& r == Ok::<DisplayStateSnapshot, CommitError>(pending)
                    &&& final(self).protocol == (ProtocolState {
                        pending_state: None,
                        committed_state: Some(pending),
                        ..old(self).protocol
                    })
                },
                None => {
                    &&& r == Err::<DisplayStateSnapshot, CommitError>(CommitError::NoPendingState)
                    &&& final(self).protocol == old(self).protocol
                },
            },
            final(self).protocol.wf(),
            final(self).status == old(self).status,
            final(self).validation == old(self).validation,
    {
        match self.protocol.pending_state {
            Some(pending) => {
                self.protocol.pending_state = None;
                self.protocol.committed_state = Some(pending);
                Ok(pending)
            },
            None => Err(CommitError::NoPendingState),
        }
    }

    /// Validates a SET_BUFFER request against the committed state.
    pub fn validate_buffer_request(&self, info: &SetBuffer) -> (r: Result<(), BufferError>)
        ensures
            r == buffer_request_outcome(self.protocol, *info),
    {
        let state = match self.protocol.committed_state {
            Some(state) => state,
            None => return Err(BufferError::NoCommittedState),
        };
        if !self.protocol.controller_enabled {
            return Err(BufferError::ControllerDisabled);
        }
        if !self.protocol.display_enabled {
            return Err(BufferError::DisplayDisabled);
        }
        let bpp = match bytes_per_pixel(state.format) {
            Ok(bpp) => bpp,
            Err(_) => return Err(BufferError::UnsupportedFormat { format: state.format }),
        };
        if info.width == 0 {
            return Err(BufferError::ZeroWidth);
        }
        if info.height == 0 {
            return Err(BufferError::ZeroHeight);
        }
        if info.x > state.mode.hdisplay as u32 {
            return Err(BufferError::XOutOfRange { x: info.x, hdisplay: state.mode.hdisplay });
        }
        if info.y > state.mode.vdisplay as u32 {
            return Err(BufferError::YOutOfRange { y: info.y, vdisplay: state.mode.vdisplay });
        }
        if info.x as u64 + info.width as u64 > state.mode.hdisplay as u64 {
            return Err(
                BufferError::RectExceedsWidth {
                    width: info.width,
                    height: info.height,
                    x: info.x,
                    hdisplay: state.mode.hdisplay,
                },
            );
        }
        if info.y as u64 + info.height as u64 > state.mode.vdisplay as u64 {
            return Err(
                BufferError::RectExceedsHeight {
                    width: info.width,
                    height: info.height,
                    y: info.y,
                    vdisplay: state.mode.vdisplay,
                },
            );
        }
        let width = info.width as usize;
        let height = info.height as usize;
        let expected_len = match width.checked_mul(height) {
            Some(pixels) => match pixels.checked_mul(bpp) {
                Some(len) => len,
                None => return Err(BufferError::LengthOverflow),
            },
            None => {
                proof {
                    assert(width * height * bpp >= width * height) by (nonlinear_arith)
                        requires
                            bpp >= 1,
                            width * height >= 0,
                    ;
                }
                return Err(BufferError::LengthOverflow);
            },
        };
        if info.length as usize != expected_len {
            return Err(BufferError::LengthMismatch { length: info.length, expected: expected_len });
        }
        if info.compression == 0 {
            if !(info.compressed_length == 0 || info.compressed_length == info.length) {
                return Err(
                    BufferError::UnexpectedCompressedLength {
                        compressed_length: info.compressed_length,
                    },
                );
            }
        } else {
            if info.compression != GUD_COMPRESSION_LZ4 {
                return Err(BufferError::UnsupportedCompression { compression: info.compression });
            }
            if info.compressed_length == 0 {
                return Err(BufferError::MissingCompressedLength);
            }
            if info.compressed_length > info.length {
                return Err(
                    BufferError::CompressedTooLarge {
                        compressed_length: info.compressed_length,
                        length: info.length,
                    },
                );
            }
        }
        Ok(())
    }
}

/// Replaces the advertised connectors, formats and modes that state checks are
/// validated against.
pub fn configure_state_check_validation(
    state: &mut GudState,
    connector_count: u8,
    formats: &[u8],
    modes: &[DisplayMode],
)
    ensures
        final(state).validation.connector_count == connector_count,
        final(state).validation.formats@ == formats@,
        final(state).validation.modes@ == modes@,
        final(state).protocol == old(state).protocol,
        final(state).status == old(state).status,
{
    state.validation.connector_count = connector_count;
    state.validation.formats = copy_to_vec(formats);
    state.validation.modes = copy_to_vec(modes);
}

/// A vector holding the elements of `items`.
pub fn copy_to_vec<T: Copy>(items: &[T]) -> (r: Vec<T>)
    ensures
        r@ == items@,
{
    let mut out: Vec<T> = Vec::new();
    let mut i: usize = 0;
    while i < items.len()
        invariant
            0 <= i <= items@.len(),
            out@ == items@.subrange(0, i as int),
        decreases items@.len() - i,
    {
        out.push(items[i]);
        i = i + 1;
        assert(out@ =~= items@.subrange(0, i as int));
    }
    assert(items@.subrange(0, items@.len() as int) =~= items@);
    out
}

/// The geometry and format of the committed state, if one is committed.
pub fn active_scanout_state(state: &GudState) -> (r: Option<ActiveScanoutState>)
    ensures
        r == (match state.protocol.committed_state {
            Some(s) => Some(
                ActiveScanoutState {
                    width: s.mode.hdisplay as u32,
                    height: s.mode.vdisplay as u32,
                    format: s.format,
                    connector: s.connector,
                },
            ),
            None => None,
        }),
{
    match state.protocol.committed_state {
        Some(s) => Some(
            ActiveScanoutState {
                width: s.mode.hdisplay as u32,
                height: s.mode.vdisplay as u32,
                format: s.format,
                connector: s.connector,
            },
        ),
        None => None,
    }
}

/// Reads a one-byte enable request: 0 turns off, 1 turns on.
pub fn parse_enable_request(payload: &[u8], request_name: &str) -> (r: Result<bool, EnableRequestError>)
    ensures
        payload@.len() != 1 ==> (r matches Err(EnableRequestError::InvalidLength { request, len })
            && request@ == request_name@ && len == payload@.len()),
        payload@.len() == 1 && payload@[0] == 0 ==> r matches Ok(false),
        payload@.len() == 1 && payload@[0] == 1 ==> r matches Ok(true),
        payload@.len() == 1 && payload@[0] > 1 ==> (r matches Err(
            EnableRequestError::InvalidValue { request, value },
        ) && request@ == request_name@ && value == payload@[0]),
{
    if payload.len() != 1 {
        return Err(
            EnableRequestError::InvalidLength { request: request_name.to_owned(), len: payload.len() },
        );
    }
    match payload[0] {
        0 => Ok(false),
        1 => Ok(true),
        value => Err(EnableRequestError::InvalidValue { request: request_name.to_owned(), value }),
    }
}

/// An operation on the protocol state, as the request handlers apply them.
#[derive(Clone, Copy, Debug, PartialEq, Eq, Structural)]
pub enum ProtocolOp {
    StorePending(DisplayState),
    ClearPending,
    Commit,
    Reset,
    ControllerEnable(bool),
    DisplayEnable(bool),
}

/// The protocol state after `op`.
pub open spec fn protocol_step(p: ProtocolState, op: ProtocolOp) -> ProtocolState {
    match op {
        ProtocolOp::StorePending(state) => if p.next_generation == u64::MAX {
            p
        } else {
            let snapshot = snapshot_of(state, (p.next_generation + 1) as u64);
            ProtocolState {
                pending_state: Some(snapshot),
                next_generation: snapshot.generation,
                ..p
            }
        },
        ProtocolOp::ClearPending => ProtocolState { pending_state: None, ..p },
        ProtocolOp::Commit => match p.pending_state {
            Some(pending) => ProtocolState {
                pending_state: None,
                committed_state: Some(pending),
                ..p
            },
            None => p,
        },
        ProtocolOp::Reset => reset_protocol(p),
        ProtocolOp::ControllerEnable(enable) => ProtocolState {
            controller_enabled: enable,
            display_enabled: if enable {
                p.display_enabled
            } else {
                false
            },
            ..p
        },
        ProtocolOp::DisplayEnable(enable) => if enable && !(p.controller_enabled
            && p.committed_state is Some) {
            p
        } else {
            ProtocolState { display_enabled: enable, ..p }
        },
    }
}

/// The protocol state after the operations, in order.
pub open spec fn protocol_run(p: ProtocolState, ops: Seq<ProtocolOp>) -> ProtocolState
    decreases ops.len(),
{
    if ops.len() == 0 {
        p
    } else {
        protocol_step(protocol_run(p, ops.drop_last()), ops.last())
    }
}

/// Every operation keeps the protocol state well formed: a checked state
/// carries the latest generation, no committed state is newer, and the
/// display is only on while the controller is on and a state is committed.
pub proof fn lemma_protocol_ops_keep_wf(p: ProtocolState, ops: Seq<ProtocolOp>)
    requires
        p.wf(),
    ensures
        protocol_run(p, ops).wf(),
    decreases ops.len(),
{
    if ops.len() > 0 {
        lemma_protocol_ops_keep_wf(p, ops.drop_last());
    }
}

/// Generations never go back, whatever is stored, cleared, committed or
/// reset: a newly checked state always gets a generation above every one
/// handed out before.
pub proof fn lemma_generations_are_monotonic(p: ProtocolState, ops: Seq<ProtocolOp>, state: DisplayState)
    requires
        p.wf(),
    ensures
        protocol_run(p, ops).next_generation >= p.next_generation,
        protocol_run(p, ops).next_generation < u64::MAX ==> protocol_step(
            protocol_run(p, ops),
            ProtocolOp::StorePending(state),
        ).pending_state.unwrap().generation > p.next_generation,
    decreases ops.len(),
{
    if ops.len() > 0 {
        lemma_generations_are_monotonic(p, ops.drop_last(), state);
    }
}

/// Committing right after a successful check promotes exactly the checked
/// snapshot, generation included, and leaves nothing checked.
pub proof fn lemma_commit_promotes_checked_state(p: ProtocolState, state: DisplayState)
    requires
        p.next_generation < u64::MAX,
    ensures
        ({
            let checked = protocol_step(p, ProtocolOp::StorePending(state));
            let committed = protocol_step(checked, ProtocolOp::Commit);
            &&& committed.committed_state == checked.pending_state
            &&& committed.committed_state.unwrap().generation == (p.next_generation + 1) as u64
            &&& committed.pending_state is None
        }),
{
}

/// A reset drops everything checked and committed, so no buffer upload is
/// accepted until a state is checked and committed again.
pub proof fn lemma_reset_refuses_buffers(p: ProtocolState, info: SetBuffer)
    ensures
        buffer_request_outcome(reset_protocol(p), info) == Err::<(), BufferError>(
            BufferError::NoCommittedState,
        ),
        reset_protocol(p).next_generation == p.next_generation,
{
}

/// An error status stays until the next successful request, however often
/// it is read; that success clears it to OK, and a further success changes
/// nothing.
pub proof fn lemma_status_latches_until_success(s: StatusState, status: u8)
    requires
        status != GUD_STATUS_OK,
    ensures
        status_after_latch(s, status).value == status,
        status_after_success(status_after_latch(s, status)).value == GUD_STATUS_OK,
        status_after_success(status_after_success(status_after_latch(s, status)))
            == status_after_success(status_after_latch(s, status)),
        status_after_latch(s, status).connector_changed_once == s.connector_changed_once,
{
}

/// The connector status byte read with the connector-changed flag `changed`.
pub open spec fn connector_status_byte(changed: bool) -> u8 {
    if changed {
        GUD_CONNECTOR_STATUS_CONNECTED | GUD_CONNECTOR_STATUS_CHANGED
    } else {
        GUD_CONNECTOR_STATUS_CONNECTED
    }
}

/// After the changed flag is set, the connector is reported changed on the
/// first read only; every later read reports it merely connected.
pub proof fn lemma_connector_changed_reported_once(s: StatusState)
    ensures
        connector_status_byte(StatusState { connector_changed_once: true, ..s }.connector_changed_once)
            == GUD_CONNECTOR_STATUS_CONNECTED | GUD_CONNECTOR_STATUS_CHANGED,
        connector_status_byte(false) == GUD_CONNECTOR_STATUS_CONNECTED,
        connector_status_byte(true) != connector_status_byte(false),
{
    assert(GUD_CONNECTOR_STATUS_CONNECTED | GUD_CONNECTOR_STATUS_CHANGED == 0x81u8) by (bit_vector);
}

/// With a committed state, the controller and display enabled, a format
/// of 2 (RGB565, 0x40), 3 (RGB888, 0x50) or 4 (XRGB8888, 0x80) bytes per
/// pixel and a non-empty rectangle inside the mode, an uncompressed
/// SET_BUFFER is accepted exactly when its length is width * height times
/// those bytes per pixel; any other length is refused naming that length
/// (when the product is a countable size).
pub proof fn lemma_uncompressed_frames_need_exact_length(p: ProtocolState, info: SetBuffer)
    requires
        p.committed_state is Some,
        p.controller_enabled,
        p.display_enabled,
        p.committed_state.unwrap().format == 0x40u8 || p.committed_state.unwrap().format == 0x50u8
            || p.committed_state.unwrap().format == 0x80u8,
        info.width > 0,
        info.height > 0,
        info.x + info.width <= p.committed_state.unwrap().mode.hdisplay,
        info.y + info.height <= p.committed_state.unwrap().mode.vdisplay,
        info.compression == 0,
        info.compressed_length == 0,
    ensures
        ({
            let format = p.committed_state.unwrap().format;
            let bytes = if format == 0x40u8 {
                2int
            } else if format == 0x50u8 {
                3int
            } else {
                4int
            };
            let expected = info.width * info.height * bytes;
            &&& info.length == expected ==> buffer_request_outcome(p, info) == Ok::<(), BufferError>(())
            &&& info.length != expected && expected <= usize::MAX ==> buffer_request_outcome(p, info) == Err::<(), BufferError>(
                BufferError::LengthMismatch { length: info.length, expected: expected as usize },
            )
        }),
{
    let st = p.committed_state.unwrap();
    let bytes = format_bytes_per_pixel(st.format).unwrap() as int;
    assert(format_bytes_per_pixel(st.format) is Some);
}

/// A host that checks one of the advertised modes, with an offered format
/// and an existing connector, laid out as the gadget's own encoding lays
/// them out and followed by whole 10-byte properties, is accepted with
/// exactly that mode, format and connector; a connector past the count is
/// refused naming it.
pub proof fn lemma_advertised_state_checks_are_accepted(
    connector_count: u8,
    formats: Seq<u8>,
    modes: Seq<DisplayMode>,
    i: int,
    format: u8,
    connector: u8,
    properties: Seq<u8>,
)
    requires
        0 <= i < modes.len(),
        formats.contains(format),
        properties.len() % 10 == 0,
    ensures
        ({
            let h = crate::gud::StateCheckHeader { mode: modes[i], format, connector };
            let payload = crate::gud::state_check_header_bytes(h) + properties;
            &&& connector < connector_count ==> state_check_outcome(connector_count, formats, modes, payload)
                == Ok::<DisplayState, StateCheckError>(DisplayState { mode: modes[i], format, connector })
            &&& connector_count > 0 && connector >= connector_count ==> state_check_outcome(
                connector_count,
                formats,
                modes,
                payload,
            ) == Err::<DisplayState, StateCheckError>(StateCheckError::UnsupportedConnector { connector })
        }),
{
    let h = crate::gud::StateCheckHeader { mode: modes[i], format, connector };
    let head = crate::gud::state_check_header_bytes(h);
    let payload = head + properties;
    crate::gud::lemma_state_check_header_roundtrip(h);
    crate::gud::lemma_state_check_header_field_offsets(payload);
    crate::gud::lemma_state_check_header_field_offsets(head);
    assert(forall|j: int| 0 <= j < 26 ==> #[trigger] payload[j] == head[j]);
    assert(parse_state_check_header(payload) == parse_state_check_header(head));
    assert(same_user_timing(modes[i], modes[i]));
    assert((payload.len() - 26) == properties.len());
}

} // verus!
