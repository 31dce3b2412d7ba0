//! The decisions of a viewer's connection to the viewer daemon: what each
//! daemon message, connection attempt and read outcome asks of the window.
//! The connection, the shared mapping and the window are the caller's; it
//! hands each outcome to `viewer_client_step` and does what comes back.
use vstd::prelude::*;
use crate::viewer::{PixelFormat, ServerMessage};

verus! {

/// The shape of a shared framebuffer the viewer has mapped.
#[derive(Clone, Copy, Debug, PartialEq, Eq, Structural)]
pub struct SharedGeometry {
    pub width: u32,
    pub height: u32,
    pub stride: u32,
}

/// What the viewer remembers of its connection.
#[derive(Clone, Copy, Debug, PartialEq, Eq, Structural)]
pub struct ViewerClientState {
    /// The window was last told to wait, and has not been told otherwise.
    pub waiting_sent: bool,
    /// The framebuffer of the current session, once it is mapped.
    pub shared: Option<SharedGeometry>,
}

/// What happened on the connection.
#[derive(Clone, Debug, PartialEq, Eq)]
pub enum ViewerClientEvent {
    /// Connecting to the daemon's socket failed.
    ConnectFailed,
    /// The daemon's socket was connected.
    Connected,
    /// The connection ended or a read from it failed.
    ReadEnded,
    /// A line that is empty once trailing white space is removed.
    BlankLine,
    /// A line that is not a daemon message.
    Unparsable,
    /// A message from the daemon.
    Message(ServerMessage),
    /// The session's framebuffer was mapped with this geometry, or could
    /// not be (`None`).
    SharedMapped(Option<SharedGeometry>),
}

/// What the viewer does next.
#[derive(Clone, Debug, PartialEq, Eq)]
pub enum ViewerClientAction {
    /// Read the next line.
    ReadNext,
    /// Show the waiting page, then read the next line.
    ShowWaiting,
    /// Try to connect again after a pause, showing the waiting page first
    /// when `show_waiting`.
    RetryConnect { show_waiting: bool },
    /// Map the session's framebuffer and report how that went.
    MapShared {
        width: u32,
        height: u32,
        stride: u32,
        pixel_format: PixelFormat,
        shm_path: String,
    },
    /// Convert the mapped framebuffer of this shape and show it.
    ShowFrame(SharedGeometry),
    /// Tell the window to close, and stop.
    Shutdown,
}

/// The state after `e` and what the viewer does.
pub open spec fn viewer_client_next(s: ViewerClientState, e: ViewerClientEvent) -> (
    ViewerClientState,
    ViewerClientAction,
) {
    match e {
        ViewerClientEvent::ConnectFailed => (
            ViewerClientState { waiting_sent: true, ..s },
            ViewerClientAction::RetryConnect { show_waiting: !s.waiting_sent },
        ),
        ViewerClientEvent::Connected => (
            ViewerClientState { waiting_sent: false, shared: None },
            ViewerClientAction::ReadNext,
        ),
        ViewerClientEvent::ReadEnded => (
            ViewerClientState { shared: None, ..s },
            ViewerClientAction::RetryConnect { show_waiting: false },
        ),
        ViewerClientEvent::BlankLine => (s, ViewerClientAction::ReadNext),
        ViewerClientEvent::Unparsable => (s, ViewerClientAction::ReadNext),
        ViewerClientEvent::SharedMapped(mapped) => match mapped {
            Some(g) => (ViewerClientState { shared: Some(g), ..s }, ViewerClientAction::ReadNext),
            None => (s, ViewerClientAction::ReadNext),
        },
        ViewerClientEvent::Message(m) => match m {
            ServerMessage::Hello { .. } => (s, ViewerClientAction::ReadNext),
            ServerMessage::SessionStart { width, height, stride, pixel_format, shm_path } => (
                s,
                ViewerClientAction::MapShared { width, height, stride, pixel_format, shm_path },
            ),
            ServerMessage::FrameReady { .. } => match s.shared {
                Some(g) => (s, ViewerClientAction::ShowFrame(g)),
                None => (s, ViewerClientAction::ReadNext),
            },
            ServerMessage::Disconnected => (
                ViewerClientState { waiting_sent: true, shared: None },
                ViewerClientAction::ShowWaiting,
            ),
            ServerMessage::Shutdown => (s, ViewerClientAction::Shutdown),
        },
    }
}

impl ViewerClientState {
    /// Before the first connection attempt.
    pub fn new() -> (r: ViewerClientState)
        ensures
            r == (ViewerClientState { waiting_sent: false, shared: None }),
    {
        ViewerClientState { waiting_sent: false, shared: None }
    }
}

/// Takes one step of the viewer's connection.
pub fn viewer_client_step(state: &mut ViewerClientState, event: ViewerClientEvent) -> (action:
    ViewerClientAction)
    ensures
        (*final(state), action) == viewer_client_next(*old(state), event),
{
    match event {
        ViewerClientEvent::ConnectFailed => {
            let show_waiting = !state.waiting_sent;
            state.waiting_sent = true;
            ViewerClientAction::RetryConnect { show_waiting }
        },
        ViewerClientEvent::Connected => {
            state.waiting_sent = false;
            state.shared = None;
            ViewerClientAction::ReadNext
        },
        ViewerClientEvent::ReadEnded => {
            state.shared = None;
            ViewerClientAction::RetryConnect { show_waiting: false }
        },
        ViewerClientEvent::BlankLine => ViewerClientAction::ReadNext,
        ViewerClientEvent::Unparsable => ViewerClientAction::ReadNext,
        ViewerClientEvent::SharedMapped(mapped) => {
            match mapped {
                Some(g) => {
                    state.shared = Some(g);
                },
                None => {},
            }
            ViewerClientAction::ReadNext
        },
        ViewerClientEvent::Message(m) => match m {
            ServerMessage::Hello { .. } => ViewerClientAction::ReadNext,
            ServerMessage::SessionStart { width, height, stride, pixel_format, shm_path } => {
                ViewerClientAction::MapShared { width, height, stride, pixel_format, shm_path }
            },
            ServerMessage::FrameReady { .. } => match state.shared {
                Some(g) => ViewerClientAction::ShowFrame(g),
                None => ViewerClientAction::ReadNext,
            },
            ServerMessage::Disconnected => {
                state.waiting_sent = true;
                state.shared = None;
                ViewerClientAction::ShowWaiting
            },
            ServerMessage::Shutdown => ViewerClientAction::Shutdown,
        },
    }
}

/// Failed connection attempts show the waiting page once, until a
/// connection succeeds.
pub proof fn lemma_waiting_shown_once_while_disconnected(s: ViewerClientState)
    ensures
        viewer_client_next(viewer_client_next(s, ViewerClientEvent::ConnectFailed).0, ViewerClientEvent::ConnectFailed).1
            == (ViewerClientAction::RetryConnect { show_waiting: false }),
{
}

/// A frame is shown only from a mapped framebuffer, with its shape.
pub proof fn lemma_frames_come_from_the_mapping(s: ViewerClientState, e: ViewerClientEvent)
    ensures
        viewer_client_next(s, e).1 matches ViewerClientAction::ShowFrame(g) ==> s.shared == Some(g),
{
}

} // verus!
