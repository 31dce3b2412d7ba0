use gud_gadget::viewer::{PixelFormat, ServerMessage};
use gud_gadget::viewer_client::{
    viewer_client_step, SharedGeometry, ViewerClientAction, ViewerClientEvent, ViewerClientState,
};

#[test]
fn viewer_waits_once_until_connected_then_follows_the_session() {
    let mut state = ViewerClientState::new();
    assert_eq!(
        viewer_client_step(&mut state, ViewerClientEvent::ConnectFailed),
        ViewerClientAction::RetryConnect { show_waiting: true }
    );
    assert_eq!(
        viewer_client_step(&mut state, ViewerClientEvent::ConnectFailed),
        ViewerClientAction::RetryConnect { show_waiting: false }
    );
    assert_eq!(viewer_client_step(&mut state, ViewerClientEvent::Connected), ViewerClientAction::ReadNext);
    let frame = ServerMessage::FrameReady { width: 4, height: 2, stride: 8, generation: 1, full_frame: true };
    assert_eq!(
        viewer_client_step(&mut state, ViewerClientEvent::Message(frame.clone())),
        ViewerClientAction::ReadNext
    );
    let start = ServerMessage::SessionStart {
        width: 4,
        height: 2,
        stride: 8,
        pixel_format: PixelFormat::Rgb565,
        shm_path: String::from("/run/user/1000/gud-viewer/framebuffer.bin"),
    };
    assert_eq!(
        viewer_client_step(&mut state, ViewerClientEvent::Message(start)),
        ViewerClientAction::MapShared {
            width: 4,
            height: 2,
            stride: 8,
            pixel_format: PixelFormat::Rgb565,
            shm_path: String::from("/run/user/1000/gud-viewer/framebuffer.bin"),
        }
    );
    let geometry = SharedGeometry { width: 4, height: 2, stride: 8 };
    viewer_client_step(&mut state, ViewerClientEvent::SharedMapped(Some(geometry)));
    assert_eq!(
        viewer_client_step(&mut state, ViewerClientEvent::Message(frame)),
        ViewerClientAction::ShowFrame(geometry)
    );
    assert_eq!(
        viewer_client_step(&mut state, ViewerClientEvent::Message(ServerMessage::Disconnected)),
        ViewerClientAction::ShowWaiting
    );
    assert!(state.waiting_sent && state.shared.is_none());
    assert_eq!(
        viewer_client_step(&mut state, ViewerClientEvent::ReadEnded),
        ViewerClientAction::RetryConnect { show_waiting: false }
    );
    assert_eq!(
        viewer_client_step(&mut state, ViewerClientEvent::ConnectFailed),
        ViewerClientAction::RetryConnect { show_waiting: false }
    );
    assert_eq!(
        viewer_client_step(&mut state, ViewerClientEvent::Message(ServerMessage::Shutdown)),
        ViewerClientAction::Shutdown
    );
}
