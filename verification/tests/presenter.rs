use gud_gadget::modes::ModeKey;
use gud_gadget::config::PatternMode;
use gud_gadget::presenter::{
    available_slots, commit_outcome, commit_step, frame_is_scaled, frame_plan, presenter_step, FramePlan, CommitCount, CommitStep, PresenterAction,
    PresenterEvent, PresenterState,
};
use gud_gadget::routes::{FallbackReason, PendingPlanKind, PresentationRoute};
use gud_gadget::gud::DisplayMode;

fn key(clock: u32) -> ModeKey {
    let mode = DisplayMode {
        clock,
        hdisplay: 64,
        hsync_start: 70,
        hsync_end: 80,
        htotal: 90,
        vdisplay: 32,
        vsync_start: 34,
        vsync_end: 36,
        vtotal: 40,
        flags: 0,
    };
    ModeKey::new(0, &mode)
}

#[test]
fn detach_after_host_session_draws_waiting_screen_then_restarts() {
    let mut state = PresenterState::new(true);
    assert!(state.waiting_screen_visible);
    assert_eq!(presenter_step(&mut state, PresenterEvent::Parsed { host_activity: true }), PresenterAction::Dispatch);
    assert_eq!(presenter_step(&mut state, PresenterEvent::FramePresented), PresenterAction::Continue);
    assert!(!state.waiting_screen_visible);
    assert_eq!(presenter_step(&mut state, PresenterEvent::Idle { udc_detached: false }), PresenterAction::Continue);
    assert_eq!(
        presenter_step(&mut state, PresenterEvent::Idle { udc_detached: true }),
        PresenterAction::DrawWaitingScreen
    );
    assert_eq!(
        presenter_step(&mut state, PresenterEvent::WaitingScreenDrawn { ok: true }),
        PresenterAction::Restart
    );
    assert!(state.restart_requested && state.waiting_screen_visible);
}

#[test]
fn waiting_screen_without_host_session_keeps_running() {
    let mut state = PresenterState::new(true);
    presenter_step(&mut state, PresenterEvent::FramePresented);
    assert_eq!(
        presenter_step(&mut state, PresenterEvent::Received { udc_detached: true }),
        PresenterAction::DrawWaitingScreen
    );
    assert_eq!(
        presenter_step(&mut state, PresenterEvent::WaitingScreenDrawn { ok: false }),
        PresenterAction::Continue
    );
    assert!(!state.waiting_screen_visible);
    presenter_step(&mut state, PresenterEvent::Received { udc_detached: true });
    assert_eq!(
        presenter_step(&mut state, PresenterEvent::WaitingScreenDrawn { ok: true }),
        PresenterAction::Continue
    );
    assert!(state.waiting_screen_visible && !state.restart_requested);
    assert_eq!(
        presenter_step(&mut state, PresenterEvent::Received { udc_detached: true }),
        PresenterAction::Dispatch
    );
}

#[test]
fn startup_pattern_suppresses_waiting_screen_and_failed_reads_stop_on_shutdown() {
    let mut state = PresenterState::new(false);
    assert!(!state.waiting_screen_visible);
    assert_eq!(
        presenter_step(&mut state, PresenterEvent::ReadFailed { running: true, udc_detached: true }),
        PresenterAction::Continue
    );
    assert_eq!(presenter_step(&mut state, PresenterEvent::Disconnected), PresenterAction::Continue);
    assert_eq!(
        presenter_step(&mut state, PresenterEvent::ReadFailed { running: false, udc_detached: true }),
        PresenterAction::Stop
    );
    assert_eq!(presenter_step(&mut state, PresenterEvent::SessionPoisoned), PresenterAction::Sleep);
}

#[test]
fn commit_plans_map_to_switches_and_routes() {
    assert_eq!(commit_step(None, 0, 0), CommitStep::PlanMismatch);
    assert_eq!(commit_step(Some(PendingPlanKind::ExactActiveNoOp), 1, 0), CommitStep::NoOp);
    assert_eq!(
        commit_step(Some(PendingPlanKind::ExactCandidate { slot: 1 }), 0, 0),
        CommitStep::Switch { target: 1, to_baseline: false, release_after_switch: None, release_after_failure: Some(1) }
    );
    assert_eq!(
        commit_step(Some(PendingPlanKind::ExactCandidate { slot: 2 }), 1, 0),
        CommitStep::Switch { target: 2, to_baseline: false, release_after_switch: Some(1), release_after_failure: Some(2) }
    );
    assert_eq!(commit_step(Some(PendingPlanKind::ExactCandidate { slot: 0 }), 1, 0), CommitStep::Unusable);
    assert_eq!(
        commit_step(Some(PendingPlanKind::ScaledBaseline { switch_required: true }), 2, 0),
        CommitStep::Switch { target: 0, to_baseline: true, release_after_switch: Some(2), release_after_failure: None }
    );
    assert_eq!(commit_step(Some(PendingPlanKind::ScaledBaseline { switch_required: false }), 2, 0), CommitStep::Unusable);

    let logical = key(1);
    let current = key(2);
    let requested = key(3);
    let switch = commit_step(Some(PendingPlanKind::ExactCandidate { slot: 1 }), 0, 0);
    let done = commit_outcome(switch, logical, current, Some(requested), true).unwrap();
    assert_eq!(done.route, PresentationRoute::DirectExact { logical, physical: requested });
    assert_eq!(done.count, CommitCount::Switched);
    assert_eq!(done.new_physical_key, Some(requested));
    let failed = commit_outcome(switch, logical, current, Some(requested), false).unwrap();
    assert_eq!(
        failed.route,
        PresentationRoute::ScaledCurrentAfterFailure { logical, reason: FallbackReason::SwitchFailed }
    );
    assert!(failed.remember_failure);
    assert_eq!(failed.count, CommitCount::Fallback);
    assert!(commit_outcome(switch, logical, current, None, true).is_none());
    let noop = commit_outcome(CommitStep::NoOp, logical, current, None, false).unwrap();
    assert_eq!(noop.route, PresentationRoute::DirectExact { logical, physical: current });
    assert_eq!(noop.count, CommitCount::NoOp);
}

#[test]
fn frames_are_planned_by_pattern_and_scaling() {
    assert_eq!(available_slots(0), (1, Some(2)));
    assert_eq!(available_slots(1), (2, None));
    assert_eq!(available_slots(2), (1, None));
    let logical = key(1);
    assert!(frame_is_scaled(true, Some(PresentationRoute::ScaledBaseline { logical }), (64, 32), (64, 32)));
    assert!(!frame_is_scaled(true, Some(PresentationRoute::DirectExact { logical, physical: logical }), (64, 32), (80, 40)));
    assert!(!frame_is_scaled(true, None, (64, 32), (80, 40)));
    assert!(frame_is_scaled(false, None, (64, 32), (80, 40)));
    assert!(!frame_is_scaled(false, None, (64, 32), (64, 32)));
    assert_eq!(frame_plan(PatternMode::Off, true), FramePlan::ScaleThroughShadow);
    assert_eq!(frame_plan(PatternMode::Startup, false), FramePlan::CopyToFront);
    assert_eq!(frame_plan(PatternMode::Hold, true), FramePlan::Hold);
    assert_eq!(frame_plan(PatternMode::Usb, false), FramePlan::DiagnosticPattern);
}
