//! The decisions of the DRM presenter's event loop: when the waiting screen
//! is shown, when the gadget is restarted, and how a committed state's plan
//! becomes a presentation route. The loop itself reads events and drives the
//! display; it hands each outcome to these functions and does what they say.
use vstd::prelude::*;
use crate::config::PatternMode;
use crate::modes::ModeKey;
use crate::routes::{FallbackReason, PendingPlanKind, PresentationRoute};

verus! {

/// What the loop remembers between events.
#[derive(Clone, Copy, Debug, PartialEq, Eq, Structural)]
pub struct PresenterState {
    /// No startup pattern is shown, so the waiting screen is drawn on
    /// detach.
    pub pattern_off: bool,
    /// The waiting screen is what the display shows now.
    pub waiting_screen_visible: bool,
    /// A host has talked to the gadget since it was bound.
    pub had_host_session: bool,
    /// The loop ended to restart the gadget.
    pub restart_requested: bool,
}

/// What happened since the last step.
#[derive(Clone, Copy, Debug, PartialEq, Eq, Structural)]
pub enum PresenterEvent {
    /// The bulk receive session is poisoned.
    SessionPoisoned,
    /// Reading a control event failed.
    ReadFailed { running: bool, udc_detached: bool },
    /// No control event arrived in time.
    Idle { udc_detached: bool },
    /// A control event arrived and is about to be handled.
    Received { udc_detached: bool },
    /// The event was parsed into a GUD event.
    Parsed { host_activity: bool },
    /// The event could not be parsed.
    ParseFailed { udc_detached: bool },
    /// The host disconnected.
    Disconnected,
    /// A frame from the host reached the display.
    FramePresented,
    /// The waiting screen asked for was drawn (`ok`) or not.
    WaitingScreenDrawn { ok: bool },
}

/// What the loop does next.
#[derive(Clone, Copy, Debug, PartialEq, Eq, Structural)]
pub enum PresenterAction {
    /// Wait a little, then read again.
    Sleep,
    /// Read the next event.
    Continue,
    /// Hand the event to its handler.
    Dispatch,
    /// Draw the waiting screen and report how that went.
    DrawWaitingScreen,
    /// Leave the loop for a shutdown.
    Stop,
    /// Leave the loop to restart the gadget.
    Restart,
}

/// Whether a detached gadget should show the waiting screen now.
pub open spec fn waiting_screen_due(s: PresenterState, udc_detached: bool) -> bool {
    !s.waiting_screen_visible && s.pattern_off && udc_detached
}

/// The state after `e` and the action the loop takes.
pub open spec fn presenter_next(s: PresenterState, e: PresenterEvent) -> (
    PresenterState,
    PresenterAction,
) {
    match e {
        PresenterEvent::SessionPoisoned => (s, PresenterAction::Sleep),
        PresenterEvent::ReadFailed { running, udc_detached } => if !running {
            (s, PresenterAction::Stop)
        } else if waiting_screen_due(s, udc_detached) {
            (s, PresenterAction::DrawWaitingScreen)
        } else {
            (s, PresenterAction::Continue)
        },
        PresenterEvent::Idle { udc_detached } => if waiting_screen_due(s, udc_detached) {
            (s, PresenterAction::DrawWaitingScreen)
        } else {
            (s, PresenterAction::Continue)
        },
        PresenterEvent::Received { udc_detached } => if waiting_screen_due(s, udc_detached) {
            (s, PresenterAction::DrawWaitingScreen)
        } else {
            (s, PresenterAction::Dispatch)
        },
        PresenterEvent::Parsed { host_activity } => (
            PresenterState { had_host_session: s.had_host_session || host_activity, ..s },
            PresenterAction::Dispatch,
        ),
        PresenterEvent::ParseFailed { udc_detached } => if waiting_screen_due(s, udc_detached) {
            (s, PresenterAction::DrawWaitingScreen)
        } else {
            (s, PresenterAction::Continue)
        },
        PresenterEvent::Disconnected => if s.pattern_off {
            (s, PresenterAction::DrawWaitingScreen)
        } else {
            (s, PresenterAction::Continue)
        },
        PresenterEvent::FramePresented => if s.pattern_off {
            (PresenterState { waiting_screen_visible: false, ..s }, PresenterAction::Continue)
        } else {
            (s, PresenterAction::Continue)
        },
        PresenterEvent::WaitingScreenDrawn { ok } => if !ok {
            (s, PresenterAction::Continue)
        } else if s.had_host_session {
            (
                PresenterState { waiting_screen_visible: true, restart_requested: true, ..s },
                PresenterAction::Restart,
            )
        } else {
            (PresenterState { waiting_screen_visible: true, ..s }, PresenterAction::Continue)
        },
    }
}

impl PresenterState {
    /// The state at the start of the loop: the waiting screen counts as
    /// shown when the startup screens were drawn with no pattern.
    pub fn new(pattern_off: bool) -> (r: PresenterState)
        ensures
            r == (PresenterState {
                pattern_off,
                waiting_screen_visible: pattern_off,
                had_host_session: false,
                restart_requested: false,
            }),
    {
        PresenterState {
            pattern_off,
            waiting_screen_visible: pattern_off,
            had_host_session: false,
            restart_requested: false,
        }
    }
}

/// Takes one step of the loop: records `event` and says what to do next.
pub fn presenter_step(state: &mut PresenterState, event: PresenterEvent) -> (action:
    PresenterAction)
    ensures
        (*final(state), action) == presenter_next(*old(state), event),
{
    let due = |detached: bool| -> (r: bool)
        ensures
            r == waiting_screen_due(*state, detached),
        { !state.waiting_screen_visible && state.pattern_off && detached };
    match event {
        PresenterEvent::SessionPoisoned => PresenterAction::Sleep,
        PresenterEvent::ReadFailed { running, udc_detached } => {
            if !running {
                PresenterAction::Stop
            } else if due(udc_detached) {
                PresenterAction::DrawWaitingScreen
            } else {
                PresenterAction::Continue
            }
        },
        PresenterEvent::Idle { udc_detached } => {
            if due(udc_detached) {
                PresenterAction::DrawWaitingScreen
            } else {
                PresenterAction::Continue
            }
        },
        PresenterEvent::Received { udc_detached } => {
            if due(udc_detached) {
                PresenterAction::DrawWaitingScreen
            } else {
                PresenterAction::Dispatch
            }
        },
        PresenterEvent::Parsed { host_activity } => {
            state.had_host_session = state.had_host_session || host_activity;
            PresenterAction::Dispatch
        },
        PresenterEvent::ParseFailed { udc_detached } => {
            if due(udc_detached) {
                PresenterAction::DrawWaitingScreen
            } else {
                PresenterAction::Continue
            }
        },
        PresenterEvent::Disconnected => {
            if state.pattern_off {
                PresenterAction::DrawWaitingScreen
            } else {
                PresenterAction::Continue
            }
        },
        PresenterEvent::FramePresented => {
            if state.pattern_off {
                state.waiting_screen_visible = false;
            }
            PresenterAction::Continue
        },
        PresenterEvent::WaitingScreenDrawn { ok } => {
            if !ok {
                PresenterAction::Continue
            } else if state.had_host_session {
                state.waiting_screen_visible = true;
                state.restart_requested = true;
                PresenterAction::Restart
            } else {
                state.waiting_screen_visible = true;
                PresenterAction::Continue
            }
        },
    }
}

/// The loop restarts the gadget only right after the waiting screen was
/// drawn for a gadget that had a host session, and it then remembers both.
pub proof fn lemma_restart_follows_drawn_waiting_screen(s: PresenterState, e: PresenterEvent)
    ensures
        presenter_next(s, e).1 == PresenterAction::Restart ==> {
            &&& e == PresenterEvent::WaitingScreenDrawn { ok: true }
            &&& s.had_host_session
            &&& presenter_next(s, e).0.waiting_screen_visible
            &&& presenter_next(s, e).0.restart_requested
        },
{
}

/// While the waiting screen is shown, only a host disconnect draws it
/// again: detach checks, failed reads and stray events leave it alone.
pub proof fn lemma_visible_waiting_screen_is_not_redrawn(s: PresenterState, e: PresenterEvent)
    requires
        s.waiting_screen_visible,
        e != PresenterEvent::Disconnected,
    ensures
        presenter_next(s, e).1 != PresenterAction::DrawWaitingScreen,
{
}

/// A host session, once seen, is never forgotten by a step.
pub proof fn lemma_host_session_is_kept(s: PresenterState, e: PresenterEvent)
    requires
        s.had_host_session,
    ensures
        presenter_next(s, e).0.had_host_session,
{
}

/// How a commit is carried out on the scanout slots.
#[derive(Clone, Copy, Debug, PartialEq, Eq, Structural)]
pub enum CommitStep {
    /// No plan matched the commit: the candidate is dropped and the state is
    /// shown scaled on the current scanout.
    PlanMismatch,
    /// The state is already scanned out exactly.
    NoOp,
    /// The state is shown scaled on the current scanout.
    ScaledCurrent(FallbackReason),
    /// The baseline is scanned out and shows the state scaled.
    ScaledBaseline,
    /// Switch the scanout to slot `target`. After a switch, the slot left
    /// behind is released when `release_after_switch` names it; after a
    /// failed switch, the slot `release_after_failure` names is released.
    Switch {
        target: usize,
        to_baseline: bool,
        release_after_switch: Option<usize>,
        release_after_failure: Option<usize>,
    },
    /// The plan does not fit the scanout slots.
    Unusable,
}

/// The step for a commit whose plan (`None`: no plan matched) was made
/// with slot `active` scanned out and slot `baseline` holding the baseline.
pub open spec fn commit_step_for(plan: Option<PendingPlanKind>, active: usize, baseline: usize) -> CommitStep {
    match plan {
        None => CommitStep::PlanMismatch,
        Some(PendingPlanKind::ExactActiveNoOp) => CommitStep::NoOp,
        Some(PendingPlanKind::ScaledCurrentAfterFailure(reason)) => CommitStep::ScaledCurrent(reason),
        Some(PendingPlanKind::ScaledBaseline { switch_required: false }) => if active == baseline {
            CommitStep::ScaledBaseline
        } else {
            CommitStep::Unusable
        },
        Some(PendingPlanKind::ExactCandidate { slot }) => if (active == 0 && (slot == 1 || slot
            == 2)) || (active == 1 && slot == 2) || (active == 2 && slot == 1) {
            CommitStep::Switch {
                target: slot,
                to_baseline: false,
                release_after_switch: if active == 0 {
                    None
                } else {
                    Some(active)
                },
                release_after_failure: Some(slot),
            }
        } else {
            CommitStep::Unusable
        },
        Some(PendingPlanKind::ScaledBaseline { switch_required: true }) => if active == 1 || active
            == 2 {
            CommitStep::Switch {
                target: 0,
                to_baseline: true,
                release_after_switch: Some(active),
                release_after_failure: None,
            }
        } else {
            CommitStep::Unusable
        },
    }
}

/// The step for a commit: see `commit_step_for`.
pub fn commit_step(plan: Option<PendingPlanKind>, active: usize, baseline: usize) -> (r: CommitStep)
    ensures
        r == commit_step_for(plan, active, baseline),
{
    match plan {
        None => CommitStep::PlanMismatch,
        Some(PendingPlanKind::ExactActiveNoOp) => CommitStep::NoOp,
        Some(PendingPlanKind::ScaledCurrentAfterFailure(reason)) => CommitStep::ScaledCurrent(reason),
        Some(PendingPlanKind::ScaledBaseline { switch_required: false }) => {
            if active == baseline {
                CommitStep::ScaledBaseline
            } else {
                CommitStep::Unusable
            }
        },
        Some(PendingPlanKind::ExactCandidate { slot }) => {
            if (active == 0 && (slot == 1 || slot == 2)) || (active == 1 && slot == 2) || (active
                == 2 && slot == 1) {
                CommitStep::Switch {
                    target: slot,
                    to_baseline: false,
                    release_after_switch: if active == 0 {
                        None
                    } else {
                        Some(active)
                    },
                    release_after_failure: Some(slot),
                }
            } else {
                CommitStep::Unusable
            }
        },
        Some(PendingPlanKind::ScaledBaseline { switch_required: true }) => {
            if active == 1 || active == 2 {
                CommitStep::Switch {
                    target: 0,
                    to_baseline: true,
                    release_after_switch: Some(active),
                    release_after_failure: None,
                }
            } else {
                CommitStep::Unusable
            }
        },
    }
}

/// Which counter a commit adds to.
#[derive(Clone, Copy, Debug, PartialEq, Eq, Structural)]
pub enum CommitCount {
    Switched,
    NoOp,
    Fallback,
    Nothing,
}

/// What a carried-out commit leaves behind: the route, the counter it adds
/// to, whether the requested route is remembered as failed, and the new
/// physical key of the scanout when it changed.
#[derive(Clone, Copy, Debug, PartialEq, Eq, Structural)]
pub struct CommitOutcome {
    pub route: PresentationRoute,
    pub count: CommitCount,
    pub remember_failure: bool,
    pub new_physical_key: Option<ModeKey>,
}

/// The outcome of `step` for the logical mode `logical`, with the scanout
/// at `current_physical`, the plan asking for `requested` and, for a
/// switch, whether it `switched`. Nothing comes of an unusable plan or an
/// exact switch without a requested key.
pub open spec fn commit_outcome_for(
    step: CommitStep,
    logical: ModeKey,
    current_physical: ModeKey,
    requested: Option<ModeKey>,
    switched: bool,
) -> Option<CommitOutcome> {
    match step {
        CommitStep::PlanMismatch => Some(
            CommitOutcome {
                route: PresentationRoute::ScaledCurrentAfterFailure {
                    logical,
                    reason: FallbackReason::PlanMismatch,
                },
                count: CommitCount::Fallback,
                remember_failure: false,
                new_physical_key: None,
            },
        ),
        CommitStep::NoOp => Some(
            CommitOutcome {
                route: PresentationRoute::DirectExact { logical, physical: current_physical },
                count: CommitCount::NoOp,
                remember_failure: false,
                new_physical_key: None,
            },
        ),
        CommitStep::ScaledCurrent(reason) => Some(
            CommitOutcome {
                route: PresentationRoute::ScaledCurrentAfterFailure { logical, reason },
                count: CommitCount::Nothing,
                remember_failure: false,
                new_physical_key: None,
            },
        ),
        CommitStep::ScaledBaseline => Some(
            CommitOutcome {
                route: PresentationRoute::ScaledBaseline { logical },
                count: CommitCount::Nothing,
                remember_failure: false,
                new_physical_key: None,
            },
        ),
        CommitStep::Switch { to_baseline, .. } => if to_baseline {
            if switched {
                Some(
                    CommitOutcome {
                        route: PresentationRoute::ScaledBaseline { logical },
                        count: CommitCount::Switched,
                        remember_failure: false,
                        new_physical_key: None,
                    },
                )
            } else {
                Some(
                    CommitOutcome {
                        route: PresentationRoute::ScaledCurrentAfterFailure {
                            logical,
                            reason: FallbackReason::BaselineSwitchFailed,
                        },
                        count: CommitCount::Fallback,
                        remember_failure: false,
                        new_physical_key: None,
                    },
                )
            }
        } else {
            match requested {
                None => None,
                Some(physical) => if switched {
                    Some(
                        CommitOutcome {
                            route: PresentationRoute::DirectExact { logical, physical },
                            count: CommitCount::Switched,
                            remember_failure: false,
                            new_physical_key: Some(physical),
                        },
                    )
                } else {
                    Some(
                        CommitOutcome {
                            route: PresentationRoute::ScaledCurrentAfterFailure {
                                logical,
                                reason: FallbackReason::SwitchFailed,
                            },
                            count: CommitCount::Fallback,
                            remember_failure: true,
                            new_physical_key: None,
                        },
                    )
                },
            }
        },
        CommitStep::Unusable => None,
    }
}

/// The outcome of a carried-out commit: see `commit_outcome_for`.
pub fn commit_outcome(
    step: CommitStep,
    logical: ModeKey,
    current_physical: ModeKey,
    requested: Option<ModeKey>,
    switched: bool,
) -> (r: Option<CommitOutcome>)
    ensures
        r == commit_outcome_for(step, logical, current_physical, requested, switched),
{
    match step {
        CommitStep::PlanMismatch => Some(
            CommitOutcome {
                route: PresentationRoute::ScaledCurrentAfterFailure {
                    logical,
                    reason: FallbackReason::PlanMismatch,
                },
                count: CommitCount::Fallback,
                remember_failure: false,
                new_physical_key: None,
            },
        ),
        CommitStep::NoOp => Some(
            CommitOutcome {
                route: PresentationRoute::DirectExact { logical, physical: current_physical },
                count: CommitCount::NoOp,
                remember_failure: false,
                new_physical_key: None,
            },
        ),
        CommitStep::ScaledCurrent(reason) => Some(
            CommitOutcome {
                route: PresentationRoute::ScaledCurrentAfterFailure { logical, reason },
                count: CommitCount::Nothing,
                remember_failure: false,
                new_physical_key: None,
            },
        ),
        CommitStep::ScaledBaseline => Some(
            CommitOutcome {
                route: PresentationRoute::ScaledBaseline { logical },
                count: CommitCount::Nothing,
                remember_failure: false,
                new_physical_key: None,
            },
        ),
        CommitStep::Switch { to_baseline, .. } => {
            if to_baseline {
                if switched {
                    Some(
                        CommitOutcome {
                            route: PresentationRoute::ScaledBaseline { logical },
                            count: CommitCount::Switched,
                            remember_failure: false,
                            new_physical_key: None,
                        },
                    )
                } else {
                    Some(
                        CommitOutcome {
                            route: PresentationRoute::ScaledCurrentAfterFailure {
                                logical,
                                reason: FallbackReason::BaselineSwitchFailed,
                            },
                            count: CommitCount::Fallback,
                            remember_failure: false,
                            new_physical_key: None,
                        },
                    )
                }
            } else {
                match requested {
                    None => None,
                    Some(physical) => {
                        if switched {
                            Some(
                                CommitOutcome {
                                    route: PresentationRoute::DirectExact { logical, physical },
                                    count: CommitCount::Switched,
                                    remember_failure: false,
                                    new_physical_key: Some(physical),
                                },
                            )
                        } else {
                            Some(
                                CommitOutcome {
                                    route: PresentationRoute::ScaledCurrentAfterFailure {
                                        logical,
                                        reason: FallbackReason::SwitchFailed,
                                    },
                                    count: CommitCount::Fallback,
                                    remember_failure: true,
                                    new_physical_key: None,
                                },
                            )
                        }
                    },
                }
            }
        },
        CommitStep::Unusable => None,
    }
}

/// A commit is counted as a switch only when the scanout was switched, and
/// the scanout's physical key changes only after a switch to an exact mode.
pub proof fn lemma_switch_counted_only_when_switched(
    step: CommitStep,
    logical: ModeKey,
    current_physical: ModeKey,
    requested: Option<ModeKey>,
    switched: bool,
)
    ensures
        commit_outcome_for(step, logical, current_physical, requested, switched) matches Some(o)
            ==> ((o.count == CommitCount::Switched ==> switched && step is Switch)
            && (o.new_physical_key is Some ==> switched && o.new_physical_key == requested
            && step matches CommitStep::Switch { to_baseline: false, .. })),
{
}

/// A switch never targets the slot it leaves, and never releases the slot
/// it switches to.
pub proof fn lemma_switch_targets_another_slot(
    plan: Option<PendingPlanKind>,
    active: usize,
    baseline: usize,
)
    ensures
        commit_step_for(plan, active, baseline) matches CommitStep::Switch {
            target,
            release_after_switch,
            ..
        } ==> target != active && release_after_switch != Some(target),
{
}

/// The slots a check or an invalidation may use while slot `active` is
/// scanned out: with the baseline slot 0 active, slots 1 and 2; otherwise
/// the one slot that is neither 0 nor active.
pub open spec fn available_slots_for(active: usize) -> (usize, Option<usize>) {
    if active == 0 {
        (1, Some(2))
    } else if active == 1 {
        (2, None)
    } else {
        (1, None)
    }
}

/// The available slots: see `available_slots_for`.
pub fn available_slots(active: usize) -> (r: (usize, Option<usize>))
    requires
        active < 3,
    ensures
        r == available_slots_for(active),
        r.0 != active && r.0 < 3,
        r.1 matches Some(s) ==> s != active && s != r.0 && s < 3,
{
    if active == 0 {
        (1, Some(2))
    } else if active == 1 {
        (2, None)
    } else {
        (1, None)
    }
}

/// Whether a frame of `source` size is shown scaled on a scanout of
/// `physical` size: with routing on, when the committed route presents it
/// scaled; otherwise when the sizes differ.
pub open spec fn frame_scaled(
    dynamic_mode_match: bool,
    route: Option<PresentationRoute>,
    source: (u32, u32),
    physical: (u32, u32),
) -> bool {
    if dynamic_mode_match {
        route matches Some(PresentationRoute::ScaledBaseline { .. }) || route matches Some(
            PresentationRoute::ScaledCurrentAfterFailure { .. },
        )
    } else {
        source != physical
    }
}

/// Whether a frame is shown scaled: see `frame_scaled`.
pub fn frame_is_scaled(
    dynamic_mode_match: bool,
    route: Option<PresentationRoute>,
    source: (u32, u32),
    physical: (u32, u32),
) -> (r: bool)
    ensures
        r == frame_scaled(dynamic_mode_match, route, source, physical),
{
    if dynamic_mode_match {
        match route {
            Some(PresentationRoute::ScaledBaseline { .. }) => true,
            Some(PresentationRoute::ScaledCurrentAfterFailure { .. }) => true,
            _ => false,
        }
    } else {
        source.0 != physical.0 || source.1 != physical.1
    }
}

/// How a frame from the host reaches the display.
#[derive(Clone, Copy, Debug, PartialEq, Eq, Structural)]
pub enum FramePlan {
    /// Copy the frame into the shadow raster, scale it into the back
    /// buffer, mark the whole back buffer changed and flip to it (setting
    /// the mode when the flip fails).
    ScaleThroughShadow,
    /// Copy the frame into the front buffer and mark its rectangle changed.
    CopyToFront,
    /// Draw the diagnostic pattern into the frame's rectangle of the front
    /// buffer and mark it changed.
    DiagnosticPattern,
    /// Leave the display as it is.
    Hold,
}

/// The plan for a frame under `pattern`, shown scaled or not.
pub open spec fn frame_plan_for(pattern: PatternMode, scaled: bool) -> FramePlan {
    match pattern {
        PatternMode::Off | PatternMode::Startup => if scaled {
            FramePlan::ScaleThroughShadow
        } else {
            FramePlan::CopyToFront
        },
        PatternMode::Hold => FramePlan::Hold,
        PatternMode::Usb => FramePlan::DiagnosticPattern,
    }
}

/// The plan for a frame: see `frame_plan_for`.
pub fn frame_plan(pattern: PatternMode, scaled: bool) -> (r: FramePlan)
    ensures
        r == frame_plan_for(pattern, scaled),
{
    match pattern {
        PatternMode::Off | PatternMode::Startup => {
            if scaled {
                FramePlan::ScaleThroughShadow
            } else {
                FramePlan::CopyToFront
            }
        },
        PatternMode::Hold => FramePlan::Hold,
        PatternMode::Usb => FramePlan::DiagnosticPattern,
    }
}

} // verus!
