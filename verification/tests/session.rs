use gud_gadget::events::{Event, ProtocolInvalidationReason};
use gud_gadget::gud::{DisplayMode, GUD_DISPLAY_MODE_FLAG_PREFERRED, GUD_PIXEL_FORMAT_RGB565};
use gud_gadget::protocol::DisplayStateSnapshot;
use gud_gadget::session::{
    record_host_activity, should_restart_after_clean_detach, BulkReceiveSession, BulkReceiveState,
    GadgetShutdown, GadgetUnbindOutcome, SessionError, UnbindPlan,
};
use std::cell::Cell;
use std::time::{Duration, Instant};

/// Spins until `span` has passed.
fn wait_for(span: Duration) {
    let start = Instant::now();
    while start.elapsed() < span {}
}

/// Runs one receive through the session, timing the work as the service does.
fn receive(
    session: &mut BulkReceiveSession,
    work: impl FnOnce() -> Result<(), String>,
) -> Result<(), String> {
    session.begin_receive().map_err(|e| e.message())?;
    let started = Instant::now();
    let result = work();
    let elapsed_ns = started.elapsed().as_nanos();
    match result {
        Err(err) => {
            let _ = session.finish_receive(false, elapsed_ns);
            Err(err)
        }
        Ok(()) => session.finish_receive(true, elapsed_ns).map_err(|e| e.message()),
    }
}

#[test]
fn failed_bulk_receive_poison_prevents_a_second_attempt() {
    let mut session = BulkReceiveSession::new();
    let attempts = Cell::new(0);

    let first = receive(&mut session, || {
        attempts.set(attempts.get() + 1);
        Err("injected receive failure".to_string())
    });
    assert!(first.is_err());
    assert_eq!(session.current_state(), BulkReceiveState::Poisoned);
    assert_eq!(session.begin_shutdown(), Err(BulkReceiveState::Poisoned));

    let second = receive(&mut session, || {
        attempts.set(attempts.get() + 1);
        Ok(())
    });
    assert!(second.is_err());
    assert_eq!(attempts.get(), 1);
    assert!(second.unwrap_err().contains("fresh Pi boot"));
}

#[test]
fn in_flight_bulk_receive_refuses_concurrent_unbind() {
    let mut session = BulkReceiveSession::new();
    session.begin_receive().unwrap();

    assert_eq!(session.current_state(), BulkReceiveState::InFlight);
    let mut unbind_calls = 0;
    if session.begin_shutdown().is_ok() {
        unbind_calls += 1;
    }
    assert_eq!(unbind_calls, 0);
    assert_eq!(session.current_state(), BulkReceiveState::Poisoned);
    assert_eq!(session.begin_shutdown(), Err(BulkReceiveState::Poisoned));

    assert!(session.finish_receive(true, 0).is_err());
    assert_eq!(session.current_state(), BulkReceiveState::Poisoned);
}

#[test]
fn late_bulk_receive_is_poisoned_at_safety_threshold() {
    let mut session = BulkReceiveSession::with_deadline(Duration::from_millis(1).as_nanos());

    let result = receive(&mut session, || {
        wait_for(Duration::from_millis(5));
        Ok(())
    });

    assert!(result.is_err());
    assert!(result.unwrap_err().contains("safety deadline"));
    assert_eq!(session.current_state(), BulkReceiveState::Poisoned);
}

#[test]
fn slow_failed_post_read_work_does_not_poison_idle_session() {
    let mut session = BulkReceiveSession::new();
    receive(&mut session, || Ok(())).unwrap();

    wait_for(Duration::from_millis(5));
    let post_read_result: Result<(), String> = Err("injected post-read failure".to_string());

    assert!(post_read_result.is_err());
    assert_eq!(session.current_state(), BulkReceiveState::Idle);
    assert!(session.begin_shutdown().is_ok());
}

#[test]
fn idle_bulk_session_can_be_claimed_for_shutdown_once() {
    let mut session = BulkReceiveSession::new();

    assert!(session.begin_shutdown().is_ok());
    assert_eq!(session.current_state(), BulkReceiveState::ShuttingDown);
    assert_eq!(session.begin_shutdown(), Err(BulkReceiveState::ShuttingDown));
}

#[test]
fn session_errors_are_reported_with_durations_and_states() {
    let late = SessionError::Late { elapsed_ns: 5_123_000, deadline_ns: 1_000_000_000 };
    assert_eq!(
        late.message(),
        "FunctionFS bulk receive exceeded the conservative 1s safety deadline (elapsed 5.123ms); \
         session poisoned"
    );
    let late = SessionError::Late { elapsed_ns: 1_500, deadline_ns: 999 };
    assert_eq!(
        late.message(),
        "FunctionFS bulk receive exceeded the conservative 999ns safety deadline (elapsed \
         1.5\u{b5}s); session poisoned"
    );
    let late = SessionError::Late { elapsed_ns: 2_000_000_001, deadline_ns: 1_000_000 };
    assert_eq!(
        late.message(),
        "FunctionFS bulk receive exceeded the conservative 1ms safety deadline (elapsed \
         2.000000001s); session poisoned"
    );
    assert_eq!(
        SessionError::Busy { state: BulkReceiveState::ShuttingDown }.message(),
        "FunctionFS bulk receive session is ShuttingDown; a fresh Pi boot may be required"
    );
    assert_eq!(
        SessionError::StateChanged { state: BulkReceiveState::Poisoned }.message(),
        "FunctionFS bulk receive state changed unexpectedly to Poisoned; session poisoned"
    );
}

#[test]
fn durations_render_like_the_standard_debug_format() {
    for ns in [0u128, 7, 999, 1_000, 1_001, 999_999, 1_000_000, 1_250_000, 59_000_000_000] {
        let late = SessionError::Late { elapsed_ns: ns, deadline_ns: 0 };
        let expected = format!(
            "FunctionFS bulk receive exceeded the conservative 0ns safety deadline (elapsed {:?}); \
             session poisoned",
            Duration::from_nanos(ns as u64)
        );
        assert_eq!(late.message(), expected);
    }
}

#[test]
fn intentional_shutdown_suppresses_clean_detach_restart() {
    assert!(!should_restart_after_clean_detach(true, true));
}

#[test]
fn safe_detach_requests_policy_controlled_restart() {
    assert!(should_restart_after_clean_detach(true, false));
    assert!(!should_restart_after_clean_detach(false, false));
}

fn native_mode() -> DisplayMode {
    DisplayMode {
        clock: 174_359,
        hdisplay: 1080,
        hsync_start: 1192,
        hsync_end: 1208,
        htotal: 1244,
        vdisplay: 2280,
        vsync_start: 2316,
        vsync_end: 2324,
        vtotal: 2336,
        flags: GUD_DISPLAY_MODE_FLAG_PREFERRED,
    }
}

#[test]
fn lifecycle_only_events_do_not_create_a_host_session() {
    let mut had_host_session = false;
    for reason in [
        ProtocolInvalidationReason::Bind,
        ProtocolInvalidationReason::Enable,
        ProtocolInvalidationReason::Suspend,
        ProtocolInvalidationReason::Resume,
    ] {
        record_host_activity(
            &mut had_host_session,
            &Event::ProtocolStateInvalidated { generation: None, reason },
        );
    }
    assert!(!had_host_session);

    record_host_activity(
        &mut had_host_session,
        &Event::StateChecked(DisplayStateSnapshot {
            mode: native_mode(),
            format: GUD_PIXEL_FORMAT_RGB565,
            connector: 0,
            generation: 1,
        }),
    );
    assert!(had_host_session);
}

/// A gadget that counts unbinds and can fail the first one.
struct MockGadget {
    unbind_calls: Cell<usize>,
    fail_first: bool,
}

impl MockGadget {
    fn new(fail_first: bool) -> Self {
        MockGadget { unbind_calls: Cell::new(0), fail_first }
    }

    fn unbind(&self) -> Result<(), String> {
        let calls = self.unbind_calls.get();
        self.unbind_calls.set(calls + 1);
        if self.fail_first && calls == 0 {
            Err("injected first unbind failure".to_string())
        } else {
            Ok(())
        }
    }
}

/// Carries out what the shutdown state decided.
fn carry_out(
    shutdown: &mut GadgetShutdown,
    plan: UnbindPlan,
    gadget: &MockGadget,
) -> Result<GadgetUnbindOutcome, String> {
    match plan {
        UnbindPlan::Report(outcome) => Ok(outcome),
        UnbindPlan::Unbind => {
            gadget.unbind()?;
            Ok(shutdown.unbind_succeeded())
        }
    }
}

#[test]
fn shutdown_unbinds_published_gadget_once() {
    let mut shutdown = GadgetShutdown::new();
    let gadget = MockGadget::new(false);

    let plan = shutdown.publish(true);
    assert_eq!(carry_out(&mut shutdown, plan, &gadget).unwrap(), GadgetUnbindOutcome::Armed);
    let plan = shutdown.request_unbind(true);
    assert_eq!(carry_out(&mut shutdown, plan, &gadget).unwrap(), GadgetUnbindOutcome::Unbound);
    let plan = shutdown.request_unbind(true);
    assert_eq!(
        carry_out(&mut shutdown, plan, &gadget).unwrap(),
        GadgetUnbindOutcome::AlreadyUnbound
    );
    assert_eq!(gadget.unbind_calls.get(), 1);
}

#[test]
fn failed_unbind_remains_retryable() {
    let mut shutdown = GadgetShutdown::new();
    let gadget = MockGadget::new(true);

    let plan = shutdown.publish(true);
    assert_eq!(carry_out(&mut shutdown, plan, &gadget).unwrap(), GadgetUnbindOutcome::Armed);
    let plan = shutdown.request_unbind(true);
    assert!(carry_out(&mut shutdown, plan, &gadget).is_err());
    let plan = shutdown.request_unbind(true);
    assert_eq!(carry_out(&mut shutdown, plan, &gadget).unwrap(), GadgetUnbindOutcome::Unbound);
    assert_eq!(gadget.unbind_calls.get(), 2);
}

#[test]
fn shutdown_before_publish_unbinds_as_soon_as_gadget_is_available() {
    let mut shutdown = GadgetShutdown::new();
    let gadget = MockGadget::new(false);

    let plan = shutdown.request_unbind(false);
    assert_eq!(
        carry_out(&mut shutdown, plan, &gadget).unwrap(),
        GadgetUnbindOutcome::DeferredUntilPublish
    );

    let plan = shutdown.publish(true);
    assert_eq!(carry_out(&mut shutdown, plan, &gadget).unwrap(), GadgetUnbindOutcome::Unbound);
    assert_eq!(gadget.unbind_calls.get(), 1);
}

#[test]
fn a_gone_gadget_is_not_unbound() {
    let mut shutdown = GadgetShutdown::new();
    let gadget = MockGadget::new(false);
    let plan = shutdown.publish(true);
    assert_eq!(carry_out(&mut shutdown, plan, &gadget).unwrap(), GadgetUnbindOutcome::Armed);
    shutdown.clear();
    let plan = shutdown.request_unbind(true);
    assert_eq!(
        carry_out(&mut shutdown, plan, &gadget).unwrap(),
        GadgetUnbindOutcome::DeferredUntilPublish
    );
    assert_eq!(gadget.unbind_calls.get(), 0);
}

#[test]
fn lifecycle_only_events_do_not_create_a_viewer_host_session() {
    let mut had_host_session = false;
    for reason in [
        ProtocolInvalidationReason::Bind,
        ProtocolInvalidationReason::Enable,
        ProtocolInvalidationReason::Suspend,
        ProtocolInvalidationReason::Resume,
    ] {
        record_host_activity(
            &mut had_host_session,
            &Event::ProtocolStateInvalidated { generation: None, reason },
        );
    }
    assert!(!had_host_session);

    record_host_activity(
        &mut had_host_session,
        &Event::StateCommitted(DisplayStateSnapshot {
            mode: gud_gadget::publish::default_native_mode(),
            format: GUD_PIXEL_FORMAT_RGB565,
            connector: 0,
            generation: 1,
        }),
    );
    assert!(had_host_session);
}
