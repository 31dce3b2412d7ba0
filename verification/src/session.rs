//! The display service's guards around the gadget: one bulk receive at a
//! time, poisoned for good after a failure or a late completion, and an
//! unbind of the published gadget that happens once, even when shutdown is
//! requested before the gadget is published.
use vstd::prelude::*;

verus! {

/// The default time a bulk receive may take before the session is poisoned.
pub const BULK_RECEIVE_DEADLINE_NS: u128 = 1_000_000_000;

/// Where the bulk receive session stands.
#[derive(Clone, Copy, Debug, PartialEq, Eq, Structural)]
pub enum BulkReceiveState {
    Idle,
    InFlight,
    Poisoned,
    ShuttingDown,
}

/// Why a bulk receive was refused or failed.
#[derive(Clone, Copy, Debug, PartialEq, Eq, Structural)]
pub enum SessionError {
    Busy { state: BulkReceiveState },
    ReceiveFailed,
    Late { elapsed_ns: u128, deadline_ns: u128 },
    StateChanged { state: BulkReceiveState },
}

/// One bulk receive at a time, with a deadline.
#[derive(Clone, Copy, Debug, PartialEq, Eq, Structural)]
pub struct BulkReceiveSession {
    pub state: BulkReceiveState,
    pub deadline_ns: u128,
}

impl BulkReceiveSession {
    /// An idle session with the given deadline.
    pub fn with_deadline(deadline_ns: u128) -> (r: BulkReceiveSession)
        ensures
            r == (BulkReceiveSession { state: BulkReceiveState::Idle, deadline_ns }),
    {
        BulkReceiveSession { state: BulkReceiveState::Idle, deadline_ns }
    }

    /// An idle session with the default deadline.
    pub fn new() -> (r: BulkReceiveSession)
        ensures
            r == (BulkReceiveSession {
                state: BulkReceiveState::Idle,
                deadline_ns: BULK_RECEIVE_DEADLINE_NS,
            }),
    {
        Self::with_deadline(BULK_RECEIVE_DEADLINE_NS)
    }

    /// Starts a receive: only an idle session may, and it is then in flight.
    pub fn begin_receive(&mut self) -> (r: Result<(), SessionError>)
        ensures
            old(self).state == BulkReceiveState::Idle ==> r is Ok && final(self).state
                == BulkReceiveState::InFlight,
            old(self).state != BulkReceiveState::Idle ==> r == Err::<(), SessionError>(
                SessionError::Busy { state: old(self).state },
            ) && final(self).state == old(self).state,
            final(self).deadline_ns == old(self).deadline_ns,
    {
        if self.state != BulkReceiveState::Idle {
            return Err(SessionError::Busy { state: self.state });
        }
        self.state = BulkReceiveState::InFlight;
        Ok(())
    }

    /// Ends a receive that took `elapsed_ns`. A failed or late receive
    /// poisons the session; a timely success returns it to idle, unless the
    /// session was moved on meanwhile, which poisons it too.
    pub fn finish_receive(&mut self, succeeded: bool, elapsed_ns: u128) -> (r: Result<
        (),
        SessionError,
    >)
        ensures
            !succeeded ==> r == Err::<(), SessionError>(SessionError::ReceiveFailed) && final(self).state == BulkReceiveState::Poisoned,
            succeeded && elapsed_ns > old(self).deadline_ns ==> r == Err::<(), SessionError>(
                SessionError::Late { elapsed_ns, deadline_ns: old(self).deadline_ns },
            ) && final(self).state == BulkReceiveState::Poisoned,
            succeeded && elapsed_ns <= old(self).deadline_ns && old(self).state
                == BulkReceiveState::InFlight ==> r is Ok && final(self).state
                == BulkReceiveState::Idle,
            succeeded && elapsed_ns <= old(self).deadline_ns && old(self).state
                != BulkReceiveState::InFlight ==> r == Err::<(), SessionError>(
                SessionError::StateChanged { state: old(self).state },
            ) && final(self).state == BulkReceiveState::Poisoned,
            final(self).deadline_ns == old(self).deadline_ns,
    {
        if !succeeded {
            self.state = BulkReceiveState::Poisoned;
            return Err(SessionError::ReceiveFailed);
        }
        if elapsed_ns > self.deadline_ns {
            self.state = BulkReceiveState::Poisoned;
            return Err(SessionError::Late { elapsed_ns, deadline_ns: self.deadline_ns });
        }
        if self.state != BulkReceiveState::InFlight {
            let state = self.state;
            self.state = BulkReceiveState::Poisoned;
            return Err(SessionError::StateChanged { state });
        }
        self.state = BulkReceiveState::Idle;
        Ok(())
    }

    /// Claims the session for shutdown: an idle session shuts down; one in
    /// flight is poisoned and refused; a poisoned or shutting-down session is
    /// refused as it is. A refusal reports the state found.
    pub fn begin_shutdown(&mut self) -> (r: Result<(), BulkReceiveState>)
        ensures
            old(self).state == BulkReceiveState::Idle ==> r is Ok && final(self).state
                == BulkReceiveState::ShuttingDown,
            old(self).state == BulkReceiveState::InFlight ==> r == Err::<(), BulkReceiveState>(
                BulkReceiveState::InFlight,
            ) && final(self).state == BulkReceiveState::Poisoned,
            (old(self).state == BulkReceiveState::Poisoned || old(self).state
                == BulkReceiveState::ShuttingDown) ==> r == Err::<(), BulkReceiveState>(
                old(self).state,
            ) && final(self).state == old(self).state,
            final(self).deadline_ns == old(self).deadline_ns,
    {
        match self.state {
            BulkReceiveState::Idle => {
                self.state = BulkReceiveState::ShuttingDown;
                Ok(())
            },
            BulkReceiveState::InFlight => {
                self.state = BulkReceiveState::Poisoned;
                Err(BulkReceiveState::InFlight)
            },
            state => Err(state),
        }
    }

    /// The state of the session.
    pub fn current_state(&self) -> (r: BulkReceiveState)
        ensures
            r == self.state,
    {
        self.state
    }
}

/// A step of the bulk receive session.
#[derive(Clone, Copy, Debug, PartialEq, Eq, Structural)]
pub enum SessionStep {
    Begin,
    Finish { succeeded: bool, elapsed_ns: u128 },
    Shutdown,
}

/// The session state after `step`, as the three operations move it.
pub open spec fn session_step(s: BulkReceiveSession, step: SessionStep) -> BulkReceiveState {
    match step {
        SessionStep::Begin => if s.state == BulkReceiveState::Idle {
            BulkReceiveState::InFlight
        } else {
            s.state
        },
        SessionStep::Finish { succeeded, elapsed_ns } => if succeeded && elapsed_ns
            <= s.deadline_ns && s.state == BulkReceiveState::InFlight {
            BulkReceiveState::Idle
        } else {
            BulkReceiveState::Poisoned
        },
        SessionStep::Shutdown => match s.state {
            BulkReceiveState::Idle => BulkReceiveState::ShuttingDown,
            BulkReceiveState::InFlight => BulkReceiveState::Poisoned,
            other => other,
        },
    }
}

/// The session after the steps, in order.
pub open spec fn session_run(s: BulkReceiveSession, steps: Seq<SessionStep>) -> BulkReceiveState
    decreases steps.len(),
{
    if steps.len() == 0 {
        s.state
    } else {
        session_step(
            BulkReceiveSession { state: session_run(s, steps.drop_last()), ..s },
            steps.last(),
        )
    }
}

/// A poisoned or shut-down session never receives again: no sequence of
/// steps brings it back to idle or in flight.
pub proof fn lemma_session_never_recovers(s: BulkReceiveSession, steps: Seq<SessionStep>)
    requires
        s.state == BulkReceiveState::Poisoned || s.state == BulkReceiveState::ShuttingDown,
    ensures
        session_run(s, steps) == BulkReceiveState::Poisoned || session_run(s, steps)
            == BulkReceiveState::ShuttingDown,
    decreases steps.len(),
{
    if steps.len() > 0 {
        lemma_session_never_recovers(s, steps.drop_last());
    }
}

/// Whether the service restarts after the gadget was detached cleanly: only
/// when a restart was asked for and no shutdown.
pub fn should_restart_after_clean_detach(restart_requested: bool, shutdown_requested: bool) -> (r:
    bool)
    ensures
        r == (restart_requested && !shutdown_requested),
{
    restart_requested && !shutdown_requested
}

/// Records whether a host has talked to the device: the flag is raised by
/// the first event that shows host activity and never lowered.
pub fn record_host_activity(had_host_session: &mut bool, event: &crate::events::Event)
    ensures
        *final(had_host_session) == (*old(had_host_session) || event.is_host_activity_spec()),
{
    if event.is_host_activity() && !*had_host_session {
        *had_host_session = true;
    }
}

/// What an unbind request does.
#[derive(Clone, Copy, Debug, PartialEq, Eq, Structural)]
pub enum GadgetUnbindOutcome {
    Armed,
    DeferredUntilPublish,
    Unbound,
    AlreadyUnbound,
}

/// What to do about unbinding now.
#[derive(Clone, Copy, Debug, PartialEq, Eq, Structural)]
pub enum UnbindPlan {
    /// Nothing to unbind yet, or nothing asked: report this outcome.
    Report(GadgetUnbindOutcome),
    /// Unbind the published gadget, then report the result.
    Unbind,
}

/// Whether shutdown was asked for, whether the gadget is unbound, and
/// whether a gadget is published.
#[derive(Clone, Copy, Debug, PartialEq, Eq, Structural)]
pub struct GadgetShutdown {
    pub requested: bool,
    pub unbound: bool,
    pub published: bool,
}

impl GadgetShutdown {
    /// Nothing asked, nothing published.
    pub fn new() -> (r: GadgetShutdown)
        ensures
            r == (GadgetShutdown { requested: false, unbound: false, published: false }),
    {
        GadgetShutdown { requested: false, unbound: false, published: false }
    }

    /// Whether to unbind now, given whether the published gadget still exists.
    pub fn unbind_plan(&self, target_alive: bool) -> (r: UnbindPlan)
        ensures
            r == (if self.unbound {
                UnbindPlan::Report(GadgetUnbindOutcome::AlreadyUnbound)
            } else if !(self.published && target_alive) {
                UnbindPlan::Report(GadgetUnbindOutcome::DeferredUntilPublish)
            } else {
                UnbindPlan::Unbind
            }),
    {
        if self.unbound {
            UnbindPlan::Report(GadgetUnbindOutcome::AlreadyUnbound)
        } else if !(self.published && target_alive) {
            UnbindPlan::Report(GadgetUnbindOutcome::DeferredUntilPublish)
        } else {
            UnbindPlan::Unbind
        }
    }

    /// A gadget was published; if shutdown was already asked for, it is to
    /// be unbound at once.
    pub fn publish(&mut self, target_alive: bool) -> (r: UnbindPlan)
        ensures
            *final(self) == (GadgetShutdown { published: true, unbound: false, ..*old(self) }),
            !old(self).requested ==> r == UnbindPlan::Report(GadgetUnbindOutcome::Armed),
            old(self).requested ==> r == final(self).unbind_plan_spec(target_alive),
    {
        self.published = true;
        self.unbound = false;
        if self.requested {
            self.unbind_plan(target_alive)
        } else {
            UnbindPlan::Report(GadgetUnbindOutcome::Armed)
        }
    }

    /// Shutdown is asked for.
    pub fn request_unbind(&mut self, target_alive: bool) -> (r: UnbindPlan)
        ensures
            *final(self) == (GadgetShutdown { requested: true, ..*old(self) }),
            r == final(self).unbind_plan_spec(target_alive),
    {
        self.requested = true;
        self.unbind_plan(target_alive)
    }

    /// The published gadget is gone.
    pub fn clear(&mut self)
        ensures
            *final(self) == (GadgetShutdown { published: false, ..*old(self) }),
    {
        self.published = false;
    }

    /// The unbind succeeded.
    pub fn unbind_succeeded(&mut self) -> (r: GadgetUnbindOutcome)
        ensures
            *final(self) == (GadgetShutdown { unbound: true, ..*old(self) }),
            r == GadgetUnbindOutcome::Unbound,
    {
        self.unbound = true;
        GadgetUnbindOutcome::Unbound
    }

    /// What `unbind_plan` answers.
    pub open spec fn unbind_plan_spec(self, target_alive: bool) -> UnbindPlan {
        if self.unbound {
            UnbindPlan::Report(GadgetUnbindOutcome::AlreadyUnbound)
        } else if !(self.published && target_alive) {
            UnbindPlan::Report(GadgetUnbindOutcome::DeferredUntilPublish)
        } else {
            UnbindPlan::Unbind
        }
    }
}

/// Once unbound, the published gadget is never unbound again: every further
/// request reports it as already unbound until a new gadget is published;
/// an unbind that failed leaves the request retryable.
pub proof fn lemma_unbind_happens_once(g: GadgetShutdown, target_alive: bool)
    ensures
        (GadgetShutdown { unbound: true, ..g }).unbind_plan_spec(target_alive) == UnbindPlan::Report(
            GadgetUnbindOutcome::AlreadyUnbound,
        ),
        !g.unbound && g.published && target_alive ==> (GadgetShutdown { requested: true, ..g })
            .unbind_plan_spec(target_alive) == UnbindPlan::Unbind,
{
}

} // verus!
