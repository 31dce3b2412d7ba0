//! Routing a checked display state to a scanout: an exact physical mode is
//! prepared as a candidate allocation beside the active one, a synthetic
//! mode is scaled onto the baseline, and a physical mode whose preparation
//! failed is remembered so it is not tried again from the same scanout.
use vstd::prelude::*;
use crate::modes::{entry_with_key, mode_key, CatalogEntry, CatalogRoute, ModeKey, RouteCatalog};
use crate::protocol::DisplayStateSnapshot;
use crate::scanout::{
    lemma_clean_release_restores, release_failure_keys, begins_with_call, extends_calls, BackendCall, bump, checked_add_live_bytes, failure_keys, owns_fresh, pool_release_keys, release_backend_record, release_record, CleanupFailure, CleanupStep, CreateError, PoolError, ScanoutAllocation,
    ScanoutBackend, ScanoutCounterSnapshot, ScanoutCounters, ScanoutPool, ScanoutRoles,
    SlotReleaseFailure, SCANOUT_SLOT_COUNT,
};

verus! {

/// A slot that may hold a scanout allocation.
pub type ScanoutSlot<B> = Option<Box<ScanoutAllocation<B>>>;

/// Why a state is presented scaled on the current scanout.
#[derive(Clone, Copy, Debug, PartialEq, Eq, Structural)]
pub enum FallbackReason {
    PrepareFailed,
    SwitchFailed,
    BaselineSwitchFailed,
    PlanMismatch,
    FailedCacheHit,
}

/// How a checked state is to be presented once it is committed.
#[derive(Clone, Copy, Debug, PartialEq, Eq, Structural)]
pub enum PendingPlanKind {
    ExactActiveNoOp,
    ExactCandidate { slot: usize },
    ScaledBaseline { switch_required: bool },
    ScaledCurrentAfterFailure(FallbackReason),
}

/// The plan made for a checked state, bound to its generation.
#[derive(Clone, Copy, Debug, PartialEq, Eq)]
pub struct PendingPlan<M> {
    pub snapshot: DisplayStateSnapshot,
    pub logical_key: ModeKey,
    pub requested_physical_key: Option<ModeKey>,
    pub requested_mode: Option<M>,
    pub kind: PendingPlanKind,
    pub failed_cache_hit: bool,
    pub mode_prepare_ms: u128,
}

/// A requested mode whose preparation failed from a given physical scanout.
#[derive(Clone, Copy, Debug, PartialEq, Eq, Structural, Hash)]
pub struct FailedRouteKey {
    pub logical: ModeKey,
    pub current_physical: ModeKey,
}

/// How the committed state is presented.
#[derive(Clone, Copy, Debug, PartialEq, Eq, Structural)]
pub enum PresentationRoute {
    DirectExact { logical: ModeKey, physical: ModeKey },
    ScaledBaseline { logical: ModeKey },
    ScaledCurrentAfterFailure { logical: ModeKey, reason: FallbackReason },
}

/// What the router remembers between checks and commits.
#[derive(Clone, Debug)]
pub struct DynamicRouteState<M> {
    pub pending_plan: Option<PendingPlan<M>>,
    pub failed_routes: Vec<FailedRouteKey>,
    pub committed_snapshot: Option<DisplayStateSnapshot>,
    pub presentation_route: Option<PresentationRoute>,
    pub current_physical_key: ModeKey,
    pub candidate_key: Option<ModeKey>,
}

/// The failed routes after `key` is recorded: each is kept once.
pub open spec fn with_failure(failed: Seq<FailedRouteKey>, key: FailedRouteKey) -> Seq<
    FailedRouteKey,
> {
    if failed.contains(key) {
        failed
    } else {
        failed.push(key)
    }
}

impl<M> DynamicRouteState<M> {
    /// Nothing planned or committed yet; the baseline is scanned out.
    pub fn new(baseline_physical_key: ModeKey) -> (r: DynamicRouteState<M>)
        ensures
            r.pending_plan is None,
            r.failed_routes@ == Seq::<FailedRouteKey>::empty(),
            r.committed_snapshot is None,
            r.presentation_route is None,
            r.current_physical_key == baseline_physical_key,
            r.candidate_key is None,
    {
        DynamicRouteState {
            pending_plan: None,
            failed_routes: Vec::new(),
            committed_snapshot: None,
            presentation_route: None,
            current_physical_key: baseline_physical_key,
            candidate_key: None,
        }
    }

    /// The key a failed preparation of `logical` from the current scanout is
    /// remembered under.
    pub fn failed_key(&self, logical: ModeKey) -> (r: FailedRouteKey)
        ensures
            r == (FailedRouteKey { logical, current_physical: self.current_physical_key }),
    {
        FailedRouteKey { logical, current_physical: self.current_physical_key }
    }

    /// Drops the pending plan and the candidate key.
    pub fn invalidate_pending(&mut self)
        ensures
            final(self).pending_plan is None,
            final(self).candidate_key is None,
            final(self).failed_routes == old(self).failed_routes,
            final(self).committed_snapshot == old(self).committed_snapshot,
            final(self).presentation_route == old(self).presentation_route,
            final(self).current_physical_key == old(self).current_physical_key,
    {
        self.pending_plan = None;
        self.candidate_key = None;
    }

    /// Whether `key` is remembered as failed.
    pub fn has_failed(&self, key: FailedRouteKey) -> (r: bool)
        ensures
            r == self.failed_routes@.contains(key),
    {
        let mut i: usize = 0;
        while i < self.failed_routes.len()
            invariant
                0 <= i <= self.failed_routes@.len(),
                forall|j: int| 0 <= j < i ==> self.failed_routes@[j] != key,
            decreases self.failed_routes@.len() - i,
        {
            if self.failed_routes[i] == key {
                assert(self.failed_routes@[i as int] == key);
                return true;
            }
            i = i + 1;
        }
        false
    }

    /// Remembers `key` as failed.
    pub fn record_failure(&mut self, key: FailedRouteKey)
        ensures
            final(self).failed_routes@ == with_failure(old(self).failed_routes@, key),
            final(self).pending_plan == old(self).pending_plan,
            final(self).candidate_key == old(self).candidate_key,
            final(self).committed_snapshot == old(self).committed_snapshot,
            final(self).presentation_route == old(self).presentation_route,
            final(self).current_physical_key == old(self).current_physical_key,
    {
        if !self.has_failed(key) {
            self.failed_routes.push(key);
        }
    }
}

/// The route state with the candidate key dropped.
pub open spec fn without_candidate_key<M>(routes: Option<DynamicRouteState<M>>) -> Option<
    DynamicRouteState<M>,
> {
    match routes {
        Some(r) => Some(DynamicRouteState { candidate_key: None, ..r }),
        None => None,
    }
}

/// Why a scanout runtime operation was refused or failed.
#[derive(Clone, Debug)]
pub enum RuntimeError<E> {
    Create(CreateError<E>),
    Pool(PoolError<E>),
    Release(Vec<CleanupFailure<E>>),
    LiveBytesOverflow,
    LiveBytesUnderflow,
    CandidateOccupied,
    CandidateAliasesActive,
    SlotOccupied { slot: usize },
    NotCandidate { slot: usize },
    CandidateSlotEmpty,
    NoCandidate,
    InvalidSlot { slot: usize },
    NeitherCandidateNorBaseline { slot: usize },
    ReleaseActive,
    RoutesNotInitialized,
    RoutesAlreadyInitialized,
    NotInCatalog,
    CandidateUnavailable { candidate: usize, active: usize },
}

/// The failures a release through the runtime reports, by step and buffer
/// index.
pub open spec fn runtime_release_keys<T, E>(r: Result<T, RuntimeError<E>>) -> Seq<(CleanupStep, usize)> {
    match r {
        Err(RuntimeError::Pool(PoolError::Release(failures))) => failure_keys(failures@),
        Err(RuntimeError::Release(failures)) => failure_keys(failures@),
        _ => Seq::empty(),
    }
}

/// The bookkeeping kept beside the scanout slots: counters, the bytes kept
/// mapped now and at most, and the route state once routing is on.
pub struct ScanoutRuntime<B: ScanoutBackend> {
    pub counters: ScanoutCounters,
    pub current_live_bytes: usize,
    pub observed_peak_live_bytes: usize,
    pub dynamic_routes: Option<DynamicRouteState<B::Mode>>,
}

impl<B: ScanoutBackend> ScanoutRuntime<B> {
    /// The counters.
    pub fn counters(&self) -> (r: ScanoutCounters)
        ensures
            r == self.counters,
    {
        self.counters
    }

    /// The bytes kept mapped now.
    pub fn current_live_bytes(&self) -> (r: usize)
        ensures
            r == self.current_live_bytes,
    {
        self.current_live_bytes
    }

    /// The most bytes kept mapped at once so far.
    pub fn observed_peak_live_bytes(&self) -> (r: usize)
        ensures
            r == self.observed_peak_live_bytes,
    {
        self.observed_peak_live_bytes
    }

    /// The route state, once routing is on.
    pub fn dynamic_routes(&self) -> (r: Result<&DynamicRouteState<B::Mode>, RuntimeError<B::Error>>)
        ensures
            match self.dynamic_routes {
                Some(routes) => r matches Ok(got) && *got == routes,
                None => r matches Err(RuntimeError::RoutesNotInitialized),
            },
    {
        match &self.dynamic_routes {
            Some(routes) => Ok(routes),
            None => Err(RuntimeError::RoutesNotInitialized),
        }
    }

    /// Puts `allocation` into the empty inactive slot `slot_index` as the
    /// candidate, counting its bytes. When the count would overflow, the
    /// allocation is released instead.
    pub fn stage_candidate(
        &mut self,
        roles: &mut ScanoutRoles,
        backend: &mut B,
        slot_index: usize,
        slot: &mut ScanoutSlot<B>,
        allocation: ScanoutAllocation<B>,
    ) -> (r: Result<(), RuntimeError<B::Error>>)
        ensures
            final(roles).active == old(roles).active,
            final(roles).baseline == old(roles).baseline,
            final(self).dynamic_routes == old(self).dynamic_routes,
            old(roles).candidate is Some ==> (r matches Err(RuntimeError::CandidateOccupied)
                && *final(self) == *old(self) && *final(roles) == *old(roles) && *final(slot)
                == *old(slot)),
            old(roles).candidate is None && slot_index == old(roles).active ==> (r matches Err(
                RuntimeError::CandidateAliasesActive,
            ) && *final(self) == *old(self) && *final(roles) == *old(roles) && *final(slot)
                == *old(slot)),
            old(roles).candidate is None && slot_index != old(roles).active && *old(slot) is Some
                ==> (r matches Err(RuntimeError::SlotOccupied { slot: s }) && s == slot_index
                && *final(self) == *old(self) && *final(roles) == *old(roles) && *final(slot)
                == *old(slot)),
            old(roles).candidate is None && slot_index != old(roles).active && *old(slot) is None
                && old(self).current_live_bytes + allocation.live_bytes > usize::MAX ==> r is Err
                && *final(roles) == *old(roles) && *final(slot) is None
                && final(self).current_live_bytes == old(self).current_live_bytes
                && final(self).observed_peak_live_bytes == old(self).observed_peak_live_bytes,
            old(roles).candidate is None && slot_index != old(roles).active && *old(slot) is None
                && old(self).current_live_bytes + allocation.live_bytes <= usize::MAX ==> {
                &&& r is Ok
                &&& *final(slot) == Some(Box::new(allocation))
                &&& *final(roles) == (ScanoutRoles { candidate: Some(slot_index), ..*old(roles) })
                &&& final(self).current_live_bytes == old(self).current_live_bytes
                    + allocation.live_bytes
                &&& final(self).observed_peak_live_bytes == if old(self).observed_peak_live_bytes >= final(self).current_live_bytes {
                    old(self).observed_peak_live_bytes
                } else {
                    final(self).current_live_bytes
                }
                &&& final(self).counters == old(self).counters
            },
            final(self).counters.counts.no_ops == old(self).counters.counts.no_ops,
            final(self).counters.counts.fallbacks == old(self).counters.counts.fallbacks,
            extends_calls(old(backend).calls(), final(backend).calls()),
    {
        if roles.candidate.is_some() {
            return Err(RuntimeError::CandidateOccupied);
        }
        if slot_index == roles.active {
            return Err(RuntimeError::CandidateAliasesActive);
        }
        if slot.is_some() {
            return Err(RuntimeError::SlotOccupied { slot: slot_index });
        }
        let new_live_bytes = match checked_add_live_bytes(
            self.current_live_bytes,
            allocation.live_bytes(),
        ) {
            Ok(bytes) => bytes,
            Err(_) => {
                let mut allocation = allocation;
                return match allocation.release(backend, &mut self.counters) {
                    Ok(()) => Err(RuntimeError::LiveBytesOverflow),
                    Err(failures) => Err(RuntimeError::Release(failures)),
                };
            },
        };
        *slot = Some(Box::new(allocation));
        roles.candidate = Some(slot_index);
        self.current_live_bytes = new_live_bytes;
        if new_live_bytes > self.observed_peak_live_bytes {
            self.observed_peak_live_bytes = new_live_bytes;
        }
        Ok(())
    }

    /// Releases the candidate in slot `slot_index` and frees the slot. Its
    /// bytes are no longer counted and the route state forgets the candidate
    /// key; a failure of the release itself is returned after that.
    pub fn release_candidate(
        &mut self,
        roles: &mut ScanoutRoles,
        backend: &mut B,
        slot_index: usize,
        slot: &mut ScanoutSlot<B>,
    ) -> (r: Result<(), RuntimeError<B::Error>>)
        ensures
            final(roles).active == old(roles).active,
            final(roles).baseline == old(roles).baseline,
            final(self).observed_peak_live_bytes == old(self).observed_peak_live_bytes,
            final(self).counters.counts.no_ops == old(self).counters.counts.no_ops,
            final(self).counters.counts.fallbacks == old(self).counters.counts.fallbacks,
            old(roles).candidate != Some(slot_index) ==> (r matches Err(
                RuntimeError::NotCandidate { slot: s },
            ) && s == slot_index && *final(self) == *old(self) && *final(roles) == *old(roles)
                && *final(slot) == *old(slot)),
            old(roles).candidate == Some(slot_index) && slot_index == old(roles).active ==> (r
                matches Err(RuntimeError::CandidateAliasesActive) && *final(self) == *old(self)
                && *final(roles) == *old(roles) && *final(slot) == *old(slot)),
            old(roles).candidate == Some(slot_index) && slot_index != old(roles).active && *old(slot) is None ==> (r matches Err(RuntimeError::CandidateSlotEmpty) && *final(self) == *old(self) && *final(roles) == *old(roles) && *final(slot) is None),
            old(roles).candidate == Some(slot_index) && slot_index != old(roles).active ==> (*old(slot) matches Some(a) ==> {
                &&& *final(slot) is None
                &&& a.live_bytes > old(self).current_live_bytes ==> (r matches Err(
                    RuntimeError::LiveBytesUnderflow,
                ) && *final(roles) == *old(roles) && final(self).current_live_bytes == old(self).current_live_bytes && final(self).dynamic_routes == old(self).dynamic_routes)
                &&& a.live_bytes <= old(self).current_live_bytes ==> {
                    &&& (r is Ok || r matches Err(RuntimeError::Release(_)))
                    &&& final(self).current_live_bytes == old(self).current_live_bytes
                        - a.live_bytes
                    &&& *final(roles) == (ScanoutRoles { candidate: None, ..*old(roles) })
                    &&& final(self).dynamic_routes == without_candidate_key(
                        old(self).dynamic_routes,
                    )
                }
            }),
    {
        if roles.candidate != Some(slot_index) {
            return Err(RuntimeError::NotCandidate { slot: slot_index });
        }
        if slot_index == roles.active {
            return Err(RuntimeError::CandidateAliasesActive);
        }
        let allocation = match slot.take() {
            Some(a) => a,
            None => return Err(RuntimeError::CandidateSlotEmpty),
        };
        let mut allocation = *allocation;
        let released_bytes = allocation.live_bytes();
        let release_result = allocation.release(backend, &mut self.counters);
        if released_bytes > self.current_live_bytes {
            return Err(RuntimeError::LiveBytesUnderflow);
        }
        self.current_live_bytes = self.current_live_bytes - released_bytes;
        roles.candidate = None;
        match &mut self.dynamic_routes {
            Some(routes) => {
                routes.candidate_key = None;
            },
            None => {},
        }
        match release_result {
            Ok(()) => Ok(()),
            Err(failures) => Err(RuntimeError::Release(failures)),
        }
    }

    /// Makes the candidate active. Returns the previously active slot and
    /// the new one.
    pub fn promote_candidate(&mut self, roles: &mut ScanoutRoles) -> (r: Result<
        (usize, usize),
        RuntimeError<B::Error>,
    >)
        ensures
            *final(self) == *old(self),
            old(roles).candidate is None ==> (r matches Err(RuntimeError::NoCandidate) && *final(roles) == *old(roles)),
            old(roles).candidate matches Some(c) ==> r == Ok::<(usize, usize), RuntimeError<B::Error>>(
                (old(roles).active, c),
            ) && *final(roles) == (ScanoutRoles { active: c, candidate: None, ..*old(roles) }),
    {
        let candidate = match roles.candidate {
            Some(c) => c,
            None => return Err(RuntimeError::NoCandidate),
        };
        let old_active = roles.active;
        roles.candidate = None;
        roles.active = candidate;
        Ok((old_active, candidate))
    }

    /// Makes `target` active: the candidate, which leaves that role, or the
    /// baseline. Returns the previously active slot.
    pub fn activate_slot(&mut self, roles: &mut ScanoutRoles, target: usize) -> (r: Result<
        usize,
        RuntimeError<B::Error>,
    >)
        ensures
            *final(self) == *old(self),
            target >= SCANOUT_SLOT_COUNT ==> (r matches Err(RuntimeError::InvalidSlot { slot: s })
                && s == target && *final(roles) == *old(roles)),
            target < SCANOUT_SLOT_COUNT && old(roles).candidate == Some(target) ==> r == Ok::<
                usize,
                RuntimeError<B::Error>,
            >(old(roles).active) && *final(roles) == (ScanoutRoles {
                active: target,
                candidate: None,
                ..*old(roles)
            }),
            target < SCANOUT_SLOT_COUNT && old(roles).candidate != Some(target) && target
                == old(roles).baseline ==> r == Ok::<usize, RuntimeError<B::Error>>(
                old(roles).active,
            ) && *final(roles) == (ScanoutRoles { active: target, ..*old(roles) }),
            target < SCANOUT_SLOT_COUNT && old(roles).candidate != Some(target) && target
                != old(roles).baseline ==> (r matches Err(
                RuntimeError::NeitherCandidateNorBaseline { slot: s },
            ) && s == target && *final(roles) == *old(roles)),
    {
        if target >= SCANOUT_SLOT_COUNT {
            return Err(RuntimeError::InvalidSlot { slot: target });
        }
        let old_active = roles.active;
        if roles.candidate == Some(target) {
            roles.candidate = None;
        } else if target != roles.baseline {
            return Err(RuntimeError::NeitherCandidateNorBaseline { slot: target });
        }
        roles.active = target;
        Ok(old_active)
    }

    /// Releases the allocation in an inactive slot that is not the baseline,
    /// and stops counting its bytes; the baseline and an empty slot are left
    /// as they are.
    pub fn release_inactive(
        &mut self,
        roles: &ScanoutRoles,
        backend: &mut B,
        slot_index: usize,
        slot: &mut ScanoutSlot<B>,
    ) -> (r: Result<(), RuntimeError<B::Error>>)
        ensures
            final(self).dynamic_routes == old(self).dynamic_routes,
            final(self).observed_peak_live_bytes == old(self).observed_peak_live_bytes,
            slot_index == roles.active ==> (r matches Err(RuntimeError::ReleaseActive) && *final(self) == *old(self) && *final(slot) == *old(slot)),
            slot_index != roles.active && (slot_index == roles.baseline || *old(slot) is None)
                ==> r is Ok && *final(self) == *old(self) && *final(slot) == *old(slot),
            slot_index != roles.active && slot_index != roles.baseline ==> (*old(slot) matches Some(
                a,
            ) ==> *final(slot) is None && (a.live_bytes > old(self).current_live_bytes ==> (r
                matches Err(RuntimeError::LiveBytesUnderflow) && final(self).current_live_bytes
                == old(self).current_live_bytes)) && (a.live_bytes <= old(self).current_live_bytes
                ==> (r is Ok || r matches Err(RuntimeError::Release(_)))
                && final(self).current_live_bytes == old(self).current_live_bytes - a.live_bytes)),
    {
        if slot_index == roles.active {
            return Err(RuntimeError::ReleaseActive);
        }
        if slot_index == roles.baseline {
            return Ok(());
        }
        let allocation = match slot.take() {
            Some(a) => a,
            None => return Ok(()),
        };
        let mut allocation = *allocation;
        let released_bytes = allocation.live_bytes();
        let release_result = allocation.release(backend, &mut self.counters);
        if released_bytes > self.current_live_bytes {
            return Err(RuntimeError::LiveBytesUnderflow);
        }
        self.current_live_bytes = self.current_live_bytes - released_bytes;
        match release_result {
            Ok(()) => Ok(()),
            Err(failures) => Err(RuntimeError::Release(failures)),
        }
    }
}

/// What a checked state asks of the scanouts, decided before anything is
/// done.
#[derive(Clone, Copy, Debug, PartialEq, Eq, Structural)]
pub enum DynamicDecision {
    /// The state's physical mode is already scanned out.
    ActiveNoOp,
    /// The state's physical mode is already the prepared candidate.
    ReuseCandidate,
    /// Preparing the state's physical mode failed before from this scanout.
    CachedFailure,
    /// The state's physical mode is to be prepared as a new candidate.
    PrepareCandidate,
    /// The state's mode is synthetic and is scaled.
    Scaled,
}

/// The decision for the catalog entry of a checked state.
pub open spec fn dynamic_decision<M>(
    entry: CatalogEntry<M>,
    routes: DynamicRouteState<M>,
    roles: ScanoutRoles,
    logical: ModeKey,
) -> DynamicDecision {
    match entry.route {
        CatalogRoute::Exact(_) => if entry.key == routes.current_physical_key {
            DynamicDecision::ActiveNoOp
        } else if routes.candidate_key == Some(entry.key) && roles.candidate is Some {
            DynamicDecision::ReuseCandidate
        } else if routes.failed_routes@.contains(
            FailedRouteKey { logical, current_physical: routes.current_physical_key },
        ) {
            DynamicDecision::CachedFailure
        } else {
            DynamicDecision::PrepareCandidate
        },
        CatalogRoute::ScaledFallback => DynamicDecision::Scaled,
    }
}

/// The plan kind a decision leads to; `prepared` is the slot a new
/// candidate was staged in, if preparing one succeeded.
pub open spec fn planned_kind(
    decision: DynamicDecision,
    roles: ScanoutRoles,
    prepared: Option<usize>,
) -> PendingPlanKind {
    match decision {
        DynamicDecision::ActiveNoOp => PendingPlanKind::ExactActiveNoOp,
        DynamicDecision::ReuseCandidate => PendingPlanKind::ExactCandidate {
            slot: roles.candidate.unwrap(),
        },
        DynamicDecision::CachedFailure => PendingPlanKind::ScaledCurrentAfterFailure(
            FallbackReason::FailedCacheHit,
        ),
        DynamicDecision::PrepareCandidate => match prepared {
            Some(slot) => PendingPlanKind::ExactCandidate { slot },
            None => PendingPlanKind::ScaledCurrentAfterFailure(FallbackReason::PrepareFailed),
        },
        DynamicDecision::Scaled => PendingPlanKind::ScaledBaseline {
            switch_required: roles.active != roles.baseline,
        },
    }
}

/// The physical mode a route scans out, if any.
pub open spec fn route_mode<M>(route: CatalogRoute<M>) -> Option<M> {
    match route {
        CatalogRoute::Exact(mode) => Some(mode),
        CatalogRoute::ScaledFallback => None,
    }
}

/// Whether a decision ends in presenting the state scaled on the current
/// scanout (counted as a fallback).
pub open spec fn falls_back(decision: DynamicDecision, prepared: Option<usize>) -> bool {
    decision == DynamicDecision::CachedFailure || decision == DynamicDecision::Scaled || (
    decision == DynamicDecision::PrepareCandidate && prepared is None)
}

/// The route state after a check was planned (`ok`) or refused part way
/// (not `ok`): the current scanout and the committed state are kept; a
/// planned check leaves its plan, the candidate key and the failed routes
/// as its decision says, and a refused one leaves them as they were.
pub open spec fn route_state_planned<M>(
    entry: CatalogEntry<M>,
    routes: DynamicRouteState<M>,
    roles: ScanoutRoles,
    prepared: Option<usize>,
    snapshot: DisplayStateSnapshot,
    now: DynamicRouteState<M>,
    ok: bool,
) -> bool {
    let logical = mode_key(snapshot.connector, snapshot.mode);
    let decision = dynamic_decision(entry, routes, roles, logical);
    &&& now.current_physical_key == routes.current_physical_key
    &&& now.committed_snapshot == routes.committed_snapshot
    &&& now.presentation_route == routes.presentation_route
    &&& !ok ==> now.pending_plan == routes.pending_plan && now.failed_routes == routes.failed_routes
    &&& ok ==> {
        &&& now.pending_plan matches Some(plan) && {
            &&& plan.snapshot == snapshot
            &&& plan.logical_key == logical
            &&& plan.requested_physical_key == if decision == DynamicDecision::Scaled {
                None
            } else {
                Some(entry.key)
            }
            &&& plan.requested_mode == route_mode(entry.route)
            &&& plan.kind == planned_kind(decision, roles, prepared)
            &&& plan.failed_cache_hit == (decision == DynamicDecision::CachedFailure)
        }
        &&& now.candidate_key == match decision {
            DynamicDecision::ReuseCandidate => routes.candidate_key,
            DynamicDecision::PrepareCandidate => if prepared is Some {
                Some(entry.key)
            } else {
                None
            },
            _ => None,
        }
        &&& now.failed_routes@ == if decision == DynamicDecision::PrepareCandidate && prepared is None {
            with_failure(
                routes.failed_routes@,
                FailedRouteKey { logical, current_physical: routes.current_physical_key },
            )
        } else {
            routes.failed_routes@
        }
    }
}

/// A decision counts a no-op when the mode is already scanned out and a
/// fallback when the state ends up scaled on the current scanout.
pub open spec fn decision_counted(
    decision: DynamicDecision,
    prepared: Option<usize>,
    before: ScanoutCounterSnapshot,
    after: ScanoutCounterSnapshot,
) -> bool {
    &&& after.no_ops == if decision == DynamicDecision::ActiveNoOp {
        bump(before.no_ops)
    } else {
        before.no_ops
    }
    &&& after.fallbacks == if falls_back(decision, prepared) {
        bump(before.fallbacks)
    } else {
        before.fallbacks
    }
}

/// A check that prepared a candidate leaves it to be reused: checking the
/// same state again, from the same scanout, reuses the candidate and makes
/// no new allocation.
pub proof fn lemma_prepared_candidate_is_reused<M>(
    entry: CatalogEntry<M>,
    routes: DynamicRouteState<M>,
    roles: ScanoutRoles,
    slot: usize,
    snapshot: DisplayStateSnapshot,
    now: DynamicRouteState<M>,
    roles_after: ScanoutRoles,
)
    requires
        dynamic_decision(entry, routes, roles, mode_key(snapshot.connector, snapshot.mode))
            == DynamicDecision::PrepareCandidate,
        route_state_planned(entry, routes, roles, Some(slot), snapshot, now, true),
        roles_after.candidate == Some(slot),
    ensures
        dynamic_decision(entry, now, roles_after, mode_key(snapshot.connector, snapshot.mode))
            == DynamicDecision::ReuseCandidate,
{
}

/// A check whose preparation failed is remembered: checking the same state
/// again, from the same scanout, is scaled at once without a new allocation.
pub proof fn lemma_failed_preparation_is_not_retried<M>(
    entry: CatalogEntry<M>,
    routes: DynamicRouteState<M>,
    roles: ScanoutRoles,
    snapshot: DisplayStateSnapshot,
    now: DynamicRouteState<M>,
    roles_after: ScanoutRoles,
)
    requires
        dynamic_decision(entry, routes, roles, mode_key(snapshot.connector, snapshot.mode))
            == DynamicDecision::PrepareCandidate,
        route_state_planned(entry, routes, roles, None, snapshot, now, true),
    ensures
        dynamic_decision(entry, now, roles_after, mode_key(snapshot.connector, snapshot.mode))
            == DynamicDecision::CachedFailure,
{
    let logical = mode_key(snapshot.connector, snapshot.mode);
    let key = FailedRouteKey { logical, current_physical: routes.current_physical_key };
    if !routes.failed_routes@.contains(key) {
        assert(routes.failed_routes@.push(key)[routes.failed_routes@.len() as int] == key);
    }
    assert(now.failed_routes@.contains(key));
}

/// Releases the candidate, which must be in one of the available slots.
fn release_dynamic_candidate<B: ScanoutBackend>(
    backend: &mut B,
    runtime: &mut ScanoutRuntime<B>,
    roles: &mut ScanoutRoles,
    primary_index: usize,
    primary: &mut ScanoutSlot<B>,
    secondary_index: Option<usize>,
    secondary: &mut ScanoutSlot<B>,
) -> (r: Result<(), RuntimeError<B::Error>>)
    ensures
        final(roles).active == old(roles).active,
        final(roles).baseline == old(roles).baseline,
        final(runtime).counters.counts.no_ops == old(runtime).counters.counts.no_ops,
        final(runtime).counters.counts.fallbacks == old(runtime).counters.counts.fallbacks,
        old(roles).candidate is None ==> r is Ok && *final(runtime) == *old(runtime) && *final(roles) == *old(roles) && *final(primary) == *old(primary) && *final(secondary) == *old(secondary),
        old(roles).candidate is None ==> *final(backend) == *old(backend),
        r is Ok ==> final(roles).candidate is None,
        r is Ok ==> final(runtime).dynamic_routes == if old(roles).candidate is None {
            old(runtime).dynamic_routes
        } else {
            without_candidate_key(old(runtime).dynamic_routes)
        },
        r is Err ==> final(runtime).dynamic_routes == old(runtime).dynamic_routes
            || final(runtime).dynamic_routes == without_candidate_key(old(runtime).dynamic_routes),
        old(roles).candidate matches Some(c) && c != primary_index && secondary_index != Some(c)
            ==> (r matches Err(RuntimeError::CandidateUnavailable { candidate, active })
            && Some(candidate) == old(roles).candidate && active == old(roles).active && *final(runtime) == *old(runtime)
            && *final(roles) == *old(roles) && *final(primary) == *old(primary)
            && *final(secondary) == *old(secondary)),
{
    let candidate = match roles.candidate {
        None => return Ok(()),
        Some(c) => c,
    };
    if candidate == primary_index {
        return runtime.release_candidate(roles, backend, primary_index, primary);
    }
    match secondary_index {
        Some(i) => if candidate == i {
            return runtime.release_candidate(roles, backend, i, secondary);
        },
        None => {},
    }
    Err(RuntimeError::CandidateUnavailable { candidate, active: roles.active })
}

/// Creates an allocation of `mode`, flushes it, and stages it as the
/// candidate in the first empty available slot. Returns the slot, or
/// nothing when any step failed.
fn prepare_candidate<B: ScanoutBackend>(
    backend: &mut B,
    runtime: &mut ScanoutRuntime<B>,
    roles: &mut ScanoutRoles,
    primary_index: usize,
    primary: &mut ScanoutSlot<B>,
    secondary_index: Option<usize>,
    secondary: &mut ScanoutSlot<B>,
    mode: B::Mode,
) -> (r: Option<usize>)
    requires
        old(roles).candidate is None,
    ensures
        final(roles).active == old(roles).active,
        final(roles).baseline == old(roles).baseline,
        final(runtime).dynamic_routes == old(runtime).dynamic_routes,
        final(runtime).counters.counts.no_ops == old(runtime).counters.counts.no_ops,
        final(runtime).counters.counts.fallbacks == old(runtime).counters.counts.fallbacks,
        final(roles).candidate == r,
        r matches Some(s) ==> (s == primary_index && *final(primary) is Some) || (secondary_index
            == Some(s) && *final(secondary) is Some),
        old(backend).size_of_mode(mode).0 > 0 && old(backend).size_of_mode(mode).1 > 0 ==> begins_with_call(
            old(backend).calls(),
            final(backend).calls(),
            BackendCall::CreateBuffer {
                width: old(backend).size_of_mode(mode).0,
                height: old(backend).size_of_mode(mode).1,
            },
        ),
        r matches Some(s) ==> (s == primary_index && *old(primary) is None && (*final(primary) matches Some(a) && a.mode == mode))
            || (secondary_index == Some(s) && *old(primary) is Some && *old(secondary) is None
            && (*final(secondary) matches Some(a) && a.mode == mode)),
        *old(primary) is Some && (secondary_index is None || *old(secondary) is Some) ==> r is None
            && *final(primary) == *old(primary) && *final(secondary) == *old(secondary),
{
    let allocation = match ScanoutAllocation::create(backend, mode, &mut runtime.counters) {
        Ok(a) => a,
        Err(_) => return None,
    };
    let _ = allocation.flush_black_initialization(backend);
    if primary.is_none() {
        return match runtime.stage_candidate(roles, backend, primary_index, primary, allocation) {
            Ok(()) => Some(primary_index),
            Err(_) => None,
        };
    }
    match secondary_index {
        Some(i) => if secondary.is_none() {
            match runtime.stage_candidate(roles, backend, i, secondary, allocation) {
                Ok(()) => Some(i),
                Err(_) => None,
            }
        } else {
            None
        },
        None => None,
    }
}

/// Plans how a checked state will be presented, in the slots that are not
/// scanned out (`primary`, and `secondary` when there is one): a physical
/// mode already scanned out needs nothing; one already prepared is reused;
/// one whose preparation failed before from this scanout is scaled at
/// once; another is prepared as a new candidate, and remembered as failed
/// when that does not work; a synthetic mode is scaled onto the baseline.
/// Except when the candidate is reused, a previous candidate is released
/// first. The plan is kept with the state's generation for its commit.
pub fn prepare_dynamic_check_in_available_slots<B: ScanoutBackend>(
    backend: &mut B,
    runtime: &mut ScanoutRuntime<B>,
    roles: &mut ScanoutRoles,
    primary_index: usize,
    primary: &mut ScanoutSlot<B>,
    secondary: Option<(usize, &mut ScanoutSlot<B>)>,
    catalog: &RouteCatalog<B::Mode>,
    snapshot: DisplayStateSnapshot,
) -> (r: Result<(), RuntimeError<B::Error>>)
    requires
        catalog.wf(),
    ensures
        final(roles).active == old(roles).active,
        final(roles).baseline == old(roles).baseline,
        ({
            let logical = mode_key(snapshot.connector, snapshot.mode);
            match (entry_with_key(catalog.entries@, logical), old(runtime).dynamic_routes) {
                (None, _) => r matches Err(RuntimeError::NotInCatalog) && *final(runtime) == *old(runtime) && *final(roles) == *old(roles) && *final(primary) == *old(primary),
                (Some(_), None) => r matches Err(RuntimeError::RoutesNotInitialized) && *final(runtime) == *old(runtime) && *final(roles) == *old(roles) && *final(primary) == *old(primary),
                (Some(entry), Some(routes)) => {
                    let decision = dynamic_decision(entry, routes, *old(roles), logical);
                    let prepared = if decision == DynamicDecision::PrepareCandidate {
                        final(roles).candidate
                    } else {
                        None
                    };
                    &&& final(runtime).dynamic_routes matches Some(now) && route_state_planned(
                        entry,
                        routes,
                        *old(roles),
                        prepared,
                        snapshot,
                        now,
                        r is Ok,
                    )
                    &&& decision == DynamicDecision::ReuseCandidate ==> {
                        &&& r is Ok
                        &&& *final(backend) == *old(backend)
                        &&& final(runtime).counters == old(runtime).counters
                    }
                    &&& (old(roles).candidate is None && decision != DynamicDecision::PrepareCandidate)
                        ==> {
                        &&& r is Ok
                        &&& *final(backend) == *old(backend)
                        &&& final(runtime).counters.counts.allocations == old(runtime).counters.counts.allocations
                        &&& *final(primary) == *old(primary)
                    }
                    &&& (decision == DynamicDecision::PrepareCandidate && old(roles).candidate is None && ({
                        let size = old(backend).size_of_mode(route_mode(entry.route).unwrap());
                        size.0 > 0 && size.1 > 0
                    })) ==> begins_with_call(
                        old(backend).calls(),
                        final(backend).calls(),
                        BackendCall::CreateBuffer {
                            width: old(backend).size_of_mode(route_mode(entry.route).unwrap()).0,
                            height: old(backend).size_of_mode(route_mode(entry.route).unwrap()).1,
                        },
                    )
                    &&& (r is Ok && decision == DynamicDecision::PrepareCandidate && prepared is Some) ==> (
                        (*final(primary) matches Some(a) && prepared == Some(primary_index) && Some(a.mode) == route_mode(entry.route))
                        || (secondary matches Some((i, slot)) && prepared == Some(i) && (*final(slot) matches Some(a) && Some(a.mode) == route_mode(entry.route))))
                    &&& r is Ok ==> {
                        &&& decision == DynamicDecision::ReuseCandidate ==> *final(roles) == *old(roles) && *final(primary) == *old(primary)
                        &&& decision != DynamicDecision::ReuseCandidate && decision
                            != DynamicDecision::PrepareCandidate ==> final(roles).candidate is None
                        &&& prepared matches Some(s) ==> (s == primary_index && *final(primary) is Some)
                            || (secondary matches Some((i, slot)) && s == i && *final(slot) is Some)
                        &&& decision_counted(
                            decision,
                            prepared,
                            old(runtime).counters.counts,
                            final(runtime).counters.counts,
                        )
                    }
                },
            }
        }),
{
    let start = crate::clock::monotonic_now();
    let logical_key = ModeKey::from_snapshot(&snapshot);
    let entry: CatalogEntry<B::Mode> = match catalog.entry_for_snapshot(&snapshot) {
        Some(e) => *e,
        None => return Err(RuntimeError::NotInCatalog),
    };
    let (current_physical_key, candidate_key, failed_key, failed_cache_hit) =
        match &runtime.dynamic_routes {
        Some(routes) => {
            let failed_key = routes.failed_key(logical_key);
            (routes.current_physical_key, routes.candidate_key, failed_key, routes.has_failed(failed_key))
        },
        None => return Err(RuntimeError::RoutesNotInitialized),
    };
    let ghost routes0 = runtime.dynamic_routes.unwrap();
    let ghost roles0 = *roles;
    let mut spare: ScanoutSlot<B> = None;
    let (secondary_index, secondary_slot): (Option<usize>, &mut ScanoutSlot<B>) = match secondary {
        Some((i, s)) => (Some(i), s),
        None => (None, &mut spare),
    };
    let mut new_candidate_key: Option<ModeKey> = None;
    let mut cache_hit = false;
    let mut requested_physical_key: Option<ModeKey> = Some(entry.key);
    let requested_mode: Option<B::Mode>;
    let kind: PendingPlanKind;
    match entry.route {
        CatalogRoute::Exact(physical_mode) => {
            requested_mode = Some(physical_mode);
            if entry.key == current_physical_key {
                release_dynamic_candidate(
                    backend,
                    runtime,
                    roles,
                    primary_index,
                    primary,
                    secondary_index,
                    secondary_slot,
                )?;
                runtime.counters.no_op();
                kind = PendingPlanKind::ExactActiveNoOp;
            } else if candidate_key == Some(entry.key) && roles.candidate.is_some() {
                new_candidate_key = candidate_key;
                let slot = match roles.candidate {
                    Some(c) => c,
                    None => 0,
                };
                kind = PendingPlanKind::ExactCandidate { slot };
            } else if failed_cache_hit {
                release_dynamic_candidate(
                    backend,
                    runtime,
                    roles,
                    primary_index,
                    primary,
                    secondary_index,
                    secondary_slot,
                )?;
                runtime.counters.fallback();
                cache_hit = true;
                kind = PendingPlanKind::ScaledCurrentAfterFailure(FallbackReason::FailedCacheHit);
            } else {
                release_dynamic_candidate(
                    backend,
                    runtime,
                    roles,
                    primary_index,
                    primary,
                    secondary_index,
                    secondary_slot,
                )?;
                match prepare_candidate(
                    backend,
                    runtime,
                    roles,
                    primary_index,
                    primary,
                    secondary_index,
                    secondary_slot,
                    physical_mode,
                ) {
                    Some(slot) => {
                        new_candidate_key = Some(entry.key);
                        kind = PendingPlanKind::ExactCandidate { slot };
                    },
                    None => {
                        match &mut runtime.dynamic_routes {
                            Some(routes) => routes.record_failure(failed_key),
                            None => {},
                        }
                        runtime.counters.fallback();
                        kind = PendingPlanKind::ScaledCurrentAfterFailure(
                            FallbackReason::PrepareFailed,
                        );
                    },
                }
            }
        },
        CatalogRoute::ScaledFallback => {
            requested_mode = None;
            requested_physical_key = None;
            release_dynamic_candidate(
                backend,
                runtime,
                roles,
                primary_index,
                primary,
                secondary_index,
                secondary_slot,
            )?;
            runtime.counters.fallback();
            kind = PendingPlanKind::ScaledBaseline { switch_required: roles.active != roles.baseline };
        },
    }
    let mode_prepare_ms = crate::clock::millis_since(&start);
    match &mut runtime.dynamic_routes {
        Some(routes) => {
            routes.candidate_key = new_candidate_key;
            routes.pending_plan = Some(
                PendingPlan {
                    snapshot,
                    logical_key,
                    requested_physical_key,
                    requested_mode,
                    kind,
                    failed_cache_hit: cache_hit,
                    mode_prepare_ms,
                },
            );
        },
        None => {},
    }
    Ok(())
}

/// Plans a checked state while slot 0 is scanned out, so slots 1 and 2 are
/// available.
pub fn prepare_dynamic_check<B: ScanoutBackend>(
    backend: &mut B,
    runtime: &mut ScanoutRuntime<B>,
    roles: &mut ScanoutRoles,
    slot1: &mut ScanoutSlot<B>,
    slot2: &mut ScanoutSlot<B>,
    catalog: &RouteCatalog<B::Mode>,
    snapshot: DisplayStateSnapshot,
) -> (r: Result<(), RuntimeError<B::Error>>)
    requires
        catalog.wf(),
    ensures
        final(roles).active == old(roles).active,
        final(roles).baseline == old(roles).baseline,
        entry_with_key(catalog.entries@, mode_key(snapshot.connector, snapshot.mode)) is None ==> (
        r matches Err(RuntimeError::NotInCatalog) && *final(runtime) == *old(runtime) && *final(roles) == *old(roles) && *final(slot1) == *old(slot1)),
        ({
            let logical = mode_key(snapshot.connector, snapshot.mode);
            match (entry_with_key(catalog.entries@, logical), old(runtime).dynamic_routes) {
                (Some(entry), Some(routes)) => {
                    let decision = dynamic_decision(entry, routes, *old(roles), logical);
                    let prepared = if decision == DynamicDecision::PrepareCandidate {
                        final(roles).candidate
                    } else {
                        None
                    };
                    &&& final(runtime).dynamic_routes matches Some(now) && route_state_planned(
                        entry,
                        routes,
                        *old(roles),
                        prepared,
                        snapshot,
                        now,
                        r is Ok,
                    )
                    &&& decision == DynamicDecision::ReuseCandidate ==> {
                        &&& r is Ok
                        &&& *final(backend) == *old(backend)
                        &&& final(runtime).counters == old(runtime).counters
                    }
                    &&& (old(roles).candidate is None && decision != DynamicDecision::PrepareCandidate)
                        ==> {
                        &&& r is Ok
                        &&& *final(backend) == *old(backend)
                        &&& final(runtime).counters.counts.allocations == old(runtime).counters.counts.allocations
                        &&& *final(slot1) == *old(slot1)
                    }
                    &&& (decision == DynamicDecision::PrepareCandidate && old(roles).candidate is None && ({
                        let size = old(backend).size_of_mode(route_mode(entry.route).unwrap());
                        size.0 > 0 && size.1 > 0
                    })) ==> begins_with_call(
                        old(backend).calls(),
                        final(backend).calls(),
                        BackendCall::CreateBuffer {
                            width: old(backend).size_of_mode(route_mode(entry.route).unwrap()).0,
                            height: old(backend).size_of_mode(route_mode(entry.route).unwrap()).1,
                        },
                    )
                    &&& (r is Ok && decision == DynamicDecision::PrepareCandidate && prepared is Some) ==> (
                        (prepared == Some(1usize) && (*final(slot1) matches Some(a) && Some(a.mode) == route_mode(entry.route)))
                        || (prepared == Some(2usize) && (*final(slot2) matches Some(a) && Some(a.mode) == route_mode(entry.route))))
                    &&& r is Ok ==> {
                        &&& decision == DynamicDecision::ReuseCandidate ==> *final(roles) == *old(roles)
                        &&& decision != DynamicDecision::ReuseCandidate && decision
                            != DynamicDecision::PrepareCandidate ==> final(roles).candidate is None
                        &&& prepared matches Some(s) ==> (s == 1 && *final(slot1) is Some) || (s
                            == 2 && *final(slot2) is Some)
                        &&& decision_counted(
                            decision,
                            prepared,
                            old(runtime).counters.counts,
                            final(runtime).counters.counts,
                        )
                    }
                },
                (Some(_), None) => r matches Err(RuntimeError::RoutesNotInitialized),
                (None, _) => true,
            }
        }),
{
    prepare_dynamic_check_in_available_slots(
        backend,
        runtime,
        roles,
        1,
        slot1,
        Some((2, slot2)),
        catalog,
        snapshot,
    )
}

/// Drops the pending plan, releasing a candidate in the available slots.
pub fn invalidate_dynamic_pending_in_available_slots<B: ScanoutBackend>(
    backend: &mut B,
    runtime: &mut ScanoutRuntime<B>,
    roles: &mut ScanoutRoles,
    primary_index: usize,
    primary: &mut ScanoutSlot<B>,
    secondary: Option<(usize, &mut ScanoutSlot<B>)>,
) -> (r: Result<(), RuntimeError<B::Error>>)
    ensures
        final(roles).active == old(roles).active,
        final(roles).baseline == old(roles).baseline,
        r is Ok ==> final(roles).candidate is None,
        old(roles).candidate is None && old(runtime).dynamic_routes is None ==> r matches Err(
            RuntimeError::RoutesNotInitialized,
        ),
        old(roles).candidate is None && old(runtime).dynamic_routes is Some ==> r is Ok,
        r is Ok ==> (old(runtime).dynamic_routes matches Some(routes) && final(runtime).dynamic_routes == Some(
            DynamicRouteState { pending_plan: None, candidate_key: None, ..routes },
        )),
        old(roles).candidate is None ==> {
            &&& *final(roles) == *old(roles)
            &&& *final(primary) == *old(primary)
            &&& final(runtime).counters == old(runtime).counters
            &&& final(runtime).current_live_bytes == old(runtime).current_live_bytes
            &&& final(runtime).observed_peak_live_bytes == old(runtime).observed_peak_live_bytes
            &&& (secondary matches Some((i, s)) ==> *final(s) == *s)
        },
        old(roles).candidate matches Some(c) && c != primary_index && !(secondary matches Some((i, s)) && i == c) ==> {
            &&& (r matches Err(RuntimeError::CandidateUnavailable { candidate, active })
                && Some(candidate) == old(roles).candidate && active == old(roles).active)
            &&& *final(runtime) == *old(runtime)
            &&& *final(roles) == *old(roles)
            &&& *final(primary) == *old(primary)
            &&& (secondary matches Some((i, s)) ==> *final(s) == *s)
        },
{
    let mut spare: ScanoutSlot<B> = None;
    let (secondary_index, secondary_slot): (Option<usize>, &mut ScanoutSlot<B>) = match secondary {
        Some((i, s)) => (Some(i), s),
        None => (None, &mut spare),
    };
    release_dynamic_candidate(
        backend,
        runtime,
        roles,
        primary_index,
        primary,
        secondary_index,
        secondary_slot,
    )?;
    match &mut runtime.dynamic_routes {
        Some(routes) => {
            routes.invalidate_pending();
            Ok(())
        },
        None => Err(RuntimeError::RoutesNotInitialized),
    }
}

/// Drops the pending plan while slot 0 is scanned out.
pub fn invalidate_dynamic_pending_off_baseline<B: ScanoutBackend>(
    backend: &mut B,
    runtime: &mut ScanoutRuntime<B>,
    roles: &mut ScanoutRoles,
    slot1: &mut ScanoutSlot<B>,
    slot2: &mut ScanoutSlot<B>,
) -> (r: Result<(), RuntimeError<B::Error>>)
    ensures
        final(roles).active == old(roles).active,
        final(roles).baseline == old(roles).baseline,
        r is Ok ==> final(roles).candidate is None,
        r is Ok ==> (old(runtime).dynamic_routes matches Some(routes) && final(runtime).dynamic_routes == Some(
            DynamicRouteState { pending_plan: None, candidate_key: None, ..routes },
        )),
        old(roles).candidate is None ==> {
            &&& (old(runtime).dynamic_routes is None ==> r matches Err(RuntimeError::RoutesNotInitialized))
            &&& old(runtime).dynamic_routes is Some ==> r is Ok
            &&& *final(roles) == *old(roles)
            &&& *final(slot1) == *old(slot1)
            &&& *final(slot2) == *old(slot2)
            &&& final(runtime).counters == old(runtime).counters
            &&& final(runtime).current_live_bytes == old(runtime).current_live_bytes
            &&& final(runtime).observed_peak_live_bytes == old(runtime).observed_peak_live_bytes
        },
        old(roles).candidate matches Some(c) && c != 1 && c != 2 ==> {
            &&& (r matches Err(RuntimeError::CandidateUnavailable { candidate, active })
                && Some(candidate) == old(roles).candidate && active == old(roles).active)
            &&& *final(runtime) == *old(runtime)
            &&& *final(roles) == *old(roles)
            &&& *final(slot1) == *old(slot1)
            &&& *final(slot2) == *old(slot2)
        },
{
    invalidate_dynamic_pending_in_available_slots(backend, runtime, roles, 1, slot1, Some((2, slot2)))
}

/// Records how a committed state is presented; a new physical key becomes
/// the current scanout's, and the candidate key is dropped.
pub fn record_committed_route<B: ScanoutBackend>(
    runtime: &mut ScanoutRuntime<B>,
    snapshot: DisplayStateSnapshot,
    route: PresentationRoute,
    new_physical_key: Option<ModeKey>,
) -> (r: Result<(), RuntimeError<B::Error>>)
    ensures
        final(runtime).counters == old(runtime).counters,
        final(runtime).current_live_bytes == old(runtime).current_live_bytes,
        final(runtime).observed_peak_live_bytes == old(runtime).observed_peak_live_bytes,
        match old(runtime).dynamic_routes {
            None => r matches Err(RuntimeError::RoutesNotInitialized) && final(runtime).dynamic_routes is None,
            Some(routes) => r is Ok && final(runtime).dynamic_routes == Some(
                DynamicRouteState {
                    committed_snapshot: Some(snapshot),
                    presentation_route: Some(route),
                    current_physical_key: match new_physical_key {
                        Some(key) => key,
                        None => routes.current_physical_key,
                    },
                    candidate_key: None,
                    ..routes
                },
            ),
        },
{
    match &mut runtime.dynamic_routes {
        Some(routes) => {
            routes.committed_snapshot = Some(snapshot);
            routes.presentation_route = Some(route);
            if let Some(key) = new_physical_key {
                routes.current_physical_key = key;
            }
            routes.candidate_key = None;
            Ok(())
        },
        None => Err(RuntimeError::RoutesNotInitialized),
    }
}

/// Takes the pending plan if it was made for the committed state. Otherwise
/// reports whether there was a plan, for another state, which is dropped.
pub fn take_matching_pending_plan<M>(
    pending: &mut Option<PendingPlan<M>>,
    committed: &DisplayStateSnapshot,
) -> (r: Result<PendingPlan<M>, bool>)
    ensures
        *final(pending) is None,
        match *old(pending) {
            None => r == Err::<PendingPlan<M>, bool>(false),
            Some(plan) => if plan.snapshot == *committed {
                r == Ok::<PendingPlan<M>, bool>(plan)
            } else {
                r == Err::<PendingPlan<M>, bool>(true)
            },
        },
{
    match pending.take() {
        Some(plan) => if plan.snapshot == *committed {
            Ok(plan)
        } else {
            Err(true)
        },
        None => Err(false),
    }
}

/// The scanout pool with its bookkeeping.
pub struct ScanoutManager<B: ScanoutBackend> {
    pub pool: ScanoutPool<B>,
    pub runtime: ScanoutRuntime<B>,
}

impl<B: ScanoutBackend> ScanoutManager<B> {
    /// The slot's allocation counts its bytes when there is one.
    pub open spec fn slot_bytes(&self, i: int) -> int {
        match self.pool.slot(i) {
            Some(a) => a.live_bytes as int,
            None => 0,
        }
    }

    /// The bytes of the candidate, or zero when there is none.
    pub open spec fn candidate_bytes(&self) -> int {
        match self.pool.roles.candidate {
            Some(c) => self.slot_bytes(c as int),
            None => 0,
        }
    }

    /// A manager whose only allocation, of `mode`, is the active baseline.
    pub fn new_baseline(backend: &mut B, mode: B::Mode) -> (r: Result<
        ScanoutManager<B>,
        CreateError<B::Error>,
    >)
        ensures
            r matches Ok(m) ==> {
                &&& m.pool.wf()
                &&& m.pool.roles == (ScanoutRoles { active: 0, baseline: 0, candidate: None })
                &&& m.pool.slot0 matches Some(a) && a.mode == mode
                &&& m.pool.slot1 is None && m.pool.slot2 is None
                &&& m.runtime.current_live_bytes == m.pool.slot0.unwrap().live_bytes
                &&& m.runtime.observed_peak_live_bytes == m.runtime.current_live_bytes
                &&& m.runtime.dynamic_routes is None
                &&& m.runtime.counters.counts.allocations == 1
                &&& m.runtime.counters.counts.switches == 0
                &&& m.runtime.counters.counts.no_ops == 0
                &&& m.runtime.counters.counts.fallbacks == 0
            },
            r matches Err(e) ==> (e.cause is ZeroDimensions ==> e.cleanup@.len() == 0),
    {
        let mut counters = ScanoutCounters::new();
        let allocation = ScanoutAllocation::create(backend, mode, &mut counters)?;
        let live_bytes = allocation.live_bytes();
        Ok(
            ScanoutManager {
                pool: ScanoutPool::with_baseline(allocation),
                runtime: ScanoutRuntime {
                    counters,
                    current_live_bytes: live_bytes,
                    observed_peak_live_bytes: live_bytes,
                    dynamic_routes: None,
                },
            },
        )
    }

    /// Turns routing on with the baseline's physical key; only once.
    pub fn initialize_dynamic_routes(&mut self, baseline_physical_key: ModeKey) -> (r: Result<
        (),
        RuntimeError<B::Error>,
    >)
        ensures
            final(self).pool == old(self).pool,
            final(self).runtime.counters == old(self).runtime.counters,
            final(self).runtime.current_live_bytes == old(self).runtime.current_live_bytes,
            final(self).runtime.observed_peak_live_bytes == old(self).runtime.observed_peak_live_bytes,
            old(self).runtime.dynamic_routes is Some ==> (r matches Err(
                RuntimeError::RoutesAlreadyInitialized,
            ) && final(self).runtime.dynamic_routes == old(self).runtime.dynamic_routes),
            old(self).runtime.dynamic_routes is None ==> r is Ok,
            old(self).runtime.dynamic_routes is None ==> (final(self).runtime.dynamic_routes matches Some(routes) && routes.pending_plan is None
                && routes.failed_routes@ == Seq::<FailedRouteKey>::empty()
                && routes.committed_snapshot is None && routes.presentation_route is None
                && routes.current_physical_key == baseline_physical_key
                && routes.candidate_key is None),
    {
        if self.runtime.dynamic_routes.is_some() {
            return Err(RuntimeError::RoutesAlreadyInitialized);
        }
        self.runtime.dynamic_routes = Some(DynamicRouteState::new(baseline_physical_key));
        Ok(())
    }

    /// The counters.
    pub fn counters(&self) -> (r: ScanoutCounters)
        ensures
            r == self.runtime.counters,
    {
        self.runtime.counters
    }

    /// The counts so far.
    pub fn counter_snapshot(&self) -> (r: ScanoutCounterSnapshot)
        ensures
            r == self.runtime.counters.counts,
    {
        self.runtime.counters.counts
    }

    /// The roles of the slots.
    pub fn roles(&self) -> (r: ScanoutRoles)
        ensures
            r == self.pool.roles,
    {
        self.pool.roles
    }

    /// The active allocation.
    pub fn active_mut(&mut self) -> (r: &mut ScanoutAllocation<B>)
        requires
            old(self).pool.wf(),
        ensures
            *r == *old(self).pool.slot(old(self).pool.roles.active as int).unwrap(),
    {
        self.pool.active_mut()
    }

    /// The bytes kept mapped now.
    pub fn current_live_bytes(&self) -> (r: usize)
        ensures
            r == self.runtime.current_live_bytes,
    {
        self.runtime.current_live_bytes
    }

    /// The most bytes kept mapped at once so far.
    pub fn observed_peak_live_bytes(&self) -> (r: usize)
        ensures
            r == self.runtime.observed_peak_live_bytes,
    {
        self.runtime.observed_peak_live_bytes
    }

    /// Creates an allocation of `mode` and makes it the candidate in place of
    /// the previous one, counting its bytes in place of the previous
    /// candidate's. When the count would overflow, the new allocation is
    /// released instead. Returns the candidate's slot.
    pub fn stage_candidate(&mut self, backend: &mut B, mode: B::Mode) -> (r: Result<
        usize,
        RuntimeError<B::Error>,
    >)
        requires
            old(self).pool.wf(),
        ensures
            final(self).pool.wf(),
            final(self).pool.roles.active == old(self).pool.roles.active,
            final(self).pool.roles.baseline == old(self).pool.roles.baseline,
            final(self).runtime.dynamic_routes == old(self).runtime.dynamic_routes,
            r matches Ok(i) ==> {
                let previous = match old(self).pool.roles.candidate {
                    Some(c) => old(self).slot_bytes(c as int),
                    None => 0,
                };
                &&& final(self).pool.roles.candidate == Some(i)
                &&& final(self).pool.slot(i as int) matches Some(a) && a.mode == mode
                &&& final(self).runtime.current_live_bytes == old(self).runtime.current_live_bytes
                    - previous + final(self).slot_bytes(i as int)
                &&& final(self).runtime.observed_peak_live_bytes == if old(self).runtime.observed_peak_live_bytes >= final(self).runtime.current_live_bytes {
                    old(self).runtime.observed_peak_live_bytes
                } else {
                    final(self).runtime.current_live_bytes
                }
            },
            r matches Ok(i) ==> forall|j: int|
                0 <= j < 3 && j != i ==> final(self).pool.slot(j) == if old(self).pool.roles.candidate
                    == Some(j as usize) {
                    None
                } else {
                    old(self).pool.slot(j)
                },
            r is Err && !(r matches Err(RuntimeError::Pool(_))) ==> {
                &&& final(self).pool == old(self).pool
                &&& final(self).runtime.current_live_bytes == old(self).runtime.current_live_bytes
                &&& final(self).runtime.observed_peak_live_bytes == old(self).runtime.observed_peak_live_bytes
            },
            r matches Err(RuntimeError::LiveBytesUnderflow) ==> old(self).candidate_bytes()
                > old(self).runtime.current_live_bytes,
            old(self).candidate_bytes() > old(self).runtime.current_live_bytes ==> (r matches Err(
                RuntimeError::Create(_),
            ) || r matches Err(RuntimeError::LiveBytesUnderflow)),
            r matches Err(RuntimeError::LiveBytesOverflow) ==> final(backend).live_buffers() == old(
                backend,
            ).live_buffers() && final(backend).live_framebuffers() == old(backend).live_framebuffers(),
            r matches Err(RuntimeError::Create(e)) ==> (e.cleanup@.len() == 0 ==> final(backend).live_buffers()
                == old(backend).live_buffers() && final(backend).live_framebuffers() == old(
                backend,
            ).live_framebuffers()),
            r matches Ok(i) ==> (final(self).pool.slot(i as int) matches Some(a) && exists|made: B|
                #[trigger] owns_fresh(*old(backend), made, *a) && (match old(self).pool.roles.candidate {
                    None => *final(backend) == made,
                    Some(c) => (old(self).pool.slot(c as int) matches Some(prev) && (prev.released
                        ==> *final(backend) == made) && (!prev.released ==> exists|ok: (bool, bool, bool, bool)|
                        #[trigger] release_backend_record(*prev, ok, made, *final(backend)))),
                })),
    {
        let allocation = match ScanoutAllocation::create(backend, mode, &mut self.runtime.counters) {
            Ok(a) => a,
            Err(e) => return Err(RuntimeError::Create(e)),
        };
        let ghost made = *backend;
        let ghost pool0 = self.pool;
        let ghost counts_made = self.runtime.counters.counts;
        let candidate_bytes = allocation.live_bytes();
        let previous_candidate_bytes = match self.pool.candidate() {
            Some(candidate) => candidate.live_bytes(),
            None => 0,
        };
        if previous_candidate_bytes > self.runtime.current_live_bytes {
            return Err(RuntimeError::LiveBytesUnderflow);
        }
        let retained_live_bytes = self.runtime.current_live_bytes - previous_candidate_bytes;
        let new_live_bytes = match checked_add_live_bytes(retained_live_bytes, candidate_bytes) {
            Ok(bytes) => bytes,
            Err(_) => {
                let mut allocation = allocation;
                let ghost held = allocation;
                let released = allocation.release(backend, &mut self.runtime.counters);
                proof {
                    if released is Ok {
                        let ok = choose|ok: (bool, bool, bool, bool)|
                            #[trigger] release_record(held, ok, release_failure_keys(released), counts_made, self.runtime.counters.counts)
                            && release_backend_record(held, ok, made, *backend);
                        lemma_clean_release_restores(held, ok, *old(backend), made, *backend, counts_made, self.runtime.counters.counts);
                    }
                }
                return match released {
                    Ok(()) => Err(RuntimeError::LiveBytesOverflow),
                    Err(failures) => Err(RuntimeError::Release(failures)),
                };
            },
        };
        let index = match self.pool.replace_candidate(
            backend,
            allocation,
            &mut self.runtime.counters,
        ) {
            Ok(i) => i,
            Err(e) => return Err(RuntimeError::Pool(e)),
        };
        self.runtime.current_live_bytes = new_live_bytes;
        if new_live_bytes > self.runtime.observed_peak_live_bytes {
            self.runtime.observed_peak_live_bytes = new_live_bytes;
        }
        proof {
            let a = self.pool.slot(index as int).unwrap();
            assert(owns_fresh(*old(backend), made, *a));
            match pool0.roles.candidate {
                None => {},
                Some(c) => {
                    let prev = pool0.slot(c as int).unwrap();
                    if !prev.released {
                        let ok = choose|ok: (bool, bool, bool, bool)|
                            #[trigger] release_record(*prev, ok, pool_release_keys(Ok::<usize, PoolError<B::Error>>(index)), counts_made, self.runtime.counters.counts)
                            && release_backend_record(*prev, ok, made, *backend);
                        assert(release_backend_record(*prev, ok, made, *backend));
                    }
                },
            }
        }
        Ok(index)
    }

    /// Releases the candidate, if there is one, and stops counting its bytes.
    pub fn release_candidate(&mut self, backend: &mut B) -> (r: Result<(), RuntimeError<B::Error>>)
        requires
            old(self).pool.wf(),
        ensures
            final(self).pool.wf(),
            final(self).pool.roles.active == old(self).pool.roles.active,
            final(self).pool.roles.baseline == old(self).pool.roles.baseline,
            final(self).runtime.dynamic_routes == old(self).runtime.dynamic_routes,
            old(self).pool.roles.candidate is None ==> r is Ok && final(self).pool == old(self).pool && final(self).runtime.current_live_bytes == old(self).runtime.current_live_bytes,
            old(self).pool.roles.candidate matches Some(c) ==> (old(self).slot_bytes(c as int)
                <= old(self).runtime.current_live_bytes ==> final(self).pool.roles.candidate is None
                && final(self).pool.slot(c as int) is None && final(self).runtime.current_live_bytes
                == old(self).runtime.current_live_bytes - old(self).slot_bytes(c as int)),
            old(self).pool.roles.candidate is None ==> *final(backend) == *old(backend)
                && final(self).runtime.counters == old(self).runtime.counters,
            old(self).pool.roles.candidate matches Some(c) ==> (old(self).slot_bytes(c as int)
                > old(self).runtime.current_live_bytes ==> (r matches Err(RuntimeError::LiveBytesUnderflow))
                && *final(backend) == *old(backend) && final(self).pool == old(self).pool
                && final(self).runtime.counters == old(self).runtime.counters),
            old(self).pool.roles.candidate matches Some(c) ==> (old(self).slot_bytes(c as int)
                <= old(self).runtime.current_live_bytes ==> (old(self).pool.slot(c as int) matches Some(a)
                && (!a.released ==> exists|ok: (bool, bool, bool, bool)|
                #[trigger] release_record(*a, ok, runtime_release_keys(r), old(self).runtime.counters.counts, final(self).runtime.counters.counts)
                && release_backend_record(*a, ok, *old(backend), *final(backend))))),
    {
        if let Some(candidate) = self.pool.candidate() {
            let bytes = candidate.live_bytes();
            if bytes > self.runtime.current_live_bytes {
                return Err(RuntimeError::LiveBytesUnderflow);
            }
            self.runtime.current_live_bytes = self.runtime.current_live_bytes - bytes;
        }
        let ghost pool0 = self.pool;
        let ghost counts0 = self.runtime.counters.counts;
        let ghost backend0 = *backend;
        let released = self.pool.release_candidate(backend, &mut self.runtime.counters);
        let r = match released {
            Ok(()) => Ok(()),
            Err(e) => Err(RuntimeError::Pool(e)),
        };
        proof {
            assert(runtime_release_keys(r) == pool_release_keys(released));
            if let Some(c) = pool0.roles.candidate {
                if let Some(a) = pool0.slot(c as int) {
                    if !a.released {
                        let ok = choose|ok: (bool, bool, bool, bool)|
                            #[trigger] release_record(*a, ok, pool_release_keys(released), counts0, self.runtime.counters.counts)
                            && release_backend_record(*a, ok, backend0, *backend);
                        assert(release_record(*a, ok, runtime_release_keys(r), counts0, self.runtime.counters.counts));
                    }
                }
            }
        }
        r
    }

    /// Makes the candidate active. Returns the previously active slot and
    /// the new one.
    pub fn promote_candidate(&mut self) -> (r: Result<(usize, usize), PoolError<B::Error>>)
        requires
            old(self).pool.wf(),
        ensures
            final(self).pool.wf(),
            final(self).runtime == old(self).runtime,
            final(self).pool.slot0 == old(self).pool.slot0,
            final(self).pool.slot1 == old(self).pool.slot1,
            final(self).pool.slot2 == old(self).pool.slot2,
            old(self).pool.roles.candidate is None ==> (r matches Err(PoolError::NoCandidate)
                && final(self).pool.roles == old(self).pool.roles),
            old(self).pool.roles.candidate matches Some(c) ==> (r matches Ok((old_active, new_active))
                && old_active == old(self).pool.roles.active && new_active == c && final(self).pool.roles == (ScanoutRoles { active: c, candidate: None, ..old(self).pool.roles })),
    {
        self.pool.promote_candidate()
    }

    /// Releases the allocation a promotion replaced, unless it is the
    /// baseline, and stops counting its bytes.
    pub fn release_replaced_active(&mut self, backend: &mut B, index: usize) -> (r: Result<
        (),
        RuntimeError<B::Error>,
    >)
        requires
            old(self).pool.wf(),
            index < SCANOUT_SLOT_COUNT,
            old(self).pool.roles.candidate != Some(index),
        ensures
            final(self).pool.wf(),
            final(self).pool.roles == old(self).pool.roles,
            final(self).runtime.dynamic_routes == old(self).runtime.dynamic_routes,
            index == old(self).pool.roles.baseline ==> r is Ok && final(self).pool == old(self).pool && final(self).runtime == old(self).runtime,
            index == old(self).pool.roles.active && index != old(self).pool.roles.baseline ==> r
                matches Err(RuntimeError::Pool(PoolError::ReleaseActive)),
            r is Ok && index != old(self).pool.roles.baseline ==> final(self).pool.slot(
                index as int,
            ) is None && final(self).runtime.current_live_bytes == old(self).runtime.current_live_bytes - old(self).slot_bytes(index as int),
    {
        if index == self.pool.roles.baseline {
            return Ok(());
        }
        let released_bytes = self.pool.slot_live_bytes(index);
        match self.pool.release_inactive(backend, index, &mut self.runtime.counters) {
            Ok(()) => {},
            Err(e) => return Err(RuntimeError::Pool(e)),
        }
        if released_bytes > self.runtime.current_live_bytes {
            return Err(RuntimeError::LiveBytesUnderflow);
        }
        self.runtime.current_live_bytes = self.runtime.current_live_bytes - released_bytes;
        Ok(())
    }

    /// Releases every allocation; nothing is counted as mapped afterwards.
    pub fn release_all(&mut self, backend: &mut B) -> (r: Result<
        (),
        Vec<SlotReleaseFailure<B::Error>>,
    >)
        ensures
            final(self).pool.slot0 is None,
            final(self).pool.slot1 is None,
            final(self).pool.slot2 is None,
            final(self).pool.roles == (ScanoutRoles { candidate: None, ..old(self).pool.roles }),
            final(self).runtime.current_live_bytes == 0,
            final(self).runtime.dynamic_routes == old(self).runtime.dynamic_routes,
            r matches Err(failures) ==> failures@.len() > 0,
    {
        let result = self.pool.release_all(backend, &mut self.runtime.counters);
        self.runtime.current_live_bytes = 0;
        result
    }
}

} // verus!
