use std::collections::BTreeSet;

use gud_gadget::gud::{DisplayMode, GUD_PIXEL_FORMAT_RGB565};
use gud_gadget::modes::{ModeKey, PhysicalCatalogMode, RouteCatalog};
use gud_gadget::protocol::DisplayStateSnapshot;
use gud_gadget::routes::{
    invalidate_dynamic_pending_off_baseline, prepare_dynamic_check, record_committed_route,
    take_matching_pending_plan, FallbackReason, PendingPlan, PendingPlanKind, PresentationRoute,
    ScanoutManager,
};
use vstd::seq::Seq;
use vstd::set::Set;

use gud_gadget::scanout::{
    attempt_mapped_switch, BackendCall, checked_add_live_bytes, logical_memory_estimate, MappedSwitch,
    ScanoutAllocation, ScanoutBackend, ScanoutCounters, ScanoutPool, BUFFERS_PER_SCANOUT,
};

#[derive(Clone, Copy, Debug, Eq, PartialEq)]
enum Operation {
    CreateBuffer,
    AddFramebuffer,
    MapBuffer,
    RemoveFramebuffer,
    DestroyBuffer,
    SetCrtc,
    Dirty,
    PageFlip,
}

#[derive(Clone, Copy, Debug, Eq, PartialEq)]
struct Failure {
    operation: Operation,
    occurrence: usize,
}

#[derive(Debug)]
struct MockBuffer {
    id: u32,
    pitch: u32,
    bytes: Vec<u8>,
}

#[derive(Default)]
struct MockBackend {
    next_id: u32,
    failure: Option<Failure>,
    operation_counts: [usize; 8],
    live_buffers: BTreeSet<u32>,
    live_framebuffers: BTreeSet<u32>,
    mapping_padding: usize,
}

impl MockBackend {
    fn with_failure(operation: Operation, occurrence: usize) -> Self {
        Self {
            failure: Some(Failure {
                operation,
                occurrence,
            }),
            ..Self::default()
        }
    }

    fn operation_index(operation: Operation) -> usize {
        match operation {
            Operation::CreateBuffer => 0,
            Operation::AddFramebuffer => 1,
            Operation::MapBuffer => 2,
            Operation::RemoveFramebuffer => 3,
            Operation::DestroyBuffer => 4,
            Operation::SetCrtc => 5,
            Operation::Dirty => 6,
            Operation::PageFlip => 7,
        }
    }

    fn hit(&mut self, operation: Operation) -> Result<(), String> {
        let index = Self::operation_index(operation);
        self.operation_counts[index] += 1;
        if self.failure
            == Some(Failure {
                operation,
                occurrence: self.operation_counts[index],
            })
        {
            return Err(format!("injected {operation:?} failure"));
        }
        Ok(())
    }

    fn count(&self, operation: Operation) -> usize {
        self.operation_counts[Self::operation_index(operation)]
    }
}

impl ScanoutBackend for MockBackend {
    type Buffer = MockBuffer;
    type Framebuffer = u32;
    type Mode = (u32, u32);
    type Error = String;

    fn calls(&self) -> Seq<BackendCall<u32, (u32, u32)>> {
        unreachable!("the call model is only reasoned about")
    }

    fn live_buffers(&self) -> Set<u64> {
        unreachable!("the buffer model is only reasoned about")
    }

    fn live_framebuffers(&self) -> Set<u32> {
        unreachable!("the framebuffer model is only reasoned about")
    }

    fn size_of_mode(&self, _mode: Self::Mode) -> (u32, u32) {
        unreachable!("the mode model is only reasoned about")
    }

    fn buffer_id(_buffer: Self::Buffer) -> u64 {
        unreachable!("the buffer model is only reasoned about")
    }

    fn buffer_size(_buffer: Self::Buffer) -> (u32, u32) {
        unreachable!("the buffer model is only reasoned about")
    }

    fn pitch_of(_buffer: Self::Buffer) -> u32 {
        unreachable!("the buffer model is only reasoned about")
    }

    fn mapping_len_of(_buffer: Self::Buffer) -> usize {
        unreachable!("the buffer model is only reasoned about")
    }

    fn contents(_buffer: Self::Buffer) -> Seq<u8> {
        unreachable!("the buffer model is only reasoned about")
    }

    fn mode_size(&self, mode: Self::Mode) -> (u32, u32) {
        mode
    }

    fn create_buffer(&mut self, width: u32, height: u32) -> Result<Self::Buffer, String> {
        self.hit(Operation::CreateBuffer)?;
        self.next_id += 1;
        let id = self.next_id;
        self.live_buffers.insert(id);
        let pitch = width.checked_mul(2).unwrap();
        let len = pitch as usize * height as usize + self.mapping_padding;
        Ok(MockBuffer {
            id,
            pitch,
            bytes: vec![0; len],
        })
    }

    fn buffer_pitch(&self, buffer: &Self::Buffer) -> u32 {
        buffer.pitch
    }

    fn add_framebuffer(&mut self, buffer: &Self::Buffer) -> Result<Self::Framebuffer, String> {
        self.hit(Operation::AddFramebuffer)?;
        let id = buffer.id + 10_000;
        self.live_framebuffers.insert(id);
        Ok(id)
    }

    fn map_buffer<'a>(&mut self, buffer: &'a mut Self::Buffer) -> Result<&'a mut [u8], String> {
        self.hit(Operation::MapBuffer)?;
        Ok(buffer.bytes.as_mut_slice())
    }

    fn remove_framebuffer(&mut self, framebuffer: Self::Framebuffer) -> Result<(), String> {
        self.hit(Operation::RemoveFramebuffer)?;
        self.live_framebuffers.remove(&framebuffer);
        Ok(())
    }

    fn destroy_buffer(&mut self, buffer: Self::Buffer) -> Result<(), String> {
        self.hit(Operation::DestroyBuffer)?;
        self.live_buffers.remove(&buffer.id);
        Ok(())
    }

    fn dirty_framebuffer(
        &mut self,
        _framebuffer: Self::Framebuffer,
        _x1: u16,
        _y1: u16,
        _x2: u16,
        _y2: u16,
    ) -> Result<(), String> {
        self.hit(Operation::Dirty)
    }

    fn set_crtc(&mut self, _framebuffer: Self::Framebuffer, _mode: Self::Mode) -> Result<(), String> {
        self.hit(Operation::SetCrtc)
    }

    fn page_flip(&mut self, _framebuffer: Self::Framebuffer) -> Result<(), String> {
        self.hit(Operation::PageFlip)
    }
}

#[test]
fn partial_construction_failures_release_every_created_resource() {
    for (operation, occurrences) in [
        (Operation::CreateBuffer, 2),
        (Operation::AddFramebuffer, 2),
        (Operation::MapBuffer, 2),
    ] {
        for occurrence in 1..=occurrences {
            let mut backend = MockBackend::with_failure(operation, occurrence);
            let mut counters = ScanoutCounters::new();

            assert!(
                ScanoutAllocation::create(&mut backend, (64, 32), &mut counters).is_err(),
                "{operation:?} occurrence {occurrence}"
            );
            assert!(backend.live_buffers.is_empty());
            assert!(backend.live_framebuffers.is_empty());
        }
    }
}

#[test]
fn release_is_explicit_idempotent_and_ordered_by_resource_kind() {
    let mut backend = MockBackend::default();
    let mut counters = ScanoutCounters::new();
    let mut allocation =
        ScanoutAllocation::create(&mut backend, (64, 32), &mut counters).unwrap();

    allocation.release(&mut backend, &mut counters).unwrap();
    allocation.release(&mut backend, &mut counters).unwrap();

    assert_eq!(backend.count(Operation::RemoveFramebuffer), 2);
    assert_eq!(backend.count(Operation::DestroyBuffer), 2);
    assert!(backend.live_buffers.is_empty());
    assert!(backend.live_framebuffers.is_empty());
    let snapshot = counters.snapshot();
    assert_eq!(snapshot.releases, 1);
    assert_eq!(snapshot.framebuffer_removes, 2);
    assert_eq!(snapshot.dumb_buffer_destroys, 2);
}

#[test]
fn front_index_persists_across_mapped_scopes() {
    let mut backend = MockBackend::default();
    let mut counters = ScanoutCounters::new();
    let mut allocation =
        ScanoutAllocation::create(&mut backend, (64, 32), &mut counters).unwrap();
    {
        let mut mapped = allocation.map(&mut backend, &mut counters).unwrap();
        assert_eq!(mapped.front_index(), 0);
        mapped.set_front_index(1);
    }
    assert_eq!(
        allocation
            .map(&mut backend, &mut counters)
            .unwrap()
            .front_index(),
        1
    );
    allocation.release(&mut backend, &mut counters).unwrap();
}

#[test]
fn logical_estimates_cover_1080p_4k_and_overflow() {
    let estimate =
        logical_memory_estimate(&[(1920, 1080), (1280, 720)], &[(1920, 1080), (3840, 2160)], 2)
            .unwrap();

    assert_eq!(estimate.max_shadow_bytes, 3840 * 2160 * 2);
    assert_eq!(estimate.scanout_bytes, 3 * 2 * 1920 * 1080 * 2);
    assert_eq!(
        estimate.peak_bytes,
        estimate.scanout_bytes + estimate.max_shadow_bytes
    );
    assert!(logical_memory_estimate(&[(u32::MAX, u32::MAX)], &[(1, 1)], 2).is_err());
    assert!(logical_memory_estimate(&[], &[(1, 1)], 2).is_err());
    assert!(logical_memory_estimate(&[(1, 1)], &[], 2).is_err());
}

#[test]
fn cleanup_failures_are_deterministic_and_do_not_double_release() {
    for operation in [Operation::RemoveFramebuffer, Operation::DestroyBuffer] {
        let mut backend = MockBackend::default();
        let mut counters = ScanoutCounters::new();
        let mut allocation =
            ScanoutAllocation::create(&mut backend, (64, 32), &mut counters).unwrap();
        backend.failure = Some(Failure {
            operation,
            occurrence: 1,
        });

        assert!(allocation.release(&mut backend, &mut counters).is_err());
        let counts_after_failure = (
            backend.count(Operation::RemoveFramebuffer),
            backend.count(Operation::DestroyBuffer),
        );
        allocation.release(&mut backend, &mut counters).unwrap();
        assert_eq!(
            counts_after_failure,
            (
                backend.count(Operation::RemoveFramebuffer),
                backend.count(Operation::DestroyBuffer)
            )
        );
    }
}

#[test]
fn created_allocations_are_cleared_and_account_both_mappings() {
    let mut backend = MockBackend {
        mapping_padding: 16,
        ..MockBackend::default()
    };
    let mut counters = ScanoutCounters::new();
    let mut allocation =
        ScanoutAllocation::create(&mut backend, (64, 32), &mut counters).unwrap();
    assert_eq!(allocation.size(), (64, 32));
    assert_eq!(allocation.pitch(), 128);
    assert_eq!(allocation.mapping_lengths(), [128 * 32 + 16, 128 * 32 + 16]);
    assert_eq!(allocation.live_bytes(), 2 * (128 * 32 + 16));
    assert_eq!(counters.snapshot().allocations, 1);
    assert_eq!(counters.snapshot().maps, 2);
    assert_eq!(counters.snapshot().unmaps, 2);
    {
        let mut mapped = allocation.map(&mut backend, &mut counters).unwrap();
        assert!(mapped.buffer_mut(0).iter().all(|b| *b == 0));
        assert_eq!(mapped.back_index(), 1);
        mapped.back_buffer_mut()[0] = 7;
        assert_ne!(mapped.front_framebuffer(), mapped.back_framebuffer());
    }
    allocation.release(&mut backend, &mut counters).unwrap();
    assert!(allocation.map(&mut backend, &mut counters).is_err());
}

#[test]
fn zero_sized_modes_are_refused_before_any_resource_is_made() {
    let mut backend = MockBackend::default();
    let mut counters = ScanoutCounters::new();
    assert!(ScanoutAllocation::create(&mut backend, (0, 32), &mut counters).is_err());
    assert_eq!(backend.count(Operation::CreateBuffer), 0);
}

#[test]
fn pool_roles_keep_candidate_apart_from_active() {
    let mut backend = MockBackend::default();
    let mut counters = ScanoutCounters::new();
    let baseline = ScanoutAllocation::create(&mut backend, (64, 32), &mut counters).unwrap();
    let mut pool = ScanoutPool::with_baseline(baseline);
    let first = ScanoutAllocation::create(&mut backend, (80, 40), &mut counters).unwrap();
    assert_eq!(pool.replace_candidate(&mut backend, first, &mut counters).unwrap(), 1);
    let second = ScanoutAllocation::create(&mut backend, (96, 48), &mut counters).unwrap();
    assert_eq!(pool.replace_candidate(&mut backend, second, &mut counters).unwrap(), 1);
    assert_eq!(backend.live_buffers.len(), 2 * BUFFERS_PER_SCANOUT);
    assert_eq!(pool.candidate().unwrap().size(), (96, 48));
    assert_eq!(pool.promote_candidate().unwrap(), (0, 1));
    assert_eq!(pool.roles().active, 1);
    assert!(pool.roles().candidate.is_none());
    assert!(pool.release_inactive(&mut backend, 1, &mut counters).is_err());
    pool.release_inactive(&mut backend, 0, &mut counters).unwrap();
    assert_eq!(pool.active_mut().size(), (96, 48));
    pool.release_all(&mut backend, &mut counters).unwrap();
    assert!(backend.live_buffers.is_empty());
    assert!(backend.live_framebuffers.is_empty());
}

#[test]
fn live_byte_accounting_refuses_overflow() {
    assert_eq!(checked_add_live_bytes(1, 2).unwrap(), 3);
    assert!(checked_add_live_bytes(usize::MAX, 1).is_err());
}

fn display_mode(clock: u32, width: u16, height: u16) -> DisplayMode {
    DisplayMode {
        clock,
        hdisplay: width,
        hsync_start: width + 4,
        hsync_end: width + 8,
        htotal: width + 16,
        vdisplay: height,
        vsync_start: height + 1,
        vsync_end: height + 2,
        vtotal: height + 4,
        flags: 0,
    }
}

fn snapshot(mode: &DisplayMode, generation: u64) -> DisplayStateSnapshot {
    DisplayStateSnapshot {
        mode: mode.clone(),
        format: GUD_PIXEL_FORMAT_RGB565,
        connector: 0,
        generation,
    }
}

#[test]
fn successful_commit_switches_once_and_keeps_target_mapping_live() {
    let mut backend = MockBackend::default();
    let mut counters = ScanoutCounters::new();
    let mut old = ScanoutAllocation::create(&mut backend, (64, 32), &mut counters).unwrap();
    let mut target = ScanoutAllocation::create(&mut backend, (80, 40), &mut counters).unwrap();
    let mut old_mapped = old.map(&mut backend, &mut counters).unwrap();
    old_mapped.front_buffer_mut()[0] = 0x35;
    let maps_before = counters.snapshot().maps;
    let sets_before = backend.count(Operation::SetCrtc);

    let mut active =
        match attempt_mapped_switch(&mut backend, old_mapped, &mut target, &mut counters) {
            MappedSwitch::Switched { active, .. } => active,
            MappedSwitch::Retained { error, .. } => panic!("unexpected retained route: {error:?}"),
        };
    counters.switched();

    assert_eq!(backend.count(Operation::SetCrtc), sets_before + 1);
    assert_eq!(counters.snapshot().maps, maps_before + BUFFERS_PER_SCANOUT as u64);
    assert_eq!(counters.snapshot().maps, counters.snapshot().unmaps + BUFFERS_PER_SCANOUT as u64);
    let maps_after_switch = counters.snapshot().maps;
    for _ in 0..10 {
        counters.no_op();
        active.front_buffer_mut()[0] ^= 1;
    }
    assert_eq!(backend.count(Operation::SetCrtc), sets_before + 1);
    assert_eq!(counters.snapshot().maps, maps_after_switch);
    assert_eq!(counters.snapshot().switches, 1);
    assert_eq!(counters.snapshot().no_ops, 10);

    active.unmap(&mut counters);
    old.release(&mut backend, &mut counters).unwrap();
    target.release(&mut backend, &mut counters).unwrap();
    assert_eq!(counters.snapshot().maps, counters.snapshot().unmaps);
}

#[test]
fn commit_switch_failure_retains_old_mapping_without_retry() {
    let mut backend = MockBackend::default();
    let mut counters = ScanoutCounters::new();
    let mut old = ScanoutAllocation::create(&mut backend, (64, 32), &mut counters).unwrap();
    let mut target = ScanoutAllocation::create(&mut backend, (80, 40), &mut counters).unwrap();
    let mut old_mapped = old.map(&mut backend, &mut counters).unwrap();
    old_mapped.front_buffer_mut()[0] = 0x6b;
    let set_occurrence = backend.count(Operation::SetCrtc) + 1;
    backend.failure = Some(Failure { operation: Operation::SetCrtc, occurrence: set_occurrence });

    let mut active =
        match attempt_mapped_switch(&mut backend, old_mapped, &mut target, &mut counters) {
            MappedSwitch::Retained { active, .. } => active,
            MappedSwitch::Switched { .. } => panic!("injected set_crtc unexpectedly succeeded"),
        };

    assert_eq!(backend.count(Operation::SetCrtc), set_occurrence);
    assert_eq!(active.front_buffer_mut()[0], 0x6b);
    assert_eq!(counters.snapshot().maps, counters.snapshot().unmaps + BUFFERS_PER_SCANOUT as u64);
    active.front_buffer_mut()[1] = 0x4d;
    assert_eq!(active.front_buffer_mut()[1], 0x4d);

    active.unmap(&mut counters);
    backend.failure = None;
    old.release(&mut backend, &mut counters).unwrap();
    target.release(&mut backend, &mut counters).unwrap();
    assert_eq!(counters.snapshot().maps, counters.snapshot().unmaps);
}

#[test]
fn target_map_failure_does_not_attempt_a_modeset() {
    let mut backend = MockBackend::default();
    let mut counters = ScanoutCounters::new();
    let mut old = ScanoutAllocation::create(&mut backend, (64, 32), &mut counters).unwrap();
    let mut target = ScanoutAllocation::create(&mut backend, (80, 40), &mut counters).unwrap();
    let mut old_mapped = old.map(&mut backend, &mut counters).unwrap();
    old_mapped.front_buffer_mut()[0] = 0x2a;
    let sets_before = backend.count(Operation::SetCrtc);
    backend.failure = Some(Failure {
        operation: Operation::MapBuffer,
        occurrence: backend.count(Operation::MapBuffer) + 1,
    });

    let mut active =
        match attempt_mapped_switch(&mut backend, old_mapped, &mut target, &mut counters) {
            MappedSwitch::Retained { active, .. } => active,
            MappedSwitch::Switched { .. } => panic!("injected map unexpectedly succeeded"),
        };

    assert_eq!(backend.count(Operation::SetCrtc), sets_before);
    assert_eq!(active.front_buffer_mut()[0], 0x2a);
    active.unmap(&mut counters);
    backend.failure = None;
    old.release(&mut backend, &mut counters).unwrap();
    target.release(&mut backend, &mut counters).unwrap();
}

#[test]
fn disabled_and_same_mode_no_ops_do_not_remap() {
    let mut backend = MockBackend::default();
    let mut manager = ScanoutManager::new_baseline(&mut backend, (64, 32)).unwrap();
    {
        let ScanoutManager { pool, runtime } = &mut manager;
        let mut active = pool.active_mut().map(&mut backend, &mut runtime.counters).unwrap();
        let maps_before = runtime.counters.snapshot().maps;
        for _ in 0..100 {
            runtime.counters.no_op();
            active.front_buffer_mut()[0] ^= 1;
        }
        assert_eq!(runtime.counters.snapshot().maps, maps_before);
        assert_eq!(runtime.counters.snapshot().unmaps + 2, maps_before);
        active.unmap(&mut runtime.counters);
    }
    assert_eq!(manager.counter_snapshot().maps, manager.counter_snapshot().unmaps);
    manager.release_all(&mut backend).unwrap();
}

#[test]
fn candidate_replacement_stays_bounded() {
    let mut backend = MockBackend::default();
    let mut manager = ScanoutManager::new_baseline(&mut backend, (64, 32)).unwrap();

    for width in 65..165 {
        manager.stage_candidate(&mut backend, (width, 32)).unwrap();
        assert_eq!(backend.live_buffers.len(), 4);
        assert_eq!(backend.live_framebuffers.len(), 4);
    }

    manager.release_candidate(&mut backend).unwrap();
    assert_eq!(backend.live_buffers.len(), BUFFERS_PER_SCANOUT);
    assert_eq!(backend.live_framebuffers.len(), BUFFERS_PER_SCANOUT);
    manager.release_all(&mut backend).unwrap();
    assert!(backend.live_buffers.is_empty());
    assert!(backend.live_framebuffers.is_empty());
}

#[test]
fn actual_mapping_lengths_drive_current_and_peak_accounting() {
    let mut backend = MockBackend { mapping_padding: 4096, ..MockBackend::default() };
    let mut manager = ScanoutManager::new_baseline(&mut backend, (64, 32)).unwrap();
    let baseline_bytes = 2 * (64 * 32 * 2 + 4096);
    assert_eq!(manager.current_live_bytes(), baseline_bytes);
    assert_eq!(manager.observed_peak_live_bytes(), baseline_bytes);

    manager.stage_candidate(&mut backend, (80, 40)).unwrap();
    let candidate_bytes = 2 * (80 * 40 * 2 + 4096);
    assert_eq!(manager.current_live_bytes(), baseline_bytes + candidate_bytes);
    assert_eq!(manager.observed_peak_live_bytes(), baseline_bytes + candidate_bytes);

    manager.release_candidate(&mut backend).unwrap();
    assert_eq!(manager.current_live_bytes(), baseline_bytes);
    manager.release_all(&mut backend).unwrap();
}

#[test]
fn accounting_overflow_releases_the_new_candidate() {
    let mut backend = MockBackend::default();
    let mut manager = ScanoutManager::new_baseline(&mut backend, (64, 32)).unwrap();
    manager.runtime.current_live_bytes = usize::MAX;

    assert!(manager.stage_candidate(&mut backend, (80, 40)).is_err());
    assert_eq!(backend.live_buffers.len(), BUFFERS_PER_SCANOUT);
    assert_eq!(backend.live_framebuffers.len(), BUFFERS_PER_SCANOUT);
    assert!(manager.pool.candidate().is_none());
    assert!(checked_add_live_bytes(usize::MAX, 1).is_err());

    manager.runtime.current_live_bytes = manager.pool.active_mut().live_bytes();
    manager.release_all(&mut backend).unwrap();
}

#[test]
fn preparation_failures_retain_the_active_allocation() {
    let mut backend = MockBackend::default();
    let mut manager = ScanoutManager::new_baseline(&mut backend, (64, 32)).unwrap();
    backend.failure = Some(Failure {
        operation: Operation::MapBuffer,
        occurrence: backend.count(Operation::MapBuffer) + 1,
    });

    assert!(manager.stage_candidate(&mut backend, (80, 40)).is_err());
    assert_eq!(manager.roles().active, manager.roles().baseline);
    assert!(manager.pool.candidate().is_none());
    assert_eq!(backend.live_buffers.len(), BUFFERS_PER_SCANOUT);
    assert_eq!(backend.live_framebuffers.len(), BUFFERS_PER_SCANOUT);

    backend.failure = None;
    {
        let ScanoutManager { pool, runtime } = &mut manager;
        let mut active = pool.active_mut().map(&mut backend, &mut runtime.counters).unwrap();
        active.front_buffer_mut()[0] = 0x7a;
        assert_eq!(active.front_buffer_mut()[0], 0x7a);
        active.unmap(&mut runtime.counters);
    }
    manager.release_all(&mut backend).unwrap();
}

#[test]
fn presentation_failures_leave_the_mapped_active_buffer_usable() {
    for operation in [Operation::Dirty, Operation::PageFlip, Operation::SetCrtc] {
        let mut backend = MockBackend::default();
        let mut manager = ScanoutManager::new_baseline(&mut backend, (64, 32)).unwrap();
        {
            let ScanoutManager { pool, runtime } = &mut manager;
            let mut active = pool.active_mut().map(&mut backend, &mut runtime.counters).unwrap();
            active.front_buffer_mut()[0] = 0x4c;
            backend.failure = Some(Failure { operation, occurrence: 1 });
            let result = match operation {
                Operation::Dirty => {
                    backend.dirty_framebuffer(active.front_framebuffer(), 0, 0, 64, 32)
                }
                Operation::PageFlip => backend.page_flip(active.front_framebuffer()),
                Operation::SetCrtc => backend.set_crtc(active.front_framebuffer(), active.mode()),
                _ => unreachable!(),
            };
            assert!(result.is_err());
            assert_eq!(active.front_buffer_mut()[0], 0x4c);
            active.unmap(&mut runtime.counters);
        }
        backend.failure = None;
        manager.release_all(&mut backend).unwrap();
    }
}

#[test]
fn stable_roles_change_without_moving_allocations() {
    let mut backend = MockBackend::default();
    let mut manager = ScanoutManager::new_baseline(&mut backend, (64, 32)).unwrap();
    let baseline_identity = manager.pool.slot0.as_deref().unwrap().first.framebuffer;
    let candidate_index = manager.stage_candidate(&mut backend, (80, 40)).unwrap();
    assert_eq!(candidate_index, 1);
    let candidate_identity = manager.pool.slot1.as_deref().unwrap().first.framebuffer;

    let (old_active, new_active) = manager.promote_candidate().unwrap();

    assert_eq!(old_active, manager.roles().baseline);
    assert_eq!(new_active, candidate_index);
    assert_eq!(manager.pool.slot0.as_deref().unwrap().first.framebuffer, baseline_identity);
    assert_eq!(manager.pool.slot1.as_deref().unwrap().first.framebuffer, candidate_identity);

    manager.release_replaced_active(&mut backend, old_active).unwrap();
    manager.release_all(&mut backend).unwrap();
}

#[test]
fn dynamic_checks_prepare_rekey_and_invalidate_one_candidate() {
    let baseline_timing = display_mode(1_000, 64, 32);
    let candidate_timing = display_mode(2_000, 80, 40);
    let catalog = RouteCatalog::build(
        0,
        &[
            PhysicalCatalogMode { mode: (64, 32), timing: baseline_timing.clone() },
            PhysicalCatalogMode { mode: (80, 40), timing: candidate_timing.clone() },
        ],
        0,
        &[],
    )
    .unwrap();
    let mut backend = MockBackend::default();
    let mut manager = ScanoutManager::new_baseline(&mut backend, (64, 32)).unwrap();
    manager.initialize_dynamic_routes(ModeKey::new(0, &baseline_timing)).unwrap();
    let ScanoutManager { pool, runtime } = &mut manager;
    let ScanoutPool { slot0, slot1, slot2, roles } = pool;
    let mut active = slot0.as_deref_mut().unwrap().map(&mut backend, &mut runtime.counters).unwrap();
    active.front_buffer_mut()[0] = 0x5a;
    let set_crtc_before = backend.count(Operation::SetCrtc);

    prepare_dynamic_check(
        &mut backend,
        runtime,
        roles,
        slot1,
        slot2,
        &catalog,
        snapshot(&candidate_timing, 1),
    )
    .unwrap();
    let allocations_after_first = runtime.counters.snapshot().allocations;
    let candidate_slot = roles.candidate.unwrap();
    assert!(matches!(
        runtime.dynamic_routes().unwrap().pending_plan.as_ref().unwrap().kind,
        PendingPlanKind::ExactCandidate { .. }
    ));

    prepare_dynamic_check(
        &mut backend,
        runtime,
        roles,
        slot1,
        slot2,
        &catalog,
        snapshot(&candidate_timing, 2),
    )
    .unwrap();
    assert_eq!(runtime.counters.snapshot().allocations, allocations_after_first);
    assert_eq!(roles.candidate, Some(candidate_slot));
    assert_eq!(
        runtime.dynamic_routes().unwrap().pending_plan.as_ref().unwrap().snapshot.generation,
        2
    );
    assert_eq!(active.front_buffer_mut()[0], 0x5a);

    invalidate_dynamic_pending_off_baseline(&mut backend, runtime, roles, slot1, slot2).unwrap();
    assert!(roles.candidate.is_none());
    assert!(runtime.dynamic_routes().unwrap().pending_plan.is_none());
    assert_eq!(active.front_buffer_mut()[0], 0x5a);
    assert_eq!(backend.count(Operation::SetCrtc), set_crtc_before);

    active.unmap(&mut runtime.counters);
    manager.release_all(&mut backend).unwrap();
}

#[test]
fn failed_route_cache_is_checked_before_a_new_allocation() {
    let baseline_timing = display_mode(1_000, 64, 32);
    let candidate_timing = display_mode(2_000, 80, 40);
    let synthetic_timing = display_mode(3_000, 70, 70);
    let catalog = RouteCatalog::build(
        0,
        &[
            PhysicalCatalogMode { mode: (64, 32), timing: baseline_timing.clone() },
            PhysicalCatalogMode { mode: (80, 40), timing: candidate_timing.clone() },
        ],
        0,
        std::slice::from_ref(&synthetic_timing),
    )
    .unwrap();
    let mut backend = MockBackend::default();
    let mut manager = ScanoutManager::new_baseline(&mut backend, (64, 32)).unwrap();
    manager.initialize_dynamic_routes(ModeKey::new(0, &baseline_timing)).unwrap();
    let ScanoutManager { pool, runtime } = &mut manager;
    let ScanoutPool { slot0, slot1, slot2, roles } = pool;
    let active = slot0.as_deref_mut().unwrap().map(&mut backend, &mut runtime.counters).unwrap();
    backend.failure = Some(Failure {
        operation: Operation::CreateBuffer,
        occurrence: backend.count(Operation::CreateBuffer) + 1,
    });

    prepare_dynamic_check(
        &mut backend,
        runtime,
        roles,
        slot1,
        slot2,
        &catalog,
        snapshot(&candidate_timing, 1),
    )
    .unwrap();
    assert!(matches!(
        runtime.dynamic_routes().unwrap().pending_plan.as_ref().unwrap().kind,
        PendingPlanKind::ScaledCurrentAfterFailure(FallbackReason::PrepareFailed)
    ));
    assert_eq!(runtime.dynamic_routes().unwrap().failed_routes.len(), 1);

    backend.failure = None;
    let creates_before_cache_hit = backend.count(Operation::CreateBuffer);
    prepare_dynamic_check(
        &mut backend,
        runtime,
        roles,
        slot1,
        slot2,
        &catalog,
        snapshot(&candidate_timing, 2),
    )
    .unwrap();
    assert_eq!(backend.count(Operation::CreateBuffer), creates_before_cache_hit);
    assert!(runtime.dynamic_routes().unwrap().pending_plan.as_ref().unwrap().failed_cache_hit);

    prepare_dynamic_check(
        &mut backend,
        runtime,
        roles,
        slot1,
        slot2,
        &catalog,
        snapshot(&synthetic_timing, 3),
    )
    .unwrap();
    prepare_dynamic_check(
        &mut backend,
        runtime,
        roles,
        slot1,
        slot2,
        &catalog,
        snapshot(&candidate_timing, 4),
    )
    .unwrap();
    assert_eq!(backend.count(Operation::CreateBuffer), creates_before_cache_hit);

    active.unmap(&mut runtime.counters);
    manager.release_all(&mut backend).unwrap();
}

#[test]
fn checks_of_the_active_mode_and_synthetic_modes_make_no_candidate() {
    let baseline_timing = display_mode(1_000, 64, 32);
    let synthetic_timing = display_mode(3_000, 70, 70);
    let catalog = RouteCatalog::build(
        0,
        &[PhysicalCatalogMode { mode: (64, 32), timing: baseline_timing.clone() }],
        0,
        std::slice::from_ref(&synthetic_timing),
    )
    .unwrap();
    let mut backend = MockBackend::default();
    let mut manager = ScanoutManager::new_baseline(&mut backend, (64, 32)).unwrap();
    let ScanoutManager { pool, runtime } = &mut manager;
    let ScanoutPool { slot1, slot2, roles, .. } = pool;
    assert!(prepare_dynamic_check(
        &mut backend,
        runtime,
        roles,
        slot1,
        slot2,
        &catalog,
        snapshot(&baseline_timing, 1),
    )
    .is_err());
    manager.initialize_dynamic_routes(ModeKey::new(0, &baseline_timing)).unwrap();
    assert!(manager.initialize_dynamic_routes(ModeKey::new(0, &baseline_timing)).is_err());
    let ScanoutManager { pool, runtime } = &mut manager;
    let ScanoutPool { slot1, slot2, roles, .. } = pool;

    prepare_dynamic_check(&mut backend, runtime, roles, slot1, slot2, &catalog, snapshot(&baseline_timing, 1))
        .unwrap();
    let plan = runtime.dynamic_routes().unwrap().pending_plan.clone().unwrap();
    assert_eq!(plan.kind, PendingPlanKind::ExactActiveNoOp);
    assert_eq!(plan.requested_mode, Some((64, 32)));
    assert_eq!(runtime.counters.snapshot().no_ops, 1);

    prepare_dynamic_check(&mut backend, runtime, roles, slot1, slot2, &catalog, snapshot(&synthetic_timing, 2))
        .unwrap();
    let plan = runtime.dynamic_routes().unwrap().pending_plan.clone().unwrap();
    assert_eq!(plan.kind, PendingPlanKind::ScaledBaseline { switch_required: false });
    assert_eq!(plan.requested_physical_key, None);
    assert_eq!(runtime.counters.snapshot().fallbacks, 1);
    assert!(roles.candidate.is_none());

    let unknown = display_mode(9_999, 10, 10);
    assert!(prepare_dynamic_check(&mut backend, runtime, roles, slot1, slot2, &catalog, snapshot(&unknown, 3))
        .is_err());

    let mut pending = runtime.dynamic_routes.as_mut().unwrap().pending_plan.take();
    assert_eq!(take_matching_pending_plan(&mut pending, &snapshot(&synthetic_timing, 3)), Err(true));
    assert!(pending.is_none());
    assert_eq!(take_matching_pending_plan(&mut pending, &snapshot(&synthetic_timing, 2)), Err(false));
    let mut pending = Some(plan.clone());
    assert_eq!(take_matching_pending_plan(&mut pending, &snapshot(&synthetic_timing, 2)), Ok(plan));

    let logical = ModeKey::new(0, &synthetic_timing);
    record_committed_route(
        runtime,
        snapshot(&synthetic_timing, 2),
        PresentationRoute::ScaledBaseline { logical },
        None,
    )
    .unwrap();
    let routes = runtime.dynamic_routes().unwrap();
    assert_eq!(routes.committed_snapshot, Some(snapshot(&synthetic_timing, 2)));
    assert_eq!(routes.current_physical_key, ModeKey::new(0, &baseline_timing));
    manager.release_all(&mut backend).unwrap();
}

#[test]
fn commit_plan_matching_consumes_missing_stale_and_mismatched_identity() {
    let mode = DisplayMode {
        clock: 74_250,
        hdisplay: 1280,
        hsync_start: 1390,
        hsync_end: 1430,
        htotal: 1650,
        vdisplay: 720,
        vsync_start: 725,
        vsync_end: 730,
        vtotal: 750,
        flags: 0,
    };
    let committed = DisplayStateSnapshot {
        mode: mode.clone(),
        format: GUD_PIXEL_FORMAT_RGB565,
        connector: 0,
        generation: 4,
    };
    let make_plan = |snapshot: DisplayStateSnapshot| PendingPlan {
        logical_key: ModeKey::from_snapshot(&snapshot),
        snapshot,
        requested_physical_key: None,
        requested_mode: None::<()>,
        kind: PendingPlanKind::ExactActiveNoOp,
        failed_cache_hit: false,
        mode_prepare_ms: 0,
    };

    let mut missing: Option<PendingPlan<()>> = None;
    assert_eq!(take_matching_pending_plan(&mut missing, &committed), Err(false));

    let mut stale_snapshot = committed.clone();
    stale_snapshot.generation -= 1;
    let mut stale = Some(make_plan(stale_snapshot));
    assert_eq!(take_matching_pending_plan(&mut stale, &committed), Err(true));
    assert!(stale.is_none());

    let mut mismatched_snapshot = committed.clone();
    mismatched_snapshot.mode.clock += 1;
    let mut mismatched = Some(make_plan(mismatched_snapshot));
    assert_eq!(take_matching_pending_plan(&mut mismatched, &committed), Err(true));
    assert!(mismatched.is_none());

    let mut matching = Some(make_plan(committed.clone()));
    assert!(take_matching_pending_plan(&mut matching, &committed).is_ok());
    assert!(matching.is_none());
}

#[test]
fn mapped_transition_keeps_old_and_target_live_together() {
    let mut backend = MockBackend::default();
    let mut counters = ScanoutCounters::new();
    let mut old = ScanoutAllocation::create(&mut backend, (64, 32), &mut counters).unwrap();
    let mut target = ScanoutAllocation::create(&mut backend, (80, 40), &mut counters).unwrap();

    {
        let old_mapped = old.map(&mut backend, &mut counters).unwrap();
        let target_mapped = target.map(&mut backend, &mut counters).unwrap();
        let (mut old_mapped, mut target_mapped) = (old_mapped, target_mapped);
        old_mapped.front_buffer_mut()[0] = 0x11;
        target_mapped.front_buffer_mut()[0] = 0x22;
        backend.set_crtc(target_mapped.front_framebuffer(), target_mapped.mode()).unwrap();
        assert_eq!(old_mapped.front_buffer_mut()[0], 0x11);
        assert_eq!(target_mapped.front_buffer_mut()[0], 0x22);
        old_mapped.unmap(&mut counters);
        target_mapped.unmap(&mut counters);
    }

    assert_eq!(counters.snapshot().maps, counters.snapshot().unmaps);
    old.release(&mut backend, &mut counters).unwrap();
    target.release(&mut backend, &mut counters).unwrap();
}

#[test]
fn off_baseline_invalidation_without_candidate_needs_routes() {
    let mut backend = MockBackend::default();
    let mut manager = ScanoutManager::new_baseline(&mut backend, (64, 32)).unwrap();
    let creates_before = backend.count(Operation::CreateBuffer);
    {
        let ScanoutManager { pool, runtime } = &mut manager;
        let ScanoutPool { slot1, slot2, roles, .. } = pool;
        let err = invalidate_dynamic_pending_off_baseline(&mut backend, runtime, roles, slot1, slot2)
            .unwrap_err();
        assert!(matches!(err, gud_gadget::routes::RuntimeError::RoutesNotInitialized));
        assert!(roles.candidate.is_none());
    }
    manager.initialize_dynamic_routes(ModeKey::new(0, &display_mode(1_000, 64, 32))).unwrap();
    {
        let ScanoutManager { pool, runtime } = &mut manager;
        let ScanoutPool { slot1, slot2, roles, .. } = pool;
        invalidate_dynamic_pending_off_baseline(&mut backend, runtime, roles, slot1, slot2).unwrap();
        assert!(slot1.is_none() && slot2.is_none());
    }
    assert_eq!(backend.count(Operation::CreateBuffer), creates_before);
    manager.release_all(&mut backend).unwrap();
}

#[test]
fn zero_sized_mode_fails_before_any_buffer() {
    let mut backend = MockBackend::default();
    let mut counters = ScanoutCounters::new();
    let err = ScanoutAllocation::create(&mut backend, (0, 32), &mut counters).err().unwrap();
    assert!(matches!(err.cause, gud_gadget::scanout::ScanoutError::ZeroDimensions));
    assert!(err.cleanup.is_empty());
    assert_eq!(counters.snapshot(), ScanoutCounters::new().snapshot());
    assert_eq!(backend.count(Operation::CreateBuffer), 0);
}

#[test]
fn release_tries_every_step_in_order_and_counts_the_successes() {
    let mut backend = MockBackend::with_failure(Operation::RemoveFramebuffer, 1);
    let mut counters = ScanoutCounters::new();
    let mut allocation = ScanoutAllocation::create(&mut backend, (64, 32), &mut counters).unwrap();
    let before = counters.snapshot();
    assert_eq!(before.maps, 2);
    assert_eq!(before.unmaps, 2);
    let failures = allocation.release(&mut backend, &mut counters).unwrap_err();
    assert_eq!(failures.len(), 1);
    assert_eq!(failures[0].step, gud_gadget::scanout::CleanupStep::RemoveFramebuffer);
    assert_eq!(failures[0].index, 1);
    let after = counters.snapshot();
    assert_eq!(after.framebuffer_removes, before.framebuffer_removes + 1);
    assert_eq!(after.dumb_buffer_destroys, before.dumb_buffer_destroys + 2);
    assert_eq!(after.releases, before.releases + 1);
    assert_eq!(backend.count(Operation::RemoveFramebuffer), 2);
    assert_eq!(backend.count(Operation::DestroyBuffer), 2);
}

#[test]
fn creation_with_a_reported_size_refuses_zero_before_any_call() {
    let mut backend = MockBackend::default();
    let mut counters = ScanoutCounters::new();
    let err = ScanoutAllocation::create_with_size(&mut backend, (64, 32), 64, 0, &mut counters)
        .err()
        .unwrap();
    assert!(matches!(err.cause, gud_gadget::scanout::ScanoutError::ZeroDimensions));
    assert_eq!(backend.count(Operation::CreateBuffer), 0);
    let a = ScanoutAllocation::create_with_size(&mut backend, (64, 32), 64, 32, &mut counters).unwrap();
    assert_eq!(a.size(), (64, 32));
    assert_eq!(counters.snapshot().allocations, 1);
}
