//! Double-buffered scanout allocations on a display backend: creating them
//! with every partial resource released on failure, mapping them, releasing
//! them exactly once, and the memory they are expected to take.
use vstd::prelude::*;

verus! {

/// Stable slots a scanout pool holds allocations in.
pub const SCANOUT_SLOT_COUNT: usize = 3;
/// Buffers in one scanout allocation (front and back).
pub const BUFFERS_PER_SCANOUT: usize = 2;

/// The memory a set of modes is expected to take.
#[derive(Clone, Copy, Debug, PartialEq, Eq, Structural)]
pub struct LogicalMemoryEstimate {
    pub max_shadow_bytes: usize,
    pub scanout_bytes: usize,
    pub peak_bytes: usize,
}

/// Why a memory estimate could not be made.
#[derive(Clone, Copy, Debug, PartialEq, Eq, Structural)]
pub enum EstimateError {
    ModeByteOverflow,
    EmptyPhysicalCatalog,
    EmptyAdvertisedCatalog,
    ScanoutOverflow,
    PeakOverflow,
    LiveBytesOverflow,
}

/// Whether the byte count of a `width` x `height` mode at `bpp` bytes per
/// pixel cannot be computed: the pixel count or the byte count overflows.
pub open spec fn mode_bytes_overflow(width: u32, height: u32, bpp: usize) -> bool {
    width * height > usize::MAX || width * height * bpp > usize::MAX
}

/// The bytes of a `width` x `height` mode, or why they cannot be counted.
pub fn checked_bytes(width: u32, height: u32, bytes_per_pixel: usize) -> (r: Result<
    usize,
    EstimateError,
>)
    ensures
        mode_bytes_overflow(width, height, bytes_per_pixel) ==> r == Err::<usize, EstimateError>(
            EstimateError::ModeByteOverflow,
        ),
        !mode_bytes_overflow(width, height, bytes_per_pixel) ==> r == Ok::<usize, EstimateError>(
            (width * height * bytes_per_pixel) as usize,
        ),
{
    match (width as usize).checked_mul(height as usize) {
        Some(pixels) => match pixels.checked_mul(bytes_per_pixel) {
            Some(bytes) => Ok(bytes),
            None => Err(EstimateError::ModeByteOverflow),
        },
        None => Err(EstimateError::ModeByteOverflow),
    }
}

/// Adds to the live-byte count, refusing an overflow.
pub fn checked_add_live_bytes(current: usize, addition: usize) -> (r: Result<usize, EstimateError>)
    ensures
        current + addition > usize::MAX ==> r == Err::<usize, EstimateError>(
            EstimateError::LiveBytesOverflow,
        ),
        current + addition <= usize::MAX ==> r == Ok::<usize, EstimateError>(
            (current + addition) as usize,
        ),
{
    match current.checked_add(addition) {
        Some(total) => Ok(total),
        None => Err(EstimateError::LiveBytesOverflow),
    }
}

/// Whether some mode of `sizes` overflows.
pub open spec fn any_mode_overflows(sizes: Seq<(u32, u32)>, bpp: usize) -> bool {
    exists|i: int| 0 <= i < sizes.len() && #[trigger] mode_bytes_overflow(sizes[i].0, sizes[i].1, bpp)
}

/// The largest byte count among the modes of `sizes` (zero for none).
pub open spec fn largest_mode_bytes(sizes: Seq<(u32, u32)>, bpp: usize) -> int
    decreases sizes.len(),
{
    if sizes.len() == 0 {
        0
    } else {
        let rest = largest_mode_bytes(sizes.drop_last(), bpp);
        let last = sizes.last().0 * sizes.last().1 * bpp;
        if last > rest {
            last
        } else {
            rest
        }
    }
}

/// The largest mode of `sizes` in bytes, or why it cannot be found.
fn largest_bytes(sizes: &[(u32, u32)], bytes_per_pixel: usize, empty: EstimateError) -> (r: Result<
    usize,
    EstimateError,
>)
    ensures
        any_mode_overflows(sizes@, bytes_per_pixel) ==> r == Err::<usize, EstimateError>(
            EstimateError::ModeByteOverflow,
        ),
        !any_mode_overflows(sizes@, bytes_per_pixel) && sizes@.len() == 0 ==> r == Err::<
            usize,
            EstimateError,
        >(empty),
        !any_mode_overflows(sizes@, bytes_per_pixel) && sizes@.len() > 0 ==> r == Ok::<
            usize,
            EstimateError,
        >(largest_mode_bytes(sizes@, bytes_per_pixel) as usize),
        r matches Ok(v) ==> v == largest_mode_bytes(sizes@, bytes_per_pixel),
{
    let mut largest: usize = 0;
    let mut i: usize = 0;
    while i < sizes.len()
        invariant
            0 <= i <= sizes@.len(),
            forall|k: int| 0 <= k < i ==> !#[trigger] mode_bytes_overflow(sizes@[k].0, sizes@[k].1, bytes_per_pixel),
            largest == largest_mode_bytes(sizes@.subrange(0, i as int), bytes_per_pixel),
        decreases sizes@.len() - i,
    {
        let (width, height) = sizes[i];
        let bytes = match checked_bytes(width, height, bytes_per_pixel) {
            Ok(b) => b,
            Err(e) => {
                assert(mode_bytes_overflow(sizes@[i as int].0, sizes@[i as int].1, bytes_per_pixel));
                return Err(e);
            },
        };
        assert(sizes@.subrange(0, i + 1).drop_last() =~= sizes@.subrange(0, i as int));
        if bytes > largest {
            largest = bytes;
        }
        i = i + 1;
    }
    assert(sizes@.subrange(0, sizes@.len() as int) =~= sizes@);
    if sizes.len() == 0 {
        return Err(empty);
    }
    Ok(largest)
}

/// The memory a scanout setup needs: three slots of two buffers for the
/// largest physical mode, plus one shadow buffer for the largest advertised
/// mode.
pub fn logical_memory_estimate(
    physical_sizes: &[(u32, u32)],
    advertised_sizes: &[(u32, u32)],
    bytes_per_pixel: usize,
) -> (r: Result<LogicalMemoryEstimate, EstimateError>)
    ensures
        any_mode_overflows(physical_sizes@, bytes_per_pixel) ==> r == Err::<
            LogicalMemoryEstimate,
            EstimateError,
        >(EstimateError::ModeByteOverflow),
        !any_mode_overflows(physical_sizes@, bytes_per_pixel) && physical_sizes@.len() == 0 ==> r
            == Err::<LogicalMemoryEstimate, EstimateError>(EstimateError::EmptyPhysicalCatalog),
        !any_mode_overflows(physical_sizes@, bytes_per_pixel) && physical_sizes@.len() > 0 && (
        any_mode_overflows(advertised_sizes@, bytes_per_pixel) || advertised_sizes@.len() == 0)
            ==> r == Err::<LogicalMemoryEstimate, EstimateError>(
            if any_mode_overflows(advertised_sizes@, bytes_per_pixel) {
                EstimateError::ModeByteOverflow
            } else {
                EstimateError::EmptyAdvertisedCatalog
            },
        ),
        !any_mode_overflows(physical_sizes@, bytes_per_pixel) && physical_sizes@.len() > 0
            && !any_mode_overflows(advertised_sizes@, bytes_per_pixel) && advertised_sizes@.len()
            > 0 ==> {
            let scanout = largest_mode_bytes(physical_sizes@, bytes_per_pixel)
                * BUFFERS_PER_SCANOUT * SCANOUT_SLOT_COUNT;
            let shadow = largest_mode_bytes(advertised_sizes@, bytes_per_pixel);
            if scanout > usize::MAX {
                r == Err::<LogicalMemoryEstimate, EstimateError>(EstimateError::ScanoutOverflow)
            } else if scanout + shadow > usize::MAX {
                r == Err::<LogicalMemoryEstimate, EstimateError>(EstimateError::PeakOverflow)
            } else {
                r == Ok::<LogicalMemoryEstimate, EstimateError>(
                    LogicalMemoryEstimate {
                        max_shadow_bytes: shadow as usize,
                        scanout_bytes: scanout as usize,
                        peak_bytes: (scanout + shadow) as usize,
                    },
                )
            }
        },
{
    let largest_physical = largest_bytes(
        physical_sizes,
        bytes_per_pixel,
        EstimateError::EmptyPhysicalCatalog,
    )?;
    let max_shadow_bytes = largest_bytes(
        advertised_sizes,
        bytes_per_pixel,
        EstimateError::EmptyAdvertisedCatalog,
    )?;
    let scanout_bytes = match largest_physical.checked_mul(BUFFERS_PER_SCANOUT) {
        Some(b) => match b.checked_mul(SCANOUT_SLOT_COUNT) {
            Some(total) => total,
            None => return Err(EstimateError::ScanoutOverflow),
        },
        None => return Err(EstimateError::ScanoutOverflow),
    };
    let peak_bytes = match scanout_bytes.checked_add(max_shadow_bytes) {
        Some(total) => total,
        None => return Err(EstimateError::PeakOverflow),
    };
    Ok(LogicalMemoryEstimate { max_shadow_bytes, scanout_bytes, peak_bytes })
}

/// Counts of scanout operations.
#[derive(Clone, Copy, Debug, PartialEq, Eq, Structural)]
pub struct ScanoutCounterSnapshot {
    pub allocations: u64,
    pub releases: u64,
    pub framebuffer_removes: u64,
    pub dumb_buffer_destroys: u64,
    pub maps: u64,
    pub unmaps: u64,
    pub switches: u64,
    pub no_ops: u64,
    pub fallbacks: u64,
}

/// The count after `c`, wrapping to zero.
pub open spec fn bump(c: u64) -> u64 {
    if c == u64::MAX {
        0
    } else {
        (c + 1) as u64
    }
}

/// Counters of scanout operations, kept as the operations happen.
#[derive(Clone, Copy, Debug, PartialEq, Eq, Structural)]
pub struct ScanoutCounters {
    pub counts: ScanoutCounterSnapshot,
}

impl ScanoutCounters {
    /// All counts zero.
    pub fn new() -> (r: ScanoutCounters)
        ensures
            r.counts == (ScanoutCounterSnapshot {
                allocations: 0,
                releases: 0,
                framebuffer_removes: 0,
                dumb_buffer_destroys: 0,
                maps: 0,
                unmaps: 0,
                switches: 0,
                no_ops: 0,
                fallbacks: 0,
            }),
    {
        ScanoutCounters {
            counts: ScanoutCounterSnapshot {
                allocations: 0,
                releases: 0,
                framebuffer_removes: 0,
                dumb_buffer_destroys: 0,
                maps: 0,
                unmaps: 0,
                switches: 0,
                no_ops: 0,
                fallbacks: 0,
            },
        }
    }

    /// The counts so far.
    pub fn snapshot(&self) -> (r: ScanoutCounterSnapshot)
        ensures
            r == self.counts,
    {
        self.counts
    }

    /// Counts a completed allocation.
    pub fn allocation(&mut self)
        ensures
            final(self).counts == (ScanoutCounterSnapshot {
                allocations: bump(old(self).counts.allocations),
                ..old(self).counts
            }),
    {
        self.counts.allocations = self.counts.allocations.wrapping_add(1);
    }

    /// Counts a release.
    pub fn release(&mut self)
        ensures
            final(self).counts == (ScanoutCounterSnapshot {
                releases: bump(old(self).counts.releases),
                ..old(self).counts
            }),
    {
        self.counts.releases = self.counts.releases.wrapping_add(1);
    }

    /// Counts a removed framebuffer.
    pub fn framebuffer_remove(&mut self)
        ensures
            final(self).counts == (ScanoutCounterSnapshot {
                framebuffer_removes: bump(old(self).counts.framebuffer_removes),
                ..old(self).counts
            }),
    {
        self.counts.framebuffer_removes = self.counts.framebuffer_removes.wrapping_add(1);
    }

    /// Counts a destroyed dumb buffer.
    pub fn dumb_buffer_destroy(&mut self)
        ensures
            final(self).counts == (ScanoutCounterSnapshot {
                dumb_buffer_destroys: bump(old(self).counts.dumb_buffer_destroys),
                ..old(self).counts
            }),
    {
        self.counts.dumb_buffer_destroys = self.counts.dumb_buffer_destroys.wrapping_add(1);
    }

    /// Counts a mapped buffer.
    pub fn map(&mut self)
        ensures
            final(self).counts == (ScanoutCounterSnapshot {
                maps: bump(old(self).counts.maps),
                ..old(self).counts
            }),
    {
        self.counts.maps = self.counts.maps.wrapping_add(1);
    }

    /// Counts an unmapped buffer.
    pub fn unmap(&mut self)
        ensures
            final(self).counts == (ScanoutCounterSnapshot {
                unmaps: bump(old(self).counts.unmaps),
                ..old(self).counts
            }),
    {
        self.counts.unmaps = self.counts.unmaps.wrapping_add(1);
    }

    /// Counts a mode switch.
    pub fn switched(&mut self)
        ensures
            final(self).counts == (ScanoutCounterSnapshot {
                switches: bump(old(self).counts.switches),
                ..old(self).counts
            }),
    {
        self.counts.switches = self.counts.switches.wrapping_add(1);
    }

    /// Counts a commit that needed no switch.
    pub fn no_op(&mut self)
        ensures
            final(self).counts == (ScanoutCounterSnapshot {
                no_ops: bump(old(self).counts.no_ops),
                ..old(self).counts
            }),
    {
        self.counts.no_ops = self.counts.no_ops.wrapping_add(1);
    }

    /// Counts a fallback presentation.
    pub fn fallback(&mut self)
        ensures
            final(self).counts == (ScanoutCounterSnapshot {
                fallbacks: bump(old(self).counts.fallbacks),
                ..old(self).counts
            }),
    {
        self.counts.fallbacks = self.counts.fallbacks.wrapping_add(1);
    }
}

/// A call made on a scanout backend, with what it was handed: buffers by
/// their identity, framebuffers and modes as they are.
#[derive(Clone, Copy, Debug, PartialEq, Eq)]
pub enum BackendCall<F, M> {
    CreateBuffer { width: u32, height: u32 },
    AddFramebuffer { buffer: u64 },
    MapBuffer { buffer: u64 },
    RemoveFramebuffer { framebuffer: F },
    DestroyBuffer { buffer: u64 },
    DirtyFramebuffer { framebuffer: F, x1: u16, y1: u16, x2: u16, y2: u16 },
    SetCrtc { framebuffer: F, mode: M },
    PageFlip { framebuffer: F },
}

/// A display backend that scanout allocations are made on. Implementors
/// keep this model: the calls made so far, in order, the buffers (by
/// identity) and framebuffers alive, and for each buffer its size, its
/// pitch and the length and contents of its mapping. Each operation
/// appends its own call and changes the live sets only as its `ensures`
/// says; whether an operation succeeds is the backend's to decide.
pub trait ScanoutBackend {
    type Buffer;
    type Framebuffer: Copy;
    type Mode: Copy;
    type Error;

    /// The calls made on the backend so far.
    spec fn calls(&self) -> Seq<BackendCall<Self::Framebuffer, Self::Mode>>;

    /// The identities of the buffers alive.
    spec fn live_buffers(&self) -> Set<u64>;

    /// The framebuffers alive.
    spec fn live_framebuffers(&self) -> Set<Self::Framebuffer>;

    /// The size of `mode`.
    spec fn size_of_mode(&self, mode: Self::Mode) -> (u32, u32);

    /// The identity of a buffer.
    spec fn buffer_id(buffer: Self::Buffer) -> u64;

    /// The width and height a buffer was created with.
    spec fn buffer_size(buffer: Self::Buffer) -> (u32, u32);

    /// The bytes between row starts of a buffer.
    spec fn pitch_of(buffer: Self::Buffer) -> u32;

    /// The length of a buffer's mapping.
    spec fn mapping_len_of(buffer: Self::Buffer) -> usize;

    /// The bytes of a buffer, as its mapping shows them.
    spec fn contents(buffer: Self::Buffer) -> Seq<u8>;

    /// The width and height of `mode`.
    fn mode_size(&self, mode: Self::Mode) -> (r: (u32, u32))
        ensures
            r == self.size_of_mode(mode),
    ;

    /// Creates a buffer of `width` x `height` pixels, not alive before.
    fn create_buffer(&mut self, width: u32, height: u32) -> (r: Result<Self::Buffer, Self::Error>)
        ensures
            final(self).calls() == old(self).calls().push(BackendCall::CreateBuffer { width, height }),
            final(self).live_framebuffers() == old(self).live_framebuffers(),
            r matches Ok(b) ==> Self::buffer_size(b) == (width, height) && !old(self).live_buffers().contains(
                Self::buffer_id(b),
            ) && final(self).live_buffers() == old(self).live_buffers().insert(Self::buffer_id(b)),
            r is Err ==> final(self).live_buffers() == old(self).live_buffers(),
    ;

    /// The bytes between row starts of `buffer`.
    fn buffer_pitch(&self, buffer: &Self::Buffer) -> (r: u32)
        ensures
            r == Self::pitch_of(*buffer),
    ;

    /// Creates a framebuffer scanning out of `buffer`, not alive before.
    fn add_framebuffer(&mut self, buffer: &Self::Buffer) -> (r: Result<Self::Framebuffer, Self::Error>)
        ensures
            final(self).calls() == old(self).calls().push(
                BackendCall::AddFramebuffer { buffer: Self::buffer_id(*buffer) },
            ),
            final(self).live_buffers() == old(self).live_buffers(),
            r matches Ok(f) ==> !old(self).live_framebuffers().contains(f)
                && final(self).live_framebuffers() == old(self).live_framebuffers().insert(f),
            r is Err ==> final(self).live_framebuffers() == old(self).live_framebuffers(),
    ;

    /// Maps `buffer` for writing; the mapping lasts while the buffer is
    /// borrowed, and what is written to it becomes the buffer's contents.
    fn map_buffer<'a>(&mut self, buffer: &'a mut Self::Buffer) -> (r: Result<
        &'a mut [u8],
        Self::Error,
    >)
        ensures
            final(self).calls() == old(self).calls().push(
                BackendCall::MapBuffer { buffer: Self::buffer_id(*old(buffer)) },
            ),
            final(self).live_buffers() == old(self).live_buffers(),
            final(self).live_framebuffers() == old(self).live_framebuffers(),
            Self::buffer_id(*final(buffer)) == Self::buffer_id(*old(buffer)),
            Self::buffer_size(*final(buffer)) == Self::buffer_size(*old(buffer)),
            Self::pitch_of(*final(buffer)) == Self::pitch_of(*old(buffer)),
            Self::mapping_len_of(*final(buffer)) == Self::mapping_len_of(*old(buffer)),
            r matches Ok(m) ==> m@.len() == Self::mapping_len_of(*old(buffer)) && m@ == Self::contents(
                *old(buffer),
            ) && Self::contents(*final(buffer)) == final(m)@,
            r is Err ==> *final(buffer) == *old(buffer),
    ;

    /// Removes a framebuffer; one that could not be removed stays alive.
    fn remove_framebuffer(&mut self, framebuffer: Self::Framebuffer) -> (r: Result<(), Self::Error>)
        ensures
            final(self).calls() == old(self).calls().push(BackendCall::RemoveFramebuffer { framebuffer }),
            final(self).live_buffers() == old(self).live_buffers(),
            r is Ok ==> final(self).live_framebuffers() == old(self).live_framebuffers().remove(framebuffer),
            r is Err ==> final(self).live_framebuffers() == old(self).live_framebuffers(),
    ;

    /// Destroys a buffer; one that could not be destroyed stays alive.
    fn destroy_buffer(&mut self, buffer: Self::Buffer) -> (r: Result<(), Self::Error>)
        ensures
            final(self).calls() == old(self).calls().push(
                BackendCall::DestroyBuffer { buffer: Self::buffer_id(buffer) },
            ),
            final(self).live_framebuffers() == old(self).live_framebuffers(),
            r is Ok ==> final(self).live_buffers() == old(self).live_buffers().remove(Self::buffer_id(buffer)),
            r is Err ==> final(self).live_buffers() == old(self).live_buffers(),
    ;

    /// Marks a rectangle of a framebuffer as changed.
    fn dirty_framebuffer(
        &mut self,
        framebuffer: Self::Framebuffer,
        x1: u16,
        y1: u16,
        x2: u16,
        y2: u16,
    ) -> (r: Result<(), Self::Error>)
        ensures
            final(self).calls() == old(self).calls().push(
                BackendCall::DirtyFramebuffer { framebuffer, x1, y1, x2, y2 },
            ),
            final(self).live_buffers() == old(self).live_buffers(),
            final(self).live_framebuffers() == old(self).live_framebuffers(),
    ;

    /// Scans out `framebuffer` with `mode`.
    fn set_crtc(&mut self, framebuffer: Self::Framebuffer, mode: Self::Mode) -> (r: Result<
        (),
        Self::Error,
    >)
        ensures
            final(self).calls() == old(self).calls().push(BackendCall::SetCrtc { framebuffer, mode }),
            final(self).live_buffers() == old(self).live_buffers(),
            final(self).live_framebuffers() == old(self).live_framebuffers(),
    ;

    /// Flips to `framebuffer` at the next vertical blank.
    fn page_flip(&mut self, framebuffer: Self::Framebuffer) -> (r: Result<(), Self::Error>)
        ensures
            final(self).calls() == old(self).calls().push(BackendCall::PageFlip { framebuffer }),
            final(self).live_buffers() == old(self).live_buffers(),
            final(self).live_framebuffers() == old(self).live_framebuffers(),
    ;
}

/// The backend step that failed while releasing or flushing.
#[derive(Clone, Copy, Debug, PartialEq, Eq, Structural)]
pub enum CleanupStep {
    RemoveFramebuffer,
    DestroyBuffer,
    FlushFramebuffer,
}

/// A failed cleanup step of one buffer.
#[derive(Clone, Debug)]
pub struct CleanupFailure<E> {
    pub step: CleanupStep,
    pub index: usize,
    pub error: E,
}

/// Why a scanout allocation could not be made or mapped.
#[derive(Clone, Debug)]
pub enum ScanoutError<E> {
    ZeroDimensions,
    CreateBuffer { index: usize, error: E },
    AddFramebuffer { index: usize, error: E },
    PitchMismatch { first: u32, second: u32 },
    MapReleased,
    BufferMissing { index: usize },
    MapBuffer { index: usize, error: E },
    FramebufferMissing { index: usize },
    MappingAccountingOverflow,
}

/// A failed creation, with the failures of the cleanup that followed it.
#[derive(Clone, Debug)]
pub struct CreateError<E> {
    pub cause: ScanoutError<E>,
    pub cleanup: Vec<CleanupFailure<E>>,
}

/// One buffer of an allocation with the resources made for it so far.
pub struct ScanoutBuffer<B: ScanoutBackend> {
    pub buffer: Option<B::Buffer>,
    pub framebuffer: Option<B::Framebuffer>,
    pub pitch: u32,
    pub mapping_len: usize,
}

impl<B: ScanoutBackend> ScanoutBuffer<B> {
    /// A buffer with nothing made yet.
    pub fn empty() -> (r: ScanoutBuffer<B>)
        ensures
            r.buffer is None,
            r.framebuffer is None,
            r.pitch == 0,
            r.mapping_len == 0,
    {
        ScanoutBuffer { buffer: None, framebuffer: None, pitch: 0, mapping_len: 0 }
    }

    /// Whether the buffer holds no backend resource.
    pub open spec fn is_empty(&self) -> bool {
        self.buffer is None && self.framebuffer is None
    }
}

/// A front and a back buffer for one mode, each with its framebuffer.
pub struct ScanoutAllocation<B: ScanoutBackend> {
    pub mode: B::Mode,
    pub width: u32,
    pub height: u32,
    pub first: ScanoutBuffer<B>,
    pub second: ScanoutBuffer<B>,
    pub pitch: u32,
    pub front_buffer_index: usize,
    pub live_bytes: usize,
    pub released: bool,
}

/// Fills `s` with zero bytes.
fn fill_zero(s: &mut [u8])
    ensures
        final(s)@ == Seq::new(old(s)@.len(), |i: int| 0u8),
{
    let mut i: usize = 0;
    while i < s.len()
        invariant
            0 <= i <= s@.len(),
            s@.len() == old(s)@.len(),
            forall|k: int| 0 <= k < i ==> s@[k] == 0u8,
        decreases s@.len() - i,
    {
        s[i] = 0;
        i = i + 1;
    }
    assert(s@ =~= Seq::new(old(s)@.len(), |i: int| 0u8));
}

/// `c` counted once more when `b`.
pub open spec fn bump_if(c: u64, b: bool) -> u64 {
    if b {
        bump(c)
    } else {
        c
    }
}

/// `s` when `b`, else nothing.
pub open spec fn seq_if<T>(b: bool, s: Seq<T>) -> Seq<T> {
    if b {
        s
    } else {
        Seq::empty()
    }
}

/// The step and buffer index of each cleanup failure.
pub open spec fn failure_keys<E>(failures: Seq<CleanupFailure<E>>) -> Seq<(CleanupStep, usize)> {
    failures.map_values(|f: CleanupFailure<E>| (f.step, f.index))
}

/// The failures a release reports, by step and buffer index.
pub open spec fn release_failure_keys<E>(r: Result<(), Vec<CleanupFailure<E>>>) -> Seq<(CleanupStep, usize)> {
    match r {
        Ok(()) => Seq::empty(),
        Err(failures) => failure_keys(failures@),
    }
}

/// Whether a creation was refused for a zero width or height.
pub open spec fn zero_dimension_failure<T, E>(r: Result<T, CreateError<E>>) -> bool {
    match r {
        Err(e) => e.cause is ZeroDimensions,
        Ok(_) => false,
    }
}

/// The failures a pool release reports, by step and buffer index.
pub open spec fn pool_release_keys<T, E>(r: Result<T, PoolError<E>>) -> Seq<(CleanupStep, usize)> {
    match r {
        Err(PoolError::Release(failures)) => failure_keys(failures@),
        _ => Seq::empty(),
    }
}

/// The identity of the buffer a slot holds, if any.
pub open spec fn held_buffer_ids<B: ScanoutBackend>(sb: ScanoutBuffer<B>) -> Set<u64> {
    match sb.buffer {
        Some(b) => set![B::buffer_id(b)],
        None => Set::empty(),
    }
}

/// The framebuffer a slot holds, if any.
pub open spec fn held_framebuffers<B: ScanoutBackend>(sb: ScanoutBuffer<B>) -> Set<B::Framebuffer> {
    match sb.framebuffer {
        Some(f) => set![f],
        None => Set::empty(),
    }
}

/// Two optional buffers are the same to the backend's model: the same
/// identity, size, pitch and mapping length.
pub open spec fn same_buffer<B: ScanoutBackend>(x: Option<B::Buffer>, y: Option<B::Buffer>) -> bool {
    match (x, y) {
        (Some(a), Some(b)) => B::buffer_id(a) == B::buffer_id(b) && B::buffer_size(a) == B::buffer_size(
            b,
        ) && B::pitch_of(a) == B::pitch_of(b) && B::mapping_len_of(a) == B::mapping_len_of(b),
        (None, None) => true,
        _ => false,
    }
}

/// `after` holds exactly the buffers and framebuffers `before` held, and
/// those of `a`, which were not alive in `before` and are distinct.
pub open spec fn owns_fresh<B: ScanoutBackend>(before: B, after: B, a: ScanoutAllocation<B>) -> bool {
    let ids = held_buffer_ids(a.first).union(held_buffer_ids(a.second));
    let fbs = held_framebuffers(a.first).union(held_framebuffers(a.second));
    &&& after.live_buffers() == before.live_buffers().union(ids)
    &&& before.live_buffers().disjoint(ids)
    &&& after.live_framebuffers() == before.live_framebuffers().union(fbs)
    &&& before.live_framebuffers().disjoint(fbs)
    &&& held_buffer_ids(a.first).disjoint(held_buffer_ids(a.second))
    &&& held_framebuffers(a.first).disjoint(held_framebuffers(a.second))
}

/// `after` is `before` with more calls after it, the first of them `c`.
pub open spec fn begins_with_call<C>(before: Seq<C>, after: Seq<C>, c: C) -> bool {
    &&& extends_calls(before, after)
    &&& after.len() > before.len()
    &&& after[before.len() as int] == c
}

/// `after` is `before` with possibly more calls after it.
pub open spec fn extends_calls<C>(before: Seq<C>, after: Seq<C>) -> bool {
    &&& after.len() >= before.len()
    &&& forall|i: int| 0 <= i < before.len() ==> #[trigger] after[i] == before[i]
}

/// Calls added after a call that began a sequence keep it begun.
proof fn lemma_begun_stays_begun<C>(before: Seq<C>, mid: Seq<C>, after: Seq<C>, c: C)
    requires
        begins_with_call(before, mid, c),
        extends_calls(mid, after),
    ensures
        begins_with_call(before, after, c),
{
    assert(after[before.len() as int] == mid[before.len() as int]);
}

/// Adding calls twice adds calls.
proof fn lemma_extends_twice<C>(before: Seq<C>, mid: Seq<C>, after: Seq<C>)
    requires
        extends_calls(before, mid),
        extends_calls(mid, after),
    ensures
        extends_calls(before, after),
{
    assert forall|i: int| 0 <= i < before.len() implies #[trigger] after[i] == before[i] by {
        assert(after[i] == mid[i]);
    }
}

/// The calls a successful creation of `width` x `height` buffers makes:
/// create and add a framebuffer for each buffer, then map both.
pub open spec fn creation_calls<B: ScanoutBackend>(width: u32, height: u32, first: u64, second: u64) -> Seq<
    BackendCall<B::Framebuffer, B::Mode>,
> {
    seq![
        BackendCall::CreateBuffer { width, height },
        BackendCall::AddFramebuffer { buffer: first },
        BackendCall::CreateBuffer { width, height },
        BackendCall::AddFramebuffer { buffer: second },
        BackendCall::MapBuffer { buffer: first },
        BackendCall::MapBuffer { buffer: second },
    ]
}

/// `s` without `x` when `b`.
pub open spec fn minus_if<T>(s: Set<T>, b: bool, x: T) -> Set<T> {
    if b {
        s.remove(x)
    } else {
        s
    }
}

/// The calls a release of `a` makes, in order: remove the second, then the
/// first framebuffer, destroy the second, then the first buffer, each for a
/// resource `a` holds.
pub open spec fn release_calls<B: ScanoutBackend>(a: ScanoutAllocation<B>) -> Seq<
    BackendCall<B::Framebuffer, B::Mode>,
> {
    seq_if(
        a.second.framebuffer is Some,
        seq![BackendCall::RemoveFramebuffer { framebuffer: a.second.framebuffer.unwrap() }],
    ) + seq_if(
        a.first.framebuffer is Some,
        seq![BackendCall::RemoveFramebuffer { framebuffer: a.first.framebuffer.unwrap() }],
    ) + seq_if(
        a.second.buffer is Some,
        seq![BackendCall::DestroyBuffer { buffer: B::buffer_id(a.second.buffer.unwrap()) }],
    ) + seq_if(
        a.first.buffer is Some,
        seq![BackendCall::DestroyBuffer { buffer: B::buffer_id(a.first.buffer.unwrap()) }],
    )
}

/// The backend after a release of `a` whose calls succeeded as `ok` says:
/// exactly the release's calls were made, and each resource whose call
/// succeeded is no longer alive.
pub open spec fn release_backend_record<B: ScanoutBackend>(
    a: ScanoutAllocation<B>,
    ok: (bool, bool, bool, bool),
    before: B,
    after: B,
) -> bool {
    &&& after.calls() == before.calls() + release_calls(a)
    &&& after.live_framebuffers() == minus_if(
        minus_if(
            before.live_framebuffers(),
            a.second.framebuffer is Some && ok.0,
            a.second.framebuffer.unwrap(),
        ),
        a.first.framebuffer is Some && ok.1,
        a.first.framebuffer.unwrap(),
    )
    &&& after.live_buffers() == minus_if(
        minus_if(
            before.live_buffers(),
            a.second.buffer is Some && ok.2,
            B::buffer_id(a.second.buffer.unwrap()),
        ),
        a.first.buffer is Some && ok.3,
        B::buffer_id(a.first.buffer.unwrap()),
    )
}

/// Releasing, with no failure, what an allocation made fresh leaves the
/// backend's live resources as they were before it was made.
pub(crate) proof fn lemma_clean_release_restores<B: ScanoutBackend>(
    a: ScanoutAllocation<B>,
    ok: (bool, bool, bool, bool),
    before: B,
    made: B,
    after: B,
    counts_before: ScanoutCounterSnapshot,
    counts_after: ScanoutCounterSnapshot,
)
    requires
        owns_fresh(before, made, a),
        release_record(a, ok, Seq::empty(), counts_before, counts_after),
        release_backend_record(a, ok, made, after),
    ensures
        after.live_buffers() == before.live_buffers(),
        after.live_framebuffers() == before.live_framebuffers(),
{
    let e = Seq::<(CleanupStep, usize)>::empty();
    if a.second.framebuffer is Some && !ok.0 {
        assert(e.len() > 0);
    }
    if a.first.framebuffer is Some && !ok.1 {
        assert(e.len() > 0);
    }
    if a.second.buffer is Some && !ok.2 {
        assert(e.len() > 0);
    }
    if a.first.buffer is Some && !ok.3 {
        assert(e.len() > 0);
    }
    assert(after.live_buffers() =~= before.live_buffers());
    assert(after.live_framebuffers() =~= before.live_framebuffers());
}

/// A release of `a` whose four backend calls, in order (remove the second
/// then the first framebuffer, destroy the second then the first buffer;
/// each made only for a resource `a` holds) succeeded as `ok` says: it
/// reports exactly the failed calls in that order, counts each successful
/// call, and counts the release.
pub open spec fn release_record<B: ScanoutBackend>(
    a: ScanoutAllocation<B>,
    ok: (bool, bool, bool, bool),
    failures: Seq<(CleanupStep, usize)>,
    before: ScanoutCounterSnapshot,
    after: ScanoutCounterSnapshot,
) -> bool {
    let f1 = a.second.framebuffer is Some;
    let f0 = a.first.framebuffer is Some;
    let b1 = a.second.buffer is Some;
    let b0 = a.first.buffer is Some;
    &&& failures == seq_if(f1 && !ok.0, seq![(CleanupStep::RemoveFramebuffer, 1usize)])
        + seq_if(f0 && !ok.1, seq![(CleanupStep::RemoveFramebuffer, 0usize)])
        + seq_if(b1 && !ok.2, seq![(CleanupStep::DestroyBuffer, 1usize)])
        + seq_if(b0 && !ok.3, seq![(CleanupStep::DestroyBuffer, 0usize)])
    &&& after == (ScanoutCounterSnapshot {
        framebuffer_removes: bump_if(bump_if(before.framebuffer_removes, f1 && ok.0), f0 && ok.1),
        dumb_buffer_destroys: bump_if(bump_if(before.dumb_buffer_destroys, b1 && ok.2), b0 && ok.3),
        releases: bump(before.releases),
        ..before
    })
}

impl<B: ScanoutBackend> ScanoutAllocation<B> {
    /// The allocation holds no backend resource.
    pub open spec fn holds_nothing(&self) -> bool {
        self.first.is_empty() && self.second.is_empty()
    }

    /// The errors the steps after the dimension check can end with.
    pub open spec fn is_build_error(e: ScanoutError<B::Error>) -> bool {
        match e {
            ScanoutError::CreateBuffer { index, .. } => index < 2,
            ScanoutError::AddFramebuffer { index, .. } => index < 2,
            ScanoutError::PitchMismatch { first, second } => first != second,
            ScanoutError::MapBuffer { index, .. } => index < 2,
            ScanoutError::MappingAccountingOverflow => true,
            _ => false,
        }
    }

    /// Creates both buffers of `mode` with their framebuffers, checks that
    /// their pitches agree, maps and clears them, and records the mapped
    /// sizes. If any step fails, whatever was made is released before the
    /// error is returned, and the cleanup's own failures come with it.
    pub fn create(backend: &mut B, mode: B::Mode, counters: &mut ScanoutCounters) -> (r: Result<
        ScanoutAllocation<B>,
        CreateError<B::Error>,
    >)
        ensures
            r matches Ok(a) ==> {
                &&& a.mode == mode
                &&& !a.released
                &&& a.width > 0 && a.height > 0
                &&& a.first.buffer is Some && a.first.framebuffer is Some
                &&& a.second.buffer is Some && a.second.framebuffer is Some
                &&& a.first.pitch == a.second.pitch && a.pitch == a.first.pitch
                &&& a.front_buffer_index == 0
                &&& a.live_bytes == a.first.mapping_len + a.second.mapping_len
                &&& final(counters).counts == (ScanoutCounterSnapshot {
                    allocations: bump(old(counters).counts.allocations),
                    maps: bump(bump(old(counters).counts.maps)),
                    unmaps: bump(bump(old(counters).counts.unmaps)),
                    ..old(counters).counts
                })
            },
            r is Err ==> final(counters).counts.allocations == old(counters).counts.allocations,
            r matches Err(e) ==> e.cause is ZeroDimensions || Self::is_build_error(e.cause),
            r matches Err(e) ==> (e.cause is ZeroDimensions ==> e.cleanup@.len() == 0
                && *final(counters) == *old(counters)),
            final(counters).counts.switches == old(counters).counts.switches,
            final(counters).counts.no_ops == old(counters).counts.no_ops,
            final(counters).counts.fallbacks == old(counters).counts.fallbacks,
            r matches Ok(a) ==> {
                let b0 = a.first.buffer.unwrap();
                let b1 = a.second.buffer.unwrap();
                let size = old(backend).size_of_mode(mode);
                &&& (a.width, a.height) == size
                &&& owns_fresh(*old(backend), *final(backend), a)
                &&& final(backend).calls() == old(backend).calls() + creation_calls::<B>(
                    size.0,
                    size.1,
                    B::buffer_id(b0),
                    B::buffer_id(b1),
                )
                &&& B::buffer_size(b0) == size && B::buffer_size(b1) == size
                &&& a.pitch == B::pitch_of(b0) && a.pitch == B::pitch_of(b1)
                &&& a.first.mapping_len == B::mapping_len_of(b0)
                &&& a.second.mapping_len == B::mapping_len_of(b1)
                &&& B::contents(b0) == Seq::new(B::mapping_len_of(b0) as nat, |i: int| 0u8)
                &&& B::contents(b1) == Seq::new(B::mapping_len_of(b1) as nat, |i: int| 0u8)
            },
            zero_dimension_failure(r) <==> (old(backend).size_of_mode(mode).0 == 0 || old(
                backend,
            ).size_of_mode(mode).1 == 0),
            zero_dimension_failure(r) ==> *final(backend) == *old(backend),
            !zero_dimension_failure(r) ==> begins_with_call(
                old(backend).calls(),
                final(backend).calls(),
                BackendCall::CreateBuffer {
                    width: old(backend).size_of_mode(mode).0,
                    height: old(backend).size_of_mode(mode).1,
                },
            ),
            r matches Err(e) ==> (e.cleanup@.len() == 0 ==> final(backend).live_buffers() == old(
                backend,
            ).live_buffers() && final(backend).live_framebuffers() == old(backend).live_framebuffers()),
    {
        let (width, height) = backend.mode_size(mode);
        Self::create_with_size(backend, mode, width, height, counters)
    }

    /// The steps of `create` once the backend has reported the mode's size:
    /// a zero width or height is refused before any backend call.
    pub fn create_with_size(
        backend: &mut B,
        mode: B::Mode,
        width: u32,
        height: u32,
        counters: &mut ScanoutCounters,
    ) -> (r: Result<ScanoutAllocation<B>, CreateError<B::Error>>)
        ensures
            zero_dimension_failure(r) <==> (width == 0 || height == 0),
            width == 0 || height == 0 ==> {
                &&& r matches Err(e) && e.cleanup@.len() == 0
                &&& *final(counters) == *old(counters)
                &&& *final(backend) == *old(backend)
            },
            r matches Ok(a) ==> {
                &&& a.mode == mode
                &&& a.width == width && a.height == height
                &&& !a.released
                &&& a.first.buffer is Some && a.first.framebuffer is Some
                &&& a.second.buffer is Some && a.second.framebuffer is Some
                &&& a.first.pitch == a.second.pitch && a.pitch == a.first.pitch
                &&& a.front_buffer_index == 0
                &&& a.live_bytes == a.first.mapping_len + a.second.mapping_len
                &&& final(counters).counts == (ScanoutCounterSnapshot {
                    allocations: bump(old(counters).counts.allocations),
                    maps: bump(bump(old(counters).counts.maps)),
                    unmaps: bump(bump(old(counters).counts.unmaps)),
                    ..old(counters).counts
                })
            },
            r is Err ==> final(counters).counts.allocations == old(counters).counts.allocations,
            r matches Err(e) ==> e.cause is ZeroDimensions || Self::is_build_error(e.cause),
            final(counters).counts.switches == old(counters).counts.switches,
            final(counters).counts.no_ops == old(counters).counts.no_ops,
            final(counters).counts.fallbacks == old(counters).counts.fallbacks,
            r matches Ok(a) ==> {
                let b0 = a.first.buffer.unwrap();
                let b1 = a.second.buffer.unwrap();
                &&& owns_fresh(*old(backend), *final(backend), a)
                &&& final(backend).calls() == old(backend).calls() + creation_calls::<B>(
                    width,
                    height,
                    B::buffer_id(b0),
                    B::buffer_id(b1),
                )
                &&& B::buffer_size(b0) == (width, height) && B::buffer_size(b1) == (width, height)
                &&& a.pitch == B::pitch_of(b0) && a.pitch == B::pitch_of(b1)
                &&& a.first.mapping_len == B::mapping_len_of(b0)
                &&& a.second.mapping_len == B::mapping_len_of(b1)
                &&& B::contents(b0) == Seq::new(B::mapping_len_of(b0) as nat, |i: int| 0u8)
                &&& B::contents(b1) == Seq::new(B::mapping_len_of(b1) as nat, |i: int| 0u8)
            },
            r matches Err(e) ==> (e.cleanup@.len() == 0 ==> final(backend).live_buffers() == old(
                backend,
            ).live_buffers() && final(backend).live_framebuffers() == old(backend).live_framebuffers()),
            width > 0 && height > 0 ==> begins_with_call(
                old(backend).calls(),
                final(backend).calls(),
                BackendCall::CreateBuffer { width, height },
            ),
    {
        if width == 0 || height == 0 {
            return Err(CreateError { cause: ScanoutError::ZeroDimensions, cleanup: Vec::new() });
        }
        let mut allocation = ScanoutAllocation {
            mode,
            width,
            height,
            first: ScanoutBuffer::empty(),
            second: ScanoutBuffer::empty(),
            pitch: 0,
            front_buffer_index: 0,
            live_bytes: 0,
            released: false,
        };
        let ghost be0 = *backend;
        match allocation.build(backend, counters) {
            Ok(()) => {
                counters.allocation();
                Ok(allocation)
            },
            Err(cause) => {
                let ghost made = *backend;
                let ghost held = allocation;
                let ghost counts_made = counters.counts;
                let released = allocation.release(backend, counters);
                proof {
                    lemma_begun_stays_begun(
                        be0.calls(),
                        made.calls(),
                        backend.calls(),
                        BackendCall::CreateBuffer { width, height },
                    );
                    if released is Ok {
                        let ok = choose|ok: (bool, bool, bool, bool)|
                            #[trigger] release_record(held, ok, release_failure_keys(released), counts_made, counters.counts)
                            && release_backend_record(held, ok, made, *backend);
                        lemma_clean_release_restores(held, ok, be0, made, *backend, counts_made, counters.counts);
                    }
                }
                let cleanup = match released {
                    Ok(()) => Vec::new(),
                    Err(failures) => failures,
                };
                Err(CreateError { cause, cleanup })
            },
        }
    }

    /// Makes one buffer and its framebuffer.
    fn build_buffer(
        backend: &mut B,
        slot: &mut ScanoutBuffer<B>,
        index: usize,
        width: u32,
        height: u32,
    ) -> (r: Result<(), ScanoutError<B::Error>>)
        requires
            old(slot).buffer is None,
            old(slot).framebuffer is None,
        ensures
            r is Ok ==> final(slot).buffer is Some && final(slot).framebuffer is Some,
            final(slot).mapping_len == old(slot).mapping_len,
            final(slot).framebuffer is Some ==> final(slot).buffer is Some,
            final(backend).live_buffers() == old(backend).live_buffers().union(held_buffer_ids(*final(slot))),
            old(backend).live_buffers().disjoint(held_buffer_ids(*final(slot))),
            final(backend).live_framebuffers() == old(backend).live_framebuffers().union(held_framebuffers(*final(slot))),
            old(backend).live_framebuffers().disjoint(held_framebuffers(*final(slot))),
            final(slot).buffer matches Some(b) ==> B::buffer_size(b) == (width, height)
                && final(slot).pitch == B::pitch_of(b),
            r matches Err(ScanoutError::CreateBuffer { .. }) ==> final(backend).calls() == old(backend).calls().push(
                BackendCall::CreateBuffer { width, height },
            ),
            !(r matches Err(ScanoutError::CreateBuffer { .. })) ==> final(backend).calls() == old(backend).calls()
                + seq![
                BackendCall::CreateBuffer { width, height },
                BackendCall::AddFramebuffer { buffer: B::buffer_id(final(slot).buffer.unwrap()) },
            ],
            r is Err ==> (r matches Err(ScanoutError::CreateBuffer { index: i, .. }) && i == index
                && *final(slot) == *old(slot)) || (r matches Err(
                ScanoutError::AddFramebuffer { index: i, .. },
            ) && i == index && final(slot).buffer is Some && final(slot).framebuffer
                == old(slot).framebuffer),
    {
        let buffer = match backend.create_buffer(width, height) {
            Ok(b) => b,
            Err(error) => return Err(ScanoutError::CreateBuffer { index, error }),
        };
        slot.pitch = backend.buffer_pitch(&buffer);
        slot.buffer = Some(buffer);
        let framebuffer = match &slot.buffer {
            Some(b) => match backend.add_framebuffer(b) {
                Ok(f) => f,
                Err(error) => return Err(ScanoutError::AddFramebuffer { index, error }),
            },
            None => return Err(ScanoutError::BufferMissing { index }),
        };
        slot.framebuffer = Some(framebuffer);
        Ok(())
    }

    /// The steps of `create` after the dimensions were checked.
    fn build(&mut self, backend: &mut B, counters: &mut ScanoutCounters) -> (r: Result<
        (),
        ScanoutError<B::Error>,
    >)
        requires
            !old(self).released,
            old(self).front_buffer_index == 0,
            old(self).holds_nothing(),
        ensures
            owns_fresh(*old(backend), *final(backend), *final(self)),
            begins_with_call(
                old(backend).calls(),
                final(backend).calls(),
                BackendCall::CreateBuffer { width: old(self).width, height: old(self).height },
            ),
            final(self).first.framebuffer is Some ==> final(self).first.buffer is Some,
            final(self).second.framebuffer is Some ==> final(self).second.buffer is Some,
            r is Ok ==> {
                let b0 = final(self).first.buffer.unwrap();
                let b1 = final(self).second.buffer.unwrap();
                &&& final(backend).calls() == old(backend).calls() + creation_calls::<B>(
                    old(self).width,
                    old(self).height,
                    B::buffer_id(b0),
                    B::buffer_id(b1),
                )
                &&& B::buffer_size(b0) == (old(self).width, old(self).height)
                &&& B::buffer_size(b1) == (old(self).width, old(self).height)
                &&& final(self).pitch == B::pitch_of(b0) && final(self).pitch == B::pitch_of(b1)
                &&& final(self).first.mapping_len == B::mapping_len_of(b0)
                &&& final(self).second.mapping_len == B::mapping_len_of(b1)
                &&& B::contents(b0) == Seq::new(B::mapping_len_of(b0) as nat, |i: int| 0u8)
                &&& B::contents(b1) == Seq::new(B::mapping_len_of(b1) as nat, |i: int| 0u8)
            },
            r matches Err(ScanoutError::PitchMismatch { first, second }) ==> first == B::pitch_of(
                final(self).first.buffer.unwrap(),
            ) && second == B::pitch_of(final(self).second.buffer.unwrap()),
            final(self).mode == old(self).mode,
            final(self).width == old(self).width,
            final(self).height == old(self).height,
            final(self).front_buffer_index == 0,
            !final(self).released,
            r is Ok ==> {
                &&& final(self).first.buffer is Some && final(self).first.framebuffer is Some
                &&& final(self).second.buffer is Some && final(self).second.framebuffer is Some
                &&& final(self).first.pitch == final(self).second.pitch
                &&& final(self).pitch == final(self).first.pitch
                &&& final(self).live_bytes == final(self).first.mapping_len
                    + final(self).second.mapping_len
            },
            r matches Err(e) ==> Self::is_build_error(e),
            r is Ok ==> final(counters).counts == (ScanoutCounterSnapshot {
                maps: bump(bump(old(counters).counts.maps)),
                unmaps: bump(bump(old(counters).counts.unmaps)),
                ..old(counters).counts
            }),
            r matches Err(ScanoutError::PitchMismatch { first, second }) ==> first
                == final(self).first.pitch && second == final(self).second.pitch,
            final(counters).counts.allocations == old(counters).counts.allocations,
            final(counters).counts.switches == old(counters).counts.switches,
            final(counters).counts.no_ops == old(counters).counts.no_ops,
            final(counters).counts.fallbacks == old(counters).counts.fallbacks,
    {
        let ghost be0 = *backend;
        let r1 = Self::build_buffer(backend, &mut self.first, 0, self.width, self.height);
        proof {
            assert(held_buffer_ids(self.second) =~= Set::<u64>::empty());
            assert(held_framebuffers(self.second) =~= Set::<B::Framebuffer>::empty());
            let ids = held_buffer_ids(self.first).union(held_buffer_ids(self.second));
            let fbs = held_framebuffers(self.first).union(held_framebuffers(self.second));
            assert(ids =~= held_buffer_ids(self.first));
            assert(fbs =~= held_framebuffers(self.first));
            assert(owns_fresh(be0, *backend, *self));
        }
        r1?;
        let ghost be1 = *backend;
        let r2 = Self::build_buffer(backend, &mut self.second, 1, self.width, self.height);
        proof {
            let i0 = held_buffer_ids(self.first);
            let i1 = held_buffer_ids(self.second);
            let f0 = held_framebuffers(self.first);
            let f1 = held_framebuffers(self.second);
            assert(be1.live_buffers() == be0.live_buffers().union(i0));
            assert(be1.live_framebuffers() == be0.live_framebuffers().union(f0));
            assert(i0.disjoint(i1)) by {
                assert forall|x: u64| i0.contains(x) implies !i1.contains(x) by {
                    assert(be1.live_buffers().contains(x));
                }
            }
            assert(f0.disjoint(f1)) by {
                assert forall|x: B::Framebuffer| f0.contains(x) implies !f1.contains(x) by {
                    assert(be1.live_framebuffers().contains(x));
                }
            }
            assert(backend.live_buffers() =~= be0.live_buffers().union(i0.union(i1)));
            assert(backend.live_framebuffers() =~= be0.live_framebuffers().union(f0.union(f1)));
            assert(be0.live_buffers().disjoint(i0.union(i1))) by {
                assert forall|x: u64| be0.live_buffers().contains(x) implies !i0.union(i1).contains(x) by {
                    assert(be1.live_buffers().contains(x));
                }
            }
            assert(be0.live_framebuffers().disjoint(f0.union(f1))) by {
                assert forall|x: B::Framebuffer| be0.live_framebuffers().contains(x) implies !f0.union(f1).contains(x) by {
                    assert(be1.live_framebuffers().contains(x));
                }
            }
            assert(owns_fresh(be0, *backend, *self));
        }
        r2?;
        if self.first.pitch != self.second.pitch {
            return Err(
                ScanoutError::PitchMismatch { first: self.first.pitch, second: self.second.pitch },
            );
        }
        self.pitch = self.first.pitch;
        let lengths = {
            let mut mapped = self.map(backend, counters)?;
            let ghost len0 = mapped.first@.len();
            let ghost len1 = mapped.second@.len();
            fill_zero(mapped.buffer_mut(0));
            assert(mapped.first@ == Seq::new(len0, |i: int| 0u8));
            fill_zero(mapped.buffer_mut(1));
            assert(mapped.first@ == Seq::new(len0, |i: int| 0u8));
            assert(mapped.second@ == Seq::new(len1, |i: int| 0u8));
            let lengths = mapped.mapping_lengths();
            mapped.unmap(counters);
            lengths
        };
        assert(B::contents(self.first.buffer.unwrap()) == Seq::new(
            B::mapping_len_of(self.first.buffer.unwrap()) as nat,
            |i: int| 0u8,
        ));
        assert(B::contents(self.second.buffer.unwrap()) == Seq::new(
            B::mapping_len_of(self.second.buffer.unwrap()) as nat,
            |i: int| 0u8,
        ));
        let total = match lengths[0].checked_add(lengths[1]) {
            Some(t) => t,
            None => return Err(ScanoutError::MappingAccountingOverflow),
        };
        self.live_bytes = total;
        self.first.mapping_len = lengths[0];
        self.second.mapping_len = lengths[1];
        Ok(())
    }

    /// The mode the allocation was made for.
    pub fn mode(&self) -> (r: B::Mode)
        ensures
            r == self.mode,
    {
        self.mode
    }

    /// Width and height in pixels.
    pub fn size(&self) -> (r: (u32, u32))
        ensures
            r == (self.width, self.height),
    {
        (self.width, self.height)
    }

    /// Bytes between row starts.
    pub fn pitch(&self) -> (r: u32)
        ensures
            r == self.pitch,
    {
        self.pitch
    }

    /// The mapped size of each buffer.
    pub fn mapping_lengths(&self) -> (r: [usize; 2])
        ensures
            r@ == seq![self.first.mapping_len, self.second.mapping_len],
    {
        [self.first.mapping_len, self.second.mapping_len]
    }

    /// The bytes the allocation keeps mapped.
    pub fn live_bytes(&self) -> (r: usize)
        ensures
            r == self.live_bytes,
    {
        self.live_bytes
    }

    /// Marks both framebuffers as changed over the whole mode, trying each
    /// one even when the other fails; the failures are returned together.
    pub fn flush_black_initialization(&self, backend: &mut B) -> (r: Result<
        (),
        Vec<CleanupFailure<B::Error>>,
    >)
        ensures
            self.first.framebuffer is None && self.second.framebuffer is None ==> r is Ok,
            extends_calls(old(backend).calls(), final(backend).calls()),
            r matches Err(failures) ==> {
                &&& 0 < failures@.len() <= 2
                &&& forall|i: int|
                    #![trigger failures@[i]]
                    0 <= i < failures@.len() ==> {
                        &&& failures@[i].step == CleanupStep::FlushFramebuffer
                        &&& failures@[i].index < 2
                        &&& failures@[i].index == 0 ==> self.first.framebuffer is Some
                        &&& failures@[i].index == 1 ==> self.second.framebuffer is Some
                    }
                &&& forall|i: int, j: int|
                    0 <= i < j < failures@.len() ==> failures@[i].index < failures@[j].index
            },
    {
        let mut failures: Vec<CleanupFailure<B::Error>> = Vec::new();
        let width = #[verifier::truncate] (self.width as u16);
        let height = #[verifier::truncate] (self.height as u16);
        if let Some(framebuffer) = self.first.framebuffer {
            if let Err(error) = backend.dirty_framebuffer(framebuffer, 0, 0, width, height) {
                failures.push(CleanupFailure { step: CleanupStep::FlushFramebuffer, index: 0, error });
            }
        }
        if let Some(framebuffer) = self.second.framebuffer {
            if let Err(error) = backend.dirty_framebuffer(framebuffer, 0, 0, width, height) {
                failures.push(CleanupFailure { step: CleanupStep::FlushFramebuffer, index: 1, error });
            }
        }
        if failures.len() == 0 {
            Ok(())
        } else {
            Err(failures)
        }
    }

    /// Maps both buffers for writing. A released allocation cannot be
    /// mapped. The front buffer index is shared with the mapping, so a change
    /// made through it stays with the allocation.
    pub fn map<'a>(&'a mut self, backend: &mut B, counters: &mut ScanoutCounters) -> (r: Result<
        MappedActive<'a, B>,
        ScanoutError<B::Error>,
    >)
        ensures
            old(self).released ==> r matches Err(ScanoutError::MapReleased),
            r matches Ok(m) ==> {
                &&& *m.front_buffer_index == old(self).front_buffer_index
                &&& final(self).front_buffer_index == *final(m.front_buffer_index)
                &&& m.mode == old(self).mode
                &&& m.width == old(self).width
                &&& m.height == old(self).height
                &&& m.pitch == old(self).pitch
                &&& m.mapping_lengths@ == seq![m.first@.len() as usize, m.second@.len() as usize]
                &&& m.framebuffers@ == seq![
                    old(self).first.framebuffer.unwrap(),
                    old(self).second.framebuffer.unwrap(),
                ]
            },
            r is Err ==> final(self).front_buffer_index == old(self).front_buffer_index,
            r is Ok ==> final(counters).counts == (ScanoutCounterSnapshot {
                maps: bump(bump(old(counters).counts.maps)),
                ..old(counters).counts
            }),
            !old(self).released && old(self).first.buffer is Some && old(self).second.buffer is Some
                && old(self).first.framebuffer is Some && old(self).second.framebuffer is Some
                && r is Err ==> (r matches Err(ScanoutError::MapBuffer { index, .. }) && index < 2),
            final(self).mode == old(self).mode,
            final(self).width == old(self).width,
            final(self).height == old(self).height,
            final(self).pitch == old(self).pitch,
            final(self).released == old(self).released,
            final(self).live_bytes == old(self).live_bytes,
            final(self).first.mapping_len == old(self).first.mapping_len,
            final(self).second.mapping_len == old(self).second.mapping_len,
            final(self).first.framebuffer == old(self).first.framebuffer,
            final(self).second.framebuffer == old(self).second.framebuffer,
            final(self).first.pitch == old(self).first.pitch,
            final(self).second.pitch == old(self).second.pitch,
            final(self).first.buffer is Some <==> old(self).first.buffer is Some,
            final(self).second.buffer is Some <==> old(self).second.buffer is Some,
            final(counters).counts.allocations == old(counters).counts.allocations,
            final(counters).counts.switches == old(counters).counts.switches,
            final(counters).counts.no_ops == old(counters).counts.no_ops,
            final(counters).counts.fallbacks == old(counters).counts.fallbacks,
            final(backend).live_buffers() == old(backend).live_buffers(),
            final(backend).live_framebuffers() == old(backend).live_framebuffers(),
            extends_calls(old(backend).calls(), final(backend).calls()),
            same_buffer::<B>(final(self).first.buffer, old(self).first.buffer),
            same_buffer::<B>(final(self).second.buffer, old(self).second.buffer),
            r is Ok ==> final(backend).calls() == old(backend).calls() + seq![
                BackendCall::MapBuffer { buffer: B::buffer_id(old(self).first.buffer.unwrap()) },
                BackendCall::MapBuffer { buffer: B::buffer_id(old(self).second.buffer.unwrap()) },
            ],
            r matches Ok(m) ==> m.first@.len() == B::mapping_len_of(old(self).first.buffer.unwrap())
                && m.second@.len() == B::mapping_len_of(old(self).second.buffer.unwrap()),
            r matches Ok(m) ==> B::contents(final(self).first.buffer.unwrap()) == final(m.first)@
                && B::contents(final(self).second.buffer.unwrap()) == final(m.second)@,
    {
        if self.released {
            return Err(ScanoutError::MapReleased);
        }
        let first_framebuffer = match self.first.framebuffer {
            Some(f) => f,
            None => return Err(ScanoutError::FramebufferMissing { index: 0 }),
        };
        let second_framebuffer = match self.second.framebuffer {
            Some(f) => f,
            None => return Err(ScanoutError::FramebufferMissing { index: 1 }),
        };
        let first = match &mut self.first.buffer {
            Some(b) => match backend.map_buffer(b) {
                Ok(m) => m,
                Err(error) => return Err(ScanoutError::MapBuffer { index: 0, error }),
            },
            None => return Err(ScanoutError::BufferMissing { index: 0 }),
        };
        counters.map();
        let second = match &mut self.second.buffer {
            Some(b) => match backend.map_buffer(b) {
                Ok(m) => m,
                Err(error) => {
                    counters.unmap();
                    return Err(ScanoutError::MapBuffer { index: 1, error });
                },
            },
            None => {
                counters.unmap();
                return Err(ScanoutError::BufferMissing { index: 1 });
            },
        };
        counters.map();
        let mapping_lengths = [first.len(), second.len()];
        Ok(
            MappedActive {
                first,
                second,
                framebuffers: [first_framebuffer, second_framebuffer],
                mapping_lengths,
                pitch: self.pitch,
                width: self.width,
                height: self.height,
                mode: self.mode,
                front_buffer_index: &mut self.front_buffer_index,
            },
        )
    }

    /// Removes both framebuffers, then destroys both buffers, each step tried
    /// even when an earlier one failed; the failures are returned together.
    /// Releasing twice does nothing the second time.
    #[verifier::spinoff_prover]
    #[verifier::rlimit(80)]
    pub fn release(&mut self, backend: &mut B, counters: &mut ScanoutCounters) -> (r: Result<
        (),
        Vec<CleanupFailure<B::Error>>,
    >)
        ensures
            old(self).released ==> r is Ok && *final(backend) == *old(backend) && final(counters).counts == old(counters).counts,
            old(self).released ==> final(self).holds_nothing() == old(self).holds_nothing(),
            !old(self).released ==> final(self).holds_nothing() && final(self).live_bytes == 0
                && final(counters).counts.releases == bump(old(counters).counts.releases),
            !old(self).released ==> exists|ok: (bool, bool, bool, bool)|
                #[trigger] release_record(*old(self), ok, release_failure_keys(r), old(counters).counts, final(counters).counts)
                && release_backend_record(*old(self), ok, *old(backend), *final(backend)),
            final(self).released,
            extends_calls(old(backend).calls(), final(backend).calls()),
            r matches Err(failures) ==> failures@.len() > 0,
            final(self).mode == old(self).mode,
            final(self).width == old(self).width,
            final(self).height == old(self).height,
            final(self).front_buffer_index == old(self).front_buffer_index,
            final(counters).counts.allocations == old(counters).counts.allocations,
            final(counters).counts.switches == old(counters).counts.switches,
            final(counters).counts.no_ops == old(counters).counts.no_ops,
            final(counters).counts.fallbacks == old(counters).counts.fallbacks,
    {
        if self.released {
            return Ok(());
        }
        let ghost a0 = *self;
        let ghost c0 = counters.counts;
        let ghost be0 = *backend;
        let ghost mut ok: (bool, bool, bool, bool) = (true, true, true, true);
        self.released = true;
        let mut failures: Vec<CleanupFailure<B::Error>> = Vec::new();
        if let Some(framebuffer) = self.second.framebuffer.take() {
            match backend.remove_framebuffer(framebuffer) {
                Ok(()) => counters.framebuffer_remove(),
                Err(error) => {
                    failures.push(
                        CleanupFailure { step: CleanupStep::RemoveFramebuffer, index: 1, error },
                    );
                    proof {
                        ok.0 = false;
                    }
                },
            }
        }
        assert(failure_keys(failures@) == seq_if(
            a0.second.framebuffer is Some && !ok.0,
            seq![(CleanupStep::RemoveFramebuffer, 1usize)],
        ));
        let ghost k1 = failure_keys(failures@);
        assert(backend.calls() == be0.calls() + seq_if(
            a0.second.framebuffer is Some,
            seq![BackendCall::RemoveFramebuffer { framebuffer: a0.second.framebuffer.unwrap() }],
        ));
        assert(backend.live_framebuffers() == minus_if(
            be0.live_framebuffers(),
            a0.second.framebuffer is Some && ok.0,
            a0.second.framebuffer.unwrap(),
        ));
        assert(backend.live_buffers() == be0.live_buffers());
        let ghost be1 = *backend;
        if let Some(framebuffer) = self.first.framebuffer.take() {
            match backend.remove_framebuffer(framebuffer) {
                Ok(()) => counters.framebuffer_remove(),
                Err(error) => {
                    failures.push(
                        CleanupFailure { step: CleanupStep::RemoveFramebuffer, index: 0, error },
                    );
                    proof {
                        ok.1 = false;
                    }
                },
            }
        }
        assert(failure_keys(failures@) == k1 + seq_if(
            a0.first.framebuffer is Some && !ok.1,
            seq![(CleanupStep::RemoveFramebuffer, 0usize)],
        ));
        let ghost k2 = failure_keys(failures@);
        assert(backend.calls() == be1.calls() + seq_if(
            a0.first.framebuffer is Some,
            seq![BackendCall::RemoveFramebuffer { framebuffer: a0.first.framebuffer.unwrap() }],
        ));
        assert(backend.live_framebuffers() == minus_if(
            be1.live_framebuffers(),
            a0.first.framebuffer is Some && ok.1,
            a0.first.framebuffer.unwrap(),
        ));
        assert(backend.live_buffers() == be0.live_buffers());
        let ghost be2 = *backend;
        if let Some(buffer) = self.second.buffer.take() {
            match backend.destroy_buffer(buffer) {
                Ok(()) => counters.dumb_buffer_destroy(),
                Err(error) => {
                    failures.push(
                        CleanupFailure { step: CleanupStep::DestroyBuffer, index: 1, error },
                    );
                    proof {
                        ok.2 = false;
                    }
                },
            }
        }
        assert(failure_keys(failures@) == k2 + seq_if(
            a0.second.buffer is Some && !ok.2,
            seq![(CleanupStep::DestroyBuffer, 1usize)],
        ));
        let ghost k3 = failure_keys(failures@);
        assert(backend.calls() == be2.calls() + seq_if(
            a0.second.buffer is Some,
            seq![BackendCall::DestroyBuffer { buffer: B::buffer_id(a0.second.buffer.unwrap()) }],
        ));
        assert(backend.live_buffers() == minus_if(
            be0.live_buffers(),
            a0.second.buffer is Some && ok.2,
            B::buffer_id(a0.second.buffer.unwrap()),
        ));
        assert(backend.live_framebuffers() == be2.live_framebuffers());
        let ghost be3 = *backend;
        if let Some(buffer) = self.first.buffer.take() {
            match backend.destroy_buffer(buffer) {
                Ok(()) => counters.dumb_buffer_destroy(),
                Err(error) => {
                    failures.push(
                        CleanupFailure { step: CleanupStep::DestroyBuffer, index: 0, error },
                    );
                    proof {
                        ok.3 = false;
                    }
                },
            }
        }
        assert(failure_keys(failures@) == k3 + seq_if(
            a0.first.buffer is Some && !ok.3,
            seq![(CleanupStep::DestroyBuffer, 0usize)],
        ));
        counters.release();
        self.live_bytes = 0;
        let r = if failures.len() == 0 {
            Ok(())
        } else {
            Err(failures)
        };
        assert(backend.calls() == be3.calls() + seq_if(
            a0.first.buffer is Some,
            seq![BackendCall::DestroyBuffer { buffer: B::buffer_id(a0.first.buffer.unwrap()) }],
        ));
        assert(backend.live_buffers() == minus_if(
            be3.live_buffers(),
            a0.first.buffer is Some && ok.3,
            B::buffer_id(a0.first.buffer.unwrap()),
        ));
        assert(backend.live_framebuffers() == be3.live_framebuffers());
        proof {
            assert(release_record(a0, ok, release_failure_keys(r), c0, counters.counts));
            assert(backend.calls() =~= be0.calls() + release_calls(a0));
            assert(release_backend_record(a0, ok, be0, *backend));
        }
        r
    }
}

/// Both buffers of an allocation, mapped for writing.
pub struct MappedActive<'a, B: ScanoutBackend + 'a> {
    pub first: &'a mut [u8],
    pub second: &'a mut [u8],
    pub framebuffers: [B::Framebuffer; 2],
    pub mapping_lengths: [usize; 2],
    pub pitch: u32,
    pub width: u32,
    pub height: u32,
    pub mode: B::Mode,
    pub front_buffer_index: &'a mut usize,
}

impl<'a, B: ScanoutBackend + 'a> MappedActive<'a, B> {
    /// The mode of the allocation.
    pub fn mode(&self) -> (r: B::Mode)
        ensures
            r == self.mode,
    {
        self.mode
    }

    /// Width and height in pixels.
    pub fn size(&self) -> (r: (u32, u32))
        ensures
            r == (self.width, self.height),
    {
        (self.width, self.height)
    }

    /// Bytes between row starts.
    pub fn pitch(&self) -> (r: u32)
        ensures
            r == self.pitch,
    {
        self.pitch
    }

    /// The mapped size of each buffer.
    pub fn mapping_lengths(&self) -> (r: [usize; 2])
        ensures
            r == self.mapping_lengths,
    {
        self.mapping_lengths
    }

    /// Which buffer is scanned out.
    pub fn front_index(&self) -> (r: usize)
        ensures
            r == *old(self.front_buffer_index),
    {
        *self.front_buffer_index
    }

    /// Which buffer is drawn into: the other one.
    pub fn back_index(&self) -> (r: usize)
        ensures
            r == (*old(self.front_buffer_index) ^ 1usize),
    {
        self.front_index() ^ 1
    }

    /// Makes buffer `index` the front buffer.
    pub fn set_front_index(&mut self, index: usize)
        requires
            index < BUFFERS_PER_SCANOUT,
        ensures
            *final(self).front_buffer_index == index,
            final(self).framebuffers == old(self).framebuffers,
            final(self).mapping_lengths == old(self).mapping_lengths,
            final(self).pitch == old(self).pitch,
            final(self).width == old(self).width,
            final(self).height == old(self).height,
            final(self).mode == old(self).mode,
            final(self).first@ == old(self).first@,
            final(self).second@ == old(self).second@,
    {
        *self.front_buffer_index = index;
    }

    /// The framebuffer of buffer `index`.
    pub fn framebuffer(&self, index: usize) -> (r: B::Framebuffer)
        requires
            index < BUFFERS_PER_SCANOUT,
        ensures
            r == self.framebuffers@[index as int],
    {
        self.framebuffers[index]
    }

    /// The framebuffer scanned out.
    pub fn front_framebuffer(&self) -> (r: B::Framebuffer)
        requires
            *old(self.front_buffer_index) < BUFFERS_PER_SCANOUT,
        ensures
            r == self.framebuffers@[*old(self.front_buffer_index) as int],
    {
        self.framebuffer(self.front_index())
    }

    /// The framebuffer drawn into.
    pub fn back_framebuffer(&self) -> (r: B::Framebuffer)
        requires
            *old(self.front_buffer_index) < BUFFERS_PER_SCANOUT,
        ensures
            r == self.framebuffers@[(*old(self.front_buffer_index) ^ 1usize) as int],
    {
        let index = self.back_index();
        let ghost f: usize = *old(self.front_buffer_index);
        assert(f < 2 ==> (f ^ 1usize) < 2) by (bit_vector);
        self.framebuffer(index)
    }

    /// The mapped bytes of buffer `index`.
    pub fn buffer_mut(&mut self, index: usize) -> (r: &mut [u8])
        requires
            index < BUFFERS_PER_SCANOUT,
        ensures
            index == 0 ==> r@ == old(self).first@,
            index == 1 ==> r@ == old(self).second@,
            index == 0 ==> final(self).first@ == final(r)@ && final(self).second@ == old(self).second@,
            index == 1 ==> final(self).second@ == final(r)@ && final(self).first@ == old(self).first@,
            final(final(self).first)@ == final(old(self).first)@,
            final(final(self).second)@ == final(old(self).second)@,
            final(self).front_buffer_index == old(self).front_buffer_index,
            final(self).mapping_lengths == old(self).mapping_lengths,
            final(self).framebuffers == old(self).framebuffers,
    {
        if index == 0 {
            &mut *self.first
        } else {
            &mut *self.second
        }
    }

    /// The mapped bytes of the front buffer.
    pub fn front_buffer_mut(&mut self) -> (r: &mut [u8])
        requires
            *old(self).front_buffer_index < BUFFERS_PER_SCANOUT,
        ensures
            *old(self).front_buffer_index == 0 ==> r@ == old(self).first@,
            *old(self).front_buffer_index == 1 ==> r@ == old(self).second@,
    {
        let index = self.front_index();
        self.buffer_mut(index)
    }

    /// The mapped bytes of the back buffer.
    pub fn back_buffer_mut(&mut self) -> (r: &mut [u8])
        requires
            *old(self).front_buffer_index < BUFFERS_PER_SCANOUT,
        ensures
            *old(self).front_buffer_index == 1 ==> r@ == old(self).first@,
            *old(self).front_buffer_index == 0 ==> r@ == old(self).second@,
    {
        let index = self.back_index();
        let ghost f: usize = *old(self).front_buffer_index;
        assert(f < 2 ==> (f ^ 1usize) < 2 && (f == 0 ==> (f ^ 1usize) == 1) && (f == 1 ==> (f
            ^ 1usize) == 0)) by (bit_vector);
        self.buffer_mut(index)
    }

    /// Ends the mapping of both buffers.
    pub fn unmap(self, counters: &mut ScanoutCounters)
        ensures
            *final(self.front_buffer_index) == *old(self.front_buffer_index),
            final(self.first)@ == old(self.first)@,
            final(self.second)@ == old(self.second)@,
            final(counters).counts == (ScanoutCounterSnapshot {
                unmaps: bump(bump(old(counters).counts.unmaps)),
                ..old(counters).counts
            }),
    {
        counters.unmap();
        counters.unmap();
    }
}

/// Why switching the scanout to a prepared allocation failed.
#[derive(Clone, Debug)]
pub enum SwitchError<E> {
    MapTarget(ScanoutError<E>),
    SetCrtc(E),
}

/// The mapping left scanned out after a switch was attempted.
pub enum MappedSwitch<'old, 'target, B: ScanoutBackend + 'old + 'target> {
    /// The target is scanned out; the old mapping was ended.
    Switched { active: MappedActive<'target, B>, mode_switch_ms: u128 },
    /// The old mapping is kept as it was; the target is not mapped.
    Retained { active: MappedActive<'old, B>, error: SwitchError<B::Error>, mode_switch_ms: u128 },
}

/// Maps the prepared `target` and scans it out in its mode with one modeset.
/// On success the current mapping ends; when mapping or the modeset fails,
/// the current mapping is handed back untouched and the target's mapping, if made,
/// ends.
pub fn attempt_mapped_switch<'old, 'target, B: ScanoutBackend + 'old + 'target>(
    backend: &mut B,
    current: MappedActive<'old, B>,
    target: &'target mut ScanoutAllocation<B>,
    counters: &mut ScanoutCounters,
) -> (r: MappedSwitch<'old, 'target, B>)
    requires
        old(target).front_buffer_index < BUFFERS_PER_SCANOUT,
    ensures
        old(target).released ==> r matches MappedSwitch::Retained {
            error: SwitchError::MapTarget(ScanoutError::MapReleased),
            ..
        },
        r matches MappedSwitch::Switched { active, .. } ==> {
            &&& !old(target).released
            &&& active.mode == old(target).mode
            &&& active.width == old(target).width
            &&& active.height == old(target).height
            &&& active.pitch == old(target).pitch
            &&& *active.front_buffer_index == old(target).front_buffer_index
        },
        r matches MappedSwitch::Retained { active, .. } ==> {
            &&& active.mode == current.mode
            &&& active.width == current.width
            &&& active.height == current.height
            &&& active.pitch == current.pitch
            &&& active.framebuffers == current.framebuffers
            &&& active.first == current.first
            &&& active.second == current.second
            &&& active.front_buffer_index == current.front_buffer_index
        },
{
    let start = crate::clock::monotonic_now();
    let mapped = match target.map(backend, counters) {
        Ok(m) => m,
        Err(error) => {
            return MappedSwitch::Retained {
                active: current,
                error: SwitchError::MapTarget(error),
                mode_switch_ms: crate::clock::millis_since(&start),
            };
        },
    };
    let framebuffer = mapped.front_framebuffer();
    match backend.set_crtc(framebuffer, mapped.mode) {
        Ok(()) => {
            current.unmap(counters);
            MappedSwitch::Switched { active: mapped, mode_switch_ms: crate::clock::millis_since(&start) }
        },
        Err(error) => {
            mapped.unmap(counters);
            MappedSwitch::Retained {
                active: current,
                error: SwitchError::SetCrtc(error),
                mode_switch_ms: crate::clock::millis_since(&start),
            }
        },
    }
}

/// A mapped allocation together with the pool slot it sits in.
pub enum StableMappedActive<'a, B: ScanoutBackend + 'a> {
    Slot0(MappedActive<'a, B>),
    Slot1(MappedActive<'a, B>),
    Slot2(MappedActive<'a, B>),
}

impl<'a, B: ScanoutBackend + 'a> StableMappedActive<'a, B> {
    /// The mapped allocation.
    pub open spec fn inner(&self) -> &MappedActive<'a, B> {
        match self {
            StableMappedActive::Slot0(m) => m,
            StableMappedActive::Slot1(m) => m,
            StableMappedActive::Slot2(m) => m,
        }
    }

    /// The slot the allocation sits in.
    pub open spec fn slot_number(&self) -> usize {
        match self {
            StableMappedActive::Slot0(_) => 0usize,
            StableMappedActive::Slot1(_) => 1usize,
            StableMappedActive::Slot2(_) => 2usize,
        }
    }

    /// The slot the allocation sits in.
    pub fn index(&self) -> (r: usize)
        ensures
            r == self.slot_number(),
    {
        match self {
            StableMappedActive::Slot0(_) => 0,
            StableMappedActive::Slot1(_) => 1,
            StableMappedActive::Slot2(_) => 2,
        }
    }

    /// The mapped allocation.
    pub fn mapped(&self) -> (r: &MappedActive<'a, B>)
        ensures
            r == self.inner(),
    {
        match self {
            StableMappedActive::Slot0(m) => m,
            StableMappedActive::Slot1(m) => m,
            StableMappedActive::Slot2(m) => m,
        }
    }

    /// The mapped allocation, for changes.
    pub fn mapped_mut(&mut self) -> (r: &mut MappedActive<'a, B>)
        ensures
            *r == *old(self).inner(),
            *final(self).inner() == *final(r),
            final(self).slot_number() == old(self).slot_number(),
    {
        match self {
            StableMappedActive::Slot0(m) => m,
            StableMappedActive::Slot1(m) => m,
            StableMappedActive::Slot2(m) => m,
        }
    }

    /// The mode of the allocation.
    pub fn mode(&self) -> (r: B::Mode)
        ensures
            r == self.inner().mode,
    {
        self.mapped().mode()
    }

    /// Width and height in pixels.
    pub fn size(&self) -> (r: (u32, u32))
        ensures
            r == (self.inner().width, self.inner().height),
    {
        self.mapped().size()
    }

    /// Bytes between row starts.
    pub fn pitch(&self) -> (r: u32)
        ensures
            r == self.inner().pitch,
    {
        self.mapped().pitch()
    }

    /// The mapped size of each buffer.
    pub fn mapping_lengths(&self) -> (r: [usize; 2])
        ensures
            r == self.inner().mapping_lengths,
    {
        self.mapped().mapping_lengths()
    }

    /// Which buffer is scanned out.
    pub fn front_index(&self) -> (r: usize)
        ensures
            r == *old(self.inner().front_buffer_index),
    {
        self.mapped().front_index()
    }

    /// Which buffer is drawn into.
    pub fn back_index(&self) -> (r: usize)
        ensures
            r == (*old(self.inner().front_buffer_index) ^ 1usize),
    {
        self.mapped().back_index()
    }

    /// Makes buffer `index` the front buffer.
    pub fn set_front_index(&mut self, index: usize)
        requires
            index < BUFFERS_PER_SCANOUT,
        ensures
            *final(self).inner().front_buffer_index == index,
            final(self).inner().framebuffers == old(self).inner().framebuffers,
            final(self).inner().mapping_lengths == old(self).inner().mapping_lengths,
            final(self).inner().pitch == old(self).inner().pitch,
            final(self).inner().width == old(self).inner().width,
            final(self).inner().height == old(self).inner().height,
            final(self).inner().mode == old(self).inner().mode,
            final(self).slot_number() == old(self).slot_number(),
    {
        self.mapped_mut().set_front_index(index);
    }

    /// The framebuffer scanned out.
    pub fn front_framebuffer(&self) -> (r: B::Framebuffer)
        requires
            *old(self.inner().front_buffer_index) < BUFFERS_PER_SCANOUT,
        ensures
            r == self.inner().framebuffers@[*old(self.inner().front_buffer_index) as int],
    {
        self.mapped().front_framebuffer()
    }

    /// The framebuffer drawn into.
    pub fn back_framebuffer(&self) -> (r: B::Framebuffer)
        requires
            *old(self.inner().front_buffer_index) < BUFFERS_PER_SCANOUT,
        ensures
            r == self.inner().framebuffers@[(*old(self.inner().front_buffer_index) ^ 1usize) as int],
    {
        self.mapped().back_framebuffer()
    }

    /// The mapped bytes of buffer `index`.
    pub fn buffer_mut(&mut self, index: usize) -> (r: &mut [u8])
        requires
            index < BUFFERS_PER_SCANOUT,
        ensures
            index == 0 ==> r@ == old(self).inner().first@,
            index == 1 ==> r@ == old(self).inner().second@,
    {
        self.mapped_mut().buffer_mut(index)
    }

    /// The mapped bytes of the front buffer.
    pub fn front_buffer_mut(&mut self) -> (r: &mut [u8])
        requires
            *old(self).inner().front_buffer_index < BUFFERS_PER_SCANOUT,
        ensures
            *old(self).inner().front_buffer_index == 0 ==> r@ == old(self).inner().first@,
            *old(self).inner().front_buffer_index == 1 ==> r@ == old(self).inner().second@,
    {
        self.mapped_mut().front_buffer_mut()
    }

    /// The mapped bytes of the back buffer.
    pub fn back_buffer_mut(&mut self) -> (r: &mut [u8])
        requires
            *old(self).inner().front_buffer_index < BUFFERS_PER_SCANOUT,
        ensures
            *old(self).inner().front_buffer_index == 1 ==> r@ == old(self).inner().first@,
            *old(self).inner().front_buffer_index == 0 ==> r@ == old(self).inner().second@,
    {
        self.mapped_mut().back_buffer_mut()
    }
}

/// Which slot is scanned out, which holds the baseline mode, and which
/// holds a prepared candidate.
#[derive(Clone, Copy, Debug, PartialEq, Eq, Structural)]
pub struct ScanoutRoles {
    pub active: usize,
    pub baseline: usize,
    pub candidate: Option<usize>,
}

/// Why a pool operation was refused.
#[derive(Clone, Debug)]
pub enum PoolError<E> {
    CandidateAliasesActive,
    CandidateSlotEmpty,
    NoFreeSlot,
    NoCandidate,
    ReleaseActive,
    Release(Vec<CleanupFailure<E>>),
}

/// The failures of releasing one slot.
#[derive(Clone, Debug)]
pub struct SlotReleaseFailure<E> {
    pub slot: usize,
    pub failures: Vec<CleanupFailure<E>>,
}

/// Allocations in stable slots, with the roles they play.
pub struct ScanoutPool<B: ScanoutBackend> {
    pub slot0: Option<Box<ScanoutAllocation<B>>>,
    pub slot1: Option<Box<ScanoutAllocation<B>>>,
    pub slot2: Option<Box<ScanoutAllocation<B>>>,
    pub roles: ScanoutRoles,
}

impl<B: ScanoutBackend> ScanoutPool<B> {
    /// The allocation in slot `i`, if any.
    pub open spec fn slot(&self, i: int) -> Option<Box<ScanoutAllocation<B>>> {
        if i == 0 {
            self.slot0
        } else if i == 1 {
            self.slot1
        } else {
            self.slot2
        }
    }

    /// The roles name existing slots, the active slot is occupied, and the
    /// candidate is an occupied slot other than the active one.
    pub open spec fn wf(&self) -> bool {
        &&& self.roles.active < SCANOUT_SLOT_COUNT
        &&& self.roles.baseline < SCANOUT_SLOT_COUNT
        &&& self.slot(self.roles.active as int) is Some
        &&& (self.roles.candidate matches Some(c) ==> c < SCANOUT_SLOT_COUNT && c
            != self.roles.active && self.slot(c as int) is Some)
    }

    /// A pool whose only allocation, in slot 0, is active and the baseline.
    pub fn with_baseline(allocation: ScanoutAllocation<B>) -> (r: ScanoutPool<B>)
        ensures
            r.wf(),
            r.roles == (ScanoutRoles { active: 0, baseline: 0, candidate: None }),
            r.slot0 == Some(Box::new(allocation)),
            r.slot1 is None,
            r.slot2 is None,
    {
        ScanoutPool {
            slot0: Some(Box::new(allocation)),
            slot1: None,
            slot2: None,
            roles: ScanoutRoles { active: 0, baseline: 0, candidate: None },
        }
    }

    /// The current roles.
    pub fn roles(&self) -> (r: ScanoutRoles)
        ensures
            r == self.roles,
    {
        self.roles
    }

    /// Takes the allocation out of slot `i`.
    fn take_slot(&mut self, i: usize) -> (r: Option<Box<ScanoutAllocation<B>>>)
        requires
            i < SCANOUT_SLOT_COUNT,
        ensures
            r == old(self).slot(i as int),
            final(self).slot(i as int) is None,
            forall|j: int| 0 <= j < 3 && j != i ==> final(self).slot(j) == old(self).slot(j),
            final(self).roles == old(self).roles,
    {
        if i == 0 {
            self.slot0.take()
        } else if i == 1 {
            self.slot1.take()
        } else {
            self.slot2.take()
        }
    }

    /// Puts an allocation into slot `i`.
    fn put_slot(&mut self, i: usize, allocation: ScanoutAllocation<B>)
        requires
            i < SCANOUT_SLOT_COUNT,
        ensures
            final(self).slot(i as int) == Some(Box::new(allocation)),
            forall|j: int| 0 <= j < 3 && j != i ==> final(self).slot(j) == old(self).slot(j),
            final(self).roles == old(self).roles,
    {
        if i == 0 {
            self.slot0 = Some(Box::new(allocation));
        } else if i == 1 {
            self.slot1 = Some(Box::new(allocation));
        } else {
            self.slot2 = Some(Box::new(allocation));
        }
    }

    /// Whether slot `i` is empty.
    fn slot_is_empty(&self, i: usize) -> (r: bool)
        requires
            i < SCANOUT_SLOT_COUNT,
        ensures
            r == self.slot(i as int) is None,
    {
        if i == 0 {
            self.slot0.is_none()
        } else if i == 1 {
            self.slot1.is_none()
        } else {
            self.slot2.is_none()
        }
    }

    /// The bytes the allocation in slot `i` keeps mapped, or zero.
    pub fn slot_live_bytes(&self, i: usize) -> (r: usize)
        requires
            i < SCANOUT_SLOT_COUNT,
        ensures
            r == match self.slot(i as int) {
                Some(a) => a.live_bytes,
                None => 0,
            },
    {
        let slot = if i == 0 {
            &self.slot0
        } else if i == 1 {
            &self.slot1
        } else {
            &self.slot2
        };
        match slot {
            Some(a) => a.live_bytes(),
            None => 0,
        }
    }

    /// The active allocation.
    pub fn active_mut(&mut self) -> (r: &mut ScanoutAllocation<B>)
        requires
            old(self).wf(),
        ensures
            *r == *old(self).slot(old(self).roles.active as int).unwrap(),
    {
        let active = self.roles.active;
        if active == 0 {
            match &mut self.slot0 {
                Some(a) => &mut **a,
                None => vstd::pervasive::unreached(),
            }
        } else if active == 1 {
            match &mut self.slot1 {
                Some(a) => &mut **a,
                None => vstd::pervasive::unreached(),
            }
        } else {
            match &mut self.slot2 {
                Some(a) => &mut **a,
                None => vstd::pervasive::unreached(),
            }
        }
    }

    /// The candidate allocation, if there is one.
    pub fn candidate(&self) -> (r: Option<&ScanoutAllocation<B>>)
        requires
            self.wf(),
        ensures
            r is Some <==> self.roles.candidate is Some,
            r matches Some(a) ==> *a == *self.slot(self.roles.candidate.unwrap() as int).unwrap(),
    {
        match self.roles.candidate {
            None => None,
            Some(c) => {
                let slot = if c == 0 {
                    &self.slot0
                } else if c == 1 {
                    &self.slot1
                } else {
                    &self.slot2
                };
                match slot {
                    Some(a) => Some(&**a),
                    None => None,
                }
            },
        }
    }

    /// Releases the candidate, if there is one, and frees its slot.
    pub fn release_candidate(&mut self, backend: &mut B, counters: &mut ScanoutCounters) -> (r:
        Result<(), PoolError<B::Error>>)
        requires
            old(self).wf(),
        ensures
            final(self).wf(),
            final(self).roles == (ScanoutRoles { candidate: None, ..old(self).roles }),
            old(self).roles.candidate is None ==> r is Ok && final(self).slot0 == old(self).slot0
                && final(self).slot1 == old(self).slot1 && final(self).slot2 == old(self).slot2,
            old(self).roles.candidate matches Some(c) ==> final(self).slot(c as int) is None
                && forall|j: int|
                0 <= j < 3 && j != c ==> final(self).slot(j) == old(self).slot(j),
            r is Err ==> r matches Err(PoolError::Release(_)),
            old(self).roles.candidate is None ==> *final(counters) == *old(counters) && *final(backend)
                == *old(backend),
            old(self).roles.candidate matches Some(c) ==> (old(self).slot(c as int) matches Some(a)
                && (a.released ==> r is Ok && final(counters).counts == old(counters).counts && *final(backend) == *old(backend))
                && (!a.released ==> exists|ok: (bool, bool, bool, bool)|
                #[trigger] release_record(*a, ok, pool_release_keys(r), old(counters).counts, final(counters).counts)
                && release_backend_record(*a, ok, *old(backend), *final(backend)))),
    {
        let index = match self.roles.candidate.take() {
            Some(i) => i,
            None => return Ok(()),
        };
        if index == self.roles.active {
            return Err(PoolError::CandidateAliasesActive);
        }
        let allocation = match self.take_slot(index) {
            Some(a) => a,
            None => return Err(PoolError::CandidateSlotEmpty),
        };
        let mut allocation = *allocation;
        let released = allocation.release(backend, counters);
        let r = match released {
            Ok(()) => Ok(()),
            Err(failures) => Err(PoolError::Release(failures)),
        };
        assert(pool_release_keys(r) == release_failure_keys(released));
        r
    }

    /// Releases the previous candidate and puts `allocation` into a free
    /// slot other than the active one as the new candidate. Returns the slot.
    pub fn replace_candidate(
        &mut self,
        backend: &mut B,
        allocation: ScanoutAllocation<B>,
        counters: &mut ScanoutCounters,
    ) -> (r: Result<usize, PoolError<B::Error>>)
        requires
            old(self).wf(),
        ensures
            final(self).wf(),
            final(self).roles.active == old(self).roles.active,
            final(self).roles.baseline == old(self).roles.baseline,
            r matches Ok(i) ==> {
                &&& final(self).roles.candidate == Some(i)
                &&& i != old(self).roles.active
                &&& final(self).slot(i as int) == Some(Box::new(allocation))
            },
            r is Err ==> final(self).roles.candidate is None,
            r matches Ok(i) ==> forall|j: int|
                0 <= j < 3 && j != i ==> final(self).slot(j) == if old(self).roles.candidate == Some(
                    j as usize,
                ) {
                    None
                } else {
                    old(self).slot(j)
                },
            old(self).roles.candidate is None ==> *final(counters) == *old(counters) && *final(backend)
                == *old(backend),
            old(self).roles.candidate matches Some(c) ==> (old(self).slot(c as int) matches Some(a)
                && (a.released ==> final(counters).counts == old(counters).counts && *final(backend) == *old(backend))
                && (!a.released ==> exists|ok: (bool, bool, bool, bool)|
                #[trigger] release_record(*a, ok, pool_release_keys(r), old(counters).counts, final(counters).counts)
                && release_backend_record(*a, ok, *old(backend), *final(backend)))),
    {
        let released = self.release_candidate(backend, counters);
        match released {
            Ok(()) => {},
            Err(e) => {
                let r: Result<usize, PoolError<B::Error>> = Err(e);
                assert(pool_release_keys(r) == pool_release_keys(released));
                return r;
            },
        }
        let mut found: Option<usize> = None;
        let mut index: usize = 0;
        while index < SCANOUT_SLOT_COUNT
            invariant
                0 <= index <= SCANOUT_SLOT_COUNT,
                self.wf(),
                self.roles.candidate is None,
                found matches Some(f) ==> f < SCANOUT_SLOT_COUNT && f != self.roles.active
                    && self.slot(f as int) is None,
            decreases SCANOUT_SLOT_COUNT - index,
        {
            if found.is_none() && index != self.roles.active && self.slot_is_empty(index) {
                found = Some(index);
            }
            index = index + 1;
        }
        let index = match found {
            Some(f) => f,
            None => {
                let r: Result<usize, PoolError<B::Error>> = Err(PoolError::NoFreeSlot);
                assert(pool_release_keys(r) == pool_release_keys(released));
                return r;
            },
        };
        self.put_slot(index, allocation);
        self.roles.candidate = Some(index);
        let r: Result<usize, PoolError<B::Error>> = Ok(index);
        assert(pool_release_keys(r) == pool_release_keys(released));
        r
    }

    /// Makes the candidate active. Returns the previously active slot and
    /// the new one.
    pub fn promote_candidate(&mut self) -> (r: Result<(usize, usize), PoolError<B::Error>>)
        requires
            old(self).wf(),
        ensures
            final(self).wf(),
            final(self).slot0 == old(self).slot0,
            final(self).slot1 == old(self).slot1,
            final(self).slot2 == old(self).slot2,
            old(self).roles.candidate is None ==> (r matches Err(PoolError::NoCandidate)
                && final(self).roles == old(self).roles),
            old(self).roles.candidate matches Some(c) ==> (r matches Ok((old_active, new_active))
                && old_active == old(self).roles.active && new_active == c && final(self).roles == (
            ScanoutRoles { active: c, candidate: None, ..old(self).roles })),
    {
        let candidate = match self.roles.candidate.take() {
            Some(c) => c,
            None => return Err(PoolError::NoCandidate),
        };
        let old_active = self.roles.active;
        self.roles.active = candidate;
        Ok((old_active, candidate))
    }

    /// Releases the allocation in an inactive slot; the baseline is kept.
    pub fn release_inactive(
        &mut self,
        backend: &mut B,
        index: usize,
        counters: &mut ScanoutCounters,
    ) -> (r: Result<(), PoolError<B::Error>>)
        requires
            old(self).wf(),
            index < SCANOUT_SLOT_COUNT,
            old(self).roles.candidate != Some(index),
        ensures
            final(self).wf(),
            final(self).roles == old(self).roles,
            index == old(self).roles.active ==> (r matches Err(PoolError::ReleaseActive)),
            (index == old(self).roles.active || index == old(self).roles.baseline) ==> final(self).slot0 == old(self).slot0 && final(self).slot1 == old(self).slot1 && final(self).slot2
                == old(self).slot2,
            index != old(self).roles.active && index != old(self).roles.baseline ==> final(self).slot(index as int) is None && forall|j: int|
                0 <= j < 3 && j != index ==> final(self).slot(j) == old(self).slot(j),
            index == old(self).roles.baseline && index != old(self).roles.active ==> r is Ok
                && *final(backend) == *old(backend) && *final(counters) == *old(counters),
            index != old(self).roles.active && index != old(self).roles.baseline ==> match old(self).slot(index as int) {
                None => r is Ok && *final(backend) == *old(backend) && *final(counters) == *old(counters),
                Some(a) => (r is Err ==> r matches Err(PoolError::Release(_)))
                    && (a.released ==> r is Ok && final(counters).counts == old(counters).counts && *final(backend) == *old(backend))
                    && (!a.released ==> exists|ok: (bool, bool, bool, bool)|
                    #[trigger] release_record(*a, ok, pool_release_keys(r), old(counters).counts, final(counters).counts)
                    && release_backend_record(*a, ok, *old(backend), *final(backend))),
            },
    {
        if index == self.roles.active {
            return Err(PoolError::ReleaseActive);
        }
        if index == self.roles.baseline {
            return Ok(());
        }
        let allocation = match self.take_slot(index) {
            Some(a) => a,
            None => return Ok(()),
        };
        let mut allocation = *allocation;
        let released = allocation.release(backend, counters);
        let r = match released {
            Ok(()) => Ok(()),
            Err(failures) => Err(PoolError::Release(failures)),
        };
        assert(pool_release_keys(r) == release_failure_keys(released));
        r
    }

    /// Releases every allocation, last slot first, trying each even when an
    /// earlier one fails; the candidate role is cleared.
    pub fn release_all(&mut self, backend: &mut B, counters: &mut ScanoutCounters) -> (r: Result<
        (),
        Vec<SlotReleaseFailure<B::Error>>,
    >)
        ensures
            final(self).slot0 is None,
            final(self).slot1 is None,
            final(self).slot2 is None,
            final(self).roles == (ScanoutRoles { candidate: None, ..old(self).roles }),
            r matches Err(failures) ==> failures@.len() > 0,
    {
        self.roles.candidate = None;
        let mut failures: Vec<SlotReleaseFailure<B::Error>> = Vec::new();
        let mut index: usize = SCANOUT_SLOT_COUNT;
        while index > 0
            invariant
                0 <= index <= SCANOUT_SLOT_COUNT,
                forall|j: int| index <= j < 3 ==> self.slot(j) is None,
                self.roles == (ScanoutRoles { candidate: None, ..old(self).roles }),
            decreases index,
        {
            index = index - 1;
            if let Some(allocation) = self.take_slot(index) {
                let mut allocation = *allocation;
                if let Err(slot_failures) = allocation.release(backend, counters) {
                    failures.push(SlotReleaseFailure { slot: index, failures: slot_failures });
                }
            }
        }
        assert(self.slot(0) is None && self.slot(1) is None && self.slot(2) is None);
        if failures.len() == 0 {
            Ok(())
        } else {
            Err(failures)
        }
    }
}

} // verus!
