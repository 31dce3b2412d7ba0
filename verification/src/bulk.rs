//! Receiving a payload over the FunctionFS bulk OUT endpoint with blocking
//! reads: the size of each request, how each completion is judged, and the
//! statistics kept. The reads themselves are made by the caller, which asks
//! a read plan for the next request and reports what the read returned.
use vstd::prelude::*;
use bytes::BytesMut;
use crate::buffer::{
    bytes_mut_clear, bytes_mut_extend_from_slice, bytes_mut_len, bytes_mut_resize,
    bytes_mut_truncate, bytes_mut_view,
};

verus! {

/// Largest packet of the full-speed/high-speed bulk OUT endpoint.
pub const FUNCTIONFS_BULK_OUT_MAX_PACKET_SIZE: usize = 512;
/// Smallest configurable read size.
pub const FUNCTIONFS_BULK_OUT_MIN_READ_SIZE: usize = 4 * 1024;
/// Largest configurable read size.
pub const FUNCTIONFS_BULK_OUT_MAX_READ_SIZE: usize = 64 * 1024;
/// The read size used unless configured otherwise.
pub const DEFAULT_FUNCTIONFS_BULK_OUT_READ_SIZE: usize = 16 * 1024;

/// How a completed read compares with its request.
#[derive(Clone, Copy, Debug, PartialEq, Eq, Structural)]
pub enum FunctionFsReadCompletion {
    Exact,
    Short,
    InvalidKernelCompletion,
}

/// Counts kept while a payload is read.
#[derive(Clone, Copy, Debug, PartialEq, Eq, Structural)]
pub struct BulkReadStats {
    pub read_calls: usize,
    pub first_request_bytes: usize,
    pub last_request_bytes: usize,
}

/// Why receiving a payload failed.
#[derive(Clone, Copy, Debug, PartialEq, Eq, Structural)]
pub enum BulkReadError {
    ReadSizeOutOfRange { read_size: usize },
    ReadSizeUnaligned { read_size: usize },
    InternalReadSize { read_size: usize },
    EmptyPayload,
    InvalidCompletion {
        payload_seq: u64,
        payload_len: usize,
        read_size: usize,
        read_index: usize,
        received_bytes_before: usize,
        remaining_before: usize,
        request_bytes: usize,
        result_bytes: usize,
    },
    ShortRead {
        payload_seq: u64,
        payload_len: usize,
        read_size: usize,
        read_index: usize,
        received_bytes: usize,
        request_bytes: usize,
        result_bytes: usize,
    },
}

/// Judges a completed read: more than requested, or more than the payload
/// still owes, cannot come from a sound kernel; less than requested is short.
pub fn classify_functionfs_read_completion(
    result_bytes: usize,
    request_bytes: usize,
    remaining_before: usize,
) -> (r: FunctionFsReadCompletion)
    ensures
        r == classify_completion_spec(result_bytes, request_bytes, remaining_before),
{
    if result_bytes > request_bytes || result_bytes > remaining_before {
        FunctionFsReadCompletion::InvalidKernelCompletion
    } else if result_bytes < request_bytes {
        FunctionFsReadCompletion::Short
    } else {
        FunctionFsReadCompletion::Exact
    }
}

/// Whether `read_size` is a configurable read size: between 4 KiB and
/// 64 KiB, in whole packets.
pub open spec fn valid_functionfs_read_size(read_size: usize) -> bool {
    FUNCTIONFS_BULK_OUT_MIN_READ_SIZE <= read_size <= FUNCTIONFS_BULK_OUT_MAX_READ_SIZE
        && read_size % FUNCTIONFS_BULK_OUT_MAX_PACKET_SIZE == 0
}

/// Checks a configured read size: between 4 KiB and 64 KiB, in whole packets.
pub fn validate_functionfs_read_size(read_size: usize) -> (r: Result<(), BulkReadError>)
    ensures
        r == (if !(FUNCTIONFS_BULK_OUT_MIN_READ_SIZE <= read_size
            <= FUNCTIONFS_BULK_OUT_MAX_READ_SIZE) {
            Err::<(), BulkReadError>(BulkReadError::ReadSizeOutOfRange { read_size })
        } else if read_size % FUNCTIONFS_BULK_OUT_MAX_PACKET_SIZE != 0 {
            Err(BulkReadError::ReadSizeUnaligned { read_size })
        } else {
            Ok(())
        }),
        r is Ok <==> valid_functionfs_read_size(read_size),
{
    if !(FUNCTIONFS_BULK_OUT_MIN_READ_SIZE <= read_size && read_size
        <= FUNCTIONFS_BULK_OUT_MAX_READ_SIZE) {
        return Err(BulkReadError::ReadSizeOutOfRange { read_size });
    }
    if read_size & (FUNCTIONFS_BULK_OUT_MAX_PACKET_SIZE - 1) != 0 {
        assert(read_size & 511 != 0 ==> read_size % 512 != 0) by (bit_vector);
        return Err(BulkReadError::ReadSizeUnaligned { read_size });
    }
    assert(read_size & 511 == 0 ==> read_size % 512 == 0) by (bit_vector);
    Ok(())
}

/// The number of packets `bytes` takes, rounded up.
pub open spec fn packet_count(bytes: int) -> int {
    (bytes + FUNCTIONFS_BULK_OUT_MAX_PACKET_SIZE - 1) / FUNCTIONFS_BULK_OUT_MAX_PACKET_SIZE as int
}

/// Estimated USB data packets for `bytes`, without retries or protocol overhead.
pub fn usb_packet_estimate(bytes: usize) -> (r: usize)
    ensures
        r == packet_count(bytes as int),
{
    let whole = bytes / FUNCTIONFS_BULK_OUT_MAX_PACKET_SIZE;
    if bytes % FUNCTIONFS_BULK_OUT_MAX_PACKET_SIZE == 0 {
        whole
    } else {
        whole + 1
    }
}

/// The smaller of two sizes.
pub open spec fn min_size(a: usize, b: usize) -> usize {
    if a <= b {
        a
    } else {
        b
    }
}

/// The requests a payload of `remaining` bytes is read in when every read
/// returns what it asked for: full requests of `read_size`, then the rest.
pub open spec fn planned_requests(remaining: nat, read_size: nat) -> Seq<nat>
    decreases remaining,
{
    if remaining == 0 || read_size == 0 {
        Seq::empty()
    } else if remaining <= read_size {
        seq![remaining]
    } else {
        seq![read_size] + planned_requests((remaining - read_size) as nat, read_size)
    }
}

/// The sum of the sizes in `s`.
pub open spec fn total_bytes(s: Seq<nat>) -> nat
    decreases s.len(),
{
    if s.len() == 0 {
        0
    } else {
        s[0] + total_bytes(s.drop_first())
    }
}

/// A payload read with exact completions asks for exactly its own length,
/// never more, in one request per started `read_size` bytes: all but the
/// last request are full and none is padded past the payload.
pub proof fn lemma_planned_requests_cover_payload(remaining: nat, read_size: nat)
    requires
        read_size > 0,
    ensures
        total_bytes(planned_requests(remaining, read_size)) == remaining,
        planned_requests(remaining, read_size).len() == (remaining + read_size - 1) / (
        read_size as int),
        forall|i: int|
            0 <= i < planned_requests(remaining, read_size).len() ==> 0 < #[trigger] planned_requests(
                remaining,
                read_size,
            )[i] <= read_size,
        forall|i: int|
            0 <= i < planned_requests(remaining, read_size).len() - 1 ==> #[trigger] planned_requests(
                remaining,
                read_size,
            )[i] == read_size,
    decreases remaining,
{
    let p = planned_requests(remaining, read_size);
    if remaining == 0 {
        assert((remaining + read_size - 1) / (read_size as int) == 0) by (nonlinear_arith)
            requires
                remaining == 0,
                read_size > 0,
        ;
    } else if remaining <= read_size {
        assert(p.drop_first() =~= Seq::<nat>::empty());
        assert(total_bytes(p.drop_first()) == 0);
        assert(total_bytes(p) == p[0] + total_bytes(p.drop_first()));
        assert((remaining + read_size - 1) / (read_size as int) == 1) by (nonlinear_arith)
            requires
                0 < remaining <= read_size,
        ;
    } else {
        let rest = (remaining - read_size) as nat;
        lemma_planned_requests_cover_payload(rest, read_size);
        assert(p.drop_first() =~= planned_requests(rest, read_size));
        assert(total_bytes(p) == p[0] + total_bytes(p.drop_first()));
        assert((remaining + read_size - 1) / (read_size as int) == (rest + read_size - 1) / (
        read_size as int) + 1) by (nonlinear_arith)
            requires
                rest == remaining - read_size,
                read_size > 0,
        ;
        assert forall|i: int| 0 <= i < p.len() implies 0 < #[trigger] p[i] <= read_size by {
            if i > 0 {
                assert(p[i] == planned_requests(rest, read_size)[i - 1]);
            }
        }
        assert forall|i: int| 0 <= i < p.len() - 1 implies #[trigger] p[i] == read_size by {
            if i > 0 {
                assert(p[i] == planned_requests(rest, read_size)[i - 1]);
            }
        }
    }
}

/// The bytes of the next request of `p`: the rest of the payload, at most
/// `read_size`.
pub open spec fn next_request_bytes(p: FunctionFsRead) -> nat {
    let rem = (p.payload_len - p.received_bytes) as nat;
    if rem <= p.read_size {
        rem
    } else {
        p.read_size as nat
    }
}

/// `p` after one request whose read returned exactly what it asked for:
/// `next_request` followed by `finish_read` of the requested bytes.
pub open spec fn exact_round(p: FunctionFsRead) -> FunctionFsRead {
    let req = next_request_bytes(p);
    FunctionFsRead {
        received_bytes: (p.received_bytes + req) as usize,
        request_bytes: req as usize,
        stats: BulkReadStats {
            read_calls: (p.stats.read_calls + 1) as usize,
            first_request_bytes: if p.stats.read_calls == 0 {
                req as usize
            } else {
                p.stats.first_request_bytes
            },
            last_request_bytes: req as usize,
        },
        ..p
    }
}

/// `p` after `k` exact rounds.
pub open spec fn exact_rounds(p: FunctionFsRead, k: nat) -> FunctionFsRead
    decreases k,
{
    if k == 0 {
        p
    } else {
        exact_rounds(exact_round(p), (k - 1) as nat)
    }
}

/// The requests of `k` exact rounds from `p`, in order.
pub open spec fn round_requests(p: FunctionFsRead, k: nat) -> Seq<nat>
    decreases k,
{
    if k == 0 {
        Seq::empty()
    } else {
        seq![next_request_bytes(p)] + round_requests(exact_round(p), (k - 1) as nat)
    }
}

proof fn lemma_exact_rounds_follow_plan(p: FunctionFsRead)
    requires
        p.received_bytes <= p.payload_len,
        p.read_size > 0,
        p.stats.read_calls + (p.payload_len - p.received_bytes) <= usize::MAX,
    ensures
        ({
            let plan = planned_requests((p.payload_len - p.received_bytes) as nat, p.read_size as nat);
            let done = exact_rounds(p, plan.len());
            &&& round_requests(p, plan.len()) == plan
            &&& done.received_bytes == p.payload_len
            &&& done.stats.read_calls == p.stats.read_calls + plan.len()
            &&& done.payload_len == p.payload_len && done.read_size == p.read_size
            &&& done.stats.first_request_bytes == if p.stats.read_calls == 0 && plan.len() > 0 {
                plan[0] as usize
            } else {
                p.stats.first_request_bytes
            }
            &&& plan.len() > 0 ==> done.stats.last_request_bytes == plan[plan.len() - 1]
        }),
    decreases p.payload_len - p.received_bytes,
{
    let rem = (p.payload_len - p.received_bytes) as nat;
    let plan = planned_requests(rem, p.read_size as nat);
    if rem == 0 {
        assert(plan =~= Seq::<nat>::empty());
    } else {
        let q = exact_round(p);
        let rest = planned_requests((q.payload_len - q.received_bytes) as nat, q.read_size as nat);
        if rem <= p.read_size {
            assert(plan =~= seq![rem]);
            assert(q.received_bytes == p.payload_len);
            assert(rest =~= Seq::<nat>::empty());
            assert(round_requests(q, 0) =~= Seq::<nat>::empty());
            assert(round_requests(p, 1) =~= seq![rem]);
            assert(exact_rounds(q, 0) == q);
            assert(exact_rounds(p, 1) == exact_rounds(q, 0));
            assert(plan.len() == 1);
            assert(plan[0] == rem);
        } else {
            assert((q.payload_len - q.received_bytes) as nat == (rem - p.read_size) as nat);
            assert(plan =~= seq![p.read_size as nat] + rest);
            lemma_exact_rounds_follow_plan(q);
            lemma_planned_requests_cover_payload((rem - p.read_size) as nat, p.read_size as nat);
            assert(rest.len() > 0);
            assert(plan.len() == rest.len() + 1);
            assert(exact_rounds(p, plan.len()) == exact_rounds(q, rest.len()));
            assert(round_requests(p, plan.len()) =~= seq![next_request_bytes(p)] + round_requests(q, rest.len()));
            assert(plan[plan.len() - 1] == rest[rest.len() - 1]);
            assert(plan[0] == p.read_size);
            assert(q.stats.read_calls == p.stats.read_calls + 1);
        }
    }
}

/// `next_request` followed by `finish_read` of exactly the requested bytes
/// is one exact round: `before` is the plan, `requested` it after
/// `next_request`, and `read` it after `finish_read`, as their contracts
/// state them.
pub proof fn lemma_request_then_exact_read_is_a_round(
    before: FunctionFsRead,
    requested: FunctionFsRead,
    read: FunctionFsRead,
)
    requires
        before.wf(),
        !before.complete(),
        requested == (FunctionFsRead {
            request_bytes: next_request_bytes(before) as usize,
            stats: BulkReadStats {
                first_request_bytes: if before.stats.read_calls == 0 {
                    next_request_bytes(before) as usize
                } else {
                    before.stats.first_request_bytes
                },
                ..before.stats
            },
            ..before
        }),
        read == (FunctionFsRead {
            received_bytes: (requested.received_bytes + requested.request_bytes) as usize,
            stats: BulkReadStats {
                read_calls: (requested.stats.read_calls + 1) as usize,
                last_request_bytes: requested.request_bytes,
                ..requested.stats
            },
            ..requested
        }),
    ensures
        read == exact_round(before),
{
}

/// Reading a payload with a fresh plan, where every read returns exactly
/// what it asked for: the plan's requests are full requests of `read_size`
/// followed by the rest, never padded past the payload, one per started
/// `read_size` bytes; after them the whole payload has arrived, and the
/// statistics count those reads with the first and last request sizes.
pub proof fn lemma_exact_reads_cover_payload(p: FunctionFsRead)
    requires
        p.wf(),
        p.received_bytes == 0,
        p.stats.read_calls == 0,
    ensures
        ({
            let plan = planned_requests(p.payload_len as nat, p.read_size as nat);
            let n = plan.len();
            let done = exact_rounds(p, n);
            &&& n == (p.payload_len + p.read_size - 1) / (p.read_size as int)
            &&& round_requests(p, n) == plan
            &&& forall|i: int| 0 <= i < n - 1 ==> #[trigger] plan[i] == p.read_size
            &&& plan[n - 1] == p.payload_len - (n - 1) * p.read_size
            &&& done.complete()
            &&& done.stats.read_calls == n
            &&& done.stats.first_request_bytes == (if p.payload_len <= p.read_size {
                p.payload_len
            } else {
                p.read_size
            })
            &&& done.stats.last_request_bytes == p.payload_len - (n - 1) * p.read_size
        }),
{
    let plan = planned_requests(p.payload_len as nat, p.read_size as nat);
    lemma_planned_requests_cover_payload(p.payload_len as nat, p.read_size as nat);
    lemma_exact_rounds_follow_plan(p);
    lemma_plan_last_is_rest(p.payload_len as nat, p.read_size as nat);
    if p.payload_len <= p.read_size {
        assert(plan =~= seq![p.payload_len as nat]);
    } else {
        assert(plan[0] == p.read_size);
    }
}

/// The last planned request is what the full ones leave of the payload.
proof fn lemma_plan_last_is_rest(remaining: nat, read_size: nat)
    requires
        read_size > 0,
        remaining > 0,
    ensures
        planned_requests(remaining, read_size).len() > 0,
        planned_requests(remaining, read_size)[planned_requests(remaining, read_size).len() - 1]
            == remaining - (planned_requests(remaining, read_size).len() - 1) * read_size,
    decreases remaining,
{
    let plan = planned_requests(remaining, read_size);
    if remaining <= read_size {
        assert(plan =~= seq![remaining]);
        assert(plan.len() == 1);
        assert(plan[0] == remaining);
        assert((plan.len() - 1) * read_size == 0);
    } else {
        let rest_len = (remaining - read_size) as nat;
        lemma_plan_last_is_rest(rest_len, read_size);
        let rest = planned_requests(rest_len, read_size);
        assert(plan =~= seq![read_size] + rest);
        assert(plan[plan.len() - 1] == rest[rest.len() - 1]);
        assert((plan.len() - 1) * read_size == (rest.len() - 1) * read_size + read_size) by (nonlinear_arith)
            requires
                plan.len() == rest.len() + 1,
        ;
        assert(rest[rest.len() - 1] == rest_len - (rest.len() - 1) * read_size);
        assert(plan[plan.len() - 1] == remaining - (plan.len() - 1) * read_size);
    }
}

/// A payload being read with blocking requests of at most `read_size`
/// bytes into a buffer of the payload's size.
#[derive(Clone, Copy, Debug, PartialEq, Eq, Structural)]
pub struct FunctionFsRead {
    pub payload_seq: u64,
    pub payload_len: usize,
    pub read_size: usize,
    pub received_bytes: usize,
    pub request_bytes: usize,
    pub stats: BulkReadStats,
}

impl FunctionFsRead {
    /// Bytes received never exceed the payload, the read size is a whole
    /// number of packets, and every counted read brought at least one byte.
    pub open spec fn wf(self) -> bool {
        &&& self.received_bytes <= self.payload_len
        &&& self.read_size >= FUNCTIONFS_BULK_OUT_MAX_PACKET_SIZE
        &&& self.read_size % FUNCTIONFS_BULK_OUT_MAX_PACKET_SIZE == 0
        &&& self.payload_len > 0
        &&& self.stats.read_calls <= self.received_bytes
    }

    /// Whether the whole payload has arrived.
    pub open spec fn complete(self) -> bool {
        self.received_bytes == self.payload_len
    }

    /// Starts reading a payload of `payload_len` bytes: the read size must
    /// be a non-zero number of whole packets and the payload non-empty;
    /// `buf` is then resized to the payload, zero-filled.
    pub fn start(buf: &mut BytesMut, payload_seq: u64, payload_len: usize, read_size: usize) -> (r:
        Result<FunctionFsRead, BulkReadError>)
        requires
            payload_len <= isize::MAX,
        ensures
            !(read_size >= FUNCTIONFS_BULK_OUT_MAX_PACKET_SIZE && read_size
                % FUNCTIONFS_BULK_OUT_MAX_PACKET_SIZE == 0) ==> r == Err::<
                FunctionFsRead,
                BulkReadError,
            >(BulkReadError::InternalReadSize { read_size }),
            (read_size >= FUNCTIONFS_BULK_OUT_MAX_PACKET_SIZE && read_size
                % FUNCTIONFS_BULK_OUT_MAX_PACKET_SIZE == 0 && payload_len == 0) ==> r == Err::<
                FunctionFsRead,
                BulkReadError,
            >(BulkReadError::EmptyPayload),
            r is Err ==> bytes_mut_view(*final(buf)) == bytes_mut_view(*old(buf)),
            r is Ok <==> (read_size >= FUNCTIONFS_BULK_OUT_MAX_PACKET_SIZE && read_size
                % FUNCTIONFS_BULK_OUT_MAX_PACKET_SIZE == 0 && payload_len > 0),
            r matches Ok(plan) ==> {
                &&& plan == (FunctionFsRead {
                    payload_seq,
                    payload_len,
                    read_size,
                    received_bytes: 0,
                    request_bytes: 0,
                    stats: BulkReadStats {
                        read_calls: 0,
                        first_request_bytes: 0,
                        last_request_bytes: 0,
                    },
                })
                &&& plan.wf()
                &&& bytes_mut_view(*final(buf)) == Seq::new(payload_len as nat, |i: int| 0u8)
            },
    {
        if !(read_size >= FUNCTIONFS_BULK_OUT_MAX_PACKET_SIZE && read_size & (
        FUNCTIONFS_BULK_OUT_MAX_PACKET_SIZE - 1) == 0) {
            proof {
                assert(read_size & 511 == 0 <==> read_size % 512 == 0) by (bit_vector);
            }
            return Err(BulkReadError::InternalReadSize { read_size });
        }
        proof {
            assert(read_size & 511 == 0 <==> read_size % 512 == 0) by (bit_vector);
        }
        if payload_len == 0 {
            return Err(BulkReadError::EmptyPayload);
        }
        bytes_mut_clear(buf);
        bytes_mut_resize(buf, payload_len, 0);
        assert(bytes_mut_view(*buf) =~= Seq::new(payload_len as nat, |i: int| 0u8));
        Ok(
            FunctionFsRead {
                payload_seq,
                payload_len,
                read_size,
                received_bytes: 0,
                request_bytes: 0,
                stats: BulkReadStats {
                    read_calls: 0,
                    first_request_bytes: 0,
                    last_request_bytes: 0,
                },
            },
        )
    }

    /// Whether the whole payload has arrived.
    pub fn is_complete(&self) -> (r: bool)
        ensures
            r == self.complete(),
    {
        self.received_bytes == self.payload_len
    }

    /// The next read: it lands at the first byte not yet received and asks
    /// for the rest of the payload, at most `read_size` bytes. The first
    /// request is recorded in the statistics.
    pub fn next_request(&mut self) -> (r: (usize, usize))
        requires
            old(self).wf(),
            !old(self).complete(),
        ensures
            r.0 == old(self).received_bytes,
            r.1 == min_size((old(self).payload_len - old(self).received_bytes) as usize, old(self).read_size),
            r.1 == planned_requests(
                (old(self).payload_len - old(self).received_bytes) as nat,
                old(self).read_size as nat,
            )[0],
            0 < r.1 <= old(self).payload_len - old(self).received_bytes,
            *final(self) == (FunctionFsRead {
                request_bytes: r.1,
                stats: BulkReadStats {
                    first_request_bytes: if old(self).stats.read_calls == 0 {
                        r.1
                    } else {
                        old(self).stats.first_request_bytes
                    },
                    ..old(self).stats
                },
                ..*old(self)
            }),
            final(self).wf(),
    {
        let remaining_before = self.payload_len - self.received_bytes;
        let request_bytes = if remaining_before <= self.read_size {
            remaining_before
        } else {
            self.read_size
        };
        if self.stats.read_calls == 0 {
            self.stats.first_request_bytes = request_bytes;
        }
        self.request_bytes = request_bytes;
        (self.received_bytes, request_bytes)
    }

    /// Records the result of the read of the last requested bytes. More than
    /// requested or owed is an invalid kernel completion, less is a short
    /// read; both fail the payload without another request. An exact read
    /// advances the received count.
    pub fn finish_read(&mut self, bytes_read: usize) -> (r: Result<(), BulkReadError>)
        requires
            old(self).wf(),
            !old(self).complete(),
            0 < old(self).request_bytes <= old(self).payload_len - old(self).received_bytes,
        ensures
            final(self).stats.read_calls == old(self).stats.read_calls + 1,
            final(self).stats.last_request_bytes == old(self).request_bytes,
            final(self).stats.first_request_bytes == old(self).stats.first_request_bytes,
            final(self).payload_len == old(self).payload_len,
            final(self).read_size == old(self).read_size,
            final(self).payload_seq == old(self).payload_seq,
            final(self).request_bytes == old(self).request_bytes,
            classify_completion_spec(
                bytes_read,
                old(self).request_bytes,
                (old(self).payload_len - old(self).received_bytes) as usize,
            ) == FunctionFsReadCompletion::InvalidKernelCompletion ==> r == Err::<
                (),
                BulkReadError,
            >(
                BulkReadError::InvalidCompletion {
                    payload_seq: old(self).payload_seq,
                    payload_len: old(self).payload_len,
                    read_size: old(self).read_size,
                    read_index: (old(self).stats.read_calls + 1) as usize,
                    received_bytes_before: old(self).received_bytes,
                    remaining_before: (old(self).payload_len - old(self).received_bytes) as usize,
                    request_bytes: old(self).request_bytes,
                    result_bytes: bytes_read,
                },
            ),
            classify_completion_spec(
                bytes_read,
                old(self).request_bytes,
                (old(self).payload_len - old(self).received_bytes) as usize,
            ) == FunctionFsReadCompletion::Short ==> r == Err::<(), BulkReadError>(
                BulkReadError::ShortRead {
                    payload_seq: old(self).payload_seq,
                    payload_len: old(self).payload_len,
                    read_size: old(self).read_size,
                    read_index: (old(self).stats.read_calls + 1) as usize,
                    received_bytes: old(self).received_bytes,
                    request_bytes: old(self).request_bytes,
                    result_bytes: bytes_read,
                },
            ),
            r is Err ==> final(self).received_bytes == old(self).received_bytes,
            r is Ok <==> bytes_read == old(self).request_bytes,
            r is Ok ==> final(self).received_bytes == old(self).received_bytes + bytes_read
                && final(self).wf(),
            r is Ok ==> *final(self) == (FunctionFsRead {
                received_bytes: (old(self).received_bytes + bytes_read) as usize,
                stats: BulkReadStats {
                    read_calls: (old(self).stats.read_calls + 1) as usize,
                    last_request_bytes: old(self).request_bytes,
                    ..old(self).stats
                },
                ..*old(self)
            }),
    {
        let remaining_before = self.payload_len - self.received_bytes;
        self.stats.read_calls = self.stats.read_calls + 1;
        self.stats.last_request_bytes = self.request_bytes;
        let completion = classify_functionfs_read_completion(
            bytes_read,
            self.request_bytes,
            remaining_before,
        );
        match completion {
            FunctionFsReadCompletion::InvalidKernelCompletion => Err(
                BulkReadError::InvalidCompletion {
                    payload_seq: self.payload_seq,
                    payload_len: self.payload_len,
                    read_size: self.read_size,
                    read_index: self.stats.read_calls,
                    received_bytes_before: self.received_bytes,
                    remaining_before,
                    request_bytes: self.request_bytes,
                    result_bytes: bytes_read,
                },
            ),
            FunctionFsReadCompletion::Short => Err(
                BulkReadError::ShortRead {
                    payload_seq: self.payload_seq,
                    payload_len: self.payload_len,
                    read_size: self.read_size,
                    read_index: self.stats.read_calls,
                    received_bytes: self.received_bytes,
                    request_bytes: self.request_bytes,
                    result_bytes: bytes_read,
                },
            ),
            FunctionFsReadCompletion::Exact => {
                self.received_bytes = self.received_bytes + bytes_read;
                Ok(())
            },
        }
    }
}

/// How a completed read compares with its request.
pub open spec fn classify_completion_spec(
    result_bytes: usize,
    request_bytes: usize,
    remaining_before: usize,
) -> FunctionFsReadCompletion {
    if result_bytes > request_bytes || result_bytes > remaining_before {
        FunctionFsReadCompletion::InvalidKernelCompletion
    } else if result_bytes < request_bytes {
        FunctionFsReadCompletion::Short
    } else {
        FunctionFsReadCompletion::Exact
    }
}

/// A payload being read one packet at a time, appending what each read
/// returns; reads of zero bytes are retried.
#[derive(Clone, Copy, Debug, PartialEq, Eq, Structural)]
pub struct Legacy512Read {
    pub payload_len: usize,
    pub stats: BulkReadStats,
}

impl Legacy512Read {
    /// Starts reading a payload of `payload_len` bytes into an emptied `buf`.
    pub fn start(buf: &mut BytesMut, payload_len: usize) -> (r: Legacy512Read)
        ensures
            r == (Legacy512Read {
                payload_len,
                stats: BulkReadStats { read_calls: 0, first_request_bytes: 0, last_request_bytes: 0 },
            }),
            bytes_mut_view(*final(buf)) == Seq::<u8>::empty(),
    {
        bytes_mut_clear(buf);
        Legacy512Read {
            payload_len,
            stats: BulkReadStats { read_calls: 0, first_request_bytes: 0, last_request_bytes: 0 },
        }
    }

    /// Whether another packet is to be read.
    pub fn needs_packet(&self, buf: &BytesMut) -> (r: bool)
        ensures
            r == (bytes_mut_view(*buf).len() < self.payload_len),
    {
        bytes_mut_len(buf) < self.payload_len
    }

    /// Records one packet read: it is appended to `buf` unless empty.
    pub fn record_packet(&mut self, buf: &mut BytesMut, packet: &[u8])
        requires
            packet@.len() <= FUNCTIONFS_BULK_OUT_MAX_PACKET_SIZE,
            old(self).stats.read_calls < usize::MAX,
            bytes_mut_view(*old(buf)).len() < old(self).payload_len,
            old(self).payload_len + FUNCTIONFS_BULK_OUT_MAX_PACKET_SIZE <= isize::MAX,
        ensures
            *final(self) == (Legacy512Read {
                stats: BulkReadStats {
                    read_calls: (old(self).stats.read_calls + 1) as usize,
                    first_request_bytes: if old(self).stats.read_calls == 0 {
                        FUNCTIONFS_BULK_OUT_MAX_PACKET_SIZE
                    } else {
                        old(self).stats.first_request_bytes
                    },
                    last_request_bytes: FUNCTIONFS_BULK_OUT_MAX_PACKET_SIZE,
                },
                ..*old(self)
            }),
            bytes_mut_view(*final(buf)) == bytes_mut_view(*old(buf)) + packet@,
    {
        self.stats.read_calls = self.stats.read_calls + 1;
        if self.stats.read_calls == 1 {
            self.stats.first_request_bytes = FUNCTIONFS_BULK_OUT_MAX_PACKET_SIZE;
        }
        self.stats.last_request_bytes = FUNCTIONFS_BULK_OUT_MAX_PACKET_SIZE;
        if packet.len() == 0 {
            assert(bytes_mut_view(*buf) + packet@ =~= bytes_mut_view(*buf));
            return ;
        }
        bytes_mut_extend_from_slice(buf, packet);
    }

    /// Ends the read: bytes past the payload are dropped. Returns how many.
    pub fn finish(&self, buf: &mut BytesMut) -> (r: usize)
        ensures
            bytes_mut_view(*old(buf)).len() > self.payload_len ==> bytes_mut_view(*final(buf))
                == bytes_mut_view(*old(buf)).take(self.payload_len as int) && r
                == bytes_mut_view(*old(buf)).len() - self.payload_len,
            bytes_mut_view(*old(buf)).len() <= self.payload_len ==> bytes_mut_view(*final(buf))
                == bytes_mut_view(*old(buf)) && r == 0,
    {
        let len = bytes_mut_len(buf);
        if len > self.payload_len {
            bytes_mut_truncate(buf, self.payload_len);
            len - self.payload_len
        } else {
            0
        }
    }
}

} // verus!
