//! The pixel data endpoint: how much of a SET_BUFFER payload is received,
//! the exact-transfer transaction, the diagnostic prearmed read, and turning
//! the received bytes into pixels (decompression, placement in the
//! framebuffer). The transport makes the reads and the endpoint requests and
//! reports their results here.
use vstd::prelude::*;
use bytes::BytesMut;
use std::time::Duration;
use std::time::Instant;
use crate::aio::{aio_step, AioError, AioStep, ExactAioState, ExactAioTransaction};
use crate::buffer::{bytes_mut_as_slice, bytes_mut_new, bytes_mut_len, bytes_mut_resize, bytes_mut_truncate, bytes_mut_view};
use crate::bulk::{
    packet_count, usb_packet_estimate, valid_functionfs_read_size, validate_functionfs_read_size,
    BulkReadError, BulkReadStats, FUNCTIONFS_BULK_OUT_MAX_PACKET_SIZE,
};
use crate::clock::{elapsed_since, millis_since, monotonic_now};
use crate::framebuffer::{copy_outcome, copy_rect_to_framebuffer, framebuffer_after_copy, CopyError};
use crate::gud::{SetBuffer, GUD_STATUS_BUSY, GUD_STATUS_ERROR};
use crate::lz4::{lz4_block_decode, lz4_decompress_to_buffer, LZ4_MAX_INPUT_SIZE};
use crate::protocol::{status_after_latch, status_after_success, GudState};

verus! {

/// What one received payload cost.
#[derive(Clone, Copy, Debug, PartialEq, Eq, Structural)]
pub struct PayloadStats {
    pub payload_seq: u64,
    pub transfer_bytes: usize,
    pub output_bytes: usize,
    /// Estimated USB data packets, excluding retries and protocol overhead.
    pub usb_packets_est: usize,
    pub read_calls: usize,
    pub read_size: usize,
    pub first_request_bytes: usize,
    pub last_request_bytes: usize,
    pub read_ms: u128,
    pub decompress_ms: u128,
    pub total_ms: u128,
}

impl Default for PayloadStats {
    /// All counts zero.
    fn default() -> (r: Self)
        ensures
            r == (PayloadStats {
                payload_seq: 0,
                transfer_bytes: 0,
                output_bytes: 0,
                usb_packets_est: 0,
                read_calls: 0,
                read_size: 0,
                first_request_bytes: 0,
                last_request_bytes: 0,
                read_ms: 0,
                decompress_ms: 0,
                total_ms: 0,
            }),
    {
        PayloadStats {
            payload_seq: 0,
            transfer_bytes: 0,
            output_bytes: 0,
            usb_packets_est: 0,
            read_calls: 0,
            read_size: 0,
            first_request_bytes: 0,
            last_request_bytes: 0,
            read_ms: 0,
            decompress_ms: 0,
            total_ms: 0,
        }
    }
}

/// What placing one rectangle in the framebuffer cost.
#[derive(Clone, Copy, Debug, PartialEq, Eq, Structural)]
pub struct CopyStats {
    pub copy_ms: u128,
}

/// A blocking read submitted before SET_BUFFER arrived.
#[derive(Clone, Copy, Debug, PartialEq, Eq, Structural)]
pub struct PrearmedRead {
    pub request_bytes: usize,
    pub lifecycle_generation: u64,
}

/// How an exact request failed to be submitted.
#[derive(Clone, Copy, Debug, PartialEq, Eq, Structural)]
pub enum SubmissionFailure {
    /// The buffer for the request did not have exactly the payload's size.
    AllocationMismatch,
    /// The endpoint refused the request.
    Refused,
}

/// Why an endpoint operation failed.
#[derive(Clone, Copy, Debug, PartialEq, Eq, Structural)]
pub enum EndpointError {
    ExactAioInLegacyMode,
    PrearmAndExactAio,
    Aio(AioError),
    PrearmInLegacyMode,
    AlreadyPrearmed,
    ReadSize(BulkReadError),
    PrearmExceedsReadSize { request_bytes: usize, read_size: usize },
    PrearmedReadMissing,
    PayloadExceedsPrearm { payload_len: usize, request_bytes: usize },
    PrearmedLengthMismatch {
        payload_seq: u64,
        expected: usize,
        request_bytes: usize,
        result_bytes: usize,
    },
    Decompress,
}

/// The state of the bulk OUT endpoint that pixel data arrives on.
pub struct PixelDataEndpoint {
    pub legacy_512: bool,
    pub read_size: usize,
    pub prearmed: Option<PrearmedRead>,
    pub exact_aio: ExactAioTransaction,
    pub payload_seq: u64,
    /// The payload as received.
    pub buf: BytesMut,
    /// The decompressed payload, when it was compressed.
    pub compress_buf: BytesMut,
}

/// How many bytes a SET_BUFFER request sends over the bulk endpoint: the
/// compressed length when compressed, else the length.
pub open spec fn transfer_len(info: SetBuffer) -> usize {
    if info.compression > 0 {
        info.compressed_length as usize
    } else {
        info.length as usize
    }
}

/// How many bytes a SET_BUFFER request sends over the bulk endpoint.
pub fn payload_transfer_len(info: &SetBuffer) -> (r: usize)
    ensures
        r == transfer_len(*info),
{
    if info.compression > 0 {
        info.compressed_length as usize
    } else {
        info.length as usize
    }
}

/// The sequence number after `s`, wrapping to zero.
pub open spec fn next_payload_seq(s: u64) -> u64 {
    if s == u64::MAX {
        0
    } else {
        (s + 1) as u64
    }
}

impl PixelDataEndpoint {
    /// An endpoint reading with `read_size` blocking reads, or in the legacy
    /// 512-byte mode.
    fn build(read_size: usize, legacy_512: bool) -> (r: PixelDataEndpoint)
        ensures
            r.legacy_512 == legacy_512,
            r.read_size == read_size,
            r.prearmed is None,
            r.exact_aio@.state == ExactAioState::Idle,
            r.exact_aio@.sequence == 0,
            r.exact_aio@.expected_bytes == 0,
            r.payload_seq == 0,
            bytes_mut_view(r.buf).len() == 0,
            bytes_mut_view(r.compress_buf).len() == 0,
    {
        PixelDataEndpoint {
            legacy_512,
            read_size,
            prearmed: None,
            exact_aio: ExactAioTransaction::default(),
            payload_seq: 0,
            buf: bytes_mut_new(),
            compress_buf: bytes_mut_new(),
        }
    }

    /// An endpoint that reads one 512-byte packet at a time.
    pub fn new_legacy_512() -> (r: PixelDataEndpoint)
        ensures
            r.legacy_512,
            r.read_size == FUNCTIONFS_BULK_OUT_MAX_PACKET_SIZE,
            r.prearmed is None,
            r.exact_aio@.state == ExactAioState::Idle,
            r.exact_aio@.sequence == 0,
            r.payload_seq == 0,
    {
        Self::build(FUNCTIONFS_BULK_OUT_MAX_PACKET_SIZE, true)
    }

    /// An endpoint that reads with blocking requests of at most `read_size`
    /// bytes, which must be a valid read size.
    pub fn new_with_read_size(read_size: usize) -> (r: Result<PixelDataEndpoint, BulkReadError>)
        ensures
            r is Ok <==> valid_functionfs_read_size(read_size),
            r is Err ==> r == Err::<PixelDataEndpoint, BulkReadError>(
                validate_functionfs_read_size_spec(read_size),
            ),
            r matches Ok(e) ==> {
                &&& !e.legacy_512
                &&& e.read_size == read_size
                &&& e.prearmed is None
                &&& e.exact_aio@.state == ExactAioState::Idle
                &&& e.exact_aio@.sequence == 0
                &&& e.payload_seq == 0
            },
    {
        match validate_functionfs_read_size(read_size) {
            Ok(()) => Ok(Self::build(read_size, false)),
            Err(e) => Err(e),
        }
    }

    /// Where the exact transfer stands.
    pub fn exact_aio_state(&self) -> (r: ExactAioState)
        ensures
            r == self.exact_aio.state,
    {
        self.exact_aio.state
    }

    /// The sequence number of the last armed exact transfer.
    pub fn exact_aio_sequence(&self) -> (r: u64)
        ensures
            r == self.exact_aio.sequence,
    {
        self.exact_aio.sequence
    }

    /// How long ago the outstanding exact transfer was armed, if one is.
    pub fn exact_aio_elapsed(&self) -> (r: Option<Duration>)
        ensures
            r is Some <==> self.exact_aio.started is Some,
    {
        match &self.exact_aio.started {
            Some(started) => Some(elapsed_since(started)),
            None => None,
        }
    }

    /// First half of arming an exact transfer for a validated SET_BUFFER:
    /// refused in the legacy mode and while a read is prearmed; otherwise the
    /// transaction is armed for the payload's transfer length. Returns the
    /// sequence number and the byte count to request; the caller then submits
    /// the request and reports the outcome.
    pub fn begin_exact_payload_aio(&mut self, info: &SetBuffer) -> (r: Result<
        (u64, usize),
        EndpointError,
    >)
        ensures
            old(self).legacy_512 ==> r == Err::<(u64, usize), EndpointError>(
                EndpointError::ExactAioInLegacyMode,
            ),
            !old(self).legacy_512 && old(self).prearmed is Some ==> r == Err::<
                (u64, usize),
                EndpointError,
            >(EndpointError::PrearmAndExactAio),
            (old(self).legacy_512 || old(self).prearmed is Some) ==> final(self).exact_aio@ == old(self).exact_aio@,
            !old(self).legacy_512 && old(self).prearmed is None ==> {
                &&& final(self).exact_aio@ == aio_step(
                    old(self).exact_aio@,
                    AioStep::BeginArm(transfer_len(*info)),
                )
                &&& match r {
                    Ok((seq, n)) => n == transfer_len(*info) && seq == final(self).exact_aio.sequence && final(self).exact_aio.state == ExactAioState::Arming,
                    Err(e) => e matches EndpointError::Aio(_) && final(self).exact_aio@ == old(self).exact_aio@,
                }
            },
            final(self).legacy_512 == old(self).legacy_512,
            final(self).read_size == old(self).read_size,
            final(self).prearmed == old(self).prearmed,
            final(self).payload_seq == old(self).payload_seq,
            bytes_mut_view(final(self).buf) == bytes_mut_view(old(self).buf),
            bytes_mut_view(final(self).compress_buf) == bytes_mut_view(old(self).compress_buf),
    {
        if self.legacy_512 {
            return Err(EndpointError::ExactAioInLegacyMode);
        }
        if self.prearmed.is_some() {
            return Err(EndpointError::PrearmAndExactAio);
        }
        let expected_bytes = payload_transfer_len(info);
        match self.exact_aio.begin_arm(expected_bytes) {
            Ok(sequence) => Ok((sequence, expected_bytes)),
            Err(e) => Err(EndpointError::Aio(e)),
        }
    }

    /// The exact request could not be submitted: the transaction returns to
    /// idle, and a refusal by the endpoint is reported as an error status.
    pub fn exact_payload_submission_failed(
        &mut self,
        gud: &mut GudState,
        failure: SubmissionFailure,
    ) -> (r: Result<(), AioError>)
        ensures
            final(self).exact_aio@ == aio_step(old(self).exact_aio@, AioStep::Rejected),
            r is Ok <==> old(self).exact_aio.state == ExactAioState::Arming,
            r is Ok && failure == SubmissionFailure::Refused ==> final(gud).status
                == status_after_latch(old(gud).status, GUD_STATUS_ERROR),
            !(r is Ok && failure == SubmissionFailure::Refused) ==> final(gud).status == old(gud).status,
            final(gud).protocol == old(gud).protocol,
            final(gud).validation == old(gud).validation,
            final(self).payload_seq == old(self).payload_seq,
            final(self).prearmed == old(self).prearmed,
            final(self).legacy_512 == old(self).legacy_512,
            final(self).read_size == old(self).read_size,
    {
        self.exact_aio.submission_rejected()?;
        if failure == SubmissionFailure::Refused {
            gud.latch_status(GUD_STATUS_ERROR);
        }
        Ok(())
    }

    /// The endpoint accepted the exact request before the status was sent:
    /// the request counts as a success. Returns the sequence number.
    pub fn exact_payload_submission_accepted(&mut self, gud: &mut GudState) -> (r: Result<
        u64,
        AioError,
    >)
        ensures
            final(self).exact_aio@ == aio_step(old(self).exact_aio@, AioStep::Accepted),
            r is Ok <==> old(self).exact_aio.state == ExactAioState::Arming,
            r is Ok ==> r == Ok::<u64, AioError>(old(self).exact_aio.sequence) && final(gud).status
                == status_after_success(old(gud).status),
            r is Err ==> final(gud).status == old(gud).status,
            final(gud).protocol == old(gud).protocol,
            final(gud).validation == old(gud).validation,
            final(self).payload_seq == old(self).payload_seq,
            final(self).prearmed == old(self).prearmed,
            final(self).legacy_512 == old(self).legacy_512,
            final(self).read_size == old(self).read_size,
    {
        self.exact_aio.submission_accepted()?;
        gud.mark_success();
        Ok(self.exact_aio.sequence)
    }

    /// A status byte was sent to the host.
    pub fn note_status_sent(&mut self, status: u8) -> (r: Result<(), AioError>)
        ensures
            final(self).exact_aio@ == aio_step(old(self).exact_aio@, AioStep::StatusSent(status)),
            r is Err <==> (old(self).exact_aio.state == ExactAioState::ArmedAwaitStatus && status
                != crate::gud::GUD_STATUS_OK),
            final(self).payload_seq == old(self).payload_seq,
            final(self).prearmed == old(self).prearmed,
    {
        self.exact_aio.status_sent(status)
    }

    /// Whether an accepted exact request may have completed and is to be
    /// polled.
    pub fn exact_payload_aio_in_flight(&self) -> (r: bool)
        ensures
            r <==> (self.exact_aio.state == ExactAioState::ArmedAwaitStatus
                || self.exact_aio.state == ExactAioState::Receiving),
    {
        match self.exact_aio.state {
            ExactAioState::ArmedAwaitStatus => true,
            ExactAioState::Receiving => true,
            _ => false,
        }
    }

    /// The exact request completed with the bytes in `received`. Only a
    /// completion of exactly the armed size while receiving is taken: the
    /// bytes become the payload, the payload sequence advances and the
    /// transaction returns to idle. Anything else poisons the transaction and
    /// leaves the payload as it was.
    pub fn complete_exact_payload_aio(&mut self, received: BytesMut, output_bytes: usize) -> (r:
        Result<PayloadStats, AioError>)
        ensures
            ({
                let n = bytes_mut_view(received).len() as usize;
                let done = aio_step(old(self).exact_aio@, AioStep::Completion(n));
                if done.state == ExactAioState::Completed {
                    &&& final(self).exact_aio@ == aio_step(done, AioStep::ReturnIdle)
                    &&& bytes_mut_view(final(self).buf) == bytes_mut_view(received)
                    &&& final(self).payload_seq == next_payload_seq(old(self).payload_seq)
                    &&& r matches Ok(stats) && stats == (PayloadStats {
                        payload_seq: final(self).payload_seq,
                        transfer_bytes: n,
                        output_bytes,
                        usb_packets_est: packet_count(n as int) as usize,
                        read_calls: 1,
                        read_size: n,
                        first_request_bytes: n,
                        last_request_bytes: n,
                        read_ms: stats.read_ms,
                        decompress_ms: 0,
                        total_ms: 0,
                    })
                } else {
                    &&& final(self).exact_aio@ == done
                    &&& r is Err
                    &&& bytes_mut_view(final(self).buf) == bytes_mut_view(old(self).buf)
                    &&& final(self).payload_seq == old(self).payload_seq
                }
            }),
            final(self).prearmed == old(self).prearmed,
            final(self).legacy_512 == old(self).legacy_512,
            final(self).read_size == old(self).read_size,
            bytes_mut_view(final(self).compress_buf) == bytes_mut_view(old(self).compress_buf),
    {
        let actual_bytes = bytes_mut_len(&received);
        let expected_bytes = self.exact_aio.expected_bytes;
        self.exact_aio.completion(actual_bytes)?;
        self.buf = received;
        let read_ms = match &self.exact_aio.started {
            Some(started) => millis_since(started),
            None => 0,
        };
        self.payload_seq = self.payload_seq.wrapping_add(1);
        let stats = PayloadStats {
            payload_seq: self.payload_seq,
            transfer_bytes: expected_bytes,
            output_bytes,
            usb_packets_est: usb_packet_estimate(expected_bytes),
            read_calls: 1,
            read_size: expected_bytes,
            first_request_bytes: expected_bytes,
            last_request_bytes: expected_bytes,
            read_ms,
            decompress_ms: 0,
            total_ms: 0,
        };
        self.exact_aio.return_idle()?;
        Ok(stats)
    }

    /// Gives the exact transfer up (suspend, disconnect, timeout): the
    /// transaction is poisoned and the host is told the device is busy.
    pub fn poison_exact_payload_aio(&mut self, gud: &mut GudState)
        ensures
            final(self).exact_aio@ == aio_step(old(self).exact_aio@, AioStep::Poison),
            final(gud).status == status_after_latch(old(gud).status, GUD_STATUS_BUSY),
            final(gud).protocol == old(gud).protocol,
            final(gud).validation == old(gud).validation,
            final(self).payload_seq == old(self).payload_seq,
            final(self).prearmed == old(self).prearmed,
    {
        self.exact_aio.poison();
        gud.latch_status(GUD_STATUS_BUSY);
    }

    /// Starts receiving the payload of a SET_BUFFER request: the payload
    /// sequence advances. Returns the new sequence number and the number of
    /// bytes to receive.
    pub fn start_payload_receive(&mut self, info: &SetBuffer) -> (r: (u64, usize))
        ensures
            r == (next_payload_seq(old(self).payload_seq), transfer_len(*info)),
            final(self).payload_seq == r.0,
            final(self).prearmed == old(self).prearmed,
            final(self).legacy_512 == old(self).legacy_512,
            final(self).read_size == old(self).read_size,
            final(self).exact_aio@ == old(self).exact_aio@,
            bytes_mut_view(final(self).buf) == bytes_mut_view(old(self).buf),
            bytes_mut_view(final(self).compress_buf) == bytes_mut_view(old(self).compress_buf),
    {
        self.payload_seq = self.payload_seq.wrapping_add(1);
        (self.payload_seq, payload_transfer_len(info))
    }

    /// The statistics of a payload received with blocking reads.
    pub fn received_payload_stats(
        &self,
        info: &SetBuffer,
        payload_seq: u64,
        payload_len: usize,
        bulk_stats: BulkReadStats,
        read_ms: u128,
    ) -> (r: PayloadStats)
        ensures
            r == (PayloadStats {
                payload_seq,
                transfer_bytes: payload_len,
                output_bytes: info.length as usize,
                usb_packets_est: packet_count(payload_len as int) as usize,
                read_calls: bulk_stats.read_calls,
                read_size: self.read_size,
                first_request_bytes: bulk_stats.first_request_bytes,
                last_request_bytes: bulk_stats.last_request_bytes,
                read_ms,
                decompress_ms: 0,
                total_ms: 0,
            }),
    {
        PayloadStats {
            payload_seq,
            transfer_bytes: payload_len,
            output_bytes: info.length as usize,
            usb_packets_est: usb_packet_estimate(payload_len),
            read_calls: bulk_stats.read_calls,
            read_size: self.read_size,
            first_request_bytes: bulk_stats.first_request_bytes,
            last_request_bytes: bulk_stats.last_request_bytes,
            read_ms,
            decompress_ms: 0,
            total_ms: 0,
        }
    }

    /// Checks that a read of `request_bytes` may be prearmed: not in the
    /// legacy mode, none prearmed yet, a valid read size no larger than the
    /// configured one.
    pub fn check_prearm_payload_read(&self, request_bytes: usize) -> (r: Result<(), EndpointError>)
        ensures
            r == (if self.legacy_512 {
                Err::<(), EndpointError>(EndpointError::PrearmInLegacyMode)
            } else if self.prearmed is Some {
                Err(EndpointError::AlreadyPrearmed)
            } else if !valid_functionfs_read_size(request_bytes) {
                Err(EndpointError::ReadSize(validate_functionfs_read_size_spec(request_bytes)))
            } else if request_bytes > self.read_size {
                Err(
                    EndpointError::PrearmExceedsReadSize {
                        request_bytes,
                        read_size: self.read_size,
                    },
                )
            } else {
                Ok(())
            }),
    {
        if self.legacy_512 {
            return Err(EndpointError::PrearmInLegacyMode);
        }
        if self.prearmed.is_some() {
            return Err(EndpointError::AlreadyPrearmed);
        }
        match validate_functionfs_read_size(request_bytes) {
            Ok(()) => {},
            Err(e) => return Err(EndpointError::ReadSize(e)),
        }
        if request_bytes > self.read_size {
            return Err(
                EndpointError::PrearmExceedsReadSize { request_bytes, read_size: self.read_size },
            );
        }
        Ok(())
    }

    /// Records a read submitted before SET_BUFFER.
    pub fn record_prearmed_read(&mut self, request_bytes: usize, lifecycle_generation: u64)
        ensures
            final(self).prearmed == Some(PrearmedRead { request_bytes, lifecycle_generation }),
            final(self).payload_seq == old(self).payload_seq,
            final(self).legacy_512 == old(self).legacy_512,
            final(self).read_size == old(self).read_size,
            final(self).exact_aio@ == old(self).exact_aio@,
    {
        self.prearmed = Some(PrearmedRead { request_bytes, lifecycle_generation });
    }

    /// Takes the prearmed read to complete a payload of `payload_len` bytes,
    /// which must fit in it.
    pub fn take_prearmed_read(&mut self, payload_len: usize) -> (r: Result<
        PrearmedRead,
        EndpointError,
    >)
        ensures
            final(self).prearmed is None,
            r == (match old(self).prearmed {
                None => Err::<PrearmedRead, EndpointError>(EndpointError::PrearmedReadMissing),
                Some(p) => if payload_len <= p.request_bytes {
                    Ok(p)
                } else {
                    Err(
                        EndpointError::PayloadExceedsPrearm {
                            payload_len,
                            request_bytes: p.request_bytes,
                        },
                    )
                },
            }),
            final(self).payload_seq == old(self).payload_seq,
            final(self).legacy_512 == old(self).legacy_512,
            final(self).read_size == old(self).read_size,
            final(self).exact_aio@ == old(self).exact_aio@,
    {
        let prearmed = match self.prearmed.take() {
            Some(p) => p,
            None => return Err(EndpointError::PrearmedReadMissing),
        };
        if payload_len > prearmed.request_bytes {
            return Err(
                EndpointError::PayloadExceedsPrearm {
                    payload_len,
                    request_bytes: prearmed.request_bytes,
                },
            );
        }
        Ok(prearmed)
    }

    /// The prearmed read returned `bytes_read` bytes into `received`: only
    /// exactly the payload length is taken, and becomes the payload.
    pub fn finish_prearmed_payload_read(
        &mut self,
        prearmed: PrearmedRead,
        payload_seq: u64,
        payload_len: usize,
        received: BytesMut,
        bytes_read: usize,
    ) -> (r: Result<BulkReadStats, EndpointError>)
        ensures
            bytes_read != payload_len ==> r == Err::<BulkReadStats, EndpointError>(
                EndpointError::PrearmedLengthMismatch {
                    payload_seq,
                    expected: payload_len,
                    request_bytes: prearmed.request_bytes,
                    result_bytes: bytes_read,
                },
            ) && bytes_mut_view(final(self).buf) == bytes_mut_view(old(self).buf),
            bytes_read == payload_len ==> r == Ok::<BulkReadStats, EndpointError>(
                BulkReadStats {
                    read_calls: 1,
                    first_request_bytes: prearmed.request_bytes,
                    last_request_bytes: prearmed.request_bytes,
                },
            ) && bytes_mut_view(final(self).buf) == (if bytes_read <= bytes_mut_view(
                received,
            ).len() {
                bytes_mut_view(received).take(bytes_read as int)
            } else {
                bytes_mut_view(received)
            }),
            final(self).payload_seq == old(self).payload_seq,
            final(self).prearmed == old(self).prearmed,
            final(self).exact_aio@ == old(self).exact_aio@,
    {
        if bytes_read != payload_len {
            return Err(
                EndpointError::PrearmedLengthMismatch {
                    payload_seq,
                    expected: payload_len,
                    request_bytes: prearmed.request_bytes,
                    result_bytes: bytes_read,
                },
            );
        }
        let mut received = received;
        bytes_mut_truncate(&mut received, bytes_read);
        self.buf = received;
        Ok(
            BulkReadStats {
                read_calls: 1,
                first_request_bytes: prearmed.request_bytes,
                last_request_bytes: prearmed.request_bytes,
            },
        )
    }

    /// Turns the received payload into pixels: a compressed payload is
    /// decompressed into the decompression buffer, grown to the frame's
    /// length if shorter, and that buffer is the result; an uncompressed
    /// payload is the result as received. The total time is recorded.
    pub fn finish_payload(
        &mut self,
        info: &SetBuffer,
        stats: PayloadStats,
        processing_start: &Instant,
    ) -> (r: Result<PayloadStats, EndpointError>)
        requires
            info.length <= isize::MAX,
        ensures
            info.compression == 0 ==> {
                &&& r matches Ok(s) && s == (PayloadStats { total_ms: s.total_ms, ..stats })
                &&& bytes_mut_view(final(self).compress_buf) == bytes_mut_view(
                    old(self).compress_buf,
                )
            },
            info.compression > 0 ==> {
                let room = if bytes_mut_view(old(self).compress_buf).len() < info.length {
                    info.length as int
                } else {
                    bytes_mut_view(old(self).compress_buf).len() as int
                };
                &&& bytes_mut_view(final(self).compress_buf).len() == room
                &&& info.length > LZ4_MAX_INPUT_SIZE ==> r == Err::<PayloadStats, EndpointError>(
                    EndpointError::Decompress,
                )
                &&& info.length <= LZ4_MAX_INPUT_SIZE ==> match lz4_block_decode(
                    bytes_mut_view(old(self).buf),
                    info.length as int,
                ) {
                    Some(out) => {
                        &&& r matches Ok(s) && s == (PayloadStats {
                            decompress_ms: s.decompress_ms,
                            total_ms: s.total_ms,
                            ..stats
                        })
                        &&& bytes_mut_view(final(self).compress_buf).take(out.len() as int) == out
                    },
                    None => r == Err::<PayloadStats, EndpointError>(EndpointError::Decompress),
                }
            },
            bytes_mut_view(final(self).buf) == bytes_mut_view(old(self).buf),
            final(self).payload_seq == old(self).payload_seq,
            final(self).prearmed == old(self).prearmed,
            final(self).exact_aio@ == old(self).exact_aio@,
            final(self).legacy_512 == old(self).legacy_512,
            final(self).read_size == old(self).read_size,
    {
        let mut stats = stats;
        if info.compression > 0 {
            let decompress_start = monotonic_now();
            let length = info.length as usize;
            if bytes_mut_len(&self.compress_buf) < length {
                bytes_mut_resize(&mut self.compress_buf, length, 0);
            }
            let size = #[verifier::truncate] (info.length as i32);
            proof {
                let l = info.length;
                assert(l <= 0x7fff_ffffu32 ==> (l as i32) == l) by (bit_vector);
                assert(l > 0x7fff_ffffu32 ==> (l as i32) < 0) by (bit_vector);
            }
            let src = bytes_mut_as_slice(&self.buf);
            match lz4_decompress_to_buffer(src, size, &mut self.compress_buf) {
                Ok(_) => {},
                Err(_) => return Err(EndpointError::Decompress),
            }
            stats.decompress_ms = millis_since(&decompress_start);
        }
        stats.total_ms = stats.read_ms.saturating_add(millis_since(processing_start));
        Ok(stats)
    }

    /// The pixels of the last payload: the decompression buffer when the
    /// request was compressed, else the payload as received.
    pub fn payload_pixels(&self, info: &SetBuffer) -> (r: &[u8])
        ensures
            info.compression > 0 ==> r@ == bytes_mut_view(self.compress_buf),
            info.compression == 0 ==> r@ == bytes_mut_view(self.buf),
    {
        if info.compression > 0 {
            bytes_mut_as_slice(&self.compress_buf)
        } else {
            bytes_mut_as_slice(&self.buf)
        }
    }

    /// Copies the rectangle of `info` from `buf` into the framebuffer.
    pub fn copy_buffer_to_framebuffer(
        info: &SetBuffer,
        buf: &[u8],
        fb: &mut [u8],
        fb_pitch: usize,
        bpp: usize,
    ) -> (r: Result<(), CopyError>)
        ensures
            r == copy_outcome(*info, buf@.len(), old(fb)@.len(), fb_pitch, bpp),
            r is Ok ==> final(fb)@ == framebuffer_after_copy(*info, buf@, old(fb)@, fb_pitch, bpp),
            r is Err ==> final(fb)@ == old(fb)@,
    {
        match Self::copy_buffer_to_framebuffer_with_stats(info, buf, fb, fb_pitch, bpp) {
            Ok(_) => Ok(()),
            Err(e) => Err(e),
        }
    }

    /// Copies the rectangle of `info` from `buf` into the framebuffer and
    /// reports how long it took.
    pub fn copy_buffer_to_framebuffer_with_stats(
        info: &SetBuffer,
        buf: &[u8],
        fb: &mut [u8],
        fb_pitch: usize,
        bpp: usize,
    ) -> (r: Result<CopyStats, CopyError>)
        ensures
            match copy_outcome(*info, buf@.len(), old(fb)@.len(), fb_pitch, bpp) {
                Ok(()) => r is Ok,
                Err(e) => r == Err::<CopyStats, CopyError>(e),
            },
            r is Ok ==> final(fb)@ == framebuffer_after_copy(*info, buf@, old(fb)@, fb_pitch, bpp),
            r is Err ==> final(fb)@ == old(fb)@,
    {
        let copy_start = monotonic_now();
        match copy_rect_to_framebuffer(info, buf, fb, fb_pitch, bpp) {
            Ok(()) => Ok(CopyStats { copy_ms: millis_since(&copy_start) }),
            Err(e) => Err(e),
        }
    }
}

/// The error a read size is refused with, if it is.
pub open spec fn validate_functionfs_read_size_spec(read_size: usize) -> BulkReadError {
    if !(crate::bulk::FUNCTIONFS_BULK_OUT_MIN_READ_SIZE <= read_size
        <= crate::bulk::FUNCTIONFS_BULK_OUT_MAX_READ_SIZE) {
        BulkReadError::ReadSizeOutOfRange { read_size }
    } else {
        BulkReadError::ReadSizeUnaligned { read_size }
    }
}

} // verus!
