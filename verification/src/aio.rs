//! The exact-transfer transaction of the bulk OUT endpoint: one request of
//! exactly the payload size is armed before the status of SET_BUFFER is sent,
//! and completes only with exactly that many bytes. Any step out of order
//! poisons the transaction for good.
use vstd::prelude::*;
use std::time::Instant;
use crate::clock::monotonic_now;
use crate::gud::GUD_STATUS_OK;

verus! {

/// The largest payload one exact transfer may carry.
pub const MAX_EXACT_AIO_PAYLOAD_SIZE: usize = 64 * 1024 * 1024;

/// Where an exact transfer stands.
#[derive(Clone, Copy, Debug, PartialEq, Eq, Structural)]
pub enum ExactAioState {
    Idle,
    Arming,
    ArmedAwaitStatus,
    Receiving,
    Completed,
    Poisoned,
}

/// A step of an exact transfer that the transaction was told about.
#[derive(Clone, Copy, Debug, PartialEq, Eq, Structural)]
pub enum AioStep {
    BeginArm(usize),
    Accepted,
    Rejected,
    StatusSent(u8),
    Completion(usize),
    ReturnIdle,
    Poison,
}

/// Why a step of an exact transfer was refused.
#[derive(Clone, Copy, Debug, PartialEq, Eq, Structural)]
pub enum AioError {
    ArmWhileBusy { state: ExactAioState },
    EmptyPayload,
    PayloadTooLarge { expected_bytes: usize },
    AcceptOutsideArming { state: ExactAioState },
    RejectOutsideArming { state: ExactAioState },
    StatusNotOk { status: u8 },
    UnexpectedCompletion { state: ExactAioState },
    CompletionLengthMismatch { expected: usize, actual: usize },
    IdleWithoutCompletion { state: ExactAioState },
}

/// The part of a transaction its rules speak of.
#[derive(Clone, Copy, Debug, PartialEq, Eq, Structural)]
pub struct AioProgress {
    pub state: ExactAioState,
    pub sequence: u64,
    pub expected_bytes: usize,
}

/// One exact transfer at a time: its state, the sequence number of the last
/// armed transfer, the byte count it waits for and when it was armed.
#[derive(Debug)]
pub struct ExactAioTransaction {
    pub state: ExactAioState,
    pub sequence: u64,
    pub expected_bytes: usize,
    pub started: Option<Instant>,
}

impl View for ExactAioTransaction {
    type V = AioProgress;

    open spec fn view(&self) -> AioProgress {
        AioProgress {
            state: self.state,
            sequence: self.sequence,
            expected_bytes: self.expected_bytes,
        }
    }
}

/// The sequence number after `s`, wrapping to zero.
pub open spec fn next_sequence(s: u64) -> u64 {
    if s == u64::MAX {
        0
    } else {
        (s + 1) as u64
    }
}

/// Whether arming a transfer of `n` bytes is accepted in state `state`.
pub open spec fn arm_accepted(state: ExactAioState, n: usize) -> bool {
    state == ExactAioState::Idle && 0 < n <= MAX_EXACT_AIO_PAYLOAD_SIZE
}

/// The transaction after `step`.
pub open spec fn aio_step(p: AioProgress, step: AioStep) -> AioProgress {
    match step {
        AioStep::BeginArm(n) => if arm_accepted(p.state, n) {
            AioProgress {
                state: ExactAioState::Arming,
                sequence: next_sequence(p.sequence),
                expected_bytes: n,
            }
        } else {
            p
        },
        AioStep::Accepted => if p.state == ExactAioState::Arming {
            AioProgress { state: ExactAioState::ArmedAwaitStatus, ..p }
        } else {
            p
        },
        AioStep::Rejected => if p.state == ExactAioState::Arming {
            AioProgress { state: ExactAioState::Idle, expected_bytes: 0, ..p }
        } else {
            p
        },
        AioStep::StatusSent(status) => if p.state == ExactAioState::ArmedAwaitStatus && status
            == GUD_STATUS_OK {
            AioProgress { state: ExactAioState::Receiving, ..p }
        } else {
            p
        },
        AioStep::Completion(n) => if p.state == ExactAioState::Receiving && n == p.expected_bytes {
            AioProgress { state: ExactAioState::Completed, ..p }
        } else {
            AioProgress { state: ExactAioState::Poisoned, ..p }
        },
        AioStep::ReturnIdle => if p.state == ExactAioState::Completed {
            AioProgress { state: ExactAioState::Idle, expected_bytes: 0, ..p }
        } else {
            p
        },
        AioStep::Poison => AioProgress { state: ExactAioState::Poisoned, ..p },
    }
}

/// The transaction after the steps, in order.
pub open spec fn aio_run(p: AioProgress, steps: Seq<AioStep>) -> AioProgress
    decreases steps.len(),
{
    if steps.len() == 0 {
        p
    } else {
        aio_step(aio_run(p, steps.drop_last()), steps.last())
    }
}

impl Default for ExactAioTransaction {
    /// An idle transaction that has armed nothing yet.
    fn default() -> (r: Self)
        ensures
            r@ == (AioProgress { state: ExactAioState::Idle, sequence: 0, expected_bytes: 0 }),
            r.started is None,
    {
        ExactAioTransaction {
            state: ExactAioState::Idle,
            sequence: 0,
            expected_bytes: 0,
            started: None,
        }
    }
}

impl ExactAioTransaction {
    /// Arms a transfer of `expected_bytes`; only an idle transaction can be
    /// armed, and only for a non-empty payload of at most 64 MiB. Returns the
    /// new sequence number.
    pub fn begin_arm(&mut self, expected_bytes: usize) -> (r: Result<u64, AioError>)
        ensures
            final(self)@ == aio_step(old(self)@, AioStep::BeginArm(expected_bytes)),
            old(self).state != ExactAioState::Idle ==> r == Err::<u64, AioError>(
                AioError::ArmWhileBusy { state: old(self).state },
            ),
            old(self).state == ExactAioState::Idle && expected_bytes == 0 ==> r == Err::<
                u64,
                AioError,
            >(AioError::EmptyPayload),
            old(self).state == ExactAioState::Idle && expected_bytes > MAX_EXACT_AIO_PAYLOAD_SIZE
                ==> r == Err::<u64, AioError>(AioError::PayloadTooLarge { expected_bytes }),
            arm_accepted(old(self).state, expected_bytes) ==> r == Ok::<u64, AioError>(
                next_sequence(old(self).sequence),
            ) && final(self).started is Some,
            !arm_accepted(old(self).state, expected_bytes) ==> final(self).started
                == old(self).started,
    {
        if self.state != ExactAioState::Idle {
            return Err(AioError::ArmWhileBusy { state: self.state });
        }
        if expected_bytes == 0 {
            return Err(AioError::EmptyPayload);
        }
        if expected_bytes > MAX_EXACT_AIO_PAYLOAD_SIZE {
            return Err(AioError::PayloadTooLarge { expected_bytes });
        }
        self.sequence = self.sequence.wrapping_add(1);
        self.expected_bytes = expected_bytes;
        self.started = Some(monotonic_now());
        self.state = ExactAioState::Arming;
        Ok(self.sequence)
    }

    /// The armed request was accepted by the endpoint.
    pub fn submission_accepted(&mut self) -> (r: Result<(), AioError>)
        ensures
            final(self)@ == aio_step(old(self)@, AioStep::Accepted),
            final(self).started == old(self).started,
            r == (if old(self).state == ExactAioState::Arming {
                Ok::<(), AioError>(())
            } else {
                Err(AioError::AcceptOutsideArming { state: old(self).state })
            }),
    {
        if self.state != ExactAioState::Arming {
            return Err(AioError::AcceptOutsideArming { state: self.state });
        }
        self.state = ExactAioState::ArmedAwaitStatus;
        Ok(())
    }

    /// The armed request was refused by the endpoint: back to idle.
    pub fn submission_rejected(&mut self) -> (r: Result<(), AioError>)
        ensures
            final(self)@ == aio_step(old(self)@, AioStep::Rejected),
            r == (if old(self).state == ExactAioState::Arming {
                Ok::<(), AioError>(())
            } else {
                Err(AioError::RejectOutsideArming { state: old(self).state })
            }),
            r is Ok ==> final(self).started is None,
            r is Err ==> final(self).started == old(self).started,
    {
        if self.state != ExactAioState::Arming {
            return Err(AioError::RejectOutsideArming { state: self.state });
        }
        self.state = ExactAioState::Idle;
        self.expected_bytes = 0;
        self.started = None;
        Ok(())
    }

    /// A status was sent to the host. Only an accepted request that waits for
    /// it moves on, and only on an OK status; in any other state this is no
    /// step of the transfer.
    pub fn status_sent(&mut self, status: u8) -> (r: Result<(), AioError>)
        ensures
            final(self)@ == aio_step(old(self)@, AioStep::StatusSent(status)),
            final(self).started == old(self).started,
            r == (if old(self).state == ExactAioState::ArmedAwaitStatus && status
                != GUD_STATUS_OK {
                Err::<(), AioError>(AioError::StatusNotOk { status })
            } else {
                Ok(())
            }),
    {
        if self.state != ExactAioState::ArmedAwaitStatus {
            return Ok(());
        }
        if status != GUD_STATUS_OK {
            return Err(AioError::StatusNotOk { status });
        }
        self.state = ExactAioState::Receiving;
        Ok(())
    }

    /// The request completed with `actual_bytes`. Anything but the exact
    /// count while receiving poisons the transaction.
    pub fn completion(&mut self, actual_bytes: usize) -> (r: Result<(), AioError>)
        ensures
            final(self)@ == aio_step(old(self)@, AioStep::Completion(actual_bytes)),
            final(self).started == old(self).started,
            r == (if old(self).state != ExactAioState::Receiving {
                Err::<(), AioError>(AioError::UnexpectedCompletion { state: old(self).state })
            } else if actual_bytes != old(self).expected_bytes {
                Err(
                    AioError::CompletionLengthMismatch {
                        expected: old(self).expected_bytes,
                        actual: actual_bytes,
                    },
                )
            } else {
                Ok(())
            }),
    {
        if self.state != ExactAioState::Receiving {
            let previous = self.state;
            self.state = ExactAioState::Poisoned;
            return Err(AioError::UnexpectedCompletion { state: previous });
        }
        if actual_bytes != self.expected_bytes {
            self.state = ExactAioState::Poisoned;
            return Err(
                AioError::CompletionLengthMismatch {
                    expected: self.expected_bytes,
                    actual: actual_bytes,
                },
            );
        }
        self.state = ExactAioState::Completed;
        Ok(())
    }

    /// A completed transfer was consumed: back to idle.
    pub fn return_idle(&mut self) -> (r: Result<(), AioError>)
        ensures
            final(self)@ == aio_step(old(self)@, AioStep::ReturnIdle),
            r == (if old(self).state == ExactAioState::Completed {
                Ok::<(), AioError>(())
            } else {
                Err(AioError::IdleWithoutCompletion { state: old(self).state })
            }),
            r is Ok ==> final(self).started is None,
            r is Err ==> final(self).started == old(self).started,
    {
        if self.state != ExactAioState::Completed {
            return Err(AioError::IdleWithoutCompletion { state: self.state });
        }
        self.state = ExactAioState::Idle;
        self.expected_bytes = 0;
        self.started = None;
        Ok(())
    }

    /// Gives the transfer up for good.
    pub fn poison(&mut self)
        ensures
            final(self)@ == aio_step(old(self)@, AioStep::Poison),
            final(self).started == old(self).started,
    {
        self.state = ExactAioState::Poisoned;
    }
}

/// A poisoned transaction stays poisoned whatever it is told next.
pub proof fn lemma_poisoned_is_terminal(p: AioProgress, steps: Seq<AioStep>)
    requires
        p.state == ExactAioState::Poisoned,
    ensures
        aio_run(p, steps).state == ExactAioState::Poisoned,
    decreases steps.len(),
{
    if steps.len() > 0 {
        lemma_poisoned_is_terminal(p, steps.drop_last());
    }
}

/// A completion finishes the transfer exactly when the transaction is
/// receiving and the byte count is the armed one; otherwise it poisons it.
pub proof fn lemma_completion_is_exact(p: AioProgress, actual_bytes: usize)
    ensures
        aio_step(p, AioStep::Completion(actual_bytes)).state == ExactAioState::Completed
            <==> (p.state == ExactAioState::Receiving && actual_bytes == p.expected_bytes),
        aio_step(p, AioStep::Completion(actual_bytes)).state != ExactAioState::Completed
            ==> aio_step(p, AioStep::Completion(actual_bytes)).state == ExactAioState::Poisoned,
{
}

/// Data is received only after the request was accepted and an OK status
/// was sent: no other step enters the receiving state.
pub proof fn lemma_receiving_follows_ok_status(p: AioProgress, step: AioStep)
    requires
        p.state != ExactAioState::Receiving,
        aio_step(p, step).state == ExactAioState::Receiving,
    ensures
        p.state == ExactAioState::ArmedAwaitStatus,
        step == AioStep::StatusSent(GUD_STATUS_OK),
{
}

/// The sequence number moves only when a transfer is armed, and then by one.
pub proof fn lemma_sequence_moves_only_on_arm(p: AioProgress, step: AioStep)
    ensures
        (step matches AioStep::BeginArm(n) && arm_accepted(p.state, n)) ==> aio_step(
            p,
            step,
        ).sequence == next_sequence(p.sequence),
        !(step matches AioStep::BeginArm(n) && arm_accepted(p.state, n)) ==> aio_step(
            p,
            step,
        ).sequence == p.sequence,
{
}

/// A refused arm changes nothing: a second SET_BUFFER while a transfer is
/// outstanding neither takes a sequence number nor disturbs the transfer.
pub proof fn lemma_refused_arm_changes_nothing(p: AioProgress, n: usize)
    requires
        !arm_accepted(p.state, n),
    ensures
        aio_step(p, AioStep::BeginArm(n)) == p,
{
}

/// The full exchange from idle (arm, acceptance, OK status, exact completion,
/// consumption) returns to idle with the next sequence number.
pub proof fn lemma_exact_exchange_returns_to_idle(p: AioProgress, n: usize)
    requires
        p.state == ExactAioState::Idle,
        0 < n <= MAX_EXACT_AIO_PAYLOAD_SIZE,
    ensures
        aio_run(
            p,
            seq![
                AioStep::BeginArm(n),
                AioStep::Accepted,
                AioStep::StatusSent(GUD_STATUS_OK),
                AioStep::Completion(n),
                AioStep::ReturnIdle,
            ],
        ) == (AioProgress {
            state: ExactAioState::Idle,
            sequence: next_sequence(p.sequence),
            expected_bytes: 0,
        }),
{
    let steps = seq![
        AioStep::BeginArm(n),
        AioStep::Accepted,
        AioStep::StatusSent(GUD_STATUS_OK),
        AioStep::Completion(n),
        AioStep::ReturnIdle,
    ];
    assert(steps.drop_last().drop_last().drop_last().drop_last().drop_last() =~= Seq::<
        AioStep,
    >::empty());
    reveal_with_fuel(aio_run, 6);
}

} // verus!
