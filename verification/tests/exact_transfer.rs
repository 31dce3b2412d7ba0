use gud_gadget::aio::{ExactAioState, ExactAioTransaction};
use gud_gadget::gud::GUD_STATUS_OK;

#[derive(Debug, PartialEq, Eq)]
enum SimulatedOperation {
    SetBufferValidated(usize),
    GuardEntered,
    Submit(usize),
    SubmitAccepted,
    StatusOk,
    Bulk(usize),
    Completion(usize),
    Idle,
}

fn simulate_status_on_set(
    payload_bytes: usize,
    submit_accepted: bool,
    completion: Option<usize>,
) -> (ExactAioTransaction, Vec<SimulatedOperation>) {
    let mut transaction = ExactAioTransaction::default();
    let mut operations = vec![
        SimulatedOperation::SetBufferValidated(payload_bytes),
        SimulatedOperation::GuardEntered,
    ];
    transaction.begin_arm(payload_bytes).unwrap();
    operations.push(SimulatedOperation::Submit(payload_bytes));
    if !submit_accepted {
        transaction.submission_rejected().unwrap();
        return (transaction, operations);
    }
    transaction.submission_accepted().unwrap();
    operations.push(SimulatedOperation::SubmitAccepted);
    transaction.status_sent(GUD_STATUS_OK).unwrap();
    operations.push(SimulatedOperation::StatusOk);
    if let Some(actual) = completion {
        operations.push(SimulatedOperation::Bulk(actual));
        operations.push(SimulatedOperation::Completion(actual));
        if transaction.completion(actual).is_ok() {
            transaction.return_idle().unwrap();
            operations.push(SimulatedOperation::Idle);
        }
    }
    (transaction, operations)
}

#[test]
fn simulated_host_valid_set_arms_before_status_and_completes_exactly() {
    let (transaction, operations) = simulate_status_on_set(12_800, true, Some(12_800));

    assert_eq!(transaction.state, ExactAioState::Idle);
    assert_eq!(
        operations,
        [
            SimulatedOperation::SetBufferValidated(12_800),
            SimulatedOperation::GuardEntered,
            SimulatedOperation::Submit(12_800),
            SimulatedOperation::SubmitAccepted,
            SimulatedOperation::StatusOk,
            SimulatedOperation::Bulk(12_800),
            SimulatedOperation::Completion(12_800),
            SimulatedOperation::Idle,
        ]
    );
}

#[test]
fn rejected_set_buffer_never_enters_transaction_or_submits_bulk() {
    let transaction = ExactAioTransaction::default();
    assert_eq!(transaction.state, ExactAioState::Idle);
    assert_eq!(transaction.sequence, 0);
}

#[test]
fn aio_submission_failure_is_proven_unaccepted_and_returns_idle() {
    let (transaction, operations) = simulate_status_on_set(12_800, false, None);
    assert_eq!(transaction.state, ExactAioState::Idle);
    assert!(!operations.contains(&SimulatedOperation::SubmitAccepted));
    assert!(!operations.contains(&SimulatedOperation::StatusOk));
    assert!(!operations
        .iter()
        .any(|op| matches!(op, SimulatedOperation::Bulk(_))));
}

#[test]
fn short_zero_and_oversized_completions_poison_transaction() {
    for actual in [0, 1, 12_799, 12_801, usize::MAX] {
        let (transaction, _) = simulate_status_on_set(12_800, true, Some(actual));
        assert_eq!(
            transaction.state,
            ExactAioState::Poisoned,
            "actual={actual}"
        );
    }
}

#[test]
fn missing_completion_remains_receiving_until_containment_poisons_it() {
    let (mut transaction, _) = simulate_status_on_set(12_800, true, None);
    assert_eq!(transaction.state, ExactAioState::Receiving);
    transaction.poison();
    assert_eq!(transaction.state, ExactAioState::Poisoned);
}

#[test]
fn completion_before_success_status_is_protocol_poison() {
    let mut transaction = ExactAioTransaction::default();
    transaction.begin_arm(12_800).unwrap();
    transaction.submission_accepted().unwrap();
    assert!(transaction.completion(12_800).is_err());
    assert_eq!(transaction.state, ExactAioState::Poisoned);
}

#[test]
fn overlapping_set_buffer_is_rejected_without_second_sequence() {
    let mut transaction = ExactAioTransaction::default();
    let first_sequence = transaction.begin_arm(12_800).unwrap();
    transaction.submission_accepted().unwrap();
    assert!(transaction.begin_arm(12_800).is_err());
    assert_eq!(transaction.sequence, first_sequence);
    assert_eq!(transaction.state, ExactAioState::ArmedAwaitStatus);
}

#[test]
fn suspend_disconnect_timeout_and_explicit_poison_are_terminal() {
    for _reason in ["suspend", "disconnect", "timeout", "poisoned"] {
        let mut transaction = ExactAioTransaction::default();
        transaction.begin_arm(12_800).unwrap();
        transaction.submission_accepted().unwrap();
        transaction.poison();
        assert_eq!(transaction.state, ExactAioState::Poisoned);
        assert!(transaction.begin_arm(12_800).is_err());
    }
}

#[test]
fn sequential_and_large_payloads_use_exact_independent_transactions() {
    let mut transaction = ExactAioTransaction::default();
    for (index, payload_bytes) in [12_800, 12_801, 65_537, 1_048_576].into_iter().enumerate() {
        assert_eq!(
            transaction.begin_arm(payload_bytes).unwrap(),
            u64::try_from(index + 1).unwrap()
        );
        transaction.submission_accepted().unwrap();
        transaction.status_sent(GUD_STATUS_OK).unwrap();
        transaction.completion(payload_bytes).unwrap();
        transaction.return_idle().unwrap();
        assert_eq!(transaction.state, ExactAioState::Idle);
    }
}
