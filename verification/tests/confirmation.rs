use cid_registry::budget::ConfirmationBudget;
use cid_registry::failure::{ConfirmCause, Failure};
use cid_registry::pipeline::{is_confirmed_by, replay, transition, Action, Event, State};
use cid_registry::values::{Address, ContentIdentifier, ContractHandle, TransactionReceipt, TxHash};

fn hash(tag: u8) -> TxHash {
    TxHash { bytes: [tag; 32] }
}

fn contract() -> ContractHandle {
    ContractHandle { address: Address { bytes: [0x22; 20] } }
}

fn identifier() -> ContentIdentifier {
    ContentIdentifier::new("Qm123...".to_string()).unwrap()
}

fn awaiting(waited_ms: u64) -> State {
    State::AwaitingConfirmation {
        identifier: identifier(),
        contract: contract(),
        transaction: hash(9),
        waited_ms,
    }
}

fn timed_out() -> (State, Action) {
    let failure = Failure::ConfirmError(ConfirmCause::ConfirmationTimeout);
    (State::Failed { failure: failure.clone() }, Action::ReportFailure { failure })
}

fn receipt(transaction: TxHash, block_number: u64) -> TransactionReceipt {
    TransactionReceipt { transaction, succeeded: true, block_number }
}

#[test]
fn a_zero_interval_is_refused() {
    assert_eq!(ConfirmationBudget::new(0, 1000, 1), None);
    assert_eq!(ConfirmationBudget::new(0, 0, 0), None);
}

#[test]
fn a_budget_keeps_what_it_was_given() {
    let budget = ConfirmationBudget::new(10, 25, 3).unwrap();
    assert_eq!(budget.poll_interval_ms, 10);
    assert_eq!(budget.max_wait_ms, 25);
    assert_eq!(budget.confirmations, 3);
    assert!(ConfirmationBudget::new(1, 0, 0).is_some());
    assert!(ConfirmationBudget::new(u64::MAX, u64::MAX, u64::MAX).is_some());
}

#[test]
fn an_empty_poll_waits_one_more_interval() {
    let budget = ConfirmationBudget::new(10, 25, 1).unwrap();
    let (state, action) = transition(&budget, awaiting(0), Event::NotYetIncluded);
    assert_eq!(state, awaiting(10));
    assert_eq!(action, Action::PollReceipt { transaction: hash(9), delay_ms: 10 });
    let (state, action) = transition(&budget, state, Event::NotYetIncluded);
    assert_eq!(state, awaiting(20));
    assert_eq!(action, Action::PollReceipt { transaction: hash(9), delay_ms: 10 });
}

#[test]
fn the_first_poll_that_does_not_fit_times_out() {
    let budget = ConfirmationBudget::new(10, 25, 1).unwrap();
    assert_eq!(transition(&budget, awaiting(20), Event::NotYetIncluded), timed_out());
    assert_eq!(transition(&budget, awaiting(16), Event::NotYetIncluded), timed_out());
    let (state, _) = transition(&budget, awaiting(15), Event::NotYetIncluded);
    assert_eq!(state, awaiting(25));
    assert_eq!(transition(&budget, awaiting(25), Event::NotYetIncluded), timed_out());
    assert_eq!(transition(&budget, awaiting(26), Event::NotYetIncluded), timed_out());
    assert_eq!(transition(&budget, awaiting(u64::MAX), Event::NotYetIncluded), timed_out());
}

#[test]
fn a_run_without_confirmation_times_out_and_never_reads_back() {
    let budget = ConfirmationBudget::new(10, 25, 1).unwrap();
    let mut log = vec![
        Event::Requested { path: "hello.txt".to_string() },
        Event::Stored { identifier: "Qm123...".to_string() },
        Event::Deployed { address: contract().address },
        Event::Submitted { transaction: hash(9) },
    ];
    let (pipeline, _) = replay(budget, &log);
    assert_eq!(pipeline.state(), &awaiting(0));

    log.push(Event::NotYetIncluded);
    log.push(Event::NotYetIncluded);
    let (pipeline, _) = replay(budget, &log);
    assert_eq!(pipeline.state(), &awaiting(20));

    log.push(Event::NotYetIncluded);
    log.push(Event::Included { receipt: receipt(hash(9), 3), head_block: 3 });
    log.push(Event::ReadBack { value: "Qm123...".to_string() });
    let (pipeline, actions) = replay(budget, &log);
    assert_eq!(pipeline.state(), &timed_out().0);
    assert_eq!(actions[6], timed_out().1);
    assert_eq!(actions[7], Action::Nothing);
    assert_eq!(actions[8], Action::Nothing);
    for action in actions.iter() {
        assert!(!matches!(action, Action::ReadIdentifier { .. } | Action::ReportSuccess { .. }));
    }
    assert_eq!(pipeline.state().exit_code(), 1);
}

#[test]
fn the_number_of_polls_is_what_fits_the_budget() {
    for (interval, max_wait, fitting) in [(10u64, 25u64, 2u64), (10, 30, 3), (7, 6, 0), (1, 5, 5), (5, 0, 0)] {
        let budget = ConfirmationBudget::new(interval, max_wait, 1).unwrap();
        let mut state = awaiting(0);
        for poll in 1..=fitting {
            let (next, action) = transition(&budget, state, Event::NotYetIncluded);
            assert_eq!(next, awaiting(poll * interval));
            assert_eq!(action, Action::PollReceipt { transaction: hash(9), delay_ms: interval });
            state = next;
        }
        assert_eq!(transition(&budget, state, Event::NotYetIncluded), timed_out());
    }
}

#[test]
fn a_budget_without_interval_times_out_at_once() {
    let budget = ConfirmationBudget { poll_interval_ms: 0, max_wait_ms: 100, confirmations: 1 };
    assert_eq!(transition(&budget, awaiting(0), Event::NotYetIncluded), timed_out());
}

#[test]
fn a_receipt_for_another_transaction_confirms_nothing() {
    let budget = ConfirmationBudget::new(10, 25, 1).unwrap();
    let event = Event::Included { receipt: receipt(hash(8), 3), head_block: 3 };
    let (state, action) = transition(&budget, awaiting(0), event.clone());
    assert_eq!(state, awaiting(10));
    assert_eq!(action, Action::PollReceipt { transaction: hash(9), delay_ms: 10 });
    assert_eq!(transition(&budget, awaiting(20), event), timed_out());
    let mut near = hash(9);
    near.bytes[31] = 8;
    let event = Event::Included { receipt: receipt(near, 3), head_block: 3 };
    let (state, _) = transition(&budget, awaiting(0), event);
    assert_eq!(state, awaiting(10));
}

#[test]
fn a_receipt_with_too_few_confirmations_keeps_the_run_waiting() {
    let budget = ConfirmationBudget::new(10, 25, 3).unwrap();
    let early = Event::Included { receipt: receipt(hash(9), 5), head_block: 6 };
    let (state, action) = transition(&budget, awaiting(0), early);
    assert_eq!(state, awaiting(10));
    assert_eq!(action, Action::PollReceipt { transaction: hash(9), delay_ms: 10 });
    let enough = Event::Included { receipt: receipt(hash(9), 5), head_block: 7 };
    let (state, action) = transition(&budget, state, enough);
    assert_eq!(state, State::VerifyingReadback { identifier: identifier(), contract: contract() });
    assert_eq!(action, Action::ReadIdentifier { contract: contract() });
}

#[test]
fn a_revert_with_too_few_confirmations_is_not_yet_a_failure() {
    let budget = ConfirmationBudget::new(10, 25, 2).unwrap();
    let reverted = TransactionReceipt { transaction: hash(9), succeeded: false, block_number: 5 };
    let (state, _) =
        transition(&budget, awaiting(0), Event::Included { receipt: reverted, head_block: 5 });
    assert_eq!(state, awaiting(10));
    let (state, _) = transition(&budget, state, Event::Included { receipt: reverted, head_block: 6 });
    assert_eq!(
        state,
        State::Failed { failure: Failure::ConfirmError(ConfirmCause::ExecutionReverted) }
    );
}

#[test]
fn confirmations_count_the_including_block() {
    assert!(is_confirmed_by(5, 5, 1));
    assert!(!is_confirmed_by(5, 5, 2));
    assert!(is_confirmed_by(5, 7, 3));
    assert!(!is_confirmed_by(5, 7, 4));
    assert!(!is_confirmed_by(5, 4, 1));
    assert!(is_confirmed_by(5, 4, 0));
    assert!(is_confirmed_by(0, u64::MAX, u64::MAX));
    assert!(is_confirmed_by(1, u64::MAX, u64::MAX));
    assert!(!is_confirmed_by(2, u64::MAX, u64::MAX));
}

#[test]
fn hashes_are_compared_byte_by_byte() {
    assert!(hash(1).same_as(&hash(1)));
    assert!(!hash(1).same_as(&hash(2)));
    let mut other = hash(1);
    other.bytes[0] = 0;
    assert!(!hash(1).same_as(&other));
    let mut other = hash(1);
    other.bytes[31] = 0;
    assert!(!hash(1).same_as(&other));
}
