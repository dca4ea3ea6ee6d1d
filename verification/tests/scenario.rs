use cid_registry::budget::ConfirmationBudget;
use cid_registry::pipeline::{replay, transition, Action, Event, Pipeline, State};
use cid_registry::values::{Address, ContentIdentifier, ContractHandle, TransactionReceipt, TxHash};

fn budget() -> ConfirmationBudget {
    ConfirmationBudget::new(10, 1000, 1).unwrap()
}

fn address() -> Address {
    let mut bytes = [0u8; 20];
    bytes[0] = 0xAB;
    bytes[1] = 0xC0;
    Address { bytes }
}

fn hash(tag: u8) -> TxHash {
    TxHash { bytes: [tag; 32] }
}

fn identifier(text: &str) -> ContentIdentifier {
    ContentIdentifier::new(text.to_string()).unwrap()
}

fn successful_log(cid: &str) -> Vec<Event> {
    vec![
        Event::Requested { path: "hello.txt".to_string() },
        Event::Stored { identifier: cid.to_string() },
        Event::Deployed { address: address() },
        Event::Submitted { transaction: hash(7) },
        Event::Included {
            receipt: TransactionReceipt { transaction: hash(7), succeeded: true, block_number: 2 },
            head_block: 2,
        },
        Event::ReadBack { value: cid.to_string() },
    ]
}

#[test]
fn request_starts_the_upload() {
    let (state, action) = transition(
        &budget(),
        State::Idle,
        Event::Requested { path: "notes.txt".to_string() },
    );
    assert_eq!(state, State::Uploading { path: "notes.txt".to_string() });
    assert_eq!(action, Action::Upload { path: "notes.txt".to_string() });
}

#[test]
fn hello_world_is_registered_and_confirmed() {
    let mut pipeline = Pipeline::new(budget());
    let contract = ContractHandle { address: address() };

    let action = pipeline.handle(Event::Requested { path: "hello.txt".to_string() });
    assert_eq!(action, Action::Upload { path: "hello.txt".to_string() });
    assert_eq!(pipeline.state(), &State::Uploading { path: "hello.txt".to_string() });

    let action = pipeline.handle(Event::Stored { identifier: "Qm123...".to_string() });
    assert_eq!(action, Action::Deploy { budget: budget() });
    assert_eq!(pipeline.state(), &State::Deploying { identifier: identifier("Qm123...") });

    let action = pipeline.handle(Event::Deployed { address: address() });
    assert_eq!(action, Action::SubmitSet { contract, value: identifier("Qm123...") });
    assert_eq!(
        pipeline.state(),
        &State::Submitting { identifier: identifier("Qm123..."), contract }
    );

    let action = pipeline.handle(Event::Submitted { transaction: hash(7) });
    assert_eq!(action, Action::PollReceipt { transaction: hash(7), delay_ms: 0 });
    assert_eq!(
        pipeline.state(),
        &State::AwaitingConfirmation {
            identifier: identifier("Qm123..."),
            contract,
            transaction: hash(7),
            waited_ms: 0,
        }
    );

    let action = pipeline.handle(Event::Included {
        receipt: TransactionReceipt { transaction: hash(7), succeeded: true, block_number: 2 },
        head_block: 2,
    });
    assert_eq!(action, Action::ReadIdentifier { contract });
    assert_eq!(
        pipeline.state(),
        &State::VerifyingReadback { identifier: identifier("Qm123..."), contract }
    );
    assert!(!pipeline.is_finished());
    assert_eq!(pipeline.confirmed(), None);

    let action = pipeline.handle(Event::ReadBack { value: "Qm123...".to_string() });
    assert_eq!(action, Action::ReportSuccess { identifier: identifier("Qm123...") });
    assert_eq!(pipeline.state(), &State::Done { identifier: identifier("Qm123..."), contract });
    assert!(pipeline.is_finished());
    assert_eq!(pipeline.confirmed().map(|found| found.as_str()), Some("Qm123..."));
    assert_eq!(pipeline.failure(), None);
    assert_eq!(pipeline.state().exit_code(), 0);
}

#[test]
fn done_reports_what_the_store_assigned_and_the_ledger_returned() {
    for cid in ["Qm123...", "bafybeigdyrzt5sfp7udm7hu76uh7y26nf3efuylqabf3oclgtqy55fbzdi", "x"] {
        let (pipeline, actions) = replay(budget(), &successful_log(cid));
        assert_eq!(pipeline.confirmed().map(|found| found.as_str()), Some(cid));
        assert_eq!(actions.len(), 6);
        assert_eq!(actions[5], Action::ReportSuccess { identifier: identifier(cid) });
        assert_eq!(
            actions[2],
            Action::SubmitSet {
                contract: ContractHandle { address: address() },
                value: identifier(cid),
            }
        );
    }
}

#[test]
fn replay_gives_what_handling_one_by_one_gives() {
    let log = successful_log("Qm123...");
    let (replayed, actions) = replay(budget(), &log);
    let mut pipeline = Pipeline::new(budget());
    let mut expected = Vec::new();
    for event in log.iter() {
        expected.push(pipeline.handle(event.clone()));
    }
    assert_eq!(replayed.state(), pipeline.state());
    assert_eq!(actions, expected);
}

#[test]
fn replay_in_two_parts_gives_what_replay_of_the_whole_gives() {
    let log = successful_log("Qm123...");
    let (whole, _) = replay(budget(), &log);
    let (mut resumed, _) = replay(budget(), &log[..3].to_vec());
    for event in log[3..].iter() {
        resumed.handle(event.clone());
    }
    assert_eq!(whole.state(), resumed.state());
}

#[test]
fn replay_of_an_empty_log_is_idle() {
    let (pipeline, actions) = replay(budget(), &Vec::new());
    assert_eq!(pipeline.state(), &State::Idle);
    assert!(actions.is_empty());
    assert_eq!(pipeline.state().exit_code(), 1);
}

#[test]
fn same_identifier_twice_succeeds_twice_with_the_same_value() {
    let contract = ContractHandle { address: address() };
    let mut values = Vec::new();
    for tag in [1u8, 2u8] {
        let start = State::Submitting { identifier: identifier("Qm123..."), contract };
        let (state, _) =
            transition(&budget(), start, Event::Submitted { transaction: hash(tag) });
        let (state, _) = transition(
            &budget(),
            state,
            Event::Included {
                receipt: TransactionReceipt {
                    transaction: hash(tag),
                    succeeded: true,
                    block_number: 10 + tag as u64,
                },
                head_block: 10 + tag as u64,
            },
        );
        let (state, action) =
            transition(&budget(), state, Event::ReadBack { value: "Qm123...".to_string() });
        assert_eq!(state, State::Done { identifier: identifier("Qm123..."), contract });
        assert_eq!(action, Action::ReportSuccess { identifier: identifier("Qm123...") });
        values.push(state);
    }
    assert_eq!(values[0], values[1]);
}

#[test]
fn events_out_of_turn_change_nothing() {
    let strays = vec![
        Event::Stored { identifier: "Qm123...".to_string() },
        Event::Deployed { address: address() },
        Event::Submitted { transaction: hash(1) },
        Event::NotYetIncluded,
        Event::ReadBack { value: "Qm123...".to_string() },
    ];
    for stray in strays {
        let (state, action) = transition(&budget(), State::Idle, stray);
        assert_eq!(state, State::Idle);
        assert_eq!(action, Action::Nothing);
    }
    let uploading = State::Uploading { path: "a".to_string() };
    let (state, action) = transition(&budget(), uploading, Event::Deployed { address: address() });
    assert_eq!(state, State::Uploading { path: "a".to_string() });
    assert_eq!(action, Action::Nothing);
    let (state, action) = transition(
        &budget(),
        State::Uploading { path: "a".to_string() },
        Event::Requested { path: "b".to_string() },
    );
    assert_eq!(state, State::Uploading { path: "a".to_string() });
    assert_eq!(action, Action::Nothing);
}

#[test]
fn a_finished_run_takes_no_more_events() {
    let (mut pipeline, _) = replay(budget(), &successful_log("Qm123..."));
    let contract = ContractHandle { address: address() };
    for event in successful_log("QmOther") {
        assert_eq!(pipeline.handle(event), Action::Nothing);
        assert_eq!(
            pipeline.state(),
            &State::Done { identifier: identifier("Qm123..."), contract }
        );
    }
}

#[test]
fn no_stage_is_asked_for_twice() {
    let mut log = vec![Event::Requested { path: "again.txt".to_string() }];
    log.extend(successful_log("Qm123..."));
    log.insert(3, Event::Stored { identifier: "QmLate".to_string() });
    log.insert(5, Event::Deployed { address: address() });
    log.extend(successful_log("QmSecond"));
    let (pipeline, actions) = replay(budget(), &log);
    assert_eq!(pipeline.confirmed().map(|found| found.as_str()), Some("Qm123..."));
    let count = |wanted: fn(&Action) -> bool| actions.iter().filter(|action| wanted(action)).count();
    assert_eq!(count(|action| matches!(action, Action::Upload { .. })), 1);
    assert_eq!(count(|action| matches!(action, Action::Deploy { .. })), 1);
    assert_eq!(count(|action| matches!(action, Action::SubmitSet { .. })), 1);
    assert_eq!(count(|action| matches!(action, Action::ReadIdentifier { .. })), 1);
    assert_eq!(count(|action| matches!(action, Action::ReportSuccess { .. })), 1);
    assert_eq!(count(|action| matches!(action, Action::ReportFailure { .. })), 0);
    assert_eq!(actions[0], Action::Upload { path: "again.txt".to_string() });
}

#[test]
fn clones_equal_what_they_were_made_from() {
    let contract = ContractHandle { address: address() };
    let states = vec![
        State::Idle,
        State::Uploading { path: "p".to_string() },
        State::Deploying { identifier: identifier("Qm1") },
        State::Submitting { identifier: identifier("Qm1"), contract },
        State::AwaitingConfirmation {
            identifier: identifier("Qm1"),
            contract,
            transaction: hash(3),
            waited_ms: 30,
        },
        State::VerifyingReadback { identifier: identifier("Qm1"), contract },
        State::Done { identifier: identifier("Qm1"), contract },
    ];
    for state in states.iter() {
        assert_eq!(&state.clone(), state);
    }
    let (_, actions) = replay(budget(), &successful_log("Qm123..."));
    for action in actions.iter() {
        assert_eq!(&action.clone(), action);
    }
    for event in successful_log("Qm123...").iter() {
        assert_eq!(&event.clone(), event);
    }
}

#[test]
fn only_final_states_are_final() {
    let contract = ContractHandle { address: address() };
    assert!(!State::Idle.is_final());
    assert!(!State::Uploading { path: "p".to_string() }.is_final());
    assert!(!State::Deploying { identifier: identifier("Qm1") }.is_final());
    assert!(!State::Submitting { identifier: identifier("Qm1"), contract }.is_final());
    assert!(!State::VerifyingReadback { identifier: identifier("Qm1"), contract }.is_final());
    assert!(State::Done { identifier: identifier("Qm1"), contract }.is_final());
    let (failed, _) = transition(
        &budget(),
        State::Uploading { path: "p".to_string() },
        Event::Stored { identifier: String::new() },
    );
    assert!(failed.is_final());
}

#[test]
fn the_default_budget_polls_every_ten_milliseconds_for_a_minute() {
    let budget = ConfirmationBudget::default();
    assert_eq!(budget.poll_interval_ms, 10);
    assert_eq!(budget.max_wait_ms, 60_000);
    assert_eq!(budget.confirmations, 1);
    assert_eq!(Some(budget), ConfirmationBudget::new(10, 60_000, 1));
}
