//! What holds of every run of the pipeline, proved over the state machine
//! in [`crate::model`].

use crate::budget::ConfirmationBudget;
use crate::failure::{
    ConfirmCause, DeployCause, FailureView, ReadCause, SubmitCause, UploadCause,
};
use crate::model::{
    action_at, is_final_receipt, leaves_unconfirmed, run, step, ActionView, EventView, ReceiptView,
    StateView,
};
use vstd::prelude::*;

verus! {

/// A final state stays as it is, whatever arrives, and asks for nothing.
pub proof fn lemma_final_state_absorbs(
    budget: ConfirmationBudget,
    state: StateView,
    event: EventView,
)
    requires
        state.is_final(),
    ensures
        step(budget, state, event) == (state, ActionView::Nothing),
{
}

/// The stages are passed in their order: one event never takes a run back,
/// never takes it further than the next stage, and never asks for an action
/// of a stage that the run has not reached.
pub proof fn lemma_step_keeps_order(budget: ConfirmationBudget, state: StateView, event: EventView)
    ensures
        state.progress() <= step(budget, state, event).0.progress() <= state.progress() + 1,
        step(budget, state, event).1.stage_number() <= step(budget, state, event).0.progress(),
{
}

/// Handling a log of events in two parts gives what handling it whole gives.
pub proof fn lemma_run_concat(
    budget: ConfirmationBudget,
    state: StateView,
    first: Seq<EventView>,
    rest: Seq<EventView>,
)
    ensures
        run(budget, state, first + rest) == run(budget, run(budget, state, first), rest),
    decreases rest.len(),
{
    if rest.len() == 0 {
        assert(first + rest =~= first);
    } else {
        assert((first + rest).drop_last() =~= first + rest.drop_last());
        lemma_run_concat(budget, state, first, rest.drop_last());
    }
}

/// The state after the first `k + 1` events is one step from the state after
/// the first `k`.
pub proof fn lemma_run_next(
    budget: ConfirmationBudget,
    state: StateView,
    events: Seq<EventView>,
    k: int,
)
    requires
        0 <= k < events.len(),
    ensures
        run(budget, state, events.take(k + 1)) == step(
            budget,
            run(budget, state, events.take(k)),
            events[k],
        ).0,
{
    assert(events.take(k + 1).drop_last() =~= events.take(k));
}

/// No sequence of events leads out of a final state.
pub proof fn lemma_run_stays_final(
    budget: ConfirmationBudget,
    state: StateView,
    events: Seq<EventView>,
)
    requires
        state.is_final(),
    ensures
        run(budget, state, events) == state,
    decreases events.len(),
{
    if events.len() > 0 {
        lemma_run_stays_final(budget, state, events.drop_last());
    }
}

/// A run never has less progress at its end than it had at any earlier point.
pub proof fn lemma_progress_never_lost(
    budget: ConfirmationBudget,
    state: StateView,
    events: Seq<EventView>,
    k: int,
)
    requires
        0 <= k <= events.len(),
    ensures
        run(budget, state, events.take(k)).progress() <= run(budget, state, events).progress(),
    decreases events.len(),
{
    if k == events.len() {
        assert(events.take(k) =~= events);
    } else {
        let earlier = events.drop_last();
        assert(earlier.take(k) =~= events.take(k));
        lemma_progress_never_lost(budget, state, earlier, k);
        lemma_step_keeps_order(budget, run(budget, state, earlier), events.last());
    }
}

/// Stage ordering is enforced over whole runs: no action that was asked for
/// at any point belongs to a later stage than the one the run has reached at
/// its end.
pub proof fn lemma_actions_within_progress(
    budget: ConfirmationBudget,
    state: StateView,
    events: Seq<EventView>,
    k: int,
)
    requires
        0 <= k < events.len(),
    ensures
        action_at(budget, state, events, k).stage_number() <= run(budget, state, events).progress(),
{
    lemma_run_next(budget, state, events, k);
    lemma_step_keeps_order(budget, run(budget, state, events.take(k)), events[k]);
    lemma_progress_never_lost(budget, state, events, k + 1);
}

/// An action other than a poll is asked for exactly when the run enters the
/// action's stage from the stage before it; a failure is reported exactly
/// when the run fails.
pub proof fn lemma_action_marks_entry(budget: ConfirmationBudget, state: StateView, event: EventView)
    ensures
        ({
            let (next, action) = step(budget, state, event);
            &&& action.stage_number() > 0 && !(action is PollReceipt) ==> {
                &&& state.progress() + 1 == action.stage_number()
                &&& next.progress() == action.stage_number()
            }
            &&& action is ReportFailure ==> !state.is_final() && next is Failed
        }),
{
}

/// No retries. Within one run no stage is entered twice: of two actions
/// that were asked for at different points and belong to the same stage,
/// both are polls for the receipt, or one of them is `Nothing`.
pub proof fn lemma_no_stage_is_retried(
    budget: ConfirmationBudget,
    state: StateView,
    events: Seq<EventView>,
    i: int,
    j: int,
)
    requires
        0 <= i < j < events.len(),
    ensures
        ({
            let first = action_at(budget, state, events, i);
            let second = action_at(budget, state, events, j);
            first.stage_number() == second.stage_number() ==> {
                ||| first is PollReceipt && second is PollReceipt
                ||| first is Nothing
                ||| second is Nothing
            }
        }),
{
    let first = action_at(budget, state, events, i);
    let second = action_at(budget, state, events, j);
    let before_first = run(budget, state, events.take(i));
    let before_second = run(budget, state, events.take(j));
    lemma_action_marks_entry(budget, before_first, events[i]);
    lemma_action_marks_entry(budget, before_second, events[j]);
    lemma_run_next(budget, state, events, i);
    let after_first = run(budget, state, events.take(i + 1));
    assert(events.take(j).take(i + 1) =~= events.take(i + 1));
    lemma_progress_never_lost(budget, state, events.take(j), i + 1);
    if first is ReportFailure {
        assert(events.take(j) =~= events.take(i + 1) + events.subrange(i + 1, j));
        lemma_run_concat(budget, state, events.take(i + 1), events.subrange(i + 1, j));
        lemma_run_stays_final(budget, after_first, events.subrange(i + 1, j));
        lemma_final_state_absorbs(budget, before_second, events[j]);
    }
}

/// A failure can be reached from every state that is not final.
pub proof fn lemma_failure_is_reachable(budget: ConfirmationBudget, state: StateView)
    requires
        !state.is_final(),
    ensures
        exists|events: Seq<EventView>| (#[trigger] run(budget, state, events)) is Failed,
{
    let events = match state {
        StateView::Idle => seq![
            EventView::Requested { path: Seq::<char>::empty() },
            EventView::StoreFailed(UploadCause::StoreUnavailable),
        ],
        StateView::Uploading { .. } => seq![EventView::StoreFailed(UploadCause::StoreUnavailable)],
        StateView::Deploying { .. } => seq![
            EventView::DeployFailed(DeployCause::DeploymentRejected),
        ],
        StateView::Submitting { .. } => seq![
            EventView::SubmitFailed(SubmitCause::TransactionRejected),
        ],
        StateView::AwaitingConfirmation { transaction, .. } => seq![
            EventView::Included {
                receipt: ReceiptView { transaction, succeeded: false, block_number: 0 },
                head_block: u64::MAX,
            },
        ],
        _ => seq![EventView::ReadFailed(ReadCause::NetworkUnavailable)],
    };
    assert(events.take(0) =~= Seq::<EventView>::empty());
    lemma_run_next(budget, state, events, 0);
    if events.len() == 2 {
        lemma_run_next(budget, state, events, 1);
        assert(events.take(2) =~= events);
    } else {
        assert(events.take(1) =~= events);
    }
    assert(run(budget, state, events) is Failed);
}

/// Failure isolation. When the content store fails the upload, the run ends
/// with that upload error, whatever is reported afterwards, and at no point
/// of the run was a deployment, a submission, a poll or a read asked for.
pub proof fn lemma_store_failure_isolates(
    budget: ConfirmationBudget,
    events: Seq<EventView>,
    at: int,
    cause: UploadCause,
)
    requires
        0 <= at < events.len(),
        run(budget, StateView::Idle, events.take(at)) is Uploading,
        events[at] == EventView::StoreFailed(cause),
    ensures
        run(budget, StateView::Idle, events) == (StateView::Failed {
            failure: FailureView::UploadError(cause),
        }),
        forall|k: int|
            0 <= k < events.len() ==> {
                let action = #[trigger] action_at(budget, StateView::Idle, events, k);
                &&& !(action is Deploy)
                &&& !(action is SubmitSet)
                &&& !(action is PollReceipt)
                &&& !(action is ReadIdentifier)
                &&& !(action is ReportSuccess)
            },
{
    let failed = StateView::Failed { failure: FailureView::UploadError(cause) };
    lemma_run_next(budget, StateView::Idle, events, at);
    assert(events =~= events.take(at + 1) + events.skip(at + 1));
    lemma_run_concat(budget, StateView::Idle, events.take(at + 1), events.skip(at + 1));
    lemma_run_stays_final(budget, failed, events.skip(at + 1));
    assert forall|k: int| 0 <= k < events.len() implies {
        let action = #[trigger] action_at(budget, StateView::Idle, events, k);
        &&& !(action is Deploy)
        &&& !(action is SubmitSet)
        &&& !(action is PollReceipt)
        &&& !(action is ReadIdentifier)
        &&& !(action is ReportSuccess)
    } by {
        lemma_actions_within_progress(budget, StateView::Idle, events, k);
    }
}

/// Whether `polls` more intervals fit into what is left of the budget once
/// `waited_ms` are spent.
pub open spec fn polls_fit(budget: ConfirmationBudget, waited_ms: u64, polls: nat) -> bool {
    &&& budget.poll_interval_ms > 0
    &&& waited_ms <= budget.max_wait_ms
    &&& polls * budget.poll_interval_ms <= budget.max_wait_ms - waited_ms
}

/// Whether none of `polls` confirms `transaction`.
pub open spec fn all_unconfirmed(
    budget: ConfirmationBudget,
    transaction: Seq<u8>,
    polls: Seq<EventView>,
) -> bool {
    forall|k: int| 0 <= k < polls.len() ==> leaves_unconfirmed(budget, transaction, #[trigger] polls[k])
}

/// Timeout behaviour. While every poll comes back without a final receipt,
/// the pipeline goes on waiting for exactly as many polls as intervals fit
/// into the budget, each adding one interval to the time spent; the first
/// poll that no longer fits ends the run with a confirmation timeout. Up to
/// that point only polls were asked for, never a read.
pub proof fn lemma_unconfirmed_polls_time_out(
    budget: ConfirmationBudget,
    identifier: Seq<char>,
    contract: Seq<u8>,
    transaction: Seq<u8>,
    waited_ms: u64,
    polls: Seq<EventView>,
)
    requires
        all_unconfirmed(budget, transaction, polls),
    ensures
        polls.len() == 0 || polls_fit(budget, waited_ms, polls.len()) ==> run(
            budget,
            StateView::AwaitingConfirmation { identifier, contract, transaction, waited_ms },
            polls,
        ) == (StateView::AwaitingConfirmation {
            identifier,
            contract,
            transaction,
            waited_ms: (waited_ms + polls.len() * budget.poll_interval_ms) as u64,
        }),
        polls.len() > 0 && !polls_fit(budget, waited_ms, polls.len()) ==> run(
            budget,
            StateView::AwaitingConfirmation { identifier, contract, transaction, waited_ms },
            polls,
        ) == (StateView::Failed {
            failure: FailureView::ConfirmError(ConfirmCause::ConfirmationTimeout),
        }),
        forall|k: int|
            0 <= k < polls.len() ==> {
                let action = #[trigger] action_at(
                    budget,
                    StateView::AwaitingConfirmation { identifier, contract, transaction, waited_ms },
                    polls,
                    k,
                );
                &&& !(action is ReadIdentifier)
                &&& !(action is ReportSuccess)
            },
    decreases polls.len(),
{
    let start = StateView::AwaitingConfirmation { identifier, contract, transaction, waited_ms };
    let interval = budget.poll_interval_ms;
    let count = polls.len();
    if count > 0 {
        let earlier = polls.drop_last();
        assert(all_unconfirmed(budget, transaction, earlier));
        lemma_unconfirmed_polls_time_out(
            budget,
            identifier,
            contract,
            transaction,
            waited_ms,
            earlier,
        );
        assert(leaves_unconfirmed(budget, transaction, polls[count - 1]));
        assert((count - 1) * interval + interval == count * interval) by (nonlinear_arith);
        assert((count - 1) * interval >= 0) by (nonlinear_arith)
            requires
                count >= 1,
                interval >= 0,
        ;
        if polls_fit(budget, waited_ms, count) {
            assert(polls_fit(budget, waited_ms, (count - 1) as nat));
        } else if count - 1 > 0 && !polls_fit(budget, waited_ms, (count - 1) as nat) {
            lemma_final_state_absorbs(budget, run(budget, start, earlier), polls.last());
        }
    }
    assert forall|k: int| 0 <= k < polls.len() implies {
        let action = #[trigger] action_at(budget, start, polls, k);
        &&& !(action is ReadIdentifier)
        &&& !(action is ReportSuccess)
    } by {
        lemma_actions_within_progress(budget, start, polls, k);
    }
}

/// Once a confirmation error has ended a run, no read of the recorded value
/// and no report of success was asked for at any point of it.
pub proof fn lemma_confirm_error_stops_before_readback(
    budget: ConfirmationBudget,
    events: Seq<EventView>,
    cause: ConfirmCause,
)
    requires
        run(budget, StateView::Idle, events) == (StateView::Failed {
            failure: FailureView::ConfirmError(cause),
        }),
    ensures
        forall|k: int|
            0 <= k < events.len() ==> {
                let action = #[trigger] action_at(budget, StateView::Idle, events, k);
                &&& !(action is ReadIdentifier)
                &&& !(action is ReportSuccess)
            },
{
    assert forall|k: int| 0 <= k < events.len() implies {
        let action = #[trigger] action_at(budget, StateView::Idle, events, k);
        &&& !(action is ReadIdentifier)
        &&& !(action is ReportSuccess)
    } by {
        lemma_actions_within_progress(budget, StateView::Idle, events, k);
    }
}

/// Where in a log of events the milestones of a successful run stand.
pub struct Milestones {
    /// The store assigned the identifier.
    pub stored: int,
    /// The contract was deployed.
    pub deployed: int,
    /// The node took the transaction.
    pub submitted: int,
    /// The final receipt was found.
    pub included: int,
    /// The recorded value was read back.
    pub read: int,
}

/// Whether the store assigned `identifier`, which is not empty, at `at.stored`.
pub open spec fn is_stored(events: Seq<EventView>, identifier: Seq<char>, at: Milestones) -> bool {
    &&& 0 <= at.stored < events.len()
    &&& identifier.len() > 0
    &&& events[at.stored] == EventView::Stored { identifier }
}

/// Whether, after that, the contract was deployed at address `contract`.
pub open spec fn is_deployed(
    events: Seq<EventView>,
    identifier: Seq<char>,
    contract: Seq<u8>,
    at: Milestones,
) -> bool {
    &&& is_stored(events, identifier, at)
    &&& at.stored < at.deployed < events.len()
    &&& events[at.deployed] == EventView::Deployed { address: contract }
}

/// Whether, after that, the node took `transaction` into its pool.
pub open spec fn is_submitted(
    events: Seq<EventView>,
    identifier: Seq<char>,
    contract: Seq<u8>,
    transaction: Seq<u8>,
    at: Milestones,
) -> bool {
    &&& is_deployed(events, identifier, contract, at)
    &&& at.deployed < at.submitted < events.len()
    &&& events[at.submitted] == EventView::Submitted { transaction }
}

/// Whether, after that, a receipt was found that makes the submitted
/// transaction final and says that it ran through.
pub open spec fn is_confirmed(
    budget: ConfirmationBudget,
    events: Seq<EventView>,
    identifier: Seq<char>,
    contract: Seq<u8>,
    at: Milestones,
) -> bool {
    &&& 0 <= at.submitted < at.included < events.len()
    &&& events[at.submitted] matches EventView::Submitted { transaction }
    &&& is_submitted(events, identifier, contract, transaction, at)
    &&& events[at.included] matches EventView::Included { receipt, head_block }
    &&& is_final_receipt(budget, transaction, receipt, head_block)
    &&& receipt.succeeded
}

/// Whether, after all that, a read answered with `identifier`.
pub open spec fn is_round_trip(
    budget: ConfirmationBudget,
    events: Seq<EventView>,
    identifier: Seq<char>,
    contract: Seq<u8>,
    at: Milestones,
) -> bool {
    &&& is_confirmed(budget, events, identifier, contract, at)
    &&& at.included < at.read < events.len()
    &&& events[at.read] == EventView::ReadBack { value: identifier }
}

/// Whether `events` hold a round trip of `identifier` through `contract`:
/// the store assigned it, the contract was deployed, the transaction was
/// taken and became final, and a read answered with `identifier`, in that
/// order.
pub open spec fn was_round_trip(
    budget: ConfirmationBudget,
    events: Seq<EventView>,
    identifier: Seq<char>,
    contract: Seq<u8>,
) -> bool {
    exists|at: Milestones| #[trigger] is_round_trip(budget, events, identifier, contract, at)
}

spec fn was_stored(events: Seq<EventView>, identifier: Seq<char>) -> bool {
    exists|at: Milestones| #[trigger] is_stored(events, identifier, at)
}

spec fn was_deployed(events: Seq<EventView>, identifier: Seq<char>, contract: Seq<u8>) -> bool {
    exists|at: Milestones| #[trigger] is_deployed(events, identifier, contract, at)
}

spec fn was_submitted(
    events: Seq<EventView>,
    identifier: Seq<char>,
    contract: Seq<u8>,
    transaction: Seq<u8>,
) -> bool {
    exists|at: Milestones| #[trigger] is_submitted(events, identifier, contract, transaction, at)
}

spec fn was_confirmed(
    budget: ConfirmationBudget,
    events: Seq<EventView>,
    identifier: Seq<char>,
    contract: Seq<u8>,
) -> bool {
    exists|at: Milestones| #[trigger] is_confirmed(budget, events, identifier, contract, at)
}

/// What a state reached from `Idle` says of the events that led to it.
spec fn explained_by(budget: ConfirmationBudget, state: StateView, events: Seq<EventView>) -> bool {
    match state {
        StateView::Idle => true,
        StateView::Uploading { .. } => true,
        StateView::Failed { .. } => true,
        StateView::Deploying { identifier } => was_stored(events, identifier),
        StateView::Submitting { identifier, contract } => was_deployed(events, identifier, contract),
        StateView::AwaitingConfirmation { identifier, contract, transaction, .. } => was_submitted(
            events,
            identifier,
            contract,
            transaction,
        ),
        StateView::VerifyingReadback { identifier, contract } => was_confirmed(
            budget,
            events,
            identifier,
            contract,
        ),
        StateView::Done { identifier, contract } => was_round_trip(
            budget,
            events,
            identifier,
            contract,
        ),
    }
}

/// One more event keeps a state explained by the events before it.
proof fn lemma_step_is_explained(
    budget: ConfirmationBudget,
    before: StateView,
    earlier: Seq<EventView>,
    event: EventView,
)
    requires
        explained_by(budget, before, earlier),
    ensures
        explained_by(budget, step(budget, before, event).0, earlier.push(event)),
{
    let events = earlier.push(event);
    let last = earlier.len() as int;
    let after = step(budget, before, event).0;
    match before {
        StateView::Idle => {},
        StateView::Uploading { .. } => {
            if let StateView::Deploying { identifier } = after {
                let at = Milestones { stored: last, deployed: 0, submitted: 0, included: 0, read: 0 };
                assert(is_stored(events, identifier, at));
            }
        },
        StateView::Deploying { identifier } => {
            let at = choose|at: Milestones| #[trigger] is_stored(earlier, identifier, at);
            assert(is_stored(events, identifier, at));
            if let StateView::Submitting { contract, .. } = after {
                assert(is_deployed(events, identifier, contract, Milestones { deployed: last, ..at }));
            }
        },
        StateView::Submitting { identifier, contract } => {
            let at = choose|at: Milestones| #[trigger]
                is_deployed(earlier, identifier, contract, at);
            assert(is_deployed(events, identifier, contract, at));
            if let StateView::AwaitingConfirmation { transaction, .. } = after {
                assert(is_submitted(
                    events,
                    identifier,
                    contract,
                    transaction,
                    Milestones { submitted: last, ..at },
                ));
            }
        },
        StateView::AwaitingConfirmation { identifier, contract, transaction, .. } => {
            let at = choose|at: Milestones| #[trigger]
                is_submitted(earlier, identifier, contract, transaction, at);
            assert(is_submitted(events, identifier, contract, transaction, at));
            if after is VerifyingReadback {
                assert(is_confirmed(
                    budget,
                    events,
                    identifier,
                    contract,
                    Milestones { included: last, ..at },
                ));
            }
        },
        StateView::VerifyingReadback { identifier, contract } => {
            let at = choose|at: Milestones| #[trigger]
                is_confirmed(budget, earlier, identifier, contract, at);
            assert(is_confirmed(budget, events, identifier, contract, at));
            if after is Done {
                assert(is_round_trip(
                    budget,
                    events,
                    identifier,
                    contract,
                    Milestones { read: last, ..at },
                ));
            }
        },
        StateView::Done { identifier, contract } => {
            let at = choose|at: Milestones| #[trigger]
                is_round_trip(budget, earlier, identifier, contract, at);
            assert(is_round_trip(budget, events, identifier, contract, at));
        },
        StateView::Failed { .. } => {},
    }
}

/// Every state of a run from `Idle` is explained by the events before it.
proof fn lemma_run_is_explained(budget: ConfirmationBudget, events: Seq<EventView>)
    ensures
        explained_by(budget, run(budget, StateView::Idle, events), events),
    decreases events.len(),
{
    if events.len() > 0 {
        let earlier = events.drop_last();
        lemma_run_is_explained(budget, earlier);
        lemma_step_is_explained(
            budget,
            run(budget, StateView::Idle, earlier),
            earlier,
            events.last(),
        );
        assert(earlier.push(events.last()) =~= events);
    }
}

/// Round trip. A run that ends in `Done` reports an identifier that is not
/// empty and that went the whole way in this run: the content store assigned
/// it, the contract was deployed, the transaction that records it was taken
/// and became final with success, and the ledger answered the read of the
/// recorded value with this very identifier.
pub proof fn lemma_done_is_a_round_trip(
    budget: ConfirmationBudget,
    events: Seq<EventView>,
    identifier: Seq<char>,
    contract: Seq<u8>,
)
    requires
        run(budget, StateView::Idle, events) == (StateView::Done { identifier, contract }),
    ensures
        was_round_trip(budget, events, identifier, contract),
{
    lemma_run_is_explained(budget, events);
}

/// What is submitted is what was stored. Whenever a run from `Idle` asks for
/// a value to be recorded in a contract, the value is not empty, the content
/// store assigned it earlier in this run, and the contract is the one whose
/// deployment was just reported.
pub proof fn lemma_submitted_value_was_stored(
    budget: ConfirmationBudget,
    events: Seq<EventView>,
    at: int,
    contract: Seq<u8>,
    value: Seq<char>,
)
    requires
        0 <= at < events.len(),
        action_at(budget, StateView::Idle, events, at) == (ActionView::SubmitSet { contract, value }),
    ensures
        value.len() > 0,
        events[at] == (EventView::Deployed { address: contract }),
        exists|stored: int|
            0 <= stored < at && #[trigger] events[stored] == (EventView::Stored {
                identifier: value,
            }),
{
    let earlier = events.take(at);
    lemma_run_is_explained(budget, earlier);
    let before = run(budget, StateView::Idle, earlier);
    assert(before == (StateView::Deploying { identifier: value }));
    let milestones = choose|milestones: Milestones| #[trigger] is_stored(earlier, value, milestones);
    assert(events[milestones.stored] == earlier[milestones.stored]);
}

/// Verification gate, for one event. Success is reported only on a read that
/// answers with the very identifier that was submitted, and a run becomes
/// `Done` only by reporting success.
pub proof fn lemma_success_needs_matching_read(
    budget: ConfirmationBudget,
    state: StateView,
    event: EventView,
)
    ensures
        step(budget, state, event).1 matches ActionView::ReportSuccess { identifier } ==> {
            &&& state matches StateView::VerifyingReadback { identifier: submitted, .. }
            &&& submitted == identifier
            &&& event == EventView::ReadBack { value: identifier }
        },
        !state.is_final() && step(budget, state, event).0 is Done ==> step(budget, state, event).1
            is ReportSuccess,
{
}

/// Verification gate, for whole runs. When the read answers with a value
/// other than the one submitted, the run ends with a verification mismatch
/// that names both values, whatever is reported afterwards, and success is
/// never reported.
pub proof fn lemma_mismatch_is_never_success(
    budget: ConfirmationBudget,
    events: Seq<EventView>,
    at: int,
    submitted: Seq<char>,
    contract: Seq<u8>,
    observed: Seq<char>,
)
    requires
        0 <= at < events.len(),
        run(budget, StateView::Idle, events.take(at)) == (StateView::VerifyingReadback {
            identifier: submitted,
            contract,
        }),
        events[at] == (EventView::ReadBack { value: observed }),
        observed != submitted,
    ensures
        action_at(budget, StateView::Idle, events, at) == (ActionView::ReportFailure {
            failure: FailureView::VerificationMismatch { submitted, observed },
        }),
        run(budget, StateView::Idle, events) == (StateView::Failed {
            failure: FailureView::VerificationMismatch { submitted, observed },
        }),
        forall|k: int|
            0 <= k < events.len() ==> !(#[trigger] action_at(budget, StateView::Idle, events, k)
                is ReportSuccess),
{
    lemma_run_next(budget, StateView::Idle, events, at);
    assert(events =~= events.take(at + 1) + events.skip(at + 1));
    lemma_run_concat(budget, StateView::Idle, events.take(at + 1), events.skip(at + 1));
    lemma_run_stays_final(
        budget,
        run(budget, StateView::Idle, events.take(at + 1)),
        events.skip(at + 1),
    );
    assert forall|k: int| 0 <= k < events.len() implies !(#[trigger] action_at(
        budget,
        StateView::Idle,
        events,
        k,
    ) is ReportSuccess) by {
        lemma_actions_within_progress(budget, StateView::Idle, events, k);
    }
}

/// What the ledger reports of a submission that goes through: the
/// transaction is taken, its receipt is found with the chain at
/// `head_block`, and the read answers with `value`.
pub open spec fn confirmed_submission(
    receipt: ReceiptView,
    head_block: u64,
    value: Seq<char>,
) -> Seq<EventView> {
    seq![
        EventView::Submitted { transaction: receipt.transaction },
        EventView::Included { receipt, head_block },
        EventView::ReadBack { value },
    ]
}

/// A submission that the ledger confirms and reads back unchanged ends in
/// success with the submitted identifier.
pub proof fn lemma_confirmed_submission_succeeds(
    budget: ConfirmationBudget,
    identifier: Seq<char>,
    contract: Seq<u8>,
    receipt: ReceiptView,
    head_block: u64,
)
    requires
        is_final_receipt(budget, receipt.transaction, receipt, head_block),
        receipt.succeeded,
    ensures
        run(
            budget,
            StateView::Submitting { identifier, contract },
            confirmed_submission(receipt, head_block, identifier),
        ) == (StateView::Done { identifier, contract }),
{
    let start = StateView::Submitting { identifier, contract };
    let events = confirmed_submission(receipt, head_block, identifier);
    assert(events.take(0) =~= Seq::<EventView>::empty());
    assert(events.take(3) =~= events);
    lemma_run_next(budget, start, events, 0);
    lemma_run_next(budget, start, events, 1);
    lemma_run_next(budget, start, events, 2);
}

/// Recording the same identifier twice. Two submissions of one identifier to
/// one contract, each confirmed by the ledger and read back as that
/// identifier, both end in success, and both report the same value: the
/// second leaves what the first recorded as it was.
pub proof fn lemma_same_value_twice(
    budget: ConfirmationBudget,
    identifier: Seq<char>,
    contract: Seq<u8>,
    first: ReceiptView,
    first_head: u64,
    second: ReceiptView,
    second_head: u64,
)
    requires
        is_final_receipt(budget, first.transaction, first, first_head) && first.succeeded,
        is_final_receipt(budget, second.transaction, second, second_head) && second.succeeded,
    ensures
        run(
            budget,
            StateView::Submitting { identifier, contract },
            confirmed_submission(first, first_head, identifier),
        ) == (StateView::Done { identifier, contract }),
        run(
            budget,
            StateView::Submitting { identifier, contract },
            confirmed_submission(second, second_head, identifier),
        ) == (StateView::Done { identifier, contract }),
{
    lemma_confirmed_submission_succeeds(budget, identifier, contract, first, first_head);
    lemma_confirmed_submission_succeeds(budget, identifier, contract, second, second_head);
}

} // verus!
