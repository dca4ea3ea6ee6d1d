//! The executable pipeline: states, events and actions as values, and the
//! transition that the driver calls once for every event.

use crate::budget::ConfirmationBudget;
use crate::failure::{ConfirmCause, DeployCause, Failure, ReadCause, SubmitCause, UploadCause};
use crate::laws::{lemma_done_is_a_round_trip, was_round_trip};
use crate::model::{action_at, confirmations, run, step, ActionView, EventView, StateView};
use crate::values::{Address, ContentIdentifier, ContractHandle, TransactionReceipt, TxHash};
use vstd::prelude::*;

verus! {

/// Where a run stands, with what it carries forward.
#[derive(Debug, PartialEq, Eq)]
pub enum State {
    /// Nothing was asked for yet.
    Idle,
    /// The file at `path` is being handed to the content store.
    Uploading { path: String },
    /// The contract that will hold `identifier` is being deployed.
    Deploying { identifier: ContentIdentifier },
    /// The transaction that records `identifier` is being signed and sent.
    Submitting { identifier: ContentIdentifier, contract: ContractHandle },
    /// The transaction is in the pool; `waited_ms` of the budget are spent.
    AwaitingConfirmation {
        identifier: ContentIdentifier,
        contract: ContractHandle,
        transaction: TxHash,
        waited_ms: u64,
    },
    /// The transaction is final; the recorded value is being read back.
    VerifyingReadback { identifier: ContentIdentifier, contract: ContractHandle },
    /// The ledger holds `identifier`, and a read has confirmed it.
    Done { identifier: ContentIdentifier, contract: ContractHandle },
    /// The run stopped for the reason given.
    Failed { failure: Failure },
}

/// What the driver reports back after performing an action.
#[derive(Debug, PartialEq, Eq)]
pub enum Event {
    /// The caller asks for the file at `path` to be registered.
    Requested { path: String },
    /// The store holds the file under `identifier`.
    Stored { identifier: String },
    StoreFailed(UploadCause),
    /// A fresh contract instance lives at `address`.
    Deployed { address: Address },
    DeployFailed(DeployCause),
    /// The node took the transaction into its pool.
    Submitted { transaction: TxHash },
    SubmitFailed(SubmitCause),
    /// A poll found no receipt.
    NotYetIncluded,
    /// A poll found this receipt, while the chain stood at block `head_block`.
    Included { receipt: TransactionReceipt, head_block: u64 },
    /// The read call answered with `value`.
    ReadBack { value: String },
    ReadFailed(ReadCause),
}

/// What the driver is asked to do next.
#[derive(Debug, PartialEq, Eq)]
pub enum Action {
    /// Wait for another event; there is nothing to perform.
    Nothing,
    /// Hand the file at `path` to the content store.
    Upload { path: String },
    /// Deploy the registration contract, waiting no longer than `budget` allows.
    Deploy { budget: ConfirmationBudget },
    /// Sign and send the call that stores `value` in `contract`.
    SubmitSet { contract: ContractHandle, value: ContentIdentifier },
    /// After `delay_ms`, ask the ledger for the receipt of `transaction`.
    PollReceipt { transaction: TxHash, delay_ms: u64 },
    /// Read the value that `contract` holds.
    ReadIdentifier { contract: ContractHandle },
    /// Tell the caller that `identifier` is recorded and confirmed.
    ReportSuccess { identifier: ContentIdentifier },
    /// Tell the caller that the run failed, and why.
    ReportFailure { failure: Failure },
}

impl View for State {
    type V = StateView;

    open spec fn view(&self) -> StateView {
        match self {
            State::Idle => StateView::Idle,
            State::Uploading { path } => StateView::Uploading { path: path@ },
            State::Deploying { identifier } => StateView::Deploying { identifier: identifier@ },
            State::Submitting { identifier, contract } => StateView::Submitting {
                identifier: identifier@,
                contract: contract@,
            },
            State::AwaitingConfirmation {
                identifier,
                contract,
                transaction,
                waited_ms,
            } => StateView::AwaitingConfirmation {
                identifier: identifier@,
                contract: contract@,
                transaction: transaction@,
                waited_ms: *waited_ms,
            },
            State::VerifyingReadback { identifier, contract } => StateView::VerifyingReadback {
                identifier: identifier@,
                contract: contract@,
            },
            State::Done { identifier, contract } => StateView::Done {
                identifier: identifier@,
                contract: contract@,
            },
            State::Failed { failure } => StateView::Failed { failure: failure@ },
        }
    }
}

impl View for Event {
    type V = EventView;

    open spec fn view(&self) -> EventView {
        match self {
            Event::Requested { path } => EventView::Requested { path: path@ },
            Event::Stored { identifier } => EventView::Stored { identifier: identifier@ },
            Event::StoreFailed(cause) => EventView::StoreFailed(*cause),
            Event::Deployed { address } => EventView::Deployed { address: address@ },
            Event::DeployFailed(cause) => EventView::DeployFailed(*cause),
            Event::Submitted { transaction } => EventView::Submitted { transaction: transaction@ },
            Event::SubmitFailed(cause) => EventView::SubmitFailed(*cause),
            Event::NotYetIncluded => EventView::NotYetIncluded,
            Event::Included { receipt, head_block } => EventView::Included {
                receipt: receipt@,
                head_block: *head_block,
            },
            Event::ReadBack { value } => EventView::ReadBack { value: value@ },
            Event::ReadFailed(cause) => EventView::ReadFailed(*cause),
        }
    }
}

impl View for Action {
    type V = ActionView;

    open spec fn view(&self) -> ActionView {
        match self {
            Action::Nothing => ActionView::Nothing,
            Action::Upload { path } => ActionView::Upload { path: path@ },
            Action::Deploy { budget } => ActionView::Deploy { budget: *budget },
            Action::SubmitSet { contract, value } => ActionView::SubmitSet {
                contract: contract@,
                value: value@,
            },
            Action::PollReceipt { transaction, delay_ms } => ActionView::PollReceipt {
                transaction: transaction@,
                delay_ms: *delay_ms,
            },
            Action::ReadIdentifier { contract } => ActionView::ReadIdentifier { contract: contract@ },
            Action::ReportSuccess { identifier } => ActionView::ReportSuccess {
                identifier: identifier@,
            },
            Action::ReportFailure { failure } => ActionView::ReportFailure { failure: failure@ },
        }
    }
}

/// Stops the run with `failure`.
fn stop(failure: Failure) -> (r: (State, Action))
    ensures
        (r.0@, r.1@) == crate::model::fail(failure@),
{
    let report = failure.clone();
    (State::Failed { failure }, Action::ReportFailure { failure: report })
}

/// Whether an inclusion in block `block_number` has at least `required`
/// confirmations once the chain stands at `head_block`.
pub fn is_confirmed_by(block_number: u64, head_block: u64, required: u64) -> (r: bool)
    ensures
        r == (confirmations(block_number, head_block) >= required),
{
    required == 0 || (head_block >= block_number && head_block - block_number >= required - 1)
}

/// A poll brought no final receipt: waits one more interval if the budget
/// allows it, and gives up otherwise.
fn keep_waiting(
    budget: &ConfirmationBudget,
    identifier: ContentIdentifier,
    contract: ContractHandle,
    transaction: TxHash,
    waited_ms: u64,
) -> (r: (State, Action))
    ensures
        (r.0@, r.1@) == crate::model::wait_or_time_out(
            *budget,
            identifier@,
            contract@,
            transaction@,
            waited_ms,
        ),
{
    if budget.poll_interval_ms > 0 && waited_ms <= budget.max_wait_ms && budget.max_wait_ms
        - waited_ms >= budget.poll_interval_ms {
        (
            State::AwaitingConfirmation {
                identifier,
                contract,
                transaction,
                waited_ms: waited_ms + budget.poll_interval_ms,
            },
            Action::PollReceipt { transaction, delay_ms: budget.poll_interval_ms },
        )
    } else {
        stop(Failure::ConfirmError(ConfirmCause::ConfirmationTimeout))
    }
}

/// Takes the pipeline from `state` over `event`: returns the state that
/// follows and the action that the driver is to perform.
///
/// The function is total. An event that `state` does not wait for, and any
/// event in a final state, gives `state` back with `Action::Nothing`.
pub fn transition(budget: &ConfirmationBudget, state: State, event: Event) -> (r: (State, Action))
    ensures
        (r.0@, r.1@) == step(*budget, state@, event@),
{
    match (state, event) {
        (State::Idle, Event::Requested { path }) => {
            let target = path.clone();
            (State::Uploading { path }, Action::Upload { path: target })
        },
        (State::Uploading { .. }, Event::Stored { identifier }) => {
            match ContentIdentifier::new(identifier) {
                Some(identifier) => (
                    State::Deploying { identifier },
                    Action::Deploy { budget: *budget },
                ),
                None => stop(Failure::UploadError(UploadCause::UploadFailed)),
            }
        },
        (State::Uploading { .. }, Event::StoreFailed(cause)) => stop(Failure::UploadError(cause)),
        (State::Deploying { identifier }, Event::Deployed { address }) => {
            let contract = ContractHandle::at(address);
            let value = identifier.clone();
            (State::Submitting { identifier, contract }, Action::SubmitSet { contract, value })
        },
        (State::Deploying { .. }, Event::DeployFailed(cause)) => stop(Failure::DeployError(cause)),
        (State::Submitting { identifier, contract }, Event::Submitted { transaction }) => (
            State::AwaitingConfirmation { identifier, contract, transaction, waited_ms: 0 },
            Action::PollReceipt { transaction, delay_ms: 0 },
        ),
        (State::Submitting { .. }, Event::SubmitFailed(cause)) => stop(Failure::SubmitError(cause)),
        (
            State::AwaitingConfirmation { identifier, contract, transaction, waited_ms },
            Event::NotYetIncluded,
        ) => keep_waiting(budget, identifier, contract, transaction, waited_ms),
        (
            State::AwaitingConfirmation { identifier, contract, transaction, waited_ms },
            Event::Included { receipt, head_block },
        ) => {
            if !(receipt.transaction.same_as(&transaction) && is_confirmed_by(
                receipt.block_number,
                head_block,
                budget.confirmations,
            )) {
                keep_waiting(budget, identifier, contract, transaction, waited_ms)
            } else if receipt.succeeded {
                (
                    State::VerifyingReadback { identifier, contract },
                    Action::ReadIdentifier { contract },
                )
            } else {
                stop(Failure::ConfirmError(ConfirmCause::ExecutionReverted))
            }
        },
        (State::VerifyingReadback { identifier, contract }, Event::ReadBack { value }) => {
            if identifier.matches_text(&value) {
                let confirmed = identifier.clone();
                (State::Done { identifier, contract }, Action::ReportSuccess { identifier: confirmed })
            } else {
                stop(
                    Failure::VerificationMismatch {
                        submitted: identifier.into_string(),
                        observed: value,
                    },
                )
            }
        },
        (State::VerifyingReadback { .. }, Event::ReadFailed(cause)) => stop(
            Failure::ReadbackError(cause),
        ),
        (state, _) => (state, Action::Nothing),
    }
}

impl Clone for Event {
    fn clone(&self) -> (r: Self)
        ensures
            r@ == self@,
    {
        match self {
            Event::Requested { path } => Event::Requested { path: path.clone() },
            Event::Stored { identifier } => Event::Stored { identifier: identifier.clone() },
            Event::StoreFailed(cause) => Event::StoreFailed(*cause),
            Event::Deployed { address } => Event::Deployed { address: *address },
            Event::DeployFailed(cause) => Event::DeployFailed(*cause),
            Event::Submitted { transaction } => Event::Submitted { transaction: *transaction },
            Event::SubmitFailed(cause) => Event::SubmitFailed(*cause),
            Event::NotYetIncluded => Event::NotYetIncluded,
            Event::Included { receipt, head_block } => Event::Included {
                receipt: *receipt,
                head_block: *head_block,
            },
            Event::ReadBack { value } => Event::ReadBack { value: value.clone() },
            Event::ReadFailed(cause) => Event::ReadFailed(*cause),
        }
    }
}

impl Clone for State {
    fn clone(&self) -> (r: Self)
        ensures
            r@ == self@,
    {
        match self {
            State::Idle => State::Idle,
            State::Uploading { path } => State::Uploading { path: path.clone() },
            State::Deploying { identifier } => State::Deploying { identifier: identifier.clone() },
            State::Submitting { identifier, contract } => State::Submitting {
                identifier: identifier.clone(),
                contract: *contract,
            },
            State::AwaitingConfirmation {
                identifier,
                contract,
                transaction,
                waited_ms,
            } => State::AwaitingConfirmation {
                identifier: identifier.clone(),
                contract: *contract,
                transaction: *transaction,
                waited_ms: *waited_ms,
            },
            State::VerifyingReadback { identifier, contract } => State::VerifyingReadback {
                identifier: identifier.clone(),
                contract: *contract,
            },
            State::Done { identifier, contract } => State::Done {
                identifier: identifier.clone(),
                contract: *contract,
            },
            State::Failed { failure } => State::Failed { failure: failure.clone() },
        }
    }
}

impl Clone for Action {
    fn clone(&self) -> (r: Self)
        ensures
            r@ == self@,
    {
        match self {
            Action::Nothing => Action::Nothing,
            Action::Upload { path } => Action::Upload { path: path.clone() },
            Action::Deploy { budget } => Action::Deploy { budget: *budget },
            Action::SubmitSet { contract, value } => Action::SubmitSet {
                contract: *contract,
                value: value.clone(),
            },
            Action::PollReceipt { transaction, delay_ms } => Action::PollReceipt {
                transaction: *transaction,
                delay_ms: *delay_ms,
            },
            Action::ReadIdentifier { contract } => Action::ReadIdentifier { contract: *contract },
            Action::ReportSuccess { identifier } => Action::ReportSuccess {
                identifier: identifier.clone(),
            },
            Action::ReportFailure { failure } => Action::ReportFailure { failure: failure.clone() },
        }
    }
}

impl State {
    /// Whether the run is over, in success or in failure.
    pub fn is_final(&self) -> (r: bool)
        ensures
            r == self@.is_final(),
    {
        match self {
            State::Done { .. } => true,
            State::Failed { .. } => true,
            _ => false,
        }
    }

    /// The status with which a command line program leaves in this state:
    /// zero once the identifier is recorded and confirmed, one otherwise.
    pub fn exit_code(&self) -> (r: u8)
        ensures
            r == 0 <==> self@ is Done,
            r == 0 || r == 1,
    {
        match self {
            State::Done { .. } => 0,
            _ => 1,
        }
    }
}

/// The views of a log of events, in order.
pub open spec fn views_of(events: Seq<Event>) -> Seq<EventView> {
    events.map_values(|event: Event| event@)
}

/// One run of the pipeline: a budget, the state the run is in, and, for the
/// proofs, every event handled so far.
pub struct Pipeline {
    budget: ConfirmationBudget,
    state: State,
    history: Ghost<Seq<EventView>>,
}

impl View for Pipeline {
    type V = StateView;

    closed spec fn view(&self) -> StateView {
        self.state@
    }
}

impl Pipeline {
    /// The state is the one that the events handled so far lead to.
    #[verifier::type_invariant]
    spec fn follows_history(self) -> bool {
        self.state@ == run(self.budget, StateView::Idle, self.history@)
    }

    /// The budget that the run was started with.
    pub closed spec fn budget(&self) -> ConfirmationBudget {
        self.budget
    }

    /// Every event handled so far, oldest first.
    pub closed spec fn history(&self) -> Seq<EventView> {
        self.history@
    }

    /// A run that has not begun.
    pub fn new(budget: ConfirmationBudget) -> (r: Self)
        ensures
            r@ == StateView::Idle,
            r.budget() == budget,
            r.history() == Seq::<EventView>::empty(),
    {
        Pipeline { budget, state: State::Idle, history: Ghost(Seq::empty()) }
    }

    /// Hands `event` to the run and returns what the driver is to do next.
    pub fn handle(&mut self, event: Event) -> (action: Action)
        ensures
            final(self).budget() == old(self).budget(),
            final(self).history() == old(self).history().push(event@),
            final(self)@ == step(old(self).budget(), old(self)@, event@).0,
            action@ == step(old(self).budget(), old(self)@, event@).1,
            action@ == action_at(
                old(self).budget(),
                StateView::Idle,
                final(self).history(),
                old(self).history().len() as int,
            ),
            final(self)@ == run(old(self).budget(), StateView::Idle, final(self).history()),
    {
        let mut taken = Pipeline::new(self.budget);
        std::mem::swap(self, &mut taken);
        proof {
            use_type_invariant(&taken);
        }
        let Pipeline { budget, state, history } = taken;
        let (next, action) = transition(&budget, state, event);
        proof {
            let longer = history@.push(event@);
            assert(longer.drop_last() =~= history@);
            assert(longer.take(history@.len() as int) =~= history@);
        }
        *self = Pipeline { budget, state: next, history: Ghost(history@.push(event@)) };
        action
    }

    /// The state the run is in.
    pub fn state(&self) -> (r: &State)
        ensures
            r@ == self@,
            self@ == run(self.budget(), StateView::Idle, self.history()),
    {
        proof {
            use_type_invariant(self);
        }
        &self.state
    }

    /// Whether the run is over.
    pub fn is_finished(&self) -> (r: bool)
        ensures
            r == self@.is_final(),
    {
        self.state.is_final()
    }

    /// The identifier that the run has recorded and confirmed, once it is
    /// done. Whenever one is returned, the events handled hold its whole
    /// round trip through the store and the ledger.
    pub fn confirmed(&self) -> (r: Option<&ContentIdentifier>)
        ensures
            r is Some <==> self@ is Done,
            r matches Some(identifier) ==> {
                &&& self@ matches StateView::Done { identifier: recorded, contract }
                &&& identifier@ == recorded
                &&& was_round_trip(self.budget(), self.history(), recorded, contract)
            },
    {
        proof {
            use_type_invariant(self);
        }
        match &self.state {
            State::Done { identifier, contract } => {
                proof {
                    lemma_done_is_a_round_trip(self.budget, self.history@, identifier@, contract@);
                }
                Some(identifier)
            },
            _ => None,
        }
    }

    /// The reason for which the run failed, once it has.
    pub fn failure(&self) -> (r: Option<&Failure>)
        ensures
            r is Some <==> self@ is Failed,
            r matches Some(failure) ==> self@ == (StateView::Failed { failure: failure@ }),
    {
        match &self.state {
            State::Failed { failure } => Some(failure),
            _ => None,
        }
    }
}

/// Handles a recorded log of events from the beginning, as a driver that
/// resumes a run would: returns the run as it stands after the last event,
/// and the action asked for on each event.
pub fn replay(budget: ConfirmationBudget, events: &Vec<Event>) -> (r: (Pipeline, Vec<Action>))
    ensures
        r.0.budget() == budget,
        r.0.history() == views_of(events@),
        r.0@ == run(budget, StateView::Idle, views_of(events@)),
        r.1@.len() == events@.len(),
        forall|k: int|
            0 <= k < events@.len() ==> (#[trigger] r.1@[k])@ == action_at(
                budget,
                StateView::Idle,
                views_of(events@),
                k,
            ),
{
    let mut pipeline = Pipeline::new(budget);
    let mut actions: Vec<Action> = Vec::new();
    let mut i: usize = 0;
    while i < events.len()
        invariant
            i <= events@.len(),
            pipeline.budget() == budget,
            pipeline.history() == views_of(events@).take(i as int),
            pipeline@ == run(budget, StateView::Idle, pipeline.history()),
            actions@.len() == i,
            forall|k: int|
                0 <= k < i ==> (#[trigger] actions@[k])@ == action_at(
                    budget,
                    StateView::Idle,
                    views_of(events@),
                    k,
                ),
        decreases events@.len() - i,
    {
        let event = events[i].clone();
        let action = pipeline.handle(event);
        proof {
            let all = views_of(events@);
            assert(all.take(i as int).push(all[i as int]) =~= all.take(i + 1));
            assert(all.take(i + 1).take(i as int) =~= all.take(i as int));
        }
        actions.push(action);
        i = i + 1;
    }
    proof {
        assert(views_of(events@).take(events@.len() as int) =~= views_of(events@));
    }
    (pipeline, actions)
}

} // verus!
