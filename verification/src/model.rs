//! The pipeline as a mathematical state machine: which state follows from a
//! state and an event, and which action the driver is asked to perform.
//!
//! Everything here is specification. The executable pipeline is proved to
//! compute exactly these functions, and the laws are stated over them.

use crate::budget::ConfirmationBudget;
use crate::failure::{ConfirmCause, DeployCause, FailureView, ReadCause, SubmitCause, UploadCause};
use vstd::prelude::*;

verus! {

/// What the ledger says of an included transaction.
pub struct ReceiptView {
    pub transaction: Seq<u8>,
    pub succeeded: bool,
    pub block_number: u64,
}

/// Where a run stands. The states are entered in the order written here;
/// `Done` and `Failed` are final.
pub enum StateView {
    Idle,
    Uploading { path: Seq<char> },
    Deploying { identifier: Seq<char> },
    Submitting { identifier: Seq<char>, contract: Seq<u8> },
    AwaitingConfirmation { identifier: Seq<char>, contract: Seq<u8>, transaction: Seq<u8>, waited_ms: u64 },
    VerifyingReadback { identifier: Seq<char>, contract: Seq<u8> },
    Done { identifier: Seq<char>, contract: Seq<u8> },
    Failed { failure: FailureView },
}

/// What the outside world reports back to the pipeline.
pub enum EventView {
    Requested { path: Seq<char> },
    Stored { identifier: Seq<char> },
    StoreFailed(UploadCause),
    Deployed { address: Seq<u8> },
    DeployFailed(DeployCause),
    Submitted { transaction: Seq<u8> },
    SubmitFailed(SubmitCause),
    NotYetIncluded,
    Included { receipt: ReceiptView, head_block: u64 },
    ReadBack { value: Seq<char> },
    ReadFailed(ReadCause),
}

/// What the pipeline asks its driver to do next.
pub enum ActionView {
    Nothing,
    Upload { path: Seq<char> },
    Deploy { budget: ConfirmationBudget },
    SubmitSet { contract: Seq<u8>, value: Seq<char> },
    PollReceipt { transaction: Seq<u8>, delay_ms: u64 },
    ReadIdentifier { contract: Seq<u8> },
    ReportSuccess { identifier: Seq<char> },
    ReportFailure { failure: FailureView },
}

impl StateView {
    /// No event changes a final state.
    pub open spec fn is_final(self) -> bool {
        self is Done || self is Failed
    }

    /// How far the run has come: the number of the working stage it is in or
    /// has failed in, and 6 once it is done.
    pub open spec fn progress(self) -> nat {
        match self {
            StateView::Idle => 0,
            StateView::Uploading { .. } => 1,
            StateView::Deploying { .. } => 2,
            StateView::Submitting { .. } => 3,
            StateView::AwaitingConfirmation { .. } => 4,
            StateView::VerifyingReadback { .. } => 5,
            StateView::Done { .. } => 6,
            StateView::Failed { failure } => match failure {
                FailureView::UploadError(_) => 1,
                FailureView::DeployError(_) => 2,
                FailureView::SubmitError(_) => 3,
                FailureView::ConfirmError(_) => 4,
                FailureView::ReadbackError(_) => 5,
                FailureView::VerificationMismatch { .. } => 5,
            },
        }
    }
}

impl ActionView {
    /// The progress a run must have made before this action can be asked for.
    pub open spec fn stage_number(self) -> nat {
        match self {
            ActionView::Nothing => 0,
            ActionView::ReportFailure { .. } => 0,
            ActionView::Upload { .. } => 1,
            ActionView::Deploy { .. } => 2,
            ActionView::SubmitSet { .. } => 3,
            ActionView::PollReceipt { .. } => 4,
            ActionView::ReadIdentifier { .. } => 5,
            ActionView::ReportSuccess { .. } => 6,
        }
    }
}

/// The run stops: the failure becomes the state and is reported.
pub open spec fn fail(failure: FailureView) -> (StateView, ActionView) {
    (StateView::Failed { failure }, ActionView::ReportFailure { failure })
}

/// Whether another poll, one interval from now, still fits the budget.
pub open spec fn can_wait_longer(budget: ConfirmationBudget, waited_ms: u64) -> bool {
    &&& budget.poll_interval_ms > 0
    &&& waited_ms <= budget.max_wait_ms
    &&& budget.max_wait_ms - waited_ms >= budget.poll_interval_ms
}

/// The blocks that confirm an inclusion in block `block_number` once the
/// chain has grown to `head_block`: the including block and every block
/// after it. A head behind the including block confirms nothing.
pub open spec fn confirmations(block_number: u64, head_block: u64) -> nat {
    if head_block >= block_number {
        (head_block - block_number + 1) as nat
    } else {
        0
    }
}

/// Whether the receipt, seen with the chain at `head_block`, makes the
/// awaited transaction final.
pub open spec fn is_final_receipt(
    budget: ConfirmationBudget,
    transaction: Seq<u8>,
    receipt: ReceiptView,
    head_block: u64,
) -> bool {
    &&& receipt.transaction == transaction
    &&& confirmations(receipt.block_number, head_block) >= budget.confirmations
}

/// Whether the event, met while awaiting `transaction`, leaves it unconfirmed.
pub open spec fn leaves_unconfirmed(
    budget: ConfirmationBudget,
    transaction: Seq<u8>,
    event: EventView,
) -> bool {
    match event {
        EventView::NotYetIncluded => true,
        EventView::Included { receipt, head_block } => !is_final_receipt(
            budget,
            transaction,
            receipt,
            head_block,
        ),
        _ => false,
    }
}

/// One poll came back without a final receipt: wait one more interval if the
/// budget allows it, else give up.
pub open spec fn wait_or_time_out(
    budget: ConfirmationBudget,
    identifier: Seq<char>,
    contract: Seq<u8>,
    transaction: Seq<u8>,
    waited_ms: u64,
) -> (StateView, ActionView) {
    if can_wait_longer(budget, waited_ms) {
        (
            StateView::AwaitingConfirmation {
                identifier,
                contract,
                transaction,
                waited_ms: (waited_ms + budget.poll_interval_ms) as u64,
            },
            ActionView::PollReceipt { transaction, delay_ms: budget.poll_interval_ms },
        )
    } else {
        fail(FailureView::ConfirmError(ConfirmCause::ConfirmationTimeout))
    }
}

/// The state that follows `state` on `event`, and the action asked for.
///
/// An event that the state does not wait for changes nothing and asks for
/// nothing.
pub open spec fn step(budget: ConfirmationBudget, state: StateView, event: EventView) -> (
    StateView,
    ActionView,
) {
    match (state, event) {
        (StateView::Idle, EventView::Requested { path }) => (
            StateView::Uploading { path },
            ActionView::Upload { path },
        ),
        (StateView::Uploading { .. }, EventView::Stored { identifier }) => if identifier.len() > 0 {
            (StateView::Deploying { identifier }, ActionView::Deploy { budget })
        } else {
            fail(FailureView::UploadError(UploadCause::UploadFailed))
        },
        (StateView::Uploading { .. }, EventView::StoreFailed(cause)) => fail(
            FailureView::UploadError(cause),
        ),
        (StateView::Deploying { identifier }, EventView::Deployed { address }) => (
            StateView::Submitting { identifier, contract: address },
            ActionView::SubmitSet { contract: address, value: identifier },
        ),
        (StateView::Deploying { .. }, EventView::DeployFailed(cause)) => fail(
            FailureView::DeployError(cause),
        ),
        (StateView::Submitting { identifier, contract }, EventView::Submitted { transaction }) => (
            StateView::AwaitingConfirmation { identifier, contract, transaction, waited_ms: 0 },
            ActionView::PollReceipt { transaction, delay_ms: 0 },
        ),
        (StateView::Submitting { .. }, EventView::SubmitFailed(cause)) => fail(
            FailureView::SubmitError(cause),
        ),
        (
            StateView::AwaitingConfirmation { identifier, contract, transaction, waited_ms },
            EventView::NotYetIncluded,
        ) => wait_or_time_out(budget, identifier, contract, transaction, waited_ms),
        (
            StateView::AwaitingConfirmation { identifier, contract, transaction, waited_ms },
            EventView::Included { receipt, head_block },
        ) => if !is_final_receipt(budget, transaction, receipt, head_block) {
            wait_or_time_out(budget, identifier, contract, transaction, waited_ms)
        } else if receipt.succeeded {
            (StateView::VerifyingReadback { identifier, contract }, ActionView::ReadIdentifier { contract })
        } else {
            fail(FailureView::ConfirmError(ConfirmCause::ExecutionReverted))
        },
        (StateView::VerifyingReadback { identifier, contract }, EventView::ReadBack { value }) => if value
            == identifier {
            (StateView::Done { identifier, contract }, ActionView::ReportSuccess { identifier })
        } else {
            fail(FailureView::VerificationMismatch { submitted: identifier, observed: value })
        },
        (StateView::VerifyingReadback { .. }, EventView::ReadFailed(cause)) => fail(
            FailureView::ReadbackError(cause),
        ),
        _ => (state, ActionView::Nothing),
    }
}

/// The state reached from `state` after all of `events`, in order.
pub open spec fn run(budget: ConfirmationBudget, state: StateView, events: Seq<EventView>) -> StateView
    decreases events.len(),
{
    if events.len() == 0 {
        state
    } else {
        step(budget, run(budget, state, events.drop_last()), events.last()).0
    }
}

/// The action asked for when the event at `index` arrives, in the run of
/// `events` from `state`.
pub open spec fn action_at(
    budget: ConfirmationBudget,
    state: StateView,
    events: Seq<EventView>,
    index: int,
) -> ActionView
    recommends
        0 <= index < events.len(),
{
    step(budget, run(budget, state, events.take(index)), events[index]).1
}

} // verus!
