//! Why a run of the pipeline ended without success, and at which stage.

use vstd::prelude::*;

verus! {

/// The working stages of the pipeline, in the order in which they are entered.
#[derive(Clone, Copy, Debug, PartialEq, Eq, Structural)]
pub enum Stage {
    Upload,
    Deploy,
    Submit,
    Confirm,
    Readback,
}

/// What went wrong while handing the file to the content store.
#[derive(Clone, Copy, Debug, PartialEq, Eq, Structural)]
pub enum UploadCause {
    /// The path does not resolve to a readable file.
    NotFound,
    /// The store could not be reached.
    StoreUnavailable,
    /// The store rejected the upload or cut it short.
    UploadFailed,
}

/// What went wrong while deploying the registration contract.
#[derive(Clone, Copy, Debug, PartialEq, Eq, Structural)]
pub enum DeployCause {
    /// The contract artifact is missing or cannot be read.
    CompilationFailed,
    /// The ledger rejected or reverted the deployment.
    DeploymentRejected,
    /// The deployment was not confirmed within the allowed wait.
    ConfirmationTimeout,
}

/// What went wrong while submitting the transaction that records the identifier.
#[derive(Clone, Copy, Debug, PartialEq, Eq, Structural)]
pub enum SubmitCause {
    /// The signer could not produce a valid signature.
    SigningFailed,
    /// The node refused to take the transaction into its pool.
    TransactionRejected,
}

/// What went wrong while waiting for the transaction to become final.
#[derive(Clone, Copy, Debug, PartialEq, Eq, Structural)]
pub enum ConfirmCause {
    /// The contract itself rejected the call.
    ExecutionReverted,
    /// The transaction was not included within the confirmation budget.
    ConfirmationTimeout,
}

/// What went wrong while reading the recorded value back.
#[derive(Clone, Copy, Debug, PartialEq, Eq, Structural)]
pub enum ReadCause {
    /// The node could not be reached.
    NetworkUnavailable,
    /// No contract answers at the handle's address.
    ContractNotFound,
}

/// The reason for which a run failed. Every variant but the last two wraps
/// the cause reported by the collaborator of the stage that failed.
#[derive(Debug, PartialEq, Eq)]
pub enum Failure {
    UploadError(UploadCause),
    DeployError(DeployCause),
    SubmitError(SubmitCause),
    ConfirmError(ConfirmCause),
    /// The read call itself failed, so nothing could be compared.
    ReadbackError(ReadCause),
    /// The ledger answered with a value other than the one just written.
    VerificationMismatch { submitted: String, observed: String },
}

/// The mathematical value of a [`Failure`].
pub enum FailureView {
    UploadError(UploadCause),
    DeployError(DeployCause),
    SubmitError(SubmitCause),
    ConfirmError(ConfirmCause),
    ReadbackError(ReadCause),
    VerificationMismatch { submitted: Seq<char>, observed: Seq<char> },
}

impl View for Failure {
    type V = FailureView;

    open spec fn view(&self) -> FailureView {
        match self {
            Failure::UploadError(c) => FailureView::UploadError(*c),
            Failure::DeployError(c) => FailureView::DeployError(*c),
            Failure::SubmitError(c) => FailureView::SubmitError(*c),
            Failure::ConfirmError(c) => FailureView::ConfirmError(*c),
            Failure::ReadbackError(c) => FailureView::ReadbackError(*c),
            Failure::VerificationMismatch { submitted, observed } => FailureView::VerificationMismatch {
                submitted: submitted@,
                observed: observed@,
            },
        }
    }
}

impl Clone for Failure {
    fn clone(&self) -> (r: Self)
        ensures
            r@ == self@,
    {
        match self {
            Failure::UploadError(c) => Failure::UploadError(*c),
            Failure::DeployError(c) => Failure::DeployError(*c),
            Failure::SubmitError(c) => Failure::SubmitError(*c),
            Failure::ConfirmError(c) => Failure::ConfirmError(*c),
            Failure::ReadbackError(c) => Failure::ReadbackError(*c),
            Failure::VerificationMismatch { submitted, observed } => Failure::VerificationMismatch {
                submitted: submitted.clone(),
                observed: observed.clone(),
            },
        }
    }
}

impl Stage {
    /// The stage's name as it stands in messages.
    pub open spec fn spec_name(self) -> Seq<char> {
        match self {
            Stage::Upload => "upload"@,
            Stage::Deploy => "deploy"@,
            Stage::Submit => "submit"@,
            Stage::Confirm => "confirm"@,
            Stage::Readback => "read-back"@,
        }
    }

    /// The stage's name as it stands in messages.
    pub fn name(self) -> (r: &'static str)
        ensures
            r@ == self.spec_name(),
    {
        match self {
            Stage::Upload => "upload",
            Stage::Deploy => "deploy",
            Stage::Submit => "submit",
            Stage::Confirm => "confirm",
            Stage::Readback => "read-back",
        }
    }
}

impl FailureView {
    /// The stage at which a run with this failure stopped.
    pub open spec fn stage(self) -> Stage {
        match self {
            FailureView::UploadError(_) => Stage::Upload,
            FailureView::DeployError(_) => Stage::Deploy,
            FailureView::SubmitError(_) => Stage::Submit,
            FailureView::ConfirmError(_) => Stage::Confirm,
            FailureView::ReadbackError(_) => Stage::Readback,
            FailureView::VerificationMismatch { .. } => Stage::Readback,
        }
    }

    /// Whether the failure puts the recorded data in doubt, rather than the
    /// infrastructure around it.
    pub open spec fn is_integrity_concern(self) -> bool {
        self is VerificationMismatch
    }

    /// The cause in words. Of a mismatch, the words name the value that the
    /// ledger holds.
    pub open spec fn cause_text(self) -> Seq<char> {
        match self {
            FailureView::UploadError(UploadCause::NotFound) => "file not found"@,
            FailureView::UploadError(UploadCause::StoreUnavailable) => "content store unavailable"@,
            FailureView::UploadError(UploadCause::UploadFailed) => "upload rejected or cut short"@,
            FailureView::DeployError(DeployCause::CompilationFailed) => "contract artifact missing or unreadable"@,
            FailureView::DeployError(DeployCause::DeploymentRejected) => "deployment rejected"@,
            FailureView::DeployError(DeployCause::ConfirmationTimeout) => "deployment not confirmed in time"@,
            FailureView::SubmitError(SubmitCause::SigningFailed) => "signing failed"@,
            FailureView::SubmitError(SubmitCause::TransactionRejected) => "transaction rejected by the node"@,
            FailureView::ConfirmError(ConfirmCause::ExecutionReverted) => "execution reverted"@,
            FailureView::ConfirmError(ConfirmCause::ConfirmationTimeout) => "transaction not confirmed in time"@,
            FailureView::ReadbackError(ReadCause::NetworkUnavailable) => "network unavailable"@,
            FailureView::ReadbackError(ReadCause::ContractNotFound) => "contract not found"@,
            FailureView::VerificationMismatch { observed, .. } => "verification mismatch, the ledger holds "@
                + observed,
        }
    }

    /// The message shown to the caller: the failing stage, then the cause.
    pub open spec fn message(self) -> Seq<char> {
        self.stage().spec_name() + " failed: "@ + self.cause_text()
    }
}

impl Failure {
    /// The stage at which the run stopped.
    pub fn stage(&self) -> (r: Stage)
        ensures
            r == self@.stage(),
    {
        match self {
            Failure::UploadError(_) => Stage::Upload,
            Failure::DeployError(_) => Stage::Deploy,
            Failure::SubmitError(_) => Stage::Submit,
            Failure::ConfirmError(_) => Stage::Confirm,
            Failure::ReadbackError(_) => Stage::Readback,
            Failure::VerificationMismatch { .. } => Stage::Readback,
        }
    }

    /// The cause in words.
    pub fn cause_text(&self) -> (r: String)
        ensures
            r@ == self@.cause_text(),
    {
        match self {
            Failure::UploadError(UploadCause::NotFound) => String::from_str("file not found"),
            Failure::UploadError(UploadCause::StoreUnavailable) => String::from_str(
                "content store unavailable",
            ),
            Failure::UploadError(UploadCause::UploadFailed) => String::from_str(
                "upload rejected or cut short",
            ),
            Failure::DeployError(DeployCause::CompilationFailed) => String::from_str(
                "contract artifact missing or unreadable",
            ),
            Failure::DeployError(DeployCause::DeploymentRejected) => String::from_str(
                "deployment rejected",
            ),
            Failure::DeployError(DeployCause::ConfirmationTimeout) => String::from_str(
                "deployment not confirmed in time",
            ),
            Failure::SubmitError(SubmitCause::SigningFailed) => String::from_str("signing failed"),
            Failure::SubmitError(SubmitCause::TransactionRejected) => String::from_str(
                "transaction rejected by the node",
            ),
            Failure::ConfirmError(ConfirmCause::ExecutionReverted) => String::from_str(
                "execution reverted",
            ),
            Failure::ConfirmError(ConfirmCause::ConfirmationTimeout) => String::from_str(
                "transaction not confirmed in time",
            ),
            Failure::ReadbackError(ReadCause::NetworkUnavailable) => String::from_str(
                "network unavailable",
            ),
            Failure::ReadbackError(ReadCause::ContractNotFound) => String::from_str(
                "contract not found",
            ),
            Failure::VerificationMismatch { observed, .. } => {
                let mut text = String::from_str("verification mismatch, the ledger holds ");
                text.append(observed.as_str());
                text
            },
        }
    }

    /// The message shown to the caller: the failing stage, then the cause.
    pub fn message(&self) -> (r: String)
        ensures
            r@ == self@.message(),
    {
        let mut text = String::from_str(self.stage().name());
        text.append(" failed: ");
        let cause = self.cause_text();
        text.append(cause.as_str());
        text
    }

    /// Whether the failure puts the recorded data in doubt.
    pub fn is_integrity_concern(&self) -> (r: bool)
        ensures
            r == self@.is_integrity_concern(),
    {
        match self {
            Failure::VerificationMismatch { .. } => true,
            _ => false,
        }
    }
}

} // verus!
