//! The confirmation budget: how often the ledger is polled for a receipt and
//! for how long in total.

use vstd::prelude::*;

verus! {

/// How long and how often the pipeline waits for a submitted transaction.
#[derive(Clone, Copy, Debug, PartialEq, Eq)]
pub struct ConfirmationBudget {
    /// Delay between two polls, in milliseconds.
    pub poll_interval_ms: u64,
    /// Total delay the pipeline is willing to spend, in milliseconds.
    pub max_wait_ms: u64,
    /// Confirmations a receipt needs before the transaction counts as applied.
    pub confirmations: u64,
}

/// The delay between two polls when none is configured, in milliseconds.
pub const DEFAULT_POLL_INTERVAL_MS: u64 = 10;

/// The total wait when none is configured, in milliseconds.
pub const DEFAULT_MAX_WAIT_MS: u64 = 60_000;

/// The confirmations asked for when none are configured.
pub const DEFAULT_CONFIRMATIONS: u64 = 1;

impl Default for ConfirmationBudget {
    /// Polls every ten milliseconds, for a minute at most, and takes the
    /// including block as confirmation enough.
    fn default() -> (r: Self)
        ensures
            r.poll_interval_ms == DEFAULT_POLL_INTERVAL_MS,
            r.max_wait_ms == DEFAULT_MAX_WAIT_MS,
            r.confirmations == DEFAULT_CONFIRMATIONS,
            r.wf(),
    {
        ConfirmationBudget {
            poll_interval_ms: DEFAULT_POLL_INTERVAL_MS,
            max_wait_ms: DEFAULT_MAX_WAIT_MS,
            confirmations: DEFAULT_CONFIRMATIONS,
        }
    }
}

impl ConfirmationBudget {
    /// A budget is usable when every poll consumes some of it.
    pub open spec fn wf(self) -> bool {
        self.poll_interval_ms > 0
    }

    /// Builds a budget; a zero poll interval is refused.
    pub fn new(poll_interval_ms: u64, max_wait_ms: u64, confirmations: u64) -> (r: Option<Self>)
        ensures
            r is Some <==> poll_interval_ms > 0,
            r matches Some(b) ==> b.poll_interval_ms == poll_interval_ms && b.max_wait_ms
                == max_wait_ms && b.confirmations == confirmations,
    {
        if poll_interval_ms == 0 {
            None
        } else {
            Some(ConfirmationBudget { poll_interval_ms, max_wait_ms, confirmations })
        }
    }
}

} // verus!
