use vstd::prelude::*;

verus! {

/// The stage of a swap cycle that a failure is attributed to.
#[derive(Clone, Copy, Debug, PartialEq, Eq, Structural)]
pub enum Stage {
    Provision,
    Quote,
    Execute,
}

/// How a single submitted transaction failed.
#[derive(Clone, Copy, Debug, PartialEq, Eq, Structural)]
pub enum FailureKind {
    /// The network refused the transaction outright.
    Rejected,
    /// No confirmation arrived before the wait was bounded off.
    TimedOut,
}

/// Every per-cycle failure, plus the one startup failure.
#[derive(Clone, Copy, Debug, PartialEq, Eq, Structural)]
pub enum PipelineError {
    /// A job descriptor could not be turned into a schedule (fatal at startup).
    ConfigInvalid,
    /// The job's amount converts to zero smallest units: nothing is requested.
    ZeroAmount,
    /// Creating the destination holding account was refused.
    AccountProvisionFailed,
    /// The network or the aggregator could not be reached; worth another try next cycle.
    ServiceUnavailable,
    /// The aggregator returned no route for the pair.
    NoQuoteAvailable,
    /// The first transaction of a set was refused: nothing changed on the ledger.
    SubmissionRejected,
    /// The first transaction of a set was never confirmed: the ledger state is unknown.
    ConfirmationTimeout,
    /// `completed` of `total` transactions were confirmed before `cause` stopped the set.
    PartialExecution { completed: u64, total: u64, cause: FailureKind },
}

/// A failure together with the stage it ended the cycle in.
#[derive(Clone, Copy, Debug, PartialEq, Eq, Structural)]
pub struct StageFailure {
    pub stage: Stage,
    pub error: PipelineError,
}

impl PipelineError {
    /// Only a configuration error ends the process; every other error ends one cycle.
    pub open spec fn is_fatal_spec(self) -> bool {
        self is ConfigInvalid
    }

    pub fn is_fatal(&self) -> (r: bool)
        ensures
            r == self.is_fatal_spec(),
    {
        match self {
            PipelineError::ConfigInvalid => true,
            _ => false,
        }
    }
}

} // verus!
