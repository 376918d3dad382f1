use vstd::prelude::*;
use crate::error::{FailureKind, PipelineError};

verus! {

pub open spec fn opt_seq<T>(o: Option<T>) -> Seq<T> {
    match o {
        Some(t) => seq![t],
        None => Seq::empty(),
    }
}

/// Orders the transactions that the aggregator built for one quote: the
/// optional setup, the swap, then the optional cleanup.
pub fn transaction_set<T>(setup: Option<T>, swap: T, cleanup: Option<T>) -> (r: Vec<T>)
    ensures
        r@ == opt_seq(setup) + seq![swap] + opt_seq(cleanup),
{
    let mut r: Vec<T> = Vec::new();
    match setup {
        Some(t) => r.push(t),
        None => {},
    }
    r.push(swap);
    match cleanup {
        Some(t) => r.push(t),
        None => {},
    }
    assert(r@ =~= opt_seq(setup) + seq![swap] + opt_seq(cleanup));
    r
}

/// The error that ends a set when transaction number `completed` (counted
/// from zero) of `total` fails with `cause`: with nothing confirmed yet the
/// ledger is untouched (or, after a timeout, unknown); otherwise the set is
/// partly executed.
pub open spec fn failure_error(completed: u64, total: u64, cause: FailureKind) -> PipelineError {
    if completed == 0 {
        match cause {
            FailureKind::Rejected => PipelineError::SubmissionRejected,
            FailureKind::TimedOut => PipelineError::ConfirmationTimeout,
        }
    } else {
        PipelineError::PartialExecution { completed, total, cause }
    }
}

/// The state of the submission of one transaction set.
pub struct ExecState {
    pub total: u64,
    pub completed: u64,
    pub failure: Option<PipelineError>,
}

/// What the executor asks for next.
#[derive(Clone, Copy, Debug, PartialEq, Eq, Structural)]
pub enum ExecAction {
    /// Fetch a fresh token, attach it to transaction `index`, sign it,
    /// submit it and wait for its confirmation.
    Submit(u64),
    /// Every transaction of the set is confirmed.
    Done,
    /// The set was stopped by this error; nothing further is submitted.
    Failed(PipelineError),
}

pub open spec fn start_spec(total: u64) -> ExecState {
    ExecState { total, completed: 0, failure: None }
}

pub open spec fn next_action_spec(s: ExecState) -> ExecAction {
    match s.failure {
        Some(e) => ExecAction::Failed(e),
        None => if s.completed < s.total {
            ExecAction::Submit(s.completed)
        } else {
            ExecAction::Done
        },
    }
}

/// One submission's outcome: `None` when it was confirmed.
pub open spec fn step_spec(s: ExecState, outcome: Option<FailureKind>) -> ExecState {
    if s.failure is Some || s.completed >= s.total {
        s
    } else {
        match outcome {
            None => ExecState { completed: (s.completed + 1) as u64, ..s },
            Some(k) => ExecState { failure: Some(failure_error(s.completed, s.total, k)), ..s },
        }
    }
}

/// Submissions made so far: every confirmed one and the one that failed.
pub open spec fn attempted(s: ExecState) -> nat {
    (s.completed + if s.failure is Some { 1int } else { 0int }) as nat
}

/// The state after the ledger answered `outcomes`, one per submission asked for.
pub open spec fn run_spec(s: ExecState, outcomes: Seq<Option<FailureKind>>) -> ExecState
    decreases outcomes.len(),
{
    if outcomes.len() == 0 {
        s
    } else {
        run_spec(step_spec(s, outcomes[0]), outcomes.drop_first())
    }
}

pub open spec fn outcome_failure(outcome: Result<[u8; 64], FailureKind>) -> Option<FailureKind> {
    match outcome {
        Ok(_) => None,
        Err(k) => Some(k),
    }
}

/// Submits the transactions of one set strictly in order, one at a time,
/// and stops at the first that is refused or not confirmed.
pub struct Execution {
    total: u64,
    completed: u64,
    failure: Option<PipelineError>,
    signatures: Vec<[u8; 64]>,
}

impl Execution {
    pub closed spec fn state(&self) -> ExecState {
        ExecState { total: self.total, completed: self.completed, failure: self.failure }
    }

    /// The signature of each confirmed transaction, in order.
    pub closed spec fn signatures_spec(&self) -> Seq<[u8; 64]> {
        self.signatures@
    }

    pub closed spec fn wf(&self) -> bool {
        &&& self.completed <= self.total
        &&& self.signatures@.len() == self.completed
        &&& self.failure is Some ==> self.completed < self.total
    }

    pub fn new(total: u64) -> (r: Execution)
        ensures
            r.wf(),
            r.state() == start_spec(total),
            r.signatures_spec() == Seq::<[u8; 64]>::empty(),
    {
        Execution { total, completed: 0, failure: None, signatures: Vec::new() }
    }

    pub fn next_action(&self) -> (r: ExecAction)
        ensures
            r == next_action_spec(self.state()),
    {
        match self.failure {
            Some(e) => ExecAction::Failed(e),
            None => if self.completed < self.total {
                ExecAction::Submit(self.completed)
            } else {
                ExecAction::Done
            },
        }
    }

    /// Takes the outcome of the submission that `next_action` asked for:
    /// the transaction's signature once confirmed, or how it failed.
    pub fn on_submitted(&mut self, outcome: Result<[u8; 64], FailureKind>)
        requires
            old(self).wf(),
            next_action_spec(old(self).state()) is Submit,
        ensures
            final(self).wf(),
            final(self).state() == step_spec(old(self).state(), outcome_failure(outcome)),
            final(self).signatures_spec() == match outcome {
                Ok(sig) => old(self).signatures_spec().push(sig),
                Err(_) => old(self).signatures_spec(),
            },
    {
        match outcome {
            Ok(sig) => {
                self.completed = self.completed + 1;
                self.signatures.push(sig);
            },
            Err(k) => {
                let e = if self.completed == 0 {
                    match k {
                        FailureKind::Rejected => PipelineError::SubmissionRejected,
                        FailureKind::TimedOut => PipelineError::ConfirmationTimeout,
                    }
                } else {
                    PipelineError::PartialExecution { completed: self.completed, total: self.total, cause: k }
                };
                self.failure = Some(e);
            },
        }
    }

    pub fn completed(&self) -> (r: u64)
        ensures
            r == self.state().completed,
    {
        self.completed
    }

    pub fn total(&self) -> (r: u64)
        ensures
            r == self.state().total,
    {
        self.total
    }

    /// Submissions made so far, the failed one included.
    pub fn attempted(&self) -> (r: u64)
        requires
            self.wf(),
        ensures
            r == attempted(self.state()),
    {
        match self.failure {
            Some(_) => self.completed + 1,
            None => self.completed,
        }
    }

    pub fn signatures(&self) -> (r: &Vec<[u8; 64]>)
        ensures
            r@ == self.signatures_spec(),
    {
        &self.signatures
    }
}

proof fn lemma_failed_is_stuck(s: ExecState, outcomes: Seq<Option<FailureKind>>)
    requires
        s.failure is Some,
    ensures
        run_spec(s, outcomes) == s,
    decreases outcomes.len(),
{
    if outcomes.len() > 0 {
        lemma_failed_is_stuck(step_spec(s, outcomes[0]), outcomes.drop_first());
    }
}

proof fn lemma_run_to_failure(s: ExecState, outcomes: Seq<Option<FailureKind>>, j: int)
    requires
        s.failure is None,
        0 <= j < outcomes.len(),
        s.completed + j < s.total,
        outcomes[j] is Some,
        forall|i: int| 0 <= i < j ==> outcomes[i] is None,
    ensures
        run_spec(s, outcomes).completed == s.completed + j,
        run_spec(s, outcomes).total == s.total,
        run_spec(s, outcomes).failure == Some(
            failure_error((s.completed + j) as u64, s.total, outcomes[j]->0),
        ),
    decreases j,
{
    let t = step_spec(s, outcomes[0]);
    let rest = outcomes.drop_first();
    if j == 0 {
        lemma_failed_is_stuck(t, rest);
    } else {
        assert forall|i: int| 0 <= i < j - 1 implies rest[i] is None by {
            assert(rest[i] == outcomes[i + 1]);
        }
        lemma_run_to_failure(t, rest, j - 1);
    }
}

/// A set of `total` transactions whose transaction number `j` (counted
/// from zero) is the first to fail ends with exactly `j` confirmed and `j + 1`
/// submitted: nothing after the failure is attempted, whatever the ledger
/// would have answered to it.
pub proof fn lemma_first_failure_aborts_rest(
    total: u64,
    outcomes: Seq<Option<FailureKind>>,
    j: int,
)
    requires
        0 <= j < outcomes.len(),
        j < total,
        outcomes[j] is Some,
        forall|i: int| 0 <= i < j ==> outcomes[i] is None,
    ensures
        run_spec(start_spec(total), outcomes).completed == j,
        attempted(run_spec(start_spec(total), outcomes)) == j + 1,
        run_spec(start_spec(total), outcomes).failure == Some(
            failure_error(j as u64, total, outcomes[j]->0),
        ),
{
    lemma_run_to_failure(start_spec(total), outcomes, j);
}

} // verus!
