use vstd::prelude::*;
use crate::error::{FailureKind, PipelineError, Stage, StageFailure};
use crate::executor::{
    next_action_spec, outcome_failure, start_spec, step_spec, ExecAction, ExecState, Execution,
};
use crate::provision::Provisioned;
use crate::quote::{select_quote, Quote, QuoteRequest};

verus! {

/// Balances of the job's two assets, in smallest units.
#[derive(Clone, Copy, Debug, PartialEq, Eq, Structural)]
pub struct Balances {
    pub input: u64,
    pub output: u64,
}

/// Where one swap cycle of one job stands.
#[derive(Clone, Copy, Debug, PartialEq, Eq, Structural)]
pub enum Phase {
    /// Waiting for the destination account to be ensured.
    Provisioning,
    /// Waiting for the quote request to be built and answered.
    Quoting,
    /// A quote was chosen; waiting for its transactions to be built.
    Building,
    /// Submitting the transaction set.
    Executing,
    /// Every transaction was confirmed.
    Settled,
    /// A stage failed; the remaining stages are skipped.
    Failed(StageFailure),
}

pub open spec fn failed(stage: Stage, error: PipelineError) -> Phase {
    Phase::Failed(StageFailure { stage, error })
}

/// The phase once the executor is in state `e`.
pub open spec fn phase_of_execution(e: ExecState) -> Phase {
    match next_action_spec(e) {
        ExecAction::Submit(_) => Phase::Executing,
        ExecAction::Done => Phase::Settled,
        ExecAction::Failed(err) => failed(Stage::Execute, err),
    }
}

fn copy_signatures(v: &Vec<[u8; 64]>) -> (r: Vec<[u8; 64]>)
    ensures
        r@ == v@,
{
    let mut r: Vec<[u8; 64]> = Vec::new();
    let mut i: usize = 0;
    while i < v.len()
        invariant
            0 <= i <= v@.len(),
            r@ == v@.subrange(0, i as int),
        decreases v@.len() - i,
    {
        r.push(v[i]);
        i = i + 1;
        assert(r@ =~= v@.subrange(0, i as int));
    }
    assert(r@ =~= v@);
    r
}

/// What one cycle reports, once, whatever its outcome.
pub struct CycleReport {
    pub pre: Balances,
    pub post: Balances,
    pub signatures: Vec<[u8; 64]>,
    pub failure: Option<StageFailure>,
}

/// One swap cycle of one job: provision, then quote, then execute, each
/// stage only after the previous one succeeded.
pub struct SwapCycle {
    phase: Phase,
    pre: Balances,
    quote: Option<Quote>,
    execution: Execution,
}

impl SwapCycle {
    pub closed spec fn phase_spec(&self) -> Phase {
        self.phase
    }

    pub closed spec fn pre_spec(&self) -> Balances {
        self.pre
    }

    /// The quote the cycle settled on, once it has one.
    pub closed spec fn quote_spec(&self) -> Option<Quote> {
        self.quote
    }

    pub closed spec fn execution_spec(&self) -> ExecState {
        self.execution.state()
    }

    pub closed spec fn signatures_spec(&self) -> Seq<[u8; 64]> {
        self.execution.signatures_spec()
    }

    pub closed spec fn wf(&self) -> bool {
        &&& self.execution.wf()
        &&& self.phase is Executing ==> self.execution.state().failure is None
            && self.execution.state().completed < self.execution.state().total
    }

    /// Starts a cycle with the balances observed before it.
    pub fn new(pre: Balances) -> (r: SwapCycle)
        ensures
            r.wf(),
            r.phase_spec() == Phase::Provisioning,
            r.pre_spec() == pre,
            r.quote_spec() is None,
            r.signatures_spec() == Seq::<[u8; 64]>::empty(),
    {
        SwapCycle { phase: Phase::Provisioning, pre, quote: None, execution: Execution::new(0) }
    }

    pub fn phase(&self) -> (r: Phase)
        ensures
            r == self.phase_spec(),
    {
        self.phase
    }

    pub fn quote(&self) -> (r: &Option<Quote>)
        ensures
            *r == self.quote_spec(),
    {
        &self.quote
    }

    /// Takes the provisioner's result for the output asset.
    pub fn on_provisioned(&mut self, result: Result<Provisioned, PipelineError>)
        requires
            old(self).wf(),
            old(self).phase_spec() == Phase::Provisioning,
        ensures
            final(self).wf(),
            final(self).phase_spec() == match result {
                Ok(_) => Phase::Quoting,
                Err(e) => failed(Stage::Provision, e),
            },
            final(self).pre_spec() == old(self).pre_spec(),
            final(self).quote_spec() == old(self).quote_spec(),
            final(self).signatures_spec() == old(self).signatures_spec(),
    {
        self.phase = match result {
            Ok(_) => Phase::Quoting,
            Err(e) => Phase::Failed(StageFailure { stage: Stage::Provision, error: e }),
        };
    }

    /// Takes the built quote request; returns the request to send, or
    /// `None` when the cycle failed here and nothing is to be sent.
    pub fn on_quote_request(&mut self, request: Result<QuoteRequest, PipelineError>) -> (r: Option<QuoteRequest>)
        requires
            old(self).wf(),
            old(self).phase_spec() == Phase::Quoting,
        ensures
            final(self).wf(),
            final(self).phase_spec() == match request {
                Ok(_) => Phase::Quoting,
                Err(e) => failed(Stage::Quote, e),
            },
            r == match request {
                Ok(q) => Some(q),
                Err(_) => None::<QuoteRequest>,
            },
            final(self).pre_spec() == old(self).pre_spec(),
            final(self).quote_spec() == old(self).quote_spec(),
            final(self).signatures_spec() == old(self).signatures_spec(),
    {
        match request {
            Ok(q) => Some(q),
            Err(e) => {
                self.phase = Phase::Failed(StageFailure { stage: Stage::Quote, error: e });
                None
            },
        }
    }

    /// Takes the aggregator's answer: the quotes best first, or the error
    /// that kept it from answering.
    pub fn on_quotes(&mut self, quotes: Result<Vec<Quote>, PipelineError>)
        requires
            old(self).wf(),
            old(self).phase_spec() == Phase::Quoting,
        ensures
            final(self).wf(),
            final(self).phase_spec() == match quotes {
                Err(e) => failed(Stage::Quote, e),
                Ok(qs) => if qs@.len() == 0 {
                    failed(Stage::Quote, PipelineError::NoQuoteAvailable)
                } else {
                    Phase::Building
                },
            },
            final(self).quote_spec() == match quotes {
                Ok(qs) => if qs@.len() == 0 {
                    old(self).quote_spec()
                } else {
                    Some(qs@[0])
                },
                Err(_) => old(self).quote_spec(),
            },
            final(self).pre_spec() == old(self).pre_spec(),
            final(self).signatures_spec() == old(self).signatures_spec(),
    {
        match quotes {
            Err(e) => {
                self.phase = Phase::Failed(StageFailure { stage: Stage::Quote, error: e });
            },
            Ok(qs) => match select_quote(qs) {
                Ok(q) => {
                    self.quote = Some(q);
                    self.phase = Phase::Building;
                },
                Err(e) => {
                    self.phase = Phase::Failed(StageFailure { stage: Stage::Quote, error: e });
                },
            },
        }
    }

    /// Takes the number of transactions that the aggregator built from the
    /// chosen quote, or the error that kept it from building them.
    pub fn on_built(&mut self, built: Result<u64, PipelineError>)
        requires
            old(self).wf(),
            old(self).phase_spec() == Phase::Building,
        ensures
            final(self).wf(),
            final(self).phase_spec() == match built {
                Ok(total) => phase_of_execution(start_spec(total)),
                Err(e) => failed(Stage::Execute, e),
            },
            built is Ok ==> final(self).execution_spec() == start_spec(built->Ok_0),
            final(self).pre_spec() == old(self).pre_spec(),
            final(self).quote_spec() == old(self).quote_spec(),
            built is Ok ==> final(self).signatures_spec() == Seq::<[u8; 64]>::empty(),
            built is Err ==> final(self).signatures_spec() == old(self).signatures_spec(),
    {
        match built {
            Ok(total) => {
                self.execution = Execution::new(total);
                self.phase = if total == 0 {
                    Phase::Settled
                } else {
                    Phase::Executing
                };
            },
            Err(e) => {
                self.phase = Phase::Failed(StageFailure { stage: Stage::Execute, error: e });
            },
        }
    }

    /// Index of the transaction to refresh, sign and submit next.
    pub fn next_submission(&self) -> (r: u64)
        requires
            self.wf(),
            self.phase_spec() == Phase::Executing,
        ensures
            next_action_spec(self.execution_spec()) == ExecAction::Submit(r),
    {
        self.execution.completed()
    }

    /// Takes the outcome of the submission asked for by `next_submission`.
    pub fn on_submitted(&mut self, outcome: Result<[u8; 64], FailureKind>)
        requires
            old(self).wf(),
            old(self).phase_spec() == Phase::Executing,
        ensures
            final(self).wf(),
            final(self).execution_spec() == step_spec(old(self).execution_spec(), outcome_failure(outcome)),
            final(self).phase_spec() == phase_of_execution(final(self).execution_spec()),
            final(self).pre_spec() == old(self).pre_spec(),
            final(self).quote_spec() == old(self).quote_spec(),
    {
        self.execution.on_submitted(outcome);
        self.phase = match self.execution.next_action() {
            ExecAction::Submit(_) => Phase::Executing,
            ExecAction::Done => Phase::Settled,
            ExecAction::Failed(e) => Phase::Failed(StageFailure { stage: Stage::Execute, error: e }),
        };
    }

    /// Closes the cycle with the balances observed after it.
    pub fn report(&self, post: Balances) -> (r: CycleReport)
        requires
            self.phase_spec() is Settled || self.phase_spec() is Failed,
        ensures
            r.pre == self.pre_spec(),
            r.post == post,
            r.signatures@ == self.signatures_spec(),
            r.failure == match self.phase_spec() {
                Phase::Failed(f) => Some(f),
                _ => None::<StageFailure>,
            },
    {
        let failure = match self.phase {
            Phase::Failed(f) => Some(f),
            _ => None,
        };
        CycleReport { pre: self.pre, post, signatures: copy_signatures(self.execution.signatures()), failure }
    }
}

impl CycleReport {
    /// Change of the input asset's balance over the cycle.
    pub fn input_change(&self) -> (r: i128)
        ensures
            r == self.post.input as int - self.pre.input as int,
    {
        self.post.input as i128 - self.pre.input as i128
    }

    /// Change of the output asset's balance over the cycle.
    pub fn output_change(&self) -> (r: i128)
        ensures
            r == self.post.output as int - self.pre.output as int,
    {
        self.post.output as i128 - self.pre.output as i128
    }
}

} // verus!
