use vstd::prelude::*;
use vstd::string::StrSliceExecFns;
use crate::amount::smallest_units_of;
use crate::error::PipelineError;
use crate::quote::{quote_request, request_spec, QuoteRequest};

verus! {

/// Slippage tolerance when a job names none: one percent.
pub const DEFAULT_SLIPPAGE_BPS: u64 = 100;

/// The largest meaningful slippage tolerance: the whole amount.
pub const MAX_SLIPPAGE_BPS: u64 = 10000;

/// The 32-byte key that a base58 text denotes, if it denotes one.
pub uninterp spec fn key_of(text: Seq<char>) -> Option<Seq<u8>>;

/// Relies on `solana_sdk::pubkey::Pubkey::try_from(&str)`: the decoded
/// key depends on the text alone; text that is no key gives an error.
#[verifier::external_body]
fn parse_key(text: &String) -> (r: Option<[u8; 32]>)
    ensures
        r is Some <==> key_of(text@) is Some,
        r matches Some(k) ==> key_of(text@) == Some(k@),
{
    match solana_sdk::pubkey::Pubkey::try_from(text.as_str()) {
        Ok(k) => Some(k.to_bytes()),
        Err(_) => None,
    }
}

/// When a job's trigger fires.
#[derive(Clone, Debug)]
pub enum Recurrence {
    /// A cron expression, read by the timer service.
    Cron(String),
    /// A fixed interval, in seconds.
    EverySeconds(u64),
}

/// A job as the configuration writes it.
#[derive(Clone, Debug)]
pub struct JobDescriptor {
    pub input_mint: String,
    pub output_mint: String,
    /// The amount of the input asset to swap per firing, as decimal text.
    pub amount: String,
    pub recurrence: Recurrence,
    pub slippage_bps: Option<u64>,
    pub only_direct_routes: Option<bool>,
}

/// A validated job: immutable once scheduled.
#[derive(Clone, Debug)]
pub struct Job {
    pub input: [u8; 32],
    pub output: [u8; 32],
    pub amount: String,
    pub recurrence: Recurrence,
    pub slippage_bps: u64,
    pub only_direct_routes: bool,
}

pub open spec fn recurrence_valid(r: Recurrence) -> bool {
    match r {
        Recurrence::Cron(c) => c@.len() > 0,
        Recurrence::EverySeconds(n) => n > 0,
    }
}

pub open spec fn slippage_of(d: JobDescriptor) -> u64 {
    match d.slippage_bps {
        Some(b) => b,
        None => DEFAULT_SLIPPAGE_BPS,
    }
}

/// Whether a descriptor can be scheduled.
pub open spec fn descriptor_valid(d: JobDescriptor) -> bool {
    &&& key_of(d.input_mint@) is Some
    &&& key_of(d.output_mint@) is Some
    &&& recurrence_valid(d.recurrence)
    &&& slippage_of(d) <= MAX_SLIPPAGE_BPS
}

/// Whether `j` is the job that the valid descriptor `d` describes.
pub open spec fn job_of(j: Job, d: JobDescriptor) -> bool {
    &&& key_of(d.input_mint@) == Some(j.input@)
    &&& key_of(d.output_mint@) == Some(j.output@)
    &&& j.amount@ == d.amount@
    &&& j.recurrence == d.recurrence
    &&& j.slippage_bps == slippage_of(d)
    &&& j.only_direct_routes == match d.only_direct_routes {
        Some(b) => b,
        None => false,
    }
}

fn recurrence_ok(r: &Recurrence) -> (ok: bool)
    ensures
        ok == recurrence_valid(*r),
{
    match r {
        Recurrence::Cron(c) => c.as_str().unicode_len() > 0,
        Recurrence::EverySeconds(n) => *n > 0,
    }
}

impl Job {
    /// Validates one descriptor: both keys must decode, the recurrence must
    /// be a non-empty expression or a positive interval, and the slippage
    /// tolerance at most the whole amount.
    pub fn from_descriptor(d: JobDescriptor) -> (r: Result<Job, PipelineError>)
        ensures
            descriptor_valid(d) <==> r is Ok,
            r matches Ok(j) ==> job_of(j, d),
            r is Err ==> r == Err::<Job, PipelineError>(PipelineError::ConfigInvalid),
    {
        let input = parse_key(&d.input_mint);
        let output = parse_key(&d.output_mint);
        let slippage_bps = match d.slippage_bps {
            Some(b) => b,
            None => DEFAULT_SLIPPAGE_BPS,
        };
        let only_direct_routes = match d.only_direct_routes {
            Some(b) => b,
            None => false,
        };
        if !recurrence_ok(&d.recurrence) || slippage_bps > MAX_SLIPPAGE_BPS {
            return Err(PipelineError::ConfigInvalid);
        }
        match (input, output) {
            (Some(input), Some(output)) => Ok(Job {
                input,
                output,
                amount: d.amount,
                recurrence: d.recurrence,
                slippage_bps,
                only_direct_routes,
            }),
            _ => Err(PipelineError::ConfigInvalid),
        }
    }

    /// The quote request of one firing, given the input asset's precision.
    pub fn quote_request(&self, decimals: u8) -> (r: Result<QuoteRequest, PipelineError>)
        ensures
            r == request_spec(
                self.input,
                self.output,
                smallest_units_of(self.amount@, decimals),
                self.only_direct_routes,
                self.slippage_bps,
            ),
    {
        quote_request(self.input, self.output, &self.amount, decimals, self.only_direct_routes, self.slippage_bps)
    }
}

/// Validates every descriptor, in order; one invalid descriptor refuses
/// the whole configuration, so that no partial schedule is ever started.
pub fn load_jobs(descriptors: Vec<JobDescriptor>) -> (r: Result<Vec<Job>, PipelineError>)
    ensures
        (forall|i: int| 0 <= i < descriptors@.len() ==> descriptor_valid(#[trigger] descriptors@[i]))
            <==> r is Ok,
        r matches Ok(js) ==> js@.len() == descriptors@.len() && forall|i: int|
            0 <= i < js@.len() ==> job_of(#[trigger] js@[i], descriptors@[i]),
        r is Err ==> r == Err::<Vec<Job>, PipelineError>(PipelineError::ConfigInvalid),
{
    let ghost ds = descriptors@;
    let mut jobs: Vec<Job> = Vec::new();
    let mut rest = descriptors;
    while rest.len() > 0
        invariant
            ds == descriptors@,
            jobs@.len() + rest@.len() == ds.len(),
            rest@ == ds.subrange(jobs@.len() as int, ds.len() as int),
            forall|k: int| 0 <= k < jobs@.len() ==> descriptor_valid(#[trigger] ds[k]),
            forall|k: int| 0 <= k < jobs@.len() ==> job_of(#[trigger] jobs@[k], ds[k]),
        decreases rest@.len(),
    {
        let ghost k = jobs@.len();
        let d = rest.remove(0);
        assert(d == ds[k as int]);
        match Job::from_descriptor(d) {
            Ok(j) => {
                jobs.push(j);
            },
            Err(e) => {
                assert(!descriptor_valid(ds[k as int]));
                return Err(e);
            },
        }
    }
    Ok(jobs)
}

} // verus!
