use dca_swap::address::same_key;
use dca_swap::amount::{checked_amount, smallest_units};
use dca_swap::error::{FailureKind, PipelineError, Stage, StageFailure};
use dca_swap::executor::{transaction_set, ExecAction, Execution};
use dca_swap::job::{load_jobs, Job, JobDescriptor, Recurrence};
use dca_swap::pipeline::{Balances, Phase, SwapCycle};
use dca_swap::provision::{ProvisionStep, Provisioned, Provisioner};
use dca_swap::quote::{select_quote, Quote};
use dca_swap::scheduler::{FireDecision, Scheduler};

const SYSTEM_KEY: &str = "11111111111111111111111111111111";
const NATIVE_MINT: &str = "So11111111111111111111111111111111111111112";

fn descriptor(input: &str, output: &str, amount: &str, recurrence: Recurrence) -> JobDescriptor {
    JobDescriptor {
        input_mint: input.to_string(),
        output_mint: output.to_string(),
        amount: amount.to_string(),
        recurrence,
        slippage_bps: None,
        only_direct_routes: None,
    }
}

fn quote(input: u64, output: u64, worst: u64, route: &[&str]) -> Quote {
    Quote {
        in_amount: input,
        out_amount: output,
        out_amount_with_slippage: worst,
        route: route.iter().map(|s| s.to_string()).collect(),
        price_impact_ppm: 1200,
    }
}

#[test]
fn overlapping_firing_is_skipped_with_ceiling_one() {
    let mut s = Scheduler::new(&vec![1, 1]).unwrap();
    assert_eq!(s.fire(0), FireDecision::Start);
    // The first cycle is still running (a slow pipeline): the next firing is dropped.
    assert_eq!(s.fire(0), FireDecision::Skipped);
    assert_eq!(s.fire(0), FireDecision::Skipped);
    assert_eq!(s.running(0), 1);
    // Another job is not held up.
    assert_eq!(s.fire(1), FireDecision::Start);
    s.finish(0);
    assert_eq!(s.running(0), 0);
    assert_eq!(s.fire(0), FireDecision::Start);
}

#[test]
fn ceiling_two_allows_two_cycles() {
    let mut s = Scheduler::new(&vec![2]).unwrap();
    assert_eq!(s.fire(0), FireDecision::Start);
    assert_eq!(s.fire(0), FireDecision::Start);
    assert_eq!(s.fire(0), FireDecision::Skipped);
    assert_eq!(s.running(0), 2);
}

#[test]
fn zero_ceiling_is_a_config_error() {
    assert_eq!(Scheduler::new(&vec![1, 0]).err(), Some(PipelineError::ConfigInvalid));
    assert_eq!(Scheduler::new(&vec![]).unwrap().job_count(), 0);
}

#[test]
fn shutdown_cancels_every_later_firing() {
    let mut s = Scheduler::new(&vec![1, 3]).unwrap();
    assert_eq!(s.fire(1), FireDecision::Start);
    s.shutdown();
    assert!(s.is_shut_down());
    for _ in 0..100 {
        assert_eq!(s.fire(0), FireDecision::Cancelled);
        assert_eq!(s.fire(1), FireDecision::Cancelled);
    }
    assert_eq!(s.running(0), 0);
    assert!(!s.is_idle());
    // The cycle in flight may still finish.
    s.finish(1);
    assert!(s.is_idle());
    assert_eq!(s.fire(1), FireDecision::Cancelled);
}

#[test]
fn ensure_twice_creates_once() {
    let mut p = Provisioner::new([7u8; 32]);
    let asset = [9u8; 32];
    assert_eq!(p.begin(&asset), ProvisionStep::LookUp);
    assert_eq!(p.on_lookup(&asset, false), ProvisionStep::Create);
    assert_eq!(p.on_created(&asset, None), Ok(Provisioned::Created));
    // The second ensure neither looks up nor submits anything.
    assert_eq!(p.begin(&asset), ProvisionStep::Ready(Provisioned::Existed));
    // Another asset is still looked up.
    assert_eq!(p.begin(&[3u8; 32]), ProvisionStep::LookUp);
}

#[test]
fn ensure_of_existing_account_submits_nothing() {
    let mut p = Provisioner::new([7u8; 32]);
    let asset = [4u8; 32];
    assert_eq!(p.on_lookup(&asset, true), ProvisionStep::Ready(Provisioned::Existed));
    assert_eq!(p.begin(&asset), ProvisionStep::Ready(Provisioned::Existed));
}

#[test]
fn failed_creation_is_looked_up_again() {
    let mut p = Provisioner::new([7u8; 32]);
    let asset = [5u8; 32];
    assert_eq!(p.on_lookup(&asset, false), ProvisionStep::Create);
    assert_eq!(p.on_created(&asset, Some(FailureKind::Rejected)), Err(PipelineError::AccountProvisionFailed));
    assert_eq!(p.begin(&asset), ProvisionStep::LookUp);
    assert_eq!(p.on_created(&asset, Some(FailureKind::TimedOut)), Err(PipelineError::ConfirmationTimeout));
    assert_eq!(p.begin(&asset), ProvisionStep::LookUp);
}

#[test]
fn holding_address_is_derived_from_both_keys() {
    let p = Provisioner::new([7u8; 32]);
    let a = p.holding_address(&[9u8; 32]);
    let b = p.holding_address(&[8u8; 32]);
    assert_ne!(a, [7u8; 32]);
    assert_ne!(a, [9u8; 32]);
    assert_ne!(a, b);
    assert_eq!(a, p.holding_address(&[9u8; 32]));
    assert_eq!(p.owner(), [7u8; 32]);
    assert!(same_key(&a, &a));
    assert!(!same_key(&a, &b));
}

#[test]
fn zero_amount_is_refused_before_any_request() {
    let job = Job::from_descriptor(descriptor(SYSTEM_KEY, NATIVE_MINT, "0", Recurrence::EverySeconds(60))).unwrap();
    assert_eq!(job.quote_request(6).err(), Some(PipelineError::ZeroAmount));
    let job = Job::from_descriptor(descriptor(SYSTEM_KEY, NATIVE_MINT, "0.000", Recurrence::EverySeconds(60))).unwrap();
    assert_eq!(job.quote_request(6).err(), Some(PipelineError::ZeroAmount));
    let mut c = SwapCycle::new(Balances { input: 5, output: 0 });
    c.on_provisioned(Ok(Provisioned::Existed));
    assert!(c.on_quote_request(job.quote_request(6)).is_none());
    assert_eq!(c.phase(), Phase::Failed(StageFailure { stage: Stage::Quote, error: PipelineError::ZeroAmount }));
}

#[test]
fn amounts_convert_at_the_asset_precision() {
    assert_eq!(smallest_units(&"10.0".to_string(), 6), Ok(10_000_000));
    assert_eq!(smallest_units(&"1.5".to_string(), 9), Ok(1_500_000_000));
    assert_eq!(smallest_units(&"42".to_string(), 0), Ok(42));
    assert_eq!(smallest_units(&"0.1234567".to_string(), 6), Err(PipelineError::ConfigInvalid));
    assert_eq!(smallest_units(&"ten".to_string(), 6), Err(PipelineError::ConfigInvalid));
    assert_eq!(smallest_units(&"".to_string(), 6), Err(PipelineError::ConfigInvalid));
    assert_eq!(checked_amount(Some(0)), Err(PipelineError::ZeroAmount));
    assert_eq!(checked_amount(None), Err(PipelineError::ConfigInvalid));
    assert_eq!(checked_amount(Some(3)), Ok(3));
}

#[test]
fn second_transaction_failing_stops_the_set() {
    let mut e = Execution::new(3);
    assert_eq!(e.next_action(), ExecAction::Submit(0));
    e.on_submitted(Ok([1u8; 64]));
    assert_eq!(e.next_action(), ExecAction::Submit(1));
    e.on_submitted(Err(FailureKind::Rejected));
    assert_eq!(
        e.next_action(),
        ExecAction::Failed(PipelineError::PartialExecution { completed: 1, total: 3, cause: FailureKind::Rejected })
    );
    assert_eq!(e.completed(), 1);
    assert_eq!(e.attempted(), 2);
    assert_eq!(e.total(), 3);
    assert_eq!(e.signatures().len(), 1);
}

#[test]
fn first_transaction_failure_kinds() {
    let mut e = Execution::new(2);
    e.on_submitted(Err(FailureKind::Rejected));
    assert_eq!(e.next_action(), ExecAction::Failed(PipelineError::SubmissionRejected));
    let mut e = Execution::new(2);
    e.on_submitted(Err(FailureKind::TimedOut));
    assert_eq!(e.next_action(), ExecAction::Failed(PipelineError::ConfirmationTimeout));
    assert_eq!(e.attempted(), 1);
}

#[test]
fn all_transactions_confirmed() {
    let mut e = Execution::new(2);
    e.on_submitted(Ok([1u8; 64]));
    e.on_submitted(Ok([2u8; 64]));
    assert_eq!(e.next_action(), ExecAction::Done);
    assert_eq!(e.signatures(), &vec![[1u8; 64], [2u8; 64]]);
    assert_eq!(e.attempted(), 2);
}

#[test]
fn transaction_set_keeps_setup_swap_cleanup_order() {
    assert_eq!(transaction_set(Some("setup"), "swap", Some("cleanup")), vec!["setup", "swap", "cleanup"]);
    assert_eq!(transaction_set(None, "swap", Some("cleanup")), vec!["swap", "cleanup"]);
    assert_eq!(transaction_set(Some(1), 2, None), vec![1, 2]);
    assert_eq!(transaction_set::<u8>(None, 2, None), vec![2]);
}

#[test]
fn best_quote_is_the_first() {
    let qs = vec![quote(10, 9, 8, &["A"]), quote(10, 7, 6, &["B"])];
    assert_eq!(select_quote(qs).unwrap().out_amount, 9);
    assert_eq!(select_quote(vec![]).err().map(|_| ()), Some(()));
    assert!(matches!(select_quote(vec![]), Err(PipelineError::NoQuoteAvailable)));
}

#[test]
fn route_label_joins_hops() {
    assert_eq!(quote(1, 1, 1, &["Orca", "Raydium", "Serum"]).route_label(), "Orca, Raydium, Serum");
    assert_eq!(quote(1, 1, 1, &["Orca"]).route_label(), "Orca");
    assert_eq!(quote(1, 1, 1, &[]).route_label(), "");
}

#[test]
fn descriptors_are_validated_all_or_nothing() {
    let good = descriptor(SYSTEM_KEY, NATIVE_MINT, "1", Recurrence::Cron("0 * * * * * *".to_string()));
    let jobs = load_jobs(vec![good.clone(), descriptor(NATIVE_MINT, SYSTEM_KEY, "2", Recurrence::EverySeconds(5))]).unwrap();
    assert_eq!(jobs.len(), 2);
    assert_eq!(jobs[0].input, [0u8; 32]);
    assert_eq!(jobs[1].output, [0u8; 32]);
    assert_eq!(jobs[0].slippage_bps, 100);
    assert!(!jobs[0].only_direct_routes);
    let bad_key = descriptor("not a key", NATIVE_MINT, "1", Recurrence::EverySeconds(5));
    assert_eq!(load_jobs(vec![good.clone(), bad_key]).err(), Some(PipelineError::ConfigInvalid));
    let bad_interval = descriptor(SYSTEM_KEY, NATIVE_MINT, "1", Recurrence::EverySeconds(0));
    assert_eq!(load_jobs(vec![bad_interval, good.clone()]).err(), Some(PipelineError::ConfigInvalid));
    let mut bad_slippage = good.clone();
    bad_slippage.slippage_bps = Some(10_001);
    assert_eq!(Job::from_descriptor(bad_slippage).err(), Some(PipelineError::ConfigInvalid));
    let empty_cron = descriptor(SYSTEM_KEY, NATIVE_MINT, "1", Recurrence::Cron(String::new()));
    assert_eq!(Job::from_descriptor(empty_cron).err(), Some(PipelineError::ConfigInvalid));
    assert_eq!(load_jobs(vec![]).unwrap().len(), 0);
}

#[test]
fn end_to_end_cycle_reports_balances() {
    let jobs = load_jobs(vec![descriptor(SYSTEM_KEY, NATIVE_MINT, "10.0", Recurrence::EverySeconds(60))]).unwrap();
    let job = &jobs[0];
    let mut sched = Scheduler::new(&vec![1]).unwrap();
    let mut prov = Provisioner::new([7u8; 32]);
    assert_eq!(sched.fire(0), FireDecision::Start);

    let mut c = SwapCycle::new(Balances { input: 50_000_000, output: 0 });
    assert_eq!(prov.begin(&job.output), ProvisionStep::LookUp);
    assert_eq!(prov.on_lookup(&job.output, true), ProvisionStep::Ready(Provisioned::Existed));
    c.on_provisioned(Ok(Provisioned::Existed));
    let req = c.on_quote_request(job.quote_request(6)).unwrap();
    assert_eq!(req.amount, 10_000_000);
    assert_eq!(req.slippage_bps, 100);
    c.on_quotes(Ok(vec![quote(10_000_000, 9_500_000, 9_405_000, &["Orca"])]));
    assert_eq!(c.phase(), Phase::Building);
    c.on_built(Ok(1));
    assert_eq!(c.next_submission(), 0);
    c.on_submitted(Ok([3u8; 64]));
    assert_eq!(c.phase(), Phase::Settled);

    let report = c.report(Balances { input: 40_000_000, output: 9_500_000 });
    assert_eq!(report.failure, None);
    assert_eq!(report.signatures, vec![[3u8; 64]]);
    assert_eq!(report.input_change(), -10_000_000);
    assert_eq!(report.output_change(), 9_500_000);
    assert!(c.quote().as_ref().unwrap().within_slippage(9_500_000));
    assert!(!c.quote().as_ref().unwrap().within_slippage(9_000_000));
    sched.finish(0);
    assert_eq!(sched.fire(0), FireDecision::Start);
}

#[test]
fn empty_quote_list_fails_the_cycle_only() {
    let mut sched = Scheduler::new(&vec![1]).unwrap();
    assert_eq!(sched.fire(0), FireDecision::Start);
    let mut c = SwapCycle::new(Balances { input: 50, output: 0 });
    c.on_provisioned(Ok(Provisioned::Existed));
    c.on_quotes(Ok(vec![]));
    let failure = StageFailure { stage: Stage::Quote, error: PipelineError::NoQuoteAvailable };
    assert_eq!(c.phase(), Phase::Failed(failure));
    let report = c.report(Balances { input: 50, output: 0 });
    assert_eq!(report.failure, Some(failure));
    assert!(report.signatures.is_empty());
    assert_eq!(report.input_change(), 0);
    assert!(!failure.error.is_fatal());
    sched.finish(0);
    // The next firing still runs.
    assert_eq!(sched.fire(0), FireDecision::Start);
}

#[test]
fn stage_failures_are_tagged() {
    let mut c = SwapCycle::new(Balances { input: 1, output: 1 });
    c.on_provisioned(Err(PipelineError::AccountProvisionFailed));
    assert_eq!(c.phase(), Phase::Failed(StageFailure { stage: Stage::Provision, error: PipelineError::AccountProvisionFailed }));

    let mut c = SwapCycle::new(Balances { input: 1, output: 1 });
    c.on_provisioned(Ok(Provisioned::Created));
    c.on_quotes(Err(PipelineError::ServiceUnavailable));
    assert_eq!(c.phase(), Phase::Failed(StageFailure { stage: Stage::Quote, error: PipelineError::ServiceUnavailable }));

    let mut c = SwapCycle::new(Balances { input: 1, output: 1 });
    c.on_provisioned(Ok(Provisioned::Created));
    c.on_quotes(Ok(vec![quote(1, 1, 1, &["A"])]));
    c.on_built(Ok(3));
    c.on_submitted(Ok([1u8; 64]));
    c.on_submitted(Err(FailureKind::TimedOut));
    let error = PipelineError::PartialExecution { completed: 1, total: 3, cause: FailureKind::TimedOut };
    assert_eq!(c.phase(), Phase::Failed(StageFailure { stage: Stage::Execute, error }));
    assert_eq!(c.report(Balances { input: 0, output: 2 }).signatures.len(), 1);
    assert!(PipelineError::ConfigInvalid.is_fatal());
}
