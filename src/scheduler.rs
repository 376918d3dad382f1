use vstd::prelude::*;
use crate::error::PipelineError;

verus! {

/// What happens to one firing of a job's trigger.
#[derive(Clone, Copy, Debug, PartialEq, Eq, Structural)]
pub enum FireDecision {
    /// Run the job's swap cycle now.
    Start,
    /// The job already has as many cycles in flight as its ceiling allows:
    /// this firing is dropped, not queued.
    Skipped,
    /// The scheduler was shut down: no cycle starts any more.
    Cancelled,
}

/// One job's concurrency ceiling and the cycles of it now in flight.
#[derive(Clone, Copy, Debug, PartialEq, Eq, Structural)]
pub struct JobSlot {
    pub ceiling: u32,
    pub running: u32,
}

/// The scheduler's state: one slot per job, indexed by job id.
pub struct SchedState {
    pub slots: Seq<JobSlot>,
    pub shut_down: bool,
}

/// Something that happens to the scheduler.
#[derive(Clone, Copy, Debug, PartialEq, Eq, Structural)]
pub enum SchedEvent {
    /// The trigger of job `0` fired.
    Fire(usize),
    /// A cycle of job `0` ended, successfully or not.
    Finish(usize),
    /// Shutdown was requested.
    Shutdown,
}

pub open spec fn slots_wf(slots: Seq<JobSlot>) -> bool {
    forall|i: int|
        0 <= i < slots.len() ==> 1 <= #[trigger] slots[i].ceiling && slots[i].running
            <= slots[i].ceiling
}

pub open spec fn fire_decision(s: SchedState, job: int) -> FireDecision {
    if s.shut_down {
        FireDecision::Cancelled
    } else if 0 <= job < s.slots.len() && s.slots[job].running < s.slots[job].ceiling {
        FireDecision::Start
    } else {
        FireDecision::Skipped
    }
}

pub open spec fn after_fire(s: SchedState, job: int) -> SchedState {
    if fire_decision(s, job) == FireDecision::Start {
        SchedState {
            slots: s.slots.update(
                job,
                JobSlot { running: (s.slots[job].running + 1) as u32, ..s.slots[job] },
            ),
            ..s
        }
    } else {
        s
    }
}

pub open spec fn after_finish(s: SchedState, job: int) -> SchedState {
    if 0 <= job < s.slots.len() && s.slots[job].running > 0 {
        SchedState {
            slots: s.slots.update(
                job,
                JobSlot { running: (s.slots[job].running - 1) as u32, ..s.slots[job] },
            ),
            ..s
        }
    } else {
        s
    }
}

pub open spec fn after_shutdown(s: SchedState) -> SchedState {
    SchedState { shut_down: true, ..s }
}

pub open spec fn after_event(s: SchedState, e: SchedEvent) -> SchedState {
    match e {
        SchedEvent::Fire(j) => after_fire(s, j as int),
        SchedEvent::Finish(j) => after_finish(s, j as int),
        SchedEvent::Shutdown => after_shutdown(s),
    }
}

pub open spec fn starts_of(s: SchedState, e: SchedEvent) -> nat {
    match e {
        SchedEvent::Fire(j) => if fire_decision(s, j as int) == FireDecision::Start {
            1nat
        } else {
            0nat
        },
        _ => 0nat,
    }
}

/// The state after `events`, in order.
pub open spec fn run_events(s: SchedState, events: Seq<SchedEvent>) -> SchedState
    decreases events.len(),
{
    if events.len() == 0 {
        s
    } else {
        run_events(after_event(s, events[0]), events.drop_first())
    }
}

/// The cycles started while `events` happened, in order.
pub open spec fn starts_during(s: SchedState, events: Seq<SchedEvent>) -> nat
    decreases events.len(),
{
    if events.len() == 0 {
        0
    } else {
        starts_of(s, events[0]) + starts_during(after_event(s, events[0]), events.drop_first())
    }
}

/// Decides every firing of every job's trigger: each job runs at most its
/// ceiling of cycles at once, and nothing starts after shutdown. A failed
/// cycle only frees its place: the trigger stays armed.
pub struct Scheduler {
    slots: Vec<JobSlot>,
    shut_down: bool,
}

impl Scheduler {
    pub closed spec fn state(&self) -> SchedState {
        SchedState { slots: self.slots@, shut_down: self.shut_down }
    }

    pub open spec fn wf(&self) -> bool {
        slots_wf(self.state().slots)
    }

    /// Registers one job per ceiling, job `i` with ceiling `ceilings[i]`. A
    /// ceiling of zero would never let its job run: it is a configuration error.
    pub fn new(ceilings: &Vec<u32>) -> (r: Result<Scheduler, PipelineError>)
        ensures
            (exists|i: int| 0 <= i < ceilings@.len() && ceilings@[i] == 0) <==> r is Err,
            r is Err ==> r == Err::<Scheduler, PipelineError>(PipelineError::ConfigInvalid),
            r matches Ok(s) ==> {
                &&& s.wf()
                &&& !s.state().shut_down
                &&& s.state().slots.len() == ceilings@.len()
                &&& forall|i: int|
                    0 <= i < ceilings@.len() ==> #[trigger] s.state().slots[i] == (JobSlot {
                        ceiling: ceilings@[i],
                        running: 0,
                    })
            },
    {
        let mut slots: Vec<JobSlot> = Vec::new();
        let mut i: usize = 0;
        while i < ceilings.len()
            invariant
                0 <= i <= ceilings@.len(),
                slots@.len() == i,
                forall|k: int| 0 <= k < i ==> ceilings@[k] != 0,
                forall|k: int|
                    0 <= k < i ==> #[trigger] slots@[k] == (JobSlot { ceiling: ceilings@[k], running: 0 }),
            decreases ceilings@.len() - i,
        {
            if ceilings[i] == 0 {
                return Err(PipelineError::ConfigInvalid);
            }
            slots.push(JobSlot { ceiling: ceilings[i], running: 0 });
            i = i + 1;
        }
        Ok(Scheduler { slots, shut_down: false })
    }

    pub fn job_count(&self) -> (r: usize)
        ensures
            r == self.state().slots.len(),
    {
        self.slots.len()
    }

    pub fn running(&self, job: usize) -> (r: u32)
        requires
            job < self.state().slots.len(),
        ensures
            r == self.state().slots[job as int].running,
    {
        self.slots[job].running
    }

    pub fn is_shut_down(&self) -> (r: bool)
        ensures
            r == self.state().shut_down,
    {
        self.shut_down
    }

    /// Decides a firing of job `job`'s trigger and, when it starts a cycle,
    /// counts that cycle as in flight.
    pub fn fire(&mut self, job: usize) -> (r: FireDecision)
        requires
            old(self).wf(),
            job < old(self).state().slots.len(),
        ensures
            final(self).wf(),
            r == fire_decision(old(self).state(), job as int),
            final(self).state() == after_fire(old(self).state(), job as int),
    {
        if self.shut_down {
            return FireDecision::Cancelled;
        }
        let slot = self.slots[job];
        if slot.running < slot.ceiling {
            self.slots.set(job, JobSlot { running: slot.running + 1, ..slot });
            FireDecision::Start
        } else {
            FireDecision::Skipped
        }
    }

    /// Records the end of a cycle of job `job`, whatever its outcome.
    pub fn finish(&mut self, job: usize)
        requires
            old(self).wf(),
            job < old(self).state().slots.len(),
        ensures
            final(self).wf(),
            final(self).state() == after_finish(old(self).state(), job as int),
    {
        let slot = self.slots[job];
        if slot.running > 0 {
            self.slots.set(job, JobSlot { running: slot.running - 1, ..slot });
        }
    }

    /// Stops every trigger: from now on each firing is cancelled. Cycles in
    /// flight may still finish.
    pub fn shutdown(&mut self)
        requires
            old(self).wf(),
        ensures
            final(self).wf(),
            final(self).state() == after_shutdown(old(self).state()),
    {
        self.shut_down = true;
    }

    /// Whether no cycle of any job is in flight.
    pub fn is_idle(&self) -> (r: bool)
        ensures
            r == forall|i: int| 0 <= i < self.state().slots.len() ==> #[trigger] self.state().slots[i].running == 0,
    {
        let mut i: usize = 0;
        while i < self.slots.len()
            invariant
                0 <= i <= self.slots@.len(),
                forall|k: int| 0 <= k < i ==> #[trigger] self.slots@[k].running == 0,
            decreases self.slots@.len() - i,
        {
            if self.slots[i].running != 0 {
                assert(self.state().slots[i as int].running != 0);
                return false;
            }
            i = i + 1;
        }
        true
    }
}

/// With a ceiling of one, a firing while the job's previous cycle is still
/// running starts nothing and leaves the state as it was: it is skipped,
/// neither run alongside nor queued.
pub proof fn lemma_single_ceiling_skips_overlap(s: SchedState, job: int)
    requires
        slots_wf(s.slots),
        0 <= job < s.slots.len(),
        s.slots[job].ceiling == 1,
        s.slots[job].running == 1,
    ensures
        fire_decision(s, job) != FireDecision::Start,
        !s.shut_down ==> fire_decision(s, job) == FireDecision::Skipped,
        after_fire(s, job) == s,
{
}

/// Whatever happens, no job ever has more cycles in flight than its ceiling.
pub proof fn lemma_ceiling_always_holds(s: SchedState, events: Seq<SchedEvent>)
    requires
        slots_wf(s.slots),
    ensures
        slots_wf(run_events(s, events).slots),
        run_events(s, events).slots.len() == s.slots.len(),
    decreases events.len(),
{
    if events.len() > 0 {
        let t = after_event(s, events[0]);
        assert(slots_wf(t.slots)) by {
            assert forall|i: int| 0 <= i < t.slots.len() implies 1 <= #[trigger] t.slots[i].ceiling
                && t.slots[i].running <= t.slots[i].ceiling by {
                assert(s.slots[i].ceiling >= 1);
            }
        }
        lemma_ceiling_always_holds(t, events.drop_first());
    }
}

/// A cycle that ends, whether it succeeded or failed, gives its place
/// back: the scheduler is as it was before the firing that started it, so
/// the job's next firing is decided as that one was.
pub proof fn lemma_finished_cycle_rearms(s: SchedState, job: int)
    requires
        slots_wf(s.slots),
        fire_decision(s, job) == FireDecision::Start,
    ensures
        after_finish(after_fire(s, job), job) == s,
        fire_decision(after_finish(after_fire(s, job), job), job) == FireDecision::Start,
{
    let t = after_finish(after_fire(s, job), job);
    assert(t.slots =~= s.slots);
}

/// After shutdown no cycle starts, however many firings follow.
pub proof fn lemma_no_start_after_shutdown(s: SchedState, events: Seq<SchedEvent>)
    requires
        s.shut_down,
    ensures
        starts_during(s, events) == 0,
        run_events(s, events).shut_down,
    decreases events.len(),
{
    if events.len() > 0 {
        lemma_no_start_after_shutdown(after_event(s, events[0]), events.drop_first());
    }
}

} // verus!
