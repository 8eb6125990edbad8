//! The job dispatcher: a state machine that claims work while a slot is free,
//! stops claiming once the work source is empty, and is done when the last
//! task in flight has completed.
//!
//! The caller owns the loop. It asks `next_action` what to do, does it, and
//! reports what happened through `step`.

use vstd::prelude::*;

verus! {

/// Where a run stands.
#[derive(Debug, Clone, Copy, PartialEq, Eq, Structural)]
pub enum Phase {
    /// Work is claimed whenever a slot is free.
    Running,
    /// The work source is empty; the tasks in flight are awaited.
    Draining,
    /// The work source is empty and no task is in flight. Terminal.
    Done,
    /// The work source failed; nothing more is claimed. Terminal.
    Aborted,
}

/// What the caller reports to the dispatcher.
#[derive(Debug, Clone, Copy, PartialEq, Eq, Structural)]
pub enum Event {
    /// A claim returned an item, and its task was started.
    Claimed,
    /// A claim found the work source empty.
    SourceEmpty,
    /// A claim failed: the work source cannot be reached.
    SourceFailed,
    /// A task completed and its decoded record was written.
    TaskSucceeded,
    /// A task completed with a failure.
    TaskFailed,
}

/// What the caller is to do next.
#[derive(Debug, Clone, Copy, PartialEq, Eq, Structural)]
pub enum Action {
    /// Claim the next item from the work source.
    Claim,
    /// Wait until one of the tasks in flight completes.
    AwaitTask,
    /// End the run: everything claimed has completed.
    Finish,
    /// End the run with a failure: the work source is lost.
    Abort,
}

/// Why the dispatcher refused a report.
#[derive(Debug, Clone, Copy, PartialEq, Eq, Structural)]
pub enum DispatchError {
    /// A batch needs room for at least one task.
    ZeroCapacity,
    /// The outcome of a claim was reported while no claim was due.
    NotClaiming,
    /// The count of claimed items cannot grow further.
    TooManyClaims,
    /// A completion was reported while no task was in flight.
    NoTaskInFlight,
}

/// The dispatcher's window of tasks in flight, with the counts of the run.
#[derive(Debug, Clone, Copy, PartialEq, Eq)]
pub struct DispatchBatch {
    /// The largest number of tasks that may be in flight at once.
    pub capacity: usize,
    /// The number of tasks in flight.
    pub in_flight: usize,
    /// Whether the work source has reported that it is empty.
    pub exhausted: bool,
    /// Where the run stands.
    pub phase: Phase,
    /// The number of items claimed so far.
    pub claimed: u64,
    /// The number of tasks that completed with success.
    pub succeeded: u64,
    /// The number of tasks that completed with a failure.
    pub failed: u64,
}

/// The counts of a run, for display.
#[derive(Debug, Clone, Copy, PartialEq, Eq)]
pub struct Progress {
    /// The number of items claimed so far.
    pub claimed: u64,
    /// The number of tasks completed so far, with success or failure.
    pub completed: u64,
    /// The number of tasks that completed with success.
    pub succeeded: u64,
    /// The number of tasks that completed with a failure.
    pub failed: u64,
    /// The caller's estimate of the items still pending, handed through.
    pub estimated_remaining: u64,
}

impl DispatchBatch {
    /// The invariant of a batch: never more tasks in flight than its capacity,
    /// every claimed item either in flight or completed, and the phase in
    /// step with the window.
    pub open spec fn wf(&self) -> bool {
        &&& self.capacity > 0
        &&& self.in_flight <= self.capacity
        &&& self.claimed == self.succeeded + self.failed + self.in_flight
        &&& self.exhausted <==> (self.phase == Phase::Draining || self.phase == Phase::Done)
        &&& self.phase == Phase::Draining ==> self.in_flight > 0
        &&& self.phase == Phase::Done ==> self.in_flight == 0
    }

    /// Tests the invariant, for a caller that built or changed a batch by
    /// hand.
    pub fn is_wf(&self) -> (b: bool)
        ensures
            b == self.wf(),
    {
        let draining = self.phase == Phase::Draining;
        let done = self.phase == Phase::Done;
        self.capacity > 0 && self.in_flight <= self.capacity && self.claimed as u128
            == self.succeeded as u128 + self.failed as u128 + self.in_flight as u128 && self.exhausted
            == (draining || done) && (!draining || self.in_flight > 0) && (!done || self.in_flight == 0)
    }

    /// Whether a claim is due: the run is in progress and a slot is free.
    pub open spec fn claiming(&self) -> bool {
        self.phase == Phase::Running && self.in_flight < self.capacity
    }

    /// What the caller is to do in this state.
    pub open spec fn spec_next_action(&self) -> Action {
        match self.phase {
            Phase::Running => if self.in_flight < self.capacity {
                Action::Claim
            } else {
                Action::AwaitTask
            },
            Phase::Draining => Action::AwaitTask,
            Phase::Done => Action::Finish,
            Phase::Aborted => Action::Abort,
        }
    }

    /// Why a report is refused in this state, or `None` where it is accepted.
    pub open spec fn spec_refusal(&self, event: Event) -> Option<DispatchError> {
        match event {
            Event::Claimed => if !self.claiming() {
                Some(DispatchError::NotClaiming)
            } else if self.claimed == u64::MAX {
                Some(DispatchError::TooManyClaims)
            } else {
                None
            },
            Event::SourceEmpty | Event::SourceFailed => if !self.claiming() {
                Some(DispatchError::NotClaiming)
            } else {
                None
            },
            Event::TaskSucceeded | Event::TaskFailed => if self.in_flight == 0 {
                Some(DispatchError::NoTaskInFlight)
            } else {
                None
            },
        }
    }

    /// The phase after a task completed and `left` tasks remain in flight.
    pub open spec fn spec_phase_after_completion(&self, left: int) -> Phase {
        if self.phase == Phase::Draining && left == 0 {
            Phase::Done
        } else {
            self.phase
        }
    }

    /// The state after an accepted report.
    pub open spec fn spec_apply(&self, event: Event) -> DispatchBatch {
        match event {
            Event::Claimed => DispatchBatch {
                in_flight: (self.in_flight + 1) as usize,
                claimed: (self.claimed + 1) as u64,
                ..*self
            },
            Event::SourceEmpty => DispatchBatch {
                exhausted: true,
                phase: if self.in_flight == 0 {
                    Phase::Done
                } else {
                    Phase::Draining
                },
                ..*self
            },
            Event::SourceFailed => DispatchBatch { phase: Phase::Aborted, ..*self },
            Event::TaskSucceeded => DispatchBatch {
                in_flight: (self.in_flight - 1) as usize,
                succeeded: (self.succeeded + 1) as u64,
                phase: self.spec_phase_after_completion(self.in_flight - 1),
                ..*self
            },
            Event::TaskFailed => DispatchBatch {
                in_flight: (self.in_flight - 1) as usize,
                failed: (self.failed + 1) as u64,
                phase: self.spec_phase_after_completion(self.in_flight - 1),
                ..*self
            },
        }
    }

    /// The state after a report: changed as the report says where it is
    /// accepted, unchanged where it is refused.
    pub open spec fn spec_step(&self, event: Event) -> DispatchBatch {
        if self.spec_refusal(event) is None {
            self.spec_apply(event)
        } else {
            *self
        }
    }

    /// The batch at the start of a run: phase `Running`, nothing claimed and
    /// nothing in flight.
    pub open spec fn spec_fresh(capacity: usize) -> DispatchBatch {
        DispatchBatch {
            capacity,
            in_flight: 0,
            exhausted: false,
            phase: Phase::Running,
            claimed: 0,
            succeeded: 0,
            failed: 0,
        }
    }

    /// A fresh batch in phase `Running`, with nothing claimed and nothing in
    /// flight. A capacity of zero is refused.
    pub fn new(capacity: usize) -> (r: Result<DispatchBatch, DispatchError>)
        ensures
            capacity == 0 ==> r == Err::<DispatchBatch, DispatchError>(DispatchError::ZeroCapacity),
            capacity > 0 ==> r == Ok::<DispatchBatch, DispatchError>(Self::spec_fresh(capacity)),
            r matches Ok(batch) ==> batch.wf(),
    {
        if capacity == 0 {
            Err(DispatchError::ZeroCapacity)
        } else {
            Ok(
                DispatchBatch {
                    capacity,
                    in_flight: 0,
                    exhausted: false,
                    phase: Phase::Running,
                    claimed: 0,
                    succeeded: 0,
                    failed: 0,
                },
            )
        }
    }

    /// What the caller is to do now: claim while the run is in progress and a
    /// slot is free, wait for a task while the window is full or draining, and
    /// stop once the run is done or aborted.
    pub fn next_action(&self) -> (action: Action)
        ensures
            action == self.spec_next_action(),
    {
        match self.phase {
            Phase::Running => if self.in_flight < self.capacity {
                Action::Claim
            } else {
                Action::AwaitTask
            },
            Phase::Draining => Action::AwaitTask,
            Phase::Done => Action::Finish,
            Phase::Aborted => Action::Abort,
        }
    }

    /// Takes a report from the caller. An accepted report changes the state
    /// and returns the next action; a refused one leaves the state as it was
    /// and returns the reason.
    pub fn step(&mut self, event: Event) -> (r: Result<Action, DispatchError>)
        requires
            old(self).wf(),
        ensures
            final(self).wf(),
            *final(self) == old(self).spec_step(event),
            match old(self).spec_refusal(event) {
                Some(reason) => r == Err::<Action, DispatchError>(reason),
                None => r == Ok::<Action, DispatchError>(final(self).spec_next_action()),
            },
    {
        match event {
            Event::Claimed => {
                if !(self.phase == Phase::Running && self.in_flight < self.capacity) {
                    return Err(DispatchError::NotClaiming);
                }
                if self.claimed == u64::MAX {
                    return Err(DispatchError::TooManyClaims);
                }
                self.in_flight = self.in_flight + 1;
                self.claimed = self.claimed + 1;
            },
            Event::SourceEmpty => {
                if !(self.phase == Phase::Running && self.in_flight < self.capacity) {
                    return Err(DispatchError::NotClaiming);
                }
                self.exhausted = true;
                if self.in_flight == 0 {
                    self.phase = Phase::Done;
                } else {
                    self.phase = Phase::Draining;
                }
            },
            Event::SourceFailed => {
                if !(self.phase == Phase::Running && self.in_flight < self.capacity) {
                    return Err(DispatchError::NotClaiming);
                }
                self.phase = Phase::Aborted;
            },
            Event::TaskSucceeded => {
                if self.in_flight == 0 {
                    return Err(DispatchError::NoTaskInFlight);
                }
                self.in_flight = self.in_flight - 1;
                self.succeeded = self.succeeded + 1;
                if self.phase == Phase::Draining && self.in_flight == 0 {
                    self.phase = Phase::Done;
                }
            },
            Event::TaskFailed => {
                if self.in_flight == 0 {
                    return Err(DispatchError::NoTaskInFlight);
                }
                self.in_flight = self.in_flight - 1;
                self.failed = self.failed + 1;
                if self.phase == Phase::Draining && self.in_flight == 0 {
                    self.phase = Phase::Done;
                }
            },
        }
        Ok(self.next_action())
    }

    /// The counts of the run so far, together with the caller's estimate of
    /// what is still pending. The batch is only read.
    pub fn progress(&self, estimated_remaining: u64) -> (p: Progress)
        requires
            self.wf(),
        ensures
            p.claimed == self.claimed,
            p.completed == self.succeeded + self.failed,
            p.succeeded == self.succeeded,
            p.failed == self.failed,
            p.estimated_remaining == estimated_remaining,
    {
        Progress {
            claimed: self.claimed,
            completed: self.succeeded + self.failed,
            succeeded: self.succeeded,
            failed: self.failed,
            estimated_remaining,
        }
    }
}

/// The state after a sequence of reports, taken in order.
pub open spec fn spec_run(start: DispatchBatch, events: Seq<Event>) -> DispatchBatch
    decreases events.len(),
{
    if events.len() == 0 {
        start
    } else {
        spec_run(start.spec_step(events[0]), events.drop_first())
    }
}

/// One report keeps the invariant and the capacity.
pub proof fn lemma_step_keeps_invariant(batch: DispatchBatch, event: Event)
    requires
        batch.wf(),
    ensures
        batch.spec_step(event).wf(),
        batch.spec_step(event).capacity == batch.capacity,
{
}

/// Capacity bound: whatever is reported, and in whatever order, the number of
/// tasks in flight never exceeds the capacity that the batch was made with.
pub proof fn lemma_capacity_bound(start: DispatchBatch, events: Seq<Event>)
    requires
        start.wf(),
    ensures
        spec_run(start, events).wf(),
        spec_run(start, events).capacity == start.capacity,
        spec_run(start, events).in_flight <= start.capacity,
    decreases events.len(),
{
    if events.len() > 0 {
        lemma_step_keeps_invariant(start, events[0]);
        lemma_capacity_bound(start.spec_step(events[0]), events.drop_first());
    }
}

/// The capacity bound holds at every point of a run: after each of the
/// reports, not only after the last.
pub proof fn lemma_capacity_bound_throughout(start: DispatchBatch, events: Seq<Event>)
    requires
        start.wf(),
    ensures
        forall|n: int|
            0 <= n <= events.len() ==> (#[trigger] spec_run(start, events.take(n))).in_flight
                <= start.capacity,
{
    assert forall|n: int| 0 <= n <= events.len() implies (#[trigger] spec_run(
        start,
        events.take(n),
    )).in_flight <= start.capacity by {
        lemma_capacity_bound(start, events.take(n));
    }
}

/// Drain completeness: the caller is told to finish only in phase `Done`, and
/// a run that has reached it has seen the work source empty, has no task in
/// flight, and has seen every claimed item complete.
pub proof fn lemma_drain_complete(start: DispatchBatch, events: Seq<Event>)
    requires
        start.wf(),
    ensures
        spec_run(start, events).spec_next_action() == Action::Finish <==> spec_run(start, events).phase
            == Phase::Done,
        spec_run(start, events).phase == Phase::Done ==> spec_run(start, events).exhausted,
        spec_run(start, events).phase == Phase::Done ==> spec_run(start, events).in_flight == 0,
        spec_run(start, events).phase == Phase::Done ==> spec_run(start, events).claimed == spec_run(
            start,
            events,
        ).succeeded + spec_run(start, events).failed,
{
    lemma_capacity_bound(start, events);
}

/// The caller is never told to do what cannot be done: where it is to wait
/// for a task, one is in flight; where it is to claim, the outcome of the
/// claim will be taken, unless the count of claimed items is at its limit.
pub proof fn lemma_action_is_possible(batch: DispatchBatch)
    requires
        batch.wf(),
    ensures
        batch.spec_next_action() == Action::AwaitTask ==> batch.in_flight > 0
            && batch.spec_refusal(Event::TaskSucceeded) is None
            && batch.spec_refusal(Event::TaskFailed) is None,
        batch.spec_next_action() == Action::Claim ==> batch.spec_refusal(Event::SourceEmpty) is None
            && batch.spec_refusal(Event::SourceFailed) is None
            && (batch.claimed < u64::MAX ==> batch.spec_refusal(Event::Claimed) is None),
{
}

/// `Done` is terminal: no report changes a batch that is done, so nothing is
/// claimed after it.
pub proof fn lemma_done_is_terminal(start: DispatchBatch, events: Seq<Event>)
    requires
        start.wf(),
        start.phase == Phase::Done,
    ensures
        spec_run(start, events) == start,
    decreases events.len(),
{
    if events.len() > 0 {
        assert(start.spec_step(events[0]) == start);
        lemma_done_is_terminal(start, events.drop_first());
    }
}

/// Once the work source has been seen empty or has failed, nothing more is
/// claimed: the count of claimed items stays as it is.
pub proof fn lemma_no_claim_after_exhaustion(start: DispatchBatch, events: Seq<Event>)
    requires
        start.wf(),
        start.phase != Phase::Running,
    ensures
        spec_run(start, events).phase != Phase::Running,
        spec_run(start, events).claimed == start.claimed,
    decreases events.len(),
{
    if events.len() > 0 {
        lemma_step_keeps_invariant(start, events[0]);
        lemma_no_claim_after_exhaustion(start.spec_step(events[0]), events.drop_first());
    }
}

} // verus!
