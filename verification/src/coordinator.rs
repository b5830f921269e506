//! The publication coordinator: a queue of triggers in front of a worker
//! that publishes the whole output directory, one run at a time.
//!
//! A trigger carries nothing, so the queue is known by its length. The
//! worker takes everything that is queued into one run; triggers that
//! arrive during a run wait for the next one, and there is at most one next.
use vstd::prelude::*;
use crate::runner::{OutcomeModel, StepOutcome};

verus! {

/// What the worker does on its turn.
#[derive(Clone, Copy, Debug, PartialEq, Eq, Structural)]
pub enum WorkerAction {
    /// Start one publication run and report how it ended.
    Publish,
    /// Nothing to do now: come back after the next trigger, close or report.
    Wait,
    /// The worker is done; its verdict is final.
    Exit,
}

/// The mathematical content of a [`PublicationCoordinator`].
pub struct CoordinatorModel {
    /// Triggers that no run has taken yet.
    pub queued: nat,
    /// Whether a publication run is in flight.
    pub busy: bool,
    /// Whether the producer has closed the queue.
    pub closed: bool,
    /// How the run that failed ended, once one has.
    pub failure: Option<OutcomeModel>,
}

impl CoordinatorModel {
    pub open spec fn fresh() -> CoordinatorModel {
        CoordinatorModel { queued: 0, busy: false, closed: false, failure: None }
    }

    /// Whether the queue still takes triggers.
    pub open spec fn accepts(self) -> bool {
        !self.closed && self.failure is None
    }

    /// The state after the producer offered one trigger. The count stops
    /// growing at `usize::MAX`; every queued trigger is covered by the same
    /// next run, so nothing is lost by that.
    pub open spec fn enqueued(self) -> CoordinatorModel {
        if self.accepts() && self.queued < usize::MAX {
            CoordinatorModel { queued: self.queued + 1, ..self }
        } else {
            self
        }
    }

    /// The state after `n` triggers in a row.
    pub open spec fn enqueued_times(self, n: nat) -> CoordinatorModel
        decreases n,
    {
        if n == 0 {
            self
        } else {
            self.enqueued_times((n - 1) as nat).enqueued()
        }
    }

    pub open spec fn closed_down(self) -> CoordinatorModel {
        CoordinatorModel { closed: true, ..self }
    }

    /// What the worker does on its turn.
    pub open spec fn action(self) -> WorkerAction {
        if self.failure is Some {
            WorkerAction::Exit
        } else if self.busy {
            WorkerAction::Wait
        } else if self.queued > 0 {
            WorkerAction::Publish
        } else if self.closed {
            WorkerAction::Exit
        } else {
            WorkerAction::Wait
        }
    }

    /// The state after the worker's turn: a run that starts takes every
    /// queued trigger with it.
    pub open spec fn turned(self) -> CoordinatorModel {
        if self.action() == WorkerAction::Publish {
            CoordinatorModel { queued: 0, busy: true, ..self }
        } else {
            self
        }
    }

    /// The state after the run in flight ended with `outcome`. Without a
    /// run in flight there is nothing to end.
    pub open spec fn finished(self, outcome: OutcomeModel) -> CoordinatorModel {
        if !self.busy {
            self
        } else if outcome is Success {
            CoordinatorModel { busy: false, ..self }
        } else {
            CoordinatorModel { busy: false, failure: Some(outcome), ..self }
        }
    }

    /// How publication went so far: the outcome of the failed run, or
    /// `Success`.
    pub open spec fn verdict(self) -> OutcomeModel {
        match self.failure {
            Some(outcome) => outcome,
            None => OutcomeModel::Success,
        }
    }
}

/// The shared state of trigger queue and worker.
#[derive(Debug)]
pub struct PublicationCoordinator {
    queued: usize,
    busy: bool,
    closed: bool,
    failure: Option<StepOutcome>,
}

impl View for PublicationCoordinator {
    type V = CoordinatorModel;

    closed spec fn view(&self) -> CoordinatorModel {
        CoordinatorModel {
            queued: self.queued as nat,
            busy: self.busy,
            closed: self.closed,
            failure: self.failure.deep_view(),
        }
    }
}

impl PublicationCoordinator {
    /// An open, empty queue and an idle worker.
    pub fn new() -> (r: PublicationCoordinator)
        ensures
            r@ == CoordinatorModel::fresh(),
    {
        PublicationCoordinator { queued: 0, busy: false, closed: false, failure: None }
    }

    /// Offers one trigger. It is taken unless the queue is closed or the
    /// worker has given up.
    pub fn enqueue(&mut self) -> (accepted: bool)
        ensures
            accepted == old(self)@.accepts(),
            final(self)@ == old(self)@.enqueued(),
    {
        if self.closed || self.failure.is_some() {
            false
        } else {
            if self.queued < usize::MAX {
                self.queued = self.queued + 1;
            }
            true
        }
    }

    /// Closes the queue: no trigger is taken from now on.
    pub fn close(&mut self)
        ensures
            final(self)@ == old(self)@.closed_down(),
    {
        self.closed = true;
    }

    /// Whether a publication run is in flight.
    pub fn is_busy(&self) -> (r: bool)
        ensures
            r == self@.busy,
    {
        self.busy
    }

    /// Takes in how the run in flight ended.
    pub fn finished(&mut self, outcome: StepOutcome)
        ensures
            final(self)@ == old(self)@.finished(outcome@),
    {
        if self.busy {
            self.busy = false;
            match outcome {
                StepOutcome::Success => {},
                other => {
                    self.failure = Some(other);
                },
            }
        }
    }

    /// The verdict of publication: `Success` while nothing failed, else the
    /// outcome of the run that did.
    pub fn verdict(&self) -> (r: StepOutcome)
        ensures
            r@ == self@.verdict(),
    {
        match &self.failure {
            None => StepOutcome::Success,
            Some(StepOutcome::Success) => StepOutcome::Success,
            Some(StepOutcome::ExitFailure(code)) => StepOutcome::ExitFailure(*code),
            Some(StepOutcome::SpawnFailure(cause)) => StepOutcome::SpawnFailure(cause.clone()),
            Some(StepOutcome::Cancelled) => StepOutcome::Cancelled,
        }
    }

    /// How publication went: `None` while nothing failed, else the outcome
    /// of the run that did.
    pub fn failure(&self) -> (r: &Option<StepOutcome>)
        ensures
            r.deep_view() == self@.failure,
    {
        &self.failure
    }
}

/// One turn of the publication worker: decides between starting a run,
/// waiting, and leaving, and books the run it starts.
pub fn upload_worker(coordinator: &mut PublicationCoordinator) -> (r: WorkerAction)
    ensures
        r == old(coordinator)@.action(),
        final(coordinator)@ == old(coordinator)@.turned(),
{
    if coordinator.failure.is_some() {
        WorkerAction::Exit
    } else if coordinator.busy {
        WorkerAction::Wait
    } else if coordinator.queued > 0 {
        coordinator.queued = 0;
        coordinator.busy = true;
        WorkerAction::Publish
    } else if coordinator.closed {
        WorkerAction::Exit
    } else {
        WorkerAction::Wait
    }
}

/// Triggers offered to an open queue are held: after one or more of them
/// the queue is not empty, and nothing else has changed.
pub proof fn lemma_triggers_are_held(s: CoordinatorModel, n: nat)
    requires
        s.accepts(),
        n >= 1,
    ensures
        s.enqueued_times(n).queued >= 1,
        s.enqueued_times(n).queued >= s.queued,
        s.enqueued_times(n).busy == s.busy,
        s.enqueued_times(n).closed == s.closed,
        s.enqueued_times(n).failure == s.failure,
    decreases n,
{
    if n > 1 {
        lemma_triggers_are_held(s, (n - 1) as nat);
    } else {
        assert(s.enqueued_times(0) == s);
    }
}

/// Runs never overlap: a run starts only from an idle worker, and while it
/// is in flight every turn of the worker waits.
pub proof fn lemma_runs_never_overlap(s: CoordinatorModel)
    ensures
        s.action() == WorkerAction::Publish ==> !s.busy && s.turned().busy,
        s.busy && s.failure is None ==> s.action() == WorkerAction::Wait && s.turned() == s,
{
}

/// Single flight: however many triggers arrive while a run is in flight,
/// they start no run during it and exactly one run after it; once that run
/// has ended nothing is left to publish.
pub proof fn lemma_single_flight(s: CoordinatorModel, n: nat)
    requires
        s.busy,
        s.queued == 0,
        s.accepts(),
        n >= 1,
    ensures
        ({
            let during = s.enqueued_times(n);
            let after_first = during.finished(OutcomeModel::Success);
            let second = after_first.turned();
            let after_second = second.finished(OutcomeModel::Success);
            &&& during.action() == WorkerAction::Wait
            &&& after_first.action() == WorkerAction::Publish
            &&& second.busy && second.queued == 0
            &&& second.action() == WorkerAction::Wait
            &&& after_second.action() == WorkerAction::Wait
            &&& after_second.turned() == after_second
        }),
{
    lemma_triggers_are_held(s, n);
}

/// The worker leaves only when it has failed, or when the queue is closed
/// and empty and no run is in flight: it never walks away from a trigger.
pub proof fn lemma_exit_means_drained(s: CoordinatorModel)
    ensures
        s.action() == WorkerAction::Exit <==> s.failure is Some || (s.closed && s.queued == 0
            && !s.busy),
{
}

/// Drain completeness: a last trigger offered before the queue is closed is
/// always followed by a publication run of its own. The worker does not
/// leave before that run has ended, and leaves with a clean verdict right
/// after it.
pub proof fn lemma_final_trigger_is_published(s: CoordinatorModel)
    requires
        s.accepts(),
    ensures
        ({
            let shut = s.enqueued().closed_down();
            let idle = if s.busy {
                shut.finished(OutcomeModel::Success)
            } else {
                shut
            };
            let trailing = idle.turned();
            let done = trailing.finished(OutcomeModel::Success);
            &&& shut.action() != WorkerAction::Exit
            &&& s.busy ==> shut.action() == WorkerAction::Wait
            &&& idle.action() == WorkerAction::Publish
            &&& trailing.action() == WorkerAction::Wait
            &&& done.action() == WorkerAction::Exit
            &&& done.verdict() == OutcomeModel::Success
        }),
{
}

/// A failed run ends publication: the verdict is that run's outcome, the
/// worker leaves on its next turn, and later triggers are turned away.
pub proof fn lemma_failure_is_reported(s: CoordinatorModel, outcome: OutcomeModel)
    requires
        s.busy,
        s.failure is None,
        !(outcome is Success),
    ensures
        s.finished(outcome).verdict() == outcome,
        s.finished(outcome).action() == WorkerAction::Exit,
        !s.finished(outcome).accepts(),
        s.finished(outcome).queued == s.queued,
{
}

} // verus!
