//! The decisions of the step runner. The program around the library owns
//! the child process and the race between its exit and cancellation; it
//! reports what happened as events and does what the run asks for next.
use vstd::prelude::*;
use crate::cancel::CancellationSignal;

verus! {

/// The mathematical content of a [`StepOutcome`].
pub enum OutcomeModel {
    Success,
    ExitFailure(Option<i32>),
    SpawnFailure(Seq<char>),
    Cancelled,
}

/// How one external step ended. Nothing is retried: every outcome but
/// `Success` ends the stage that asked for the step.
#[derive(Debug)]
pub enum StepOutcome {
    /// The program ran and reported success.
    Success,
    /// The program ran and reported failure; the exit code, if it left one.
    ExitFailure(Option<i32>),
    /// The program could not be started; the cause as text.
    SpawnFailure(String),
    /// Cancellation was requested before the program ended.
    Cancelled,
}

impl View for StepOutcome {
    type V = OutcomeModel;

    open spec fn view(&self) -> OutcomeModel {
        match self {
            StepOutcome::Success => OutcomeModel::Success,
            StepOutcome::ExitFailure(code) => OutcomeModel::ExitFailure(*code),
            StepOutcome::SpawnFailure(cause) => OutcomeModel::SpawnFailure(cause@),
            StepOutcome::Cancelled => OutcomeModel::Cancelled,
        }
    }
}

impl DeepView for StepOutcome {
    type V = OutcomeModel;

    open spec fn deep_view(&self) -> OutcomeModel {
        self@
    }
}

/// The outcome of a program that ended by itself.
pub open spec fn exit_outcome(success: bool, code: Option<i32>) -> OutcomeModel {
    if success {
        OutcomeModel::Success
    } else {
        OutcomeModel::ExitFailure(code)
    }
}

/// The mathematical content of a [`StepEvent`].
pub enum StepEventModel {
    Spawned,
    SpawnFailed(Seq<char>),
    Exited { success: bool, code: Option<i32> },
    CancelRequested,
    Reaped,
}

/// What the program reports to a [`StepRun`].
#[derive(Debug)]
pub enum StepEvent {
    /// The child process was started.
    Spawned,
    /// The child process could not be started.
    SpawnFailed(String),
    /// The wait on the child returned: the child ended and was reaped.
    Exited { success: bool, code: Option<i32> },
    /// Cancellation was requested while the child was running.
    CancelRequested,
    /// The kill was issued and the wait on the child returned.
    Reaped,
}

impl View for StepEvent {
    type V = StepEventModel;

    open spec fn view(&self) -> StepEventModel {
        match self {
            StepEvent::Spawned => StepEventModel::Spawned,
            StepEvent::SpawnFailed(cause) => StepEventModel::SpawnFailed(cause@),
            StepEvent::Exited { success, code } => StepEventModel::Exited {
                success: *success,
                code: *code,
            },
            StepEvent::CancelRequested => StepEventModel::CancelRequested,
            StepEvent::Reaped => StepEventModel::Reaped,
        }
    }
}

impl StepEventModel {
    /// Whether the event tells that a wait on the child has returned.
    pub open spec fn reaps(self) -> bool {
        self is Exited || self is Reaped
    }
}

/// What the program has to do next for a step.
#[derive(Clone, Copy, Debug, PartialEq, Eq, Structural)]
pub enum StepAction {
    /// Start the child process.
    Spawn,
    /// Wait for the child to end or for cancellation, whichever is first.
    AwaitExit,
    /// Kill the child and wait until it is gone.
    KillAndReap,
    /// Nothing: the step has its outcome.
    Stop,
}

/// The mathematical content of a [`StepRun`].
pub enum RunModel {
    Spawning,
    Running,
    Killing,
    Finished(OutcomeModel),
}

impl RunModel {
    /// Where a step starts: with its outcome if cancellation was already
    /// requested, otherwise about to spawn.
    pub open spec fn begin(cancel_requested: bool) -> RunModel {
        if cancel_requested {
            RunModel::Finished(OutcomeModel::Cancelled)
        } else {
            RunModel::Spawning
        }
    }

    /// Whether a child process exists that nobody has waited for yet.
    pub open spec fn child_alive(self) -> bool {
        self is Running || self is Killing
    }

    pub open spec fn action(self) -> StepAction {
        match self {
            RunModel::Spawning => StepAction::Spawn,
            RunModel::Running => StepAction::AwaitExit,
            RunModel::Killing => StepAction::KillAndReap,
            RunModel::Finished(_) => StepAction::Stop,
        }
    }

    /// The state after an event. An event that does not answer the pending
    /// action changes nothing.
    pub open spec fn next(self, event: StepEventModel) -> RunModel {
        match (self, event) {
            (RunModel::Spawning, StepEventModel::Spawned) => RunModel::Running,
            (RunModel::Spawning, StepEventModel::SpawnFailed(cause)) => RunModel::Finished(
                OutcomeModel::SpawnFailure(cause),
            ),
            (RunModel::Running, StepEventModel::Exited { success, code }) => RunModel::Finished(
                exit_outcome(success, code),
            ),
            (RunModel::Running, StepEventModel::CancelRequested) => RunModel::Killing,
            (RunModel::Killing, StepEventModel::Reaped) => RunModel::Finished(
                OutcomeModel::Cancelled,
            ),
            (RunModel::Killing, StepEventModel::Exited { .. }) => RunModel::Finished(
                OutcomeModel::Cancelled,
            ),
            _ => self,
        }
    }

    /// The state after a sequence of events, oldest first.
    pub open spec fn after(self, events: Seq<StepEventModel>) -> RunModel
        decreases events.len(),
    {
        if events.len() == 0 {
            self
        } else {
            self.after(events.drop_last()).next(events.last())
        }
    }
}

/// The progress of one external step.
#[derive(Debug)]
pub enum StepRun {
    Spawning,
    Running,
    Killing,
    Finished(StepOutcome),
}

impl View for StepRun {
    type V = RunModel;

    open spec fn view(&self) -> RunModel {
        match self {
            StepRun::Spawning => RunModel::Spawning,
            StepRun::Running => RunModel::Running,
            StepRun::Killing => RunModel::Killing,
            StepRun::Finished(outcome) => RunModel::Finished(outcome@),
        }
    }
}

impl StepRun {
    /// Starts a step under the given cancellation latch. With the latch
    /// already open the step is over before anything is spawned.
    pub fn begin(cancellation: &CancellationSignal) -> (r: StepRun)
        ensures
            r@ == RunModel::begin(cancellation.raised()),
    {
        if cancellation.is_requested() {
            StepRun::Finished(StepOutcome::Cancelled)
        } else {
            StepRun::Spawning
        }
    }

    /// What the program has to do now.
    pub fn action(&self) -> (r: StepAction)
        ensures
            r == self@.action(),
    {
        match self {
            StepRun::Spawning => StepAction::Spawn,
            StepRun::Running => StepAction::AwaitExit,
            StepRun::Killing => StepAction::KillAndReap,
            StepRun::Finished(_) => StepAction::Stop,
        }
    }

    /// Takes in what the program reports.
    pub fn advance(self, event: StepEvent) -> (r: StepRun)
        ensures
            r@ == self@.next(event@),
    {
        match self {
            StepRun::Spawning => match event {
                StepEvent::Spawned => StepRun::Running,
                StepEvent::SpawnFailed(cause) => StepRun::Finished(StepOutcome::SpawnFailure(cause)),
                _ => StepRun::Spawning,
            },
            StepRun::Running => match event {
                StepEvent::Exited { success, code } => {
                    if success {
                        StepRun::Finished(StepOutcome::Success)
                    } else {
                        StepRun::Finished(StepOutcome::ExitFailure(code))
                    }
                },
                StepEvent::CancelRequested => StepRun::Killing,
                _ => StepRun::Running,
            },
            StepRun::Killing => match event {
                StepEvent::Reaped => StepRun::Finished(StepOutcome::Cancelled),
                StepEvent::Exited { .. } => StepRun::Finished(StepOutcome::Cancelled),
                _ => StepRun::Killing,
            },
            StepRun::Finished(outcome) => StepRun::Finished(outcome),
        }
    }

    /// The outcome, once the step has one.
    pub fn outcome(self) -> (r: Option<StepOutcome>)
        ensures
            match r {
                Some(outcome) => self@ == RunModel::Finished(outcome@),
                None => !(self@ is Finished),
            },
    {
        match self {
            StepRun::Finished(outcome) => Some(outcome),
            _ => None,
        }
    }
}

/// A step that starts after cancellation was requested reports `Cancelled`
/// and never asks for a child process, whatever is reported to it.
pub proof fn lemma_cancelled_before_start(events: Seq<StepEventModel>)
    ensures
        RunModel::begin(true).after(events) == RunModel::Finished(OutcomeModel::Cancelled),
        RunModel::begin(true).after(events).action() == StepAction::Stop,
        !RunModel::begin(true).after(events).child_alive(),
    decreases events.len(),
{
    if events.len() > 0 {
        lemma_cancelled_before_start(events.drop_last());
    }
}

/// Cancellation while the child runs asks for the kill, and the step has no
/// outcome until the child is reaped; the outcome is then `Cancelled`.
pub proof fn lemma_cancel_kills_then_reports(reaping: StepEventModel)
    requires
        reaping.reaps(),
    ensures
        RunModel::Running.next(StepEventModel::CancelRequested).action() == StepAction::KillAndReap,
        RunModel::Running.next(StepEventModel::CancelRequested).child_alive(),
        RunModel::Running.next(StepEventModel::CancelRequested).next(reaping) == RunModel::Finished(
            OutcomeModel::Cancelled,
        ),
{
}

/// A child process is never left behind: a step stops having a live child
/// only through an event that tells its wait has returned, and a step with
/// an outcome has no live child.
pub proof fn lemma_child_is_reaped(run: RunModel, event: StepEventModel)
    ensures
        run.child_alive() && !run.next(event).child_alive() ==> event.reaps(),
        run.child_alive() && !event.reaps() ==> !(run.next(event) is Finished),
        run is Finished ==> !run.child_alive() && run.next(event) == run,
        !run.child_alive() && run.next(event).child_alive() ==> run is Spawning && event
            is Spawned,
{
}

} // verus!
