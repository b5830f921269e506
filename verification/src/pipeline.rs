//! The pipeline: a plan and the place in it. It hands out one task at a
//! time, takes the answer, and stops for good at the first failure.
use vstd::prelude::*;
use crate::runner::{OutcomeModel, StepOutcome};
use crate::step::StepKind;
use crate::task::{Task, TaskModel};
use crate::text::catenate;

verus! {

/// The mathematical content of a [`PipelineError`].
pub enum ErrorModel {
    SpawnFailure { kind: StepKind, cause: Seq<char> },
    ExitFailure { kind: StepKind, code: Option<i32> },
    VerificationFailure { path: Seq<char> },
    Cancelled { kind: StepKind },
    PublicationFailure,
    IoFailure { cause: Seq<char> },
}

/// Why a run failed. Each of these ends the run where it stands; files
/// that were completed before stay as they are.
#[derive(Debug)]
pub enum PipelineError {
    /// An external program could not be started.
    SpawnFailure { kind: StepKind, cause: String },
    /// An external program ran and reported failure.
    ExitFailure { kind: StepKind, code: Option<i32> },
    /// An external program reported success, but the file it was to
    /// produce is not there.
    VerificationFailure { path: String },
    /// The user interrupted the run during this step.
    Cancelled { kind: StepKind },
    /// The publication coordinator gave up on a failed run.
    PublicationFailure,
    /// A file could not be looked at, fetched or deleted.
    IoFailure { cause: String },
}

impl View for PipelineError {
    type V = ErrorModel;

    open spec fn view(&self) -> ErrorModel {
        match self {
            PipelineError::SpawnFailure { kind, cause } => ErrorModel::SpawnFailure {
                kind: *kind,
                cause: cause@,
            },
            PipelineError::ExitFailure { kind, code } => ErrorModel::ExitFailure {
                kind: *kind,
                code: *code,
            },
            PipelineError::VerificationFailure { path } => ErrorModel::VerificationFailure {
                path: path@,
            },
            PipelineError::Cancelled { kind } => ErrorModel::Cancelled { kind: *kind },
            PipelineError::PublicationFailure => ErrorModel::PublicationFailure,
            PipelineError::IoFailure { cause } => ErrorModel::IoFailure { cause: cause@ },
        }
    }
}

impl ErrorModel {
    /// The message that tells the user why the run failed.
    pub open spec fn message(self) -> Seq<char> {
        match self {
            ErrorModel::SpawnFailure { kind, cause } => kind.name_of() + ": "@ + cause,
            ErrorModel::ExitFailure { kind, .. } => kind.name_of() + " failed"@,
            ErrorModel::VerificationFailure { .. } => "💥 Conversion failed"@,
            ErrorModel::Cancelled { kind } => kind.cancel_message_of(),
            ErrorModel::PublicationFailure => "Error in upload worker"@,
            ErrorModel::IoFailure { cause } => cause,
        }
    }

    /// Whether the run ended because the user interrupted it.
    pub open spec fn is_cancellation(self) -> bool {
        self is Cancelled
    }
}

impl PipelineError {
    /// The message that tells the user why the run failed.
    pub fn message(&self) -> (r: String)
        ensures
            r@ == self@.message(),
    {
        match self {
            PipelineError::SpawnFailure { kind, cause } => {
                let head = catenate(kind.name(), ": ");
                catenate(head.as_str(), cause.as_str())
            },
            PipelineError::ExitFailure { kind, .. } => catenate(kind.name(), " failed"),
            PipelineError::VerificationFailure { .. } => String::from_str("💥 Conversion failed"),
            PipelineError::Cancelled { kind } => String::from_str(kind.cancel_message()),
            PipelineError::PublicationFailure => String::from_str("Error in upload worker"),
            PipelineError::IoFailure { cause } => cause.clone(),
        }
    }

    /// Whether the run ended because the user interrupted it.
    pub fn is_cancellation(&self) -> (r: bool)
        ensures
            r == self@.is_cancellation(),
    {
        match self {
            PipelineError::Cancelled { .. } => true,
            _ => false,
        }
    }
}

impl DeepView for PipelineError {
    type V = ErrorModel;

    open spec fn deep_view(&self) -> ErrorModel {
        self@
    }
}

/// The mathematical content of an [`Event`].
pub enum EventModel {
    Step(OutcomeModel),
    Probed(bool),
    Done,
    Joined(OutcomeModel),
    Failed(Seq<char>),
}

/// The answer to a task.
#[derive(Debug)]
pub enum Event {
    /// How the external step of a `Run` task ended.
    Step(StepOutcome),
    /// Whether the path of a `SkipNextIfPresent` or `Require` task exists.
    Probed(bool),
    /// A `Fetch`, `Remove`, `Trigger` or `AwaitIdle` task was carried out.
    Done,
    /// The coordinator finished; the verdict of publication.
    Joined(StepOutcome),
    /// The task could not be carried out at all; the cause as text.
    Failed(String),
}

impl View for Event {
    type V = EventModel;

    open spec fn view(&self) -> EventModel {
        match self {
            Event::Step(outcome) => EventModel::Step(outcome@),
            Event::Probed(present) => EventModel::Probed(*present),
            Event::Done => EventModel::Done,
            Event::Joined(outcome) => EventModel::Joined(outcome@),
            Event::Failed(cause) => EventModel::Failed(cause@),
        }
    }
}

/// What an answer means for the task it answers.
pub enum Verdict {
    /// The task is done: go on with the next one.
    Proceed,
    /// The task is done and the next one is not needed.
    SkipNext,
    /// The run ends here.
    Fail(ErrorModel),
    /// The event is no answer to the pending task: nothing changes.
    Ignore,
}

/// The failure that a step of the given kind turns into, if its outcome is
/// one.
pub open spec fn step_verdict(kind: StepKind, outcome: OutcomeModel) -> Verdict {
    match outcome {
        OutcomeModel::Success => Verdict::Proceed,
        OutcomeModel::ExitFailure(code) => Verdict::Fail(ErrorModel::ExitFailure { kind, code }),
        OutcomeModel::SpawnFailure(cause) => Verdict::Fail(
            ErrorModel::SpawnFailure { kind, cause },
        ),
        OutcomeModel::Cancelled => Verdict::Fail(ErrorModel::Cancelled { kind }),
    }
}

/// What the end of publication means for the run: an interrupt is an
/// interrupt, any other failure is a publication failure.
pub open spec fn join_verdict(outcome: OutcomeModel) -> Verdict {
    match outcome {
        OutcomeModel::Success => Verdict::Proceed,
        OutcomeModel::Cancelled => Verdict::Fail(ErrorModel::Cancelled { kind: StepKind::Upload }),
        _ => Verdict::Fail(ErrorModel::PublicationFailure),
    }
}

/// What `event` means as the answer to `task`.
pub open spec fn verdict_of(task: TaskModel, event: EventModel) -> Verdict {
    match (task, event) {
        (_, EventModel::Failed(cause)) => Verdict::Fail(ErrorModel::IoFailure { cause }),
        (TaskModel::Run { kind, .. }, EventModel::Step(outcome)) => step_verdict(kind, outcome),
        (TaskModel::SkipNextIfPresent { .. }, EventModel::Probed(present)) => if present {
            Verdict::SkipNext
        } else {
            Verdict::Proceed
        },
        (TaskModel::Require { path }, EventModel::Probed(present)) => if present {
            Verdict::Proceed
        } else {
            Verdict::Fail(ErrorModel::VerificationFailure { path })
        },
        (TaskModel::Fetch { .. }, EventModel::Done) => Verdict::Proceed,
        (TaskModel::Remove { .. }, EventModel::Done) => Verdict::Proceed,
        (TaskModel::Trigger, EventModel::Done) => Verdict::Proceed,
        (TaskModel::AwaitIdle, EventModel::Done) => Verdict::Proceed,
        (TaskModel::Join, EventModel::Joined(outcome)) => join_verdict(outcome),
        _ => Verdict::Ignore,
    }
}

/// The mathematical content of a [`Pipeline`].
pub struct PipelineModel {
    pub tasks: Seq<TaskModel>,
    /// The index of the pending task; the length of the plan when all are done.
    pub next: int,
    pub failure: Option<ErrorModel>,
}

/// Where a run stands.
#[derive(Clone, Copy, Debug, PartialEq, Eq, Structural)]
pub enum Status {
    /// A task is pending.
    Running,
    /// Every task was carried out.
    Succeeded,
    /// The run ended with a failure.
    Failed,
}

impl PipelineModel {
    pub open spec fn fresh(tasks: Seq<TaskModel>) -> PipelineModel {
        PipelineModel { tasks, next: 0, failure: None }
    }

    pub open spec fn wf(self) -> bool {
        0 <= self.next <= self.tasks.len()
    }

    /// Whether a task is pending.
    pub open spec fn active(self) -> bool {
        self.failure is None && self.next < self.tasks.len()
    }

    pub open spec fn status(self) -> Status {
        if self.failure is Some {
            Status::Failed
        } else if self.next < self.tasks.len() {
            Status::Running
        } else {
            Status::Succeeded
        }
    }

    /// The state after an event. Only a pending task can be answered.
    pub open spec fn step(self, event: EventModel) -> PipelineModel {
        if !self.active() {
            self
        } else {
            match verdict_of(self.tasks[self.next], event) {
                Verdict::Proceed => PipelineModel { next: self.next + 1, ..self },
                Verdict::SkipNext => PipelineModel {
                    next: if self.next + 2 <= self.tasks.len() {
                        self.next + 2
                    } else {
                        self.next + 1
                    },
                    ..self
                },
                Verdict::Fail(error) => PipelineModel { failure: Some(error), ..self },
                Verdict::Ignore => self,
            }
        }
    }

    /// The state after a sequence of events, oldest first.
    pub open spec fn after(self, events: Seq<EventModel>) -> PipelineModel
        decreases events.len(),
    {
        if events.len() == 0 {
            self
        } else {
            self.after(events.drop_last()).step(events.last())
        }
    }

    /// Whether task `k` was pending at some point of the run and was then
    /// answered by `answer`.
    pub open spec fn answered_at(
        self,
        events: Seq<EventModel>,
        k: int,
        answer: EventModel,
    ) -> bool {
        exists|j: int|
            0 <= j < events.len() && (#[trigger] self.after(events.take(j))).active()
                && self.after(events.take(j)).next == k && events[j] == answer
    }

    /// Whether task `k` was pending at some point of the run and was then
    /// answered with the success of its step.
    pub open spec fn succeeded_at(self, events: Seq<EventModel>, k: int) -> bool {
        self.answered_at(events, k, EventModel::Step(OutcomeModel::Success))
    }
}

/// The one answer that lets a run go on past a task: success for a step,
/// a file that is there for a required file, the success of publication
/// for the join, and plain completion for the rest. The look that may skip
/// a task passes on either answer and is not covered here.
pub open spec fn passing_answer(task: TaskModel) -> EventModel {
    match task {
        TaskModel::Run { .. } => EventModel::Step(OutcomeModel::Success),
        TaskModel::Require { .. } => EventModel::Probed(true),
        TaskModel::Join => EventModel::Joined(OutcomeModel::Success),
        _ => EventModel::Done,
    }
}

/// A run in progress.
#[derive(Debug)]
pub struct Pipeline {
    tasks: Vec<Task>,
    next: usize,
    failure: Option<PipelineError>,
}

impl View for Pipeline {
    type V = PipelineModel;

    closed spec fn view(&self) -> PipelineModel {
        PipelineModel {
            tasks: self.tasks.deep_view(),
            next: self.next as int,
            failure: self.failure.deep_view(),
        }
    }
}

fn judge_step(kind: StepKind, outcome: StepOutcome) -> (r: Option<PipelineError>)
    ensures
        match step_verdict(kind, outcome@) {
            Verdict::Fail(error) => r matches Some(e) && e@ == error,
            _ => r is None,
        },
{
    match outcome {
        StepOutcome::Success => None,
        StepOutcome::ExitFailure(code) => Some(PipelineError::ExitFailure { kind, code }),
        StepOutcome::SpawnFailure(cause) => Some(PipelineError::SpawnFailure { kind, cause }),
        StepOutcome::Cancelled => Some(PipelineError::Cancelled { kind }),
    }
}

fn judge_join(outcome: StepOutcome) -> (r: Option<PipelineError>)
    ensures
        match join_verdict(outcome@) {
            Verdict::Fail(error) => r matches Some(e) && e@ == error,
            _ => r is None,
        },
{
    match outcome {
        StepOutcome::Success => None,
        StepOutcome::Cancelled => Some(PipelineError::Cancelled { kind: StepKind::Upload }),
        _ => Some(PipelineError::PublicationFailure),
    }
}

impl Pipeline {
    #[verifier::type_invariant]
    spec fn inv(self) -> bool {
        self.next <= self.tasks.len()
    }

    /// A run that is about to start on `tasks`.
    pub fn new(tasks: Vec<Task>) -> (r: Pipeline)
        ensures
            r@ == PipelineModel::fresh(tasks.deep_view()),
            r@.wf(),
    {
        Pipeline { tasks, next: 0, failure: None }
    }

    /// The task to carry out now, if the run is still going.
    pub fn pending(&self) -> (r: Option<&Task>)
        ensures
            match r {
                Some(task) => self@.active() && task@ == self@.tasks[self@.next],
                None => !self@.active(),
            },
    {
        proof {
            use_type_invariant(self);
        }
        if self.failure.is_some() || self.next >= self.tasks.len() {
            None
        } else {
            Some(&self.tasks[self.next])
        }
    }

    /// Where the run stands.
    pub fn status(&self) -> (r: Status)
        ensures
            r == self@.status(),
            self@.wf(),
    {
        proof {
            use_type_invariant(self);
        }
        if self.failure.is_some() {
            Status::Failed
        } else if self.next < self.tasks.len() {
            Status::Running
        } else {
            Status::Succeeded
        }
    }

    /// Why the run failed, if it did.
    pub fn failure(&self) -> (r: &Option<PipelineError>)
        ensures
            r.deep_view() == self@.failure,
    {
        &self.failure
    }

    /// Takes in the answer to the pending task.
    pub fn advance(&mut self, event: Event)
        ensures
            final(self)@ == old(self)@.step(event@),
            final(self)@.wf(),
    {
        proof {
            use_type_invariant(&*self);
        }
        if self.failure.is_some() || self.next >= self.tasks.len() {
            return ;
        }
        let len = self.tasks.len();
        let at = self.next;
        let mut failure: Option<PipelineError> = None;
        let mut forward: usize = 0;
        match event {
            Event::Failed(cause) => {
                failure = Some(PipelineError::IoFailure { cause });
            },
            Event::Step(outcome) => {
                match &self.tasks[at] {
                    Task::Run { kind, .. } => {
                        failure = judge_step(*kind, outcome);
                        if failure.is_none() {
                            forward = 1;
                        }
                    },
                    _ => {},
                }
            },
            Event::Probed(present) => {
                match &self.tasks[at] {
                    Task::SkipNextIfPresent { .. } => {
                        forward = if present && len - at >= 2 {
                            2
                        } else {
                            1
                        };
                    },
                    Task::Require { path } => {
                        if present {
                            forward = 1;
                        } else {
                            failure = Some(
                                PipelineError::VerificationFailure { path: path.clone() },
                            );
                        }
                    },
                    _ => {},
                }
            },
            Event::Done => {
                match &self.tasks[at] {
                    Task::Fetch { .. } | Task::Remove { .. } | Task::Trigger | Task::AwaitIdle => {
                        forward = 1;
                    },
                    _ => {},
                }
            },
            Event::Joined(outcome) => {
                match &self.tasks[at] {
                    Task::Join => {
                        failure = judge_join(outcome);
                        if failure.is_none() {
                            forward = 1;
                        }
                    },
                    _ => {},
                }
            },
        }
        if failure.is_some() {
            self.failure = failure;
        } else {
            self.next = at + forward;
        }
    }
}

/// Nothing changes the plan, and the place in it stays within it.
pub proof fn lemma_after_keeps_plan(s: PipelineModel, events: Seq<EventModel>)
    requires
        s.wf(),
    ensures
        s.after(events).tasks == s.tasks,
        s.after(events).wf(),
        s.after(events).next >= s.next,
    decreases events.len(),
{
    if events.len() > 0 {
        lemma_after_keeps_plan(s, events.drop_last());
    }
}

/// A failure is final: once a run has failed no task is pending, and
/// nothing that is reported to it afterwards changes anything.
pub proof fn lemma_failure_is_final(s: PipelineModel, events: Seq<EventModel>)
    requires
        s.failure is Some,
    ensures
        !s.active(),
        s.after(events) == s,
    decreases events.len(),
{
    if events.len() > 0 {
        lemma_failure_is_final(s, events.drop_last());
    }
}

/// Any outcome of a step but success ends the run at that step: an
/// interrupt as `Cancelled`, a failed start as `SpawnFailure`, a failed
/// program as `ExitFailure`, each with the kind of the step.
pub proof fn lemma_step_failure_ends_run(s: PipelineModel, outcome: OutcomeModel)
    requires
        s.active(),
        s.tasks[s.next] is Run,
        !(outcome is Success),
    ensures
        ({
            let kind = s.tasks[s.next]->Run_kind;
            let t = s.step(EventModel::Step(outcome));
            &&& !t.active()
            &&& t.next == s.next
            &&& t.status() == Status::Failed
            &&& outcome is Cancelled ==> t.failure == Some(ErrorModel::Cancelled { kind })
            &&& outcome matches OutcomeModel::SpawnFailure(cause) ==> t.failure == Some(
                ErrorModel::SpawnFailure { kind, cause },
            )
            &&& outcome matches OutcomeModel::ExitFailure(code) ==> t.failure == Some(
                ErrorModel::ExitFailure { kind, code },
            )
        }),
{
}

/// An output file that is not there after its program reported success
/// fails the run with `VerificationFailure`; the run does not go on.
pub proof fn lemma_missing_output_fails(s: PipelineModel)
    requires
        s.active(),
        s.tasks[s.next] is Require,
    ensures
        ({
            let t = s.step(EventModel::Probed(false));
            &&& t.failure == Some(
                ErrorModel::VerificationFailure { path: s.tasks[s.next]->Require_path },
            )
            &&& !t.active()
            &&& t.next == s.next
        }),
        s.step(EventModel::Probed(true)).next == s.next + 1,
        s.step(EventModel::Probed(true)).failure is None,
{
}

/// Tasks are taken strictly in order: a run gets past a task that nothing
/// can skip only by that task having been pending and having been answered
/// by the one answer that lets the run go on.
pub proof fn lemma_tasks_in_order(tasks: Seq<TaskModel>, events: Seq<EventModel>, k: int)
    requires
        0 <= k < tasks.len(),
        !(tasks[k] is SkipNextIfPresent),
        k > 0 ==> !(tasks[k - 1] is SkipNextIfPresent),
        PipelineModel::fresh(tasks).after(events).next > k,
    ensures
        PipelineModel::fresh(tasks).answered_at(events, k, passing_answer(tasks[k])),
    decreases events.len(),
{
    let fresh = PipelineModel::fresh(tasks);
    let answer = passing_answer(tasks[k]);
    if events.len() == 0 {
    } else {
        let earlier = events.drop_last();
        let before = fresh.after(earlier);
        lemma_after_keeps_plan(fresh, earlier);
        if before.next > k {
            lemma_tasks_in_order(tasks, earlier, k);
            let j = choose|j: int|
                0 <= j < earlier.len() && (#[trigger] fresh.after(earlier.take(j))).active()
                    && fresh.after(earlier.take(j)).next == k && earlier[j] == answer;
            assert(events.take(j) =~= earlier.take(j));
            assert(fresh.after(events.take(j)).active());
        } else {
            let j = events.len() - 1;
            assert(events.take(j) =~= earlier);
            assert(before.next == k);
            assert(fresh.after(events.take(j)).active());
        }
    }
}

/// For a step this means: the run gets past it only by its success.
pub proof fn lemma_steps_in_order(tasks: Seq<TaskModel>, events: Seq<EventModel>, k: int)
    requires
        0 <= k < tasks.len(),
        tasks[k] is Run,
        k > 0 ==> !(tasks[k - 1] is SkipNextIfPresent),
        PipelineModel::fresh(tasks).after(events).next > k,
    ensures
        PipelineModel::fresh(tasks).succeeded_at(events, k),
{
    lemma_tasks_in_order(tasks, events, k);
}

} // verus!
