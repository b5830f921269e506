//! The unit of work of a run. A task asks the surrounding program for
//! exactly one thing and is answered by exactly one event.
use vstd::prelude::*;
use crate::step::{StepKind, StepModel, StepSpec};

verus! {

/// The mathematical content of a [`Task`].
#[verifier::ext_equal]
pub enum TaskModel {
    Run { kind: StepKind, step: StepModel },
    SkipNextIfPresent { path: Seq<char> },
    Require { path: Seq<char> },
    Fetch { url: Seq<char>, dest: Seq<char> },
    Remove { path: Seq<char> },
    Trigger,
    AwaitIdle,
    Join,
}

/// One thing for the surrounding program to do.
#[derive(Debug)]
pub enum Task {
    /// Run the command to its end, or to cancellation.
    Run { kind: StepKind, step: StepSpec },
    /// Look whether `path` exists; if it does, the task after this one is
    /// left out.
    SkipNextIfPresent { path: String },
    /// Look whether `path` exists; the run cannot go on without it.
    Require { path: String },
    /// Download `url` into the file `dest`.
    Fetch { url: String, dest: String },
    /// Delete the file `path`.
    Remove { path: String },
    /// Tell the publication coordinator that the output directory changed.
    Trigger,
    /// Wait until the publication coordinator is idle.
    AwaitIdle,
    /// Close the trigger queue and wait for the coordinator to finish.
    Join,
}

impl View for Task {
    type V = TaskModel;

    open spec fn view(&self) -> TaskModel {
        match self {
            Task::Run { kind, step } => TaskModel::Run { kind: *kind, step: step@ },
            Task::SkipNextIfPresent { path } => TaskModel::SkipNextIfPresent { path: path@ },
            Task::Require { path } => TaskModel::Require { path: path@ },
            Task::Fetch { url, dest } => TaskModel::Fetch { url: url@, dest: dest@ },
            Task::Remove { path } => TaskModel::Remove { path: path@ },
            Task::Trigger => TaskModel::Trigger,
            Task::AwaitIdle => TaskModel::AwaitIdle,
            Task::Join => TaskModel::Join,
        }
    }
}

impl DeepView for Task {
    type V = TaskModel;

    open spec fn deep_view(&self) -> TaskModel {
        self@
    }
}

impl TaskModel {
    /// Whether the task runs a step of the given kind.
    pub open spec fn runs(self, kind: StepKind) -> bool {
        self matches TaskModel::Run { kind: k, .. } && k == kind
    }
}

} // verus!
