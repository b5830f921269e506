//! What a run tells the user while it works. A quiet run says nothing of
//! what succeeds; a verbose run announces its steps.
use vstd::prelude::*;
use crate::context::{ContextModel, PipelineContext};
use crate::pipeline::{Event, EventModel};
use crate::runner::{OutcomeModel, StepOutcome};
use crate::step::StepKind;
use crate::task::{Task, TaskModel};
use crate::text::catenate;

verus! {

/// What is said when every task of the run has been carried out.
pub const DONE: &'static str = "🎉 done!";

/// What is said when the download stage is left out.
pub const SKIPPING_DOWNLOAD: &'static str = "🤗 skipping download from HuggingFace Hub.";

/// What is said when the conversion stage is left out.
pub open spec fn skipping_conversion_of(ctx: ContextModel) -> Seq<char> {
    "skipping "@ + ctx.precision.banner_of() + " conversion."@
}

/// The stages that are left out are named before the run starts, verbose
/// or not: first the download, then the conversion.
pub open spec fn notices_of(ctx: ContextModel) -> Seq<Seq<char>> {
    (if ctx.runs_download() {
        Seq::<Seq<char>>::empty()
    } else {
        seq![SKIPPING_DOWNLOAD@]
    }) + (if ctx.runs_convert() {
        Seq::<Seq<char>>::empty()
    } else {
        seq![skipping_conversion_of(ctx)]
    })
}

/// What a run says before a step of the given kind starts: nothing when it
/// is quiet.
pub open spec fn step_start_of(kind: StepKind, ctx: ContextModel) -> Option<Seq<char>> {
    let name = ctx.model_name;
    if !ctx.verbose {
        None
    } else {
        match kind {
            StepKind::CloneRepo => Some(
                "🐪 llama.cpp not found at "@ + ctx.llama_path + ", installing..."@,
            ),
            StepKind::PullRepo => Some("🐪 compiling llama.cpp..."@),
            StepKind::InstallDeps => Some("🐪 installing llama.cpp python deps..."@),
            StepKind::Download => Some("🤗 downloading "@ + name + "..."@),
            StepKind::Convert => Some(
                "🪄 converting "@ + name + " to "@ + ctx.precision.banner_of() + "..."@,
            ),
            StepKind::Imatrix => Some("⚖️ generating imatrix for "@ + name + "..."@),
            StepKind::Quantize(q) => Some(
                "🪄 quantizing "@ + name + " to "@ + q.file_tag_of() + "..."@,
            ),
            StepKind::Upload => Some("🤗 uploading "@ + name + " to HuggingFace Hub..."@),
            _ => None,
        }
    }
}

/// What a run says after a step of the given kind has succeeded: nothing
/// when it is quiet.
pub open spec fn step_end_of(kind: StepKind, ctx: ContextModel) -> Option<Seq<char>> {
    let name = ctx.model_name;
    if !ctx.verbose {
        None
    } else {
        match kind {
            StepKind::Download => Some("🤗 downloaded "@ + name + "!"@),
            StepKind::Upload => Some("🤗 uploaded "@ + name + " to HuggingFace Hub!"@),
            _ => None,
        }
    }
}

/// What a run says before it starts on a task.
pub open spec fn before_of(task: TaskModel, ctx: ContextModel) -> Option<Seq<char>> {
    if !ctx.verbose {
        None
    } else {
        match task {
            TaskModel::Run { kind, .. } => step_start_of(kind, ctx),
            TaskModel::Fetch { .. } => Some("🌐 downloading calibration dataset..."@),
            TaskModel::Remove { .. } => Some("🧹 cleaning up caliration dataset..."@),
            _ => None,
        }
    }
}

/// What a run says after a task was answered: a successful download and a
/// converted file that was found where it belongs are worth a line.
pub open spec fn after_of(task: TaskModel, event: EventModel, ctx: ContextModel) -> Option<
    Seq<char>,
> {
    if !ctx.verbose {
        None
    } else {
        match (task, event) {
            (TaskModel::Run { kind, .. }, EventModel::Step(OutcomeModel::Success)) => step_end_of(
                kind,
                ctx,
            ),
            (TaskModel::Require { .. }, EventModel::Probed(true)) => Some(
                "🪄 "@ + ctx.model_name + " conversion to "@ + ctx.precision.banner_of()
                    + " complete!"@,
            ),
            _ => None,
        }
    }
}

fn three(a: &str, b: &str, c: &str) -> (r: String)
    ensures
        r@ == a@ + b@ + c@,
{
    let ab = catenate(a, b);
    catenate(ab.as_str(), c)
}

fn five(a: &str, b: &str, c: &str, d: &str, e: &str) -> (r: String)
    ensures
        r@ == a@ + b@ + c@ + d@ + e@,
{
    let abc = three(a, b, c);
    three(abc.as_str(), d, e)
}

/// The notices about stages that are left out, in the order to show them.
pub fn notices(ctx: &PipelineContext) -> (r: Vec<String>)
    ensures
        r.deep_view() == notices_of(ctx@),
{
    let mut lines: Vec<String> = Vec::new();
    if !ctx.runs_download() {
        lines.push(String::from_str(SKIPPING_DOWNLOAD));
    }
    if !ctx.runs_convert() {
        lines.push(three("skipping ", ctx.precision().banner(), " conversion."));
    }
    assert(lines.deep_view() =~= notices_of(ctx@));
    lines
}

/// The line to show before a step starts, if there is one.
pub fn step_start(kind: StepKind, ctx: &PipelineContext) -> (r: Option<String>)
    ensures
        r.deep_view() == step_start_of(kind, ctx@),
{
    if !ctx.verbose() {
        return None;
    }
    let name = ctx.model_name();
    match kind {
        StepKind::CloneRepo => Some(
            three("🐪 llama.cpp not found at ", ctx.llama_path(), ", installing..."),
        ),
        StepKind::PullRepo => Some(String::from_str("🐪 compiling llama.cpp...")),
        StepKind::InstallDeps => Some(String::from_str("🐪 installing llama.cpp python deps...")),
        StepKind::Download => Some(three("🤗 downloading ", name, "...")),
        StepKind::Convert => Some(
            five("🪄 converting ", name, " to ", ctx.precision().banner(), "..."),
        ),
        StepKind::Imatrix => Some(three("⚖️ generating imatrix for ", name, "...")),
        StepKind::Quantize(q) => Some(five("🪄 quantizing ", name, " to ", q.file_tag(), "...")),
        StepKind::Upload => Some(three("🤗 uploading ", name, " to HuggingFace Hub...")),
        _ => None,
    }
}

/// The line to show after a step has succeeded, if there is one.
pub fn step_end(kind: StepKind, ctx: &PipelineContext) -> (r: Option<String>)
    ensures
        r.deep_view() == step_end_of(kind, ctx@),
{
    if !ctx.verbose() {
        return None;
    }
    let name = ctx.model_name();
    match kind {
        StepKind::Download => Some(three("🤗 downloaded ", name, "!")),
        StepKind::Upload => Some(three("🤗 uploaded ", name, " to HuggingFace Hub!")),
        _ => None,
    }
}

/// The line to show before the task is carried out, if there is one.
pub fn before(task: &Task, ctx: &PipelineContext) -> (r: Option<String>)
    ensures
        r.deep_view() == before_of(task@, ctx@),
{
    if !ctx.verbose() {
        return None;
    }
    match task {
        Task::Run { kind, .. } => step_start(*kind, ctx),
        Task::Fetch { .. } => Some(String::from_str("🌐 downloading calibration dataset...")),
        Task::Remove { .. } => Some(String::from_str("🧹 cleaning up caliration dataset...")),
        _ => None,
    }
}

/// The line to show after the task was answered, if there is one.
pub fn after(task: &Task, event: &Event, ctx: &PipelineContext) -> (r: Option<String>)
    ensures
        r.deep_view() == after_of(task@, event@, ctx@),
{
    if !ctx.verbose() {
        return None;
    }
    match task {
        Task::Run { kind, .. } => match event {
            Event::Step(StepOutcome::Success) => step_end(*kind, ctx),
            _ => None,
        },
        Task::Require { .. } => match event {
            Event::Probed(true) => Some(
                five(
                    "🪄 ",
                    ctx.model_name(),
                    " conversion to ",
                    ctx.precision().banner(),
                    " complete!",
                ),
            ),
            _ => None,
        },
        _ => None,
    }
}

} // verus!
