//! The plan of a run: every task of every stage that the context asks for,
//! in the order in which they are carried out.
use vstd::prelude::*;
use crate::context::{ContextModel, PipelineContext};
use crate::stages::{
    convert_fp, convert_fp_tasks, convert_step, download_model, download_model_tasks, generate_imatrix,
    generate_imatrix_tasks, quantize, quantize_step, quantize_tasks, rename_step,
    update_llama_cpp, update_llama_cpp_tasks,
};
use crate::pipeline::{
    lemma_after_keeps_plan, lemma_steps_in_order, lemma_tasks_in_order, EventModel,
    PipelineModel, Status,
};
use crate::runner::OutcomeModel;
use crate::step::StepKind;
use crate::task::{Task, TaskModel};

verus! {

impl ContextModel {
    pub open spec fn update_part(self) -> Seq<TaskModel> {
        if self.runs_update() {
            update_llama_cpp_tasks(self.llama_path, self.verbose)
        } else {
            Seq::empty()
        }
    }

    pub open spec fn download_part(self) -> Seq<TaskModel> {
        if self.runs_download() {
            download_model_tasks(self.model_id, self.model_name, self.verbose)
        } else {
            Seq::empty()
        }
    }

    pub open spec fn convert_part(self) -> Seq<TaskModel> {
        if self.runs_convert() {
            convert_fp_tasks(self.precision, self.llama_path, self.fp_path, self.model_name)
        } else {
            Seq::empty()
        }
    }

    pub open spec fn imatrix_part(self) -> Seq<TaskModel> {
        if self.runs_imatrix() {
            generate_imatrix_tasks(self.llama_path, self.fp_path, self.imatrix_path)
        } else {
            Seq::empty()
        }
    }

    /// Everything that comes before the first quantization job.
    pub open spec fn preparation(self) -> Seq<TaskModel> {
        self.update_part() + self.download_part() + self.convert_part() + self.imatrix_part()
    }

    /// The announcement that follows a quantization job: one trigger, where
    /// the run publishes at all.
    pub open spec fn announcement(self) -> Seq<TaskModel> {
        if self.publishes() {
            seq![TaskModel::Trigger]
        } else {
            Seq::empty()
        }
    }

    /// One quantization job with its announcement.
    pub open spec fn job(self, i: int) -> Seq<TaskModel> {
        quantize_tasks(
            self.quants[i],
            self.llama_path,
            self.fp_path,
            self.imatrix_path,
            self.model_name,
        ) + self.announcement()
    }

    /// The number of tasks of one job.
    pub open spec fn stride(self) -> int {
        if self.publishes() {
            3
        } else {
            2
        }
    }

    /// The first `n` quantization jobs, in the order requested.
    pub open spec fn jobs(self, n: int) -> Seq<TaskModel>
        decreases n,
    {
        if n <= 0 {
            Seq::empty()
        } else {
            self.jobs(n - 1) + self.job(n - 1)
        }
    }

    pub open spec fn quantization(self) -> Seq<TaskModel> {
        if self.runs_quantize() {
            self.jobs(self.quants.len() as int)
        } else {
            Seq::empty()
        }
    }

    /// The end of a publishing run: wait until the coordinator is idle,
    /// offer one last trigger whatever happened before, then close the
    /// queue and wait for the coordinator to finish.
    pub open spec fn shutdown(self) -> Seq<TaskModel> {
        if self.publishes() {
            seq![TaskModel::AwaitIdle, TaskModel::Trigger, TaskModel::Join]
        } else {
            Seq::empty()
        }
    }

    /// The whole run.
    pub open spec fn plan(self) -> Seq<TaskModel> {
        self.preparation() + self.quantization() + self.shutdown()
    }

    /// Where the conversion stage starts in the plan, if the run converts.
    pub open spec fn convert_start(self) -> int {
        (self.update_part().len() + self.download_part().len()) as int
    }

    /// Where job `i` starts in the plan.
    pub open spec fn job_start(self, i: int) -> int {
        self.preparation().len() + i * self.stride()
    }
}

fn extend(tasks: &mut Vec<Task>, more: Vec<Task>)
    ensures
        final(tasks).deep_view() == old(tasks).deep_view() + more.deep_view(),
{
    let mut rest = more;
    tasks.append(&mut rest);
    assert(tasks.deep_view() =~= old(tasks).deep_view() + more.deep_view());
}

/// The tasks before the first quantization job.
pub fn preparation(ctx: &PipelineContext) -> (r: Vec<Task>)
    ensures
        r.deep_view() == ctx@.preparation(),
{
    let mut tasks: Vec<Task> = Vec::new();
    assert(tasks.deep_view() =~= Seq::empty());
    if ctx.runs_update() {
        extend(&mut tasks, update_llama_cpp(ctx.llama_path(), ctx.verbose()));
    }
    assert(tasks.deep_view() =~= ctx@.update_part());
    if ctx.runs_download() {
        extend(&mut tasks, download_model(ctx.model_id(), ctx.model_name(), ctx.verbose()));
    }
    assert(tasks.deep_view() =~= ctx@.update_part() + ctx@.download_part());
    if ctx.runs_convert() {
        extend(
            &mut tasks,
            convert_fp(ctx.precision(), ctx.llama_path(), ctx.fp_path(), ctx.model_name()),
        );
    }
    assert(tasks.deep_view() =~= ctx@.update_part() + ctx@.download_part() + ctx@.convert_part());
    if ctx.runs_imatrix() {
        extend(&mut tasks, generate_imatrix(ctx.llama_path(), ctx.fp_path(), ctx.imatrix_path()));
    }
    assert(tasks.deep_view() =~= ctx@.preparation());
    tasks
}

/// The quantization jobs, each followed by its announcement.
pub fn quantization(ctx: &PipelineContext) -> (r: Vec<Task>)
    ensures
        r.deep_view() == ctx@.quantization(),
{
    let mut tasks: Vec<Task> = Vec::new();
    assert(tasks.deep_view() =~= Seq::empty());
    if ctx.runs_quantize() {
        let quants = ctx.quants();
        let mut i: usize = 0;
        while i < quants.len()
            invariant
                i <= quants.len(),
                quants@ == ctx@.quants,
                tasks.deep_view() == ctx@.jobs(i as int),
            decreases quants.len() - i,
        {
            extend(
                &mut tasks,
                quantize(
                    quants[i],
                    ctx.llama_path(),
                    ctx.fp_path(),
                    ctx.imatrix_path(),
                    ctx.model_name(),
                ),
            );
            if ctx.publishes() {
                let ghost before = tasks.deep_view();
                tasks.push(Task::Trigger);
                assert(tasks.deep_view() =~= before + seq![TaskModel::Trigger]);
            }
            assert(tasks.deep_view() =~= ctx@.jobs(i as int) + ctx@.job(i as int));
            i += 1;
        }
    }
    tasks
}

/// The tasks that end a publishing run.
pub fn shutdown(ctx: &PipelineContext) -> (r: Vec<Task>)
    ensures
        r.deep_view() == ctx@.shutdown(),
{
    let mut tasks: Vec<Task> = Vec::new();
    if ctx.publishes() {
        tasks.push(Task::AwaitIdle);
        tasks.push(Task::Trigger);
        tasks.push(Task::Join);
    }
    assert(tasks.deep_view() =~= ctx@.shutdown());
    tasks
}

/// The whole run, as the tasks to carry out one after the other.
pub fn plan(ctx: &PipelineContext) -> (r: Vec<Task>)
    ensures
        r.deep_view() == ctx@.plan(),
{
    let mut tasks = preparation(ctx);
    extend(&mut tasks, quantization(ctx));
    extend(&mut tasks, shutdown(ctx));
    tasks
}

/// Every job has the same number of tasks.
pub proof fn lemma_jobs_len(ctx: ContextModel, n: int)
    requires
        0 <= n,
    ensures
        ctx.jobs(n).len() == n * ctx.stride(),
    decreases n,
{
    if n > 0 {
        lemma_jobs_len(ctx, n - 1);
        assert(n * ctx.stride() == (n - 1) * ctx.stride() + ctx.stride()) by (nonlinear_arith);
    }
}

/// Job `i` stands at its place among the first `n` jobs: the quantizer,
/// then the rename, then the trigger where the run publishes.
pub proof fn lemma_job_in_jobs(ctx: ContextModel, n: int, i: int)
    requires
        0 <= i < n,
    ensures
        ctx.jobs(n).len() == n * ctx.stride(),
        0 <= i * ctx.stride(),
        i * ctx.stride() + ctx.stride() <= n * ctx.stride(),
        ctx.jobs(n).subrange(i * ctx.stride(), i * ctx.stride() + ctx.stride()) == ctx.job(i),
    decreases n,
{
    lemma_jobs_len(ctx, n);
    lemma_jobs_len(ctx, n - 1);
    let w = ctx.stride();
    assert(n * w == (n - 1) * w + w) by (nonlinear_arith);
    assert(0 <= i * w && i * w + w <= n * w) by (nonlinear_arith)
        requires
            0 <= i < n,
            2 <= w <= 3,
    ;
    if i == n - 1 {
        assert(ctx.jobs(n).subrange(i * w, i * w + w) =~= ctx.job(i));
    } else {
        lemma_job_in_jobs(ctx, n - 1, i);
        assert(i * w + w <= (n - 1) * w) by (nonlinear_arith)
            requires
                0 <= i < n - 1,
                2 <= w <= 3,
        ;
        assert(ctx.jobs(n).subrange(i * w, i * w + w) =~= ctx.jobs(n - 1).subrange(
            i * w,
            i * w + w,
        ));
    }
}

/// Where the tasks of job `i` stand in the plan: the quantizer at
/// `job_start(i)`, the rename right after it, and the next job only after
/// both.
pub proof fn lemma_job_positions(ctx: ContextModel, i: int)
    requires
        ctx.runs_quantize(),
        0 <= i < ctx.quants.len(),
    ensures
        0 <= ctx.job_start(i),
        ctx.job_start(i) + ctx.stride() <= ctx.plan().len(),
        ctx.job_start(i + 1) == ctx.job_start(i) + ctx.stride(),
        ctx.plan()[ctx.job_start(i)] == (TaskModel::Run {
            kind: StepKind::Quantize(ctx.quants[i]),
            step: quantize_step(
                ctx.quants[i],
                ctx.llama_path,
                ctx.fp_path,
                ctx.imatrix_path,
                ctx.model_name,
            ),
        }),
        ctx.plan()[ctx.job_start(i) + 1] == (TaskModel::Run {
            kind: StepKind::Rename(ctx.quants[i]),
            step: rename_step(ctx.quants[i], ctx.model_name),
        }),
        ctx.publishes() ==> ctx.plan()[ctx.job_start(i) + 2] == TaskModel::Trigger,
{
    let n = ctx.quants.len() as int;
    let w = ctx.stride();
    let base = ctx.preparation().len() as int;
    lemma_job_in_jobs(ctx, n, i);
    assert((i + 1) * w == i * w + w) by (nonlinear_arith);
    let window = ctx.jobs(n).subrange(i * w, i * w + w);
    assert(window[0] == ctx.jobs(n)[i * w]);
    assert(window[1] == ctx.jobs(n)[i * w + 1]);
    assert(ctx.plan()[base + i * w] == ctx.jobs(n)[i * w]);
    assert(ctx.plan()[base + i * w + 1] == ctx.jobs(n)[i * w + 1]);
    if ctx.publishes() {
        assert(window[2] == ctx.jobs(n)[i * w + 2]);
        assert(ctx.plan()[base + i * w + 2] == ctx.jobs(n)[i * w + 2]);
    }
}

/// The preparation never ends on a task that could skip what follows it.
pub proof fn lemma_preparation_ends_plainly(ctx: ContextModel)
    ensures
        ctx.preparation().len() > 0 ==> !(ctx.preparation().last() is SkipNextIfPresent),
{
    let a = ctx.update_part();
    let b = ctx.download_part();
    let c = ctx.convert_part();
    let d = ctx.imatrix_part();
    let all = ctx.preparation();
    if all.len() > 0 {
        if d.len() > 0 {
            assert(all.last() == d[d.len() - 1]);
        } else if c.len() > 0 {
            assert(all.last() == c[c.len() - 1]);
        } else if b.len() > 0 {
            assert(all.last() == b[b.len() - 1]);
        } else {
            assert(all.last() == a[a.len() - 1]);
        }
    }
}

/// Nothing skips a quantization job: neither the task before its
/// quantizer nor the quantizer itself can leave out what follows.
pub proof fn lemma_nothing_skips_a_job(ctx: ContextModel, i: int)
    requires
        ctx.runs_quantize(),
        0 <= i < ctx.quants.len(),
    ensures
        ctx.job_start(i) > 0 ==> !(ctx.plan()[ctx.job_start(i) - 1] is SkipNextIfPresent),
        !(ctx.plan()[ctx.job_start(i)] is SkipNextIfPresent),
{
    lemma_job_positions(ctx, i);
    let base = ctx.preparation().len() as int;
    if i == 0 {
        assert(0 * ctx.stride() == 0) by (nonlinear_arith);
        if base > 0 {
            lemma_preparation_ends_plainly(ctx);
            assert(ctx.plan()[base - 1] == ctx.preparation().last());
        }
    } else {
        lemma_job_positions(ctx, i - 1);
    }
}

/// A publishing run ends on the shutdown: wait for the coordinator, offer
/// the last trigger, join. Nothing can skip any of the three.
pub proof fn lemma_shutdown_positions(ctx: ContextModel)
    requires
        ctx.publishes(),
    ensures
        ctx.plan().len() >= 3,
        ctx.plan()[ctx.plan().len() - 3] == TaskModel::AwaitIdle,
        ctx.plan()[ctx.plan().len() - 2] == TaskModel::Trigger,
        ctx.plan()[ctx.plan().len() - 1] == TaskModel::Join,
        ctx.plan().len() > 3 ==> !(ctx.plan()[ctx.plan().len() - 4] is SkipNextIfPresent),
{
    let plan = ctx.plan();
    let at = plan.len() - 3;
    assert(plan[at] == ctx.shutdown()[0]);
    assert(plan[at + 1] == ctx.shutdown()[1]);
    assert(plan[at + 2] == ctx.shutdown()[2]);
    if at > 0 {
        if ctx.runs_quantize() && ctx.quants.len() > 0 {
            let last = ctx.quants.len() - 1;
            lemma_jobs_len(ctx, ctx.quants.len() as int);
            lemma_job_positions(ctx, last);
            assert((last + 1) * ctx.stride() == last * ctx.stride() + ctx.stride())
                by (nonlinear_arith);
            assert(at - 1 == ctx.job_start(last) + 2);
        } else {
            lemma_preparation_ends_plainly(ctx);
            assert(plan[at - 1] == ctx.preparation().last());
        }
    }
}

/// Drain completeness, seen from the pipeline: a publishing run reports
/// success only after the coordinator was found idle, the last trigger was
/// offered, and the coordinator finished with a clean verdict, in that
/// order of tasks and whatever was reported on the way.
pub proof fn lemma_success_needs_the_drain(ctx: ContextModel, events: Seq<EventModel>)
    requires
        ctx.publishes(),
        PipelineModel::fresh(ctx.plan()).after(events).status() == Status::Succeeded,
    ensures
        ({
            let run = PipelineModel::fresh(ctx.plan());
            let end = ctx.plan().len() as int;
            &&& run.answered_at(events, end - 3, EventModel::Done)
            &&& run.answered_at(events, end - 2, EventModel::Done)
            &&& run.answered_at(events, end - 1, EventModel::Joined(OutcomeModel::Success))
        }),
{
    let end = ctx.plan().len() as int;
    lemma_shutdown_positions(ctx);
    lemma_after_keeps_plan(PipelineModel::fresh(ctx.plan()), events);
    lemma_tasks_in_order(ctx.plan(), events, end - 3);
    lemma_tasks_in_order(ctx.plan(), events, end - 2);
    lemma_tasks_in_order(ctx.plan(), events, end - 1);
}

/// Quantization jobs never overlap: by the time the quantizer of a job is
/// pending, the quantizer and the rename of the job before it have both
/// been pending and have both succeeded, whatever was reported to the
/// pipeline on the way.
pub proof fn lemma_jobs_run_one_after_another(
    ctx: ContextModel,
    events: Seq<EventModel>,
    i: int,
)
    requires
        ctx.runs_quantize(),
        0 <= i,
        i + 1 < ctx.quants.len(),
        PipelineModel::fresh(ctx.plan()).after(events).next >= ctx.job_start(i + 1),
    ensures
        PipelineModel::fresh(ctx.plan()).succeeded_at(events, ctx.job_start(i)),
        PipelineModel::fresh(ctx.plan()).succeeded_at(events, ctx.job_start(i) + 1),
        ctx.plan()[ctx.job_start(i) + 1].runs(StepKind::Rename(ctx.quants[i])),
        ctx.plan()[ctx.job_start(i + 1)].runs(StepKind::Quantize(ctx.quants[i + 1])),
{
    lemma_job_positions(ctx, i);
    lemma_job_positions(ctx, i + 1);
    lemma_nothing_skips_a_job(ctx, i);
    lemma_steps_in_order(ctx.plan(), events, ctx.job_start(i));
    lemma_steps_in_order(ctx.plan(), events, ctx.job_start(i) + 1);
}

/// The conversion is verified: a run that converts gets past the
/// conversion stage only after the converter has succeeded and its output
/// file was then found to be there.
pub proof fn lemma_conversion_is_verified(ctx: ContextModel, events: Seq<EventModel>)
    requires
        ctx.runs_convert(),
        PipelineModel::fresh(ctx.plan()).after(events).next > ctx.convert_start() + 1,
    ensures
        ctx.plan()[ctx.convert_start()] == (TaskModel::Run {
            kind: StepKind::Convert,
            step: convert_step(ctx.precision, ctx.llama_path, ctx.fp_path, ctx.model_name),
        }),
        ctx.plan()[ctx.convert_start() + 1] == (TaskModel::Require { path: ctx.fp_path }),
        PipelineModel::fresh(ctx.plan()).succeeded_at(events, ctx.convert_start()),
        PipelineModel::fresh(ctx.plan()).answered_at(
            events,
            ctx.convert_start() + 1,
            EventModel::Probed(true),
        ),
{
    let plan = ctx.plan();
    let at = ctx.convert_start();
    let a = ctx.update_part();
    let b = ctx.download_part();
    let c = ctx.convert_part();
    assert(plan[at] == c[0]);
    assert(plan[at + 1] == c[1]);
    if at > 0 {
        if b.len() > 0 {
            assert(plan[at - 1] == b[b.len() - 1]);
        } else {
            assert(plan[at - 1] == a[a.len() - 1]);
        }
    }
    lemma_after_keeps_plan(PipelineModel::fresh(plan), events);
    lemma_tasks_in_order(plan, events, at);
    lemma_tasks_in_order(plan, events, at + 1);
}

/// A run that only publishes starts no download, conversion,
/// importance-matrix or quantization task: its plan is the update stage, if
/// that was asked for, and the shutdown.
pub proof fn lemma_only_upload_plan(ctx: ContextModel)
    requires
        ctx.only_upload,
    ensures
        ctx.plan() == ctx.update_part() + ctx.shutdown(),
        !ctx.runs_update() && ctx.publishes() ==> ctx.plan() == seq![
            TaskModel::AwaitIdle,
            TaskModel::Trigger,
            TaskModel::Join,
        ],
{
    assert(ctx.plan() =~= ctx.update_part() + ctx.shutdown());
}

/// With a full-precision file supplied nothing is downloaded or converted:
/// the plan goes from the update stage straight to the importance matrix
/// and the quantization jobs.
pub proof fn lemma_supplied_fp_plan(ctx: ContextModel)
    requires
        ctx.fp_supplied,
    ensures
        ctx.plan() == ctx.update_part() + ctx.imatrix_part() + ctx.quantization()
            + ctx.shutdown(),
{
    assert(ctx.plan() =~= ctx.update_part() + ctx.imatrix_part() + ctx.quantization()
        + ctx.shutdown());
}

} // verus!
