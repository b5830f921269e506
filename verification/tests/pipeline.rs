use autogguf::pipeline::{Event, Pipeline, PipelineError, Status};
use autogguf::quant::QuantLevel;
use autogguf::runner::StepOutcome;
use autogguf::step::{StepKind, StepSpec};
use autogguf::task::Task;

fn run(kind: StepKind) -> Task {
    Task::Run { kind, step: StepSpec::new("tool".to_string()) }
}

fn ok() -> Event {
    Event::Step(StepOutcome::Success)
}

fn pending_kind(p: &Pipeline) -> StepKind {
    match p.pending() {
        Some(Task::Run { kind, .. }) => *kind,
        other => panic!("expected a step, found {:?}", other),
    }
}

#[test]
fn empty_plan_succeeds_at_once() {
    let p = Pipeline::new(vec![]);
    assert!(p.pending().is_none());
    assert_eq!(p.status(), Status::Succeeded);
    assert!(p.failure().is_none());
}

#[test]
fn tasks_are_handed_out_in_order() {
    let mut p = Pipeline::new(vec![run(StepKind::Quantize(QuantLevel::Q4_0)), run(StepKind::Rename(QuantLevel::Q4_0)), Task::Trigger]);
    assert_eq!(p.status(), Status::Running);
    assert_eq!(pending_kind(&p), StepKind::Quantize(QuantLevel::Q4_0));
    p.advance(ok());
    assert_eq!(pending_kind(&p), StepKind::Rename(QuantLevel::Q4_0));
    p.advance(ok());
    assert!(matches!(p.pending(), Some(Task::Trigger)));
    p.advance(Event::Done);
    assert!(p.pending().is_none());
    assert_eq!(p.status(), Status::Succeeded);
}

#[test]
fn next_job_waits_for_the_rename() {
    let mut p = Pipeline::new(vec![
        run(StepKind::Quantize(QuantLevel::Q4_0)),
        run(StepKind::Rename(QuantLevel::Q4_0)),
        run(StepKind::Quantize(QuantLevel::Q4_0)),
        run(StepKind::Rename(QuantLevel::Q4_0)),
    ]);
    p.advance(ok());
    assert_eq!(pending_kind(&p), StepKind::Rename(QuantLevel::Q4_0));
    p.advance(Event::Done);
    p.advance(Event::Probed(true));
    p.advance(Event::Joined(StepOutcome::Success));
    assert_eq!(pending_kind(&p), StepKind::Rename(QuantLevel::Q4_0));
    p.advance(ok());
    assert_eq!(pending_kind(&p), StepKind::Quantize(QuantLevel::Q4_0));
}

#[test]
fn cancellation_ends_the_run() {
    let mut p = Pipeline::new(vec![run(StepKind::Download), run(StepKind::Convert)]);
    p.advance(Event::Step(StepOutcome::Cancelled));
    assert!(p.pending().is_none());
    assert_eq!(p.status(), Status::Failed);
    match p.failure() {
        Some(PipelineError::Cancelled { kind }) => assert_eq!(*kind, StepKind::Download),
        other => panic!("unexpected {:?}", other),
    }
    assert!(p.failure().as_ref().unwrap().is_cancellation());
    p.advance(ok());
    assert!(p.pending().is_none());
    assert_eq!(p.status(), Status::Failed);
}

#[test]
fn exit_failure_ends_the_run() {
    let mut p = Pipeline::new(vec![run(StepKind::Quantize(QuantLevel::Q4_0)), run(StepKind::Rename(QuantLevel::Q4_0))]);
    p.advance(Event::Step(StepOutcome::ExitFailure(Some(2))));
    match p.failure() {
        Some(PipelineError::ExitFailure { kind, code }) => {
            assert_eq!(*kind, StepKind::Quantize(QuantLevel::Q4_0));
            assert_eq!(*code, Some(2));
        }
        other => panic!("unexpected {:?}", other),
    }
    assert!(p.pending().is_none());
    assert!(!p.failure().as_ref().unwrap().is_cancellation());
}

#[test]
fn spawn_failure_ends_the_run() {
    let mut p = Pipeline::new(vec![run(StepKind::Convert)]);
    p.advance(Event::Step(StepOutcome::SpawnFailure("not found".to_string())));
    match p.failure() {
        Some(PipelineError::SpawnFailure { kind, cause }) => {
            assert_eq!(*kind, StepKind::Convert);
            assert_eq!(cause, "not found");
        }
        other => panic!("unexpected {:?}", other),
    }
}

#[test]
fn missing_output_after_success_is_a_verification_failure() {
    let mut p = Pipeline::new(vec![
        run(StepKind::Convert),
        Task::Require { path: "m/m.f16.gguf".to_string() },
        run(StepKind::Quantize(QuantLevel::Q4_0)),
    ]);
    p.advance(ok());
    assert!(matches!(p.pending(), Some(Task::Require { .. })));
    p.advance(Event::Probed(false));
    assert_eq!(p.status(), Status::Failed);
    match p.failure() {
        Some(PipelineError::VerificationFailure { path }) => assert_eq!(path, "m/m.f16.gguf"),
        other => panic!("unexpected {:?}", other),
    }
    assert!(p.pending().is_none());
}

#[test]
fn present_output_lets_the_run_go_on() {
    let mut p = Pipeline::new(vec![
        run(StepKind::Convert),
        Task::Require { path: "m/m.f16.gguf".to_string() },
        run(StepKind::Quantize(QuantLevel::Q4_0)),
    ]);
    p.advance(ok());
    p.advance(Event::Probed(true));
    assert_eq!(pending_kind(&p), StepKind::Quantize(QuantLevel::Q4_0));
    assert!(p.failure().is_none());
}

#[test]
fn present_path_skips_the_next_task() {
    let mut p = Pipeline::new(vec![
        Task::SkipNextIfPresent { path: "/opt/llama.cpp".to_string() },
        run(StepKind::CloneRepo),
        run(StepKind::PullRepo),
    ]);
    p.advance(Event::Probed(true));
    assert_eq!(pending_kind(&p), StepKind::PullRepo);
}

#[test]
fn absent_path_keeps_the_next_task() {
    let mut p = Pipeline::new(vec![
        Task::SkipNextIfPresent { path: "/opt/llama.cpp".to_string() },
        run(StepKind::CloneRepo),
        run(StepKind::PullRepo),
    ]);
    p.advance(Event::Probed(false));
    assert_eq!(pending_kind(&p), StepKind::CloneRepo);
}

#[test]
fn skip_at_the_end_of_the_plan_just_ends_it() {
    let mut p = Pipeline::new(vec![Task::SkipNextIfPresent { path: "x".to_string() }]);
    p.advance(Event::Probed(true));
    assert_eq!(p.status(), Status::Succeeded);
}

#[test]
fn fetch_and_remove_are_answered_by_done() {
    let mut p = Pipeline::new(vec![
        Task::Fetch { url: "u".to_string(), dest: "d".to_string() },
        Task::Remove { path: "d".to_string() },
        Task::AwaitIdle,
    ]);
    p.advance(ok());
    assert!(matches!(p.pending(), Some(Task::Fetch { .. })));
    p.advance(Event::Done);
    assert!(matches!(p.pending(), Some(Task::Remove { .. })));
    p.advance(Event::Done);
    assert!(matches!(p.pending(), Some(Task::AwaitIdle)));
    p.advance(Event::Done);
    assert_eq!(p.status(), Status::Succeeded);
}

#[test]
fn a_task_that_cannot_be_carried_out_fails_the_run() {
    let mut p = Pipeline::new(vec![Task::Fetch { url: "u".to_string(), dest: "d".to_string() }]);
    p.advance(Event::Failed("connection refused".to_string()));
    match p.failure() {
        Some(PipelineError::IoFailure { cause }) => assert_eq!(cause, "connection refused"),
        other => panic!("unexpected {:?}", other),
    }
}

#[test]
fn join_reports_how_publication_went() {
    let mut p = Pipeline::new(vec![Task::Join]);
    p.advance(Event::Done);
    assert!(matches!(p.pending(), Some(Task::Join)));
    p.advance(Event::Joined(StepOutcome::Success));
    assert_eq!(p.status(), Status::Succeeded);

    let mut p = Pipeline::new(vec![Task::Join]);
    p.advance(Event::Joined(StepOutcome::ExitFailure(Some(1))));
    assert!(matches!(p.failure(), Some(PipelineError::PublicationFailure)));

    let mut p = Pipeline::new(vec![Task::Join]);
    p.advance(Event::Joined(StepOutcome::SpawnFailure("gone".to_string())));
    assert!(matches!(p.failure(), Some(PipelineError::PublicationFailure)));

    let mut p = Pipeline::new(vec![Task::Join]);
    p.advance(Event::Joined(StepOutcome::Cancelled));
    match p.failure() {
        Some(PipelineError::Cancelled { kind }) => assert_eq!(*kind, StepKind::Upload),
        other => panic!("unexpected {:?}", other),
    }
}

#[test]
fn messages_tell_what_failed() {
    assert_eq!(
        PipelineError::SpawnFailure {
            kind: StepKind::Quantize(QuantLevel::Q4_0),
            cause: "No such file or directory (os error 2)".to_string()
        }
        .message(),
        "llama-quantize: No such file or directory (os error 2)"
    );
    assert_eq!(
        PipelineError::ExitFailure { kind: StepKind::Download, code: Some(1) }.message(),
        "huggingface-cli download failed"
    );
    assert_eq!(
        PipelineError::VerificationFailure { path: "m/m.f16.gguf".to_string() }.message(),
        "💥 Conversion failed"
    );
    assert_eq!(
        PipelineError::Cancelled { kind: StepKind::Rename(QuantLevel::Q4_0) }.message(),
        "Quantized file rename process killed due to interrupt"
    );
    assert_eq!(PipelineError::PublicationFailure.message(), "Error in upload worker");
    assert_eq!(
        PipelineError::IoFailure { cause: "disk full".to_string() }.message(),
        "disk full"
    );
}
