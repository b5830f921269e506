use autogguf::context::{credential, PipelineContext, Settings};
use autogguf::plan::{plan, preparation, quantization, shutdown};
use autogguf::quant::{Precision, QuantLevel};
use autogguf::step::StepKind;
use autogguf::task::Task;

fn settings(quants: Vec<QuantLevel>) -> Settings {
    Settings {
        model_id: "org/Model-7B".to_string(),
        quants,
        verbose: false,
        full_precision: Precision::F16,
        fp: None,
        imatrix: None,
        skip_download: false,
        skip_upload: false,
        only_upload: false,
        update_llama: false,
        llama_path: "/opt/llama.cpp".to_string(),
        hf_token: None,
        hf_user: None,
    }
}

fn context(settings: Settings) -> PipelineContext {
    let llama = settings.llama_path.clone();
    let fp = settings.fp.clone();
    let imatrix = settings.imatrix.clone();
    PipelineContext::assemble(settings, llama, fp, imatrix, None, None)
}

fn shape(tasks: &[Task]) -> Vec<String> {
    tasks
        .iter()
        .map(|task| match task {
            Task::Run { kind, .. } => format!("{:?}", kind),
            Task::SkipNextIfPresent { path } => format!("skip-if:{}", path),
            Task::Require { path } => format!("require:{}", path),
            Task::Fetch { dest, .. } => format!("fetch:{}", dest),
            Task::Remove { path } => format!("remove:{}", path),
            Task::Trigger => "trigger".to_string(),
            Task::AwaitIdle => "await-idle".to_string(),
            Task::Join => "join".to_string(),
        })
        .collect()
}

fn args_of(task: &Task) -> Vec<String> {
    match task {
        Task::Run { step, .. } => step.args().clone(),
        other => panic!("expected a step, found {:?}", other),
    }
}

#[test]
fn context_derives_names_and_paths() {
    let ctx = context(settings(vec![QuantLevel::Q4_0]));
    assert_eq!(ctx.model_id(), "org/Model-7B");
    assert_eq!(ctx.model_name(), "Model-7B");
    assert_eq!(ctx.llama_path(), "/opt/llama.cpp");
    assert_eq!(ctx.fp_path(), "Model-7B/model-7b.f16.gguf");
    assert_eq!(ctx.imatrix_path(), "Model-7B/model-7b.imatrix");
    assert_eq!(ctx.precision(), Precision::F16);
    assert_eq!(ctx.quants(), &vec![QuantLevel::Q4_0]);
    assert!(!ctx.verbose());
    assert_eq!(ctx.hf_user(), "");
    assert_eq!(ctx.hf_token(), "");
}

#[test]
fn supplied_files_replace_the_derived_paths() {
    let mut s = settings(vec![QuantLevel::Q4_0]);
    s.fp = Some("/data/model.f32.gguf".to_string());
    s.imatrix = Some("/data/model.imatrix".to_string());
    s.full_precision = Precision::F32;
    let ctx = context(s);
    assert_eq!(ctx.fp_path(), "/data/model.f32.gguf");
    assert_eq!(ctx.imatrix_path(), "/data/model.imatrix");
}

#[test]
fn credentials_prefer_the_command_line() {
    assert_eq!(credential(Some("flag".to_string()), Some("env".to_string())), "flag");
    assert_eq!(credential(None, Some("env".to_string())), "env");
    assert_eq!(credential(Some("flag".to_string()), None), "flag");
    assert_eq!(credential(None, None), "");
    let mut s = settings(vec![]);
    s.hf_user = Some("alice".to_string());
    let ctx = PipelineContext::assemble(
        s,
        "/opt/llama.cpp".to_string(),
        None,
        None,
        Some("bob".to_string()),
        Some("SECRET".to_string()),
    );
    assert_eq!(ctx.hf_user(), "alice");
    assert_eq!(ctx.hf_token(), "SECRET");
}

#[test]
fn resolve_expands_the_tilde() {
    let mut s = settings(vec![QuantLevel::Q4_0]);
    s.llama_path = "~/code/llama.cpp".to_string();
    s.fp = Some("~/models/m.gguf".to_string());
    s.imatrix = Some("relative/m.imatrix".to_string());
    let ctx = PipelineContext::resolve(s, None, None);
    assert_eq!(
        ctx.llama_path(),
        shellexpand::tilde("~/code/llama.cpp").into_owned()
    );
    assert!(ctx.llama_path().ends_with("/code/llama.cpp"));
    assert_ne!(ctx.llama_path(), "~/code/llama.cpp");
    assert!(ctx.fp_path().ends_with("/models/m.gguf"));
    assert_ne!(ctx.fp_path(), "~/models/m.gguf");
    assert_eq!(ctx.imatrix_path(), "relative/m.imatrix");
    assert!(!ctx.runs_download());
    assert!(!ctx.runs_convert());
    assert!(!ctx.runs_imatrix());
}

#[test]
fn resolve_leaves_other_users_alone() {
    let mut s = settings(vec![]);
    s.llama_path = "~other/llama.cpp".to_string();
    let ctx = PipelineContext::resolve(s, Some("u".to_string()), None);
    assert_eq!(ctx.llama_path(), "~other/llama.cpp");
    assert_eq!(ctx.fp_path(), "Model-7B/model-7b.f16.gguf");
    assert_eq!(ctx.hf_user(), "u");
}

#[test]
fn stage_switches() {
    let ctx = context(settings(vec![QuantLevel::Q4_0]));
    assert!(!ctx.runs_update());
    assert!(ctx.runs_download());
    assert!(ctx.runs_convert());
    assert!(!ctx.runs_imatrix());
    assert!(ctx.runs_quantize());
    assert!(ctx.publishes());

    let mut s = settings(vec![QuantLevel::Q4_0]);
    s.skip_download = true;
    s.skip_upload = true;
    s.update_llama = true;
    let ctx = context(s);
    assert!(ctx.runs_update());
    assert!(!ctx.runs_download());
    assert!(ctx.runs_convert());
    assert!(ctx.runs_quantize());
    assert!(!ctx.publishes());
}

#[test]
fn full_plan_in_order() {
    let mut s = settings(vec![QuantLevel::Q4_0, QuantLevel::IQ3S]);
    s.update_llama = true;
    let ctx = context(s);
    let tasks = plan(&ctx);
    assert_eq!(
        shape(&tasks),
        vec![
            "skip-if:/opt/llama.cpp",
            "CloneRepo",
            "PullRepo",
            "CleanBuild",
            "Build",
            "InstallDeps",
            "MakeDir",
            "Download",
            "Convert",
            "require:Model-7B/model-7b.f16.gguf",
            "skip-if:calibration_data.txt",
            "fetch:calibration_data.txt",
            "Imatrix",
            "remove:calibration_data.txt",
            "Quantize(Q4_0)",
            "Rename(Q4_0)",
            "trigger",
            "Quantize(IQ3S)",
            "Rename(IQ3S)",
            "trigger",
            "await-idle",
            "trigger",
            "join",
        ]
    );
}

#[test]
fn plan_is_its_three_parts() {
    let ctx = context(settings(vec![QuantLevel::Q4_0, QuantLevel::Q8_0]));
    let mut parts = shape(&preparation(&ctx));
    parts.extend(shape(&quantization(&ctx)));
    parts.extend(shape(&shutdown(&ctx)));
    assert_eq!(shape(&plan(&ctx)), parts);
    assert_eq!(shape(&shutdown(&ctx)), vec!["await-idle", "trigger", "join"]);
}

#[test]
fn scenario_supplied_full_precision_file() {
    let mut s = settings(vec![QuantLevel::Q4_0]);
    s.fp = Some("/data/model-7b.f16.gguf".to_string());
    let ctx = context(s);
    let tasks = plan(&ctx);
    assert_eq!(
        shape(&tasks),
        vec!["Quantize(Q4_0)", "Rename(Q4_0)", "trigger", "await-idle", "trigger", "join"]
    );
    assert_eq!(
        args_of(&tasks[0]),
        vec![
            "/data/model-7b.f16.gguf",
            "Model-7B/model-7b.Q4_0.gguf.pending",
            "q4_0"
        ]
    );
    assert_eq!(
        args_of(&tasks[1]),
        vec![
            "Model-7B/model-7b.Q4_0.gguf.pending",
            "Model-7B/model-7b.Q4_0.gguf"
        ]
    );
}

#[test]
fn scenario_supplied_full_precision_file_without_publication() {
    let mut s = settings(vec![QuantLevel::Q4_0]);
    s.fp = Some("/data/model-7b.f16.gguf".to_string());
    s.skip_upload = true;
    let tasks = plan(&context(s));
    assert_eq!(shape(&tasks), vec!["Quantize(Q4_0)", "Rename(Q4_0)"]);
}

#[test]
fn scenario_imatrix_level_without_override() {
    let ctx = context(settings(vec![QuantLevel::IQ3S]));
    assert!(ctx.runs_imatrix());
    let tasks = plan(&ctx);
    assert_eq!(
        shape(&tasks),
        vec![
            "MakeDir",
            "Download",
            "Convert",
            "require:Model-7B/model-7b.f16.gguf",
            "skip-if:calibration_data.txt",
            "fetch:calibration_data.txt",
            "Imatrix",
            "remove:calibration_data.txt",
            "Quantize(IQ3S)",
            "Rename(IQ3S)",
            "trigger",
            "await-idle",
            "trigger",
            "join",
        ]
    );
    let imatrix_args = args_of(&tasks[6]);
    assert_eq!(imatrix_args[4], "-o");
    assert_eq!(imatrix_args[5], "Model-7B/model-7b.imatrix");
    let quantize_args = args_of(&tasks[8]);
    assert_eq!(quantize_args[0], "--imatrix");
    assert_eq!(quantize_args[1], "Model-7B/model-7b.imatrix");
    assert_eq!(quantize_args[4], "iq3_s");
}

#[test]
fn supplied_imatrix_is_not_generated_again() {
    let mut s = settings(vec![QuantLevel::IQ3S]);
    s.imatrix = Some("/data/m.imatrix".to_string());
    let ctx = context(s);
    assert!(!ctx.runs_imatrix());
    let tasks = plan(&ctx);
    assert!(!shape(&tasks).contains(&"Imatrix".to_string()));
    let quantize_args = args_of(&tasks[4]);
    assert_eq!(quantize_args[0], "--imatrix");
    assert_eq!(quantize_args[1], "/data/m.imatrix");
}

#[test]
fn scenario_only_upload() {
    let mut s = settings(vec![QuantLevel::Q4_0, QuantLevel::IQ3S]);
    s.only_upload = true;
    let ctx = context(s);
    assert!(!ctx.runs_download());
    assert!(!ctx.runs_convert());
    assert!(!ctx.runs_imatrix());
    assert!(!ctx.runs_quantize());
    assert!(ctx.publishes());
    assert_eq!(shape(&plan(&ctx)), vec!["await-idle", "trigger", "join"]);
}

#[test]
fn only_upload_without_upload_does_nothing() {
    let mut s = settings(vec![QuantLevel::Q4_0]);
    s.only_upload = true;
    s.skip_upload = true;
    assert!(plan(&context(s)).is_empty());
}

#[test]
fn skip_download_still_converts() {
    let mut s = settings(vec![QuantLevel::Q4_0]);
    s.skip_download = true;
    let tasks = plan(&context(s));
    assert_eq!(
        shape(&tasks)[..2],
        ["Convert".to_string(), "require:Model-7B/model-7b.f16.gguf".to_string()]
    );
}

#[test]
fn jobs_follow_the_requested_order() {
    let quants = vec![QuantLevel::Q8_0, QuantLevel::Q2K, QuantLevel::Q5KM];
    let mut s = settings(quants.clone());
    s.skip_upload = true;
    s.fp = Some("fp.gguf".to_string());
    let tasks = plan(&context(s));
    assert_eq!(tasks.len(), 6);
    for (i, q) in quants.iter().enumerate() {
        match &tasks[2 * i] {
            Task::Run { kind, step } => {
                assert_eq!(*kind, StepKind::Quantize(*q));
                assert_eq!(step.args()[2], q.label());
            }
            other => panic!("unexpected {:?}", other),
        }
        match &tasks[2 * i + 1] {
            Task::Run { kind, step } => {
                assert_eq!(*kind, StepKind::Rename(*q));
                assert!(step.args()[1].ends_with(&format!(".{}.gguf", q.file_tag())));
            }
            other => panic!("unexpected {:?}", other),
        }
    }
}

#[test]
fn verbose_reaches_the_tools() {
    let mut s = settings(vec![]);
    s.verbose = true;
    s.update_llama = true;
    let ctx = context(s);
    assert!(ctx.verbose());
    let tasks = plan(&ctx);
    assert_eq!(args_of(&tasks[5]).last().unwrap(), "-v");
    assert_eq!(
        args_of(&tasks[7]),
        vec!["download", "org/Model-7B", "--local-dir", "./Model-7B"]
    );
}
