use autogguf::quant::{Precision, QuantLevel};
use autogguf::stages::{
    convert_fp, download_model, generate_imatrix, quantize, update_llama_cpp, upload_ggufs_to_hf,
    CALIBRATION_FILE, CALIBRATION_URL, LLAMA_REPO_URL,
};
use autogguf::step::{StepKind, StepSpec};
use autogguf::task::Task;

fn strings(items: &[&str]) -> Vec<String> {
    items.iter().map(|s| s.to_string()).collect()
}

fn run_of(task: &Task) -> (StepKind, &StepSpec) {
    match task {
        Task::Run { kind, step } => (*kind, step),
        other => panic!("expected a step, found {:?}", other),
    }
}

fn check_step(
    task: &Task,
    kind: StepKind,
    program: &str,
    args: &[&str],
    cwd: Option<&str>,
) {
    let (found, step) = run_of(task);
    assert_eq!(found, kind);
    assert_eq!(step.program(), program);
    assert_eq!(step.args(), &strings(args));
    assert_eq!(step.cwd(), &cwd.map(|s| s.to_string()));
    assert!(step.envs().is_empty());
}

#[test]
fn step_spec_builder_keeps_order() {
    let step = StepSpec::new("tool".to_string())
        .arg("a".to_string())
        .env("K1".to_string(), "v1".to_string())
        .arg("b".to_string())
        .current_dir("/work".to_string())
        .env("K2".to_string(), "v2".to_string());
    assert_eq!(step.program(), "tool");
    assert_eq!(step.args(), &strings(&["a", "b"]));
    assert_eq!(step.cwd(), &Some("/work".to_string()));
    assert_eq!(
        step.envs(),
        &vec![
            ("K1".to_string(), "v1".to_string()),
            ("K2".to_string(), "v2".to_string())
        ]
    );
}

#[test]
fn bare_step_has_nothing_but_its_program() {
    let step = StepSpec::new("make".to_string());
    assert_eq!(step.program(), "make");
    assert!(step.args().is_empty());
    assert_eq!(step.cwd(), &None);
    assert!(step.envs().is_empty());
}

#[test]
fn update_stage_installs_pulls_builds() {
    let tasks = update_llama_cpp("/opt/llama.cpp", false);
    assert_eq!(tasks.len(), 6);
    match &tasks[0] {
        Task::SkipNextIfPresent { path } => assert_eq!(path, "/opt/llama.cpp"),
        other => panic!("unexpected {:?}", other),
    }
    check_step(
        &tasks[1],
        StepKind::CloneRepo,
        "git",
        &["clone", "https://github.com/ggerganov/llama.cpp", "/opt/llama.cpp"],
        None,
    );
    check_step(&tasks[2], StepKind::PullRepo, "git", &["pull"], Some("/opt/llama.cpp"));
    check_step(&tasks[3], StepKind::CleanBuild, "make", &["clean"], Some("/opt/llama.cpp"));
    check_step(&tasks[4], StepKind::Build, "make", &[], Some("/opt/llama.cpp"));
    check_step(
        &tasks[5],
        StepKind::InstallDeps,
        "pip3",
        &["install", "-r", "requirements.txt", "-q"],
        Some("/opt/llama.cpp"),
    );
}

#[test]
fn update_stage_is_chatty_when_verbose() {
    let tasks = update_llama_cpp("/opt/llama.cpp", true);
    check_step(
        &tasks[5],
        StepKind::InstallDeps,
        "pip3",
        &["install", "-r", "requirements.txt", "-v"],
        Some("/opt/llama.cpp"),
    );
}

#[test]
fn download_stage_is_quiet_unless_verbose() {
    let tasks = download_model("org/Model-7B", "Model-7B", false);
    assert_eq!(tasks.len(), 2);
    check_step(&tasks[0], StepKind::MakeDir, "mkdir", &["-p", "Model-7B"], None);
    check_step(
        &tasks[1],
        StepKind::Download,
        "huggingface-cli",
        &["download", "org/Model-7B", "--local-dir", "./Model-7B", "--quiet"],
        None,
    );
    let tasks = download_model("org/Model-7B", "Model-7B", true);
    check_step(
        &tasks[1],
        StepKind::Download,
        "huggingface-cli",
        &["download", "org/Model-7B", "--local-dir", "./Model-7B"],
        None,
    );
}

#[test]
fn convert_stage_runs_the_script_and_requires_its_output() {
    let tasks = convert_fp(
        Precision::BF16,
        "/opt/llama.cpp",
        "Model-7B/model-7b.bf16.gguf",
        "Model-7B",
    );
    assert_eq!(tasks.len(), 2);
    check_step(
        &tasks[0],
        StepKind::Convert,
        "python3",
        &[
            "/opt/llama.cpp/convert_hf_to_gguf.py",
            "Model-7B",
            "--outtype",
            "bf16",
            "--outfile",
            "Model-7B/model-7b.bf16.gguf",
        ],
        None,
    );
    match &tasks[1] {
        Task::Require { path } => assert_eq!(path, "Model-7B/model-7b.bf16.gguf"),
        other => panic!("unexpected {:?}", other),
    }
}

#[test]
fn tool_paths_are_joined_as_paths() {
    let tasks = convert_fp(Precision::F16, "/opt/llama.cpp/", "out.gguf", "m");
    let (_, step) = run_of(&tasks[0]);
    assert_eq!(step.args()[0], "/opt/llama.cpp/convert_hf_to_gguf.py");
    let tasks = quantize(QuantLevel::Q8_0, "", "fp.gguf", "im", "m");
    let (_, step) = run_of(&tasks[0]);
    assert_eq!(step.program(), "llama-quantize");
    let tasks = generate_imatrix("tools", "fp.gguf", "out.imatrix");
    let (_, step) = run_of(&tasks[2]);
    assert_eq!(step.program(), "tools/llama-imatrix");
}

#[test]
fn imatrix_stage_fetches_generates_cleans_up() {
    let tasks = generate_imatrix(
        "/opt/llama.cpp",
        "Model-7B/model-7b.f16.gguf",
        "Model-7B/model-7b.imatrix",
    );
    assert_eq!(tasks.len(), 4);
    match &tasks[0] {
        Task::SkipNextIfPresent { path } => assert_eq!(path, "calibration_data.txt"),
        other => panic!("unexpected {:?}", other),
    }
    match &tasks[1] {
        Task::Fetch { url, dest } => {
            assert_eq!(
                url,
                "https://github.com/ggerganov/llama.cpp/files/14194570/groups_merged.txt"
            );
            assert_eq!(dest, "calibration_data.txt");
        }
        other => panic!("unexpected {:?}", other),
    }
    check_step(
        &tasks[2],
        StepKind::Imatrix,
        "/opt/llama.cpp/llama-imatrix",
        &[
            "-m",
            "Model-7B/model-7b.f16.gguf",
            "-f",
            "calibration_data.txt",
            "-o",
            "Model-7B/model-7b.imatrix",
            "-t",
            "7",
            "-ngl",
            "999",
            "--chunks",
            "2000",
        ],
        None,
    );
    match &tasks[3] {
        Task::Remove { path } => assert_eq!(path, "calibration_data.txt"),
        other => panic!("unexpected {:?}", other),
    }
}

#[test]
fn constants_name_the_calibration_set_and_the_repository() {
    assert_eq!(LLAMA_REPO_URL, "https://github.com/ggerganov/llama.cpp");
    assert_eq!(
        CALIBRATION_URL,
        "https://github.com/ggerganov/llama.cpp/files/14194570/groups_merged.txt"
    );
    assert_eq!(CALIBRATION_FILE, "calibration_data.txt");
}

#[test]
fn quantize_writes_pending_then_renames() {
    let tasks = quantize(
        QuantLevel::Q4_0,
        "/opt/llama.cpp",
        "Model-7B/model-7b.f16.gguf",
        "Model-7B/model-7b.imatrix",
        "Model-7B",
    );
    assert_eq!(tasks.len(), 2);
    check_step(
        &tasks[0],
        StepKind::Quantize(QuantLevel::Q4_0),
        "/opt/llama.cpp/llama-quantize",
        &[
            "Model-7B/model-7b.f16.gguf",
            "Model-7B/model-7b.Q4_0.gguf.pending",
            "q4_0",
        ],
        None,
    );
    check_step(
        &tasks[1],
        StepKind::Rename(QuantLevel::Q4_0),
        "mv",
        &[
            "Model-7B/model-7b.Q4_0.gguf.pending",
            "Model-7B/model-7b.Q4_0.gguf",
        ],
        None,
    );
}

#[test]
fn quantize_passes_the_imatrix_to_levels_that_need_it() {
    let tasks = quantize(
        QuantLevel::IQ3S,
        "/opt/llama.cpp",
        "Model-7B/model-7b.f16.gguf",
        "Model-7B/model-7b.imatrix",
        "Model-7B",
    );
    check_step(
        &tasks[0],
        StepKind::Quantize(QuantLevel::IQ3S),
        "/opt/llama.cpp/llama-quantize",
        &[
            "--imatrix",
            "Model-7B/model-7b.imatrix",
            "Model-7B/model-7b.f16.gguf",
            "Model-7B/model-7b.IQ3_S.gguf.pending",
            "iq3_s",
        ],
        None,
    );
    check_step(
        &tasks[1],
        StepKind::Rename(QuantLevel::IQ3S),
        "mv",
        &[
            "Model-7B/model-7b.IQ3_S.gguf.pending",
            "Model-7B/model-7b.IQ3_S.gguf",
        ],
        None,
    );
}

#[test]
fn upload_syncs_the_directory_with_credentials_in_the_environment() {
    let step = upload_ggufs_to_hf("alice", "SECRET", "Model-7B");
    assert_eq!(step.program(), "huggingface-cli");
    assert_eq!(
        step.args(),
        &strings(&[
            "upload",
            "alice/Model-7B-GGUF",
            "Model-7B",
            ".",
            "--include",
            "*.gguf",
            "*.imatrix",
        ])
    );
    assert_eq!(step.cwd(), &None);
    assert_eq!(
        step.envs(),
        &vec![
            ("HF_USER".to_string(), "alice".to_string()),
            ("HF_TOKEN".to_string(), "SECRET".to_string())
        ]
    );
}

#[test]
fn cancel_messages_name_the_step() {
    assert_eq!(
        StepKind::CloneRepo.cancel_message(),
        "Llama.cpp installation process cancelled"
    );
    assert_eq!(StepKind::PullRepo.cancel_message(), "Llama.cpp update process cancelled");
    assert_eq!(
        StepKind::CleanBuild.cancel_message(),
        "Llama.cpp build clean process cancelled"
    );
    assert_eq!(StepKind::Build.cancel_message(), "Llama.cpp build process cancelled");
    assert_eq!(StepKind::InstallDeps.cancel_message(), "Llama.cpp build process cancelled");
    assert_eq!(StepKind::MakeDir.cancel_message(), "Download process killed due to interrupt");
    assert_eq!(StepKind::Download.cancel_message(), "Download process killed due to interrupt");
    assert_eq!(
        StepKind::Convert.cancel_message(),
        "Conversion process killed due to interrupt"
    );
    assert_eq!(
        StepKind::Imatrix.cancel_message(),
        "imatrix generation process killed due to interrupt"
    );
    assert_eq!(
        StepKind::Quantize(QuantLevel::IQ3S).cancel_message(),
        "Quantization process killed due to interrupt"
    );
    assert_eq!(
        StepKind::Rename(QuantLevel::IQ3S).cancel_message(),
        "Quantized file rename process killed due to interrupt"
    );
    assert_eq!(StepKind::Upload.cancel_message(), "Upload process killed due to interrupt");
}

#[test]
fn step_names() {
    assert_eq!(StepKind::CloneRepo.name(), "git clone");
    assert_eq!(StepKind::PullRepo.name(), "git pull");
    assert_eq!(StepKind::CleanBuild.name(), "make clean");
    assert_eq!(StepKind::Build.name(), "make");
    assert_eq!(StepKind::InstallDeps.name(), "pip3 install");
    assert_eq!(StepKind::MakeDir.name(), "mkdir");
    assert_eq!(StepKind::Download.name(), "huggingface-cli download");
    assert_eq!(StepKind::Convert.name(), "convert_hf_to_gguf.py");
    assert_eq!(StepKind::Imatrix.name(), "llama-imatrix");
    assert_eq!(StepKind::Quantize(QuantLevel::IQ3S).name(), "llama-quantize");
    assert_eq!(StepKind::Rename(QuantLevel::IQ3S).name(), "mv");
    assert_eq!(StepKind::Upload.name(), "huggingface-cli upload");
}
