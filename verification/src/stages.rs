//! The stages of a run, each as the ordered tasks it consists of, and the
//! external command behind every step.
use vstd::prelude::*;
use crate::paths::{
    local_dir, local_dir_of, pending_path, pending_path_of, quant_path, quant_path_of, repo_id,
    repo_id_of,
};
use crate::quant::{Precision, QuantLevel};
use crate::step::{StepKind, StepModel, StepSpec};
use crate::task::{Task, TaskModel};
use crate::text::{join_path, joined_path};

verus! {

/// Where the toolchain is cloned from when it is not installed yet.
pub const LLAMA_REPO_URL: &'static str = "https://github.com/ggerganov/llama.cpp";

/// The calibration text the importance matrix is computed from.
pub const CALIBRATION_URL: &'static str =
    "https://github.com/ggerganov/llama.cpp/files/14194570/groups_merged.txt";

/// The local file the calibration text is kept in while it is needed.
pub const CALIBRATION_FILE: &'static str = "calibration_data.txt";

fn own(s: &str) -> (r: String)
    ensures
        r@ == s@,
{
    String::from_str(s)
}

/// `git clone <repository> <llama_path>`
pub open spec fn clone_repo_step(llama_path: Seq<char>) -> StepModel {
    StepModel {
        program: "git"@,
        args: seq!["clone"@, LLAMA_REPO_URL@, llama_path],
        cwd: None,
        env: Seq::empty(),
    }
}

/// `git pull`, inside the toolchain directory
pub open spec fn pull_repo_step(llama_path: Seq<char>) -> StepModel {
    StepModel { program: "git"@, args: seq!["pull"@], cwd: Some(llama_path), env: Seq::empty() }
}

/// `make clean`, inside the toolchain directory
pub open spec fn clean_build_step(llama_path: Seq<char>) -> StepModel {
    StepModel { program: "make"@, args: seq!["clean"@], cwd: Some(llama_path), env: Seq::empty() }
}

/// `make`, inside the toolchain directory
pub open spec fn build_step(llama_path: Seq<char>) -> StepModel {
    StepModel { program: "make"@, args: Seq::empty(), cwd: Some(llama_path), env: Seq::empty() }
}

/// `pip3 install -r requirements.txt`, chatty or quiet, inside the toolchain
/// directory
pub open spec fn install_deps_step(llama_path: Seq<char>, verbose: bool) -> StepModel {
    StepModel {
        program: "pip3"@,
        args: seq![
            "install"@,
            "-r"@,
            "requirements.txt"@,
            if verbose {
                "-v"@
            } else {
                "-q"@
            },
        ],
        cwd: Some(llama_path),
        env: Seq::empty(),
    }
}

/// `mkdir -p <name>`
pub open spec fn make_dir_step(model_name: Seq<char>) -> StepModel {
    StepModel {
        program: "mkdir"@,
        args: seq!["-p"@, model_name],
        cwd: None,
        env: Seq::empty(),
    }
}

/// `huggingface-cli download <id> --local-dir ./<name>`, with `--quiet`
/// unless the run is verbose
pub open spec fn download_step(
    model_id: Seq<char>,
    model_name: Seq<char>,
    verbose: bool,
) -> StepModel {
    StepModel {
        program: "huggingface-cli"@,
        args: seq!["download"@, model_id, "--local-dir"@, local_dir_of(model_name)] + (if verbose {
            Seq::<Seq<char>>::empty()
        } else {
            seq!["--quiet"@]
        }),
        cwd: None,
        env: Seq::empty(),
    }
}

/// `python3 <toolchain>/convert_hf_to_gguf.py <name> --outtype <precision>
/// --outfile <output>`
pub open spec fn convert_step(
    precision: Precision,
    llama_path: Seq<char>,
    output_path: Seq<char>,
    model_name: Seq<char>,
) -> StepModel {
    StepModel {
        program: "python3"@,
        args: seq![
            joined_path(llama_path, "convert_hf_to_gguf.py"@),
            model_name,
            "--outtype"@,
            precision.label_of(),
            "--outfile"@,
            output_path,
        ],
        cwd: None,
        env: Seq::empty(),
    }
}

/// `<toolchain>/llama-imatrix -m <fp> -f <calibration file> -o <output>
/// -t 7 -ngl 999 --chunks 2000`
pub open spec fn imatrix_step(
    llama_path: Seq<char>,
    fp: Seq<char>,
    output_path: Seq<char>,
) -> StepModel {
    StepModel {
        program: joined_path(llama_path, "llama-imatrix"@),
        args: seq![
            "-m"@,
            fp,
            "-f"@,
            CALIBRATION_FILE@,
            "-o"@,
            output_path,
            "-t"@,
            "7"@,
            "-ngl"@,
            "999"@,
            "--chunks"@,
            "2000"@,
        ],
        cwd: None,
        env: Seq::empty(),
    }
}

/// `<toolchain>/llama-quantize [--imatrix <imatrix>] <fp> <final name>.pending
/// <level>`: the importance matrix is passed exactly to the levels that
/// need one, and the output goes to the pending name.
pub open spec fn quantize_step(
    q: QuantLevel,
    llama_path: Seq<char>,
    fp: Seq<char>,
    imatrix: Seq<char>,
    model_name: Seq<char>,
) -> StepModel {
    StepModel {
        program: joined_path(llama_path, "llama-quantize"@),
        args: (if q.needs_imatrix() {
            seq!["--imatrix"@, imatrix]
        } else {
            Seq::<Seq<char>>::empty()
        }) + seq![fp, pending_path_of(quant_path_of(model_name, q)), q.label_of()],
        cwd: None,
        env: Seq::empty(),
    }
}

/// `mv <final name>.pending <final name>`
pub open spec fn rename_step(q: QuantLevel, model_name: Seq<char>) -> StepModel {
    StepModel {
        program: "mv"@,
        args: seq![
            pending_path_of(quant_path_of(model_name, q)),
            quant_path_of(model_name, q),
        ],
        cwd: None,
        env: Seq::empty(),
    }
}

/// `huggingface-cli upload <user>/<name>-GGUF <name> . --include *.gguf
/// *.imatrix`, with the credentials in the environment
pub open spec fn upload_step(
    hf_user: Seq<char>,
    hf_token: Seq<char>,
    model_name: Seq<char>,
) -> StepModel {
    StepModel {
        program: "huggingface-cli"@,
        args: seq![
            "upload"@,
            repo_id_of(hf_user, model_name),
            model_name,
            "."@,
            "--include"@,
            "*.gguf"@,
            "*.imatrix"@,
        ],
        cwd: None,
        env: seq![("HF_USER"@, hf_user), ("HF_TOKEN"@, hf_token)],
    }
}

/// The update stage: install the toolchain if its directory is missing,
/// bring it up to date, rebuild it and install what its scripts depend on.
pub open spec fn update_llama_cpp_tasks(llama_path: Seq<char>, verbose: bool) -> Seq<TaskModel> {
    seq![
        TaskModel::SkipNextIfPresent { path: llama_path },
        TaskModel::Run { kind: StepKind::CloneRepo, step: clone_repo_step(llama_path) },
        TaskModel::Run { kind: StepKind::PullRepo, step: pull_repo_step(llama_path) },
        TaskModel::Run { kind: StepKind::CleanBuild, step: clean_build_step(llama_path) },
        TaskModel::Run { kind: StepKind::Build, step: build_step(llama_path) },
        TaskModel::Run { kind: StepKind::InstallDeps, step: install_deps_step(llama_path, verbose) },
    ]
}

/// The download stage: make the model's directory, then fetch the model
/// into it.
pub open spec fn download_model_tasks(
    model_id: Seq<char>,
    model_name: Seq<char>,
    verbose: bool,
) -> Seq<TaskModel> {
    seq![
        TaskModel::Run { kind: StepKind::MakeDir, step: make_dir_step(model_name) },
        TaskModel::Run {
            kind: StepKind::Download,
            step: download_step(model_id, model_name, verbose),
        },
    ]
}

/// The conversion stage: run the converter, then insist that its output
/// file is there.
pub open spec fn convert_fp_tasks(
    precision: Precision,
    llama_path: Seq<char>,
    output_path: Seq<char>,
    model_name: Seq<char>,
) -> Seq<TaskModel> {
    seq![
        TaskModel::Run {
            kind: StepKind::Convert,
            step: convert_step(precision, llama_path, output_path, model_name),
        },
        TaskModel::Require { path: output_path },
    ]
}

/// The importance-matrix stage: fetch the calibration text unless it is
/// already there, run the generator, then delete the calibration text.
pub open spec fn generate_imatrix_tasks(
    llama_path: Seq<char>,
    fp: Seq<char>,
    output_path: Seq<char>,
) -> Seq<TaskModel> {
    seq![
        TaskModel::SkipNextIfPresent { path: CALIBRATION_FILE@ },
        TaskModel::Fetch { url: CALIBRATION_URL@, dest: CALIBRATION_FILE@ },
        TaskModel::Run { kind: StepKind::Imatrix, step: imatrix_step(llama_path, fp, output_path) },
        TaskModel::Remove { path: CALIBRATION_FILE@ },
    ]
}

/// One quantization job: write the pending file, then give it its final name.
pub open spec fn quantize_tasks(
    q: QuantLevel,
    llama_path: Seq<char>,
    fp: Seq<char>,
    imatrix: Seq<char>,
    model_name: Seq<char>,
) -> Seq<TaskModel> {
    seq![
        TaskModel::Run {
            kind: StepKind::Quantize(q),
            step: quantize_step(q, llama_path, fp, imatrix, model_name),
        },
        TaskModel::Run { kind: StepKind::Rename(q), step: rename_step(q, model_name) },
    ]
}

fn clone_repo(llama_path: &str) -> (r: StepSpec)
    ensures
        r@ == clone_repo_step(llama_path@),
{
    let r = StepSpec::new(own("git")).arg(own("clone")).arg(own(LLAMA_REPO_URL)).arg(
        own(llama_path),
    );
    assert(r@ =~= clone_repo_step(llama_path@));
    r
}

fn pull_repo(llama_path: &str) -> (r: StepSpec)
    ensures
        r@ == pull_repo_step(llama_path@),
{
    let r = StepSpec::new(own("git")).arg(own("pull")).current_dir(own(llama_path));
    assert(r@ =~= pull_repo_step(llama_path@));
    r
}

fn clean_build(llama_path: &str) -> (r: StepSpec)
    ensures
        r@ == clean_build_step(llama_path@),
{
    let r = StepSpec::new(own("make")).arg(own("clean")).current_dir(own(llama_path));
    assert(r@ =~= clean_build_step(llama_path@));
    r
}

fn build(llama_path: &str) -> (r: StepSpec)
    ensures
        r@ == build_step(llama_path@),
{
    let r = StepSpec::new(own("make")).current_dir(own(llama_path));
    assert(r@ =~= build_step(llama_path@));
    r
}

fn install_deps(llama_path: &str, verbose: bool) -> (r: StepSpec)
    ensures
        r@ == install_deps_step(llama_path@, verbose),
{
    let chatter = if verbose {
        "-v"
    } else {
        "-q"
    };
    let r = StepSpec::new(own("pip3")).arg(own("install")).arg(own("-r")).arg(
        own("requirements.txt"),
    ).arg(own(chatter)).current_dir(own(llama_path));
    assert(r@ =~= install_deps_step(llama_path@, verbose));
    r
}

fn make_dir(model_name: &str) -> (r: StepSpec)
    ensures
        r@ == make_dir_step(model_name@),
{
    let r = StepSpec::new(own("mkdir")).arg(own("-p")).arg(own(model_name));
    assert(r@ =~= make_dir_step(model_name@));
    r
}

fn download(model_id: &str, model_name: &str, verbose: bool) -> (r: StepSpec)
    ensures
        r@ == download_step(model_id@, model_name@, verbose),
{
    let base = StepSpec::new(own("huggingface-cli")).arg(own("download")).arg(own(model_id)).arg(
        own("--local-dir"),
    ).arg(local_dir(model_name));
    let r = if verbose {
        base
    } else {
        base.arg(own("--quiet"))
    };
    assert(r@ =~= download_step(model_id@, model_name@, verbose));
    r
}

fn convert(precision: Precision, llama_path: &str, output_path: &str, model_name: &str) -> (r:
    StepSpec)
    ensures
        r@ == convert_step(precision, llama_path@, output_path@, model_name@),
{
    let script = join_path(llama_path, "convert_hf_to_gguf.py");
    let r = StepSpec::new(own("python3")).arg(script).arg(own(model_name)).arg(
        own("--outtype"),
    ).arg(own(precision.label())).arg(own("--outfile")).arg(own(output_path));
    assert(r@ =~= convert_step(precision, llama_path@, output_path@, model_name@));
    r
}

fn imatrix(llama_path: &str, fp: &str, output_path: &str) -> (r: StepSpec)
    ensures
        r@ == imatrix_step(llama_path@, fp@, output_path@),
{
    let tool = join_path(llama_path, "llama-imatrix");
    let r = StepSpec::new(tool).arg(own("-m")).arg(own(fp)).arg(own("-f")).arg(
        own(CALIBRATION_FILE),
    ).arg(own("-o")).arg(own(output_path)).arg(own("-t")).arg(own("7")).arg(own("-ngl")).arg(
        own("999"),
    ).arg(own("--chunks")).arg(own("2000"));
    assert(r@ =~= imatrix_step(llama_path@, fp@, output_path@));
    r
}

fn quantize_to_pending(
    q: QuantLevel,
    llama_path: &str,
    fp: &str,
    imatrix: &str,
    model_name: &str,
) -> (r: StepSpec)
    ensures
        r@ == quantize_step(q, llama_path@, fp@, imatrix@, model_name@),
{
    let tool = join_path(llama_path, "llama-quantize");
    let target = quant_path(model_name, q);
    let pending = pending_path(target.as_str());
    let base = StepSpec::new(tool);
    let weighted = if q.requires_imatrix() {
        base.arg(own("--imatrix")).arg(own(imatrix))
    } else {
        base
    };
    let r = weighted.arg(own(fp)).arg(pending).arg(own(q.label()));
    assert(r@ =~= quantize_step(q, llama_path@, fp@, imatrix@, model_name@));
    r
}

fn rename_pending(q: QuantLevel, model_name: &str) -> (r: StepSpec)
    ensures
        r@ == rename_step(q, model_name@),
{
    let target = quant_path(model_name, q);
    let pending = pending_path(target.as_str());
    let r = StepSpec::new(own("mv")).arg(pending).arg(target);
    assert(r@ =~= rename_step(q, model_name@));
    r
}

/// The tasks of the update stage, for a toolchain kept at `llama_path`.
pub fn update_llama_cpp(llama_path: &str, verbose: bool) -> (r: Vec<Task>)
    ensures
        r.deep_view() == update_llama_cpp_tasks(llama_path@, verbose),
{
    let mut tasks: Vec<Task> = Vec::new();
    tasks.push(Task::SkipNextIfPresent { path: own(llama_path) });
    tasks.push(Task::Run { kind: StepKind::CloneRepo, step: clone_repo(llama_path) });
    tasks.push(Task::Run { kind: StepKind::PullRepo, step: pull_repo(llama_path) });
    tasks.push(Task::Run { kind: StepKind::CleanBuild, step: clean_build(llama_path) });
    tasks.push(Task::Run { kind: StepKind::Build, step: build(llama_path) });
    tasks.push(Task::Run { kind: StepKind::InstallDeps, step: install_deps(llama_path, verbose) });
    assert(tasks.deep_view() =~= update_llama_cpp_tasks(llama_path@, verbose));
    tasks
}

/// The tasks of the download stage.
pub fn download_model(model_id: &str, model_name: &str, verbose: bool) -> (r: Vec<Task>)
    ensures
        r.deep_view() == download_model_tasks(model_id@, model_name@, verbose),
{
    let mut tasks: Vec<Task> = Vec::new();
    tasks.push(Task::Run { kind: StepKind::MakeDir, step: make_dir(model_name) });
    tasks.push(
        Task::Run { kind: StepKind::Download, step: download(model_id, model_name, verbose) },
    );
    assert(tasks.deep_view() =~= download_model_tasks(model_id@, model_name@, verbose));
    tasks
}

/// The tasks of the conversion stage, writing to `output_path`.
pub fn convert_fp(precision: Precision, llama_path: &str, output_path: &str, model_name: &str) -> (r:
    Vec<Task>)
    ensures
        r.deep_view() == convert_fp_tasks(precision, llama_path@, output_path@, model_name@),
{
    let mut tasks: Vec<Task> = Vec::new();
    tasks.push(
        Task::Run {
            kind: StepKind::Convert,
            step: convert(precision, llama_path, output_path, model_name),
        },
    );
    tasks.push(Task::Require { path: own(output_path) });
    assert(tasks.deep_view() =~= convert_fp_tasks(
        precision,
        llama_path@,
        output_path@,
        model_name@,
    ));
    tasks
}

/// The tasks of the importance-matrix stage, reading `fp` and writing to
/// `output_path`. The calibration text is deleted only after the generator
/// has succeeded; when it fails the file stays, and a later run finds it.
pub fn generate_imatrix(llama_path: &str, fp: &str, output_path: &str) -> (r: Vec<Task>)
    ensures
        r.deep_view() == generate_imatrix_tasks(llama_path@, fp@, output_path@),
{
    let mut tasks: Vec<Task> = Vec::new();
    tasks.push(Task::SkipNextIfPresent { path: own(CALIBRATION_FILE) });
    tasks.push(Task::Fetch { url: own(CALIBRATION_URL), dest: own(CALIBRATION_FILE) });
    tasks.push(Task::Run { kind: StepKind::Imatrix, step: imatrix(llama_path, fp, output_path) });
    tasks.push(Task::Remove { path: own(CALIBRATION_FILE) });
    assert(tasks.deep_view() =~= generate_imatrix_tasks(llama_path@, fp@, output_path@));
    tasks
}

/// The tasks of one quantization job.
pub fn quantize(q: QuantLevel, llama_path: &str, fp: &str, imatrix: &str, model_name: &str) -> (r:
    Vec<Task>)
    ensures
        r.deep_view() == quantize_tasks(q, llama_path@, fp@, imatrix@, model_name@),
{
    let mut tasks: Vec<Task> = Vec::new();
    tasks.push(
        Task::Run {
            kind: StepKind::Quantize(q),
            step: quantize_to_pending(q, llama_path, fp, imatrix, model_name),
        },
    );
    tasks.push(Task::Run { kind: StepKind::Rename(q), step: rename_pending(q, model_name) });
    assert(tasks.deep_view() =~= quantize_tasks(q, llama_path@, fp@, imatrix@, model_name@));
    tasks
}

/// The command of one publication run: it syncs every `.gguf` and
/// `.imatrix` file of the model's directory to the remote repository.
pub fn upload_ggufs_to_hf(hf_user: &str, hf_token: &str, model_name: &str) -> (r: StepSpec)
    ensures
        r@ == upload_step(hf_user@, hf_token@, model_name@),
{
    let r = StepSpec::new(own("huggingface-cli")).env(own("HF_USER"), own(hf_user)).env(
        own("HF_TOKEN"),
        own(hf_token),
    ).arg(own("upload")).arg(repo_id(hf_user, model_name)).arg(own(model_name)).arg(own(".")).arg(
        own("--include"),
    ).arg(own("*.gguf")).arg(own("*.imatrix"));
    assert(r@ =~= upload_step(hf_user@, hf_token@, model_name@));
    r
}

} // verus!
