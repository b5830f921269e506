//! One external step: what is run, how it can end, and the decisions of the
//! runner that races a child process against cancellation.
use vstd::prelude::*;
use crate::quant::QuantLevel;

verus! {

/// Which external step of the run a command belongs to.
#[derive(Clone, Copy, Debug, PartialEq, Eq, Structural)]
pub enum StepKind {
    CloneRepo,
    PullRepo,
    CleanBuild,
    Build,
    InstallDeps,
    MakeDir,
    Download,
    Convert,
    Imatrix,
    /// The quantizer, writing the pending file of a level.
    Quantize(QuantLevel),
    /// The rename that gives the file of a level its final name.
    Rename(QuantLevel),
    Upload,
}

impl StepKind {
    /// The external command behind a step of this kind, as failure messages
    /// name it.
    pub open spec fn name_of(self) -> Seq<char> {
        match self {
            StepKind::CloneRepo => "git clone"@,
            StepKind::PullRepo => "git pull"@,
            StepKind::CleanBuild => "make clean"@,
            StepKind::Build => "make"@,
            StepKind::InstallDeps => "pip3 install"@,
            StepKind::MakeDir => "mkdir"@,
            StepKind::Download => "huggingface-cli download"@,
            StepKind::Convert => "convert_hf_to_gguf.py"@,
            StepKind::Imatrix => "llama-imatrix"@,
            StepKind::Quantize(_) => "llama-quantize"@,
            StepKind::Rename(_) => "mv"@,
            StepKind::Upload => "huggingface-cli upload"@,
        }
    }

    /// The external command behind a step of this kind.
    pub fn name(&self) -> (r: &'static str)
        ensures
            r@ == self.name_of(),
    {
        match self {
            StepKind::CloneRepo => "git clone",
            StepKind::PullRepo => "git pull",
            StepKind::CleanBuild => "make clean",
            StepKind::Build => "make",
            StepKind::InstallDeps => "pip3 install",
            StepKind::MakeDir => "mkdir",
            StepKind::Download => "huggingface-cli download",
            StepKind::Convert => "convert_hf_to_gguf.py",
            StepKind::Imatrix => "llama-imatrix",
            StepKind::Quantize(_) => "llama-quantize",
            StepKind::Rename(_) => "mv",
            StepKind::Upload => "huggingface-cli upload",
        }
    }

    /// The message that reports an interrupt during a step of this kind.
    pub open spec fn cancel_message_of(self) -> Seq<char> {
        match self {
            StepKind::CloneRepo => "Llama.cpp installation process cancelled"@,
            StepKind::PullRepo => "Llama.cpp update process cancelled"@,
            StepKind::CleanBuild => "Llama.cpp build clean process cancelled"@,
            StepKind::Build => "Llama.cpp build process cancelled"@,
            StepKind::InstallDeps => "Llama.cpp build process cancelled"@,
            StepKind::MakeDir => "Download process killed due to interrupt"@,
            StepKind::Download => "Download process killed due to interrupt"@,
            StepKind::Convert => "Conversion process killed due to interrupt"@,
            StepKind::Imatrix => "imatrix generation process killed due to interrupt"@,
            StepKind::Quantize(_) => "Quantization process killed due to interrupt"@,
            StepKind::Rename(_) => "Quantized file rename process killed due to interrupt"@,
            StepKind::Upload => "Upload process killed due to interrupt"@,
        }
    }

    /// The message that reports an interrupt during a step of this kind.
    pub fn cancel_message(&self) -> (r: &'static str)
        ensures
            r@ == self.cancel_message_of(),
    {
        match self {
            StepKind::CloneRepo => "Llama.cpp installation process cancelled",
            StepKind::PullRepo => "Llama.cpp update process cancelled",
            StepKind::CleanBuild => "Llama.cpp build clean process cancelled",
            StepKind::Build => "Llama.cpp build process cancelled",
            StepKind::InstallDeps => "Llama.cpp build process cancelled",
            StepKind::MakeDir => "Download process killed due to interrupt",
            StepKind::Download => "Download process killed due to interrupt",
            StepKind::Convert => "Conversion process killed due to interrupt",
            StepKind::Imatrix => "imatrix generation process killed due to interrupt",
            StepKind::Quantize(_) => "Quantization process killed due to interrupt",
            StepKind::Rename(_) => "Quantized file rename process killed due to interrupt",
            StepKind::Upload => "Upload process killed due to interrupt",
        }
    }
}

/// The mathematical content of a [`StepSpec`].
#[verifier::ext_equal]
pub struct StepModel {
    pub program: Seq<char>,
    pub args: Seq<Seq<char>>,
    pub cwd: Option<Seq<char>>,
    pub env: Seq<(Seq<char>, Seq<char>)>,
}

impl StepModel {
    /// A command with no arguments, run where the caller stands.
    pub open spec fn bare(program: Seq<char>) -> StepModel {
        StepModel { program, args: Seq::empty(), cwd: None, env: Seq::empty() }
    }

    pub open spec fn with_arg(self, arg: Seq<char>) -> StepModel {
        StepModel { args: self.args.push(arg), ..self }
    }

    pub open spec fn in_dir(self, dir: Seq<char>) -> StepModel {
        StepModel { cwd: Some(dir), ..self }
    }

    pub open spec fn with_env(self, key: Seq<char>, value: Seq<char>) -> StepModel {
        StepModel { env: self.env.push((key, value)), ..self }
    }
}

/// An external command: program, arguments in order, an optional working
/// directory and environment overrides in order. A value is built once and
/// only read afterwards.
#[derive(Debug)]
pub struct StepSpec {
    program: String,
    args: Vec<String>,
    cwd: Option<String>,
    env: Vec<(String, String)>,
}

impl View for StepSpec {
    type V = StepModel;

    closed spec fn view(&self) -> StepModel {
        StepModel {
            program: self.program@,
            args: self.args.deep_view(),
            cwd: self.cwd.deep_view(),
            env: self.env.deep_view(),
        }
    }
}

impl DeepView for StepSpec {
    type V = StepModel;

    open spec fn deep_view(&self) -> StepModel {
        self@
    }
}

impl StepSpec {
    /// A command with no arguments, run where the caller stands.
    pub fn new(program: String) -> (r: StepSpec)
        ensures
            r@ == StepModel::bare(program@),
    {
        let r = StepSpec { program, args: Vec::new(), cwd: None, env: Vec::new() };
        assert(r.args.deep_view() =~= Seq::empty());
        assert(r.env.deep_view() =~= Seq::empty());
        r
    }

    /// The same command with one more argument at the end.
    pub fn arg(self, arg: String) -> (r: StepSpec)
        ensures
            r@ == self@.with_arg(arg@),
    {
        let mut args = self.args;
        let ghost before = args.deep_view();
        args.push(arg);
        assert(args.deep_view() =~= before.push(arg@));
        StepSpec { program: self.program, args, cwd: self.cwd, env: self.env }
    }

    /// The same command, run inside `dir`.
    pub fn current_dir(self, dir: String) -> (r: StepSpec)
        ensures
            r@ == self@.in_dir(dir@),
    {
        StepSpec { program: self.program, args: self.args, cwd: Some(dir), env: self.env }
    }

    /// The same command with one more environment override at the end.
    pub fn env(self, key: String, value: String) -> (r: StepSpec)
        ensures
            r@ == self@.with_env(key@, value@),
    {
        let mut env = self.env;
        let ghost before = env.deep_view();
        env.push((key, value));
        assert(env.deep_view() =~= before.push((key@, value@)));
        StepSpec { program: self.program, args: self.args, cwd: self.cwd, env }
    }

    /// The program to run.
    pub fn program(&self) -> (r: &str)
        ensures
            r@ == self@.program,
    {
        self.program.as_str()
    }

    /// The arguments, in order.
    pub fn args(&self) -> (r: &Vec<String>)
        ensures
            r.deep_view() == self@.args,
    {
        &self.args
    }

    /// The working directory, if the command is not run where the caller stands.
    pub fn cwd(&self) -> (r: &Option<String>)
        ensures
            r.deep_view() == self@.cwd,
    {
        &self.cwd
    }

    /// The environment overrides, in order.
    pub fn envs(&self) -> (r: &Vec<(String, String)>)
        ensures
            r.deep_view() == self@.env,
    {
        &self.env
    }
}

} // verus!
