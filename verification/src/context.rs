//! What a run is asked to do, and the context it is resolved to before the
//! first stage starts.
use vstd::prelude::*;
use crate::paths::{full_precision_path, full_precision_path_of, imatrix_path, imatrix_path_of};
use crate::quant::{any_needs_imatrix, any_requires_imatrix, Precision, QuantLevel};
use crate::text::{expand_tilde, model_name, model_name_of, tilde_outcome};

verus! {

/// The mathematical content of [`Settings`].
pub struct SettingsModel {
    pub model_id: Seq<char>,
    pub quants: Seq<QuantLevel>,
    pub verbose: bool,
    pub full_precision: Precision,
    pub fp: Option<Seq<char>>,
    pub imatrix: Option<Seq<char>>,
    pub skip_download: bool,
    pub skip_upload: bool,
    pub only_upload: bool,
    pub update_llama: bool,
    pub llama_path: Seq<char>,
    pub hf_token: Option<Seq<char>>,
    pub hf_user: Option<Seq<char>>,
}

/// What the user asked for.
#[derive(Debug)]
pub struct Settings {
    /// The identifier of the model on the hub, `owner/name`.
    pub model_id: String,
    /// The quantization levels to produce, in the order to produce them.
    pub quants: Vec<QuantLevel>,
    /// Whether the external tools may talk.
    pub verbose: bool,
    /// The format to convert to and to quantize from.
    pub full_precision: Precision,
    /// A full-precision file to use instead of downloading and converting.
    pub fp: Option<String>,
    /// An importance matrix to use instead of generating one.
    pub imatrix: Option<String>,
    /// Leave out the download.
    pub skip_download: bool,
    /// Publish nothing.
    pub skip_upload: bool,
    /// Publish what is already in the model's directory and do nothing else.
    pub only_upload: bool,
    /// Install or update the toolchain first.
    pub update_llama: bool,
    /// Where the toolchain lives; a leading `~` stands for the home directory.
    pub llama_path: String,
    /// The hub token, if given on the command line.
    pub hf_token: Option<String>,
    /// The hub user, if given on the command line.
    pub hf_user: Option<String>,
}

impl View for Settings {
    type V = SettingsModel;

    open spec fn view(&self) -> SettingsModel {
        SettingsModel {
            model_id: self.model_id@,
            quants: self.quants@,
            verbose: self.verbose,
            full_precision: self.full_precision,
            fp: self.fp.deep_view(),
            imatrix: self.imatrix.deep_view(),
            skip_download: self.skip_download,
            skip_upload: self.skip_upload,
            only_upload: self.only_upload,
            update_llama: self.update_llama,
            llama_path: self.llama_path@,
            hf_token: self.hf_token.deep_view(),
            hf_user: self.hf_user.deep_view(),
        }
    }
}

/// The mathematical content of a [`PipelineContext`].
pub struct ContextModel {
    pub model_id: Seq<char>,
    pub model_name: Seq<char>,
    pub precision: Precision,
    pub quants: Seq<QuantLevel>,
    pub llama_path: Seq<char>,
    pub fp_path: Seq<char>,
    pub fp_supplied: bool,
    pub imatrix_path: Seq<char>,
    pub imatrix_supplied: bool,
    pub hf_user: Seq<char>,
    pub hf_token: Seq<char>,
    pub verbose: bool,
    pub skip_download: bool,
    pub skip_upload: bool,
    pub only_upload: bool,
    pub update_llama: bool,
}

impl ContextModel {
    /// The toolchain is installed or updated only on request.
    pub open spec fn runs_update(self) -> bool {
        self.update_llama
    }

    /// The model is downloaded unless that was declined, a full-precision
    /// file was supplied, or the run only publishes.
    pub open spec fn runs_download(self) -> bool {
        !(self.skip_download || self.fp_supplied || self.only_upload)
    }

    /// The model is converted unless a full-precision file was supplied or
    /// the run only publishes.
    pub open spec fn runs_convert(self) -> bool {
        !(self.fp_supplied || self.only_upload)
    }

    /// An importance matrix is generated when some requested level needs
    /// one and none was supplied, unless the run only publishes.
    pub open spec fn runs_imatrix(self) -> bool {
        !self.only_upload && !self.imatrix_supplied && any_needs_imatrix(self.quants)
    }

    /// The levels are quantized unless the run only publishes.
    pub open spec fn runs_quantize(self) -> bool {
        !self.only_upload
    }

    /// Artifacts are published unless that was declined.
    pub open spec fn publishes(self) -> bool {
        !self.skip_upload
    }
}

/// A credential: the value from the command line, else the one from the
/// environment, else nothing.
pub open spec fn credential_of(flag: Option<Seq<char>>, env: Option<Seq<char>>) -> Seq<char> {
    match flag {
        Some(value) => value,
        None => match env {
            Some(value) => value,
            None => Seq::empty(),
        },
    }
}

/// The context that the settings resolve to, given the toolchain directory
/// and the supplied files with their `~` already expanded.
pub open spec fn assembled(
    settings: SettingsModel,
    llama_path: Seq<char>,
    fp: Option<Seq<char>>,
    imatrix: Option<Seq<char>>,
    env_user: Option<Seq<char>>,
    env_token: Option<Seq<char>>,
) -> ContextModel {
    let name = model_name_of(settings.model_id);
    ContextModel {
        model_id: settings.model_id,
        model_name: name,
        precision: settings.full_precision,
        quants: settings.quants,
        llama_path,
        fp_path: match fp {
            Some(path) => path,
            None => full_precision_path_of(name, settings.full_precision),
        },
        fp_supplied: fp is Some,
        imatrix_path: match imatrix {
            Some(path) => path,
            None => imatrix_path_of(name),
        },
        imatrix_supplied: imatrix is Some,
        hf_user: credential_of(settings.hf_user, env_user),
        hf_token: credential_of(settings.hf_token, env_token),
        verbose: settings.verbose,
        skip_download: settings.skip_download,
        skip_upload: settings.skip_upload,
        only_upload: settings.only_upload,
        update_llama: settings.update_llama,
    }
}

/// Everything the stages of one run read. It is built once and not changed.
#[derive(Debug)]
pub struct PipelineContext {
    model_id: String,
    model_name: String,
    precision: Precision,
    quants: Vec<QuantLevel>,
    llama_path: String,
    fp_path: String,
    fp_supplied: bool,
    imatrix_path: String,
    imatrix_supplied: bool,
    hf_user: String,
    hf_token: String,
    verbose: bool,
    skip_download: bool,
    skip_upload: bool,
    only_upload: bool,
    update_llama: bool,
}

impl View for PipelineContext {
    type V = ContextModel;

    closed spec fn view(&self) -> ContextModel {
        ContextModel {
            model_id: self.model_id@,
            model_name: self.model_name@,
            precision: self.precision,
            quants: self.quants@,
            llama_path: self.llama_path@,
            fp_path: self.fp_path@,
            fp_supplied: self.fp_supplied,
            imatrix_path: self.imatrix_path@,
            imatrix_supplied: self.imatrix_supplied,
            hf_user: self.hf_user@,
            hf_token: self.hf_token@,
            verbose: self.verbose,
            skip_download: self.skip_download,
            skip_upload: self.skip_upload,
            only_upload: self.only_upload,
            update_llama: self.update_llama,
        }
    }
}

/// Picks a credential: the command line wins over the environment.
pub fn credential(flag: Option<String>, env: Option<String>) -> (r: String)
    ensures
        r@ == credential_of(flag.deep_view(), env.deep_view()),
{
    match flag {
        Some(value) => value,
        None => match env {
            Some(value) => value,
            None => String::new(),
        },
    }
}

fn expand_optional(path: &Option<String>) -> (r: Option<String>)
    ensures
        match path {
            Some(given) => r matches Some(expanded) && tilde_outcome(given@, expanded@),
            None => r is None,
        },
{
    match path {
        Some(given) => Some(expand_tilde(given.as_str())),
        None => None,
    }
}

impl PipelineContext {
    /// Builds the context from the settings and from paths whose `~` has
    /// been expanded already: the toolchain directory, and the
    /// full-precision file and the importance matrix where the user
    /// supplied them. `env_user` and `env_token` are the credentials found
    /// in the environment.
    pub fn assemble(
        settings: Settings,
        llama_path: String,
        fp: Option<String>,
        imatrix: Option<String>,
        env_user: Option<String>,
        env_token: Option<String>,
    ) -> (r: PipelineContext)
        ensures
            r@ == assembled(
                settings@,
                llama_path@,
                fp.deep_view(),
                imatrix.deep_view(),
                env_user.deep_view(),
                env_token.deep_view(),
            ),
    {
        let name = model_name(settings.model_id.as_str());
        let fp_supplied = fp.is_some();
        let fp_path = match fp {
            Some(path) => path,
            None => full_precision_path(name.as_str(), settings.full_precision),
        };
        let imatrix_supplied = imatrix.is_some();
        let imatrix_path = match imatrix {
            Some(path) => path,
            None => imatrix_path(name.as_str()),
        };
        PipelineContext {
            model_id: settings.model_id,
            model_name: name,
            precision: settings.full_precision,
            quants: settings.quants,
            llama_path,
            fp_path,
            fp_supplied,
            imatrix_path,
            imatrix_supplied,
            hf_user: credential(settings.hf_user, env_user),
            hf_token: credential(settings.hf_token, env_token),
            verbose: settings.verbose,
            skip_download: settings.skip_download,
            skip_upload: settings.skip_upload,
            only_upload: settings.only_upload,
            update_llama: settings.update_llama,
        }
    }

    /// Builds the context from the settings as the user gave them. A
    /// leading `~` in the toolchain directory, the supplied full-precision
    /// file and the supplied importance matrix is expanded; what it expands
    /// to depends on the environment of the process, so the three paths are
    /// described by `tilde_outcome` and everything else is exact.
    pub fn resolve(settings: Settings, env_user: Option<String>, env_token: Option<String>) -> (r:
        PipelineContext)
        ensures
            tilde_outcome(settings@.llama_path, r@.llama_path),
            match settings@.fp {
                Some(given) => r@.fp_supplied && tilde_outcome(given, r@.fp_path),
                None => !r@.fp_supplied,
            },
            match settings@.imatrix {
                Some(given) => r@.imatrix_supplied && tilde_outcome(given, r@.imatrix_path),
                None => !r@.imatrix_supplied,
            },
            r@ == assembled(
                settings@,
                r@.llama_path,
                if r@.fp_supplied {
                    Some(r@.fp_path)
                } else {
                    None
                },
                if r@.imatrix_supplied {
                    Some(r@.imatrix_path)
                } else {
                    None
                },
                env_user.deep_view(),
                env_token.deep_view(),
            ),
    {
        let llama_path = expand_tilde(settings.llama_path.as_str());
        let fp = expand_optional(&settings.fp);
        let imatrix = expand_optional(&settings.imatrix);
        PipelineContext::assemble(settings, llama_path, fp, imatrix, env_user, env_token)
    }

    /// Whether the update stage is part of the run.
    pub fn runs_update(&self) -> (r: bool)
        ensures
            r == self@.runs_update(),
    {
        self.update_llama
    }

    /// Whether the download stage is part of the run.
    pub fn runs_download(&self) -> (r: bool)
        ensures
            r == self@.runs_download(),
    {
        !(self.skip_download || self.fp_supplied || self.only_upload)
    }

    /// Whether the conversion stage is part of the run.
    pub fn runs_convert(&self) -> (r: bool)
        ensures
            r == self@.runs_convert(),
    {
        !(self.fp_supplied || self.only_upload)
    }

    /// Whether the importance-matrix stage is part of the run.
    pub fn runs_imatrix(&self) -> (r: bool)
        ensures
            r == self@.runs_imatrix(),
    {
        !self.only_upload && !self.imatrix_supplied && any_requires_imatrix(&self.quants)
    }

    /// Whether the quantization jobs are part of the run.
    pub fn runs_quantize(&self) -> (r: bool)
        ensures
            r == self@.runs_quantize(),
    {
        !self.only_upload
    }

    /// Whether the run publishes what it produces.
    pub fn publishes(&self) -> (r: bool)
        ensures
            r == self@.publishes(),
    {
        !self.skip_upload
    }

    /// The identifier of the model on the hub.
    pub fn model_id(&self) -> (r: &str)
        ensures
            r@ == self@.model_id,
    {
        self.model_id.as_str()
    }

    /// The full-precision format.
    pub fn precision(&self) -> (r: Precision)
        ensures
            r == self@.precision,
    {
        self.precision
    }

    /// The requested levels, in the order requested.
    pub fn quants(&self) -> (r: &Vec<QuantLevel>)
        ensures
            r@ == self@.quants,
    {
        &self.quants
    }

    /// The short name of the model, which is also the name of its directory.
    pub fn model_name(&self) -> (r: &str)
        ensures
            r@ == self@.model_name,
    {
        self.model_name.as_str()
    }

    /// The toolchain directory.
    pub fn llama_path(&self) -> (r: &str)
        ensures
            r@ == self@.llama_path,
    {
        self.llama_path.as_str()
    }

    /// The full-precision file that the quantizer reads.
    pub fn fp_path(&self) -> (r: &str)
        ensures
            r@ == self@.fp_path,
    {
        self.fp_path.as_str()
    }

    /// The importance matrix that the quantizer reads where a level needs one.
    pub fn imatrix_path(&self) -> (r: &str)
        ensures
            r@ == self@.imatrix_path,
    {
        self.imatrix_path.as_str()
    }

    /// The hub user that owns the remote repository.
    pub fn hf_user(&self) -> (r: &str)
        ensures
            r@ == self@.hf_user,
    {
        self.hf_user.as_str()
    }

    /// The hub token.
    pub fn hf_token(&self) -> (r: &str)
        ensures
            r@ == self@.hf_token,
    {
        self.hf_token.as_str()
    }

    /// Whether the run is verbose.
    pub fn verbose(&self) -> (r: bool)
        ensures
            r == self@.verbose,
    {
        self.verbose
    }
}

} // verus!
