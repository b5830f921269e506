//! Quantization levels and full-precision formats, with the labels the
//! external tools know them by.
use vstd::prelude::*;
use crate::text::{catenate, same_text, to_lower, lowercase_of};

verus! {

/// The format of the unquantized GGUF file that every quantization reads.
#[derive(Clone, Copy, Debug, PartialEq, Eq, Structural)]
pub enum Precision {
    F16,
    BF16,
    F32,
}

impl Precision {
    /// The label the converter takes after `--outtype`, and the middle part
    /// of the full-precision file name.
    pub open spec fn label_of(self) -> Seq<char> {
        match self {
            Precision::F16 => "f16"@,
            Precision::BF16 => "bf16"@,
            Precision::F32 => "f32"@,
        }
    }

    /// The label in upper case, as progress messages show it.
    pub open spec fn banner_of(self) -> Seq<char> {
        match self {
            Precision::F16 => "F16"@,
            Precision::BF16 => "BF16"@,
            Precision::F32 => "F32"@,
        }
    }

    /// The label of the format in lower case.
    pub fn label(&self) -> (r: &'static str)
        ensures
            r@ == self.label_of(),
    {
        match self {
            Precision::F16 => "f16",
            Precision::BF16 => "bf16",
            Precision::F32 => "f32",
        }
    }

    /// The label of the format in upper case.
    pub fn banner(&self) -> (r: &'static str)
        ensures
            r@ == self.banner_of(),
    {
        match self {
            Precision::F16 => "F16",
            Precision::BF16 => "BF16",
            Precision::F32 => "F32",
        }
    }
}

/// A quantization scheme of the quantizer.
#[allow(non_camel_case_types)]
#[derive(Clone, Copy, Debug, PartialEq, Eq, Structural)]
pub enum QuantLevel {
    Q2K,
    Q3KS,
    Q3KM,
    Q3KL,
    Q4_0,
    Q4_1,
    Q4KS,
    Q4KM,
    Q5_0,
    Q5_1,
    Q5KS,
    Q5KM,
    Q6K,
    Q8_0,
    BF16,
    IQ1S,
    IQ1M,
    IQ2XXS,
    IQ2XS,
    IQ2S,
    IQ2M,
    Q2KS,
    IQ3XXS,
    IQ3XS,
    IQ3S,
    IQ3M,
    IQ4XS,
    IQ4NL,
}

impl QuantLevel {
    /// The lower-case tag that is passed to the quantizer and accepted on input.
    pub open spec fn label_of(self) -> Seq<char> {
        match self {
            QuantLevel::Q2K => "q2_k"@,
            QuantLevel::Q3KS => "q3_k_s"@,
            QuantLevel::Q3KM => "q3_k_m"@,
            QuantLevel::Q3KL => "q3_k_l"@,
            QuantLevel::Q4_0 => "q4_0"@,
            QuantLevel::Q4_1 => "q4_1"@,
            QuantLevel::Q4KS => "q4_k_s"@,
            QuantLevel::Q4KM => "q4_k_m"@,
            QuantLevel::Q5_0 => "q5_0"@,
            QuantLevel::Q5_1 => "q5_1"@,
            QuantLevel::Q5KS => "q5_k_s"@,
            QuantLevel::Q5KM => "q5_k_m"@,
            QuantLevel::Q6K => "q6_k"@,
            QuantLevel::Q8_0 => "q8_0"@,
            QuantLevel::BF16 => "bf16"@,
            QuantLevel::IQ1S => "iq1_s"@,
            QuantLevel::IQ1M => "iq1_m"@,
            QuantLevel::IQ2XXS => "iq2_xxs"@,
            QuantLevel::IQ2XS => "iq2_xs"@,
            QuantLevel::IQ2S => "iq2_s"@,
            QuantLevel::IQ2M => "iq2_m"@,
            QuantLevel::Q2KS => "q2_k_s"@,
            QuantLevel::IQ3XXS => "iq3_xxs"@,
            QuantLevel::IQ3XS => "iq3_xs"@,
            QuantLevel::IQ3S => "iq3_s"@,
            QuantLevel::IQ3M => "iq3_m"@,
            QuantLevel::IQ4XS => "iq4_xs"@,
            QuantLevel::IQ4NL => "iq4_nl"@,
        }
    }

    /// The upper-case tag that appears in the name of the quantized file.
    pub open spec fn file_tag_of(self) -> Seq<char> {
        match self {
            QuantLevel::Q2K => "Q2_K"@,
            QuantLevel::Q3KS => "Q3_K_S"@,
            QuantLevel::Q3KM => "Q3_K_M"@,
            QuantLevel::Q3KL => "Q3_K_L"@,
            QuantLevel::Q4_0 => "Q4_0"@,
            QuantLevel::Q4_1 => "Q4_1"@,
            QuantLevel::Q4KS => "Q4_K_S"@,
            QuantLevel::Q4KM => "Q4_K_M"@,
            QuantLevel::Q5_0 => "Q5_0"@,
            QuantLevel::Q5_1 => "Q5_1"@,
            QuantLevel::Q5KS => "Q5_K_S"@,
            QuantLevel::Q5KM => "Q5_K_M"@,
            QuantLevel::Q6K => "Q6_K"@,
            QuantLevel::Q8_0 => "Q8_0"@,
            QuantLevel::BF16 => "BF16"@,
            QuantLevel::IQ1S => "IQ1_S"@,
            QuantLevel::IQ1M => "IQ1_M"@,
            QuantLevel::IQ2XXS => "IQ2_XXS"@,
            QuantLevel::IQ2XS => "IQ2_XS"@,
            QuantLevel::IQ2S => "IQ2_S"@,
            QuantLevel::IQ2M => "IQ2_M"@,
            QuantLevel::Q2KS => "Q2_K_S"@,
            QuantLevel::IQ3XXS => "IQ3_XXS"@,
            QuantLevel::IQ3XS => "IQ3_XS"@,
            QuantLevel::IQ3S => "IQ3_S"@,
            QuantLevel::IQ3M => "IQ3_M"@,
            QuantLevel::IQ4XS => "IQ4_XS"@,
            QuantLevel::IQ4NL => "IQ4_NL"@,
        }
    }

    /// Whether the quantizer needs an importance matrix for this level.
    pub open spec fn needs_imatrix(self) -> bool {
        self == QuantLevel::IQ1S
        || self == QuantLevel::IQ1M
        || self == QuantLevel::IQ2XXS
        || self == QuantLevel::IQ2XS
        || self == QuantLevel::IQ2S
        || self == QuantLevel::IQ2M
        || self == QuantLevel::Q2KS
        || self == QuantLevel::IQ3XXS
        || self == QuantLevel::IQ3XS
        || self == QuantLevel::IQ3S
        || self == QuantLevel::IQ3M
        || self == QuantLevel::IQ4XS
        || self == QuantLevel::IQ4NL
    }

    /// The tag of the level as the quantizer takes it.
    pub fn label(&self) -> (r: &'static str)
        ensures
            r@ == self.label_of(),
    {
        match self {
            QuantLevel::Q2K => "q2_k",
            QuantLevel::Q3KS => "q3_k_s",
            QuantLevel::Q3KM => "q3_k_m",
            QuantLevel::Q3KL => "q3_k_l",
            QuantLevel::Q4_0 => "q4_0",
            QuantLevel::Q4_1 => "q4_1",
            QuantLevel::Q4KS => "q4_k_s",
            QuantLevel::Q4KM => "q4_k_m",
            QuantLevel::Q5_0 => "q5_0",
            QuantLevel::Q5_1 => "q5_1",
            QuantLevel::Q5KS => "q5_k_s",
            QuantLevel::Q5KM => "q5_k_m",
            QuantLevel::Q6K => "q6_k",
            QuantLevel::Q8_0 => "q8_0",
            QuantLevel::BF16 => "bf16",
            QuantLevel::IQ1S => "iq1_s",
            QuantLevel::IQ1M => "iq1_m",
            QuantLevel::IQ2XXS => "iq2_xxs",
            QuantLevel::IQ2XS => "iq2_xs",
            QuantLevel::IQ2S => "iq2_s",
            QuantLevel::IQ2M => "iq2_m",
            QuantLevel::Q2KS => "q2_k_s",
            QuantLevel::IQ3XXS => "iq3_xxs",
            QuantLevel::IQ3XS => "iq3_xs",
            QuantLevel::IQ3S => "iq3_s",
            QuantLevel::IQ3M => "iq3_m",
            QuantLevel::IQ4XS => "iq4_xs",
            QuantLevel::IQ4NL => "iq4_nl",
        }
    }

    /// The tag of the level as it stands in file names.
    pub fn file_tag(&self) -> (r: &'static str)
        ensures
            r@ == self.file_tag_of(),
    {
        match self {
            QuantLevel::Q2K => "Q2_K",
            QuantLevel::Q3KS => "Q3_K_S",
            QuantLevel::Q3KM => "Q3_K_M",
            QuantLevel::Q3KL => "Q3_K_L",
            QuantLevel::Q4_0 => "Q4_0",
            QuantLevel::Q4_1 => "Q4_1",
            QuantLevel::Q4KS => "Q4_K_S",
            QuantLevel::Q4KM => "Q4_K_M",
            QuantLevel::Q5_0 => "Q5_0",
            QuantLevel::Q5_1 => "Q5_1",
            QuantLevel::Q5KS => "Q5_K_S",
            QuantLevel::Q5KM => "Q5_K_M",
            QuantLevel::Q6K => "Q6_K",
            QuantLevel::Q8_0 => "Q8_0",
            QuantLevel::BF16 => "BF16",
            QuantLevel::IQ1S => "IQ1_S",
            QuantLevel::IQ1M => "IQ1_M",
            QuantLevel::IQ2XXS => "IQ2_XXS",
            QuantLevel::IQ2XS => "IQ2_XS",
            QuantLevel::IQ2S => "IQ2_S",
            QuantLevel::IQ2M => "IQ2_M",
            QuantLevel::Q2KS => "Q2_K_S",
            QuantLevel::IQ3XXS => "IQ3_XXS",
            QuantLevel::IQ3XS => "IQ3_XS",
            QuantLevel::IQ3S => "IQ3_S",
            QuantLevel::IQ3M => "IQ3_M",
            QuantLevel::IQ4XS => "IQ4_XS",
            QuantLevel::IQ4NL => "IQ4_NL",
        }
    }

    /// Whether the quantizer needs an importance matrix for this level.
    pub fn requires_imatrix(&self) -> (r: bool)
        ensures
            r == self.needs_imatrix(),
    {
        match self {
            QuantLevel::IQ1S
            | QuantLevel::IQ1M
            | QuantLevel::IQ2XXS
            | QuantLevel::IQ2XS
            | QuantLevel::IQ2S
            | QuantLevel::IQ2M
            | QuantLevel::Q2KS
            | QuantLevel::IQ3XXS
            | QuantLevel::IQ3XS
            | QuantLevel::IQ3S
            | QuantLevel::IQ3M
            | QuantLevel::IQ4XS
            | QuantLevel::IQ4NL => true,
            _ => false,
        }
    }

    /// Finds the level with exactly this label. Labels are lower case; no
    /// other spelling matches.
    pub fn from_label(label: &str) -> (r: Option<QuantLevel>)
        ensures
            match r {
                Some(q) => q.label_of() == label@,
                None => forall|q: QuantLevel| q.label_of() != label@,
            },
    {
        if same_text(label, "q2_k") {
            Some(QuantLevel::Q2K)
        } else if same_text(label, "q3_k_s") {
            Some(QuantLevel::Q3KS)
        } else if same_text(label, "q3_k_m") {
            Some(QuantLevel::Q3KM)
        } else if same_text(label, "q3_k_l") {
            Some(QuantLevel::Q3KL)
        } else if same_text(label, "q4_0") {
            Some(QuantLevel::Q4_0)
        } else if same_text(label, "q4_1") {
            Some(QuantLevel::Q4_1)
        } else if same_text(label, "q4_k_s") {
            Some(QuantLevel::Q4KS)
        } else if same_text(label, "q4_k_m") {
            Some(QuantLevel::Q4KM)
        } else if same_text(label, "q5_0") {
            Some(QuantLevel::Q5_0)
        } else if same_text(label, "q5_1") {
            Some(QuantLevel::Q5_1)
        } else if same_text(label, "q5_k_s") {
            Some(QuantLevel::Q5KS)
        } else if same_text(label, "q5_k_m") {
            Some(QuantLevel::Q5KM)
        } else if same_text(label, "q6_k") {
            Some(QuantLevel::Q6K)
        } else if same_text(label, "q8_0") {
            Some(QuantLevel::Q8_0)
        } else if same_text(label, "bf16") {
            Some(QuantLevel::BF16)
        } else if same_text(label, "iq1_s") {
            Some(QuantLevel::IQ1S)
        } else if same_text(label, "iq1_m") {
            Some(QuantLevel::IQ1M)
        } else if same_text(label, "iq2_xxs") {
            Some(QuantLevel::IQ2XXS)
        } else if same_text(label, "iq2_xs") {
            Some(QuantLevel::IQ2XS)
        } else if same_text(label, "iq2_s") {
            Some(QuantLevel::IQ2S)
        } else if same_text(label, "iq2_m") {
            Some(QuantLevel::IQ2M)
        } else if same_text(label, "q2_k_s") {
            Some(QuantLevel::Q2KS)
        } else if same_text(label, "iq3_xxs") {
            Some(QuantLevel::IQ3XXS)
        } else if same_text(label, "iq3_xs") {
            Some(QuantLevel::IQ3XS)
        } else if same_text(label, "iq3_s") {
            Some(QuantLevel::IQ3S)
        } else if same_text(label, "iq3_m") {
            Some(QuantLevel::IQ3M)
        } else if same_text(label, "iq4_xs") {
            Some(QuantLevel::IQ4XS)
        } else if same_text(label, "iq4_nl") {
            Some(QuantLevel::IQ4NL)
        } else {
            None
        }
    }

    /// Reads a level from user input, ignoring case. The error is the
    /// message shown to the user and quotes the input as it was given.
    pub fn from_str(s: &str) -> (r: Result<QuantLevel, String>)
        ensures
            match r {
                Ok(q) => q.label_of() == lowercase_of(s@),
                Err(msg) => {
                    &&& forall|q: QuantLevel| q.label_of() != lowercase_of(s@)
                    &&& msg@ == invalid_level_message(s@)
                },
            },
    {
        let lowered = to_lower(s);
        match QuantLevel::from_label(lowered.as_str()) {
            Some(q) => Ok(q),
            None => {
                let quoted = catenate("'", s);
                Err(catenate(quoted.as_str(), "' is not a valid quant level"))
            },
        }
    }
}

/// What the user is told when `input` names no quantization level.
pub open spec fn invalid_level_message(input: Seq<char>) -> Seq<char> {
    "'"@ + input + "' is not a valid quant level"@
}

/// Whether any of the requested levels needs an importance matrix.
pub open spec fn any_needs_imatrix(quants: Seq<QuantLevel>) -> bool {
    exists|i: int| 0 <= i < quants.len() && (#[trigger] quants[i]).needs_imatrix()
}

/// Whether any of the requested levels needs an importance matrix.
pub fn any_requires_imatrix(quants: &Vec<QuantLevel>) -> (r: bool)
    ensures
        r == any_needs_imatrix(quants@),
{
    let mut i: usize = 0;
    while i < quants.len()
        invariant
            i <= quants.len(),
            forall|j: int| 0 <= j < i ==> !(#[trigger] quants@[j]).needs_imatrix(),
        decreases quants.len() - i,
    {
        if quants[i].requires_imatrix() {
            return true;
        }
        i += 1;
    }
    false
}

/// No two levels share a label, so a label names at most one level.
pub proof fn lemma_labels_are_distinct(a: QuantLevel, b: QuantLevel)
    requires
        a.label_of() == b.label_of(),
    ensures
        a == b,
{
    reveal_strlit("q2_k");
    reveal_strlit("q3_k_s");
    reveal_strlit("q3_k_m");
    reveal_strlit("q3_k_l");
    reveal_strlit("q4_0");
    reveal_strlit("q4_1");
    reveal_strlit("q4_k_s");
    reveal_strlit("q4_k_m");
    reveal_strlit("q5_0");
    reveal_strlit("q5_1");
    reveal_strlit("q5_k_s");
    reveal_strlit("q5_k_m");
    reveal_strlit("q6_k");
    reveal_strlit("q8_0");
    reveal_strlit("bf16");
    reveal_strlit("iq1_s");
    reveal_strlit("iq1_m");
    reveal_strlit("iq2_xxs");
    reveal_strlit("iq2_xs");
    reveal_strlit("iq2_s");
    reveal_strlit("iq2_m");
    reveal_strlit("q2_k_s");
    reveal_strlit("iq3_xxs");
    reveal_strlit("iq3_xs");
    reveal_strlit("iq3_s");
    reveal_strlit("iq3_m");
    reveal_strlit("iq4_xs");
    reveal_strlit("iq4_nl");
    // No label is longer than seven characters: length and the first seven
    // characters tell any two of them apart.
    let s = a.label_of();
    let t = b.label_of();
    assert(s.len() == t.len() && s[2] == t[2] && s[3] == t[3] && s[4] == t[4] && s[5] == t[5]
        && s[6] == t[6] && s[0] == t[0] && s[1] == t[1]);
}

/// No two levels share a file tag, so no two levels write the same file.
pub proof fn lemma_file_tags_are_distinct(a: QuantLevel, b: QuantLevel)
    requires
        a.file_tag_of() == b.file_tag_of(),
    ensures
        a == b,
{
    reveal_strlit("Q2_K");
    reveal_strlit("Q3_K_S");
    reveal_strlit("Q3_K_M");
    reveal_strlit("Q3_K_L");
    reveal_strlit("Q4_0");
    reveal_strlit("Q4_1");
    reveal_strlit("Q4_K_S");
    reveal_strlit("Q4_K_M");
    reveal_strlit("Q5_0");
    reveal_strlit("Q5_1");
    reveal_strlit("Q5_K_S");
    reveal_strlit("Q5_K_M");
    reveal_strlit("Q6_K");
    reveal_strlit("Q8_0");
    reveal_strlit("BF16");
    reveal_strlit("IQ1_S");
    reveal_strlit("IQ1_M");
    reveal_strlit("IQ2_XXS");
    reveal_strlit("IQ2_XS");
    reveal_strlit("IQ2_S");
    reveal_strlit("IQ2_M");
    reveal_strlit("Q2_K_S");
    reveal_strlit("IQ3_XXS");
    reveal_strlit("IQ3_XS");
    reveal_strlit("IQ3_S");
    reveal_strlit("IQ3_M");
    reveal_strlit("IQ4_XS");
    reveal_strlit("IQ4_NL");
    // As for the labels: length and the first seven characters decide.
    let s = a.file_tag_of();
    let t = b.file_tag_of();
    assert(s.len() == t.len() && s[2] == t[2] && s[3] == t[3] && s[4] == t[4] && s[5] == t[5]
        && s[6] == t[6] && s[0] == t[0] && s[1] == t[1]);
}

} // verus!
