use autogguf::quant::{any_requires_imatrix, Precision, QuantLevel};

fn all_levels() -> Vec<(QuantLevel, &'static str, bool)> {
    vec![
        (QuantLevel::Q2K, "q2_k", false),
        (QuantLevel::Q3KS, "q3_k_s", false),
        (QuantLevel::Q3KM, "q3_k_m", false),
        (QuantLevel::Q3KL, "q3_k_l", false),
        (QuantLevel::Q4_0, "q4_0", false),
        (QuantLevel::Q4_1, "q4_1", false),
        (QuantLevel::Q4KS, "q4_k_s", false),
        (QuantLevel::Q4KM, "q4_k_m", false),
        (QuantLevel::Q5_0, "q5_0", false),
        (QuantLevel::Q5_1, "q5_1", false),
        (QuantLevel::Q5KS, "q5_k_s", false),
        (QuantLevel::Q5KM, "q5_k_m", false),
        (QuantLevel::Q6K, "q6_k", false),
        (QuantLevel::Q8_0, "q8_0", false),
        (QuantLevel::BF16, "bf16", false),
        (QuantLevel::IQ1S, "iq1_s", true),
        (QuantLevel::IQ1M, "iq1_m", true),
        (QuantLevel::IQ2XXS, "iq2_xxs", true),
        (QuantLevel::IQ2XS, "iq2_xs", true),
        (QuantLevel::IQ2S, "iq2_s", true),
        (QuantLevel::IQ2M, "iq2_m", true),
        (QuantLevel::Q2KS, "q2_k_s", true),
        (QuantLevel::IQ3XXS, "iq3_xxs", true),
        (QuantLevel::IQ3XS, "iq3_xs", true),
        (QuantLevel::IQ3S, "iq3_s", true),
        (QuantLevel::IQ3M, "iq3_m", true),
        (QuantLevel::IQ4XS, "iq4_xs", true),
        (QuantLevel::IQ4NL, "iq4_nl", true),
    ]
}

#[test]
fn every_level_has_its_label() {
    let levels = all_levels();
    assert_eq!(levels.len(), 28);
    for (level, label, _) in levels {
        assert_eq!(level.label(), label);
    }
}

#[test]
fn file_tag_is_the_label_in_upper_case() {
    for (level, label, _) in all_levels() {
        assert_eq!(level.file_tag(), label.to_uppercase());
    }
    assert_eq!(QuantLevel::Q4_0.file_tag(), "Q4_0");
    assert_eq!(QuantLevel::IQ2XXS.file_tag(), "IQ2_XXS");
}

#[test]
fn imatrix_levels_are_flagged() {
    for (level, _, needs) in all_levels() {
        assert_eq!(level.requires_imatrix(), needs);
    }
    assert!(QuantLevel::IQ3S.requires_imatrix());
    assert!(QuantLevel::Q2KS.requires_imatrix());
    assert!(!QuantLevel::Q4_0.requires_imatrix());
    assert!(!QuantLevel::BF16.requires_imatrix());
}

#[test]
fn labels_are_read_back() {
    for (level, label, _) in all_levels() {
        assert_eq!(QuantLevel::from_label(label), Some(level));
        assert_eq!(QuantLevel::from_str(label), Ok(level));
    }
}

#[test]
fn from_label_takes_lower_case_only() {
    assert_eq!(QuantLevel::from_label("Q4_0"), None);
    assert_eq!(QuantLevel::from_label(""), None);
    assert_eq!(QuantLevel::from_label("q4_0 "), None);
    assert_eq!(QuantLevel::from_label("q9_9"), None);
}

#[test]
fn from_str_ignores_case() {
    assert_eq!(QuantLevel::from_str("Q4_K_M"), Ok(QuantLevel::Q4KM));
    assert_eq!(QuantLevel::from_str("Iq3_S"), Ok(QuantLevel::IQ3S));
    assert_eq!(QuantLevel::from_str("BF16"), Ok(QuantLevel::BF16));
}

#[test]
fn from_str_quotes_the_input_in_its_error() {
    assert_eq!(
        QuantLevel::from_str("Q9_X"),
        Err("'Q9_X' is not a valid quant level".to_string())
    );
    assert_eq!(
        QuantLevel::from_str(""),
        Err("'' is not a valid quant level".to_string())
    );
}

#[test]
fn precision_labels() {
    assert_eq!(Precision::F16.label(), "f16");
    assert_eq!(Precision::BF16.label(), "bf16");
    assert_eq!(Precision::F32.label(), "f32");
    assert_eq!(Precision::F16.banner(), "F16");
    assert_eq!(Precision::BF16.banner(), "BF16");
    assert_eq!(Precision::F32.banner(), "F32");
}

#[test]
fn any_requires_imatrix_looks_at_every_level() {
    assert!(!any_requires_imatrix(&vec![]));
    assert!(!any_requires_imatrix(&vec![QuantLevel::Q4_0, QuantLevel::Q8_0]));
    assert!(any_requires_imatrix(&vec![QuantLevel::Q4_0, QuantLevel::IQ3S]));
    assert!(any_requires_imatrix(&vec![QuantLevel::IQ1M]));
}
