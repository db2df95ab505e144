//! The model catalog: the pure mapping from (tier, language mode) to a model
//! file identifier and its remote URL.
//!
//! A *tier* is the nominal model size the user selects ("small", "medium",
//! "large"). Each sized tier has an English-only file and a multilingual
//! file; the "large" tier has a single file shared by both language modes.
//! Any unsupported tier name resolves to the baseline ("base") files.

use vstd::prelude::*;

use crate::text::{concat2, concat3, str_eq};

verus! {

/// English-only file identifier of a sized tier.
pub open spec fn en_file_spec(tier: Seq<char>) -> Seq<char> {
    "ggml-"@ + tier + ".en.bin"@
}

/// Multilingual file identifier of a sized tier.
pub open spec fn multi_file_spec(tier: Seq<char>) -> Seq<char> {
    "ggml-"@ + tier + ".bin"@
}

/// The single file identifier of the "large" tier.
pub open spec fn large_file_spec() -> Seq<char> {
    "ggml-large-v2.bin"@
}

/// The smallest baseline model for a language mode: what resolution falls
/// back to when a selected file is missing or a tier name is unsupported.
pub open spec fn baseline_file_spec(is_english: bool) -> Seq<char> {
    if is_english {
        "ggml-base.en.bin"@
    } else {
        "ggml-base.bin"@
    }
}

/// The tiers whose files are named directly from the tier name by
/// `select_model_file`.
pub open spec fn is_sized_tier(tier: Seq<char>) -> bool {
    tier == "base"@ || tier == "small"@ || tier == "medium"@
}

/// The model file identifier for a tier and a language mode.
pub open spec fn model_file_spec(tier: Seq<char>, is_english: bool) -> Seq<char> {
    if tier == "large"@ {
        large_file_spec()
    } else if is_sized_tier(tier) {
        if is_english {
            en_file_spec(tier)
        } else {
            multi_file_spec(tier)
        }
    } else {
        baseline_file_spec(is_english)
    }
}

/// Select the model filename based on selected tier and language mode.
pub fn select_model_file(selected_model: &str, is_english: bool) -> (r: String)
    ensures
        r@ == model_file_spec(selected_model@, is_english),
{
    if str_eq(selected_model, "large") {
        "ggml-large-v2.bin".to_owned()
    } else if str_eq(selected_model, "base") || str_eq(selected_model, "small") || str_eq(
        selected_model,
        "medium",
    ) {
        if is_english {
            concat3("ggml-", selected_model, ".en.bin")
        } else {
            concat3("ggml-", selected_model, ".bin")
        }
    } else {
        if is_english {
            "ggml-base.en.bin".to_owned()
        } else {
            "ggml-base.bin".to_owned()
        }
    }
}

/// The pair of file identifiers (English-only, multilingual) that a tier
/// needs. Unlike `select_model_file`, the deprecated "tiny" tier still names
/// its own files here, and the "large" tier yields the same file twice.
pub open spec fn both_files_spec(tier: Seq<char>) -> (Seq<char>, Seq<char>) {
    if tier == "large"@ {
        (large_file_spec(), large_file_spec())
    } else if tier == "base"@ || tier == "tiny"@ || tier == "small"@ || tier == "medium"@ {
        (en_file_spec(tier), multi_file_spec(tier))
    } else {
        (baseline_file_spec(true), baseline_file_spec(false))
    }
}

/// Both file identifiers (English-only, multilingual) for a tier.
pub fn get_both_model_filenames(model: &str) -> (r: (String, String))
    ensures
        r.0@ == both_files_spec(model@).0,
        r.1@ == both_files_spec(model@).1,
{
    if str_eq(model, "large") {
        ("ggml-large-v2.bin".to_owned(), "ggml-large-v2.bin".to_owned())
    } else if str_eq(model, "base") || str_eq(model, "tiny") || str_eq(model, "small") || str_eq(
        model,
        "medium",
    ) {
        (concat3("ggml-", model, ".en.bin"), concat3("ggml-", model, ".bin"))
    } else {
        ("ggml-base.en.bin".to_owned(), "ggml-base.bin".to_owned())
    }
}

/// The fixed base URL that model files are fetched from.
pub open spec fn base_url_spec() -> Seq<char> {
    "https://huggingface.co/ggerganov/whisper.cpp/resolve/main/"@
}

/// The download URL for a model file identifier.
pub open spec fn model_url_spec(model_name: Seq<char>) -> Seq<char> {
    base_url_spec() + model_name
}

/// The remote URL a model file is downloaded from.
pub fn model_url(model_name: &str) -> (r: String)
    ensures
        r@ == model_url_spec(model_name@),
{
    concat2("https://huggingface.co/ggerganov/whisper.cpp/resolve/main/", model_name)
}

} // verus!
