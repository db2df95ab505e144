//! The persisted configuration record and its normalization rules.
//!
//! Reading and writing the configuration file is I/O and lives outside this
//! library; the functions here operate on an in-memory `Config` value and
//! state exactly how each field is normalized, defaulted and updated.

use vstd::prelude::*;

use crate::text::str_eq;

verus! {

/// What a selected tier name normalizes to on load: the deprecated small
/// tiers ("base", "tiny") are upgraded to the smallest supported tier,
/// "small"; every other name is kept as it is.
pub open spec fn normalize_model_spec(model: Seq<char>) -> Seq<char> {
    if model == "base"@ || model == "tiny"@ {
        "small"@
    } else {
        model
    }
}

/// Normalize a selected tier name (deprecated aliases upgraded to "small").
pub fn normalize_selected_model(model: &str) -> (r: String)
    ensures
        r@ == normalize_model_spec(model@),
{
    if str_eq(model, "base") || str_eq(model, "tiny") {
        "small".to_owned()
    } else {
        model.to_owned()
    }
}

/// The persisted configuration record.
pub struct Config {
    /// The selected model tier for transcription.
    pub selected_model: String,
    /// Whether to translate (to English) instead of transcribe.
    pub translate: bool,
    /// Compute device preference: "cpu" or "gpu".
    pub device: String,
    /// Key combination that starts/stops a recording.
    pub record_shortcut: String,
    /// Key combination that toggles translate mode.
    pub toggle_shortcut: String,
}

/// Default compute device when the configuration does not name one.
/// Builds without GPU support always default to "cpu".
pub fn default_device() -> (r: String)
    ensures
        r@ == "cpu"@,
{
    "cpu".to_owned()
}

/// Whether a string names the GPU device, compared without regard to ASCII
/// case (the configuration accepts "gpu", "GPU", and the like).
pub open spec fn is_gpu_word_spec(s: Seq<char>) -> bool {
    s.len() == 3 && (s[0] == 'g' || s[0] == 'G') && (s[1] == 'p' || s[1] == 'P') && (s[2] == 'u'
        || s[2] == 'U')
}

fn is_gpu_word(s: &str) -> (r: bool)
    ensures
        r == is_gpu_word_spec(s@),
{
    if s.unicode_len() != 3 {
        return false;
    }
    let c0 = s.get_char(0);
    let c1 = s.get_char(1);
    let c2 = s.get_char(2);
    (c0 == 'g' || c0 == 'G') && (c1 == 'p' || c1 == 'P') && (c2 == 'u' || c2 == 'U')
}

impl Default for Config {
    /// The defaults used when the configuration file is absent or unreadable.
    fn default() -> (r: Config)
        ensures
            r.selected_model@ == "small"@,
            !r.translate,
            r.device@ == "cpu"@,
            r.record_shortcut@ == "Ctrl+CapsLock"@,
            r.toggle_shortcut@ == "Alt+CapsLock"@,
    {
        Config {
            selected_model: "small".to_owned(),
            translate: false,
            device: default_device(),
            record_shortcut: "Ctrl+CapsLock".to_owned(),
            toggle_shortcut: "Alt+CapsLock".to_owned(),
        }
    }
}

/// Normalize a configuration that was just loaded from disk: deprecated tier
/// aliases are upgraded in place. Returns whether anything changed, in which
/// case the caller is expected to persist the normalized record back.
pub fn normalize_loaded_config(config: &mut Config) -> (changed: bool)
    ensures
        final(config).selected_model@ == normalize_model_spec(old(config).selected_model@),
        changed == (final(config).selected_model@ != old(config).selected_model@),
        final(config).translate == old(config).translate,
        final(config).device == old(config).device,
        final(config).record_shortcut == old(config).record_shortcut,
        final(config).toggle_shortcut == old(config).toggle_shortcut,
{
    let normalized = normalize_selected_model(config.selected_model.as_str());
    let changed = !(normalized == config.selected_model);
    config.selected_model = normalized;
    changed
}

/// Update the selected tier, storing its normalized form.
pub fn save_selected_model(config: &mut Config, model: &str)
    ensures
        final(config).selected_model@ == normalize_model_spec(model@),
        final(config).translate == old(config).translate,
        final(config).device == old(config).device,
        final(config).record_shortcut == old(config).record_shortcut,
        final(config).toggle_shortcut == old(config).toggle_shortcut,
{
    config.selected_model = normalize_selected_model(model);
}

/// The selected tier, normalized.
pub fn get_selected_model(config: &Config) -> (r: String)
    ensures
        r@ == normalize_model_spec(config.selected_model@),
{
    normalize_selected_model(config.selected_model.as_str())
}

/// Update the translate flag.
pub fn save_translate_enabled(config: &mut Config, translate: bool)
    ensures
        final(config).translate == translate,
        final(config).selected_model == old(config).selected_model,
        final(config).device == old(config).device,
        final(config).record_shortcut == old(config).record_shortcut,
        final(config).toggle_shortcut == old(config).toggle_shortcut,
{
    config.translate = translate;
}

/// The translate flag.
pub fn get_translate_enabled(config: &Config) -> (r: bool)
    ensures
        r == config.translate,
{
    config.translate
}

/// Update the compute device. The request is normalized to "gpu" or "cpu";
/// a build without GPU support stores "cpu" whatever was requested.
pub fn save_device(config: &mut Config, device: &str, gpu_build: bool)
    ensures
        final(config).device@ == (if gpu_build && is_gpu_word_spec(device@) {
            "gpu"@
        } else {
            "cpu"@
        }),
        final(config).selected_model == old(config).selected_model,
        final(config).translate == old(config).translate,
        final(config).record_shortcut == old(config).record_shortcut,
        final(config).toggle_shortcut == old(config).toggle_shortcut,
{
    if gpu_build && is_gpu_word(device) {
        config.device = "gpu".to_owned();
    } else {
        config.device = "cpu".to_owned();
    }
}

/// The effective compute device: "gpu" only when the build supports it and
/// the stored preference names the GPU; otherwise "cpu".
pub fn get_device(config: &Config, gpu_build: bool) -> (r: String)
    ensures
        r@ == (if gpu_build && is_gpu_word_spec(config.device@) {
            "gpu"@
        } else {
            "cpu"@
        }),
{
    if gpu_build && is_gpu_word(config.device.as_str()) {
        "gpu".to_owned()
    } else {
        "cpu".to_owned()
    }
}

/// Whether GPU acceleration should be used.
pub fn use_gpu(config: &Config, gpu_build: bool) -> (r: bool)
    ensures
        r == (gpu_build && is_gpu_word_spec(config.device@)),
{
    gpu_build && is_gpu_word(config.device.as_str())
}

/// The key combination that starts/stops a recording.
pub fn get_record_shortcut(config: &Config) -> (r: String)
    ensures
        r@ == config.record_shortcut@,
{
    config.record_shortcut.clone()
}

/// The key combination that toggles translate mode.
pub fn get_change_mode_shortcut(config: &Config) -> (r: String)
    ensures
        r@ == config.toggle_shortcut@,
{
    config.toggle_shortcut.clone()
}

/// A directory entry joined onto a directory path.
pub open spec fn path_join_spec(dir: Seq<char>, name: Seq<char>) -> Seq<char> {
    dir + "/"@ + name
}

/// The models directory inside the data directory.
pub fn get_models_dir(data_dir: &str) -> (r: String)
    ensures
        r@ == path_join_spec(data_dir@, "models"@),
{
    crate::text::concat3(data_dir, "/", "models")
}

/// The configuration file inside the configuration directory.
pub fn get_config_file_path(config_dir: &str) -> (r: String)
    ensures
        r@ == path_join_spec(config_dir@, "config.json"@),
{
    crate::text::concat3(config_dir, "/", "config.json")
}

/// Resolve where a model file lives, if anywhere: the models directory is
/// preferred, and the current directory is kept as a legacy location. The
/// caller reports whether the file exists at each candidate location.
pub fn get_model_path(
    model_name: &str,
    models_dir: &Option<String>,
    exists_in_models_dir: bool,
    exists_in_current_dir: bool,
) -> (r: Option<String>)
    ensures
        match *models_dir {
            Some(ref dir) if exists_in_models_dir => {
                r matches Some(p) && p@ == path_join_spec(dir@, model_name@)
            },
            _ => {
                if exists_in_current_dir {
                    r matches Some(p) && p@ == model_name@
                } else {
                    r is None
                }
            },
        },
{
    match models_dir {
        Some(dir) if exists_in_models_dir => Some(
            crate::text::concat3(dir.as_str(), "/", model_name),
        ),
        _ => {
            if exists_in_current_dir {
                Some(model_name.to_owned())
            } else {
                None
            }
        },
    }
}

/// The path a freshly downloaded model file is saved to.
pub fn get_model_save_path(models_dir: &str, model_name: &str) -> (r: String)
    ensures
        r@ == path_join_spec(models_dir@, model_name@),
{
    crate::text::concat3(models_dir, "/", model_name)
}

} // verus!
