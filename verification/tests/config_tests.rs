use voice_input::config::{
    default_device, get_change_mode_shortcut, get_config_file_path, get_device, get_model_path,
    get_model_save_path, get_models_dir, get_record_shortcut, get_selected_model,
    get_translate_enabled, normalize_loaded_config, normalize_selected_model, save_device,
    save_selected_model, save_translate_enabled, use_gpu, Config,
};

#[test]
fn tiny_normalizes_to_small_on_load_and_is_persisted() {
    // A configuration that still names the deprecated "tiny" tier is
    // upgraded to "small" on load; the change is flagged so the caller
    // persists the normalized record, and later reads see "small".
    let mut config = Config {
        selected_model: String::from("tiny"),
        ..Config::default()
    };
    let changed = normalize_loaded_config(&mut config);
    assert!(changed);
    assert_eq!(config.selected_model, "small");
    assert_eq!(get_selected_model(&config), "small");

    // A second load of the persisted record changes nothing further.
    let changed_again = normalize_loaded_config(&mut config);
    assert!(!changed_again);
    assert_eq!(config.selected_model, "small");
}

#[test]
fn normalize_upgrades_deprecated_tiers_only() {
    assert_eq!(normalize_selected_model("tiny"), "small");
    assert_eq!(normalize_selected_model("base"), "small");
    assert_eq!(normalize_selected_model("small"), "small");
    assert_eq!(normalize_selected_model("medium"), "medium");
    assert_eq!(normalize_selected_model("large"), "large");
    assert_eq!(normalize_selected_model("weird"), "weird");
}

#[test]
fn default_config_values() {
    let config = Config::default();
    assert_eq!(config.selected_model, "small");
    assert!(!config.translate);
    assert_eq!(config.device, "cpu");
    assert_eq!(config.record_shortcut, "Ctrl+CapsLock");
    assert_eq!(config.toggle_shortcut, "Alt+CapsLock");
    assert_eq!(default_device(), "cpu");
}

#[test]
fn save_selected_model_normalizes() {
    let mut config = Config::default();
    save_selected_model(&mut config, "tiny");
    assert_eq!(config.selected_model, "small");
    save_selected_model(&mut config, "large");
    assert_eq!(config.selected_model, "large");
}

#[test]
fn translate_flag_round_trip() {
    let mut config = Config::default();
    assert!(!get_translate_enabled(&config));
    save_translate_enabled(&mut config, true);
    assert!(get_translate_enabled(&config));
    save_translate_enabled(&mut config, false);
    assert!(!get_translate_enabled(&config));
}

#[test]
fn device_is_forced_to_cpu_without_gpu_support() {
    let mut config = Config::default();
    save_device(&mut config, "gpu", false);
    assert_eq!(config.device, "cpu");
    assert_eq!(get_device(&config, false), "cpu");
    assert!(!use_gpu(&config, false));
}

#[test]
fn device_accepts_gpu_case_insensitively_on_gpu_builds() {
    let mut config = Config::default();
    save_device(&mut config, "GPU", true);
    assert_eq!(config.device, "gpu");
    assert_eq!(get_device(&config, true), "gpu");
    assert!(use_gpu(&config, true));

    save_device(&mut config, "nonsense", true);
    assert_eq!(config.device, "cpu");
    assert!(!use_gpu(&config, true));
}

#[test]
fn paths_are_joined_under_their_directories() {
    assert_eq!(get_models_dir("/home/u/.local/share/voice_input"), "/home/u/.local/share/voice_input/models");
    assert_eq!(get_config_file_path("/home/u/.config/voice_input"), "/home/u/.config/voice_input/config.json");
    assert_eq!(get_model_save_path("/data/models", "ggml-small.bin"), "/data/models/ggml-small.bin");
}

#[test]
fn model_path_prefers_models_dir_then_current_dir() {
    let dir = Some(String::from("/data/models"));
    assert_eq!(
        get_model_path("ggml-small.bin", &dir, true, true),
        Some(String::from("/data/models/ggml-small.bin"))
    );
    assert_eq!(
        get_model_path("ggml-small.bin", &dir, false, true),
        Some(String::from("ggml-small.bin"))
    );
    assert_eq!(get_model_path("ggml-small.bin", &dir, false, false), None);
    assert_eq!(
        get_model_path("ggml-small.bin", &None, false, true),
        Some(String::from("ggml-small.bin"))
    );
    assert_eq!(get_model_path("ggml-small.bin", &None, false, false), None);
}

#[test]
fn shortcut_getters_read_the_record() {
    let config = Config::default();
    assert_eq!(get_record_shortcut(&config), "Ctrl+CapsLock");
    assert_eq!(get_change_mode_shortcut(&config), "Alt+CapsLock");
}
