use voice_input::app::{completion_view, detect_language_code, progress_view, AppStatus};
use voice_input::keyboard_layout::KeyboardLayoutDetector;
use voice_input::transcriber_utils::assemble_transcript;
use voice_input::view::{format_eta, icon_name_for_status, u64_to_string, TrayStatus};

#[test]
fn eta_formats_as_a_clock() {
    assert_eq!(format_eta(0), "00:00");
    assert_eq!(format_eta(9), "00:09");
    assert_eq!(format_eta(59), "00:59");
    assert_eq!(format_eta(60), "01:00");
    assert_eq!(format_eta(3599), "59:59");
    assert_eq!(format_eta(3600), "1:00:00");
    assert_eq!(format_eta(3661), "1:01:01");
    assert_eq!(format_eta(45296), "12:34:56");
}

#[test]
fn numbers_render_in_decimal() {
    assert_eq!(u64_to_string(0), "0");
    assert_eq!(u64_to_string(7), "7");
    assert_eq!(u64_to_string(10), "10");
    assert_eq!(u64_to_string(1234567890), "1234567890");
}

#[test]
fn icons_follow_status_and_translate_mode() {
    assert_eq!(icon_name_for_status(TrayStatus::Ready, false), "voice-input-white");
    assert_eq!(icon_name_for_status(TrayStatus::Recording, false), "voice-input-red");
    assert_eq!(icon_name_for_status(TrayStatus::Processing, false), "voice-input-blue");
    assert_eq!(icon_name_for_status(TrayStatus::Priming, false), "voice-input-yellow");
    assert_eq!(icon_name_for_status(TrayStatus::Ready, true), "voice-input-translate-white");
    assert_eq!(icon_name_for_status(TrayStatus::Priming, true), "voice-input-translate-yellow");
}

#[test]
fn statuses_map_to_tray_statuses() {
    assert_eq!(AppStatus::Priming.to_tray(), TrayStatus::Priming);
    assert_eq!(AppStatus::Ready.to_tray(), TrayStatus::Ready);
    assert_eq!(AppStatus::Recording.to_tray(), TrayStatus::Recording);
    assert_eq!(AppStatus::Processing.to_tray(), TrayStatus::Processing);
}

#[test]
fn worker_views_carry_the_latest_progress() {
    let view = progress_view("small", true, false, "medium", 42, 90);
    assert_eq!(view.active_model, "small");
    assert_eq!(view.status, TrayStatus::Priming);
    assert_eq!(view.loading.len(), 1);
    assert_eq!(view.loading[0].model, "medium");
    assert_eq!(view.loading[0].progress.percent, 42);
    assert_eq!(view.loading[0].progress.eta_secs, 90);

    let done = completion_view("medium", true);
    assert_eq!(done.status, TrayStatus::Ready);
    assert!(done.loading.is_empty());
    assert!(done.translate_enabled);
}

#[test]
fn language_codes_reduce_to_two_letters() {
    assert_eq!(detect_language_code("en-US"), "en");
    assert_eq!(detect_language_code("de"), "de");
    assert_eq!(detect_language_code("x"), "en");
    assert_eq!(detect_language_code(""), "en");
}

#[test]
fn layout_codes_map_to_languages() {
    assert_eq!(KeyboardLayoutDetector::lang_for_layout("us"), Some(String::from("en")));
    assert_eq!(KeyboardLayoutDetector::lang_for_layout("gb"), Some(String::from("en")));
    assert_eq!(KeyboardLayoutDetector::lang_for_layout("de"), Some(String::from("de")));
    assert_eq!(KeyboardLayoutDetector::lang_for_layout("ru"), Some(String::from("ru")));
    assert_eq!(KeyboardLayoutDetector::lang_for_layout("xx"), None);
    assert_eq!(KeyboardLayoutDetector::fallback_to_locale("fr-FR"), "fr");
    assert_eq!(KeyboardLayoutDetector::fallback_to_locale("q"), "en");
}

#[test]
fn transcripts_assemble_from_segments() {
    let segments = vec![
        String::from(" Hello there."),
        String::from(" General greeting."),
        String::from("No leading space"),
    ];
    assert_eq!(
        assemble_transcript(&segments),
        "Hello there.\nGeneral greeting.\nNo leading space\n"
    );
    assert_eq!(assemble_transcript(&Vec::new()), "");
}
