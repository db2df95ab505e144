use voice_input::app::{App, AppStatus, StopOutcome, UiReaction};
use voice_input::capture::CaptureSink;
use voice_input::config::Config;
use voice_input::view::{TrayStatus, UiIntent};

fn ready_app() -> App {
    App::new(String::from("small"), false, true, true, false)
}

#[test]
fn startup_is_ready_when_files_are_present() {
    let app = ready_app();
    assert_eq!(app.state.status, AppStatus::Ready);
    assert_eq!(app.state.active_model, "small");
    assert_eq!(app.state.current_language, "en");
    assert!(app.state.loading.is_empty());
}

#[test]
fn startup_primes_when_a_file_is_missing() {
    let app = App::new(String::from("small"), false, false, true, false);
    assert_eq!(app.state.status, AppStatus::Priming);
    let app = App::new(String::from("small"), false, true, false, false);
    assert_eq!(app.state.status, AppStatus::Priming);
    // The large tier has no English-specific file, so only the shared file
    // counts.
    let app = App::new(String::from("large"), false, false, true, false);
    assert_eq!(app.state.status, AppStatus::Ready);
}

#[test]
fn priming_gates_record_start_only_when_configured() {
    // Strict configuration: a press during Priming is ignored.
    let mut strict = App::new(String::from("small"), false, false, false, false);
    let mut sink = CaptureSink::new();
    assert!(strict.start_recording(&mut sink, "en-US").is_none());
    assert_eq!(strict.state.status, AppStatus::Priming);

    // Best-effort configuration: dictation may start while still priming.
    let mut eager = App::new(String::from("small"), false, false, false, true);
    let directive = eager.start_recording(&mut sink, "en-US");
    assert!(directive.is_some());
    assert_eq!(eager.state.status, AppStatus::Recording);
}

#[test]
fn start_recording_arms_capture_and_resolves_the_model() {
    let mut app = ready_app();
    let mut sink = CaptureSink::new();
    let directive = app.start_recording(&mut sink, "en-US").expect("should start");
    assert_eq!(app.state.status, AppStatus::Recording);
    assert_eq!(app.state.current_language, "en");
    assert!(directive.is_english);
    assert_eq!(directive.model_file, "ggml-small.en.bin");
    assert!(sink.buffer.is_empty());
}

#[test]
fn duplicate_record_start_is_ignored() {
    // A second record-start with no intervening record-stop: the second is
    // ignored, and the recording state and buffer content are unaffected.
    let mut app = ready_app();
    let mut sink = CaptureSink::new();
    assert!(app.start_recording(&mut sink, "en-US").is_some());
    sink.start_capture();
    sink.feed(&[1, 2, 3]);

    let second = app.start_recording(&mut sink, "de-DE");
    assert!(second.is_none());
    assert_eq!(app.state.status, AppStatus::Recording);
    assert_eq!(app.state.current_language, "en");
    assert_eq!(sink.buffer, vec![1, 2, 3]);
}

#[test]
fn stop_while_ready_is_idempotent() {
    // A stop signal while Ready leaves the state Ready and attempts no
    // transcription.
    let mut app = ready_app();
    let mut sink = CaptureSink::new();
    let outcome = app.stop_and_transcribe(&mut sink);
    assert!(matches!(outcome, StopOutcome::Ignored));
    assert_eq!(app.state.status, AppStatus::Ready);
}

#[test]
fn stop_with_empty_buffer_skips_processing() {
    let mut app = ready_app();
    let mut sink = CaptureSink::new();
    app.start_recording(&mut sink, "en-US");
    sink.start_capture();
    let outcome = app.stop_and_transcribe(&mut sink);
    assert!(matches!(outcome, StopOutcome::NoAudio));
    assert_eq!(app.state.status, AppStatus::Ready);
    assert!(!sink.gate);
}

#[test]
fn full_cycle_hands_exactly_the_fed_samples() {
    // Two consecutive cycles: the second cycle's snapshot holds exactly the
    // samples fed since its own start, nothing from the first.
    let mut app = ready_app();
    let mut sink = CaptureSink::new();

    app.start_recording(&mut sink, "en-US");
    sink.start_capture();
    sink.feed(&[10, 11]);
    let first = app.stop_and_transcribe(&mut sink);
    match first {
        StopOutcome::Transcribe(req) => assert_eq!(req.samples, vec![10, 11]),
        _ => panic!("expected a transcription request"),
    }
    app.on_transcription_complete();
    assert_eq!(app.state.status, AppStatus::Ready);

    app.start_recording(&mut sink, "en-US");
    sink.start_capture();
    sink.feed(&[20, 21, 22]);
    sink.feed(&[23]);
    let second = app.stop_and_transcribe(&mut sink);
    assert_eq!(app.state.status, AppStatus::Processing);
    match second {
        StopOutcome::Transcribe(req) => {
            assert_eq!(req.samples, vec![20, 21, 22, 23]);
            assert_eq!(req.language, "en");
            assert!(req.is_english);
            assert!(!req.translate);
        }
        _ => panic!("expected a transcription request"),
    }
    app.on_transcription_complete();
    assert_eq!(app.state.status, AppStatus::Ready);
}

#[test]
fn capture_gate_controls_appending() {
    let mut sink = CaptureSink::new();
    sink.feed(&[1, 2]);
    assert!(sink.buffer.is_empty());
    sink.start_capture();
    sink.feed(&[3]);
    sink.stop_capture();
    sink.feed(&[4]);
    assert_eq!(sink.buffer, vec![3]);
    assert_eq!(sink.snapshot(), vec![3]);
    assert!(!sink.is_empty());
    sink.clear();
    assert!(sink.is_empty());
}

#[test]
fn translate_toggle_mid_recording_applies_to_that_recording() {
    let mut app = ready_app();
    let mut config = Config::default();
    let mut sink = CaptureSink::new();
    app.start_recording(&mut sink, "en-US");
    sink.start_capture();
    sink.feed(&[5]);
    app.toggle_translate(&mut config);
    assert!(config.translate);
    let outcome = app.stop_and_transcribe(&mut sink);
    match outcome {
        StopOutcome::Transcribe(req) => assert!(req.translate),
        _ => panic!("expected a transcription request"),
    }
}

#[test]
fn non_english_layout_selects_multilingual_mode() {
    let mut app = ready_app();
    let mut sink = CaptureSink::new();
    let directive = app.start_recording(&mut sink, "de-DE").expect("should start");
    assert!(!directive.is_english);
    assert_eq!(app.state.current_language, "de");
    assert_eq!(directive.model_file, "ggml-small.bin");
}

#[test]
fn selecting_a_new_model_updates_state_and_config() {
    let mut app = ready_app();
    let mut config = Config::default();
    let reaction = app.handle_ui_intent(UiIntent::SelectModel(String::from("medium")), &mut config);
    assert_eq!(reaction, UiReaction::ModelChanged);
    assert_eq!(app.state.active_model, "medium");
    assert_eq!(config.selected_model, "medium");

    // Selecting the active model again changes nothing.
    let reaction = app.handle_ui_intent(UiIntent::SelectModel(String::from("medium")), &mut config);
    assert_eq!(reaction, UiReaction::Unchanged);

    // A deprecated alias is stored raw as the active model but persisted
    // normalized.
    let reaction = app.handle_ui_intent(UiIntent::SelectModel(String::from("tiny")), &mut config);
    assert_eq!(reaction, UiReaction::ModelChanged);
    assert_eq!(app.state.active_model, "tiny");
    assert_eq!(config.selected_model, "small");
}

#[test]
fn ui_intents_toggle_translate_and_quit() {
    let mut app = ready_app();
    let mut config = Config::default();
    let reaction = app.handle_ui_intent(UiIntent::ToggleTranslate(true), &mut config);
    assert_eq!(reaction, UiReaction::TranslateChanged);
    assert!(app.state.translate_enabled);
    assert!(config.translate);
    let reaction = app.handle_ui_intent(UiIntent::ToggleTranslate(true), &mut config);
    assert_eq!(reaction, UiReaction::Unchanged);
    let reaction = app.handle_ui_intent(UiIntent::QuitRequested, &mut config);
    assert_eq!(reaction, UiReaction::Quit);
}

#[test]
fn acquisition_plan_lists_only_missing_files() {
    let mut app = ready_app();
    let plan = app.plan_model_acquisition("medium", false, false).expect("files are missing");
    assert_eq!(plan.model, "medium");
    assert_eq!(plan.files, vec![String::from("ggml-medium.en.bin"), String::from("ggml-medium.bin")]);
    assert_eq!(app.state.loading.len(), 1);
    assert_eq!(app.state.loading[0].model, "medium");
    assert_eq!(app.state.loading[0].progress.percent, 0);

    let plan = app.plan_model_acquisition("medium", true, false).expect("multilingual missing");
    assert_eq!(plan.files, vec![String::from("ggml-medium.bin")]);

    // The large tier needs no English-specific file.
    let plan = app.plan_model_acquisition("large", false, false).expect("shared file missing");
    assert_eq!(plan.files, vec![String::from("ggml-large-v2.bin")]);

    assert!(app.plan_model_acquisition("medium", true, true).is_none());
}

#[test]
fn repeated_acquisition_keeps_one_entry_per_model() {
    let mut app = ready_app();
    app.plan_model_acquisition("medium", false, false);
    app.plan_model_acquisition("medium", false, false);
    assert_eq!(app.state.loading.len(), 1);
    assert_eq!(app.state.loading[0].model, "medium");
    app.plan_model_acquisition("large", false, false);
    assert_eq!(app.state.loading.len(), 2);
    app.on_acquisition_complete("medium");
    assert_eq!(app.state.loading.len(), 1);
    assert_eq!(app.state.loading[0].model, "large");
}

#[test]
fn acquisition_completion_clears_priming_and_progress() {
    let mut app = App::new(String::from("small"), false, false, false, false);
    assert_eq!(app.state.status, AppStatus::Priming);
    app.plan_model_acquisition("small", false, false).expect("missing files");
    assert_eq!(app.state.loading.len(), 1);
    app.on_acquisition_complete("small");
    assert_eq!(app.state.status, AppStatus::Ready);
    assert!(app.state.loading.is_empty());
}

#[test]
fn view_snapshot_mirrors_state() {
    let mut app = ready_app();
    app.plan_model_acquisition("medium", false, false);
    let view = app.post_view();
    assert_eq!(view.active_model, "small");
    assert_eq!(view.status, TrayStatus::Ready);
    assert_eq!(view.loading.len(), 1);
    assert_eq!(view.loading[0].model, "medium");
    assert!(!view.translate_enabled);
}
