//! The recording/transcription orchestrator: the application status machine,
//! the active model selection, the translate-mode flag, and the coordination
//! of capture, model resolution and asynchronous model acquisition.
//!
//! The orchestrator runs on a single control thread. Everything that touches
//! a device, the network or the filesystem happens outside this library; the
//! methods here perform every state change and hand back a value saying what
//! outside work follows. The caller's loop keeps the ordering the contracts
//! assume: the device stream is started before the capture gate is enabled,
//! and capture is disabled (inside `stop_and_transcribe`) before the stream
//! is paused.

use vstd::prelude::*;

use crate::capture::{CaptureSink, Sample};
use crate::catalog::{both_files_spec, get_both_model_filenames, model_file_spec, select_model_file};
use crate::config::{save_selected_model, save_translate_enabled, Config};
use crate::text::str_eq;
use crate::view::{AppView, LoadingEntry, ModelProgress, TrayStatus, UiIntent};

verus! {

/// The application status. Exactly one value at any time, owned exclusively
/// by the orchestrator and mutated only on its control thread.
#[derive(Debug, Clone, Copy, PartialEq, Eq, Structural)]
pub enum AppStatus {
    /// Required model files for the active selection are still being fetched.
    Priming,
    Ready,
    Recording,
    Processing,
}

/// How each status appears in the tray.
pub open spec fn to_tray_spec(status: AppStatus) -> TrayStatus {
    match status {
        AppStatus::Priming => TrayStatus::Priming,
        AppStatus::Ready => TrayStatus::Ready,
        AppStatus::Recording => TrayStatus::Recording,
        AppStatus::Processing => TrayStatus::Processing,
    }
}

impl AppStatus {
    /// The tray's rendering of this status.
    pub fn to_tray(self) -> (r: TrayStatus)
        ensures
            r == to_tray_spec(self),
    {
        match self {
            AppStatus::Priming => TrayStatus::Priming,
            AppStatus::Ready => TrayStatus::Ready,
            AppStatus::Recording => TrayStatus::Recording,
            AppStatus::Processing => TrayStatus::Processing,
        }
    }
}

/// The two-letter language code a detected keyboard-layout language reduces
/// to; anything shorter falls back to English.
pub open spec fn lang_code_spec(detected: Seq<char>) -> Seq<char> {
    if detected.len() >= 2 {
        detected.subrange(0, 2)
    } else {
        "en"@
    }
}

/// Whether a language code selects the English-only language mode.
pub open spec fn is_english_code(code: Seq<char>) -> bool {
    code.len() >= 2 && code.subrange(0, 2) == "en"@
}

/// Reduce a detected keyboard-layout language to its two-letter code,
/// falling back to English when the detection yielded too little.
pub fn detect_language_code(detected: &str) -> (r: String)
    ensures
        r@ == lang_code_spec(detected@),
{
    if detected.unicode_len() >= 2 {
        detected.substring_char(0, 2).to_owned()
    } else {
        "en".to_owned()
    }
}

/// Whether a language code starts with "en".
fn starts_with_en(code: &str) -> (r: bool)
    ensures
        r == is_english_code(code@),
{
    if code.unicode_len() >= 2 {
        str_eq(code.substring_char(0, 2), "en")
    } else {
        false
    }
}

/// Centralized application state for the event loop.
pub struct AppState {
    pub status: AppStatus,
    /// The language code detected when the current recording started.
    pub current_language: String,
    /// The tier the user selected.
    pub active_model: String,
    /// In-flight downloads, at most one entry per model.
    pub loading: Vec<LoadingEntry>,
    pub translate_enabled: bool,
    /// Whether a record-start signal is accepted while the status is still
    /// `Priming`. Best-effort dictation on first run records against a
    /// possibly-unready transcriber; the strict choice ignores the press
    /// until the backing model is ready. This is a deliberate configuration
    /// point, not a guess either way.
    pub record_while_priming: bool,
}

/// Whether a record-start signal begins a recording in this state.
pub open spec fn accepts_record_start(state: AppState) -> bool {
    state.status == AppStatus::Ready || (state.status == AppStatus::Priming
        && state.record_while_priming)
}

/// The loading list without any entry for the given model.
pub open spec fn loading_without(s: Seq<LoadingEntry>, model: Seq<char>) -> Seq<LoadingEntry> {
    s.filter(|e: LoadingEntry| e.model@ != model)
}

/// Filtering one more entry keeps it exactly when its model differs.
proof fn lemma_loading_without_push(s: Seq<LoadingEntry>, e: LoadingEntry, model: Seq<char>)
    ensures
        e.model@ != model ==> loading_without(s.push(e), model) == loading_without(
            s,
            model,
        ).push(e),
        e.model@ == model ==> loading_without(s.push(e), model) == loading_without(s, model),
{
    reveal(Seq::filter);
    assert(s.push(e).drop_last() =~= s);
    assert(s.push(e).last() == e);
}

/// An empty list filters to itself.
proof fn lemma_loading_without_empty(s: Seq<LoadingEntry>, model: Seq<char>)
    requires
        s.len() == 0,
    ensures
        loading_without(s, model) == s,
{
    reveal(Seq::filter);
}

/// Remove the entries a model owns from the loading list.
fn remove_loading(loading: &mut Vec<LoadingEntry>, model: &str)
    ensures
        final(loading)@ == loading_without(old(loading)@, model@),
{
    let mut out: Vec<LoadingEntry> = Vec::new();
    let mut i: usize = 0;
    proof {
        lemma_loading_without_empty(loading@.subrange(0, 0), model@);
        assert(loading@.subrange(0, 0) =~= Seq::<LoadingEntry>::empty());
    }
    while i < loading.len()
        invariant
            i <= loading.len(),
            loading@ == old(loading)@,
            out@ == loading_without(loading@.subrange(0, i as int), model@),
        decreases loading.len() - i,
    {
        let entry = &loading[i];
        let keep = !str_eq(entry.model.as_str(), model);
        if keep {
            let copy = LoadingEntry { model: entry.model.clone(), progress: entry.progress };
            proof {
                assert(copy == loading@[i as int]);
            }
            out.push(copy);
        }
        proof {
            let prefix = loading@.subrange(0, i as int);
            let longer = loading@.subrange(0, i as int + 1);
            assert(longer =~= prefix.push(loading@[i as int]));
            lemma_loading_without_push(prefix, loading@[i as int], model@);
        }
        i = i + 1;
    }
    proof {
        assert(loading@.subrange(0, loading@.len() as int) =~= loading@);
    }
    *loading = out;
}

/// Replace a model's entry in the loading list: any existing entry for it
/// leaves, and one with the given progress joins at the end.
fn set_loading(loading: &mut Vec<LoadingEntry>, model: &str, percent: u8, eta_secs: u64)
    ensures
        final(loading)@.len() > 0,
        final(loading)@.drop_last() == loading_without(old(loading)@, model@),
        final(loading)@.last().model@ == model@,
        final(loading)@.last().progress == (ModelProgress { percent, eta_secs }),
{
    remove_loading(loading, model);
    loading.push(LoadingEntry { model: model.to_owned(), progress: ModelProgress { percent, eta_secs } });
    proof {
        assert(final(loading)@.drop_last() =~= loading_without(old(loading)@, model@));
    }
}

/// Clone the loading list for a view snapshot.
fn clone_loading(loading: &Vec<LoadingEntry>) -> (r: Vec<LoadingEntry>)
    ensures
        r@ == loading@,
{
    let mut out: Vec<LoadingEntry> = Vec::new();
    let mut i: usize = 0;
    while i < loading.len()
        invariant
            i <= loading.len(),
            out@ == loading@.subrange(0, i as int),
        decreases loading.len() - i,
    {
        let entry = &loading[i];
        out.push(LoadingEntry { model: entry.model.clone(), progress: entry.progress });
        i = i + 1;
        proof {
            assert(out@ =~= loading@.subrange(0, i as int));
        }
    }
    proof {
        assert(out@ =~= loading@);
    }
    out
}

/// What starting a recording asks of the caller: start the device stream,
/// enable the capture gate, and make sure this model file is loaded for this
/// language mode.
pub struct StartDirective {
    pub is_english: bool,
    pub model_file: String,
}

/// What a finished recording asks of the caller.
pub struct TranscribeRequest {
    /// The samples of this recording, by value.
    pub samples: Vec<Sample>,
    /// The language code detected when the recording started.
    pub language: String,
    pub is_english: bool,
    /// Whether to translate instead of transcribe — read now, not earlier,
    /// so a toggle made mid-recording takes effect for this very recording.
    pub translate: bool,
}

/// The outcome of a stop signal.
pub enum StopOutcome {
    /// The stop arrived while nothing was being recorded: a no-op beyond
    /// driving the view back to Ready.
    Ignored,
    /// The recording held no samples; no transcription is attempted.
    NoAudio,
    /// Transcribe these samples, then report completion.
    Transcribe(TranscribeRequest),
}

/// What the orchestrator answered a UI intent with.
#[derive(Debug, Clone, Copy, PartialEq, Eq, Structural)]
pub enum UiReaction {
    /// The intent changed nothing.
    Unchanged,
    /// A new model was selected: persist the configuration and begin
    /// acquiring the model's files.
    ModelChanged,
    /// Translate mode changed: persist the configuration.
    TranslateChanged,
    /// The user asked to quit.
    Quit,
}

/// Whether startup begins in `Priming`: some required file of the selected
/// tier is missing locally (the "large" tier has no English-specific file).
pub open spec fn needs_priming(model: Seq<char>, en_present: bool, multi_present: bool) -> bool {
    (model != "large"@ && !en_present) || !multi_present
}

/// The files a tier still needs, in download order: the English-only file if
/// it is needed and missing, then the multilingual file if missing.
pub open spec fn plan_files_spec(
    model: Seq<char>,
    en_exists: bool,
    multi_exists: bool,
) -> Seq<Seq<char>> {
    let files = both_files_spec(model);
    let with_en: Seq<Seq<char>> = if model != "large"@ && !en_exists {
        seq![files.0]
    } else {
        seq![]
    };
    if !multi_exists {
        with_en.push(files.1)
    } else {
        with_en
    }
}

/// One batch of files to fetch for a model, in order.
pub struct AcquisitionPlan {
    pub model: String,
    pub files: Vec<String>,
}

pub struct App {
    pub state: AppState,
}

impl App {
    /// A fresh orchestrator for the selected tier. `en_present` and
    /// `multi_present` report whether the tier's files exist locally; when
    /// one is missing the application starts in `Priming`.
    pub fn new(
        initial_model: String,
        translate_enabled: bool,
        en_present: bool,
        multi_present: bool,
        record_while_priming: bool,
    ) -> (r: App)
        ensures
            r.state.status == (if needs_priming(initial_model@, en_present, multi_present) {
                AppStatus::Priming
            } else {
                AppStatus::Ready
            }),
            r.state.current_language@ == "en"@,
            r.state.active_model == initial_model,
            r.state.loading@.len() == 0,
            r.state.translate_enabled == translate_enabled,
            r.state.record_while_priming == record_while_priming,
    {
        let app = App {
            state: AppState {
                status: AppStatus::Ready,
                current_language: "en".to_owned(),
                active_model: initial_model,
                loading: Vec::new(),
                translate_enabled,
                record_while_priming,
            },
        };
        app.with_startup_status(en_present, multi_present)
    }

    /// Adjust the initial status: `Priming` exactly when a required file of
    /// the active tier is missing locally.
    pub fn with_startup_status(self, en_present: bool, multi_present: bool) -> (r: App)
        ensures
            r.state.status == (if needs_priming(self.state.active_model@, en_present,
                multi_present) {
                AppStatus::Priming
            } else {
                AppStatus::Ready
            }),
            r.state.current_language == self.state.current_language,
            r.state.active_model == self.state.active_model,
            r.state.loading == self.state.loading,
            r.state.translate_enabled == self.state.translate_enabled,
            r.state.record_while_priming == self.state.record_while_priming,
    {
        let mut app = self;
        let need_en = !str_eq(app.state.active_model.as_str(), "large") && !en_present;
        let need_multi = !multi_present;
        if need_en || need_multi {
            app.state.status = AppStatus::Priming;
        } else {
            app.state.status = AppStatus::Ready;
        }
        app
    }

    /// The immutable snapshot the UI receives.
    pub fn post_view(&self) -> (r: AppView)
        ensures
            r.active_model == self.state.active_model,
            r.status == to_tray_spec(self.state.status),
            r.loading@ == self.state.loading@,
            r.translate_enabled == self.state.translate_enabled,
    {
        AppView {
            active_model: self.state.active_model.clone(),
            status: self.state.status.to_tray(),
            loading: clone_loading(&self.state.loading),
            translate_enabled: self.state.translate_enabled,
        }
    }

    /// A record-start signal. Accepted only in `Ready` — or also in
    /// `Priming` when configured for best-effort dictation during startup
    /// acquisition — which debounces duplicate press events and events
    /// arriving during processing. When accepted: the detected language is
    /// reduced and stored, the recording buffer is cleared, and the
    /// directive names the model file to resolve for the detected language
    /// mode. The caller then starts the device stream, enables capture (in
    /// that order), and begins lazy transcriber initialization without
    /// blocking.
    pub fn start_recording(&mut self, sink: &mut CaptureSink, detected_language: &str) -> (r:
        Option<StartDirective>)
        ensures
            !accepts_record_start(old(self).state) ==> {
                &&& *final(self) == *old(self)
                &&& *final(sink) == *old(sink)
                &&& r is None
            },
            accepts_record_start(old(self).state) ==> {
                &&& final(self).state.status == AppStatus::Recording
                &&& final(self).state.current_language@ == lang_code_spec(detected_language@)
                &&& final(self).state.active_model == old(self).state.active_model
                &&& final(self).state.loading == old(self).state.loading
                &&& final(self).state.translate_enabled == old(self).state.translate_enabled
                &&& final(self).state.record_while_priming == old(
                    self,
                ).state.record_while_priming
                &&& final(sink).gate == old(sink).gate
                &&& final(sink).buffer@.len() == 0
                &&& (r matches Some(d) && d.is_english == is_english_code(
                    lang_code_spec(detected_language@),
                ) && d.model_file@ == model_file_spec(
                    old(self).state.active_model@,
                    d.is_english,
                ))
            },
    {
        let accepted = match self.state.status {
            AppStatus::Ready => true,
            AppStatus::Priming => self.state.record_while_priming,
            _ => false,
        };
        if !accepted {
            return None;
        }
        self.state.status = AppStatus::Recording;

        let language_code = detect_language_code(detected_language);
        self.state.current_language = language_code;

        // Clear the previous recording before the caller starts the stream
        // and re-enables capture: no carry-over between recordings.
        sink.clear();

        let is_english = starts_with_en(self.state.current_language.as_str());
        let model_file = select_model_file(self.state.active_model.as_str(), is_english);
        Some(StartDirective { is_english, model_file })
    }

    /// A record-stop signal. While not recording it is a no-op beyond
    /// driving the status back to `Ready`: duplicate stop events — say, from
    /// an independently tracked modifier release — must not re-enter a
    /// recording cycle, and no transcription is attempted. While recording,
    /// the capture gate is disabled (the caller pauses the stream after this
    /// returns), the buffer is snapshot by value, and: an empty buffer goes
    /// straight back to `Ready`; otherwise the status is `Processing` and
    /// the request carries the samples, the stored language, and the
    /// translate flag as it is at this very moment.
    pub fn stop_and_transcribe(&mut self, sink: &mut CaptureSink) -> (r: StopOutcome)
        ensures
            final(self).state.current_language == old(self).state.current_language,
            final(self).state.active_model == old(self).state.active_model,
            final(self).state.loading == old(self).state.loading,
            final(self).state.translate_enabled == old(self).state.translate_enabled,
            final(self).state.record_while_priming == old(self).state.record_while_priming,
            old(self).state.status != AppStatus::Recording ==> {
                &&& final(self).state.status == AppStatus::Ready
                &&& *final(sink) == *old(sink)
                &&& r is Ignored
            },
            old(self).state.status == AppStatus::Recording ==> {
                &&& !final(sink).gate
                &&& final(sink).buffer@ == old(sink).buffer@
                &&& (old(sink).buffer@.len() == 0 ==> final(self).state.status == AppStatus::Ready
                    && r is NoAudio)
                &&& (old(sink).buffer@.len() > 0 ==> final(self).state.status
                    == AppStatus::Processing && (r matches StopOutcome::Transcribe(req)
                    && req.samples@ == old(sink).buffer@ && req.language == old(
                    self,
                ).state.current_language && req.is_english == is_english_code(
                    old(self).state.current_language@,
                ) && req.translate == old(self).state.translate_enabled))
            },
    {
        match self.state.status {
            AppStatus::Recording => {},
            _ => {
                self.state.status = AppStatus::Ready;
                return StopOutcome::Ignored;
            },
        }

        // Disable capture first; the caller pauses the stream afterwards.
        sink.stop_capture();

        let samples = sink.snapshot();
        if samples.len() == 0 {
            // The only stop edge that skips Processing.
            self.state.status = AppStatus::Ready;
            return StopOutcome::NoAudio;
        }

        self.state.status = AppStatus::Processing;
        let is_english = starts_with_en(self.state.current_language.as_str());
        StopOutcome::Transcribe(
            TranscribeRequest {
                samples,
                language: self.state.current_language.clone(),
                is_english,
                translate: self.state.translate_enabled,
            },
        )
    }

    /// Transcription finished — with or without a transcript. The status
    /// returns to `Ready` unconditionally; a failure is logged by the
    /// caller, not retried at this layer.
    pub fn on_transcription_complete(&mut self)
        ensures
            final(self).state.status == AppStatus::Ready,
            final(self).state.current_language == old(self).state.current_language,
            final(self).state.active_model == old(self).state.active_model,
            final(self).state.loading == old(self).state.loading,
            final(self).state.translate_enabled == old(self).state.translate_enabled,
            final(self).state.record_while_priming == old(self).state.record_while_priming,
    {
        self.state.status = AppStatus::Ready;
    }

    /// A UI intent. Selecting a model that is already active, or setting the
    /// translate flag to its current value, changes nothing. A new selection
    /// is stored (raw) as the active model while its normalized form goes to
    /// the configuration; the caller persists the configuration and begins
    /// model acquisition. A quit request is passed through.
    pub fn handle_ui_intent(&mut self, intent: UiIntent, config: &mut Config) -> (r: UiReaction)
        ensures
            final(self).state.status == old(self).state.status,
            final(self).state.current_language == old(self).state.current_language,
            final(self).state.loading == old(self).state.loading,
            final(self).state.record_while_priming == old(self).state.record_while_priming,
            match intent {
                UiIntent::SelectModel(model) => {
                    &&& final(self).state.translate_enabled == old(self).state.translate_enabled
                    &&& final(config).translate == old(config).translate
                    &&& final(config).device == old(config).device
                    &&& final(config).record_shortcut == old(config).record_shortcut
                    &&& final(config).toggle_shortcut == old(config).toggle_shortcut
                    &&& (model@ == old(self).state.active_model@ ==> r == UiReaction::Unchanged
                        && final(self).state.active_model == old(self).state.active_model
                        && final(config).selected_model == old(config).selected_model)
                    &&& (model@ != old(self).state.active_model@ ==> r == UiReaction::ModelChanged
                        && final(self).state.active_model == model
                        && final(config).selected_model@ == crate::config::normalize_model_spec(
                        model@,
                    ))
                },
                UiIntent::ToggleTranslate(enabled) => {
                    &&& final(self).state.active_model == old(self).state.active_model
                    &&& final(config).selected_model == old(config).selected_model
                    &&& final(config).device == old(config).device
                    &&& final(config).record_shortcut == old(config).record_shortcut
                    &&& final(config).toggle_shortcut == old(config).toggle_shortcut
                    &&& final(self).state.translate_enabled == enabled
                    &&& final(config).translate == enabled
                    &&& r == (if enabled == old(self).state.translate_enabled {
                        UiReaction::Unchanged
                    } else {
                        UiReaction::TranslateChanged
                    })
                },
                UiIntent::QuitRequested => {
                    &&& *final(self) == *old(self)
                    &&& *final(config) == *old(config)
                    &&& r == UiReaction::Quit
                },
            },
    {
        match intent {
            UiIntent::SelectModel(model) => {
                if str_eq(model.as_str(), self.state.active_model.as_str()) {
                    UiReaction::Unchanged
                } else {
                    save_selected_model(config, model.as_str());
                    self.state.active_model = model;
                    UiReaction::ModelChanged
                }
            },
            UiIntent::ToggleTranslate(enabled) => {
                if enabled == self.state.translate_enabled {
                    // The flag already has this value; keep the stored
                    // configuration in line with it all the same.
                    save_translate_enabled(config, enabled);
                    UiReaction::Unchanged
                } else {
                    self.state.translate_enabled = enabled;
                    save_translate_enabled(config, enabled);
                    UiReaction::TranslateChanged
                }
            },
            UiIntent::QuitRequested => UiReaction::Quit,
        }
    }

    /// The hotkey that flips translate mode. The new value is stored and
    /// goes to the configuration; the caller persists it.
    pub fn toggle_translate(&mut self, config: &mut Config)
        ensures
            final(self).state.translate_enabled == !old(self).state.translate_enabled,
            final(config).translate == !old(self).state.translate_enabled,
            final(self).state.status == old(self).state.status,
            final(self).state.record_while_priming == old(self).state.record_while_priming,
            final(self).state.current_language == old(self).state.current_language,
            final(self).state.active_model == old(self).state.active_model,
            final(self).state.loading == old(self).state.loading,
            final(config).selected_model == old(config).selected_model,
            final(config).device == old(config).device,
            final(config).record_shortcut == old(config).record_shortcut,
            final(config).toggle_shortcut == old(config).toggle_shortcut,
    {
        let new_val = !self.state.translate_enabled;
        self.state.translate_enabled = new_val;
        save_translate_enabled(config, new_val);
    }

    /// Begin asynchronous acquisition of a tier's files. When nothing is
    /// missing there is nothing to do. Otherwise the model is marked loading
    /// at zero percent and the plan lists the files to fetch, in order; the
    /// caller downloads them on a worker thread and reports completion.
    pub fn plan_model_acquisition(&mut self, model: &str, en_exists: bool, multi_exists: bool) -> (
        r: Option<AcquisitionPlan>)
        ensures
            final(self).state.status == old(self).state.status,
            final(self).state.current_language == old(self).state.current_language,
            final(self).state.active_model == old(self).state.active_model,
            final(self).state.translate_enabled == old(self).state.translate_enabled,
            final(self).state.record_while_priming == old(self).state.record_while_priming,
            plan_files_spec(model@, en_exists, multi_exists).len() == 0 ==> {
                &&& r is None
                &&& final(self).state.loading == old(self).state.loading
            },
            plan_files_spec(model@, en_exists, multi_exists).len() > 0 ==> {
                &&& (r matches Some(plan) && plan.model@ == model@ && plan.files@.map_values(
                    |f: String| f@,
                ) == plan_files_spec(model@, en_exists, multi_exists))
                &&& final(self).state.loading@.len() > 0
                &&& final(self).state.loading@.drop_last() == loading_without(
                    old(self).state.loading@,
                    model@,
                )
                &&& final(self).state.loading@.last().model@ == model@
                &&& final(self).state.loading@.last().progress == (ModelProgress {
                    percent: 0,
                    eta_secs: 0,
                })
            },
    {
        let need_en = !str_eq(model, "large") && !en_exists;
        let need_multi = !multi_exists;
        if !need_en && !need_multi {
            return None;
        }

        set_loading(&mut self.state.loading, model, 0, 0);

        let (en_file, multi_file) = get_both_model_filenames(model);
        let mut files: Vec<String> = Vec::new();
        if need_en {
            files.push(en_file);
        }
        if need_multi {
            files.push(multi_file);
        }
        proof {
            assert(files@.map_values(|f: String| f@) =~= plan_files_spec(
                model@,
                en_exists,
                multi_exists,
            ));
        }
        Some(AcquisitionPlan { model: model.to_owned(), files })
    }

    /// A whole acquisition batch finished: the model's progress entry is
    /// cleared, and the `Priming` flag — if it was set — gives way to
    /// `Ready`.
    pub fn on_acquisition_complete(&mut self, model: &str)
        ensures
            final(self).state.loading@ == loading_without(old(self).state.loading@, model@),
            old(self).state.status == AppStatus::Priming ==> final(self).state.status
                == AppStatus::Ready,
            old(self).state.status != AppStatus::Priming ==> final(self).state.status == old(
                self,
            ).state.status,
            final(self).state.current_language == old(self).state.current_language,
            final(self).state.active_model == old(self).state.active_model,
            final(self).state.translate_enabled == old(self).state.translate_enabled,
            final(self).state.record_while_priming == old(self).state.record_while_priming,
    {
        remove_loading(&mut self.state.loading, model);
        match self.state.status {
            AppStatus::Priming => {
                self.state.status = AppStatus::Ready;
            },
            _ => {},
        }
    }
}

/// The snapshot the download worker posts while a file is in flight: the
/// one loading entry carries the latest (percent, eta) pair, and the status
/// shows `Priming` only while the startup acquisition is still owed.
pub fn progress_view(
    active_model: &str,
    priming: bool,
    translate_enabled: bool,
    model: &str,
    percent: u8,
    eta_secs: u64,
) -> (r: AppView)
    ensures
        r.active_model@ == active_model@,
        r.status == (if priming {
            TrayStatus::Priming
        } else {
            TrayStatus::Ready
        }),
        r.loading@.len() == 1,
        r.loading@[0].model@ == model@,
        r.loading@[0].progress == (ModelProgress { percent, eta_secs }),
        r.translate_enabled == translate_enabled,
{
    let mut loading: Vec<LoadingEntry> = Vec::new();
    loading.push(
        LoadingEntry { model: model.to_owned(), progress: ModelProgress { percent, eta_secs } },
    );
    AppView {
        active_model: active_model.to_owned(),
        status: if priming {
            TrayStatus::Priming
        } else {
            TrayStatus::Ready
        },
        loading,
        translate_enabled,
    }
}

/// The final "ready" snapshot once a whole batch finished: an empty progress
/// map.
pub fn completion_view(active_model: &str, translate_enabled: bool) -> (r: AppView)
    ensures
        r.active_model@ == active_model@,
        r.status == TrayStatus::Ready,
        r.loading@.len() == 0,
        r.translate_enabled == translate_enabled,
{
    AppView {
        active_model: active_model.to_owned(),
        status: TrayStatus::Ready,
        loading: Vec::new(),
        translate_enabled,
    }
}

} // verus!
