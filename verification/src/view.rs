//! UI-facing projections: the immutable snapshot the orchestrator pushes to
//! whatever view is attached, the intents a view can send back, and the pure
//! formatting helpers the tray display uses.

use vstd::prelude::*;

verus! {

/// The externally visible status, as shown by the tray icon.
#[derive(Debug, Clone, Copy, PartialEq, Eq, Structural)]
pub enum TrayStatus {
    Priming,
    Ready,
    Recording,
    Processing,
}

/// Download progress of one model: integer percent and estimated seconds
/// left.
#[derive(Debug, Clone, Copy, PartialEq, Eq, Structural)]
pub struct ModelProgress {
    pub percent: u8,
    pub eta_secs: u64,
}

/// One in-flight download in a view snapshot: which model, and how far along.
pub struct LoadingEntry {
    pub model: String,
    pub progress: ModelProgress,
}

/// An immutable snapshot for the UI; the UI never mutates it, only reacts.
pub struct AppView {
    pub active_model: String,
    pub status: TrayStatus,
    pub loading: Vec<LoadingEntry>,
    pub translate_enabled: bool,
}

/// What a view can ask of the orchestrator.
pub enum UiIntent {
    SelectModel(String),
    ToggleTranslate(bool),
    QuitRequested,
}

/// The icon that a status and translate-mode pair displays.
pub open spec fn icon_name_spec(status: TrayStatus, translate: bool) -> Seq<char> {
    match (status, translate) {
        (TrayStatus::Priming, false) => "voice-input-yellow"@,
        (TrayStatus::Ready, false) => "voice-input-white"@,
        (TrayStatus::Recording, false) => "voice-input-red"@,
        (TrayStatus::Processing, false) => "voice-input-blue"@,
        (TrayStatus::Priming, true) => "voice-input-translate-yellow"@,
        (TrayStatus::Ready, true) => "voice-input-translate-white"@,
        (TrayStatus::Recording, true) => "voice-input-translate-red"@,
        (TrayStatus::Processing, true) => "voice-input-translate-blue"@,
    }
}

/// The icon name for a status and translate-mode pair.
pub fn icon_name_for_status(status: TrayStatus, translate: bool) -> (r: &'static str)
    ensures
        r@ == icon_name_spec(status, translate),
{
    match (status, translate) {
        (TrayStatus::Priming, false) => "voice-input-yellow",
        (TrayStatus::Ready, false) => "voice-input-white",
        (TrayStatus::Recording, false) => "voice-input-red",
        (TrayStatus::Processing, false) => "voice-input-blue",
        (TrayStatus::Priming, true) => "voice-input-translate-yellow",
        (TrayStatus::Ready, true) => "voice-input-translate-white",
        (TrayStatus::Recording, true) => "voice-input-translate-red",
        (TrayStatus::Processing, true) => "voice-input-translate-blue",
    }
}

/// The character a decimal digit displays as.
pub open spec fn digit_char(d: nat) -> char {
    if d == 0 {
        '0'
    } else if d == 1 {
        '1'
    } else if d == 2 {
        '2'
    } else if d == 3 {
        '3'
    } else if d == 4 {
        '4'
    } else if d == 5 {
        '5'
    } else if d == 6 {
        '6'
    } else if d == 7 {
        '7'
    } else if d == 8 {
        '8'
    } else {
        '9'
    }
}

/// The decimal rendering of a number, most significant digit first, with no
/// leading zero except for zero itself.
pub open spec fn dec_rep(n: nat) -> Seq<char>
    decreases n,
{
    if n < 10 {
        seq![digit_char(n)]
    } else {
        dec_rep(n / 10).push(digit_char(n % 10))
    }
}

/// A number rendered to at least two digits, zero-padded: how minutes and
/// seconds appear in a clock display.
pub open spec fn pad2_rep(n: nat) -> Seq<char> {
    if n < 10 {
        seq!['0', digit_char(n)]
    } else {
        dec_rep(n)
    }
}

/// One decimal digit as a string slice.
fn digit_str(d: u64) -> (r: &'static str)
    requires
        d < 10,
    ensures
        r@ == seq![digit_char(d as nat)],
{
    let r: &'static str = if d == 0 {
        "0"
    } else if d == 1 {
        "1"
    } else if d == 2 {
        "2"
    } else if d == 3 {
        "3"
    } else if d == 4 {
        "4"
    } else if d == 5 {
        "5"
    } else if d == 6 {
        "6"
    } else if d == 7 {
        "7"
    } else if d == 8 {
        "8"
    } else {
        "9"
    };
    proof {
        reveal_strlit("0");
        reveal_strlit("1");
        reveal_strlit("2");
        reveal_strlit("3");
        reveal_strlit("4");
        reveal_strlit("5");
        reveal_strlit("6");
        reveal_strlit("7");
        reveal_strlit("8");
        reveal_strlit("9");
        assert(r@ =~= seq![digit_char(d as nat)]);
    }
    r
}

/// A number rendered in decimal.
pub fn u64_to_string(n: u64) -> (r: String)
    ensures
        r@ == dec_rep(n as nat),
    decreases n,
{
    if n < 10 {
        digit_str(n).to_owned()
    } else {
        let prefix = u64_to_string(n / 10);
        let r = prefix.concat(digit_str(n % 10));
        proof {
            assert(r@ =~= dec_rep(n as nat));
        }
        r
    }
}

/// A number rendered to at least two digits, zero-padded.
fn pad2_string(n: u64) -> (r: String)
    requires
        n < 100,
    ensures
        r@ == pad2_rep(n as nat),
{
    if n < 10 {
        let r = "0".to_owned().concat(digit_str(n));
        proof {
            reveal_strlit("0");
            assert(r@ =~= pad2_rep(n as nat));
        }
        r
    } else {
        u64_to_string(n)
    }
}

/// How a duration in seconds is displayed: `H:MM:SS` when there are whole
/// hours, and `MM:SS` otherwise.
pub open spec fn eta_rep(secs: nat) -> Seq<char> {
    let hours = secs / 3600;
    let minutes = (secs % 3600) / 60;
    let seconds = secs % 60;
    if hours > 0 {
        dec_rep(hours) + seq![':'] + pad2_rep(minutes) + seq![':'] + pad2_rep(seconds)
    } else {
        pad2_rep(minutes) + seq![':'] + pad2_rep(seconds)
    }
}

/// Render a duration in seconds for the tray display.
pub fn format_eta(secs: u64) -> (r: String)
    ensures
        r@ == eta_rep(secs as nat),
{
    let hours = secs / 3600;
    let minutes = (secs % 3600) / 60;
    let seconds = secs % 60;
    proof {
        vstd::arithmetic::div_mod::lemma_div_is_ordered(secs as int % 3600, 3599, 60);
        reveal_strlit(":");
    }
    if hours > 0 {
        let r = u64_to_string(hours).concat(":").concat(pad2_string(minutes).as_str()).concat(
            ":",
        ).concat(pad2_string(seconds).as_str());
        proof {
            assert(r@ =~= eta_rep(secs as nat));
        }
        r
    } else {
        let r = pad2_string(minutes).concat(":").concat(pad2_string(seconds).as_str());
        proof {
            assert(r@ =~= eta_rep(secs as nat));
        }
        r
    }
}

} // verus!
