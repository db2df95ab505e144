//! Global hotkey handling: parsing configurable `Mod+Mod+Key` combination
//! strings, tracking modifier state across raw key events, and deciding
//! which abstract events a recording combo emits.
//!
//! The OS-level key hook delivers raw press/release events from its own
//! thread; the state machine here is fed one event at a time and says what,
//! if anything, to send to the orchestrator. A combo's stop fires either
//! when its primary key is released or when a required modifier is released
//! while the combo is active — both must stop an in-progress recording.

use vstd::prelude::*;

verus! {

/// The keys the hotkey configuration can name, plus the modifier keys the
/// state machine tracks. Anything else a keyboard can produce is `Other`.
#[derive(Debug, Clone, Copy, PartialEq, Eq, Structural)]
pub enum Key {
    CapsLock,
    Escape,
    Return,
    KeyA,
    KeyB,
    KeyC,
    KeyD,
    KeyE,
    KeyF,
    KeyG,
    KeyH,
    KeyI,
    KeyJ,
    KeyK,
    KeyL,
    KeyM,
    KeyN,
    KeyO,
    KeyP,
    KeyQ,
    KeyR,
    KeyS,
    KeyT,
    KeyU,
    KeyV,
    KeyW,
    KeyX,
    KeyY,
    KeyZ,
    F1,
    F2,
    F3,
    F4,
    F5,
    F6,
    F7,
    F8,
    F9,
    F10,
    F11,
    F12,
    ControlLeft,
    ControlRight,
    ShiftLeft,
    ShiftRight,
    Alt,
    AltGr,
    MetaLeft,
    MetaRight,
    Other,
}

/// The abstract events the hotkey thread sends to the orchestrator.
#[derive(Debug, Clone, Copy, PartialEq, Eq, Structural)]
pub enum KeyboardEvent {
    /// Start recording.
    CtrlCapsLockPressed,
    /// Stop recording.
    CtrlCapsLockReleased,
    /// Toggle translate mode.
    AltCapsToggleTranslate,
}

/// One raw event from the OS key hook.
#[derive(Debug, Clone, Copy, PartialEq, Eq, Structural)]
pub enum InputEvent {
    KeyPress(Key),
    KeyRelease(Key),
}

/// A parsed key combination: a modifier set plus a primary key.
#[derive(Debug, Clone, Copy, PartialEq, Eq, Structural)]
pub struct Hotkey {
    pub ctrl: bool,
    pub alt: bool,
    pub shift: bool,
    pub super_: bool,
    pub key: Key,
}

/// The hotkey thread's state: which modifiers are down, the configured
/// combos, and whether the record combo is currently held.
#[derive(Debug, Clone, Copy, PartialEq, Eq, Structural)]
pub struct HotkeyState {
    pub ctrl_pressed: bool,
    pub alt_pressed: bool,
    pub shift_pressed: bool,
    pub super_pressed: bool,
    pub record_hotkey: Option<Hotkey>,
    pub mode_hotkey: Option<Hotkey>,
    pub record_active: bool,
}

impl HotkeyState {
    /// A fresh state: nothing pressed, nothing configured.
    pub fn new() -> (r: HotkeyState)
        ensures
            !r.ctrl_pressed,
            !r.alt_pressed,
            !r.shift_pressed,
            !r.super_pressed,
            r.record_hotkey is None,
            r.mode_hotkey is None,
            !r.record_active,
    {
        HotkeyState {
            ctrl_pressed: false,
            alt_pressed: false,
            shift_pressed: false,
            super_pressed: false,
            record_hotkey: None,
            mode_hotkey: None,
            record_active: false,
        }
    }
}

/// Character-for-character equality of a character vector and a string.
fn chars_eq_str(v: &Vec<char>, s: &str) -> (r: bool)
    ensures
        r == (v@ == s@),
{
    let n = s.unicode_len();
    if v.len() != n {
        return false;
    }
    let mut i: usize = 0;
    while i < n
        invariant
            i <= n,
            n == v@.len(),
            n == s@.len(),
            forall|j: int| 0 <= j < i ==> v@[j] == s@[j],
        decreases n - i,
    {
        if v[i] != s.get_char(i) {
            return false;
        }
        i = i + 1;
    }
    proof {
        assert(v@ =~= s@);
    }
    true
}

/// Copy a character vector.
fn clone_chars(v: &Vec<char>) -> (r: Vec<char>)
    ensures
        r@ == v@,
{
    let mut out: Vec<char> = Vec::new();
    let mut i: usize = 0;
    while i < v.len()
        invariant
            i <= v.len(),
            out@ == v@.subrange(0, i as int),
        decreases v.len() - i,
    {
        out.push(v[i]);
        i = i + 1;
        proof {
            assert(out@ =~= v@.subrange(0, i as int));
        }
    }
    proof {
        assert(out@ =~= v@);
    }
    out
}

/// The key a single letter names, in either case.
pub open spec fn letter_key_spec(c: char) -> Option<Key> {
    match c {
        'A' | 'a' => Some(Key::KeyA),
        'B' | 'b' => Some(Key::KeyB),
        'C' | 'c' => Some(Key::KeyC),
        'D' | 'd' => Some(Key::KeyD),
        'E' | 'e' => Some(Key::KeyE),
        'F' | 'f' => Some(Key::KeyF),
        'G' | 'g' => Some(Key::KeyG),
        'H' | 'h' => Some(Key::KeyH),
        'I' | 'i' => Some(Key::KeyI),
        'J' | 'j' => Some(Key::KeyJ),
        'K' | 'k' => Some(Key::KeyK),
        'L' | 'l' => Some(Key::KeyL),
        'M' | 'm' => Some(Key::KeyM),
        'N' | 'n' => Some(Key::KeyN),
        'O' | 'o' => Some(Key::KeyO),
        'P' | 'p' => Some(Key::KeyP),
        'Q' | 'q' => Some(Key::KeyQ),
        'R' | 'r' => Some(Key::KeyR),
        'S' | 's' => Some(Key::KeyS),
        'T' | 't' => Some(Key::KeyT),
        'U' | 'u' => Some(Key::KeyU),
        'V' | 'v' => Some(Key::KeyV),
        'W' | 'w' => Some(Key::KeyW),
        'X' | 'x' => Some(Key::KeyX),
        'Y' | 'y' => Some(Key::KeyY),
        'Z' | 'z' => Some(Key::KeyZ),
        _ => None,
    }
}

fn letter_key(c: char) -> (r: Option<Key>)
    ensures
        r == letter_key_spec(c),
{
    match c {
        'A' | 'a' => Some(Key::KeyA),
        'B' | 'b' => Some(Key::KeyB),
        'C' | 'c' => Some(Key::KeyC),
        'D' | 'd' => Some(Key::KeyD),
        'E' | 'e' => Some(Key::KeyE),
        'F' | 'f' => Some(Key::KeyF),
        'G' | 'g' => Some(Key::KeyG),
        'H' | 'h' => Some(Key::KeyH),
        'I' | 'i' => Some(Key::KeyI),
        'J' | 'j' => Some(Key::KeyJ),
        'K' | 'k' => Some(Key::KeyK),
        'L' | 'l' => Some(Key::KeyL),
        'M' | 'm' => Some(Key::KeyM),
        'N' | 'n' => Some(Key::KeyN),
        'O' | 'o' => Some(Key::KeyO),
        'P' | 'p' => Some(Key::KeyP),
        'Q' | 'q' => Some(Key::KeyQ),
        'R' | 'r' => Some(Key::KeyR),
        'S' | 's' => Some(Key::KeyS),
        'T' | 't' => Some(Key::KeyT),
        'U' | 'u' => Some(Key::KeyU),
        'V' | 'v' => Some(Key::KeyV),
        'W' | 'w' => Some(Key::KeyW),
        'X' | 'x' => Some(Key::KeyX),
        'Y' | 'y' => Some(Key::KeyY),
        'Z' | 'z' => Some(Key::KeyZ),
        _ => None,
    }
}

/// The function key an `F`-prefixed name selects: `F1` through `F12`.
pub open spec fn fkey_spec(s: Seq<char>) -> Option<Key> {
    if s.len() == 2 {
        match s[1] {
            '1' => Some(Key::F1),
            '2' => Some(Key::F2),
            '3' => Some(Key::F3),
            '4' => Some(Key::F4),
            '5' => Some(Key::F5),
            '6' => Some(Key::F6),
            '7' => Some(Key::F7),
            '8' => Some(Key::F8),
            '9' => Some(Key::F9),
            _ => None,
        }
    } else if s.len() == 3 && s[1] == '1' {
        match s[2] {
            '0' => Some(Key::F10),
            '1' => Some(Key::F11),
            '2' => Some(Key::F12),
            _ => None,
        }
    } else {
        None
    }
}

/// The key a name in a shortcut string selects: a few named keys, single
/// letters in either case, and `F1` through `F12`.
pub open spec fn key_of_name_spec(s: Seq<char>) -> Option<Key> {
    if s == "CapsLock"@ {
        Some(Key::CapsLock)
    } else if s == "Esc"@ || s == "Escape"@ {
        Some(Key::Escape)
    } else if s == "Enter"@ || s == "Return"@ {
        Some(Key::Return)
    } else if s.len() == 1 {
        letter_key_spec(s[0])
    } else if s.len() >= 2 && s[0] == 'F' {
        fkey_spec(s)
    } else {
        None
    }
}

fn key_of_chars(v: &Vec<char>) -> (r: Option<Key>)
    ensures
        r == key_of_name_spec(v@),
{
    if chars_eq_str(v, "CapsLock") {
        Some(Key::CapsLock)
    } else if chars_eq_str(v, "Esc") || chars_eq_str(v, "Escape") {
        Some(Key::Escape)
    } else if chars_eq_str(v, "Enter") || chars_eq_str(v, "Return") {
        Some(Key::Return)
    } else if v.len() == 1 {
        letter_key(v[0])
    } else if v.len() >= 2 && v[0] == 'F' {
        if v.len() == 2 {
            match v[1] {
                '1' => Some(Key::F1),
                '2' => Some(Key::F2),
                '3' => Some(Key::F3),
                '4' => Some(Key::F4),
                '5' => Some(Key::F5),
                '6' => Some(Key::F6),
                '7' => Some(Key::F7),
                '8' => Some(Key::F8),
                '9' => Some(Key::F9),
                _ => None,
            }
        } else if v.len() == 3 && v[1] == '1' {
            match v[2] {
                '0' => Some(Key::F10),
                '1' => Some(Key::F11),
                '2' => Some(Key::F12),
                _ => None,
            }
        } else {
            None
        }
    } else {
        None
    }
}

/// The key a name in a shortcut string selects.
pub fn parse_key_name(name: &str) -> (r: Option<Key>)
    ensures
        r == key_of_name_spec(name@),
{
    let n = name.unicode_len();
    let mut v: Vec<char> = Vec::new();
    let mut i: usize = 0;
    while i < n
        invariant
            i <= n,
            n == name@.len(),
            v@ == name@.subrange(0, i as int),
        decreases n - i,
    {
        v.push(name.get_char(i));
        i = i + 1;
        proof {
            assert(v@ =~= name@.subrange(0, i as int));
        }
    }
    proof {
        assert(v@ =~= name@);
    }
    key_of_chars(&v)
}

/// ASCII whitespace, as trimmed around the parts of a shortcut string.
pub open spec fn is_space_char(c: char) -> bool {
    c == ' ' || c == '\t' || c == '\n' || c == '\r'
}

/// A part with its surrounding ASCII whitespace removed.
pub open spec fn trim_spec(s: Seq<char>) -> Seq<char>
    decreases s.len(),
{
    if s.len() == 0 {
        s
    } else if is_space_char(s.first()) {
        trim_spec(s.drop_first())
    } else if is_space_char(s.last()) {
        trim_spec(s.drop_last())
    } else {
        s
    }
}

fn is_space(c: char) -> (r: bool)
    ensures
        r == is_space_char(c),
{
    c == ' ' || c == '\t' || c == '\n' || c == '\r'
}

fn trim_chars(v: Vec<char>) -> (r: Vec<char>)
    ensures
        r@ == trim_spec(v@),
    decreases v@.len(),
{
    if v.len() == 0 {
        v
    } else if is_space(v[0]) {
        let mut w = v;
        w.remove(0);
        proof {
            assert(w@ =~= v@.drop_first());
        }
        trim_chars(w)
    } else if is_space(v[v.len() - 1]) {
        let mut w = v;
        w.truncate(w.len() - 1);
        proof {
            assert(w@ =~= v@.drop_last());
        }
        trim_chars(w)
    } else {
        v
    }
}

/// A string split on `'+'`: always at least one part, and a separator at
/// either end or doubled yields an empty part there.
pub open spec fn split_plus(s: Seq<char>) -> Seq<Seq<char>>
    decreases s.len(),
{
    if s.len() == 0 {
        seq![Seq::<char>::empty()]
    } else if s.first() == '+' {
        seq![Seq::<char>::empty()] + split_plus(s.drop_first())
    } else {
        let r = split_plus(s.drop_first());
        seq![seq![s.first()] + r.first()] + r.drop_first()
    }
}

/// A split has at least one part.
pub proof fn lemma_split_plus_nonempty(s: Seq<char>)
    ensures
        split_plus(s).len() >= 1,
    decreases s.len(),
{
    if s.len() != 0 {
        lemma_split_plus_nonempty(s.drop_first());
    }
}

fn split_plus_chars(s: &str) -> (r: Vec<Vec<char>>)
    ensures
        r@.map_values(|v: Vec<char>| v@) == split_plus(s@),
        r@.len() >= 1,
    decreases s@.len(),
{
    let n = s.unicode_len();
    if n == 0 {
        let mut r: Vec<Vec<char>> = Vec::new();
        r.push(Vec::new());
        proof {
            assert(r@.map_values(|v: Vec<char>| v@) =~~= split_plus(s@));
        }
        r
    } else {
        let c = s.get_char(0);
        let rest = s.substring_char(1, n);
        proof {
            assert(rest@ =~= s@.drop_first());
            lemma_split_plus_nonempty(rest@);
        }
        let mut r = split_plus_chars(rest);
        if c == '+' {
            let empty: Vec<char> = Vec::new();
            r.insert(0, empty);
            proof {
                assert(r@.map_values(|v: Vec<char>| v@) =~~= split_plus(s@));
            }
        } else {
            let mut head = r.remove(0);
            head.insert(0, c);
            r.insert(0, head);
            proof {
                assert(r@.map_values(|v: Vec<char>| v@) =~~= split_plus(s@));
            }
        }
        r
    }
}

/// The running result of reading a shortcut string's parts: which modifiers
/// were named, and the last primary key a part named (a later part wins).
#[derive(Debug, Clone, Copy, PartialEq, Eq, Structural)]
pub struct ShortcutAcc {
    pub ctrl: bool,
    pub alt: bool,
    pub shift: bool,
    pub super_: bool,
    pub key: Option<Key>,
}

/// How one (trimmed) part updates the running result.
pub open spec fn apply_part(acc: ShortcutAcc, part: Seq<char>) -> ShortcutAcc {
    let p = trim_spec(part);
    if p == "Ctrl"@ || p == "Control"@ {
        ShortcutAcc { ctrl: true, ..acc }
    } else if p == "Alt"@ || p == "AltGr"@ {
        ShortcutAcc { alt: true, ..acc }
    } else if p == "Shift"@ {
        ShortcutAcc { shift: true, ..acc }
    } else if p == "Super"@ || p == "Meta"@ || p == "Win"@ {
        ShortcutAcc { super_: true, ..acc }
    } else {
        ShortcutAcc { key: key_of_name_spec(p), ..acc }
    }
}

/// Reading all parts, first to last.
pub open spec fn parse_acc(parts: Seq<Seq<char>>, acc: ShortcutAcc) -> ShortcutAcc
    decreases parts.len(),
{
    if parts.len() == 0 {
        acc
    } else {
        parse_acc(parts.drop_first(), apply_part(acc, parts.first()))
    }
}

/// The accumulator a shortcut string starts from.
pub open spec fn empty_acc() -> ShortcutAcc {
    ShortcutAcc { ctrl: false, alt: false, shift: false, super_: false, key: None }
}

/// What a shortcut string parses to: a combination exactly when some part
/// named a primary key.
pub open spec fn parse_shortcut_spec(s: Seq<char>) -> Option<Hotkey> {
    let acc = parse_acc(split_plus(s), empty_acc());
    match acc.key {
        Some(k) => Some(
            Hotkey { ctrl: acc.ctrl, alt: acc.alt, shift: acc.shift, super_: acc.super_, key: k },
        ),
        None => None,
    }
}

/// Parse a `Mod+Mod+Key` combination string.
pub fn parse_shortcut(s: &str) -> (r: Option<Hotkey>)
    ensures
        r == parse_shortcut_spec(s@),
{
    let parts = split_plus_chars(s);
    let ghost parts_views = parts@.map_values(|v: Vec<char>| v@);
    let mut acc = ShortcutAcc { ctrl: false, alt: false, shift: false, super_: false, key: None };
    let mut i: usize = 0;
    proof {
        assert(parts_views.subrange(0, parts_views.len() as int) =~= parts_views);
    }
    while i < parts.len()
        invariant
            i <= parts.len(),
            parts_views == parts@.map_values(|v: Vec<char>| v@),
            parse_acc(parts_views.subrange(i as int, parts_views.len() as int), acc) == parse_acc(
                parts_views,
                empty_acc(),
            ),
        decreases parts.len() - i,
    {
        let ghost acc0 = acc;
        let t = trim_chars(clone_chars(&parts[i]));
        if chars_eq_str(&t, "Ctrl") || chars_eq_str(&t, "Control") {
            acc.ctrl = true;
        } else if chars_eq_str(&t, "Alt") || chars_eq_str(&t, "AltGr") {
            acc.alt = true;
        } else if chars_eq_str(&t, "Shift") {
            acc.shift = true;
        } else if chars_eq_str(&t, "Super") || chars_eq_str(&t, "Meta") || chars_eq_str(
            &t,
            "Win",
        ) {
            acc.super_ = true;
        } else {
            acc.key = key_of_chars(&t);
        }
        proof {
            assert(acc == apply_part(acc0, parts_views[i as int]));
            let tail = parts_views.subrange(i as int, parts_views.len() as int);
            assert(tail.first() == parts_views[i as int]);
            assert(tail.drop_first() =~= parts_views.subrange(
                i as int + 1,
                parts_views.len() as int,
            ));
        }
        i = i + 1;
    }
    proof {
        assert(parts_views.subrange(
            parts_views.len() as int,
            parts_views.len() as int,
        ) =~= Seq::<Seq<char>>::empty());
    }
    match acc.key {
        Some(k) => Some(
            Hotkey { ctrl: acc.ctrl, alt: acc.alt, shift: acc.shift, super_: acc.super_, key: k },
        ),
        None => None,
    }
}

/// Store the two configured combos in the hotkey state.
pub fn init_hotkeys_from_config(st: &mut HotkeyState, record: &str, change_mode: &str)
    ensures
        final(st).record_hotkey == parse_shortcut_spec(record@),
        final(st).mode_hotkey == parse_shortcut_spec(change_mode@),
        final(st).ctrl_pressed == old(st).ctrl_pressed,
        final(st).alt_pressed == old(st).alt_pressed,
        final(st).shift_pressed == old(st).shift_pressed,
        final(st).super_pressed == old(st).super_pressed,
        final(st).record_active == old(st).record_active,
{
    st.record_hotkey = parse_shortcut(record);
    st.mode_hotkey = parse_shortcut(change_mode);
}

/// Whether a key is one of the tracked modifier keys.
pub open spec fn is_modifier_key_spec(k: Key) -> bool {
    k == Key::ControlLeft || k == Key::ControlRight || k == Key::ShiftLeft || k == Key::ShiftRight
        || k == Key::Alt || k == Key::AltGr || k == Key::MetaLeft || k == Key::MetaRight
}

pub fn is_modifier_key(k: Key) -> (r: bool)
    ensures
        r == is_modifier_key_spec(k),
{
    match k {
        Key::ControlLeft | Key::ControlRight | Key::ShiftLeft | Key::ShiftRight | Key::Alt
            | Key::AltGr | Key::MetaLeft | Key::MetaRight => true,
        _ => false,
    }
}

/// Whether every modifier a combo requires is currently down. Extra pressed
/// modifiers do not hurt.
pub open spec fn mods_match_spec(h: Hotkey, st: HotkeyState) -> bool {
    (!h.ctrl || st.ctrl_pressed) && (!h.alt || st.alt_pressed) && (!h.shift || st.shift_pressed)
        && (!h.super_ || st.super_pressed)
}

pub fn mods_match(h: Hotkey, st: &HotkeyState) -> (r: bool)
    ensures
        r == mods_match_spec(h, *st),
{
    (!h.ctrl || st.ctrl_pressed) && (!h.alt || st.alt_pressed) && (!h.shift || st.shift_pressed)
        && (!h.super_ || st.super_pressed)
}

/// The state once a released key's modifier flag, if any, is cleared.
pub open spec fn release_flags(st: HotkeyState, k: Key) -> HotkeyState {
    if k == Key::ControlLeft || k == Key::ControlRight {
        HotkeyState { ctrl_pressed: false, ..st }
    } else if k == Key::ShiftLeft || k == Key::ShiftRight {
        HotkeyState { shift_pressed: false, ..st }
    } else if k == Key::Alt || k == Key::AltGr {
        HotkeyState { alt_pressed: false, ..st }
    } else if k == Key::MetaLeft || k == Key::MetaRight {
        HotkeyState { super_pressed: false, ..st }
    } else {
        st
    }
}

/// Whether releasing this key releases a modifier the combo requires.
pub open spec fn released_required_modifier(h: Hotkey, k: Key) -> bool {
    (h.ctrl && (k == Key::ControlLeft || k == Key::ControlRight)) || (h.alt && (k == Key::Alt || k
        == Key::AltGr)) || (h.shift && (k == Key::ShiftLeft || k == Key::ShiftRight)) || (h.super_
        && (k == Key::MetaLeft || k == Key::MetaRight))
}

/// A non-modifier press against the mode combo.
pub open spec fn press_mode_step(st: HotkeyState, k: Key) -> (HotkeyState, Option<KeyboardEvent>) {
    match st.mode_hotkey {
        Some(h) => if k == h.key && mods_match_spec(h, st) {
            (st, Some(KeyboardEvent::AltCapsToggleTranslate))
        } else {
            (st, None)
        },
        None => (st, None),
    }
}

/// What one raw key event does to the hotkey state, and what it emits.
///
/// A modifier press only records the modifier. A non-modifier press fires
/// the record combo first (arming it), else the mode combo. A release first
/// clears its modifier flag; while the record combo is armed, releasing its
/// primary key — or any modifier it requires — disarms it and emits the
/// stop event.
pub open spec fn hk_step(st: HotkeyState, ev: InputEvent) -> (HotkeyState, Option<KeyboardEvent>) {
    match ev {
        InputEvent::KeyPress(k) => {
            if k == Key::ControlLeft || k == Key::ControlRight {
                (HotkeyState { ctrl_pressed: true, ..st }, None)
            } else if k == Key::ShiftLeft || k == Key::ShiftRight {
                (HotkeyState { shift_pressed: true, ..st }, None)
            } else if k == Key::Alt || k == Key::AltGr {
                (HotkeyState { alt_pressed: true, ..st }, None)
            } else if k == Key::MetaLeft || k == Key::MetaRight {
                (HotkeyState { super_pressed: true, ..st }, None)
            } else {
                match st.record_hotkey {
                    Some(h) => if k == h.key && mods_match_spec(h, st) {
                        (
                            HotkeyState { record_active: true, ..st },
                            Some(KeyboardEvent::CtrlCapsLockPressed),
                        )
                    } else {
                        press_mode_step(st, k)
                    },
                    None => press_mode_step(st, k),
                }
            }
        },
        InputEvent::KeyRelease(k) => {
            let st1 = release_flags(st, k);
            if st.record_active {
                match st.record_hotkey {
                    Some(h) => if k == h.key || released_required_modifier(h, k) {
                        (
                            HotkeyState { record_active: false, ..st1 },
                            Some(KeyboardEvent::CtrlCapsLockReleased),
                        )
                    } else {
                        (st1, None)
                    },
                    None => (st1, None),
                }
            } else {
                (st1, None)
            }
        },
    }
}

/// Feed one raw key event through the hotkey state machine; the result, if
/// any, is sent to the orchestrator.
pub fn handle_keyboard_event(st: &mut HotkeyState, event: InputEvent) -> (r: Option<KeyboardEvent>)
    ensures
        *final(st) == hk_step(*old(st), event).0,
        r == hk_step(*old(st), event).1,
{
    match event {
        InputEvent::KeyPress(k) => {
            if k == Key::ControlLeft || k == Key::ControlRight {
                st.ctrl_pressed = true;
                return None;
            }
            if k == Key::ShiftLeft || k == Key::ShiftRight {
                st.shift_pressed = true;
                return None;
            }
            if k == Key::Alt || k == Key::AltGr {
                st.alt_pressed = true;
                return None;
            }
            if k == Key::MetaLeft || k == Key::MetaRight {
                st.super_pressed = true;
                return None;
            }
            if let Some(h) = st.record_hotkey {
                if k == h.key && mods_match(h, st) {
                    st.record_active = true;
                    return Some(KeyboardEvent::CtrlCapsLockPressed);
                }
            }
            if let Some(h) = st.mode_hotkey {
                if k == h.key && mods_match(h, st) {
                    return Some(KeyboardEvent::AltCapsToggleTranslate);
                }
            }
            None
        },
        InputEvent::KeyRelease(k) => {
            let was_active = st.record_active;
            if k == Key::ControlLeft || k == Key::ControlRight {
                st.ctrl_pressed = false;
            } else if k == Key::ShiftLeft || k == Key::ShiftRight {
                st.shift_pressed = false;
            } else if k == Key::Alt || k == Key::AltGr {
                st.alt_pressed = false;
            } else if k == Key::MetaLeft || k == Key::MetaRight {
                st.super_pressed = false;
            }
            if was_active {
                if let Some(h) = st.record_hotkey {
                    let released = k == h.key || (h.ctrl && (k == Key::ControlLeft || k
                        == Key::ControlRight)) || (h.alt && (k == Key::Alt || k == Key::AltGr))
                        || (h.shift && (k == Key::ShiftLeft || k == Key::ShiftRight)) || (h.super_
                        && (k == Key::MetaLeft || k == Key::MetaRight));
                    if released {
                        st.record_active = false;
                        return Some(KeyboardEvent::CtrlCapsLockReleased);
                    }
                }
            }
            None
        },
    }
}

} // verus!
