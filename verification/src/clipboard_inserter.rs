//! The clipboard insertion protocol: save the clipboard, write the
//! transcript, simulate a paste chord with settle delays, restore the
//! clipboard.
//!
//! Executing a step — setting the clipboard, injecting a key event,
//! sleeping — is outside work. What is verified here is the plan itself: the
//! exact sequence of steps an insertion performs, and that interpreting the
//! plan over any starting clipboard leaves the original content restored at
//! the end while the transcript sits in the clipboard for the whole paste
//! window.

use vstd::prelude::*;

use crate::hotkeys::Key;

verus! {

/// One step of an insertion, in the order the executing thread performs
/// them.
pub enum InsertStep {
    /// Write this text to the system clipboard.
    SetClipboard(String),
    /// Let the system settle for this many milliseconds.
    SleepMs(u64),
    /// Simulate pressing a key.
    KeyDown(Key),
    /// Simulate releasing a key.
    KeyUp(Key),
}

/// The clipboard content after running the steps from a starting content;
/// only `SetClipboard` touches the clipboard.
pub open spec fn clipboard_after(steps: Seq<InsertStep>, init: Option<Seq<char>>) -> Option<
    Seq<char>,
>
    decreases steps.len(),
{
    if steps.len() == 0 {
        init
    } else {
        let next = match steps.first() {
            InsertStep::SetClipboard(s) => Some(s@),
            _ => init,
        };
        clipboard_after(steps.drop_first(), next)
    }
}

/// The shape of an insertion plan for a transcript and the clipboard
/// content saved beforehand: the transcript goes to the clipboard first;
/// stuck modifiers are released; a paste chord is simulated with small
/// inter-event delays; after a longer settle delay, the saved content — if
/// any existed — returns to the clipboard last.
pub open spec fn is_insert_plan(
    steps: Seq<InsertStep>,
    text: Seq<char>,
    original: Option<Seq<char>>,
) -> bool {
    &&& steps.len() == (if original is Some {
        17int
    } else {
        15int
    })
    &&& (steps[0] matches InsertStep::SetClipboard(s) && s@ == text)
    &&& steps[1] == InsertStep::SleepMs(120)
    &&& steps[2] == InsertStep::KeyUp(Key::ControlLeft)
    &&& steps[3] == InsertStep::KeyUp(Key::ControlRight)
    &&& steps[4] == InsertStep::KeyUp(Key::ShiftLeft)
    &&& steps[5] == InsertStep::KeyUp(Key::ShiftRight)
    &&& steps[6] == InsertStep::KeyUp(Key::Alt)
    &&& steps[7] == InsertStep::KeyDown(Key::ControlLeft)
    &&& steps[8] == InsertStep::SleepMs(20)
    &&& steps[9] == InsertStep::KeyDown(Key::KeyV)
    &&& steps[10] == InsertStep::SleepMs(30)
    &&& steps[11] == InsertStep::KeyUp(Key::KeyV)
    &&& steps[12] == InsertStep::SleepMs(20)
    &&& steps[13] == InsertStep::KeyUp(Key::ControlLeft)
    &&& steps[14] == InsertStep::SleepMs(350)
    &&& match original {
        Some(c) => steps[15] == InsertStep::SleepMs(50) && (steps[16]
            matches InsertStep::SetClipboard(s) && s@ == c),
        None => true,
    }
}

/// Build the insertion plan for a transcript, given whatever content the
/// clipboard held beforehand (absence is not an error; there is then
/// nothing to restore).
pub fn insert_text_plan(text: &str, original: &Option<String>) -> (r: Vec<InsertStep>)
    ensures
        is_insert_plan(
            r@,
            text@,
            match *original {
                Some(ref c) => Some(c@),
                None => None,
            },
        ),
{
    let mut steps: Vec<InsertStep> = Vec::new();
    steps.push(InsertStep::SetClipboard(text.to_owned()));
    steps.push(InsertStep::SleepMs(120));
    steps.push(InsertStep::KeyUp(Key::ControlLeft));
    steps.push(InsertStep::KeyUp(Key::ControlRight));
    steps.push(InsertStep::KeyUp(Key::ShiftLeft));
    steps.push(InsertStep::KeyUp(Key::ShiftRight));
    steps.push(InsertStep::KeyUp(Key::Alt));
    steps.push(InsertStep::KeyDown(Key::ControlLeft));
    steps.push(InsertStep::SleepMs(20));
    steps.push(InsertStep::KeyDown(Key::KeyV));
    steps.push(InsertStep::SleepMs(30));
    steps.push(InsertStep::KeyUp(Key::KeyV));
    steps.push(InsertStep::SleepMs(20));
    steps.push(InsertStep::KeyUp(Key::ControlLeft));
    steps.push(InsertStep::SleepMs(350));
    match original {
        Some(c) => {
            steps.push(InsertStep::SleepMs(50));
            steps.push(InsertStep::SetClipboard(c.clone()));
        },
        None => {},
    }
    steps
}

/// Running steps that never set the clipboard leaves it as it was.
proof fn lemma_no_sets_preserve(steps: Seq<InsertStep>, init: Option<Seq<char>>)
    requires
        forall|i: int| 0 <= i < steps.len() ==> !(#[trigger] steps[i] is SetClipboard),
    ensures
        clipboard_after(steps, init) == init,
    decreases steps.len(),
{
    if steps.len() > 0 {
        assert(steps.first() == steps[0]);
        assert(forall|i: int|
            0 <= i < steps.drop_first().len() ==> #[trigger] steps.drop_first()[i] == steps[i
                + 1]);
        lemma_no_sets_preserve(steps.drop_first(), init);
    }
}

/// Running concatenated step lists runs them one after the other.
proof fn lemma_clipboard_concat(a: Seq<InsertStep>, b: Seq<InsertStep>, init: Option<Seq<char>>)
    ensures
        clipboard_after(a + b, init) == clipboard_after(b, clipboard_after(a, init)),
    decreases a.len(),
{
    if a.len() == 0 {
        assert(a + b =~= b);
    } else {
        assert((a + b).first() == a.first());
        assert((a + b).drop_first() =~= a.drop_first() + b);
        let next = match a.first() {
            InsertStep::SetClipboard(s) => Some(s@),
            _ => init,
        };
        lemma_clipboard_concat(a.drop_first(), b, next);
    }
}

/// During the window between the transcript write and the restoration — in
/// particular for the whole paste simulation — the clipboard holds the
/// transcript: after any prefix of the plan beyond its first step and short
/// of the restore step, the clipboard content is exactly the transcript.
pub proof fn lemma_clipboard_window(
    steps: Seq<InsertStep>,
    text: Seq<char>,
    original: Option<Seq<char>>,
    init: Option<Seq<char>>,
    j: int,
)
    requires
        is_insert_plan(steps, text, original),
        1 <= j <= 15,
    ensures
        clipboard_after(steps.subrange(0, j), init) == Some(text),
{
    let first = steps.subrange(0, 1);
    let mid = steps.subrange(1, j);
    assert(steps.subrange(0, j) =~= first + mid);
    lemma_clipboard_concat(first, mid, init);
    let e = Seq::<InsertStep>::empty();
    assert(first.drop_first() =~= e);
    assert(clipboard_after(e, Some(text)) == Some(text));
    assert(first.first() == steps[0]);
    assert(clipboard_after(first, init) == Some(text));
    assert(forall|i: int| 0 <= i < mid.len() ==> #[trigger] mid[i] == steps[i + 1]);
    lemma_no_sets_preserve(mid, Some(text));
}

/// Clipboard restoration: when content was saved beforehand, running the
/// whole plan — paste chord, settle delays and all — leaves the clipboard
/// holding exactly that content again, whatever it held at any point in
/// between.
pub proof fn lemma_clipboard_restored(
    steps: Seq<InsertStep>,
    text: Seq<char>,
    c: Seq<char>,
    init: Option<Seq<char>>,
)
    requires
        is_insert_plan(steps, text, Some(c)),
    ensures
        clipboard_after(steps, init) == Some(c),
{
    let e = Seq::<InsertStep>::empty();
    let head = steps.subrange(0, 16);
    let last = steps.subrange(16, 17);
    assert(steps =~= head + last);
    lemma_clipboard_concat(head, last, init);
    lemma_clipboard_window(steps, text, Some(c), init, 15);
    let w15 = steps.subrange(0, 15);
    let s15 = steps.subrange(15, 16);
    assert(head =~= w15 + s15);
    lemma_clipboard_concat(w15, s15, init);
    assert(forall|i: int| 0 <= i < s15.len() ==> !(#[trigger] s15[i] is SetClipboard));
    lemma_no_sets_preserve(s15, Some(text));
    assert(clipboard_after(head, init) == Some(text));
    assert(last.drop_first() =~= e);
    assert(clipboard_after(e, Some(c)) == Some(c));
    assert(last.first() == steps[16]);
    assert(clipboard_after(last, Some(text)) == Some(c));
}

/// A plan with no saved content never sets the clipboard again after the
/// transcript write: the transcript simply stays.
pub proof fn lemma_clipboard_no_original(
    steps: Seq<InsertStep>,
    text: Seq<char>,
    init: Option<Seq<char>>,
)
    requires
        is_insert_plan(steps, text, None),
    ensures
        clipboard_after(steps, init) == Some(text),
{
    lemma_clipboard_window(steps, text, None, init, 15);
    assert(steps.subrange(0, 15) =~= steps);
}

} // verus!
