//! The transcriber pool: at most one loaded speech-model instance per
//! language mode, lazily constructed, reused across recordings, and
//! explicitly evictable.
//!
//! Constructing the real engine instance means reading a model file, which is
//! I/O and lives outside this library. The pool therefore tracks each slot's
//! lifecycle as a value — which file is loaded, or that a load was attempted
//! and failed — and the functions here decide *whether* and *what* to load.
//! The caller performs the actual load under the slot's lock and reports the
//! outcome back, so the check-then-load sequence below is a critical section
//! per slot.

use vstd::prelude::*;

use crate::catalog::baseline_file_spec;

verus! {

/// The lifecycle state of one language-mode slot.
pub enum SlotState {
    /// No load was attempted since startup or the last eviction.
    Empty,
    /// A model was loaded from the named file and is ready for use.
    Loaded(String),
    /// A load was attempted once and failed; the slot is left non-functional
    /// rather than re-attempting construction on every recording.
    Failed,
}

/// One slot per language mode (English-only, multilingual).
pub struct TranscriberPool {
    pub english: SlotState,
    pub multilingual: SlotState,
}

/// The slot a language mode selects.
pub open spec fn slot_of(pool: TranscriberPool, is_english: bool) -> SlotState {
    if is_english {
        pool.english
    } else {
        pool.multilingual
    }
}

/// What a model-file request resolves to: the requested file when it exists
/// locally, and otherwise the smallest baseline model for the language mode,
/// so a recording is never blocked on a missing large file.
pub open spec fn resolved_model_spec(
    model_file: Seq<char>,
    is_english: bool,
    file_exists: bool,
) -> Seq<char> {
    if file_exists {
        model_file
    } else {
        baseline_file_spec(is_english)
    }
}

impl TranscriberPool {
    /// A fresh pool: both slots empty.
    pub fn new() -> (r: TranscriberPool)
        ensures
            r.english is Empty,
            r.multilingual is Empty,
    {
        TranscriberPool { english: SlotState::Empty, multilingual: SlotState::Empty }
    }
}

/// The load `ensure_transcriber_for` requests: the resolved file when the
/// slot is empty, and nothing otherwise.
pub open spec fn ensure_action_spec(
    pool: TranscriberPool,
    is_english: bool,
    model_file: Seq<char>,
    file_exists: bool,
) -> Option<Seq<char>> {
    match slot_of(pool, is_english) {
        SlotState::Empty => Some(resolved_model_spec(model_file, is_english, file_exists)),
        _ => None,
    }
}

/// Decide whether the slot for a language mode needs a load, and of which
/// file. `file_exists` reports whether `model_file` is present locally.
/// Returns the file to load exactly when the slot is empty; a loaded slot is
/// never reloaded, and a failed slot is not retried.
pub fn ensure_transcriber_for(
    pool: &TranscriberPool,
    is_english: bool,
    model_file: &str,
    file_exists: bool,
) -> (r: Option<String>)
    ensures
        match ensure_action_spec(*pool, is_english, model_file@, file_exists) {
            Some(f) => r matches Some(rf) && rf@ == f,
            None => r is None,
        },
{
    let slot = if is_english {
        &pool.english
    } else {
        &pool.multilingual
    };
    match slot {
        SlotState::Empty => {
            if file_exists {
                Some(model_file.to_owned())
            } else {
                if is_english {
                    Some("ggml-base.en.bin".to_owned())
                } else {
                    Some("ggml-base.bin".to_owned())
                }
            }
        },
        _ => None,
    }
}

/// Record the outcome of a load that `ensure_transcriber_for` requested:
/// the slot becomes `Loaded` with the file's name on success and `Failed`
/// otherwise. The other language mode's slot is untouched.
pub fn record_load_result(
    pool: &mut TranscriberPool,
    is_english: bool,
    model_file: &str,
    loaded: bool,
)
    ensures
        loaded ==> (slot_of(*final(pool), is_english) matches SlotState::Loaded(f) && f@
            == model_file@),
        !loaded ==> slot_of(*final(pool), is_english) is Failed,
        slot_of(*final(pool), !is_english) == slot_of(*old(pool), !is_english),
{
    let new_slot = if loaded {
        SlotState::Loaded(model_file.to_owned())
    } else {
        SlotState::Failed
    };
    if is_english {
        pool.english = new_slot;
    } else {
        pool.multilingual = new_slot;
    }
}

/// What the transcription step gets from a slot: the loaded model's file
/// name, or the error reported when the slot holds no working instance.
pub fn transcription_request(pool: &TranscriberPool, is_english: bool) -> (r: Result<
    String,
    String,
>)
    ensures
        match slot_of(*pool, is_english) {
            SlotState::Loaded(m) => r matches Ok(f) && f@ == m@,
            _ => r matches Err(e) && e@ == "Transcriber is not available"@,
        },
{
    let slot = if is_english {
        &pool.english
    } else {
        &pool.multilingual
    };
    match slot {
        SlotState::Loaded(m) => Ok(m.clone()),
        _ => Err("Transcriber is not available".to_owned()),
    }
}

/// Explicitly evict a slot to free its underlying resources. The slot
/// returns to `Empty`, so a later recording may attempt a fresh load.
pub fn cleanup_transcriber(pool: &mut TranscriberPool, is_english: bool)
    ensures
        slot_of(*final(pool), is_english) is Empty,
        slot_of(*final(pool), !is_english) == slot_of(*old(pool), !is_english),
{
    if is_english {
        pool.english = SlotState::Empty;
    } else {
        pool.multilingual = SlotState::Empty;
    }
}

/// One decoded segment as a transcript line: a single leading space — the
/// engine's token separator — is stripped, and a newline ends the line.
pub open spec fn segment_line_spec(s: Seq<char>) -> Seq<char> {
    (if s.len() >= 1 && s[0] == ' ' {
        s.subrange(1, s.len() as int)
    } else {
        s
    }) + seq!['\n']
}

/// The transcript the decoded segments assemble into, in order.
pub open spec fn transcript_spec(segments: Seq<Seq<char>>) -> Seq<char>
    decreases segments.len(),
{
    if segments.len() == 0 {
        Seq::empty()
    } else {
        segment_line_spec(segments.first()) + transcript_spec(segments.drop_first())
    }
}

/// Assembling one more segment appends its line.
proof fn lemma_transcript_push(segments: Seq<Seq<char>>, s: Seq<char>)
    ensures
        transcript_spec(segments.push(s)) == transcript_spec(segments) + segment_line_spec(s),
    decreases segments.len(),
{
    if segments.len() == 0 {
        assert(segments.push(s).drop_first() =~= Seq::<Seq<char>>::empty());
        assert(transcript_spec(Seq::<Seq<char>>::empty()) == Seq::<char>::empty());
        assert(segments.push(s).first() == s);
        assert(transcript_spec(segments.push(s)) =~= transcript_spec(segments)
            + segment_line_spec(s));
    } else {
        assert(segments.push(s).first() == segments.first());
        assert(segments.push(s).drop_first() =~= segments.drop_first().push(s));
        lemma_transcript_push(segments.drop_first(), s);
        assert(transcript_spec(segments.push(s)) =~= transcript_spec(segments)
            + segment_line_spec(s));
    }
}

/// Assemble the decoded segments into the transcript handed to insertion.
pub fn assemble_transcript(segments: &Vec<String>) -> (r: String)
    ensures
        r@ == transcript_spec(segments@.map_values(|s: String| s@)),
{
    let ghost views = segments@.map_values(|s: String| s@);
    let mut out = String::new();
    let mut i: usize = 0;
    proof {
        assert(views.subrange(0, 0) =~= Seq::<Seq<char>>::empty());
    }
    while i < segments.len()
        invariant
            i <= segments.len(),
            views == segments@.map_values(|s: String| s@),
            out@ == transcript_spec(views.subrange(0, i as int)),
        decreases segments.len() - i,
    {
        let seg: &String = &segments[i];
        let n = seg.as_str().unicode_len();
        if n >= 1 && seg.as_str().get_char(0) == ' ' {
            out.append(seg.as_str().substring_char(1, n));
        } else {
            out.append(seg.as_str());
        }
        out.append("\n");
        proof {
            reveal_strlit("\n");
            assert("\n"@ =~= seq!['\n']);
            assert(views.subrange(0, i as int + 1) =~= views.subrange(0, i as int).push(
                views[i as int],
            ));
            lemma_transcript_push(views.subrange(0, i as int), views[i as int]);
            assert(out@ =~= transcript_spec(views.subrange(0, i as int + 1)));
        }
        i = i + 1;
    }
    proof {
        assert(views.subrange(0, views.len() as int) =~= views);
    }
    out
}

/// Fallback correctness: whatever file a tier selected for English mode,
/// when that file is absent locally, resolution lands on the smallest
/// baseline English model — never on a failure — and an empty English slot
/// still gets a load request for exactly that baseline file.
pub proof fn lemma_fallback_to_baseline(pool: TranscriberPool, model_file: Seq<char>)
    requires
        slot_of(pool, true) is Empty,
    ensures
        resolved_model_spec(model_file, true, false) == "ggml-base.en.bin"@,
        ensure_action_spec(pool, true, model_file, false) == Some("ggml-base.en.bin"@),
{
}

/// Mutual exclusion on slot load, as sequenced by the per-slot critical
/// section: from an empty slot, the first `ensure_transcriber_for` requests
/// one load; once that load's outcome is recorded — success or failure — a
/// second `ensure_transcriber_for` for the same language mode requests
/// nothing. So two resolve-and-load calls for one language mode, serialized
/// by the slot's lock, issue exactly one load and keep at most one instance.
pub proof fn lemma_single_load(
    before: TranscriberPool,
    after: TranscriberPool,
    is_english: bool,
    model_file: Seq<char>,
    file_exists: bool,
    loaded: bool,
)
    requires
        slot_of(before, is_english) is Empty,
        loaded ==> slot_of(after, is_english) is Loaded,
        !loaded ==> slot_of(after, is_english) is Failed,
    ensures
        ensure_action_spec(before, is_english, model_file, file_exists) is Some,
        ensure_action_spec(after, is_english, model_file, file_exists) is None,
{
}

} // verus!
