//! The capture sink: the live/paused state of the microphone stream's
//! consumer and the in-memory recording buffer.
//!
//! The audio backend pushes sample batches from its own callback thread; the
//! sink appends a batch only while its capture flag is set. That flag is a
//! plain boolean, deliberately independent of the device's play/pause state:
//! the orchestrator clears the buffer and enables capture at the start of a
//! recording and disables it again before the device stream is paused.
//!
//! Samples are carried through the library as their raw 32-bit PCM encoding;
//! the buffer logic never looks inside a sample.

use vstd::prelude::*;

verus! {

/// A PCM sample, carried as its raw 32-bit encoding.
pub type Sample = u32;

/// The capture gate plus the recording buffer.
pub struct CaptureSink {
    /// Samples are appended only while this is set.
    pub gate: bool,
    /// The recording buffer, reused (clear-and-refill) across recordings.
    pub buffer: Vec<Sample>,
}

/// The sink state as a mathematical value: (gate, buffered samples).
pub open spec fn sink_model(s: &CaptureSink) -> (bool, Seq<Sample>) {
    (s.gate, s.buffer@)
}

/// What feeding one batch does to a sink state: the batch is appended when
/// and only when the capture flag is set.
pub open spec fn model_feed(m: (bool, Seq<Sample>), data: Seq<Sample>) -> (bool, Seq<Sample>) {
    if m.0 {
        (m.0, m.1 + data)
    } else {
        m
    }
}

/// Feeding a whole sequence of batches, first batch first.
pub open spec fn model_feed_all(m: (bool, Seq<Sample>), batches: Seq<Seq<Sample>>) -> (
    bool,
    Seq<Sample>,
)
    decreases batches.len(),
{
    if batches.len() == 0 {
        m
    } else {
        model_feed_all(model_feed(m, batches.first()), batches.drop_first())
    }
}

impl CaptureSink {
    /// A fresh sink: gate closed, empty buffer.
    pub fn new() -> (r: CaptureSink)
        ensures
            !r.gate,
            r.buffer@ == Seq::<Sample>::empty(),
    {
        CaptureSink { gate: false, buffer: Vec::new() }
    }

    /// Enable capture into the buffer. Called only after the device stream
    /// has been started, so no delivered batch is lost.
    pub fn start_capture(&mut self)
        ensures
            final(self).gate,
            final(self).buffer == old(self).buffer,
    {
        self.gate = true;
    }

    /// Disable capture into the buffer. Called before the device stream is
    /// paused, so nothing is appended to a buffer that is about to be read.
    pub fn stop_capture(&mut self)
        ensures
            !final(self).gate,
            final(self).buffer == old(self).buffer,
    {
        self.gate = false;
    }

    /// Drop all buffered samples; the capture flag is untouched.
    pub fn clear(&mut self)
        ensures
            final(self).gate == old(self).gate,
            final(self).buffer@ == Seq::<Sample>::empty(),
    {
        self.buffer.clear();
    }

    /// Append one batch delivered by the audio backend, but only while the
    /// gate is set.
    pub fn feed(&mut self, data: &[Sample])
        ensures
            sink_model(final(self)) == model_feed(sink_model(old(self)), data@),
    {
        if self.gate {
            self.buffer.extend_from_slice(data);
            proof {
                assert(self.buffer@ =~= old(self).buffer@ + data@);
            }
        }
    }

    /// The buffered samples, by value, for handing to the transcription step.
    pub fn snapshot(&self) -> (r: Vec<Sample>)
        ensures
            r@ == self.buffer@,
    {
        let mut out: Vec<Sample> = Vec::new();
        let mut i: usize = 0;
        while i < self.buffer.len()
            invariant
                i <= self.buffer.len(),
                out@ == self.buffer@.subrange(0, i as int),
            decreases self.buffer.len() - i,
        {
            out.push(self.buffer[i]);
            i = i + 1;
            proof {
                assert(out@ =~= self.buffer@.subrange(0, i as int));
            }
        }
        proof {
            assert(out@ =~= self.buffer@);
        }
        out
    }

    /// Whether the buffer holds no samples.
    pub fn is_empty(&self) -> (r: bool)
        ensures
            r == (self.buffer@.len() == 0),
    {
        self.buffer.len() == 0
    }
}

/// No cross-talk between recording cycles: from the state a new recording
/// starts in (gate open over an empty buffer), feeding any sequence of
/// batches leaves the buffer holding exactly those batches in order —
/// nothing from an earlier cycle.
pub proof fn lemma_no_cross_talk(m: (bool, Seq<Sample>), batches: Seq<Seq<Sample>>)
    requires
        m.0,
        m.1.len() == 0,
    ensures
        model_feed_all(m, batches).0,
        model_feed_all(m, batches).1 == batches.flatten(),
    decreases batches.len(),
{
    lemma_feed_all_appends(m, batches);
    assert(m.1 + batches.flatten() =~= batches.flatten());
}

/// Feeding batches while capture is enabled appends their concatenation.
pub proof fn lemma_feed_all_appends(m: (bool, Seq<Sample>), batches: Seq<Seq<Sample>>)
    requires
        m.0,
    ensures
        model_feed_all(m, batches).0,
        model_feed_all(m, batches).1 == m.1 + batches.flatten(),
    decreases batches.len(),
{
    if batches.len() == 0 {
        assert(batches.flatten() == Seq::<Sample>::empty());
        assert(m.1 + batches.flatten() =~= m.1);
    } else {
        let m2 = model_feed(m, batches.first());
        lemma_feed_all_appends(m2, batches.drop_first());
        assert(m.1 + batches.first() + batches.drop_first().flatten() =~= m.1
            + batches.flatten());
    }
}

} // verus!
