//! The synthesis session: a state machine that walks the planned sentences in
//! text order, demands a cancellation check before every segment, stitches
//! the returned samples with inter-segment silence, and assembles the final
//! WAV bytes, segment table and cache file name.
//!
//! The engine call itself happens outside; the session only hands out the
//! next cleaned sentence and takes the samples back, so every bookkeeping
//! step is verified for every possible engine output.

use vstd::prelude::*;
use vstd::string::StringExecFns;
use crate::errors::TtsError;
use crate::hashing::{cache_key, cache_key_of};
use crate::media::{encode_wav_pcm16, wav_pcm16_of};
use crate::segmentation::{plan_sentences, plan_of, PendingSentence};
use crate::strutil::{contains_str, occurs_in};
use crate::voice::{preset_of, resolve_voice, VoicePreset};

verus! {

/// Samples per second of the engine's output.
pub const SAMPLE_RATE: usize = 24000;

/// The fixed silence appended after every segment: 100 ms at 24 kHz.
pub const SILENCE_SAMPLES: usize = 2400;

/// A hard ceiling on the assembled sample buffer, comfortably under the WAV
/// format's 32-bit size fields.
pub const MAX_TOTAL_SAMPLES: usize = 0x3fff_ffff;

/// One sentence's contribution to the final audio: character offsets into the
/// input text and sample offsets into the assembled buffer.
#[derive(Clone, Copy, PartialEq, Eq, Structural, Debug)]
pub struct Segment {
    pub start_char: usize,
    pub end_char: usize,
    pub start_samples: usize,
    pub end_samples: usize,
}

/// The block of silence appended after each segment.
pub open spec fn silence_of(n: nat) -> Seq<i16> {
    Seq::new(n, |i: int| 0i16)
}

/// Everything synthesis returns: the cache file name, the encoded WAV bytes,
/// the total duration in samples and the ordered segment table.
pub struct SynthOutput {
    pub file_name: String,
    pub wav_bytes: Vec<u8>,
    pub duration_samples: usize,
    pub segments: Vec<Segment>,
}

/// An in-progress synthesis call over one input triple.
#[derive(Debug)]
pub struct SynthSession {
    pub text: String,
    pub voice_id: String,
    pub speed: String,
    pub voice: VoicePreset,
    pub pending: Vec<PendingSentence>,
    pub next_idx: usize,
    pub samples: Vec<i16>,
    pub segments: Vec<Segment>,
    pub checked: bool,
    pub cancelled: bool,
}

impl SynthSession {
    /// The session's structural invariant: the pending list is the plan of
    /// the text, one segment has been recorded per fed sentence, segments
    /// carry the planned character spans, and consecutive segments are
    /// separated by exactly the fixed silence.
    pub open spec fn wf(self) -> bool {
        &&& self.voice == preset_of(self.voice_id@)
        &&& self.pending@.len() == plan_of(self.text@).len()
        &&& (forall|i: int|
            0 <= i < self.pending@.len() ==> {
                &&& (#[trigger] self.pending@[i]).start_char as nat == plan_of(self.text@)[i].0
                &&& self.pending@[i].end_char as nat == plan_of(self.text@)[i].1
                &&& self.pending@[i].cleaned@ == plan_of(self.text@)[i].2
            })
        &&& (forall|i: int|
            0 <= i < self.pending@.len() ==> (#[trigger] self.pending@[i]).start_char
                <= self.pending@[i].end_char)
        &&& (forall|i: int|
            0 <= i < self.pending@.len() - 1 ==> (#[trigger] self.pending@[i]).end_char
                <= self.pending@[i + 1].start_char)
        &&& self.next_idx <= self.pending@.len()
        &&& self.segments@.len() == self.next_idx
        &&& self.samples@.len() <= MAX_TOTAL_SAMPLES
        &&& (forall|i: int|
            0 <= i < self.segments@.len() ==> {
                &&& (#[trigger] self.segments@[i]).start_char == self.pending@[i].start_char
                &&& self.segments@[i].end_char == self.pending@[i].end_char
                &&& self.segments@[i].start_samples <= self.segments@[i].end_samples
            })
        &&& (forall|i: int|
            0 <= i < self.segments@.len() - 1 ==> (#[trigger] self.segments@[i]).end_samples
                + SILENCE_SAMPLES == self.segments@[i + 1].start_samples)
        &&& (if self.next_idx == 0 {
            self.samples@.len() == 0
        } else {
            self.samples@.len() == self.segments@[self.next_idx - 1].end_samples + SILENCE_SAMPLES
        })
    }

    /// A sentence may be fed only after a cancellation check cleared it.
    pub open spec fn can_feed(self) -> bool {
        self.checked && !self.cancelled && self.next_idx < self.pending@.len()
    }

    /// Starts a synthesis call: plans the sentences of `text` and resolves
    /// the requested voice, with nothing synthesized yet and the cancellation
    /// flag freshly cleared.
    pub fn new(text: &str, voice_id: &str, speed: &str) -> (s: Self)
        ensures
            s.wf(),
            s.text@ == text@,
            s.voice_id@ == voice_id@,
            s.speed@ == speed@,
            s.voice == preset_of(voice_id@),
            s.next_idx == 0,
            s.samples@.len() == 0,
            s.segments@.len() == 0,
            !s.checked,
            !s.cancelled,
    {
        let pending = plan_sentences(text);
        let voice = resolve_voice(voice_id);
        SynthSession {
            text: text.to_owned(),
            voice_id: voice_id.to_owned(),
            speed: speed.to_owned(),
            voice,
            pending,
            next_idx: 0,
            samples: Vec::new(),
            segments: Vec::new(),
            checked: false,
            cancelled: false,
        }
    }

    /// How `observe_cancel` changes a session: a raised flag aborts with the
    /// cancellation error, a clear flag clears the next sentence for
    /// synthesis; nothing else moves.
    pub open spec fn observe_transition(
        pre: Self,
        post: Self,
        flag: bool,
        r: Result<(), TtsError>,
    ) -> bool {
        &&& post.text == pre.text
        &&& post.voice_id == pre.voice_id
        &&& post.speed == pre.speed
        &&& post.voice == pre.voice
        &&& post.pending == pre.pending
        &&& post.next_idx == pre.next_idx
        &&& post.samples == pre.samples
        &&& post.segments == pre.segments
        &&& if flag {
            &&& r == Result::<(), TtsError>::Err(TtsError::Cancelled)
            &&& post.cancelled
            &&& !post.checked
        } else {
            &&& r == Result::<(), TtsError>::Ok(())
            &&& post.cancelled == pre.cancelled
            &&& post.checked
        }
    }

    /// Records one observation of the shared cancellation flag, made between
    /// segments: a raised flag aborts the call with the cancellation error,
    /// a clear one admits the next sentence.
    pub fn observe_cancel(&mut self, flag: bool) -> (r: Result<(), TtsError>)
        requires
            old(self).wf(),
        ensures
            final(self).wf(),
            Self::observe_transition(*old(self), *final(self), flag, r),
    {
        if flag {
            self.cancelled = true;
            self.checked = false;
            Err(TtsError::Cancelled)
        } else {
            self.checked = true;
            Ok(())
        }
    }

    /// The cleaned text of the next sentence to synthesize, or `None` when
    /// the session is cancelled or every sentence has been fed.
    pub fn current_sentence(&self) -> (r: Option<String>)
        ensures
            match r {
                Option::Some(s) => !self.cancelled && self.next_idx < self.pending@.len() && s@
                    == self.pending@[self.next_idx as int].cleaned@,
                Option::None => self.cancelled || self.next_idx >= self.pending@.len(),
            },
    {
        if self.cancelled {
            None
        } else if self.next_idx < self.pending.len() {
            Some(self.pending[self.next_idx].cleaned.clone())
        } else {
            None
        }
    }

    /// Takes the engine's samples for the sentence last cleared for
    /// synthesis: appends them and the fixed silence to the buffer, records
    /// the segment with its character span and sample span, and withdraws the
    /// clearance so the next sentence demands a fresh cancellation check.
    pub fn feed_samples(&mut self, fed: Vec<i16>)
        requires
            old(self).wf(),
            old(self).can_feed(),
            old(self).samples@.len() + fed@.len() + SILENCE_SAMPLES <= MAX_TOTAL_SAMPLES,
        ensures
            final(self).wf(),
            final(self).text == old(self).text,
            final(self).voice_id == old(self).voice_id,
            final(self).speed == old(self).speed,
            final(self).voice == old(self).voice,
            final(self).pending == old(self).pending,
            final(self).next_idx == old(self).next_idx + 1,
            !final(self).checked,
            !final(self).cancelled,
            final(self).samples@ == old(self).samples@ + fed@ + silence_of(
                SILENCE_SAMPLES as nat,
            ),
            final(self).segments@ == old(self).segments@.push(
                Segment {
                    start_char: old(self).pending@[old(self).next_idx as int].start_char,
                    end_char: old(self).pending@[old(self).next_idx as int].end_char,
                    start_samples: old(self).samples@.len() as usize,
                    end_samples: (old(self).samples@.len() + fed@.len()) as usize,
                },
            ),
    {
        let start = self.samples.len();
        let end = start + fed.len();
        let seg = Segment {
            start_char: self.pending[self.next_idx].start_char,
            end_char: self.pending[self.next_idx].end_char,
            start_samples: start,
            end_samples: end,
        };
        let mut silence: Vec<i16> = Vec::new();
        let mut k: usize = 0;
        while k < SILENCE_SAMPLES
            invariant
                k <= SILENCE_SAMPLES,
                silence@ == silence_of(k as nat),
            decreases SILENCE_SAMPLES - k,
        {
            silence.push(0i16);
            proof {
                assert(silence_of(k as nat).push(0i16) =~= silence_of((k + 1) as nat));
            }
            k = k + 1;
        }
        let mut fed = fed;
        self.samples.append(&mut fed);
        self.samples.append(&mut silence);
        self.segments.push(seg);
        let pending_len = self.pending.len();
        assert(self.next_idx < pending_len);
        self.next_idx = self.next_idx + 1;
        self.checked = false;
    }

    /// Assembles the result after every sentence has been fed: the WAV bytes
    /// of the stitched samples, the content-addressed file name, the total
    /// duration in samples and the segment table.
    pub fn finish(&self) -> (r: SynthOutput)
        requires
            self.wf(),
            !self.cancelled,
            self.next_idx == self.pending@.len(),
        ensures
            r.file_name@ == cache_key_of(self.text@, self.voice_id@, self.speed@) + ".wav"@,
            r.wav_bytes@ == wav_pcm16_of(self.samples@),
            r.duration_samples == self.samples@.len(),
            r.segments@ == self.segments@,
    {
        let mut file_name = cache_key(self.text.as_str(), self.voice_id.as_str(), self.speed.as_str());
        file_name.append(".wav");
        let wav_bytes = encode_wav_pcm16(&self.samples);
        let mut segments: Vec<Segment> = Vec::new();
        let mut i: usize = 0;
        while i < self.segments.len()
            invariant
                i <= self.segments@.len(),
                segments@ == self.segments@.subrange(0, i as int),
            decreases self.segments@.len() - i,
        {
            segments.push(self.segments[i]);
            proof {
                assert(self.segments@.subrange(0, i as int).push(self.segments@[i as int])
                    =~= self.segments@.subrange(0, i + 1));
            }
            i = i + 1;
        }
        proof {
            assert(self.segments@.subrange(0, self.segments@.len() as int) =~= self.segments@);
        }
        SynthOutput {
            file_name,
            wav_bytes,
            duration_samples: self.samples.len(),
            segments,
        }
    }
}

/// Starts a synthesis call as the dispatcher does: clears the cancellation
/// flag, decides whether the engine must be loaded first — refusing when the
/// assets on disk are missing or incomplete — and plans the session. The
/// returned flag says whether the caller must load the engine before
/// synthesizing.
pub fn begin_synthesis(
    state: &mut crate::state::TtsState,
    text: &str,
    voice_id: &str,
    speed: &str,
    model_len: Option<u64>,
    voices_len: Option<u64>,
) -> (r: Result<(SynthSession, bool), TtsError>)
    ensures
        !final(state).cancel_requested,
        final(state).loaded == old(state).loaded,
        old(state).loaded ==> (r matches Result::Ok((_, needs_load)) && !needs_load),
        !old(state).loaded && crate::install::asset_check_of(model_len, voices_len) is Ok ==> (r
            matches Result::Ok((_, needs_load)) && needs_load),
        !old(state).loaded && crate::install::asset_check_of(model_len, voices_len) is Err ==> (r
            matches Result::Err(e) && e == crate::install::asset_check_of(
            model_len,
            voices_len,
        )->Err_0),
        r matches Result::Ok((session, _)) ==> {
            &&& session.wf()
            &&& session.text@ == text@
            &&& session.voice_id@ == voice_id@
            &&& session.speed@ == speed@
            &&& session.next_idx == 0
            &&& session.samples@.len() == 0
            &&& !session.cancelled
            &&& !session.checked
        },
{
    state.reset_cancel();
    let needs_load = match state.ensure_loaded_decision(model_len, voices_len) {
        Ok(b) => b,
        Err(e) => {
            return Err(e);
        },
    };
    let session = SynthSession::new(text, voice_id, speed);
    Ok((session, needs_load))
}

/// Maps a per-segment engine failure to its caller-facing error: a failure
/// pattern that indicates corrupt model data gets the corruption hint, any
/// other failure is enriched with the offending sentence.
pub fn classify_synth_error(segment: &str, detail: &str) -> (e: TtsError)
    ensures
        occurs_in(detail@, "Utf8"@) ==> e == TtsError::SynthesisCorrupt,
        !occurs_in(detail@, "Utf8"@) ==> (e matches TtsError::SynthesisFailed {
            segment: sg,
            detail: dt,
        } && sg@ == segment@ && dt@ == detail@),
{
    if contains_str(detail, "Utf8") {
        TtsError::SynthesisCorrupt
    } else {
        TtsError::SynthesisFailed { segment: segment.to_owned(), detail: detail.to_owned() }
    }
}

/// Law: once a cancellation observation sees the flag, the call ends in the
/// cancellation error, no segment is added, and the session accepts no
/// further samples — so at most the sentence already cleared before the flag
/// rose is still synthesized.
pub proof fn lemma_cancel_stops_feeding(
    pre: SynthSession,
    post: SynthSession,
    r: Result<(), TtsError>,
)
    requires
        pre.wf(),
        SynthSession::observe_transition(pre, post, true, r),
    ensures
        r == Result::<(), TtsError>::Err(TtsError::Cancelled),
        post.segments@.len() == pre.segments@.len(),
        !post.can_feed(),
{
}

/// Law: a sample feed consumes the clearance — after it, the session refuses
/// further samples until a fresh observation of the cancellation flag clears
/// the next sentence. Together with the law above, a raised flag is noticed
/// before every sentence after the one already in flight.
pub proof fn lemma_feed_consumes_clearance(s: SynthSession)
    requires
        !s.checked,
    ensures
        !s.can_feed(),
{
}

/// Law: segments come in text order — non-decreasing start offsets in both
/// characters and samples, every segment non-negative in both dimensions —
/// and when anything was synthesized, the total duration equals the last
/// segment's end plus the trailing silence.
pub proof fn lemma_segment_order(s: SynthSession)
    requires
        s.wf(),
    ensures
        forall|i: int, j: int|
            0 <= i <= j < s.segments@.len() ==> (#[trigger] s.segments@[i]).start_char
                <= (#[trigger] s.segments@[j]).start_char,
        forall|i: int, j: int|
            0 <= i <= j < s.segments@.len() ==> (#[trigger] s.segments@[i]).start_samples
                <= (#[trigger] s.segments@[j]).start_samples,
        forall|i: int|
            0 <= i < s.segments@.len() ==> (#[trigger] s.segments@[i]).start_char
                <= s.segments@[i].end_char,
        forall|i: int|
            0 <= i < s.segments@.len() ==> (#[trigger] s.segments@[i]).start_samples
                <= s.segments@[i].end_samples,
        forall|i: int|
            0 <= i < s.segments@.len() - 1 ==> (#[trigger] s.segments@[i + 1]).start_samples
                == s.segments@[i].end_samples + SILENCE_SAMPLES,
        s.segments@.len() > 0 ==> s.samples@.len() == s.segments@[s.segments@.len()
            - 1].end_samples + SILENCE_SAMPLES,
{
    assert forall|i: int, j: int| 0 <= i <= j < s.segments@.len() implies (
    #[trigger] s.segments@[i]).start_char <= (#[trigger] s.segments@[j]).start_char && (
    s.segments@[i]).start_samples <= (s.segments@[j]).start_samples by {
        lemma_segment_chain(s, i, j);
    }
}

proof fn lemma_segment_chain(s: SynthSession, i: int, j: int)
    requires
        s.wf(),
        0 <= i <= j < s.segments@.len(),
    ensures
        s.segments@[i].start_char <= s.segments@[j].start_char,
        s.segments@[i].start_samples <= s.segments@[j].start_samples,
    decreases j - i,
{
    if i < j {
        lemma_segment_chain(s, i, j - 1);
        assert(s.segments@[j - 1].end_samples + SILENCE_SAMPLES == s.segments@[j].start_samples);
        assert(s.segments@[j - 1].start_char == s.pending@[j - 1].start_char);
        assert(s.pending@[j - 1].end_char <= s.pending@[j].start_char);
    }
}

} // verus!
