use tts_core::errors::TtsError;
use tts_core::segmentation::plan_sentences;
use tts_core::state::TtsState;
use tts_core::synthesis::{begin_synthesis, classify_synth_error, SynthSession};
use tts_core::voice::{resolve_voice, VoicePreset};

#[test]
fn planning_keeps_sentences_with_offsets() {
    let plan = plan_sentences("Hello. World!");
    assert_eq!(plan.len(), 2);
    assert_eq!(plan[0].start_char, 0);
    assert_eq!(plan[0].end_char, 7);
    assert_eq!(plan[0].cleaned, "Hello.");
    assert_eq!(plan[1].start_char, 7);
    assert_eq!(plan[1].end_char, 13);
    assert_eq!(plan[1].cleaned, "World!");
}

#[test]
fn planning_skips_blank_sentences() {
    assert!(plan_sentences("").is_empty());
    assert!(plan_sentences("   \t\n ").is_empty());
}

#[test]
fn planning_counts_characters_not_bytes() {
    // Multi-byte characters: offsets are Unicode scalar counts.
    let plan = plan_sentences("h\u{e9}llo w\u{f6}rld");
    assert_eq!(plan.len(), 1);
    assert_eq!(plan[0].start_char, 0);
    assert_eq!(plan[0].end_char, 11);
}

#[test]
fn stub_engine_scenario_two_sentences() {
    // A stub engine producing 1000 samples per sentence.
    let mut session = SynthSession::new("Hello. World!", "af_sky", "1");
    let mut fed = 0;
    loop {
        session.observe_cancel(false).unwrap();
        let sentence = match session.current_sentence() {
            Some(s) => s,
            None => break,
        };
        assert!(!sentence.is_empty());
        session.feed_samples(vec![0i16; 1000]);
        fed += 1;
    }
    assert_eq!(fed, 2);
    let out = session.finish();
    // Two segments, each 1000 samples, each followed by 2400 samples (100 ms)
    // of silence.
    assert_eq!(out.duration_samples, 2 * (1000 + 2400));
    assert_eq!(out.segments.len(), 2);
    assert_eq!(out.segments[0].start_char, 0);
    assert_eq!(out.segments[0].end_char, 7);
    assert_eq!(out.segments[0].start_samples, 0);
    assert_eq!(out.segments[0].end_samples, 1000);
    assert_eq!(out.segments[1].start_char, 7);
    assert_eq!(out.segments[1].end_char, 13);
    assert_eq!(out.segments[1].start_samples, 3400);
    assert_eq!(out.segments[1].end_samples, 4400);
    // The last segment ends at the total duration minus the trailing silence.
    assert_eq!(
        out.segments[1].end_samples,
        out.duration_samples - 2400
    );
    // The file is named by the digest of "Hello. World!-af_sky-1".
    assert_eq!(
        out.file_name,
        "2d14cee8801a051ca85edf24818857c16ff668e6efab4012cd32c6ca54a6f4e2.wav"
    );
    // WAV bytes: 44-byte header plus two bytes per sample.
    assert_eq!(out.wav_bytes.len(), 44 + 2 * out.duration_samples);
    // Deterministic: the same inputs and samples give identical output.
    let mut again = SynthSession::new("Hello. World!", "af_sky", "1");
    again.observe_cancel(false).unwrap();
    again.feed_samples(vec![0i16; 1000]);
    again.observe_cancel(false).unwrap();
    again.feed_samples(vec![0i16; 1000]);
    let out2 = again.finish();
    assert_eq!(out2.file_name, out.file_name);
    assert_eq!(out2.wav_bytes, out.wav_bytes);
}

#[test]
fn segment_offsets_are_ordered() {
    let mut session = SynthSession::new("One. Two. Three. Four.", "af_sky", "1");
    let mut n = 17;
    loop {
        session.observe_cancel(false).unwrap();
        if session.current_sentence().is_none() {
            break;
        }
        session.feed_samples(vec![0i16; n]);
        n += 13;
    }
    let out = session.finish();
    assert!(out.segments.len() >= 2);
    for w in out.segments.windows(2) {
        assert!(w[0].start_char <= w[1].start_char);
        assert!(w[0].start_samples <= w[1].start_samples);
        assert!(w[0].end_char <= w[1].start_char);
        assert_eq!(w[0].end_samples + 2400, w[1].start_samples);
    }
    for seg in &out.segments {
        assert!(seg.start_char <= seg.end_char);
        assert!(seg.start_samples <= seg.end_samples);
    }
    let last = out.segments.last().unwrap();
    assert_eq!(last.end_samples + 2400, out.duration_samples);
}

#[test]
fn cancellation_aborts_before_next_segment() {
    let mut session = SynthSession::new("One. Two. Three.", "af_sky", "1");
    // First segment is cleared and synthesized normally.
    session.observe_cancel(false).unwrap();
    let s1 = session.current_sentence().unwrap();
    assert_eq!(s1, "One.");
    session.feed_samples(vec![0i16; 500]);
    // The flag rises before the next segment's check.
    let err = session.observe_cancel(true).unwrap_err();
    assert!(matches!(err, TtsError::Cancelled));
    assert_eq!(err.message(), "Synthesis cancelled.");
    // No further sentence is handed out.
    assert!(session.current_sentence().is_none());
    // Exactly one segment was synthesized.
    assert_eq!(session.segments.len(), 1);
}

#[test]
fn synth_error_classification() {
    let corrupt = classify_synth_error("One.", "invalid Utf8 in tensor");
    assert!(matches!(corrupt, TtsError::SynthesisCorrupt));
    assert_eq!(
        corrupt.message(),
        "Model files appear corrupt. Reinstall the TTS model."
    );
    let plain = classify_synth_error("One.", "engine exploded");
    assert_eq!(
        plain.message(),
        "Synthesis failed for segment 'One.': engine exploded"
    );
}

#[test]
fn voice_resolution_with_fallback() {
    assert_eq!(resolve_voice("af_sky"), VoicePreset::AfSky);
    assert_eq!(resolve_voice("bm_lewis"), VoicePreset::BmLewis);
    assert_eq!(resolve_voice("af_bella"), VoicePreset::AfBella);
    // Unknown identifiers fall back to the default preset.
    assert_eq!(resolve_voice("nonsense"), VoicePreset::AfSky);
    assert_eq!(resolve_voice(""), VoicePreset::AfSky);
    assert_eq!(VoicePreset::BfEmma.id(), "bf_emma");
}

#[test]
fn begin_synthesis_demands_assets_or_a_loaded_engine() {
    let mut state = TtsState::new();
    state.cancel();
    // Missing assets and no engine: the missing-model error, and the
    // cancellation flag is reset regardless.
    let err = begin_synthesis(&mut state, "Hi.", "af_sky", "1", None, None).unwrap_err();
    assert!(matches!(err, TtsError::ModelFileMissing));
    assert!(!state.cancel_requested);
    // Valid assets: synthesis proceeds and the engine must be loaded first.
    let (_, needs_load) = begin_synthesis(
        &mut state,
        "Hi.",
        "af_sky",
        "1",
        Some(200_000_000),
        Some(20_000_000),
    )
    .unwrap();
    assert!(needs_load);
    // A loaded engine is reused without touching the disk.
    state.mark_loaded();
    let (session, needs_load) =
        begin_synthesis(&mut state, "Hi.", "af_sky", "1", None, None).unwrap();
    assert!(!needs_load);
    assert_eq!(session.voice_id, "af_sky");
}
