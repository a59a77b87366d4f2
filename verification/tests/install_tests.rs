use tts_core::errors::TtsError;
use tts_core::install::{
    classify_load_error, download_response_check, plan_import, verify_assets, InstallFlow,
    InstallPhase, MODEL_MIN_BYTES, VOICES_MIN_BYTES,
};
use tts_core::progress::{DownloadTracker, InstallProgress, ProgressStatus};
use tts_core::state::TtsState;

#[test]
fn verification_thresholds() {
    assert!(verify_assets(Some(MODEL_MIN_BYTES), Some(VOICES_MIN_BYTES)).is_ok());
    let small_model = verify_assets(Some(MODEL_MIN_BYTES - 1), Some(VOICES_MIN_BYTES)).unwrap_err();
    assert_eq!(
        small_model.message(),
        "Model file looks incomplete; please reinstall the TTS model."
    );
    let small_voices = verify_assets(Some(MODEL_MIN_BYTES), Some(VOICES_MIN_BYTES - 1)).unwrap_err();
    assert_eq!(
        small_voices.message(),
        "Voices file looks incomplete; please reinstall the TTS model."
    );
    let missing_model = verify_assets(None, Some(VOICES_MIN_BYTES)).unwrap_err();
    assert_eq!(missing_model.message(), "Model file missing");
    let missing_voices = verify_assets(Some(MODEL_MIN_BYTES), None).unwrap_err();
    assert_eq!(missing_voices.message(), "Voices file missing");
}

#[test]
fn truncated_download_is_detected_by_status_and_install() {
    // A truncated asset at either step: status reports not installed, and the
    // install's own verification fails with the incomplete error.
    let state = TtsState::new();
    let report = state.status(Some(12_345), Some(VOICES_MIN_BYTES));
    assert!(!report.installed);
    assert!(!report.loaded);

    let mut flow = InstallFlow::start();
    flow.model_downloaded(12_345);
    flow.voices_downloaded(VOICES_MIN_BYTES);
    let err = flow.verify(Some(12_345), Some(VOICES_MIN_BYTES)).unwrap_err();
    assert!(matches!(err, TtsError::ModelIncomplete));
    assert_eq!(flow.phase, InstallPhase::Failed);
}

#[test]
fn install_flow_happy_path() {
    let mut flow = InstallFlow::start();
    assert_eq!(flow.phase, InstallPhase::DownloadingModel);
    flow.model_downloaded(MODEL_MIN_BYTES);
    assert_eq!(flow.phase, InstallPhase::DownloadingVoices);
    flow.voices_downloaded(VOICES_MIN_BYTES);
    assert_eq!(flow.phase, InstallPhase::Verifying);
    assert_eq!(flow.total_bytes(), MODEL_MIN_BYTES + VOICES_MIN_BYTES);
    flow.verify(Some(MODEL_MIN_BYTES), Some(VOICES_MIN_BYTES)).unwrap();
    assert_eq!(flow.phase, InstallPhase::Loading);
    flow.engine_loaded();
    assert_eq!(flow.phase, InstallPhase::Done);
}

#[test]
fn load_failures_are_classified() {
    let mut flow = InstallFlow::start();
    flow.model_downloaded(MODEL_MIN_BYTES);
    flow.voices_downloaded(VOICES_MIN_BYTES);
    flow.verify(Some(MODEL_MIN_BYTES), Some(VOICES_MIN_BYTES)).unwrap();
    let err = flow.engine_load_failed("bad Utf8 in model");
    assert_eq!(
        err.message(),
        "Failed to load Kokoro. The download looks corrupted; please retry the install."
    );
    assert_eq!(flow.phase, InstallPhase::Failed);
    assert_eq!(
        classify_load_error("file locked").message(),
        "Failed to load Kokoro: file locked"
    );
}

#[test]
fn download_response_vetting() {
    assert!(download_response_check(200, "OK", "").is_ok());
    assert!(download_response_check(299, "OK", "").is_ok());
    let long_body = "x".repeat(500);
    let err = download_response_check(404, "Not Found", &long_body).unwrap_err();
    let msg = err.message();
    assert!(msg.starts_with("Download failed (404 Not Found): "));
    // the body snippet is truncated to 200 characters
    assert_eq!(msg.len(), "Download failed (404 Not Found): ".len() + 200);
    let short = download_response_check(500, "Internal Server Error", "oops").unwrap_err();
    assert_eq!(
        short.message(),
        "Download failed (500 Internal Server Error): oops"
    );
}

#[test]
fn import_plan_cases() {
    // the required model file is present: voices from the required name first
    let plan = plan_import(true, false, true, true).unwrap();
    assert!(!plan.voices_from_legacy);
    // the legacy voice bank is accepted as a fallback
    let plan = plan_import(true, false, false, true).unwrap();
    assert!(plan.voices_from_legacy);
    // the lower-quality model variant is called out by name
    let err = plan_import(false, true, true, false).unwrap_err();
    assert_eq!(
        err.message(),
        "Found kokoro-v1.0.int8.onnx, but this build requires kokoro-v1.0.onnx for higher quality speech."
    );
    // nothing usable in the folder
    let err = plan_import(false, false, true, false).unwrap_err();
    assert_eq!(err.message(), "Local model file not found in the provided folder.");
    let err = plan_import(true, false, false, false).unwrap_err();
    assert_eq!(err.message(), "Local voices file not found in the provided folder.");
}

#[test]
fn progress_record_is_overwritten_in_place() {
    let mut p = InstallProgress::idle();
    assert_eq!(p.status, ProgressStatus::Idle);
    assert_eq!(p.downloaded_bytes, 0);
    p.set(ProgressStatus::Downloading, "Model", 10, 100);
    assert_eq!(p.status, ProgressStatus::Downloading);
    assert_eq!(p.phase, "Model");
    assert_eq!(p.downloaded_bytes, 10);
    assert_eq!(p.total_bytes, 100);
    let snap = p.snapshot();
    p.set(ProgressStatus::Complete, "Done", 100, 100);
    assert_eq!(snap.status, ProgressStatus::Downloading);
    assert_eq!(p.status, ProgressStatus::Complete);
    assert_eq!(ProgressStatus::Verifying.label(), "verifying");
}

#[test]
fn download_tracker_reports_monotone_counts() {
    let mut t = DownloadTracker::start(1000, Some(5000));
    assert_eq!(t.advertised, 6000);
    assert_eq!(t.reported(), 1000);
    let mut last = t.reported();
    for chunk in [100u64, 0, 4900, 7] {
        t.record_chunk(chunk);
        assert!(t.reported() >= last);
        last = t.reported();
    }
    assert_eq!(t.downloaded, 5007);
    assert_eq!(t.reported(), 6007);
    // a server that omits the content length advertises only the base
    let t2 = DownloadTracker::start(42, None);
    assert_eq!(t2.advertised, 42);
    // accounting saturates instead of wrapping
    let mut t3 = DownloadTracker::start(0, Some(u64::MAX));
    t3.record_chunk(u64::MAX);
    t3.record_chunk(1);
    assert_eq!(t3.downloaded, u64::MAX);
}

#[test]
fn remove_model_invalidates_loaded_engine() {
    let mut state = TtsState::new();
    state.mark_loaded();
    assert!(state.status(Some(MODEL_MIN_BYTES), Some(VOICES_MIN_BYTES)).loaded);
    // remove_model: the files are gone and the in-memory handle is dropped
    state.remove_model();
    let report = state.status(None, None);
    assert!(!report.installed);
    assert!(!report.loaded);
    // re-synthesis must fail with a missing-asset error, not reuse a stale handle
    let decision = state.ensure_loaded_decision(None, None).unwrap_err();
    assert!(matches!(decision, TtsError::ModelFileMissing));
    assert_eq!(decision.message(), "Model file missing");
}

#[test]
fn cancel_flag_lifecycle() {
    let mut state = TtsState::new();
    assert!(!state.cancel_requested);
    state.cancel();
    assert!(state.cancel_requested);
    state.reset_cancel();
    assert!(!state.cancel_requested);
}
