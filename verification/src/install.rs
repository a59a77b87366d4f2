//! The install pipeline's decisions: size-threshold verification of the two
//! model assets, HTTP response vetting with a truncated body snippet,
//! classification of engine-load failures, the local-import plan, and the
//! phase ordering of a whole install.

use vstd::prelude::*;
use crate::errors::TtsError;
use crate::progress::{sat_add, sat_add_u64};
use crate::strutil::{contains_str, occurs_in, truncate_chars};

verus! {

/// The smallest credible size of the model weights file; anything below is a
/// truncated or HTML-error download.
pub const MODEL_MIN_BYTES: u64 = 200_000_000;

/// The smallest credible size of the voice bank file.
pub const VOICES_MIN_BYTES: u64 = 20_000_000;

/// The verdict on the two asset files, given their on-disk sizes (`None` when
/// a file is absent): missing files are reported before sizes, the model
/// before the voices.
pub open spec fn asset_check_of(model_len: Option<u64>, voices_len: Option<u64>) -> Result<
    (),
    TtsError,
> {
    match model_len {
        Option::None => Result::Err(TtsError::ModelFileMissing),
        Option::Some(m) => match voices_len {
            Option::None => Result::Err(TtsError::VoicesFileMissing),
            Option::Some(v) => if m < MODEL_MIN_BYTES {
                Result::Err(TtsError::ModelIncomplete)
            } else if v < VOICES_MIN_BYTES {
                Result::Err(TtsError::VoicesIncomplete)
            } else {
                Result::Ok(())
            },
        },
    }
}

/// Verifies the two asset files by the size thresholds, guarding against
/// partial or HTML downloads masquerading as binary assets.
pub fn verify_assets(model_len: Option<u64>, voices_len: Option<u64>) -> (r: Result<(), TtsError>)
    ensures
        r == asset_check_of(model_len, voices_len),
{
    match model_len {
        None => Err(TtsError::ModelFileMissing),
        Some(m) => match voices_len {
            None => Err(TtsError::VoicesFileMissing),
            Some(v) => {
                if m < MODEL_MIN_BYTES {
                    Err(TtsError::ModelIncomplete)
                } else if v < VOICES_MIN_BYTES {
                    Err(TtsError::VoicesIncomplete)
                } else {
                    Ok(())
                }
            },
        },
    }
}

/// Maps an engine-load failure to its caller-facing error: a failure pattern
/// that indicates corrupt downloads gets the corruption message, any other
/// failure keeps its detail.
pub fn classify_load_error(detail: &str) -> (e: TtsError)
    ensures
        occurs_in(detail@, "Utf8"@) ==> e == TtsError::LoadCorrupt,
        !occurs_in(detail@, "Utf8"@) ==> (e matches TtsError::LoadFailed { detail: d } && d@
            == detail@),
{
    if contains_str(detail, "Utf8") {
        TtsError::LoadCorrupt
    } else {
        TtsError::LoadFailed { detail: detail.to_owned() }
    }
}

/// A successful HTTP status, as download responses are vetted.
pub open spec fn http_success(status: u16) -> bool {
    200 <= status < 300
}

/// Vets a download response: success statuses pass, any other status is
/// rejected with the status line and the first 200 characters of the body.
pub fn download_response_check(status: u16, reason: &str, body: &str) -> (r: Result<(), TtsError>)
    ensures
        http_success(status) ==> r == Result::<(), TtsError>::Ok(()),
        !http_success(status) ==> (r matches Result::Err(e) && e matches TtsError::DownloadFailed {
            status: st,
            reason: rs,
            snippet: sn,
        } && st == status && rs@ == reason@ && sn@ == body@.subrange(
            0,
            if body@.len() < 200 {
                body@.len() as int
            } else {
                200
            },
        )),
{
    if 200 <= status && status < 300 {
        Ok(())
    } else {
        let snippet = truncate_chars(body, 200);
        Err(TtsError::DownloadFailed { status, reason: reason.to_owned(), snippet })
    }
}

/// Which source files a local import copies.
#[derive(Clone, Copy, PartialEq, Eq, Structural, Debug)]
pub struct ImportPlan {
    /// The voice bank comes from the recognized legacy file name instead of
    /// the required one.
    pub voices_from_legacy: bool,
}

/// The import decision, from which candidate files exist in the source
/// folder: the required model file is demanded (its lower-quality variant is
/// called out by name), while the voice bank accepts one legacy fallback.
pub open spec fn import_plan_of(
    has_model: bool,
    has_legacy_model: bool,
    has_voices: bool,
    has_legacy_voices: bool,
) -> Result<ImportPlan, TtsError> {
    if !has_model {
        if has_legacy_model {
            Result::Err(TtsError::WrongModelVariant)
        } else {
            Result::Err(TtsError::LocalModelMissing)
        }
    } else if has_voices {
        Result::Ok(ImportPlan { voices_from_legacy: false })
    } else if has_legacy_voices {
        Result::Ok(ImportPlan { voices_from_legacy: true })
    } else {
        Result::Err(TtsError::LocalVoicesMissing)
    }
}

/// Plans a local import from which candidate files are present.
pub fn plan_import(
    has_model: bool,
    has_legacy_model: bool,
    has_voices: bool,
    has_legacy_voices: bool,
) -> (r: Result<ImportPlan, TtsError>)
    ensures
        r == import_plan_of(has_model, has_legacy_model, has_voices, has_legacy_voices),
{
    if !has_model {
        if has_legacy_model {
            Err(TtsError::WrongModelVariant)
        } else {
            Err(TtsError::LocalModelMissing)
        }
    } else if has_voices {
        Ok(ImportPlan { voices_from_legacy: false })
    } else if has_legacy_voices {
        Ok(ImportPlan { voices_from_legacy: true })
    } else {
        Err(TtsError::LocalVoicesMissing)
    }
}

/// Where an install stands. Phases only advance, in the order the pipeline
/// prescribes: model download, voices download, verification, engine load.
#[derive(Clone, Copy, PartialEq, Eq, Structural, Debug)]
pub enum InstallPhase {
    DownloadingModel,
    DownloadingVoices,
    Verifying,
    Loading,
    Done,
    Failed,
}

/// One install attempt: the phase it has reached and the sizes of the assets
/// downloaded so far.
pub struct InstallFlow {
    pub phase: InstallPhase,
    pub model_bytes: u64,
    pub voices_bytes: u64,
}

impl InstallFlow {
    /// Begins an install: the model asset downloads first.
    pub fn start() -> (r: Self)
        ensures
            r.phase is DownloadingModel,
            r.model_bytes == 0,
            r.voices_bytes == 0,
    {
        InstallFlow { phase: InstallPhase::DownloadingModel, model_bytes: 0, voices_bytes: 0 }
    }

    /// Records the model download's completion; the voices download is next.
    pub fn model_downloaded(&mut self, size: u64)
        requires
            old(self).phase is DownloadingModel,
        ensures
            final(self).phase is DownloadingVoices,
            final(self).model_bytes == size,
            final(self).voices_bytes == old(self).voices_bytes,
    {
        self.model_bytes = size;
        self.phase = InstallPhase::DownloadingVoices;
    }

    /// Records the voices download's completion; verification is next.
    pub fn voices_downloaded(&mut self, size: u64)
        requires
            old(self).phase is DownloadingVoices,
        ensures
            final(self).phase is Verifying,
            final(self).voices_bytes == size,
            final(self).model_bytes == old(self).model_bytes,
    {
        self.voices_bytes = size;
        self.phase = InstallPhase::Verifying;
    }

    /// The cumulative byte count of both downloads, as reported to pollers.
    pub fn total_bytes(&self) -> (r: u64)
        ensures
            r == sat_add_u64(self.model_bytes, self.voices_bytes),
    {
        sat_add(self.model_bytes, self.voices_bytes)
    }

    /// Verifies the downloaded assets by the size thresholds: a failure ends
    /// the install, success moves on to loading the engine.
    pub fn verify(&mut self, model_len: Option<u64>, voices_len: Option<u64>) -> (r: Result<
        (),
        TtsError,
    >)
        requires
            old(self).phase is Verifying,
        ensures
            r == asset_check_of(model_len, voices_len),
            r is Ok ==> final(self).phase is Loading,
            r is Err ==> final(self).phase is Failed,
            final(self).model_bytes == old(self).model_bytes,
            final(self).voices_bytes == old(self).voices_bytes,
    {
        let r = verify_assets(model_len, voices_len);
        match &r {
            Ok(_) => {
                self.phase = InstallPhase::Loading;
            },
            Err(_) => {
                self.phase = InstallPhase::Failed;
            },
        }
        r
    }

    /// Records that the engine loaded from the verified assets: the install
    /// is complete.
    pub fn engine_loaded(&mut self)
        requires
            old(self).phase is Loading,
        ensures
            final(self).phase is Done,
            final(self).model_bytes == old(self).model_bytes,
            final(self).voices_bytes == old(self).voices_bytes,
    {
        self.phase = InstallPhase::Done;
    }

    /// Records that the engine failed to load, with the classified error; the
    /// install ends failed and the caller removes the model directory.
    pub fn engine_load_failed(&mut self, detail: &str) -> (e: TtsError)
        requires
            old(self).phase is Loading,
        ensures
            final(self).phase is Failed,
            final(self).model_bytes == old(self).model_bytes,
            final(self).voices_bytes == old(self).voices_bytes,
            occurs_in(detail@, "Utf8"@) ==> e == TtsError::LoadCorrupt,
            !occurs_in(detail@, "Utf8"@) ==> (e matches TtsError::LoadFailed { detail: d } && d@
                == detail@),
    {
        self.phase = InstallPhase::Failed;
        classify_load_error(detail)
    }
}

} // verus!
