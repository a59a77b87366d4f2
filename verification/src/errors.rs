//! The error taxonomy of the subsystem: one closed variant per failure class,
//! each rendering to the human-readable message the invocation surface returns.

use vstd::prelude::*;
use vstd::string::StringExecFns;
use crate::strutil::dec_of;
use crate::strutil::u64_to_dec;

verus! {

/// Every failure the subsystem can report.
#[derive(Debug)]
pub enum TtsError {
    /// The model weights file is absent on disk.
    ModelFileMissing,
    /// The voice bank file is absent on disk.
    VoicesFileMissing,
    /// The model weights file is below the minimum credible size.
    ModelIncomplete,
    /// The voice bank file is below the minimum credible size.
    VoicesIncomplete,
    /// A download answered with a non-success HTTP status.
    DownloadFailed { status: u16, reason: String, snippet: String },
    /// The engine could not load and the failure pattern indicates corrupt assets.
    LoadCorrupt,
    /// The engine could not load for another reason.
    LoadFailed { detail: String },
    /// A per-segment synthesis failure whose pattern indicates corrupt assets.
    SynthesisCorrupt,
    /// A per-segment synthesis failure, enriched with the offending sentence.
    SynthesisFailed { segment: String, detail: String },
    /// Synthesis was aborted through the cancellation flag.
    Cancelled,
    /// A requested audio path resolves outside the cache directory.
    InvalidAudioPath,
    /// A local import offered the lower-quality model file instead of the required one.
    WrongModelVariant,
    /// A local import found no model file in the provided folder.
    LocalModelMissing,
    /// A local import found no voice bank in the provided folder.
    LocalVoicesMissing,
    /// An invocation named a method the plugin does not have.
    MethodNotFound { name: String },
    /// An input/output failure reported by the surrounding shell, passed through.
    Io { detail: String },
}

/// The message text of each error, as the invocation surface shows it.
pub open spec fn message_of(e: TtsError) -> Seq<char> {
    match e {
        TtsError::ModelFileMissing => "Model file missing"@,
        TtsError::VoicesFileMissing => "Voices file missing"@,
        TtsError::ModelIncomplete => "Model file looks incomplete; please reinstall the TTS model."@,
        TtsError::VoicesIncomplete => "Voices file looks incomplete; please reinstall the TTS model."@,
        TtsError::DownloadFailed { status, reason, snippet } => "Download failed ("@ + dec_of(
            status as nat,
        ) + " "@ + reason@ + "): "@ + snippet@,
        TtsError::LoadCorrupt => "Failed to load Kokoro. The download looks corrupted; please retry the install."@,
        TtsError::LoadFailed { detail } => "Failed to load Kokoro: "@ + detail@,
        TtsError::SynthesisCorrupt => "Model files appear corrupt. Reinstall the TTS model."@,
        TtsError::SynthesisFailed { segment, detail } => "Synthesis failed for segment '"@
            + segment@ + "': "@ + detail@,
        TtsError::Cancelled => "Synthesis cancelled."@,
        TtsError::InvalidAudioPath => "Invalid audio path."@,
        TtsError::WrongModelVariant => "Found kokoro-v1.0.int8.onnx, but this build requires kokoro-v1.0.onnx for higher quality speech."@,
        TtsError::LocalModelMissing => "Local model file not found in the provided folder."@,
        TtsError::LocalVoicesMissing => "Local voices file not found in the provided folder."@,
        TtsError::MethodNotFound { name } => "Method "@ + name@ + " not found"@,
        TtsError::Io { detail } => detail@,
    }
}

impl TtsError {
    /// Renders the error as its caller-facing message.
    pub fn message(&self) -> (r: String)
        ensures
            r@ == message_of(*self),
    {
        match self {
            TtsError::ModelFileMissing => "Model file missing".to_owned(),
            TtsError::VoicesFileMissing => "Voices file missing".to_owned(),
            TtsError::ModelIncomplete => "Model file looks incomplete; please reinstall the TTS model.".to_owned(),
            TtsError::VoicesIncomplete => "Voices file looks incomplete; please reinstall the TTS model.".to_owned(),
            TtsError::DownloadFailed { status, reason, snippet } => {
                let mut r = "Download failed (".to_owned();
                let status_dec = u64_to_dec(*status as u64);
                r.append(status_dec.as_str());
                r.append(" ");
                r.append(reason.as_str());
                r.append("): ");
                r.append(snippet.as_str());
                r
            },
            TtsError::LoadCorrupt => "Failed to load Kokoro. The download looks corrupted; please retry the install.".to_owned(),
            TtsError::LoadFailed { detail } => {
                let mut r = "Failed to load Kokoro: ".to_owned();
                r.append(detail.as_str());
                r
            },
            TtsError::SynthesisCorrupt => "Model files appear corrupt. Reinstall the TTS model.".to_owned(),
            TtsError::SynthesisFailed { segment, detail } => {
                let mut r = "Synthesis failed for segment '".to_owned();
                r.append(segment.as_str());
                r.append("': ");
                r.append(detail.as_str());
                r
            },
            TtsError::Cancelled => "Synthesis cancelled.".to_owned(),
            TtsError::InvalidAudioPath => "Invalid audio path.".to_owned(),
            TtsError::WrongModelVariant => "Found kokoro-v1.0.int8.onnx, but this build requires kokoro-v1.0.onnx for higher quality speech.".to_owned(),
            TtsError::LocalModelMissing => "Local model file not found in the provided folder.".to_owned(),
            TtsError::LocalVoicesMissing => "Local voices file not found in the provided folder.".to_owned(),
            TtsError::MethodNotFound { name } => {
                let mut r = "Method ".to_owned();
                r.append(name.as_str());
                r.append(" not found");
                r
            },
            TtsError::Io { detail } => detail.clone(),
        }
    }
}

} // verus!
