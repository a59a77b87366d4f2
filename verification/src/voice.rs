//! The closed set of voice presets and the resolution of a requested voice
//! identifier, falling back to the default preset on unknown names.

use vstd::prelude::*;
use crate::strutil::str_eq;

verus! {

broadcast use vstd::string::group_string_axioms;

/// The named voice presets the engine ships with.
#[derive(Clone, Copy, PartialEq, Eq, Structural, Debug)]
pub enum VoicePreset {
    AfSky,
    AfBella,
    AfNicole,
    AfSarah,
    AmAdam,
    AmMichael,
    BfEmma,
    BfIsabella,
    BmGeorge,
    BmLewis,
}

/// Which preset a requested identifier resolves to: unknown identifiers fall
/// back to the default preset rather than erroring.
pub open spec fn preset_of(id: Seq<char>) -> VoicePreset {
    if id == "af_sky"@ {
        VoicePreset::AfSky
    } else if id == "af_bella"@ {
        VoicePreset::AfBella
    } else if id == "af_nicole"@ {
        VoicePreset::AfNicole
    } else if id == "af_sarah"@ {
        VoicePreset::AfSarah
    } else if id == "am_adam"@ {
        VoicePreset::AmAdam
    } else if id == "am_michael"@ {
        VoicePreset::AmMichael
    } else if id == "bf_emma"@ {
        VoicePreset::BfEmma
    } else if id == "bf_isabella"@ {
        VoicePreset::BfIsabella
    } else if id == "bm_george"@ {
        VoicePreset::BmGeorge
    } else if id == "bm_lewis"@ {
        VoicePreset::BmLewis
    } else {
        VoicePreset::AfSky
    }
}

/// Resolves a voice identifier to its preset.
pub fn resolve_voice(id: &str) -> (r: VoicePreset)
    ensures
        r == preset_of(id@),
{
    if str_eq(id, "af_sky") {
        VoicePreset::AfSky
    } else if str_eq(id, "af_bella") {
        VoicePreset::AfBella
    } else if str_eq(id, "af_nicole") {
        VoicePreset::AfNicole
    } else if str_eq(id, "af_sarah") {
        VoicePreset::AfSarah
    } else if str_eq(id, "am_adam") {
        VoicePreset::AmAdam
    } else if str_eq(id, "am_michael") {
        VoicePreset::AmMichael
    } else if str_eq(id, "bf_emma") {
        VoicePreset::BfEmma
    } else if str_eq(id, "bf_isabella") {
        VoicePreset::BfIsabella
    } else if str_eq(id, "bm_george") {
        VoicePreset::BmGeorge
    } else if str_eq(id, "bm_lewis") {
        VoicePreset::BmLewis
    } else {
        VoicePreset::AfSky
    }
}

/// The canonical identifier of each preset.
pub open spec fn id_of(v: VoicePreset) -> Seq<char> {
    match v {
        VoicePreset::AfSky => "af_sky"@,
        VoicePreset::AfBella => "af_bella"@,
        VoicePreset::AfNicole => "af_nicole"@,
        VoicePreset::AfSarah => "af_sarah"@,
        VoicePreset::AmAdam => "am_adam"@,
        VoicePreset::AmMichael => "am_michael"@,
        VoicePreset::BfEmma => "bf_emma"@,
        VoicePreset::BfIsabella => "bf_isabella"@,
        VoicePreset::BmGeorge => "bm_george"@,
        VoicePreset::BmLewis => "bm_lewis"@,
    }
}

impl VoicePreset {
    /// The canonical identifier of the preset.
    pub fn id(&self) -> (r: &'static str)
        ensures
            r@ == id_of(*self),
    {
        match self {
            VoicePreset::AfSky => "af_sky",
            VoicePreset::AfBella => "af_bella",
            VoicePreset::AfNicole => "af_nicole",
            VoicePreset::AfSarah => "af_sarah",
            VoicePreset::AmAdam => "am_adam",
            VoicePreset::AmMichael => "am_michael",
            VoicePreset::BfEmma => "bf_emma",
            VoicePreset::BfIsabella => "bf_isabella",
            VoicePreset::BmGeorge => "bm_george",
            VoicePreset::BmLewis => "bm_lewis",
        }
    }
}

} // verus!
