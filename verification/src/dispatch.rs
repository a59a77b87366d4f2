//! The closed invocation surface of the plugin: one variant per method, a
//! parser from the wire-level method name, and the shape of the envelope the
//! shell returns to its caller.

use vstd::prelude::*;
use vstd::string::StringExecFns;
use crate::errors::TtsError;
use crate::strutil::str_eq;

verus! {

/// Every method the plugin answers.
#[derive(Clone, Copy, PartialEq, Eq, Structural, Debug)]
pub enum TtsMethod {
    Status,
    Install,
    InstallProgress,
    CacheStats,
    ClearCache,
    RemoveModel,
    ImportLocal,
    ReadAudio,
    ModelDir,
    Synthesize,
    Cancel,
}

/// Which method a wire-level name resolves to.
pub open spec fn method_of(name: Seq<char>) -> Option<TtsMethod> {
    if name == "status"@ {
        Option::Some(TtsMethod::Status)
    } else if name == "install"@ {
        Option::Some(TtsMethod::Install)
    } else if name == "install_progress"@ {
        Option::Some(TtsMethod::InstallProgress)
    } else if name == "cache_stats"@ {
        Option::Some(TtsMethod::CacheStats)
    } else if name == "clear_cache"@ {
        Option::Some(TtsMethod::ClearCache)
    } else if name == "remove_model"@ {
        Option::Some(TtsMethod::RemoveModel)
    } else if name == "import_local"@ {
        Option::Some(TtsMethod::ImportLocal)
    } else if name == "read_audio"@ {
        Option::Some(TtsMethod::ReadAudio)
    } else if name == "model_dir"@ {
        Option::Some(TtsMethod::ModelDir)
    } else if name == "synthesize"@ {
        Option::Some(TtsMethod::Synthesize)
    } else if name == "cancel"@ {
        Option::Some(TtsMethod::Cancel)
    } else {
        Option::None
    }
}

/// Parses a method name; an unknown name is the method-not-found error, which
/// carries the name.
pub fn parse_method(name: &str) -> (r: Result<TtsMethod, TtsError>)
    ensures
        method_of(name@) matches Option::Some(m) ==> r == Result::<TtsMethod, TtsError>::Ok(m),
        method_of(name@) is None ==> (r matches Result::Err(e) && e matches TtsError::MethodNotFound {
            name: n,
        } && n@ == name@),
{
    if str_eq(name, "status") {
        Ok(TtsMethod::Status)
    } else if str_eq(name, "install") {
        Ok(TtsMethod::Install)
    } else if str_eq(name, "install_progress") {
        Ok(TtsMethod::InstallProgress)
    } else if str_eq(name, "cache_stats") {
        Ok(TtsMethod::CacheStats)
    } else if str_eq(name, "clear_cache") {
        Ok(TtsMethod::ClearCache)
    } else if str_eq(name, "remove_model") {
        Ok(TtsMethod::RemoveModel)
    } else if str_eq(name, "import_local") {
        Ok(TtsMethod::ImportLocal)
    } else if str_eq(name, "read_audio") {
        Ok(TtsMethod::ReadAudio)
    } else if str_eq(name, "model_dir") {
        Ok(TtsMethod::ModelDir)
    } else if str_eq(name, "synthesize") {
        Ok(TtsMethod::Synthesize)
    } else if str_eq(name, "cancel") {
        Ok(TtsMethod::Cancel)
    } else {
        Err(TtsError::MethodNotFound { name: name.to_owned() })
    }
}

/// The success strings the simple methods answer with.
pub fn status_string(m: TtsMethod) -> (r: &'static str)
    requires
        m is Install || m is ClearCache || m is RemoveModel || m is ImportLocal || m is Cancel,
    ensures
        m is Install ==> r@ == "installed"@,
        m is ClearCache ==> r@ == "cache_cleared"@,
        m is RemoveModel ==> r@ == "model_removed"@,
        m is ImportLocal ==> r@ == "imported"@,
        m is Cancel ==> r@ == "cancelled"@,
{
    match m {
        TtsMethod::Install => "installed",
        TtsMethod::ClearCache => "cache_cleared",
        TtsMethod::RemoveModel => "model_removed",
        TtsMethod::ImportLocal => "imported",
        _ => "cancelled",
    }
}

} // verus!
