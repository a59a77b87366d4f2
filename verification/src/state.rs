//! The in-memory state of the plugin instance: whether the engine is loaded
//! and whether cancellation was requested. The engine handle itself lives
//! outside; this state decides when it must be (re)loaded, and model removal
//! invalidates it so a stale handle is never reused.

use vstd::prelude::*;
use crate::errors::TtsError;
use crate::install::asset_check_of;
use crate::install::verify_assets;

verus! {

/// What `status` reports: the two booleans are independent, and
/// installed-but-unloaded is a valid state.
#[derive(Clone, Copy, PartialEq, Eq, Structural, Debug)]
pub struct StatusReport {
    pub installed: bool,
    pub loaded: bool,
}

/// The plugin instance's mutable state.
pub struct TtsState {
    /// The inference engine is loaded in memory.
    pub loaded: bool,
    /// A cancellation was requested and not yet consumed by a synthesis call.
    pub cancel_requested: bool,
}

impl TtsState {
    /// The state of a freshly activated instance: nothing loaded, nothing
    /// cancelled.
    pub fn new() -> (r: Self)
        ensures
            !r.loaded,
            !r.cancel_requested,
    {
        TtsState { loaded: false, cancel_requested: false }
    }

    /// Reports whether valid assets exist on disk (by the size thresholds)
    /// and whether the engine is loaded in memory.
    pub fn status(&self, model_len: Option<u64>, voices_len: Option<u64>) -> (r: StatusReport)
        ensures
            r.installed == (asset_check_of(model_len, voices_len) is Ok),
            r.loaded == self.loaded,
    {
        let installed = match verify_assets(model_len, voices_len) {
            Ok(_) => true,
            Err(_) => false,
        };
        StatusReport { installed, loaded: self.loaded }
    }

    /// Requests cancellation of the synthesis in flight, if any. The request
    /// does not block; it is observed at the next segment boundary.
    pub fn cancel(&mut self)
        ensures
            final(self).cancel_requested,
            final(self).loaded == old(self).loaded,
    {
        self.cancel_requested = true;
    }

    /// Clears the cancellation flag, as every synthesis call does first.
    pub fn reset_cancel(&mut self)
        ensures
            !final(self).cancel_requested,
            final(self).loaded == old(self).loaded,
    {
        self.cancel_requested = false;
    }

    /// Decides whether synthesis can proceed and whether the engine must be
    /// loaded first: a loaded engine is reused, otherwise the assets must
    /// pass verification before a load is attempted.
    pub fn ensure_loaded_decision(&self, model_len: Option<u64>, voices_len: Option<u64>) -> (r:
        Result<bool, TtsError>)
        ensures
            self.loaded ==> r == Result::<bool, TtsError>::Ok(false),
            !self.loaded && asset_check_of(model_len, voices_len) is Ok ==> r == Result::<
                bool,
                TtsError,
            >::Ok(true),
            !self.loaded && asset_check_of(model_len, voices_len) is Err ==> r == Result::<
                bool,
                TtsError,
            >::Err(asset_check_of(model_len, voices_len)->Err_0),
    {
        if self.loaded {
            Ok(false)
        } else {
            match verify_assets(model_len, voices_len) {
                Ok(_) => Ok(true),
                Err(e) => Err(e),
            }
        }
    }

    /// Records that the engine loaded.
    pub fn mark_loaded(&mut self)
        ensures
            final(self).loaded,
            final(self).cancel_requested == old(self).cancel_requested,
    {
        self.loaded = true;
    }

    /// Removes the model: besides deleting the files on disk (done by the
    /// caller), this invalidates any engine handle already loaded in memory,
    /// so later synthesis cannot silently reuse a stale handle.
    pub fn remove_model(&mut self)
        ensures
            !final(self).loaded,
            final(self).cancel_requested == old(self).cancel_requested,
    {
        self.loaded = false;
    }
}

/// Law: after the model is removed, status reports neither installed nor
/// loaded — the assets are gone from disk and the in-memory handle was
/// invalidated — and a synthesis attempt finds no handle to reuse: its
/// load decision is the missing-model error.
pub proof fn lemma_remove_model_invalidates(s: TtsState, r: StatusReport, d: Result<bool, TtsError>)
    requires
        !s.loaded,
        r.installed == (asset_check_of(Option::None, Option::None) is Ok),
        r.loaded == s.loaded,
        d == (if s.loaded {
            Result::<bool, TtsError>::Ok(false)
        } else {
            match asset_check_of(Option::None, Option::None) {
                Result::Ok(_) => Result::<bool, TtsError>::Ok(true),
                Result::Err(e) => Result::<bool, TtsError>::Err(e),
            }
        }),
    ensures
        !r.installed,
        !r.loaded,
        d == Result::<bool, TtsError>::Err(TtsError::ModelFileMissing),
{
}

} // verus!
