//! The on-disk layout of the subsystem and the containment check that guards
//! audio reads: a requested path is served only when its canonical form lies
//! inside the cache directory.

use vstd::prelude::*;
use vstd::string::StringExecFns;
use crate::errors::TtsError;
use crate::strutil::{components, components_of, str_eq};

verus! {

/// Joins a directory and a name with a single separator.
pub fn join_path(dir: &str, name: &str) -> (r: String)
    ensures
        r@ == dir@ + "/"@ + name@,
{
    let mut r = dir.to_owned();
    r.append("/");
    r.append(name);
    r
}

/// The model directory under the subsystem's data directory.
pub fn model_dir_path(tts_dir: &str) -> (r: String)
    ensures
        r@ == tts_dir@ + "/"@ + "models"@,
{
    join_path(tts_dir, "models")
}

/// The cache directory under the subsystem's data directory.
pub fn cache_dir_path(tts_dir: &str) -> (r: String)
    ensures
        r@ == tts_dir@ + "/"@ + "cache"@,
{
    join_path(tts_dir, "cache")
}

/// The required file name of the model weights asset.
pub fn model_filename() -> (r: &'static str)
    ensures
        r@ == "kokoro-v1.0.onnx"@,
{
    "kokoro-v1.0.onnx"
}

/// The required file name of the voice bank asset.
pub fn voices_filename() -> (r: &'static str)
    ensures
        r@ == "voices.bin"@,
{
    "voices.bin"
}

/// A path component that walks nowhere: neither `.` nor `..`.
pub open spec fn plain_component(p: Seq<char>) -> bool {
    !(p.len() == 1 && p[0] == '.') && !(p.len() == 2 && p[0] == '.' && p[1] == '.')
}

/// A target path lies within a base directory: all its components are plain
/// (so nothing escapes through `.` or `..`), and the base's components are a
/// prefix of the target's. Both paths are expected in canonical form; the
/// component check stays sound even on raw input.
pub open spec fn path_within(base: Seq<char>, target: Seq<char>) -> bool {
    let b = components_of(base);
    let t = components_of(target);
    &&& forall|i: int| 0 <= i < t.len() ==> plain_component(#[trigger] t[i])
    &&& b.len() <= t.len()
    &&& forall|i: int| 0 <= i < b.len() ==> b[i] == t[i]
}

/// Whether a requested audio path, in canonical form, lies within the
/// canonical cache directory.
pub fn audio_path_allowed(cache_dir: &str, target: &str) -> (r: bool)
    ensures
        r == path_within(cache_dir@, target@),
{
    let b = components(cache_dir);
    let t = components(target);
    if b.len() > t.len() {
        return false;
    }
    let mut i: usize = 0;
    while i < t.len()
        invariant
            t.deep_view() == components_of(target@),
            i <= t@.len(),
            forall|k: int| 0 <= k < i ==> plain_component(#[trigger] t.deep_view()[k]),
        decreases t@.len() - i,
    {
        let part = t[i].as_str();
        let n = part.unicode_len();
        proof {
            assert(t.deep_view().len() == t@.len());
            assert(t.deep_view()[i as int] == t@[i as int]@);
        }
        if n == 1 && part.get_char(0) == '.' {
            proof {
                assert(!plain_component(components_of(target@)[i as int]));
            }
            return false;
        }
        if n == 2 && part.get_char(0) == '.' && part.get_char(1) == '.' {
            proof {
                assert(!plain_component(components_of(target@)[i as int]));
            }
            return false;
        }
        i = i + 1;
    }
    let mut j: usize = 0;
    while j < b.len()
        invariant
            b.deep_view() == components_of(cache_dir@),
            t.deep_view() == components_of(target@),
            b@.len() <= t@.len(),
            j <= b@.len(),
            forall|k: int| 0 <= k < j ==> b.deep_view()[k] == t.deep_view()[k],
        decreases b@.len() - j,
    {
        proof {
            assert(b.deep_view().len() == b@.len());
            assert(t.deep_view().len() == t@.len());
            assert(b.deep_view()[j as int] == b@[j as int]@);
            assert(t.deep_view()[j as int] == t@[j as int]@);
        }
        if !str_eq(b[j].as_str(), t[j].as_str()) {
            proof {
                assert(components_of(cache_dir@)[j as int] != components_of(target@)[j as int]);
            }
            return false;
        }
        j = j + 1;
    }
    true
}

/// Authorizes an audio read: the path-safety error exactly when the target
/// does not lie within the cache directory.
pub fn authorize_audio_read(cache_dir: &str, target: &str) -> (r: Result<(), TtsError>)
    ensures
        path_within(cache_dir@, target@) ==> r == Result::<(), TtsError>::Ok(()),
        !path_within(cache_dir@, target@) ==> r == Result::<(), TtsError>::Err(
            TtsError::InvalidAudioPath,
        ),
{
    if audio_path_allowed(cache_dir, target) {
        Ok(())
    } else {
        Err(TtsError::InvalidAudioPath)
    }
}

} // verus!
