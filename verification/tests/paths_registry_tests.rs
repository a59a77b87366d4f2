use tts_core::dispatch::{parse_method, status_string, TtsMethod};
use tts_core::errors::TtsError;
use tts_core::paths::{
    audio_path_allowed, authorize_audio_read, cache_dir_path, join_path, model_dir_path,
    model_filename, voices_filename,
};
use tts_core::registry::{PluginRegistry, RegistryError};
use tts_core::stats::{cache_stats_report, DirWalk};
use tts_core::TtsPlugin;

#[test]
fn audio_reads_are_contained_in_the_cache_directory() {
    let cache = "/data/tts/cache";
    assert!(audio_path_allowed(cache, "/data/tts/cache/abc.wav"));
    assert!(audio_path_allowed(cache, "/data/tts/cache"));
    // absolute paths elsewhere
    assert!(!audio_path_allowed(cache, "/etc/passwd"));
    // traversal through parent components, even below the cache directory
    assert!(!audio_path_allowed(cache, "/data/tts/cache/../../../etc/passwd"));
    assert!(!audio_path_allowed(cache, "../../etc/passwd"));
    assert!(!audio_path_allowed(cache, "/data/tts/cache/./x.wav"));
    // a sibling whose name merely extends the directory name
    assert!(!audio_path_allowed(cache, "/data/tts/cachesneaky/x.wav"));
    // a resolved symlink target outside the cache is rejected the same way
    assert!(!audio_path_allowed(cache, "/home/user/secrets/audio.wav"));
}

#[test]
fn audio_authorization_error() {
    assert!(authorize_audio_read("/a/cache", "/a/cache/f.wav").is_ok());
    let err = authorize_audio_read("/a/cache", "/a/elsewhere/f.wav").unwrap_err();
    assert!(matches!(err, TtsError::InvalidAudioPath));
    assert_eq!(err.message(), "Invalid audio path.");
}

#[test]
fn directory_layout() {
    assert_eq!(join_path("/data/tts", "models"), "/data/tts/models");
    assert_eq!(model_dir_path("/data/tts"), "/data/tts/models");
    assert_eq!(cache_dir_path("/data/tts"), "/data/tts/cache");
    assert_eq!(model_filename(), "kokoro-v1.0.onnx");
    assert_eq!(voices_filename(), "voices.bin");
}

#[test]
fn plugin_id() {
    assert_eq!(TtsPlugin.id(), "core.tts");
}

#[test]
fn method_parsing() {
    assert_eq!(parse_method("status").unwrap(), TtsMethod::Status);
    assert_eq!(parse_method("install").unwrap(), TtsMethod::Install);
    assert_eq!(parse_method("install_progress").unwrap(), TtsMethod::InstallProgress);
    assert_eq!(parse_method("cache_stats").unwrap(), TtsMethod::CacheStats);
    assert_eq!(parse_method("clear_cache").unwrap(), TtsMethod::ClearCache);
    assert_eq!(parse_method("remove_model").unwrap(), TtsMethod::RemoveModel);
    assert_eq!(parse_method("import_local").unwrap(), TtsMethod::ImportLocal);
    assert_eq!(parse_method("read_audio").unwrap(), TtsMethod::ReadAudio);
    assert_eq!(parse_method("model_dir").unwrap(), TtsMethod::ModelDir);
    assert_eq!(parse_method("synthesize").unwrap(), TtsMethod::Synthesize);
    assert_eq!(parse_method("cancel").unwrap(), TtsMethod::Cancel);
    let err = parse_method("reticulate").unwrap_err();
    assert_eq!(err.message(), "Method reticulate not found");
    assert_eq!(status_string(TtsMethod::Cancel), "cancelled");
    assert_eq!(status_string(TtsMethod::ClearCache), "cache_cleared");
    assert_eq!(status_string(TtsMethod::RemoveModel), "model_removed");
    assert_eq!(status_string(TtsMethod::Install), "installed");
    assert_eq!(status_string(TtsMethod::ImportLocal), "imported");
}

#[test]
fn registry_lifecycle() {
    let mut reg = PluginRegistry::new();
    // unregistered: invocation resolves to not-found
    let err = reg.resolve("core.tts").unwrap_err();
    assert_eq!(err.message(), "Plugin core.tts not found");
    // registered but not activated: not-active
    reg.register("core.tts");
    let err = reg.resolve("core.tts").unwrap_err();
    assert_eq!(err.message(), "Plugin core.tts not active");
    // activation is idempotent
    assert!(reg.activate("core.tts").unwrap());
    assert!(!reg.activate("core.tts").unwrap());
    assert!(reg.resolve("core.tts").is_ok());
    // activating an unknown plugin fails
    let err = reg.activate("core.other").unwrap_err();
    assert!(matches!(err, RegistryError::NotFound { .. }));
    // deactivation is idempotent too
    assert!(reg.deactivate("core.tts"));
    assert!(!reg.deactivate("core.tts"));
    assert!(!reg.deactivate("core.never"));
    let err = reg.resolve("core.tts").unwrap_err();
    assert_eq!(err.message(), "Plugin core.tts not active");
    // registering twice leaves one entry
    reg.register("core.tts");
    assert_eq!(reg.entries.len(), 1);
    let failed = RegistryError::ActivationFailed {
        id: "core.tts".to_string(),
        detail: "no data dir".to_string(),
    };
    assert_eq!(failed.message(), "Failed to activate plugin core.tts: no data dir");
}

#[test]
fn directory_walk_tallies_files_and_schedules_subdirs() {
    // the walk over: root {a.wav (3 bytes), sub {b.wav (5 bytes)}}
    let mut walk = DirWalk::start("/tts/cache");
    let first = walk.pop_dir().unwrap();
    assert_eq!(first, "/tts/cache");
    walk.record_file(3);
    walk.record_subdir("/tts/cache/sub");
    let second = walk.pop_dir().unwrap();
    assert_eq!(second, "/tts/cache/sub");
    walk.record_file(5);
    assert!(walk.pop_dir().is_none());
    assert_eq!(walk.totals(), (8, 2));
    // saturating accounting instead of wrapping
    walk.record_file(u64::MAX);
    assert_eq!(walk.totals().0, u64::MAX);
}

#[test]
fn cache_stats_combine_both_walks() {
    let mut model_walk = DirWalk::start("/tts/models");
    model_walk.pop_dir();
    model_walk.record_file(100);
    let mut cache_walk = DirWalk::start("/tts/cache");
    cache_walk.pop_dir();
    cache_walk.record_file(7);
    cache_walk.record_file(9);
    let report = cache_stats_report(&model_walk, &cache_walk, "/tts/models", "/tts/cache");
    assert_eq!(report.model_bytes, 100);
    assert_eq!(report.model_files, 1);
    assert_eq!(report.cache_bytes, 16);
    assert_eq!(report.cache_files, 2);
    assert_eq!(report.model_dir, "/tts/models");
    assert_eq!(report.cache_dir, "/tts/cache");
}
