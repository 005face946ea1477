//! Debug state: configuration, counters, metrics, log entries, recordings.

use heronote_audio::debug::{
    default_output_dir, sort_files_newest_first, source_from_filename, wav_filename,
    DebugAudioWriter, DebugConfig, DebugFileRecord, DebugLogEntry, DebugState, LogLevel,
};
use heronote_audio::lifecycle::AudioSource;

#[test]
fn test_log_level_display() {
    assert_eq!(LogLevel::Debug.as_str(), "debug");
    assert_eq!(LogLevel::Info.as_str(), "info");
    assert_eq!(LogLevel::Warn.as_str(), "warn");
    assert_eq!(LogLevel::Error.as_str(), "error");
}

#[test]
fn default_config_starts_disabled_with_recording_on() {
    let config = DebugConfig::default();
    assert!(!config.enabled);
    assert!(config.save_audio_files);
    assert!(config.log_audio_buffers);
    assert!(config.log_performance);
    assert!(config.audio_output_dir.ends_with("debug_audio"));
}

#[test]
fn output_dir_falls_back_without_a_data_directory() {
    assert_eq!(default_output_dir(None), "./debug_audio");
    assert_eq!(
        default_output_dir(Some("/data/local".to_string())),
        "/data/local/debug_audio"
    );
}

#[test]
fn counters_accumulate_per_source_and_reset() {
    let mut state = DebugState::default();
    state.add_samples(AudioSource::Mic, 100);
    state.add_samples(AudioSource::Mic, 23);
    state.add_dropped(AudioSource::Mic, 5);
    state.add_samples(AudioSource::Speaker, 7);

    let m = state.metrics();
    assert_eq!(m.mic.samples_processed, 123);
    assert_eq!(m.mic.samples_dropped, 5);
    assert_eq!(m.speaker.samples_processed, 7);
    assert_eq!(m.speaker.samples_dropped, 0);

    state.reset_counters();
    let m = state.metrics();
    assert_eq!(m.mic.samples_processed, 0);
    assert_eq!(m.mic.samples_dropped, 0);
    assert_eq!(m.speaker.samples_processed, 0);
}

#[test]
fn flat_metrics_mirror_the_nested_ones() {
    let mut state = DebugState::default();
    state.add_samples(AudioSource::Mic, 11);
    state.add_dropped(AudioSource::Speaker, 3);
    state.update_capturing(true, false);

    let flat = state.flat_metrics();
    assert_eq!(flat.mic_samples_processed, 11);
    assert_eq!(flat.speaker_samples_dropped, 3);
    assert!(flat.mic_capturing);
    assert!(!flat.speaker_capturing);
}

#[test]
fn enable_toggle_keeps_the_rest_of_the_config() {
    let mut state = DebugState::default();
    let dir_before = state.config().audio_output_dir;
    state.set_enabled(true);
    assert!(state.is_enabled());
    assert_eq!(state.config().audio_output_dir, dir_before);
    state.set_enabled(false);
    assert!(!state.is_enabled());
}

#[test]
fn log_entries_carry_their_level_and_message() {
    let e = DebugLogEntry::info("started".to_string());
    assert_eq!(e.level, LogLevel::Info);
    assert_eq!(e.message, "started");
    let e = DebugLogEntry::warn("w".to_string());
    assert_eq!(e.level, LogLevel::Warn);
    let e = DebugLogEntry::error("e".to_string());
    assert_eq!(e.level, LogLevel::Error);
}

#[test]
fn filename_source_parsing_matches_the_prefixes() {
    assert_eq!(
        source_from_filename("mic_20240101_010203.wav"),
        Some(AudioSource::Mic)
    );
    assert_eq!(
        source_from_filename("speaker_20240101_010203.wav"),
        Some(AudioSource::Speaker)
    );
    assert_eq!(source_from_filename("music_session.wav"), None);
    assert_eq!(source_from_filename("mic"), None);
    assert_eq!(source_from_filename(""), None);
}

#[test]
fn wav_filenames_carry_source_and_timestamp() {
    assert_eq!(
        wav_filename(AudioSource::Mic, "20240101_010203"),
        "mic_20240101_010203.wav"
    );
    assert_eq!(
        wav_filename(AudioSource::Speaker, "t"),
        "speaker_t.wav"
    );
}

fn record(path: &str, created_at_unix: i64) -> DebugFileRecord {
    DebugFileRecord {
        path: path.to_string(),
        source: AudioSource::Mic,
        created_at_unix,
        sample_rate: 48000,
        size_bytes: 16,
        samples: 4,
    }
}

#[test]
fn files_sort_newest_first() {
    let mut files = vec![record("a", 10), record("b", 30), record("c", 20), record("d", 30)];
    sort_files_newest_first(&mut files);
    let stamps: Vec<i64> = files.iter().map(|f| f.created_at_unix).collect();
    assert_eq!(stamps, vec![30, 30, 20, 10]);
    let mut paths: Vec<String> = files.iter().map(|f| f.path.clone()).collect();
    paths.sort();
    assert_eq!(paths, vec!["a", "b", "c", "d"]);
}

#[test]
fn inactive_writer_is_a_null_object() {
    let mut config = DebugConfig::default();
    config.enabled = false;
    let mut writer = DebugAudioWriter::new(&config, AudioSource::Mic, 48000);
    assert!(!writer.is_active());
    writer.note_written(100);
    assert_eq!(writer.samples_written(), 0);

    let mut state = DebugState::default();
    assert!(writer.finalize(&mut state, 1000, 16).is_none());
    assert_eq!(state.list_files().len(), 0);
}

#[test]
fn active_writer_counts_samples_and_registers_its_recording() {
    let mut config = DebugConfig::default();
    config.enabled = true;
    config.save_audio_files = true;
    config.audio_output_dir = "/tmp/captures".to_string();
    let mut writer = DebugAudioWriter::new(&config, AudioSource::Speaker, 44100);
    assert!(writer.is_active());
    assert!(writer.path.starts_with("/tmp/captures/speaker_"));
    assert!(writer.path.ends_with(".wav"));

    writer.note_written(256);
    writer.note_written(256);
    assert_eq!(writer.samples_written(), 512);

    let mut state = DebugState::default();
    let info = writer.finalize(&mut state, 1234, 2048).unwrap();
    assert_eq!(info.source, AudioSource::Speaker);
    assert_eq!(info.created_at_unix, 1234);
    assert_eq!(info.sample_rate, 44100);
    assert_eq!(info.size_bytes, 2048);
    assert_eq!(info.samples, 512);
    assert_eq!(state.list_files().len(), 1);
    assert_eq!(state.list_files()[0].path, info.path);
}
