//! Lifecycle protocol: start/stop transitions and the polling contract.

use heronote_audio::error::AudioError;
use heronote_audio::lifecycle::{AudioSource, AudioState, CapturePhase, POLL_INTERVAL_MS};

#[test]
fn test_poll_interval_is_reasonable() {
    // Polling should be frequent enough to be responsive but not too aggressive
    assert!(POLL_INTERVAL_MS >= 50);
    assert!(POLL_INTERVAL_MS <= 500);
}

#[test]
fn test_audio_source_display() {
    assert_eq!(AudioSource::Mic.as_str(), "mic");
    assert_eq!(AudioSource::Speaker.as_str(), "speaker");
}

#[test]
fn starting_twice_reports_already_running() {
    let mut state = AudioState::default();
    assert!(state.on_start_request(AudioSource::Mic, Ok(())).is_ok());
    assert!(state.is_running(AudioSource::Mic));

    // The second start is rejected and the first capture is unaffected.
    let second = state.on_start_request(AudioSource::Mic, Ok(()));
    assert_eq!(
        second.unwrap_err(),
        "Microphone capture is already running"
    );
    assert!(state.is_running(AudioSource::Mic));
    assert!(state.should_continue(AudioSource::Mic));

    let mut speaker_state = AudioState::default();
    assert!(speaker_state
        .on_start_request(AudioSource::Speaker, Ok(()))
        .is_ok());
    let second = speaker_state.on_start_request(AudioSource::Speaker, Ok(()));
    assert_eq!(second.unwrap_err(), "Speaker capture is already running");
}

#[test]
fn stopping_when_idle_reports_not_running_and_mutates_nothing() {
    let mut state = AudioState::default();
    let r = state.on_stop_request(AudioSource::Mic);
    assert_eq!(r.unwrap_err(), "Microphone capture is not running");
    assert!(!state.is_running(AudioSource::Mic));
    assert!(!state.is_mic_stop_signaled());
    assert_eq!(state.phase(AudioSource::Mic), CapturePhase::Idle);

    let r = state.on_stop_request(AudioSource::Speaker);
    assert_eq!(r.unwrap_err(), "Speaker capture is not running");
    assert!(!state.is_speaker_stop_signaled());
}

#[test]
fn start_poll_stop_round_trip() {
    let mut state = AudioState::default();

    // Start: the controller sees the source running within one interval.
    assert!(state.on_start_request(AudioSource::Mic, Ok(())).is_ok());
    assert!(state.is_running(AudioSource::Mic));
    assert_eq!(state.phase(AudioSource::Mic), CapturePhase::Running);

    // The owning thread keeps polling while no stop is requested.
    assert!(state.should_continue(AudioSource::Mic));

    // Stop: the request is recorded; the owning thread observes it at its
    // next check, exits, and the machine returns to idle.
    assert!(state.on_stop_request(AudioSource::Mic).is_ok());
    assert_eq!(state.phase(AudioSource::Mic), CapturePhase::StopRequested);
    assert!(!state.should_continue(AudioSource::Mic));
    state.on_thread_exit(AudioSource::Mic);
    assert!(!state.is_running(AudioSource::Mic));
    assert_eq!(state.phase(AudioSource::Mic), CapturePhase::Idle);

    // The speaker source was never touched.
    assert!(!state.is_running(AudioSource::Speaker));
    assert!(!state.is_speaker_stop_signaled());
}

#[test]
fn failed_preflight_leaves_state_idle_and_surfaces_the_reason() {
    let mut state = AudioState::default();
    let r = state.on_start_request(
        AudioSource::Mic,
        Err(AudioError::DeviceNotAvailable("USB Mic".to_string())),
    );
    assert_eq!(r.unwrap_err(), "Device not available: USB Mic");
    assert!(!state.is_running(AudioSource::Mic));
    assert_eq!(state.phase(AudioSource::Mic), CapturePhase::Idle);

    let r = state.on_start_request(AudioSource::Speaker, Err(AudioError::NoDeviceFound));
    assert_eq!(r.unwrap_err(), "No audio device found");
    assert_eq!(state.phase(AudioSource::Speaker), CapturePhase::Idle);
}

#[test]
fn per_source_flag_methods_match_the_protocol() {
    let mut state = AudioState::default();
    assert!(!state.is_mic_running());
    state.set_mic_running(true);
    assert!(state.is_mic_running());
    assert!(!state.is_speaker_running());

    state.signal_mic_stop();
    assert!(state.is_mic_stop_signaled());
    state.reset_mic_stop_signal();
    assert!(!state.is_mic_stop_signaled());

    state.set_speaker_running(true);
    assert!(state.is_speaker_running());
    state.signal_speaker_stop();
    assert!(state.is_speaker_stop_signaled());
    state.reset_speaker_stop_signal();
    assert!(!state.is_speaker_stop_signaled());
    state.set_speaker_running(false);
    assert!(!state.is_speaker_running());
}

#[test]
fn error_messages_are_verbatim() {
    assert_eq!(AudioError::NoDeviceFound.message(), "No audio device found");
    assert_eq!(
        AudioError::DeviceNotAvailable("X".to_string()).message(),
        "Device not available: X"
    );
    assert_eq!(
        AudioError::StreamBuildError("boom".to_string()).message(),
        "Failed to build audio stream: boom"
    );
    assert_eq!(
        AudioError::StreamError("gone".to_string()).message(),
        "Stream error: gone"
    );
    assert_eq!(
        AudioError::DeviceError("busy".to_string()).message(),
        "Device error: busy"
    );
    assert_eq!(
        AudioError::UnsupportedFormat.message(),
        "Unsupported sample format"
    );
    assert_eq!(
        AudioError::PermissionDenied.message(),
        "Permission denied for audio capture"
    );
    assert_eq!(
        AudioError::PlatformNotSupported("Linux mic capture coming soon".to_string()).message(),
        "Platform not supported: Linux mic capture coming soon"
    );
}
