//! Error taxonomy for device acquisition and stream handling.

use vstd::prelude::*;
use vstd::string::StrSliceExecFns;
use vstd::string::StringExecFns;

verus! {

/// Everything that can go wrong while acquiring a device or running a stream.
///
/// Resource-acquisition failures are reported synchronously to the caller;
/// failures after a capture loop has started only end that loop.
#[derive(Debug, Clone)]
pub enum AudioError {
    NoDeviceFound,
    DeviceNotAvailable(String),
    StreamBuildError(String),
    StreamError(String),
    DeviceError(String),
    UnsupportedFormat,
    PermissionDenied,
    PlatformNotSupported(String),
}

/// The human-readable reason string for an error, as a sequence of characters.
pub open spec fn error_message_spec(e: AudioError) -> Seq<char> {
    match e {
        AudioError::NoDeviceFound => "No audio device found"@,
        AudioError::DeviceNotAvailable(name) => "Device not available: "@ + name@,
        AudioError::StreamBuildError(msg) => "Failed to build audio stream: "@ + msg@,
        AudioError::StreamError(msg) => "Stream error: "@ + msg@,
        AudioError::DeviceError(msg) => "Device error: "@ + msg@,
        AudioError::UnsupportedFormat => "Unsupported sample format"@,
        AudioError::PermissionDenied => "Permission denied for audio capture"@,
        AudioError::PlatformNotSupported(msg) => "Platform not supported: "@ + msg@,
    }
}

impl AudioError {
    /// The human-readable reason for this error, surfaced verbatim to callers.
    pub fn message(&self) -> (r: String)
        ensures
            r@ == error_message_spec(*self),
    {
        match self {
            AudioError::NoDeviceFound => String::from_str("No audio device found"),
            AudioError::DeviceNotAvailable(name) => {
                String::from_str("Device not available: ").concat(name.as_str())
            },
            AudioError::StreamBuildError(msg) => {
                String::from_str("Failed to build audio stream: ").concat(msg.as_str())
            },
            AudioError::StreamError(msg) => {
                String::from_str("Stream error: ").concat(msg.as_str())
            },
            AudioError::DeviceError(msg) => {
                String::from_str("Device error: ").concat(msg.as_str())
            },
            AudioError::UnsupportedFormat => String::from_str("Unsupported sample format"),
            AudioError::PermissionDenied => {
                String::from_str("Permission denied for audio capture")
            },
            AudioError::PlatformNotSupported(msg) => {
                String::from_str("Platform not supported: ").concat(msg.as_str())
            },
        }
    }
}

} // verus!
