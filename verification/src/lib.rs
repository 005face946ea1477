//! Verified core of a live audio capture pipeline.
//!
//! The crate bridges a real-time audio callback to a cooperative consumer:
//! native samples are normalized to fixed-point mono values, handed through a
//! fixed-capacity lock-free ring buffer, and the capture lifecycle (start,
//! stop, running state) is driven by a small verified state machine.

pub mod bridge;
pub mod debug;
pub mod device;
pub mod error;
pub mod lifecycle;
pub mod normalize;
pub mod traits;

pub use bridge::CaptureBridge;
pub use bridge::SampleRing;
pub use bridge::WakeCell;
pub use debug::DebugAudioWriter;
pub use debug::DebugConfig;
pub use debug::DebugState;
pub use debug::LogLevel;
pub use device::AudioDevice;
pub use device::DeviceType;
pub use error::AudioError;
pub use lifecycle::AudioSource;
pub use lifecycle::AudioState;
pub use lifecycle::CapturePhase;
pub use normalize::SampleFormat;
pub use traits::AudioInput;
pub use traits::AudioStream;
