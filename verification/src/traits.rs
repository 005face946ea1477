//! Traits that platform capture backends implement.
//!
//! A backend owns the OS capture resource; these traits are its boundary.
//! Acquisition must fail fast, before any thread is spawned, so callers can
//! report errors synchronously.

use vstd::prelude::*;
use crate::error::AudioError;

verus! {

/// A stream of normalized mono sample chunks from one capture source.
pub trait AudioStream {
    /// The sample rate of this stream, which follows the device and may
    /// change mid-stream.
    fn sample_rate(&self) -> u32;
}

/// An audio input source: a microphone or a system-output loopback.
pub trait AudioInput: Sized {
    type Stream: AudioStream;

    /// Acquire the default device for this source.
    fn new() -> Result<Self, AudioError>;

    /// The sample rate the device negotiated.
    fn sample_rate(&self) -> u32;

    /// Start capturing; the returned stream owns the session and tears it
    /// down when released.
    fn stream(self) -> Result<Self::Stream, AudioError>;
}

} // verus!
