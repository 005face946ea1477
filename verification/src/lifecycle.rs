//! Cross-thread capture lifecycle coordination.
//!
//! The capture resource cannot leave the thread that created it, so a
//! dedicated thread owns each active source for its entire lifetime and other
//! threads only signal it: one `running` flag written by the owning thread
//! and one `stop requested` flag written by controllers. This module is the
//! decision core of that protocol; the shell around it keeps the flags in
//! atomics and runs the polling loop.

use vstd::prelude::*;
use vstd::string::StringExecFns;
use crate::error::AudioError;
use crate::error::error_message_spec;

verus! {

/// Interval at which an owning thread polls its stream and checks the stop
/// flag, in milliseconds. A stop request is observed within one interval.
pub const POLL_INTERVAL_MS: u64 = 100;

/// A capturable source: the default microphone or the system output mix.
#[derive(Debug, Clone, Copy, PartialEq, Eq, Structural)]
pub enum AudioSource {
    Mic,
    Speaker,
}

impl AudioSource {
    pub fn as_str(&self) -> (r: &'static str)
        ensures
            *self == AudioSource::Mic ==> r@ == "mic"@,
            *self == AudioSource::Speaker ==> r@ == "speaker"@,
    {
        match self {
            AudioSource::Mic => "mic",
            AudioSource::Speaker => "speaker",
        }
    }
}

/// The observable phase of one source's lifecycle. Between the start request
/// and the owning thread's own resource acquisition the machine is briefly
/// "starting", but that is indistinguishable from running to observers: the
/// flags admit only these three phases.
#[derive(Debug, Clone, Copy, PartialEq, Eq, Structural)]
pub enum CapturePhase {
    Idle,
    Running,
    StopRequested,
}

/// The reason string returned when a source is started while running.
pub open spec fn already_running_message(source: AudioSource) -> Seq<char> {
    match source {
        AudioSource::Mic => "Microphone capture is already running"@,
        AudioSource::Speaker => "Speaker capture is already running"@,
    }
}

/// The reason string returned when a source is stopped while not running.
pub open spec fn not_running_message(source: AudioSource) -> Seq<char> {
    match source {
        AudioSource::Mic => "Microphone capture is not running"@,
        AudioSource::Speaker => "Speaker capture is not running"@,
    }
}

/// Per-source running and stop-request flags for both capturable sources.
///
/// `running` is written only by the owning capture thread; `stop requested`
/// only by external controllers. Failures never strand the machine: every
/// path returns to idle, so a later start can retry.
#[derive(Debug, PartialEq, Eq, Structural)]
pub struct AudioState {
    mic_running: bool,
    mic_stop_signal: bool,
    speaker_running: bool,
    speaker_stop_signal: bool,
}

impl Default for AudioState {
    /// Both sources start idle with no stop requested.
    fn default() -> (r: AudioState)
        ensures
            !r.running(AudioSource::Mic),
            !r.running(AudioSource::Speaker),
            !r.stop_requested(AudioSource::Mic),
            !r.stop_requested(AudioSource::Speaker),
    {
        AudioState {
            mic_running: false,
            mic_stop_signal: false,
            speaker_running: false,
            speaker_stop_signal: false,
        }
    }
}

impl AudioState {
    /// Whether a capture thread currently owns this source.
    pub closed spec fn running(self, source: AudioSource) -> bool {
        match source {
            AudioSource::Mic => self.mic_running,
            AudioSource::Speaker => self.speaker_running,
        }
    }

    /// Whether a controller has asked this source's thread to stop.
    pub closed spec fn stop_requested(self, source: AudioSource) -> bool {
        match source {
            AudioSource::Mic => self.mic_stop_signal,
            AudioSource::Speaker => self.speaker_stop_signal,
        }
    }

    /// The phase the flags encode for one source.
    pub open spec fn phase_spec(self, source: AudioSource) -> CapturePhase {
        if !self.running(source) {
            CapturePhase::Idle
        } else if self.stop_requested(source) {
            CapturePhase::StopRequested
        } else {
            CapturePhase::Running
        }
    }

    pub fn is_mic_running(&self) -> (r: bool)
        ensures
            r == self.running(AudioSource::Mic),
    {
        self.mic_running
    }

    pub fn set_mic_running(&mut self, running: bool)
        ensures
            final(self).running(AudioSource::Mic) == running,
            final(self).stop_requested(AudioSource::Mic)
                == old(self).stop_requested(AudioSource::Mic),
            final(self).running(AudioSource::Speaker) == old(self).running(AudioSource::Speaker),
            final(self).stop_requested(AudioSource::Speaker)
                == old(self).stop_requested(AudioSource::Speaker),
    {
        self.mic_running = running;
    }

    pub fn is_mic_stop_signaled(&self) -> (r: bool)
        ensures
            r == self.stop_requested(AudioSource::Mic),
    {
        self.mic_stop_signal
    }

    pub fn signal_mic_stop(&mut self)
        ensures
            final(self).stop_requested(AudioSource::Mic),
            final(self).running(AudioSource::Mic) == old(self).running(AudioSource::Mic),
            final(self).running(AudioSource::Speaker) == old(self).running(AudioSource::Speaker),
            final(self).stop_requested(AudioSource::Speaker)
                == old(self).stop_requested(AudioSource::Speaker),
    {
        self.mic_stop_signal = true;
    }

    pub fn reset_mic_stop_signal(&mut self)
        ensures
            !final(self).stop_requested(AudioSource::Mic),
            final(self).running(AudioSource::Mic) == old(self).running(AudioSource::Mic),
            final(self).running(AudioSource::Speaker) == old(self).running(AudioSource::Speaker),
            final(self).stop_requested(AudioSource::Speaker)
                == old(self).stop_requested(AudioSource::Speaker),
    {
        self.mic_stop_signal = false;
    }

    pub fn is_speaker_running(&self) -> (r: bool)
        ensures
            r == self.running(AudioSource::Speaker),
    {
        self.speaker_running
    }

    pub fn set_speaker_running(&mut self, running: bool)
        ensures
            final(self).running(AudioSource::Speaker) == running,
            final(self).stop_requested(AudioSource::Speaker)
                == old(self).stop_requested(AudioSource::Speaker),
            final(self).running(AudioSource::Mic) == old(self).running(AudioSource::Mic),
            final(self).stop_requested(AudioSource::Mic)
                == old(self).stop_requested(AudioSource::Mic),
    {
        self.speaker_running = running;
    }

    pub fn is_speaker_stop_signaled(&self) -> (r: bool)
        ensures
            r == self.stop_requested(AudioSource::Speaker),
    {
        self.speaker_stop_signal
    }

    pub fn signal_speaker_stop(&mut self)
        ensures
            final(self).stop_requested(AudioSource::Speaker),
            final(self).running(AudioSource::Speaker) == old(self).running(AudioSource::Speaker),
            final(self).running(AudioSource::Mic) == old(self).running(AudioSource::Mic),
            final(self).stop_requested(AudioSource::Mic)
                == old(self).stop_requested(AudioSource::Mic),
    {
        self.speaker_stop_signal = true;
    }

    pub fn reset_speaker_stop_signal(&mut self)
        ensures
            !final(self).stop_requested(AudioSource::Speaker),
            final(self).running(AudioSource::Speaker) == old(self).running(AudioSource::Speaker),
            final(self).running(AudioSource::Mic) == old(self).running(AudioSource::Mic),
            final(self).stop_requested(AudioSource::Mic)
                == old(self).stop_requested(AudioSource::Mic),
    {
        self.speaker_stop_signal = false;
    }

    /// Whether any capture thread owns the given source right now.
    pub fn is_running(&self, source: AudioSource) -> (r: bool)
        ensures
            r == self.running(source),
    {
        match source {
            AudioSource::Mic => self.mic_running,
            AudioSource::Speaker => self.speaker_running,
        }
    }

    /// The observable phase of the given source.
    pub fn phase(&self, source: AudioSource) -> (r: CapturePhase)
        ensures
            r == self.phase_spec(source),
    {
        if !self.is_running(source) {
            CapturePhase::Idle
        } else if match source {
            AudioSource::Mic => self.mic_stop_signal,
            AudioSource::Speaker => self.speaker_stop_signal,
        } {
            CapturePhase::StopRequested
        } else {
            CapturePhase::Running
        }
    }

    /// Handle a start request for one source, given the outcome of the
    /// caller's device pre-flight check.
    ///
    /// A source already running is rejected with the "already running"
    /// reason and nothing changes, leaving the first capture unaffected. A
    /// failed pre-flight is surfaced verbatim and the source stays idle. On
    /// success the source is marked running with its stop request cleared,
    /// and the other source is never touched.
    pub fn on_start_request(
        &mut self,
        source: AudioSource,
        preflight: Result<(), AudioError>,
    ) -> (r: Result<(), String>)
        ensures
            old(self).running(source) ==> {
                &&& *final(self) == *old(self)
                &&& r matches Err(m) && m@ == already_running_message(source)
            },
            !old(self).running(source) && preflight is Err ==> {
                &&& *final(self) == *old(self)
                &&& r matches Err(m) && m@ == error_message_spec(preflight->Err_0)
            },
            !old(self).running(source) && (preflight matches Ok(())) ==> {
                &&& r matches Ok(())
                &&& final(self).running(source)
                &&& !final(self).stop_requested(source)
                &&& final(self).phase_spec(source) == CapturePhase::Running
                &&& forall|other: AudioSource| other != source ==> {
                    &&& final(self).running(other) == old(self).running(other)
                    &&& final(self).stop_requested(other) == old(self).stop_requested(other)
                }
            },
            r is Ok <==> (!old(self).running(source) && preflight is Ok),
    {
        if self.is_running(source) {
            let m = match source {
                AudioSource::Mic => String::from_str("Microphone capture is already running"),
                AudioSource::Speaker => String::from_str("Speaker capture is already running"),
            };
            return Err(m);
        }
        match preflight {
            Err(e) => Err(e.message()),
            Ok(()) => {
                match source {
                    AudioSource::Mic => {
                        self.mic_running = true;
                        self.mic_stop_signal = false;
                    },
                    AudioSource::Speaker => {
                        self.speaker_running = true;
                        self.speaker_stop_signal = false;
                    },
                }
                Ok(())
            },
        }
    }

    /// Handle a stop request for one source.
    ///
    /// A source that is not running is rejected with the "not running"
    /// reason and no state changes at all. Otherwise the stop request is
    /// recorded for the owning thread to observe within one polling
    /// interval; the running flag itself is only cleared by that thread.
    pub fn on_stop_request(&mut self, source: AudioSource) -> (r: Result<(), String>)
        ensures
            !old(self).running(source) ==> {
                &&& *final(self) == *old(self)
                &&& r matches Err(m) && m@ == not_running_message(source)
            },
            old(self).running(source) ==> {
                &&& r matches Ok(())
                &&& final(self).stop_requested(source)
                &&& final(self).running(source) == old(self).running(source)
                &&& final(self).phase_spec(source) == CapturePhase::StopRequested
                &&& forall|other: AudioSource| other != source ==> {
                    &&& final(self).running(other) == old(self).running(other)
                    &&& final(self).stop_requested(other) == old(self).stop_requested(other)
                }
            },
            r is Ok <==> old(self).running(source),
    {
        if !self.is_running(source) {
            let m = match source {
                AudioSource::Mic => String::from_str("Microphone capture is not running"),
                AudioSource::Speaker => String::from_str("Speaker capture is not running"),
            };
            return Err(m);
        }
        match source {
            AudioSource::Mic => self.mic_stop_signal = true,
            AudioSource::Speaker => self.speaker_stop_signal = true,
        }
        Ok(())
    }

    /// The owning thread's per-interval check: keep polling until a stop
    /// has been requested.
    pub fn should_continue(&self, source: AudioSource) -> (r: bool)
        ensures
            r == !self.stop_requested(source),
    {
        match source {
            AudioSource::Mic => !self.mic_stop_signal,
            AudioSource::Speaker => !self.speaker_stop_signal,
        }
    }

    /// The owning thread's exit step: it has dropped its stream and the
    /// source is idle again, whatever caused the exit.
    pub fn on_thread_exit(&mut self, source: AudioSource)
        ensures
            !final(self).running(source),
            final(self).phase_spec(source) == CapturePhase::Idle,
            final(self).stop_requested(source) == old(self).stop_requested(source),
            forall|other: AudioSource| other != source ==> {
                &&& final(self).running(other) == old(self).running(other)
                &&& final(self).stop_requested(other) == old(self).stop_requested(other)
            },
    {
        match source {
            AudioSource::Mic => self.mic_running = false,
            AudioSource::Speaker => self.speaker_running = false,
        }
    }
}

} // verus!
