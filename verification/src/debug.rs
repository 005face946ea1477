//! Debug-mode state: configuration, per-source counters, metrics snapshots,
//! log entries, and the bookkeeping half of the debug audio recorder.
//!
//! The shell around the library guards this state with its own locking and
//! performs the actual file writing; everything here works on plain values.

use vstd::prelude::*;
use vstd::string::StrSliceExecFns;
use vstd::string::StringExecFns;
use crate::lifecycle::AudioSource;

verus! {

/// Severity of a debug log entry.
#[derive(Debug, Clone, Copy, PartialEq, Eq, Structural)]
pub enum LogLevel {
    Debug,
    Info,
    Warn,
    Error,
}

impl LogLevel {
    pub fn as_str(&self) -> (r: &'static str)
        ensures
            *self == LogLevel::Debug ==> r@ == "debug"@,
            *self == LogLevel::Info ==> r@ == "info"@,
            *self == LogLevel::Warn ==> r@ == "warn"@,
            *self == LogLevel::Error ==> r@ == "error"@,
    {
        match self {
            LogLevel::Debug => "debug",
            LogLevel::Info => "info",
            LogLevel::Warn => "warn",
            LogLevel::Error => "error",
        }
    }
}

/// Relies on directories' `ProjectDirs::from`: the platform-specific local
/// data directory for the given application identifier, if the platform
/// yields a home directory; which path comes back depends on the
/// environment, so nothing is promised of it.
#[verifier::external_body]
fn project_data_local_dir(qualifier: &str, organization: &str, application: &str) -> (r: Option<
    String,
>) {
    directories::ProjectDirs::from(qualifier, organization, application)
        .map(|dirs| dirs.data_local_dir().to_string_lossy().into_owned())
}

/// Relies on chrono's `Utc::now`: the current time as Unix seconds. The
/// result depends on the clock, so nothing is promised of it.
#[verifier::external_body]
fn now_unix() -> (r: i64) {
    chrono::Utc::now().timestamp()
}

/// Relies on chrono's `Utc::now` and `format`: the current UTC time rendered
/// with chrono's own `%Y%m%d_%H%M%S%.3f` pattern, for unique file names. The
/// result depends on the clock, so nothing is promised of it.
#[verifier::external_body]
fn timestamp_for_filename() -> (r: String) {
    chrono::Utc::now().format("%Y%m%d_%H%M%S%.3f").to_string()
}

/// Where debug recordings go when the platform yields no data directory.
pub open spec fn fallback_output_dir() -> Seq<char> {
    "./debug_audio"@
}

/// The debug recording directory under a platform data directory, or the
/// fallback when there is none.
pub fn default_output_dir(base: Option<String>) -> (r: String)
    ensures
        match base {
            Some(b) => r@ == b@ + "/debug_audio"@,
            None => r@ == fallback_output_dir(),
        },
{
    match base {
        Some(b) => b.concat("/debug_audio"),
        None => String::from_str("./debug_audio"),
    }
}

/// Debug mode configuration.
#[derive(Debug)]
pub struct DebugConfig {
    pub enabled: bool,
    pub save_audio_files: bool,
    pub log_audio_buffers: bool,
    pub log_performance: bool,
    pub audio_output_dir: String,
}

impl Default for DebugConfig {
    /// Debug mode starts disabled; when enabled, recordings and logging
    /// default to on, under the platform's data directory.
    fn default() -> (r: DebugConfig)
        ensures
            !r.enabled,
            r.save_audio_files,
            r.log_audio_buffers,
            r.log_performance,
    {
        let base = project_data_local_dir("com", "heronote", "app");
        DebugConfig {
            enabled: false,
            save_audio_files: true,
            log_audio_buffers: true,
            log_performance: true,
            audio_output_dir: default_output_dir(base),
        }
    }
}

impl DebugConfig {
    /// An identical copy of this configuration.
    pub fn snapshot(&self) -> (r: DebugConfig)
        ensures
            r == *self,
    {
        DebugConfig {
            enabled: self.enabled,
            save_audio_files: self.save_audio_files,
            log_audio_buffers: self.log_audio_buffers,
            log_performance: self.log_performance,
            audio_output_dir: self.audio_output_dir.clone(),
        }
    }
}

/// Metrics for a single audio source, over plain counters.
#[derive(Debug)]
pub struct SourceMetrics {
    pub sample_rate: u32,
    pub samples_processed: u64,
    pub samples_dropped: u64,
    pub device_name: Option<String>,
    pub capturing: bool,
}

/// A source-metrics value with everything at its idle state.
pub open spec fn source_metrics_empty(m: SourceMetrics) -> bool {
    &&& m.sample_rate == 0
    &&& m.samples_processed == 0
    &&& m.samples_dropped == 0
    &&& m.device_name is None
    &&& !m.capturing
}

impl Default for SourceMetrics {
    fn default() -> (r: SourceMetrics)
        ensures
            source_metrics_empty(r),
    {
        SourceMetrics {
            sample_rate: 0,
            samples_processed: 0,
            samples_dropped: 0,
            device_name: None,
            capturing: false,
        }
    }
}

fn clone_opt_string(o: &Option<String>) -> (r: Option<String>)
    ensures
        r == *o,
{
    match o {
        Some(s) => Some(s.clone()),
        None => None,
    }
}

impl SourceMetrics {
    /// An identical copy of this source's metrics.
    pub fn snapshot(&self) -> (r: SourceMetrics)
        ensures
            r == *self,
    {
        SourceMetrics {
            sample_rate: self.sample_rate,
            samples_processed: self.samples_processed,
            samples_dropped: self.samples_dropped,
            device_name: clone_opt_string(&self.device_name),
            capturing: self.capturing,
        }
    }
}

/// Metrics for both sources, with the time they were last updated.
#[derive(Debug)]
pub struct AudioMetrics {
    pub mic: SourceMetrics,
    pub speaker: SourceMetrics,
    pub last_update_unix: i64,
}

impl Default for AudioMetrics {
    /// Fresh metrics: both sources idle, stamped with the current time.
    fn default() -> (r: AudioMetrics)
        ensures
            source_metrics_empty(r.mic),
            source_metrics_empty(r.speaker),
    {
        AudioMetrics {
            mic: SourceMetrics::default(),
            speaker: SourceMetrics::default(),
            last_update_unix: now_unix(),
        }
    }
}

/// The per-source metrics flattened into one record, the shape the
/// frontend consumes.
#[derive(Debug)]
pub struct FlatAudioMetrics {
    pub mic_sample_rate: u32,
    pub speaker_sample_rate: u32,
    pub mic_samples_processed: u64,
    pub speaker_samples_processed: u64,
    pub mic_samples_dropped: u64,
    pub speaker_samples_dropped: u64,
    pub mic_device_name: Option<String>,
    pub speaker_device_name: Option<String>,
    pub mic_capturing: bool,
    pub speaker_capturing: bool,
    pub last_update_unix: i64,
}

impl AudioMetrics {
    /// Flatten the two sources' fields into one record, unchanged.
    pub fn to_flat(&self) -> (r: FlatAudioMetrics)
        ensures
            r.mic_sample_rate == self.mic.sample_rate,
            r.speaker_sample_rate == self.speaker.sample_rate,
            r.mic_samples_processed == self.mic.samples_processed,
            r.speaker_samples_processed == self.speaker.samples_processed,
            r.mic_samples_dropped == self.mic.samples_dropped,
            r.speaker_samples_dropped == self.speaker.samples_dropped,
            r.mic_device_name == self.mic.device_name,
            r.speaker_device_name == self.speaker.device_name,
            r.mic_capturing == self.mic.capturing,
            r.speaker_capturing == self.speaker.capturing,
            r.last_update_unix == self.last_update_unix,
    {
        FlatAudioMetrics {
            mic_sample_rate: self.mic.sample_rate,
            speaker_sample_rate: self.speaker.sample_rate,
            mic_samples_processed: self.mic.samples_processed,
            speaker_samples_processed: self.speaker.samples_processed,
            mic_samples_dropped: self.mic.samples_dropped,
            speaker_samples_dropped: self.speaker.samples_dropped,
            mic_device_name: clone_opt_string(&self.mic.device_name),
            speaker_device_name: clone_opt_string(&self.speaker.device_name),
            mic_capturing: self.mic.capturing,
            speaker_capturing: self.speaker.capturing,
            last_update_unix: self.last_update_unix,
        }
    }
}

/// A debug log entry for frontend display.
#[derive(Debug)]
pub struct DebugLogEntry {
    pub timestamp_unix: i64,
    pub level: LogLevel,
    pub message: String,
}

impl DebugLogEntry {
    /// A new entry stamped with the current time.
    pub fn new(level: LogLevel, message: String) -> (r: DebugLogEntry)
        ensures
            r.level == level,
            r.message == message,
    {
        DebugLogEntry { timestamp_unix: now_unix(), level, message }
    }

    pub fn info(message: String) -> (r: DebugLogEntry)
        ensures
            r.level == LogLevel::Info,
            r.message == message,
    {
        DebugLogEntry::new(LogLevel::Info, message)
    }

    pub fn warn(message: String) -> (r: DebugLogEntry)
        ensures
            r.level == LogLevel::Warn,
            r.message == message,
    {
        DebugLogEntry::new(LogLevel::Warn, message)
    }

    pub fn error(message: String) -> (r: DebugLogEntry)
        ensures
            r.level == LogLevel::Error,
            r.message == message,
    {
        DebugLogEntry::new(LogLevel::Error, message)
    }
}

/// High-frequency counters for one source. Additions wrap at the counter
/// width, the behavior of an atomic fetch-and-add.
#[derive(Debug)]
pub struct SourceCounters {
    samples_processed: u64,
    samples_dropped: u64,
}

impl Default for SourceCounters {
    fn default() -> (r: SourceCounters)
        ensures
            r.samples() == 0,
            r.dropped() == 0,
    {
        SourceCounters { samples_processed: 0, samples_dropped: 0 }
    }
}

impl SourceCounters {
    pub closed spec fn samples(self) -> u64 {
        self.samples_processed
    }

    pub closed spec fn dropped(self) -> u64 {
        self.samples_dropped
    }

    pub fn add_samples(&mut self, count: u64)
        ensures
            final(self).samples() == (old(self).samples() + count) % 0x1_0000_0000_0000_0000,
            final(self).dropped() == old(self).dropped(),
    {
        self.samples_processed = self.samples_processed.wrapping_add(count);
    }

    pub fn add_dropped(&mut self, count: u64)
        ensures
            final(self).dropped() == (old(self).dropped() + count) % 0x1_0000_0000_0000_0000,
            final(self).samples() == old(self).samples(),
    {
        self.samples_dropped = self.samples_dropped.wrapping_add(count);
    }

    pub fn get_samples(&self) -> (r: u64)
        ensures
            r == self.samples(),
    {
        self.samples_processed
    }

    pub fn get_dropped(&self) -> (r: u64)
        ensures
            r == self.dropped(),
    {
        self.samples_dropped
    }

    pub fn reset(&mut self)
        ensures
            final(self).samples() == 0,
            final(self).dropped() == 0,
    {
        self.samples_processed = 0;
        self.samples_dropped = 0;
    }
}

/// A finished debug recording.
#[derive(Debug)]
pub struct DebugFileRecord {
    pub path: String,
    pub source: AudioSource,
    pub created_at_unix: i64,
    pub sample_rate: u32,
    pub size_bytes: u64,
    pub samples: u64,
}

/// The capture source a debug recording's file name encodes, going by the
/// `mic_` or `speaker_` prefix; names with neither prefix are not debug
/// recordings.
pub open spec fn parsed_source(name: Seq<char>) -> Option<AudioSource> {
    if name.len() >= 4 && name.subrange(0, 4) == "mic_"@ {
        Some(AudioSource::Mic)
    } else if name.len() >= 8 && name.subrange(0, 8) == "speaker_"@ {
        Some(AudioSource::Speaker)
    } else {
        None
    }
}

/// Parse the capture source out of a debug recording's file name.
pub fn source_from_filename(name: &str) -> (r: Option<AudioSource>)
    ensures
        r == parsed_source(name@),
{
    proof {
        reveal_strlit("mic_");
        reveal_strlit("speaker_");
    }
    let n = name.unicode_len();
    if n >= 4 && name.get_char(0) == 'm' && name.get_char(1) == 'i' && name.get_char(2) == 'c'
        && name.get_char(3) == '_' {
        proof {
            assert(name@.subrange(0, 4) =~= "mic_"@);
        }
        Some(AudioSource::Mic)
    } else if n >= 8 && name.get_char(0) == 's' && name.get_char(1) == 'p' && name.get_char(2)
        == 'e' && name.get_char(3) == 'a' && name.get_char(4) == 'k' && name.get_char(5) == 'e'
        && name.get_char(6) == 'r' && name.get_char(7) == '_' {
        proof {
            assert(name@.subrange(0, 8) =~= "speaker_"@);
            if name@.len() >= 4 && name@.subrange(0, 4) == "mic_"@ {
                assert(name@.subrange(0, 4)[0] == 'm');
            }
        }
        Some(AudioSource::Speaker)
    } else {
        proof {
            if name@.len() >= 4 && name@.subrange(0, 4) == "mic_"@ {
                assert(name@.subrange(0, 4)[0] == name@[0]);
                assert(name@.subrange(0, 4)[1] == name@[1]);
                assert(name@.subrange(0, 4)[2] == name@[2]);
                assert(name@.subrange(0, 4)[3] == name@[3]);
            }
            if name@.len() >= 8 && name@.subrange(0, 8) == "speaker_"@ {
                assert(name@.subrange(0, 8)[0] == name@[0]);
                assert(name@.subrange(0, 8)[1] == name@[1]);
                assert(name@.subrange(0, 8)[2] == name@[2]);
                assert(name@.subrange(0, 8)[3] == name@[3]);
                assert(name@.subrange(0, 8)[4] == name@[4]);
                assert(name@.subrange(0, 8)[5] == name@[5]);
                assert(name@.subrange(0, 8)[6] == name@[6]);
                assert(name@.subrange(0, 8)[7] == name@[7]);
            }
        }
        None
    }
}

/// The file name a debug recording gets: source, separator, timestamp,
/// `.wav` extension.
pub open spec fn wav_filename_spec(source: AudioSource, timestamp: Seq<char>) -> Seq<char> {
    (match source {
        AudioSource::Mic => "mic"@,
        AudioSource::Speaker => "speaker"@,
    }) + "_"@ + timestamp + ".wav"@
}

/// Build a debug recording's file name from its source and a timestamp.
pub fn wav_filename(source: AudioSource, timestamp: &str) -> (r: String)
    ensures
        r@ == wav_filename_spec(source, timestamp@),
{
    String::from_str(source.as_str()).concat("_").concat(timestamp).concat(".wav")
}

/// The names the recorder writes are the names the lister recognizes:
/// parsing the source back out of a generated file name yields the source
/// it was generated for, whatever the timestamp.
pub proof fn lemma_wav_filename_source_round_trip(source: AudioSource, timestamp: Seq<char>)
    ensures
        parsed_source(wav_filename_spec(source, timestamp)) == Some(source),
{
    reveal_strlit("mic");
    reveal_strlit("mic_");
    reveal_strlit("speaker");
    reveal_strlit("speaker_");
    reveal_strlit("_");
    reveal_strlit(".wav");
    let name = wav_filename_spec(source, timestamp);
    match source {
        AudioSource::Mic => {
            assert(name.subrange(0, 4) =~= "mic_"@);
        },
        AudioSource::Speaker => {
            assert(name.subrange(0, 8) =~= "speaker_"@);
            assert(name.subrange(0, 4)[0] == 's');
            assert("mic_"@[0] == 'm');
        },
    }
}

/// Whether `s` is sorted newest first by creation time.
pub open spec fn sorted_newest_first(s: Seq<DebugFileRecord>) -> bool {
    forall|i: int, j: int|
        0 <= i < j < s.len() ==> s[i].created_at_unix >= s[j].created_at_unix
}

/// Sort debug recordings newest first, keeping exactly the same records.
pub fn sort_files_newest_first(files: &mut Vec<DebugFileRecord>)
    ensures
        sorted_newest_first(final(files)@),
        final(files)@.to_multiset() == old(files)@.to_multiset(),
{
    broadcast use vstd::seq_lib::group_to_multiset_ensures;

    let mut out: Vec<DebugFileRecord> = Vec::new();
    proof {
        assert(out@.to_multiset().add(files@.to_multiset()) =~= old(files)@.to_multiset());
    }
    while files.len() > 0
        invariant
            sorted_newest_first(out@),
            forall|i: int, j: int|
                0 <= i < out@.len() && 0 <= j < files@.len()
                    ==> out@[i].created_at_unix >= files@[j].created_at_unix,
            out@.to_multiset().add(files@.to_multiset()) == old(files)@.to_multiset(),
        decreases files@.len(),
    {
        let mut best: usize = 0;
        let mut k: usize = 1;
        while k < files.len()
            invariant
                best < k <= files@.len() || (k <= files@.len() && best == 0),
                best < files@.len(),
                0 < files@.len(),
                forall|j: int| 0 <= j < k ==> files@[best as int].created_at_unix
                    >= files@[j].created_at_unix,
            decreases files@.len() - k,
        {
            if files[k].created_at_unix > files[best].created_at_unix {
                best = k;
            }
            k = k + 1;
        }
        let ghost files_before = files@;
        let ghost out_before = out@;
        let rec = files.remove(best);
        out.push(rec);
        proof {
            assert(files_before[best as int] == rec);
            assert(files@ == files_before.remove(best as int));
            vstd::seq_lib::to_multiset_remove::<DebugFileRecord>(files_before, best as int);
            assert(out@ == out_before.push(rec));
            vstd::seq_lib::to_multiset_build::<DebugFileRecord>(out_before, rec);
            vstd::seq_lib::to_multiset_contains::<DebugFileRecord>(files_before, rec);
            assert(files_before.contains(rec)) by {
                assert(files_before[best as int] == rec);
            }
            assert(files_before.to_multiset().count(rec) > 0);
            assert(out@.to_multiset().add(files@.to_multiset())
                =~= out_before.to_multiset().add(files_before.to_multiset()));
            assert forall|j: int| 0 <= j < files@.len() implies rec.created_at_unix
                >= files@[j].created_at_unix by {
                if j < best {
                    assert(files@[j] == files_before[j]);
                } else {
                    assert(files@[j] == files_before[j + 1]);
                }
            }
        }
    }
    *files = out;
}

/// All of the debug state: configuration, a metrics snapshot, the finished
/// recordings, and the per-source high-frequency counters.
#[derive(Debug)]
pub struct DebugState {
    pub config: DebugConfig,
    pub metrics: AudioMetrics,
    pub files: Vec<DebugFileRecord>,
    pub mic_counters: SourceCounters,
    pub speaker_counters: SourceCounters,
}

impl Default for DebugState {
    fn default() -> (r: DebugState)
        ensures
            !r.config.enabled,
            r.files@.len() == 0,
            r.mic_counters.samples() == 0,
            r.mic_counters.dropped() == 0,
            r.speaker_counters.samples() == 0,
            r.speaker_counters.dropped() == 0,
    {
        DebugState {
            config: DebugConfig::default(),
            metrics: AudioMetrics::default(),
            files: Vec::new(),
            mic_counters: SourceCounters::default(),
            speaker_counters: SourceCounters::default(),
        }
    }
}

impl DebugState {
    /// Whether debug mode is on.
    pub fn is_enabled(&self) -> (r: bool)
        ensures
            r == self.config.enabled,
    {
        self.config.enabled
    }

    /// Turn debug mode on or off; the rest of the configuration keeps.
    pub fn set_enabled(&mut self, enabled: bool)
        ensures
            final(self).config.enabled == enabled,
            final(self).config.save_audio_files == old(self).config.save_audio_files,
            final(self).config.log_audio_buffers == old(self).config.log_audio_buffers,
            final(self).config.log_performance == old(self).config.log_performance,
            final(self).config.audio_output_dir == old(self).config.audio_output_dir,
            final(self).metrics == old(self).metrics,
            final(self).files == old(self).files,
            final(self).mic_counters == old(self).mic_counters,
            final(self).speaker_counters == old(self).speaker_counters,
    {
        self.config.enabled = enabled;
    }

    /// A copy of the current configuration.
    pub fn config(&self) -> (r: DebugConfig)
        ensures
            r == self.config,
    {
        self.config.snapshot()
    }

    /// Replace the configuration.
    pub fn update_config(&mut self, config: DebugConfig)
        ensures
            final(self).config == config,
            final(self).metrics == old(self).metrics,
            final(self).files == old(self).files,
            final(self).mic_counters == old(self).mic_counters,
            final(self).speaker_counters == old(self).speaker_counters,
    {
        self.config = config;
    }

    /// A metrics snapshot with the high-frequency counters folded in.
    pub fn metrics(&self) -> (r: AudioMetrics)
        ensures
            r.mic.sample_rate == self.metrics.mic.sample_rate,
            r.mic.samples_processed == self.mic_counters.samples(),
            r.mic.samples_dropped == self.mic_counters.dropped(),
            r.mic.device_name == self.metrics.mic.device_name,
            r.mic.capturing == self.metrics.mic.capturing,
            r.speaker.sample_rate == self.metrics.speaker.sample_rate,
            r.speaker.samples_processed == self.speaker_counters.samples(),
            r.speaker.samples_dropped == self.speaker_counters.dropped(),
            r.speaker.device_name == self.metrics.speaker.device_name,
            r.speaker.capturing == self.metrics.speaker.capturing,
            r.last_update_unix == self.metrics.last_update_unix,
    {
        let mut m = AudioMetrics {
            mic: self.metrics.mic.snapshot(),
            speaker: self.metrics.speaker.snapshot(),
            last_update_unix: self.metrics.last_update_unix,
        };
        m.mic.samples_processed = self.mic_counters.get_samples();
        m.mic.samples_dropped = self.mic_counters.get_dropped();
        m.speaker.samples_processed = self.speaker_counters.get_samples();
        m.speaker.samples_dropped = self.speaker_counters.get_dropped();
        m
    }

    /// The metrics snapshot in the flattened frontend shape.
    pub fn flat_metrics(&self) -> (r: FlatAudioMetrics)
        ensures
            r.mic_sample_rate == self.metrics.mic.sample_rate,
            r.mic_samples_processed == self.mic_counters.samples(),
            r.mic_samples_dropped == self.mic_counters.dropped(),
            r.mic_device_name == self.metrics.mic.device_name,
            r.mic_capturing == self.metrics.mic.capturing,
            r.speaker_sample_rate == self.metrics.speaker.sample_rate,
            r.speaker_samples_processed == self.speaker_counters.samples(),
            r.speaker_samples_dropped == self.speaker_counters.dropped(),
            r.speaker_device_name == self.metrics.speaker.device_name,
            r.speaker_capturing == self.metrics.speaker.capturing,
            r.last_update_unix == self.metrics.last_update_unix,
    {
        self.metrics().to_flat()
    }

    /// Record whether each source is capturing right now, stamping the
    /// update time.
    pub fn update_capturing(&mut self, mic_capturing: bool, speaker_capturing: bool)
        ensures
            final(self).metrics.mic.capturing == mic_capturing,
            final(self).metrics.speaker.capturing == speaker_capturing,
            final(self).metrics.mic.sample_rate == old(self).metrics.mic.sample_rate,
            final(self).metrics.mic.samples_processed
                == old(self).metrics.mic.samples_processed,
            final(self).metrics.mic.samples_dropped == old(self).metrics.mic.samples_dropped,
            final(self).metrics.mic.device_name == old(self).metrics.mic.device_name,
            final(self).metrics.speaker.sample_rate == old(self).metrics.speaker.sample_rate,
            final(self).metrics.speaker.samples_processed
                == old(self).metrics.speaker.samples_processed,
            final(self).metrics.speaker.samples_dropped
                == old(self).metrics.speaker.samples_dropped,
            final(self).metrics.speaker.device_name == old(self).metrics.speaker.device_name,
            final(self).config == old(self).config,
            final(self).files == old(self).files,
            final(self).mic_counters == old(self).mic_counters,
            final(self).speaker_counters == old(self).speaker_counters,
    {
        self.metrics.mic.capturing = mic_capturing;
        self.metrics.speaker.capturing = speaker_capturing;
        self.metrics.last_update_unix = now_unix();
    }

    /// Count samples handed to a source's sink.
    pub fn add_samples(&mut self, source: AudioSource, count: u64)
        ensures
            source == AudioSource::Mic ==> {
                &&& final(self).mic_counters.samples()
                    == (old(self).mic_counters.samples() + count) % 0x1_0000_0000_0000_0000
                &&& final(self).mic_counters.dropped() == old(self).mic_counters.dropped()
                &&& final(self).speaker_counters == old(self).speaker_counters
            },
            source == AudioSource::Speaker ==> {
                &&& final(self).speaker_counters.samples()
                    == (old(self).speaker_counters.samples() + count) % 0x1_0000_0000_0000_0000
                &&& final(self).speaker_counters.dropped()
                    == old(self).speaker_counters.dropped()
                &&& final(self).mic_counters == old(self).mic_counters
            },
            final(self).config == old(self).config,
            final(self).metrics == old(self).metrics,
            final(self).files == old(self).files,
    {
        match source {
            AudioSource::Mic => self.mic_counters.add_samples(count),
            AudioSource::Speaker => self.speaker_counters.add_samples(count),
        }
    }

    /// Count samples dropped at a source's ring boundary.
    pub fn add_dropped(&mut self, source: AudioSource, count: u64)
        ensures
            source == AudioSource::Mic ==> {
                &&& final(self).mic_counters.dropped()
                    == (old(self).mic_counters.dropped() + count) % 0x1_0000_0000_0000_0000
                &&& final(self).mic_counters.samples() == old(self).mic_counters.samples()
                &&& final(self).speaker_counters == old(self).speaker_counters
            },
            source == AudioSource::Speaker ==> {
                &&& final(self).speaker_counters.dropped()
                    == (old(self).speaker_counters.dropped() + count) % 0x1_0000_0000_0000_0000
                &&& final(self).speaker_counters.samples()
                    == old(self).speaker_counters.samples()
                &&& final(self).mic_counters == old(self).mic_counters
            },
            final(self).config == old(self).config,
            final(self).metrics == old(self).metrics,
            final(self).files == old(self).files,
    {
        match source {
            AudioSource::Mic => self.mic_counters.add_dropped(count),
            AudioSource::Speaker => self.speaker_counters.add_dropped(count),
        }
    }

    /// Zero both sources' counters.
    pub fn reset_counters(&mut self)
        ensures
            final(self).mic_counters.samples() == 0,
            final(self).mic_counters.dropped() == 0,
            final(self).speaker_counters.samples() == 0,
            final(self).speaker_counters.dropped() == 0,
            final(self).config == old(self).config,
            final(self).metrics == old(self).metrics,
            final(self).files == old(self).files,
    {
        self.mic_counters.reset();
        self.speaker_counters.reset();
    }

    /// Register a finished recording.
    pub fn register_file(&mut self, file: DebugFileRecord)
        ensures
            final(self).files@ == old(self).files@.push(file),
            final(self).config == old(self).config,
            final(self).metrics == old(self).metrics,
            final(self).mic_counters == old(self).mic_counters,
            final(self).speaker_counters == old(self).speaker_counters,
    {
        self.files.push(file);
    }

    /// The finished recordings, in registration order.
    pub fn list_files(&self) -> (r: &Vec<DebugFileRecord>)
        ensures
            r@ == self.files@,
    {
        &self.files
    }
}

/// The bookkeeping half of the debug audio recorder.
///
/// When debug recording is off this is a null object: every operation is a
/// no-op. The shell owns the actual WAV encoder and keeps it paired with
/// this record, which tracks what was written and builds the finished
/// recording's description.
#[derive(Debug)]
pub struct DebugAudioWriter {
    pub active: bool,
    pub path: String,
    pub source: AudioSource,
    pub sample_rate: u32,
    pub samples_written: u64,
}

impl DebugAudioWriter {
    /// A writer that does nothing.
    pub fn null(source: AudioSource, sample_rate: u32) -> (r: DebugAudioWriter)
        ensures
            !r.active,
            r.source == source,
            r.sample_rate == sample_rate,
            r.samples_written == 0,
            r.path@ == Seq::<char>::empty(),
    {
        DebugAudioWriter {
            active: false,
            path: String::new(),
            source,
            sample_rate,
            samples_written: 0,
        }
    }

    /// A writer for one recording at the given path.
    pub fn with_path(path: String, source: AudioSource, sample_rate: u32) -> (r: DebugAudioWriter)
        ensures
            r.active,
            r.source == source,
            r.sample_rate == sample_rate,
            r.samples_written == 0,
            r.path == path,
    {
        DebugAudioWriter { active: true, path, source, sample_rate, samples_written: 0 }
    }

    /// Decide the recording's file path from the configured directory, a
    /// timestamp, and the source.
    pub fn generate_file_path(output_dir: &str, source: AudioSource, timestamp: &str) -> (r:
        String)
        ensures
            r@ == output_dir@ + "/"@ + wav_filename_spec(source, timestamp@),
    {
        let name = wav_filename(source, timestamp);
        String::from_str(output_dir).concat("/").concat(name.as_str())
    }

    /// A writer for the given source under the given configuration: active
    /// exactly when debug mode and recording are both on, in which case it
    /// records under the configured directory with a timestamped name.
    pub fn new(config: &DebugConfig, source: AudioSource, sample_rate: u32) -> (r:
        DebugAudioWriter)
        ensures
            r.active == (config.enabled && config.save_audio_files),
            r.source == source,
            r.sample_rate == sample_rate,
            r.samples_written == 0,
    {
        if !config.enabled || !config.save_audio_files {
            return DebugAudioWriter::null(source, sample_rate);
        }
        let timestamp = timestamp_for_filename();
        let path = DebugAudioWriter::generate_file_path(
            config.audio_output_dir.as_str(),
            source,
            timestamp.as_str(),
        );
        DebugAudioWriter::with_path(path, source, sample_rate)
    }

    /// Count samples the shell has written to the WAV file; the count
    /// clamps at its width. A null writer counts nothing.
    pub fn note_written(&mut self, count: u64)
        ensures
            final(self).samples_written == if old(self).active {
                if old(self).samples_written + count <= u64::MAX {
                    (old(self).samples_written + count) as u64
                } else {
                    u64::MAX
                }
            } else {
                old(self).samples_written
            },
            final(self).active == old(self).active,
            final(self).path == old(self).path,
            final(self).source == old(self).source,
            final(self).sample_rate == old(self).sample_rate,
    {
        if self.active {
            self.samples_written = self.samples_written.saturating_add(count);
        }
    }

    /// Whether this writer is actually recording.
    pub fn is_active(&self) -> (r: bool)
        ensures
            r == self.active,
    {
        self.active
    }

    /// How many samples have been written so far.
    pub fn samples_written(&self) -> (r: u64)
        ensures
            r == self.samples_written,
    {
        self.samples_written
    }

    /// Describe the finished recording, given what only the file system
    /// knows: when it was created and how large it ended up.
    pub fn create_file_info(&self, created_at_unix: i64, size_bytes: u64) -> (r: DebugFileRecord)
        ensures
            r.path == self.path,
            r.source == self.source,
            r.created_at_unix == created_at_unix,
            r.sample_rate == self.sample_rate,
            r.size_bytes == size_bytes,
            r.samples == self.samples_written,
    {
        DebugFileRecord {
            path: self.path.clone(),
            source: self.source,
            created_at_unix,
            sample_rate: self.sample_rate,
            size_bytes,
            samples: self.samples_written,
        }
    }

    /// Finish the recording: a null writer yields nothing; an active one
    /// yields its description and registers it with the debug state.
    pub fn finalize(self, state: &mut DebugState, created_at_unix: i64, size_bytes: u64) -> (r:
        Option<DebugFileRecord>)
        ensures
            !self.active ==> {
                &&& r is None
                &&& *final(state) == *old(state)
            },
            self.active ==> {
                &&& r matches Some(f)
                &&& f.path == self.path
                &&& f.source == self.source
                &&& f.created_at_unix == created_at_unix
                &&& f.sample_rate == self.sample_rate
                &&& f.size_bytes == size_bytes
                &&& f.samples == self.samples_written
                &&& final(state).files@ == old(state).files@.push(f)
                &&& final(state).config == old(state).config
                &&& final(state).metrics == old(state).metrics
                &&& final(state).mic_counters == old(state).mic_counters
                &&& final(state).speaker_counters == old(state).speaker_counters
            },
    {
        if !self.active {
            return None;
        }
        let info = self.create_file_info(created_at_unix, size_bytes);
        let copy = DebugFileRecord {
            path: info.path.clone(),
            source: info.source,
            created_at_unix: info.created_at_unix,
            sample_rate: info.sample_rate,
            size_bytes: info.size_bytes,
            samples: info.samples,
        };
        state.register_file(copy);
        Some(info)
    }
}

} // verus!
