//! Stream configurations as a capture device reports them and as they are
//! chosen, and the errors of the capture bridge.
use vstd::prelude::*;

verus! {

/// Numeric encoding of one PCM sample.
#[derive(Clone, Copy, Debug, PartialEq, Eq, Structural)]
pub enum SampleFormat {
    Int8,
    Int16,
    Int24,
    Int32,
    Int64,
    UInt8,
    UInt16,
    UInt24,
    UInt32,
    UInt64,
    Float32,
    Float64,
    /// Any encoding not listed above.
    Other,
}

/// How a device constrains the buffer size, in frames.
#[derive(Clone, Copy, Debug, PartialEq, Eq, Structural)]
pub enum BufferSizePolicy {
    /// The device uses exactly this size.
    Fixed(u32),
    /// Any size within `[min, max]`.
    Range { min: u32, max: u32 },
    /// The device reports no constraint.
    Unknown,
}

/// One stream configuration a device reports as supported.
#[derive(Clone, Copy, Debug, PartialEq, Eq, Structural)]
pub struct CandidateConfig {
    pub format: SampleFormat,
    pub channels: u16,
    pub min_sample_rate: u32,
    pub max_sample_rate: u32,
    pub buffer_size: BufferSizePolicy,
}

impl CandidateConfig {
    /// A candidate whose ranges are not empty and that has at least one channel.
    pub open spec fn wf(self) -> bool {
        &&& self.channels > 0
        &&& self.min_sample_rate <= self.max_sample_rate
        &&& match self.buffer_size {
            BufferSizePolicy::Range { min, max } => min <= max,
            _ => true,
        }
    }
}

/// The single stream format chosen for capture.
#[derive(Clone, Copy, Debug, PartialEq, Eq, Structural)]
pub struct NegotiatedConfig {
    pub channels: u16,
    pub sample_rate: u32,
    /// Requested buffer size, in frames.
    pub buffer_size: u32,
}

/// What a recognizer is created with; both values follow the negotiated
/// stream.
#[derive(Clone, Copy, Debug, PartialEq, Eq, Structural)]
pub struct RecognizerSettings {
    pub sample_rate: u32,
    pub channels: u16,
}

/// Settings for a recognizer that consumes a stream of configuration `config`.
pub fn recognizer_settings(config: &NegotiatedConfig) -> (r: RecognizerSettings)
    ensures
        r.sample_rate == config.sample_rate,
        r.channels == config.channels,
{
    RecognizerSettings { sample_rate: config.sample_rate, channels: config.channels }
}

/// Failures of the capture bridge.
#[derive(Clone, Copy, Debug, PartialEq, Eq, Structural)]
pub enum AudioError {
    DeviceNotFound,
    NoSupportedConfig,
    RecognizerCreationFailed,
    RecognizerStartFailed,
    StreamBuildFailed,
    WriteFailed,
    AlreadyRunning,
}

impl AudioError {
    /// A short English description of the error.
    pub fn message(&self) -> (r: String) {
        match self {
            AudioError::DeviceNotFound => "cannot find an audio input device".to_string(),
            AudioError::NoSupportedConfig => "no supported audio input format".to_string(),
            AudioError::RecognizerCreationFailed => "cannot create the recognizer".to_string(),
            AudioError::RecognizerStartFailed => "cannot start the recognizer".to_string(),
            AudioError::StreamBuildFailed => "cannot build the audio stream".to_string(),
            AudioError::WriteFailed => "cannot write audio to the recognizer".to_string(),
            AudioError::AlreadyRunning => "capture is already running".to_string(),
        }
    }
}

} // verus!
