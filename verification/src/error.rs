use vstd::prelude::*;
use vstd::string::StringExecFns;

verus! {

/// Typed failures reported by the library. Each variant carries enough
/// context (the offending value, the allowed range) for the caller to act on.
#[derive(Debug, Clone)]
pub enum SstvError {
    /// An SSTV mode that the library does not support.
    UnsupportedMode { mode: String },
    /// A sample rate outside the supported range.
    InvalidSampleRate { sample_rate: u32, min_rate: u32, max_rate: u32 },
    /// A failure during modulation itself.
    ModulationError { message: String },
    /// Not enough memory for the requested task.
    MemoryError { required: usize },
    /// A failure while preparing or handling image data.
    ImageProcessing(String),
    /// An invalid audio parameter, by name and offending value.
    InvalidAudioParameter { parameter: String, value: String },
    /// An invalid audio data format.
    InvalidFormat(String),
}

impl SstvError {
    /// Builds the unsupported-mode error.
    pub fn unsupported_mode(mode: &str) -> (r: Self)
        ensures
            r matches SstvError::UnsupportedMode { mode: m } && m@ == mode@,
    {
        SstvError::UnsupportedMode { mode: String::from_str(mode) }
    }

    /// Builds the invalid-sample-rate error.
    pub fn invalid_sample_rate(sample_rate: u32, min_rate: u32, max_rate: u32) -> (r: Self)
        ensures
            r == (SstvError::InvalidSampleRate { sample_rate, min_rate, max_rate }),
    {
        SstvError::InvalidSampleRate { sample_rate, min_rate, max_rate }
    }

    /// Builds the modulation error.
    pub fn modulation_error(message: &str) -> (r: Self)
        ensures
            r matches SstvError::ModulationError { message: m } && m@ == message@,
    {
        SstvError::ModulationError { message: String::from_str(message) }
    }
}

} // verus!
