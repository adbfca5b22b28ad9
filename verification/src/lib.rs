use vstd::prelude::*;

pub mod audio;
pub mod color;
pub mod decimal;
pub mod error;
pub mod fit;
pub mod image_buf;
pub mod mode;
pub mod modulator;
pub mod scan;
pub mod timing;
pub mod tone;
pub mod vis;

pub use audio::{AudioGenerator, AudioProcessor, MAX_SAMPLE_RATE, MIN_SAMPLE_RATE};
pub use error::SstvError;
pub use image_buf::RgbBuffer;
pub use mode::SstvMode;
pub use modulator::{MemoryUsage, ProcessingMetadata, SstvModulator};

verus! {

/// Library version string.
pub const VERSION: &'static str = "0.1.0";

/// Default sample rate in Hz, chosen low to keep files small while staying
/// above twice the highest SSTV tone frequency (2300 Hz).
pub const DEFAULT_SAMPLE_RATE: u32 = 6000;

/// Size of a WAV file header, in bytes.
pub const WAV_HEADER_BYTES: usize = 44;

/// The number of samples a full transmission of `mode` nominally holds at
/// `sample_rate`: the nominal duration times the rate, rounded down.
pub open spec fn spec_nominal_sample_count(mode: SstvMode, sample_rate: u32) -> int {
    mode.spec_duration_ms() * sample_rate / 1000
}

/// Estimated size in bytes of a WAV file holding a full transmission of
/// `mode` at the given sample rate and bit depth.
pub fn estimate_file_size(mode: SstvMode, sample_rate: u32, bit_depth: u16) -> (r: usize)
    requires
        spec_nominal_sample_count(mode, sample_rate) * (bit_depth as int / 8) + WAV_HEADER_BYTES
            <= usize::MAX,
    ensures
        r == spec_nominal_sample_count(mode, sample_rate) * (bit_depth as int / 8)
            + WAV_HEADER_BYTES,
{
    let duration_ms = mode.get_duration_ms();
    let sample_count = duration_ms * (sample_rate as u64) / 1000;
    let bytes_per_sample = (bit_depth / 8) as u64;
    proof {
        assert(duration_ms * sample_rate <= 269600 * 0xffff_ffffu64);
    }
    (sample_count * bytes_per_sample) as usize + WAV_HEADER_BYTES
}

/// Estimated peak memory in bytes for modulating a `image_width` by
/// `image_height` source image in `mode` at `sample_rate`: source pixels plus
/// target pixels plus audio samples plus a fixed overhead, three bytes per
/// pixel and two bytes per sample.
pub open spec fn spec_memory_estimate(
    image_width: u32,
    image_height: u32,
    mode: SstvMode,
    sample_rate: u32,
) -> int {
    image_width * image_height * 3 + mode.spec_width() * mode.spec_height() * 3
        + mode.spec_duration_ms() * sample_rate * 2 / 1000 + 1024
}

/// Estimates the peak memory usage in bytes of one modulation run.
pub fn estimate_memory_usage(
    image_width: u32,
    image_height: u32,
    mode: SstvMode,
    sample_rate: u32,
) -> (r: usize)
    requires
        image_width * image_height * 3 <= u32::MAX,
        spec_memory_estimate(image_width, image_height, mode, sample_rate) <= usize::MAX,
    ensures
        r == spec_memory_estimate(image_width, image_height, mode, sample_rate),
{
    let (target_width, target_height) = mode.get_dimensions();
    let duration_ms = mode.get_duration_ms();

    let source_image_memory = (image_width * image_height * 3) as usize;
    let target_image_memory = (target_width * target_height * 3) as usize;
    proof {
        assert(duration_ms * sample_rate * 2 <= 269600 * 0xffff_ffffu64 * 2);
    }
    let audio_memory = ((duration_ms * (sample_rate as u64) * 2) / 1000) as usize;

    source_image_memory + target_image_memory + audio_memory + 1024
}

} // verus!
