use vstd::prelude::*;
use vstd::string::StringExecFns;
use crate::decimal::{decimal_digits, decimal_string};
use crate::error::SstvError;

verus! {

/// Lowest sample rate the audio generator accepts, in Hz.
pub const MIN_SAMPLE_RATE: u32 = 8000;

/// Highest sample rate the audio generator accepts, in Hz.
pub const MAX_SAMPLE_RATE: u32 = 192000;

/// Validated audio generation parameters: a sample rate and a bit depth.
pub struct AudioGenerator {
    sample_rate: u32,
    bit_depth: u16,
}

impl AudioGenerator {
    /// The generator's sample rate, in Hz.
    pub closed spec fn spec_sample_rate(self) -> u32 {
        self.sample_rate
    }

    /// The generator's bit depth.
    pub closed spec fn spec_bit_depth(self) -> u16 {
        self.bit_depth
    }

    /// Whether the pair of parameters is accepted: a sample rate between
    /// 8000 and 192000 Hz and a bit depth of 16, 24 or 32.
    pub open spec fn params_valid(sample_rate: u32, bit_depth: u16) -> bool {
        &&& MIN_SAMPLE_RATE <= sample_rate <= MAX_SAMPLE_RATE
        &&& (bit_depth == 16 || bit_depth == 24 || bit_depth == 32)
    }

    /// Validates the parameters and builds a generator, or reports exactly
    /// which parameter is out of range.
    pub fn new(sample_rate: u32, bit_depth: u16) -> (r: Result<Self, SstvError>)
        ensures
            r is Ok <==> Self::params_valid(sample_rate, bit_depth),
            r matches Ok(g) ==> g.spec_sample_rate() == sample_rate && g.spec_bit_depth()
                == bit_depth,
            !(MIN_SAMPLE_RATE <= sample_rate <= MAX_SAMPLE_RATE) ==> r == Err::<
                Self,
                SstvError,
            >(
                SstvError::InvalidSampleRate {
                    sample_rate,
                    min_rate: MIN_SAMPLE_RATE,
                    max_rate: MAX_SAMPLE_RATE,
                },
            ),
            (MIN_SAMPLE_RATE <= sample_rate <= MAX_SAMPLE_RATE && !(bit_depth == 16 || bit_depth
                == 24 || bit_depth == 32)) ==> (r matches Err(e)
                && e matches SstvError::InvalidAudioParameter { parameter, value }
                && parameter@ == "bit_depth"@ && value@ == decimal_digits(bit_depth as nat)),
    {
        if sample_rate < MIN_SAMPLE_RATE || sample_rate > MAX_SAMPLE_RATE {
            return Err(
                SstvError::invalid_sample_rate(sample_rate, MIN_SAMPLE_RATE, MAX_SAMPLE_RATE),
            );
        }
        if bit_depth != 16 && bit_depth != 24 && bit_depth != 32 {
            return Err(
                SstvError::InvalidAudioParameter {
                    parameter: bit_depth_parameter_name(),
                    value: decimal_string(bit_depth as u64),
                },
            );
        }
        Ok(Self { sample_rate, bit_depth })
    }

    /// The sample rate this generator was built with.
    pub fn sample_rate(&self) -> (r: u32)
        ensures
            r == self.spec_sample_rate(),
    {
        self.sample_rate
    }

    /// The bit depth this generator was built with.
    pub fn bit_depth(&self) -> (r: u16)
        ensures
            r == self.spec_bit_depth(),
    {
        self.bit_depth
    }
}

fn bit_depth_parameter_name() -> (r: String)
    ensures
        r@ == "bit_depth"@,
{
    String::from_str("bit_depth")
}

/// Collects the signed 16-bit samples of one modulation run, in emission
/// order.
pub struct AudioProcessor {
    samples: Vec<i16>,
    sample_rate: u32,
}

impl AudioProcessor {
    /// The collected samples, oldest first.
    pub closed spec fn spec_samples(self) -> Seq<i16> {
        self.samples@
    }

    /// The sample rate the processor was built with, in Hz.
    pub closed spec fn spec_sample_rate(self) -> u32 {
        self.sample_rate
    }

    /// Builds an empty processor for the given sample rate.
    pub fn new(sample_rate: u32) -> (r: Self)
        ensures
            r.spec_samples() == Seq::<i16>::empty(),
            r.spec_sample_rate() == sample_rate,
    {
        let r = Self { samples: Vec::new(), sample_rate };
        proof {
            assert(r.spec_samples() =~= Seq::<i16>::empty());
        }
        r
    }

    /// Appends one sample.
    pub fn add_sample(&mut self, sample: i16)
        ensures
            final(self).spec_samples() == old(self).spec_samples().push(sample),
            final(self).spec_sample_rate() == old(self).spec_sample_rate(),
    {
        self.samples.push(sample);
    }

    /// All collected samples, in emission order.
    pub fn get_samples(&self) -> (r: &[i16])
        ensures
            r@ == self.spec_samples(),
    {
        self.samples.as_slice()
    }

    /// Discards all collected samples.
    pub fn clear(&mut self)
        ensures
            final(self).spec_samples() == Seq::<i16>::empty(),
            final(self).spec_sample_rate() == old(self).spec_sample_rate(),
    {
        self.samples.clear();
        proof {
            assert(self.spec_samples() =~= Seq::<i16>::empty());
        }
    }

    /// The sample rate the processor was built with.
    pub fn sample_rate(&self) -> (r: u32)
        ensures
            r == self.spec_sample_rate(),
    {
        self.sample_rate
    }
}

} // verus!
