use vstd::prelude::*;

verus! {

/// The four supported SSTV modes. Each variant carries fixed protocol
/// constants: target dimensions, nominal transmission duration, a 7-bit VIS
/// identifier, and the identity of its scan algorithm.
#[derive(Debug, Clone, Copy, PartialEq, Eq, Structural)]
pub enum SstvMode {
    ScottieDx,
    Robot36,
    Pd120,
    MartinM1,
}

impl SstvMode {
    /// The 7-bit VIS identifier of the mode, as a sequence of '0'/'1'
    /// characters, most significant bit first.
    pub open spec fn spec_vis_code(self) -> Seq<char> {
        match self {
            SstvMode::ScottieDx => seq!['1', '0', '0', '1', '1', '0', '0'],
            SstvMode::Robot36 => seq!['0', '0', '0', '1', '0', '0', '0'],
            SstvMode::Pd120 => seq!['1', '0', '1', '1', '1', '1', '1'],
            SstvMode::MartinM1 => seq!['0', '1', '0', '1', '1', '0', '0'],
        }
    }

    /// Width of the mode's target canvas, in pixels.
    pub open spec fn spec_width(self) -> u32 {
        match self {
            SstvMode::ScottieDx => 320u32,
            SstvMode::Robot36 => 320u32,
            SstvMode::Pd120 => 640u32,
            SstvMode::MartinM1 => 320u32,
        }
    }

    /// Height of the mode's target canvas, in pixels.
    pub open spec fn spec_height(self) -> u32 {
        match self {
            SstvMode::ScottieDx => 256u32,
            SstvMode::Robot36 => 240u32,
            SstvMode::Pd120 => 496u32,
            SstvMode::MartinM1 => 256u32,
        }
    }

    /// Nominal transmission duration of the mode, in milliseconds.
    pub open spec fn spec_duration_ms(self) -> u64 {
        match self {
            SstvMode::ScottieDx => 269600u64,
            SstvMode::Robot36 => 36000u64,
            SstvMode::Pd120 => 120000u64,
            SstvMode::MartinM1 => 114700u64,
        }
    }

    /// The mode's 7-bit VIS code as a binary string, most significant bit
    /// first.
    pub fn get_vis_code(&self) -> (r: &'static str)
        ensures
            r@ == self.spec_vis_code(),
            r@.len() == 7,
    {
        match self {
            SstvMode::ScottieDx => {
                proof {
                    reveal_strlit("1001100");
                    assert("1001100"@ =~= self.spec_vis_code());
                }
                "1001100"
            },
            SstvMode::Robot36 => {
                proof {
                    reveal_strlit("0001000");
                    assert("0001000"@ =~= self.spec_vis_code());
                }
                "0001000"
            },
            SstvMode::Pd120 => {
                proof {
                    reveal_strlit("1011111");
                    assert("1011111"@ =~= self.spec_vis_code());
                }
                "1011111"
            },
            SstvMode::MartinM1 => {
                proof {
                    reveal_strlit("0101100");
                    assert("0101100"@ =~= self.spec_vis_code());
                }
                "0101100"
            },
        }
    }

    /// Target canvas dimensions (width, height) of the mode, in pixels.
    pub fn get_dimensions(&self) -> (r: (u32, u32))
        ensures
            r.0 == self.spec_width(),
            r.1 == self.spec_height(),
    {
        match self {
            SstvMode::ScottieDx => (320, 256),
            SstvMode::Robot36 => (320, 240),
            SstvMode::Pd120 => (640, 496),
            SstvMode::MartinM1 => (320, 256),
        }
    }

    /// Nominal transmission duration of the mode, in milliseconds.
    pub fn get_duration_ms(&self) -> (r: u64)
        ensures
            r == self.spec_duration_ms(),
    {
        match self {
            SstvMode::ScottieDx => 269600,
            SstvMode::Robot36 => 36000,
            SstvMode::Pd120 => 120000,
            SstvMode::MartinM1 => 114700,
        }
    }

    /// Short display name of the mode.
    pub fn get_mode_name(&self) -> (r: &'static str)
        ensures
            r@ == self.spec_mode_name(),
    {
        match self {
            SstvMode::ScottieDx => "ScottieDX",
            SstvMode::Robot36 => "Robot36",
            SstvMode::Pd120 => "PD120",
            SstvMode::MartinM1 => "MartinM1",
        }
    }

    /// Short display name of the mode, as a character sequence.
    pub open spec fn spec_mode_name(self) -> Seq<char> {
        match self {
            SstvMode::ScottieDx => "ScottieDX"@,
            SstvMode::Robot36 => "Robot36"@,
            SstvMode::Pd120 => "PD120"@,
            SstvMode::MartinM1 => "MartinM1"@,
        }
    }
}

} // verus!
