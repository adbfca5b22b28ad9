use vstd::prelude::*;

verus! {

/// Upper bound on any channel value the library produces. Channel values
/// are measured in units of 10^-9, which keeps every coefficient of the
/// BT.601-style transform an exact integer (0.003906 * 65.738 becomes
/// 3906 * 65738 * 10^-9, and so on); raw pixel values reach 255 * 10^9 and
/// the transform stays below 241 * 10^9.
pub const MAX_CHANNEL_VALUE: u64 = 300000000000;

/// Luminance of an RGB pixel, in value units:
/// Y = 16 + 0.003906 * (65.738 R + 129.057 G + 25.064 B).
pub open spec fn spec_y_value(r: int, g: int, b: int) -> int {
    16 * 1000000000 + 3906 * (65738 * r + 129057 * g + 25064 * b)
}

/// Red color difference of an RGB pixel, in value units:
/// R-Y = 128 + 0.003906 * (112.439 R - 94.154 G - 18.285 B).
pub open spec fn spec_ry_value(r: int, g: int, b: int) -> int {
    128 * 1000000000 + 3906 * (112439 * r - 94154 * g - 18285 * b)
}

/// Blue color difference of an RGB pixel, in value units:
/// B-Y = 128 + 0.003906 * (-37.945 R - 74.494 G + 112.439 B).
pub open spec fn spec_by_value(r: int, g: int, b: int) -> int {
    128 * 1000000000 + 3906 * (-37945 * r - 74494 * g + 112439 * b)
}

/// Computes the luminance of a pixel. No clamping is applied: the result may
/// exceed the nominal 0-255 range, exactly as the frequency mapping expects.
pub fn y_value(r: u8, g: u8, b: u8) -> (v: u64)
    ensures
        v == spec_y_value(r as int, g as int, b as int),
        v <= MAX_CHANNEL_VALUE,
{
    let acc: u64 = 65738 * (r as u64) + 129057 * (g as u64) + 25064 * (b as u64);
    16 * 1000000000 + 3906 * acc
}

/// Computes the red color difference of a pixel, unclamped.
pub fn ry_value(r: u8, g: u8, b: u8) -> (v: u64)
    ensures
        v == spec_ry_value(r as int, g as int, b as int),
        v <= MAX_CHANNEL_VALUE,
{
    let pos: u64 = 112439 * (r as u64);
    let neg: u64 = 94154 * (g as u64) + 18285 * (b as u64);
    128 * 1000000000 + 3906 * pos - 3906 * neg
}

/// Computes the blue color difference of a pixel, unclamped.
pub fn by_value(r: u8, g: u8, b: u8) -> (v: u64)
    ensures
        v == spec_by_value(r as int, g as int, b as int),
        v <= MAX_CHANNEL_VALUE,
{
    let pos: u64 = 112439 * (b as u64);
    let neg: u64 = 37945 * (r as u64) + 74494 * (g as u64);
    128 * 1000000000 + 3906 * pos - 3906 * neg
}

} // verus!
