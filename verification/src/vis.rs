use vstd::prelude::*;
use vstd::string::StrSliceExecFns;
use crate::mode::SstvMode;
use crate::tone::{
    make_fixed_tone, spec_fixed_tone, spec_tone_wf, spec_tones_wf, Tone, FREQ_UNITS_PER_HZ,
};

verus! {

/// Duration of one VIS data bit, in time units (30 ms).
pub const VIS_BIT_UNITS: u64 = 300000;

/// The fixed VIS preamble: eight alternating leader tones of 100 ms, then
/// the 1900/1200 Hz lead-in of the code itself.
pub open spec fn spec_vis_preamble() -> Seq<Tone> {
    seq![
        spec_fixed_tone(1900, 1000000),
        spec_fixed_tone(1500, 1000000),
        spec_fixed_tone(1900, 1000000),
        spec_fixed_tone(1500, 1000000),
        spec_fixed_tone(2300, 1000000),
        spec_fixed_tone(1500, 1000000),
        spec_fixed_tone(2300, 1000000),
        spec_fixed_tone(1500, 1000000),
        spec_fixed_tone(1900, 3000000),
        spec_fixed_tone(1200, 100000),
        spec_fixed_tone(1900, 3000000),
        spec_fixed_tone(1200, 300000),
    ]
}

/// Frequency of one VIS data bit: 1100 Hz for a '1', 1300 Hz for a '0'.
pub open spec fn spec_bit_freq(c: char) -> int {
    if c == '1' {
        1100
    } else {
        1300
    }
}

/// The seven VIS data bit tones: the code's characters are emitted from
/// index 6 down to index 0, 30 ms each.
pub open spec fn spec_vis_bits(code: Seq<char>) -> Seq<Tone> {
    Seq::new(7, |j: int| spec_fixed_tone(spec_bit_freq(code[6 - j]), VIS_BIT_UNITS as int))
}

/// Number of '1' characters in a code.
pub open spec fn spec_ones(code: Seq<char>) -> int
    decreases code.len(),
{
    if code.len() == 0 {
        0
    } else {
        spec_ones(code.drop_last()) + if code.last() == '1' {
            1int
        } else {
            0int
        }
    }
}

/// Frequency of the even-parity bit: 1300 Hz when the number of '1' bits is
/// even, 1100 Hz otherwise.
pub open spec fn spec_parity_freq(code: Seq<char>) -> int {
    if spec_ones(code) % 2 == 0 {
        1300
    } else {
        1100
    }
}

/// The whole VIS header for a code: preamble, seven data bits, parity bit,
/// and a 1200 Hz stop bit.
pub open spec fn spec_vis_tones(code: Seq<char>) -> Seq<Tone> {
    spec_vis_preamble() + spec_vis_bits(code) + seq![
        spec_fixed_tone(spec_parity_freq(code), VIS_BIT_UNITS as int),
        spec_fixed_tone(1200, VIS_BIT_UNITS as int),
    ]
}

/// The parity tone stands right after the preamble and the seven data bits,
/// and is 1300 Hz exactly when the code holds an even number of '1' bits.
pub proof fn lemma_vis_parity_bit(code: Seq<char>)
    ensures
        spec_vis_tones(code).len() == 21,
        spec_vis_tones(code)[19] == spec_fixed_tone(spec_parity_freq(code), VIS_BIT_UNITS as int),
        spec_ones(code) % 2 == 0 ==> spec_vis_tones(code)[19].freq_units == 1300
            * FREQ_UNITS_PER_HZ,
        spec_ones(code) % 2 != 0 ==> spec_vis_tones(code)[19].freq_units == 1100
            * FREQ_UNITS_PER_HZ,
{
}

/// The parity frequencies of the four modes' fixed codes: PD120's code holds
/// an even number of '1' bits and gets 1300 Hz; the other three hold an odd
/// number and get 1100 Hz.
pub proof fn lemma_mode_parity()
    ensures
        spec_ones(SstvMode::ScottieDx.spec_vis_code()) == 3,
        spec_ones(SstvMode::Robot36.spec_vis_code()) == 1,
        spec_ones(SstvMode::Pd120.spec_vis_code()) == 6,
        spec_ones(SstvMode::MartinM1.spec_vis_code()) == 3,
        spec_parity_freq(SstvMode::ScottieDx.spec_vis_code()) == 1100,
        spec_parity_freq(SstvMode::Robot36.spec_vis_code()) == 1100,
        spec_parity_freq(SstvMode::Pd120.spec_vis_code()) == 1300,
        spec_parity_freq(SstvMode::MartinM1.spec_vis_code()) == 1100,
{
    reveal_with_fuel(spec_ones, 8);
    lemma_code_ones(SstvMode::ScottieDx.spec_vis_code());
    lemma_code_ones(SstvMode::Robot36.spec_vis_code());
    lemma_code_ones(SstvMode::Pd120.spec_vis_code());
    lemma_code_ones(SstvMode::MartinM1.spec_vis_code());
}

/// Spells out the recursion of `spec_ones` for a seven-character code.
proof fn lemma_code_ones(code: Seq<char>)
    requires
        code.len() == 7,
    ensures
        spec_ones(code) == (if code[0] == '1' {
            1int
        } else {
            0int
        }) + (if code[1] == '1' {
            1int
        } else {
            0int
        }) + (if code[2] == '1' {
            1int
        } else {
            0int
        }) + (if code[3] == '1' {
            1int
        } else {
            0int
        }) + (if code[4] == '1' {
            1int
        } else {
            0int
        }) + (if code[5] == '1' {
            1int
        } else {
            0int
        }) + (if code[6] == '1' {
            1int
        } else {
            0int
        }),
{
    reveal_with_fuel(spec_ones, 8);
    assert(code.drop_last().drop_last().drop_last().drop_last().drop_last().drop_last().drop_last()
        =~= Seq::<char>::empty());
}

/// Appends the VIS header of `mode` to a tone sequence: the fixed preamble,
/// the mode's 7-bit code most-significant-bit-first but iterated from index
/// 6 down to 0, the even-parity bit, and the stop bit.
pub fn append_vis_tones(mode: SstvMode, tones: &mut Vec<Tone>)
    requires
        spec_tones_wf(old(tones)@),
    ensures
        final(tones)@ == old(tones)@ + spec_vis_tones(mode.spec_vis_code()),
        spec_tones_wf(final(tones)@),
{
    let ghost code = mode.spec_vis_code();
    let ghost base = tones@;
    tones.push(make_fixed_tone(1900, 1000000));
    tones.push(make_fixed_tone(1500, 1000000));
    tones.push(make_fixed_tone(1900, 1000000));
    tones.push(make_fixed_tone(1500, 1000000));
    tones.push(make_fixed_tone(2300, 1000000));
    tones.push(make_fixed_tone(1500, 1000000));
    tones.push(make_fixed_tone(2300, 1000000));
    tones.push(make_fixed_tone(1500, 1000000));
    tones.push(make_fixed_tone(1900, 3000000));
    tones.push(make_fixed_tone(1200, 100000));
    tones.push(make_fixed_tone(1900, 3000000));
    tones.push(make_fixed_tone(1200, 300000));
    proof {
        assert(tones@ =~= base + spec_vis_preamble());
    }
    let vis_code = mode.get_vis_code();
    let ghost after_preamble = tones@;
    for i in 0..7usize
        invariant
            vis_code@ == code,
            code.len() == 7,
            tones@ == after_preamble + spec_vis_bits(code).take(i as int),
            after_preamble == base + spec_vis_preamble(),
            spec_tones_wf(tones@),
    {
        let c = vis_code.get_char(6 - i);
        let freq: u32 = if c == '1' {
            1100
        } else {
            1300
        };
        tones.push(make_fixed_tone(freq, VIS_BIT_UNITS));
        proof {
            assert(spec_vis_bits(code).take(i + 1) =~= spec_vis_bits(code).take(i as int).push(
                spec_fixed_tone(spec_bit_freq(code[6 - i]), VIS_BIT_UNITS as int),
            ));
        }
    }
    proof {
        assert(spec_vis_bits(code).take(7) =~= spec_vis_bits(code));
    }
    let mut ones: u32 = 0;
    for i in 0..7usize
        invariant
            vis_code@ == code,
            code.len() == 7,
            ones == spec_ones(code.take(i as int)),
            ones <= i,
    {
        let c = vis_code.get_char(i);
        if c == '1' {
            ones = ones + 1;
        }
        proof {
            assert(code.take(i + 1).drop_last() =~= code.take(i as int));
            assert(code.take(i + 1).last() == code[i as int]);
        }
    }
    proof {
        assert(code.take(7) =~= code);
    }
    let parity_freq: u32 = if ones % 2 == 0 {
        1300
    } else {
        1100
    };
    tones.push(make_fixed_tone(parity_freq, VIS_BIT_UNITS));
    tones.push(make_fixed_tone(1200, VIS_BIT_UNITS));
    proof {
        assert(tones@ =~= base + spec_vis_tones(code));
    }
}

} // verus!
