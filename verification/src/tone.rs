use vstd::prelude::*;

verus! {

/// Tone durations are measured in tenths of microseconds (10^-4 ms), so that
/// every duration the four scan protocols use is an integer.
pub const TIME_UNITS_PER_MS: u64 = 10000;

/// Time units per second.
pub const TIME_UNITS_PER_SECOND: u64 = 10000000;

/// Frequencies are measured in units of 1/(2*10^16) Hz, so that every scan
/// frequency is exact, including frequencies of averaged chrominance values.
pub const FREQ_UNITS_PER_HZ: u128 = 20000000000000000;

/// Scan frequency slope: 3.1372549 Hz per unit of channel value, scaled by
/// 10^7 to an integer.
pub const COLOR_FREQ_MULT_E7: u64 = 31372549;

/// Longest tone any part of a transmission uses, in time units (500 ms).
pub const MAX_TONE_UNITS: u64 = 5000000;

/// Upper bound on a doubled channel value in units of 5*10^-10 (chrominance
/// averages double the scale to stay integral); the color transform stays
/// well below this.
pub const MAX_VALUE_X2: u64 = 600000000000;

/// One tone request: a frequency, a duration, and whether the tone starts at
/// explicit phase zero instead of continuing the previous tone's phase.
#[derive(Debug, Clone, Copy, PartialEq, Eq, Structural)]
pub struct Tone {
    /// Frequency in units of 1/(2*10^16) Hz.
    pub freq_units: u128,
    /// Duration in tenths of microseconds.
    pub duration_units: u64,
    /// True only for the tone that restarts the phase at zero.
    pub explicit_zero_phase: bool,
}

/// A fixed-frequency tone (sync, porch, separator, VIS, silence), phase
/// continued from the previous tone.
pub open spec fn spec_fixed_tone(hz: int, dur: int) -> Tone {
    Tone {
        freq_units: (hz * FREQ_UNITS_PER_HZ) as u128,
        duration_units: dur as u64,
        explicit_zero_phase: false,
    }
}

/// The frequency of a channel scan tone, in frequency units: 1500 Hz plus
/// 3.1372549 Hz per unit of channel value. `value_x2` is the channel value in
/// units of 5*10^-10 (twice the 10^-9 scale, so chrominance averages of two
/// rows stay integral).
pub open spec fn spec_scan_freq_units(value_x2: int) -> int {
    1500 * FREQ_UNITS_PER_HZ + value_x2 * COLOR_FREQ_MULT_E7
}

/// A channel scan tone, phase continued from the previous tone.
pub open spec fn spec_scan_tone(value_x2: int, dur: int) -> Tone {
    Tone {
        freq_units: spec_scan_freq_units(value_x2) as u128,
        duration_units: dur as u64,
        explicit_zero_phase: false,
    }
}

/// Builds a fixed-frequency tone.
pub fn make_fixed_tone(hz: u32, dur: u64) -> (t: Tone)
    requires
        hz <= 3000,
        dur <= MAX_TONE_UNITS,
    ensures
        t == spec_fixed_tone(hz as int, dur as int),
        t.duration_units == dur,
{
    Tone {
        freq_units: (hz as u128) * FREQ_UNITS_PER_HZ,
        duration_units: dur,
        explicit_zero_phase: false,
    }
}

/// Builds a channel scan tone.
pub fn make_scan_tone(value_x2: u64, dur: u64) -> (t: Tone)
    requires
        value_x2 <= MAX_VALUE_X2,
        dur <= MAX_TONE_UNITS,
    ensures
        t == spec_scan_tone(value_x2 as int, dur as int),
        t.duration_units == dur,
{
    proof {
        vstd::arithmetic::mul::lemma_mul_upper_bound(
            value_x2 as int,
            MAX_VALUE_X2 as int,
            COLOR_FREQ_MULT_E7 as int,
            COLOR_FREQ_MULT_E7 as int,
        );
    }
    Tone {
        freq_units: 1500u128 * FREQ_UNITS_PER_HZ + (value_x2 as u128) * (
        COLOR_FREQ_MULT_E7 as u128),
        duration_units: dur,
        explicit_zero_phase: false,
    }
}

/// Whether a tone's duration is within the longest duration the protocols
/// use; every tone a transmission emits satisfies this.
pub open spec fn spec_tone_wf(t: Tone) -> bool {
    t.duration_units <= MAX_TONE_UNITS
}

/// All tones of a sequence are well-formed.
pub open spec fn spec_tones_wf(s: Seq<Tone>) -> bool {
    forall|i: int| 0 <= i < s.len() ==> spec_tone_wf(#[trigger] s[i])
}

/// Total duration of a tone sequence, in time units.
pub open spec fn spec_seq_duration(s: Seq<Tone>) -> int
    decreases s.len(),
{
    if s.len() == 0 {
        0
    } else {
        spec_seq_duration(s.drop_last()) + s.last().duration_units
    }
}

/// One tone of the final modulation plan: a frequency, the number of samples
/// to synthesize, and the phase flag carried over from the tone request.
#[derive(Debug, Clone, Copy, PartialEq, Eq, Structural)]
pub struct PlannedTone {
    /// Frequency in units of 1/(2*10^16) Hz.
    pub freq_units: u128,
    /// Number of signed 16-bit samples this tone contributes.
    pub n_samples: u64,
    /// True only for the tone that restarts the phase at zero.
    pub explicit_zero_phase: bool,
}

/// Number of samples one tone emits: the whole part of the exact sample count
/// `rate * dur / 10^7` plus whatever whole samples the accumulated fractional
/// carry has reached.
pub open spec fn spec_tone_samples(rate: int, dur: int, carry: int) -> int {
    (rate * dur + carry) / (TIME_UNITS_PER_SECOND as int)
}

/// The fractional-sample carry left after one tone, in units of 10^-7
/// samples.
pub open spec fn spec_next_carry(rate: int, dur: int, carry: int) -> int {
    (rate * dur + carry) % (TIME_UNITS_PER_SECOND as int)
}

/// The carry left after emitting a whole tone sequence, starting from a zero
/// carry.
pub open spec fn spec_carry_after(rate: int, s: Seq<Tone>) -> int
    decreases s.len(),
{
    if s.len() == 0 {
        0
    } else {
        spec_next_carry(rate, s.last().duration_units as int, spec_carry_after(rate, s.drop_last()))
    }
}

/// The modulation plan for a tone sequence: each tone paired with its sample
/// count, the fractional carry flowing through the sequence in order.
pub open spec fn spec_plan(rate: int, s: Seq<Tone>) -> Seq<PlannedTone>
    decreases s.len(),
{
    if s.len() == 0 {
        Seq::empty()
    } else {
        spec_plan(rate, s.drop_last()).push(
            PlannedTone {
                freq_units: s.last().freq_units,
                n_samples: spec_tone_samples(
                    rate,
                    s.last().duration_units as int,
                    spec_carry_after(rate, s.drop_last()),
                ) as u64,
                explicit_zero_phase: s.last().explicit_zero_phase,
            },
        )
    }
}

/// Total number of samples of a plan.
pub open spec fn spec_plan_total(p: Seq<PlannedTone>) -> int
    decreases p.len(),
{
    if p.len() == 0 {
        0
    } else {
        spec_plan_total(p.drop_last()) + p.last().n_samples
    }
}

/// The carry always stays below one sample.
pub proof fn lemma_carry_bounds(rate: int, s: Seq<Tone>)
    requires
        rate >= 0,
    ensures
        0 <= spec_carry_after(rate, s) < TIME_UNITS_PER_SECOND,
    decreases s.len(),
{
    if s.len() == 0 {
    } else {
        lemma_carry_bounds(rate, s.drop_last());
        vstd::arithmetic::div_mod::lemma_mod_bound(
            rate * s.last().duration_units + spec_carry_after(rate, s.drop_last()),
            TIME_UNITS_PER_SECOND as int,
        );
    }
}

/// Sample-count conservation: ten million times the total sample count of a
/// plan, plus the final carry, equals the sample rate times the total
/// duration of the requested tones. In particular the total sample count is
/// exactly `rate * duration / 10^7` rounded down: the fractional carry
/// prevents any timing drift, no matter how many tones the sequence holds.
pub proof fn lemma_plan_conservation(rate: int, s: Seq<Tone>)
    requires
        0 <= rate <= u32::MAX,
        spec_tones_wf(s),
    ensures
        spec_plan(rate, s).len() == s.len(),
        TIME_UNITS_PER_SECOND * spec_plan_total(spec_plan(rate, s)) + spec_carry_after(rate, s)
            == rate * spec_seq_duration(s),
        0 <= spec_plan_total(spec_plan(rate, s)),
        spec_plan_total(spec_plan(rate, s)) == rate * spec_seq_duration(s) / (
        TIME_UNITS_PER_SECOND as int),
    decreases s.len(),
{
    let t = TIME_UNITS_PER_SECOND as int;
    if s.len() == 0 {
        assert(rate * spec_seq_duration(s) == 0) by (nonlinear_arith)
            requires
                spec_seq_duration(s) == 0,
        ;
    } else {
        let prefix = s.drop_last();
        let dur_p = spec_seq_duration(prefix);
        let d_last = s.last().duration_units as int;
        let carry = spec_carry_after(rate, prefix);
        let num = rate * d_last + carry;
        let q = num / t;
        let r = num % t;
        assert(spec_tones_wf(prefix));
        assert(spec_tone_wf(s.last()));
        lemma_plan_conservation(rate, prefix);
        lemma_carry_bounds(rate, prefix);
        vstd::arithmetic::mul::lemma_mul_nonnegative(rate, d_last);
        vstd::arithmetic::div_mod::lemma_fundamental_div_mod(num, t);
        vstd::arithmetic::div_mod::lemma_mod_bound(num, t);
        vstd::arithmetic::div_mod::lemma_div_pos_is_pos(num, t);
        vstd::arithmetic::mul::lemma_mul_upper_bound(
            rate,
            u32::MAX as int,
            d_last,
            MAX_TONE_UNITS as int,
        );
        assert(q <= t * q) by (nonlinear_arith)
            requires
                q >= 0,
                t >= 1,
        ;
        let plan = spec_plan(rate, s);
        let plan_p = spec_plan(rate, prefix);
        assert(plan.drop_last() =~= plan_p);
        assert(plan.last().n_samples == q as u64);
        assert(q as u64 == q);
        assert(spec_plan_total(plan) == spec_plan_total(plan_p) + q);
        vstd::arithmetic::mul::lemma_mul_is_distributive_add(rate, dur_p, d_last);
        assert(spec_seq_duration(s) == dur_p + d_last);
        assert(t * (spec_plan_total(plan_p) + q) == t * spec_plan_total(plan_p) + t * q)
            by (nonlinear_arith);
        assert(spec_carry_after(rate, s) == r);
        assert(t * spec_plan_total(plan) + r == rate * spec_seq_duration(s));
        vstd::arithmetic::div_mod::lemma_fundamental_div_mod_converse(
            rate * spec_seq_duration(s),
            t,
            spec_plan_total(plan),
            r,
        );
    }
}

/// Prefixes of a tone sequence never last longer than the whole sequence.
pub proof fn lemma_seq_duration_take_le(s: Seq<Tone>, i: int)
    requires
        0 <= i <= s.len(),
    ensures
        0 <= spec_seq_duration(s.take(i)) <= spec_seq_duration(s),
    decreases s.len() - i,
{
    lemma_seq_duration_nonneg(s.take(i));
    if i == s.len() {
        assert(s.take(i) =~= s);
    } else {
        assert(s.take(i + 1).drop_last() =~= s.take(i));
        assert(s.take(i + 1).last() == s[i]);
        lemma_seq_duration_take_le(s, i + 1);
    }
}

/// A tone sequence's duration is never negative.
pub proof fn lemma_seq_duration_nonneg(s: Seq<Tone>)
    ensures
        spec_seq_duration(s) >= 0,
    decreases s.len(),
{
    if s.len() > 0 {
        lemma_seq_duration_nonneg(s.drop_last());
    }
}

/// Assigns a sample count to every tone of a sequence, carrying the
/// fractional sample error forward so that no drift accumulates. Returns the
/// plan and its total sample count.
pub fn plan_samples(sample_rate: u32, tones: &Vec<Tone>) -> (r: (Vec<PlannedTone>, u64))
    requires
        spec_tones_wf(tones@),
        sample_rate * spec_seq_duration(tones@) <= TIME_UNITS_PER_SECOND * u64::MAX,
    ensures
        r.0@ == spec_plan(sample_rate as int, tones@),
        r.1 == spec_plan_total(spec_plan(sample_rate as int, tones@)),
{
    let mut plan: Vec<PlannedTone> = Vec::new();
    let mut total: u64 = 0;
    let mut carry: u64 = 0;
    let rate = sample_rate as u64;
    let n = tones.len();
    proof {
        assert(tones@.take(0int) =~= Seq::<Tone>::empty());
    }
    for i in 0..n
        invariant
            n == tones@.len(),
            rate == sample_rate,
            spec_tones_wf(tones@),
            sample_rate * spec_seq_duration(tones@) <= TIME_UNITS_PER_SECOND * u64::MAX,
            plan@ == spec_plan(sample_rate as int, tones@.take(i as int)),
            total == spec_plan_total(spec_plan(sample_rate as int, tones@.take(i as int))),
            carry == spec_carry_after(sample_rate as int, tones@.take(i as int)),
            carry < TIME_UNITS_PER_SECOND,
    {
        let t = tones[i];
        proof {
            assert(spec_tone_wf(tones@[i as int]));
            vstd::arithmetic::mul::lemma_mul_upper_bound(
                rate as int,
                u32::MAX as int,
                tones@[i as int].duration_units as int,
                MAX_TONE_UNITS as int,
            );
        }
        let num = rate * t.duration_units + carry;
        let n_samples = num / TIME_UNITS_PER_SECOND;
        let new_carry = num % TIME_UNITS_PER_SECOND;
        proof {
            let prefix = tones@.take(i as int);
            let next = tones@.take(i + 1);
            assert(next.drop_last() =~= prefix);
            assert(next.last() == tones@[i as int]);
            assert(spec_tones_wf(next));
            let plan_next = spec_plan(sample_rate as int, next);
            assert(plan_next.drop_last() =~= plan@);
            assert(spec_carry_after(sample_rate as int, next) == new_carry);
            assert(plan_next.last().n_samples == n_samples);
            assert(spec_plan_total(plan_next) == total + n_samples);
            lemma_plan_conservation(sample_rate as int, next);
            lemma_seq_duration_take_le(tones@, i + 1);
            assert(sample_rate * spec_seq_duration(next) <= sample_rate * spec_seq_duration(
                tones@,
            )) by (nonlinear_arith)
                requires
                    spec_seq_duration(next) <= spec_seq_duration(tones@),
                    sample_rate >= 0,
            ;
            assert(spec_plan_total(plan_next) <= u64::MAX) by (nonlinear_arith)
                requires
                    TIME_UNITS_PER_SECOND * spec_plan_total(plan_next) <= TIME_UNITS_PER_SECOND
                        * u64::MAX,
                    TIME_UNITS_PER_SECOND >= 1,
            ;
        }
        plan.push(
            PlannedTone {
                freq_units: t.freq_units,
                n_samples,
                explicit_zero_phase: t.explicit_zero_phase,
            },
        );
        total = total + n_samples;
        carry = new_carry;
    }
    proof {
        assert(tones@.take(n as int) =~= tones@);
    }
    (plan, total)
}

} // verus!
