use vstd::prelude::*;
use crate::scan::{
    spec_by_scan, spec_luma_scan, spec_martin_row, spec_martin_rows, spec_martin_tones,
    spec_pd_pair, spec_pd_pair_count, spec_pd_pairs, spec_pd_tones, spec_raw_scan, spec_robot_row,
    spec_robot_rows, spec_robot_tones, spec_ry_scan, spec_scottie_row, spec_scottie_rows,
    spec_scottie_tones, MARTIN_PIXEL_UNITS, PD_PIXEL_UNITS, ROBOT_CHROMA_UNITS, ROBOT_LUMA_UNITS,
    SCOTTIE_PIXEL_UNITS,
};
use crate::tone::{spec_seq_duration, spec_tone_wf, spec_tones_wf, Tone, MAX_TONE_UNITS};
use crate::vis::{spec_vis_bits, spec_vis_preamble, spec_vis_tones};

verus! {

/// Concatenation adds durations.
pub proof fn lemma_seq_duration_add(a: Seq<Tone>, b: Seq<Tone>)
    ensures
        spec_seq_duration(a + b) == spec_seq_duration(a) + spec_seq_duration(b),
    decreases b.len(),
{
    if b.len() == 0 {
        assert(a + b =~= a);
    } else {
        assert((a + b).drop_last() =~= a + b.drop_last());
        lemma_seq_duration_add(a, b.drop_last());
    }
}

/// Concatenation preserves well-formedness.
pub proof fn lemma_tones_wf_add(a: Seq<Tone>, b: Seq<Tone>)
    requires
        spec_tones_wf(a),
        spec_tones_wf(b),
    ensures
        spec_tones_wf(a + b),
{
    assert forall|i: int| 0 <= i < (a + b).len() implies spec_tone_wf(#[trigger] (a + b)[i]) by {
        if i < a.len() {
            assert((a + b)[i] == a[i]);
        } else {
            assert((a + b)[i] == b[i - a.len()]);
        }
    }
}

/// A sequence whose tones all last `dur` lasts `len * dur` in total.
pub proof fn lemma_uniform_duration(s: Seq<Tone>, dur: int)
    requires
        forall|i: int| 0 <= i < s.len() ==> (#[trigger] s[i]).duration_units == dur,
        0 <= dur <= MAX_TONE_UNITS,
    ensures
        spec_seq_duration(s) == s.len() * dur,
        spec_tones_wf(s),
    decreases s.len(),
{
    if s.len() == 0 {
        assert(0int * dur == 0) by (nonlinear_arith);
    } else {
        lemma_uniform_duration(s.drop_last(), dur);
        assert((s.len() - 1) * dur + dur == s.len() * dur) by (nonlinear_arith);
    }
}

/// A raw-channel scan line of width `w` lasts `w * dur`.
pub proof fn lemma_raw_scan_duration(data: Seq<u8>, w: int, y: int, c: int, dur: int)
    requires
        0 <= w,
        0 <= dur <= MAX_TONE_UNITS,
    ensures
        spec_seq_duration(spec_raw_scan(data, w, y, c, dur)) == w * dur,
        spec_tones_wf(spec_raw_scan(data, w, y, c, dur)),
{
    lemma_uniform_duration(spec_raw_scan(data, w, y, c, dur), dur);
}

/// A luminance scan line of width `w` lasts `w * dur`.
pub proof fn lemma_luma_scan_duration(data: Seq<u8>, w: int, y: int, dur: int)
    requires
        0 <= w,
        0 <= dur <= MAX_TONE_UNITS,
    ensures
        spec_seq_duration(spec_luma_scan(data, w, y, dur)) == w * dur,
        spec_tones_wf(spec_luma_scan(data, w, y, dur)),
{
    lemma_uniform_duration(spec_luma_scan(data, w, y, dur), dur);
}

/// An averaged red-difference scan line of width `w` lasts `w * dur`.
pub proof fn lemma_ry_scan_duration(data: Seq<u8>, w: int, h: int, y: int, dur: int)
    requires
        0 <= w,
        0 <= dur <= MAX_TONE_UNITS,
    ensures
        spec_seq_duration(spec_ry_scan(data, w, h, y, dur)) == w * dur,
        spec_tones_wf(spec_ry_scan(data, w, h, y, dur)),
{
    lemma_uniform_duration(spec_ry_scan(data, w, h, y, dur), dur);
}

/// An averaged blue-difference scan line of width `w` lasts `w * dur`.
pub proof fn lemma_by_scan_duration(data: Seq<u8>, w: int, h: int, y: int, dur: int)
    requires
        0 <= w,
        0 <= dur <= MAX_TONE_UNITS,
    ensures
        spec_seq_duration(spec_by_scan(data, w, h, y, dur)) == w * dur,
        spec_tones_wf(spec_by_scan(data, w, h, y, dur)),
{
    lemma_uniform_duration(spec_by_scan(data, w, h, y, dur), dur);
}

/// The VIS header always lasts 1710 ms: 1440 ms of preamble, seven 30 ms
/// data bits, the parity bit and the stop bit.
pub proof fn lemma_vis_duration(code: Seq<char>)
    ensures
        spec_seq_duration(spec_vis_tones(code)) == 17100000,
        spec_tones_wf(spec_vis_tones(code)),
{
    let pre = spec_vis_preamble();
    reveal_with_fuel(spec_seq_duration, 13);
    assert(spec_seq_duration(pre) == 14400000);
    assert(spec_tones_wf(pre));
    lemma_uniform_duration(spec_vis_bits(code), 300000);
    let tail = seq![
        crate::tone::spec_fixed_tone(crate::vis::spec_parity_freq(code), 300000),
        crate::tone::spec_fixed_tone(1200, 300000),
    ];
    assert(spec_seq_duration(tail) == 600000);
    assert(spec_tones_wf(tail));
    lemma_seq_duration_add(pre, spec_vis_bits(code));
    lemma_seq_duration_add(pre + spec_vis_bits(code), tail);
    lemma_tones_wf_add(pre, spec_vis_bits(code));
    lemma_tones_wf_add(pre + spec_vis_bits(code), tail);
}

/// One Scottie row lasts 13.5 ms plus three pixel times per column.
pub proof fn lemma_scottie_row_duration(data: Seq<u8>, w: int, y: int)
    requires
        0 <= w,
    ensures
        spec_seq_duration(spec_scottie_row(data, w, y)) == 135000 + 32400 * w,
        spec_tones_wf(spec_scottie_row(data, w, y)),
{
    let sep = seq![crate::tone::spec_fixed_tone(1500, 15000)];
    let sync_sep = seq![
        crate::tone::spec_fixed_tone(1200, 90000),
        crate::tone::spec_fixed_tone(1500, 15000),
    ];
    let g = spec_raw_scan(data, w, y, 1, SCOTTIE_PIXEL_UNITS as int);
    let b = spec_raw_scan(data, w, y, 2, SCOTTIE_PIXEL_UNITS as int);
    let r = spec_raw_scan(data, w, y, 0, SCOTTIE_PIXEL_UNITS as int);
    reveal_with_fuel(spec_seq_duration, 3);
    lemma_raw_scan_duration(data, w, y, 1, SCOTTIE_PIXEL_UNITS as int);
    lemma_raw_scan_duration(data, w, y, 2, SCOTTIE_PIXEL_UNITS as int);
    lemma_raw_scan_duration(data, w, y, 0, SCOTTIE_PIXEL_UNITS as int);
    lemma_seq_duration_add(sep, g);
    lemma_seq_duration_add(sep + g, sep);
    lemma_seq_duration_add(sep + g + sep, b);
    lemma_seq_duration_add(sep + g + sep + b, sync_sep);
    lemma_seq_duration_add(sep + g + sep + b + sync_sep, r);
    lemma_tones_wf_add(sep, g);
    lemma_tones_wf_add(sep + g, sep);
    lemma_tones_wf_add(sep + g + sep, b);
    lemma_tones_wf_add(sep + g + sep + b, sync_sep);
    lemma_tones_wf_add(sep + g + sep + b + sync_sep, r);
    assert(3 * (w * 10800) == 32400 * w) by (nonlinear_arith);
}

/// The first `n` Scottie rows last `n` row durations.
pub proof fn lemma_scottie_rows_duration(data: Seq<u8>, w: int, n: int)
    requires
        0 <= w,
        0 <= n,
    ensures
        spec_seq_duration(spec_scottie_rows(data, w, n)) == n * (135000 + 32400 * w),
        spec_tones_wf(spec_scottie_rows(data, w, n)),
    decreases n,
{
    if n == 0 {
        assert(0int * (135000 + 32400 * w) == 0) by (nonlinear_arith);
    } else {
        lemma_scottie_rows_duration(data, w, n - 1);
        lemma_scottie_row_duration(data, w, n - 1);
        lemma_seq_duration_add(spec_scottie_rows(data, w, n - 1), spec_scottie_row(data, w, n - 1));
        lemma_tones_wf_add(spec_scottie_rows(data, w, n - 1), spec_scottie_row(data, w, n - 1));
        assert((n - 1) * (135000 + 32400 * w) + (135000 + 32400 * w) == n * (135000 + 32400 * w))
            by (nonlinear_arith);
    }
}

/// The whole Scottie scan: the leading sync pulse plus every row.
pub proof fn lemma_scottie_duration(data: Seq<u8>, w: int, h: int)
    requires
        0 <= w,
        0 <= h,
    ensures
        spec_seq_duration(spec_scottie_tones(data, w, h)) == 90000 + h * (135000 + 32400 * w),
        spec_tones_wf(spec_scottie_tones(data, w, h)),
{
    let first = spec_scottie_tones(data, w, h).take(1);
    reveal_with_fuel(spec_seq_duration, 2);
    lemma_scottie_rows_duration(data, w, h);
    assert(spec_scottie_tones(data, w, h) =~= first + spec_scottie_rows(data, w, h));
    assert(spec_seq_duration(first) == 90000);
    assert(spec_tones_wf(first));
    lemma_seq_duration_add(first, spec_scottie_rows(data, w, h));
    lemma_tones_wf_add(first, spec_scottie_rows(data, w, h));
}

/// One Robot row lasts 18 ms plus one luminance and one chrominance pixel
/// time per column, the same on even and odd rows.
pub proof fn lemma_robot_row_duration(data: Seq<u8>, w: int, h: int, y: int)
    requires
        0 <= w,
    ensures
        spec_seq_duration(spec_robot_row(data, w, h, y)) == 180000 + 4125 * w,
        spec_tones_wf(spec_robot_row(data, w, h, y)),
{
    let head = seq![
        crate::tone::spec_fixed_tone(1200, 90000),
        crate::tone::spec_fixed_tone(1500, 30000),
    ];
    let luma = spec_luma_scan(data, w, y, ROBOT_LUMA_UNITS as int);
    reveal_with_fuel(spec_seq_duration, 3);
    lemma_luma_scan_duration(data, w, y, ROBOT_LUMA_UNITS as int);
    lemma_seq_duration_add(head, luma);
    lemma_tones_wf_add(head, luma);
    if y % 2 == 0 {
        let mid = seq![
            crate::tone::spec_fixed_tone(1500, 45000),
            crate::tone::spec_fixed_tone(1900, 15000),
        ];
        let chroma = spec_ry_scan(data, w, h, y, ROBOT_CHROMA_UNITS as int);
        lemma_ry_scan_duration(data, w, h, y, ROBOT_CHROMA_UNITS as int);
        lemma_seq_duration_add(mid, chroma);
        lemma_tones_wf_add(mid, chroma);
        lemma_seq_duration_add(head + luma, mid + chroma);
        lemma_tones_wf_add(head + luma, mid + chroma);
        assert(spec_robot_row(data, w, h, y) =~= (head + luma) + (mid + chroma));
    } else {
        let mid = seq![
            crate::tone::spec_fixed_tone(2300, 45000),
            crate::tone::spec_fixed_tone(1900, 15000),
        ];
        let chroma = spec_by_scan(data, w, h, y, ROBOT_CHROMA_UNITS as int);
        lemma_by_scan_duration(data, w, h, y, ROBOT_CHROMA_UNITS as int);
        lemma_seq_duration_add(mid, chroma);
        lemma_tones_wf_add(mid, chroma);
        lemma_seq_duration_add(head + luma, mid + chroma);
        lemma_tones_wf_add(head + luma, mid + chroma);
        assert(spec_robot_row(data, w, h, y) =~= (head + luma) + (mid + chroma));
    }
    assert(w * 2750 + w * 1375 == 4125 * w) by (nonlinear_arith);
}

/// The first `n` Robot rows last `n` row durations.
pub proof fn lemma_robot_rows_duration(data: Seq<u8>, w: int, h: int, n: int)
    requires
        0 <= w,
        0 <= n,
    ensures
        spec_seq_duration(spec_robot_rows(data, w, h, n)) == n * (180000 + 4125 * w),
        spec_tones_wf(spec_robot_rows(data, w, h, n)),
    decreases n,
{
    if n == 0 {
        assert(0int * (180000 + 4125 * w) == 0) by (nonlinear_arith);
    } else {
        lemma_robot_rows_duration(data, w, h, n - 1);
        lemma_robot_row_duration(data, w, h, n - 1);
        lemma_seq_duration_add(spec_robot_rows(data, w, h, n - 1), spec_robot_row(data, w, h, n - 1));
        lemma_tones_wf_add(spec_robot_rows(data, w, h, n - 1), spec_robot_row(data, w, h, n - 1));
        assert((n - 1) * (180000 + 4125 * w) + (180000 + 4125 * w) == n * (180000 + 4125 * w))
            by (nonlinear_arith);
    }
}

/// The whole Robot scan.
pub proof fn lemma_robot_duration(data: Seq<u8>, w: int, h: int)
    requires
        0 <= w,
        0 <= h,
    ensures
        spec_seq_duration(spec_robot_tones(data, w, h)) == h * (180000 + 4125 * w),
        spec_tones_wf(spec_robot_tones(data, w, h)),
{
    lemma_robot_rows_duration(data, w, h, h);
}

/// On its own canvas the Robot scan lasts exactly its nominal duration of
/// 36 seconds: 240 rows of 150 ms each. (The other three modes' nominal
/// durations are protocol constants that differ slightly from the exact
/// duration of their emitted scan.)
pub proof fn lemma_robot_scan_matches_nominal(data: Seq<u8>)
    ensures
        spec_seq_duration(
            spec_robot_tones(
                data,
                crate::mode::SstvMode::Robot36.spec_width() as int,
                crate::mode::SstvMode::Robot36.spec_height() as int,
            ),
        ) == crate::mode::SstvMode::Robot36.spec_duration_ms() * crate::tone::TIME_UNITS_PER_MS,
{
    lemma_robot_duration(data, 320, 240);
    assert(240 * (180000 + 4125 * 320) == 360000000) by (nonlinear_arith);
}

/// One full PD row pair (both rows present) lasts 22.08 ms plus four pixel
/// times per column.
pub proof fn lemma_pd_pair_duration(data: Seq<u8>, w: int, h: int, y: int)
    requires
        0 <= w,
        y + 1 < h,
    ensures
        spec_seq_duration(spec_pd_pair(data, w, h, y)) == 220800 + 7600 * w,
        spec_tones_wf(spec_pd_pair(data, w, h, y)),
{
    let head = seq![
        crate::tone::spec_fixed_tone(1200, 200000),
        crate::tone::spec_fixed_tone(1500, 20800),
    ];
    let luma0 = spec_luma_scan(data, w, y, PD_PIXEL_UNITS as int);
    let ry = spec_ry_scan(data, w, h, y, PD_PIXEL_UNITS as int);
    let by = spec_by_scan(data, w, h, y, PD_PIXEL_UNITS as int);
    let luma1 = spec_luma_scan(data, w, y + 1, PD_PIXEL_UNITS as int);
    reveal_with_fuel(spec_seq_duration, 3);
    lemma_luma_scan_duration(data, w, y, PD_PIXEL_UNITS as int);
    lemma_luma_scan_duration(data, w, y + 1, PD_PIXEL_UNITS as int);
    lemma_ry_scan_duration(data, w, h, y, PD_PIXEL_UNITS as int);
    lemma_by_scan_duration(data, w, h, y, PD_PIXEL_UNITS as int);
    lemma_seq_duration_add(head, luma0);
    lemma_seq_duration_add(head + luma0, ry);
    lemma_seq_duration_add(head + luma0 + ry, by);
    lemma_seq_duration_add(head + luma0 + ry + by, luma1);
    lemma_tones_wf_add(head, luma0);
    lemma_tones_wf_add(head + luma0, ry);
    lemma_tones_wf_add(head + luma0 + ry, by);
    lemma_tones_wf_add(head + luma0 + ry + by, luma1);
    assert(spec_pd_pair(data, w, h, y) =~= head + luma0 + ry + by + luma1);
    assert(w * 1900 + w * 1900 + w * 1900 + w * 1900 == 7600 * w) by (nonlinear_arith);
}

/// The first `k` PD pairs of an even-height image last `k` pair durations.
pub proof fn lemma_pd_pairs_duration(data: Seq<u8>, w: int, h: int, k: int)
    requires
        0 <= w,
        0 <= k,
        h % 2 == 0,
        2 * k <= h,
    ensures
        spec_seq_duration(spec_pd_pairs(data, w, h, k)) == k * (220800 + 7600 * w),
        spec_tones_wf(spec_pd_pairs(data, w, h, k)),
    decreases k,
{
    if k == 0 {
        assert(0int * (220800 + 7600 * w) == 0) by (nonlinear_arith);
    } else {
        lemma_pd_pairs_duration(data, w, h, k - 1);
        lemma_pd_pair_duration(data, w, h, 2 * (k - 1));
        lemma_seq_duration_add(spec_pd_pairs(data, w, h, k - 1), spec_pd_pair(data, w, h, 2 * (k - 1)));
        lemma_tones_wf_add(spec_pd_pairs(data, w, h, k - 1), spec_pd_pair(data, w, h, 2 * (k - 1)));
        assert((k - 1) * (220800 + 7600 * w) + (220800 + 7600 * w) == k * (220800 + 7600 * w))
            by (nonlinear_arith);
    }
}

/// The whole PD scan of an even-height image.
pub proof fn lemma_pd_duration(data: Seq<u8>, w: int, h: int)
    requires
        0 <= w,
        0 <= h,
        h % 2 == 0,
    ensures
        spec_seq_duration(spec_pd_tones(data, w, h)) == (h / 2) * (220800 + 7600 * w),
        spec_tones_wf(spec_pd_tones(data, w, h)),
{
    assert(spec_pd_pair_count(h) == h / 2);
    lemma_pd_pairs_duration(data, w, h, h / 2);
}

/// One Martin row lasts 7.15 ms plus three pixel times per column.
pub proof fn lemma_martin_row_duration(data: Seq<u8>, w: int, y: int)
    requires
        0 <= w,
    ensures
        spec_seq_duration(spec_martin_row(data, w, y)) == 71500 + 13728 * w,
        spec_tones_wf(spec_martin_row(data, w, y)),
{
    let head = seq![
        crate::tone::spec_fixed_tone(1200, 48620),
        crate::tone::spec_fixed_tone(1500, 5720),
    ];
    let sep = seq![crate::tone::spec_fixed_tone(1500, 5720)];
    let g = spec_raw_scan(data, w, y, 1, MARTIN_PIXEL_UNITS as int);
    let b = spec_raw_scan(data, w, y, 2, MARTIN_PIXEL_UNITS as int);
    let r = spec_raw_scan(data, w, y, 0, MARTIN_PIXEL_UNITS as int);
    reveal_with_fuel(spec_seq_duration, 3);
    lemma_raw_scan_duration(data, w, y, 1, MARTIN_PIXEL_UNITS as int);
    lemma_raw_scan_duration(data, w, y, 2, MARTIN_PIXEL_UNITS as int);
    lemma_raw_scan_duration(data, w, y, 0, MARTIN_PIXEL_UNITS as int);
    lemma_seq_duration_add(head, g);
    lemma_seq_duration_add(head + g, sep);
    lemma_seq_duration_add(head + g + sep, b);
    lemma_seq_duration_add(head + g + sep + b, sep);
    lemma_seq_duration_add(head + g + sep + b + sep, r);
    lemma_seq_duration_add(head + g + sep + b + sep + r, sep);
    lemma_tones_wf_add(head, g);
    lemma_tones_wf_add(head + g, sep);
    lemma_tones_wf_add(head + g + sep, b);
    lemma_tones_wf_add(head + g + sep + b, sep);
    lemma_tones_wf_add(head + g + sep + b + sep, r);
    lemma_tones_wf_add(head + g + sep + b + sep + r, sep);
    assert(w * 4576 + w * 4576 + w * 4576 == 13728 * w) by (nonlinear_arith);
}

/// The first `n` Martin rows last `n` row durations.
pub proof fn lemma_martin_rows_duration(data: Seq<u8>, w: int, n: int)
    requires
        0 <= w,
        0 <= n,
    ensures
        spec_seq_duration(spec_martin_rows(data, w, n)) == n * (71500 + 13728 * w),
        spec_tones_wf(spec_martin_rows(data, w, n)),
    decreases n,
{
    if n == 0 {
        assert(0int * (71500 + 13728 * w) == 0) by (nonlinear_arith);
    } else {
        lemma_martin_rows_duration(data, w, n - 1);
        lemma_martin_row_duration(data, w, n - 1);
        lemma_seq_duration_add(spec_martin_rows(data, w, n - 1), spec_martin_row(data, w, n - 1));
        lemma_tones_wf_add(spec_martin_rows(data, w, n - 1), spec_martin_row(data, w, n - 1));
        assert((n - 1) * (71500 + 13728 * w) + (71500 + 13728 * w) == n * (71500 + 13728 * w))
            by (nonlinear_arith);
    }
}

/// The whole Martin scan.
pub proof fn lemma_martin_duration(data: Seq<u8>, w: int, h: int)
    requires
        0 <= w,
        0 <= h,
    ensures
        spec_seq_duration(spec_martin_tones(data, w, h)) == h * (71500 + 13728 * w),
        spec_tones_wf(spec_martin_tones(data, w, h)),
{
    lemma_martin_rows_duration(data, w, h);
}

} // verus!
