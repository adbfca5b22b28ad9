use vstd::prelude::*;
use crate::color::{by_value, ry_value, spec_by_value, spec_ry_value, spec_y_value, y_value};
use crate::image_buf::{spec_buf_channel, RgbBuffer};
use crate::mode::SstvMode;
use crate::tone::{
    make_fixed_tone, make_scan_tone, spec_fixed_tone, spec_scan_tone, spec_tones_wf, Tone,
    MAX_TONE_UNITS,
};

verus! {

/// Scottie sync pulse: 1200 Hz for 9 ms.
pub const SCOTTIE_SYNC_UNITS: u64 = 90000;

/// Scottie separator: 1500 Hz for 1.5 ms.
pub const SCOTTIE_SEP_UNITS: u64 = 15000;

/// Scottie pixel time: 1.08 ms.
pub const SCOTTIE_PIXEL_UNITS: u64 = 10800;

/// Robot sync pulse: 1200 Hz for 9 ms.
pub const ROBOT_SYNC_UNITS: u64 = 90000;

/// Robot porch: 1500 Hz for 3 ms.
pub const ROBOT_PORCH_UNITS: u64 = 30000;

/// Robot luminance pixel time: 0.275 ms.
pub const ROBOT_LUMA_UNITS: u64 = 2750;

/// Robot separator: 4.5 ms.
pub const ROBOT_SEP_UNITS: u64 = 45000;

/// Robot chrominance porch: 1900 Hz for 1.5 ms.
pub const ROBOT_CHROMA_PORCH_UNITS: u64 = 15000;

/// Robot chrominance pixel time: 0.1375 ms.
pub const ROBOT_CHROMA_UNITS: u64 = 1375;

/// PD long sync pulse: 1200 Hz for 20 ms.
pub const PD_SYNC_UNITS: u64 = 200000;

/// PD porch: 1500 Hz for 2.08 ms.
pub const PD_PORCH_UNITS: u64 = 20800;

/// PD pixel time: 0.19 ms.
pub const PD_PIXEL_UNITS: u64 = 1900;

/// Martin sync pulse: 1200 Hz for 4.862 ms.
pub const MARTIN_SYNC_UNITS: u64 = 48620;

/// Martin separator: 1500 Hz for 0.572 ms.
pub const MARTIN_SEP_UNITS: u64 = 5720;

/// Martin pixel time: 0.4576 ms.
pub const MARTIN_PIXEL_UNITS: u64 = 4576;

/// A raw channel value of a pixel, doubled, in units of 5*10^-10.
pub open spec fn spec_raw_x2(data: Seq<u8>, w: int, x: int, y: int, c: int) -> int {
    2 * 1000000000 * spec_buf_channel(data, w, x, y, c)
}

/// The luminance of a pixel, doubled.
pub open spec fn spec_luma_x2(data: Seq<u8>, w: int, x: int, y: int) -> int {
    2 * spec_y_value(
        spec_buf_channel(data, w, x, y, 0) as int,
        spec_buf_channel(data, w, x, y, 1) as int,
        spec_buf_channel(data, w, x, y, 2) as int,
    )
}

/// The row whose chrominance is averaged with row `y`: the next row, or `y`
/// itself at the bottom boundary.
pub open spec fn spec_next_row(h: int, y: int) -> int {
    if y + 1 < h {
        y + 1
    } else {
        y
    }
}

/// Sum of the red color differences of row `y` and the following row
/// (doubled average).
pub open spec fn spec_ry_avg_x2(data: Seq<u8>, w: int, h: int, x: int, y: int) -> int {
    let y2 = spec_next_row(h, y);
    spec_ry_value(
        spec_buf_channel(data, w, x, y, 0) as int,
        spec_buf_channel(data, w, x, y, 1) as int,
        spec_buf_channel(data, w, x, y, 2) as int,
    ) + spec_ry_value(
        spec_buf_channel(data, w, x, y2, 0) as int,
        spec_buf_channel(data, w, x, y2, 1) as int,
        spec_buf_channel(data, w, x, y2, 2) as int,
    )
}

/// Sum of the blue color differences of row `y` and the following row
/// (doubled average).
pub open spec fn spec_by_avg_x2(data: Seq<u8>, w: int, h: int, x: int, y: int) -> int {
    let y2 = spec_next_row(h, y);
    spec_by_value(
        spec_buf_channel(data, w, x, y, 0) as int,
        spec_buf_channel(data, w, x, y, 1) as int,
        spec_buf_channel(data, w, x, y, 2) as int,
    ) + spec_by_value(
        spec_buf_channel(data, w, x, y2, 0) as int,
        spec_buf_channel(data, w, x, y2, 1) as int,
        spec_buf_channel(data, w, x, y2, 2) as int,
    )
}

/// One raw-channel scan line: one tone per pixel, left to right.
pub open spec fn spec_raw_scan(data: Seq<u8>, w: int, y: int, c: int, dur: int) -> Seq<Tone> {
    Seq::new(w as nat, |x: int| spec_scan_tone(spec_raw_x2(data, w, x, y, c), dur))
}

/// One luminance scan line.
pub open spec fn spec_luma_scan(data: Seq<u8>, w: int, y: int, dur: int) -> Seq<Tone> {
    Seq::new(w as nat, |x: int| spec_scan_tone(spec_luma_x2(data, w, x, y), dur))
}

/// One averaged red-difference scan line.
pub open spec fn spec_ry_scan(data: Seq<u8>, w: int, h: int, y: int, dur: int) -> Seq<Tone> {
    Seq::new(w as nat, |x: int| spec_scan_tone(spec_ry_avg_x2(data, w, h, x, y), dur))
}

/// One averaged blue-difference scan line.
pub open spec fn spec_by_scan(data: Seq<u8>, w: int, h: int, y: int, dur: int) -> Seq<Tone> {
    Seq::new(w as nat, |x: int| spec_scan_tone(spec_by_avg_x2(data, w, h, x, y), dur))
}

/// Appends one raw-channel scan line.
fn append_raw_scan(tones: &mut Vec<Tone>, img: &RgbBuffer, y: u32, c: u8, dur: u64)
    requires
        img.wf(),
        y < img.spec_height(),
        c < 3,
        dur <= MAX_TONE_UNITS,
        spec_tones_wf(old(tones)@),
    ensures
        final(tones)@ == old(tones)@ + spec_raw_scan(img.spec_data(), img.spec_width(), y as int, c as int, dur as int),
        spec_tones_wf(final(tones)@),
{
    let w = img.width();
    let ghost base = tones@;
    proof {
        assert(tones@ =~= base + spec_raw_scan(img.spec_data(), img.spec_width(), y as int, c as int, dur as int).take(0));
    }
    for x in 0..w
        invariant
            img.wf(),
            w == img.spec_width(),
            y < img.spec_height(),
            c < 3,
            dur <= MAX_TONE_UNITS,
            tones@ == base + spec_raw_scan(img.spec_data(), img.spec_width(), y as int, c as int, dur as int).take(x as int),
            spec_tones_wf(tones@),
    {
        let p = img.get_pixel(x, y);
        let v: u8 = if c == 0 {
            p.0
        } else if c == 1 {
            p.1
        } else {
            p.2
        };
        tones.push(make_scan_tone(2000000000 * (v as u64), dur));
        proof {
            let f = spec_raw_scan(img.spec_data(), img.spec_width(), y as int, c as int, dur as int);
            assert(f.take(x + 1) =~= f.take(x as int).push(f[x as int]));
        }
    }
    proof {
        let f = spec_raw_scan(img.spec_data(), img.spec_width(), y as int, c as int, dur as int);
        assert(f.take(w as int) =~= f);
    }
}

/// Appends one luminance scan line.
fn append_luma_scan(tones: &mut Vec<Tone>, img: &RgbBuffer, y: u32, dur: u64)
    requires
        img.wf(),
        y < img.spec_height(),
        dur <= MAX_TONE_UNITS,
        spec_tones_wf(old(tones)@),
    ensures
        final(tones)@ == old(tones)@ + spec_luma_scan(img.spec_data(), img.spec_width(), y as int, dur as int),
        spec_tones_wf(final(tones)@),
{
    let w = img.width();
    let ghost base = tones@;
    proof {
        assert(tones@ =~= base + spec_luma_scan(img.spec_data(), img.spec_width(), y as int, dur as int).take(0));
    }
    for x in 0..w
        invariant
            img.wf(),
            w == img.spec_width(),
            y < img.spec_height(),
            dur <= MAX_TONE_UNITS,
            tones@ == base + spec_luma_scan(img.spec_data(), img.spec_width(), y as int, dur as int).take(x as int),
            spec_tones_wf(tones@),
    {
        let p = img.get_pixel(x, y);
        let v = y_value(p.0, p.1, p.2);
        tones.push(make_scan_tone(2 * v, dur));
        proof {
            let f = spec_luma_scan(img.spec_data(), img.spec_width(), y as int, dur as int);
            assert(f.take(x + 1) =~= f.take(x as int).push(f[x as int]));
        }
    }
    proof {
        let f = spec_luma_scan(img.spec_data(), img.spec_width(), y as int, dur as int);
        assert(f.take(w as int) =~= f);
    }
}

/// Picks the row averaged with row `y`.
fn next_row(img: &RgbBuffer, y: u32) -> (r: u32)
    requires
        img.wf(),
        y < img.spec_height(),
    ensures
        r == spec_next_row(img.spec_height(), y as int),
        r < img.spec_height(),
{
    let h = img.height();
    if y + 1 < h {
        y + 1
    } else {
        y
    }
}

/// Appends one averaged red-difference scan line.
fn append_ry_scan(tones: &mut Vec<Tone>, img: &RgbBuffer, y: u32, dur: u64)
    requires
        img.wf(),
        y < img.spec_height(),
        dur <= MAX_TONE_UNITS,
        spec_tones_wf(old(tones)@),
    ensures
        final(tones)@ == old(tones)@ + spec_ry_scan(img.spec_data(), img.spec_width(), img.spec_height(), y as int, dur as int),
        spec_tones_wf(final(tones)@),
{
    let w = img.width();
    let y2 = next_row(img, y);
    let ghost base = tones@;
    proof {
        assert(tones@ =~= base + spec_ry_scan(img.spec_data(), img.spec_width(), img.spec_height(), y as int, dur as int).take(0));
    }
    for x in 0..w
        invariant
            img.wf(),
            w == img.spec_width(),
            y < img.spec_height(),
            y2 == spec_next_row(img.spec_height(), y as int),
            y2 < img.spec_height(),
            dur <= MAX_TONE_UNITS,
            tones@ == base + spec_ry_scan(img.spec_data(), img.spec_width(), img.spec_height(), y as int, dur as int).take(x as int),
            spec_tones_wf(tones@),
    {
        let p1 = img.get_pixel(x, y);
        let p2 = img.get_pixel(x, y2);
        let v1 = ry_value(p1.0, p1.1, p1.2);
        let v2 = ry_value(p2.0, p2.1, p2.2);
        tones.push(make_scan_tone(v1 + v2, dur));
        proof {
            let f = spec_ry_scan(img.spec_data(), img.spec_width(), img.spec_height(), y as int, dur as int);
            assert(f.take(x + 1) =~= f.take(x as int).push(f[x as int]));
        }
    }
    proof {
        let f = spec_ry_scan(img.spec_data(), img.spec_width(), img.spec_height(), y as int, dur as int);
        assert(f.take(w as int) =~= f);
    }
}

/// Appends one averaged blue-difference scan line.
fn append_by_scan(tones: &mut Vec<Tone>, img: &RgbBuffer, y: u32, dur: u64)
    requires
        img.wf(),
        y < img.spec_height(),
        dur <= MAX_TONE_UNITS,
        spec_tones_wf(old(tones)@),
    ensures
        final(tones)@ == old(tones)@ + spec_by_scan(img.spec_data(), img.spec_width(), img.spec_height(), y as int, dur as int),
        spec_tones_wf(final(tones)@),
{
    let w = img.width();
    let y2 = next_row(img, y);
    let ghost base = tones@;
    proof {
        assert(tones@ =~= base + spec_by_scan(img.spec_data(), img.spec_width(), img.spec_height(), y as int, dur as int).take(0));
    }
    for x in 0..w
        invariant
            img.wf(),
            w == img.spec_width(),
            y < img.spec_height(),
            y2 == spec_next_row(img.spec_height(), y as int),
            y2 < img.spec_height(),
            dur <= MAX_TONE_UNITS,
            tones@ == base + spec_by_scan(img.spec_data(), img.spec_width(), img.spec_height(), y as int, dur as int).take(x as int),
            spec_tones_wf(tones@),
    {
        let p1 = img.get_pixel(x, y);
        let p2 = img.get_pixel(x, y2);
        let v1 = by_value(p1.0, p1.1, p1.2);
        let v2 = by_value(p2.0, p2.1, p2.2);
        tones.push(make_scan_tone(v1 + v2, dur));
        proof {
            let f = spec_by_scan(img.spec_data(), img.spec_width(), img.spec_height(), y as int, dur as int);
            assert(f.take(x + 1) =~= f.take(x as int).push(f[x as int]));
        }
    }
    proof {
        let f = spec_by_scan(img.spec_data(), img.spec_width(), img.spec_height(), y as int, dur as int);
        assert(f.take(w as int) =~= f);
    }
}

/// One Scottie row: separator, green scan, separator, blue scan, sync,
/// separator, red scan, all phase-continuous.
pub open spec fn spec_scottie_row(data: Seq<u8>, w: int, y: int) -> Seq<Tone> {
    seq![spec_fixed_tone(1500, SCOTTIE_SEP_UNITS as int)] + spec_raw_scan(
        data,
        w,
        y,
        1,
        SCOTTIE_PIXEL_UNITS as int,
    ) + seq![spec_fixed_tone(1500, SCOTTIE_SEP_UNITS as int)] + spec_raw_scan(
        data,
        w,
        y,
        2,
        SCOTTIE_PIXEL_UNITS as int,
    ) + seq![
        spec_fixed_tone(1200, SCOTTIE_SYNC_UNITS as int),
        spec_fixed_tone(1500, SCOTTIE_SEP_UNITS as int),
    ] + spec_raw_scan(data, w, y, 0, SCOTTIE_PIXEL_UNITS as int)
}

/// The first `n` Scottie rows.
pub open spec fn spec_scottie_rows(data: Seq<u8>, w: int, n: int) -> Seq<Tone>
    decreases n,
{
    if n <= 0 {
        Seq::empty()
    } else {
        spec_scottie_rows(data, w, n - 1) + spec_scottie_row(data, w, n - 1)
    }
}

/// The Scottie scan: a single sync pulse at explicit phase zero before the
/// first row, then every row.
pub open spec fn spec_scottie_tones(data: Seq<u8>, w: int, h: int) -> Seq<Tone> {
    seq![
        Tone {
            freq_units: (1200 * crate::tone::FREQ_UNITS_PER_HZ) as u128,
            duration_units: SCOTTIE_SYNC_UNITS,
            explicit_zero_phase: true,
        },
    ] + spec_scottie_rows(data, w, h)
}

/// Appends the Scottie scan of `img`.
pub fn append_scottie_tones(tones: &mut Vec<Tone>, img: &RgbBuffer)
    requires
        img.wf(),
        spec_tones_wf(old(tones)@),
    ensures
        final(tones)@ == old(tones)@ + spec_scottie_tones(img.spec_data(), img.spec_width(), img.spec_height()),
        spec_tones_wf(final(tones)@),
{
    let h = img.height();
    let ghost base = tones@;
    tones.push(
        Tone {
            freq_units: 1200u128 * crate::tone::FREQ_UNITS_PER_HZ,
            duration_units: SCOTTIE_SYNC_UNITS,
            explicit_zero_phase: true,
        },
    );
    let ghost start = tones@;
    proof {
        assert(spec_scottie_rows(img.spec_data(), img.spec_width(), 0) =~= Seq::<Tone>::empty());
        assert(tones@ =~= start + spec_scottie_rows(img.spec_data(), img.spec_width(), 0));
    }
    for y in 0..h
        invariant
            img.wf(),
            h == img.spec_height(),
            start == base + seq![
                Tone {
                    freq_units: (1200 * crate::tone::FREQ_UNITS_PER_HZ) as u128,
                    duration_units: SCOTTIE_SYNC_UNITS,
                    explicit_zero_phase: true,
                },
            ],
            tones@ == start + spec_scottie_rows(img.spec_data(), img.spec_width(), y as int),
            spec_tones_wf(tones@),
    {
        tones.push(make_fixed_tone(1500, SCOTTIE_SEP_UNITS));
        append_raw_scan(tones, img, y, 1, SCOTTIE_PIXEL_UNITS);
        tones.push(make_fixed_tone(1500, SCOTTIE_SEP_UNITS));
        append_raw_scan(tones, img, y, 2, SCOTTIE_PIXEL_UNITS);
        tones.push(make_fixed_tone(1200, SCOTTIE_SYNC_UNITS));
        tones.push(make_fixed_tone(1500, SCOTTIE_SEP_UNITS));
        append_raw_scan(tones, img, y, 0, SCOTTIE_PIXEL_UNITS);
        proof {
            assert(tones@ =~= start + spec_scottie_rows(img.spec_data(), img.spec_width(), y + 1));
        }
    }
    proof {
        assert(tones@ =~= base + spec_scottie_tones(img.spec_data(), img.spec_width(), img.spec_height()));
    }
}

/// One Robot row: sync, porch, luminance scan; then on even rows a 1500 Hz
/// separator, chrominance porch and the averaged red-difference scan, on odd
/// rows a 2300 Hz separator, chrominance porch and the averaged
/// blue-difference scan.
pub open spec fn spec_robot_row(data: Seq<u8>, w: int, h: int, y: int) -> Seq<Tone> {
    seq![
        spec_fixed_tone(1200, ROBOT_SYNC_UNITS as int),
        spec_fixed_tone(1500, ROBOT_PORCH_UNITS as int),
    ] + spec_luma_scan(data, w, y, ROBOT_LUMA_UNITS as int) + (if y % 2 == 0 {
        seq![
            spec_fixed_tone(1500, ROBOT_SEP_UNITS as int),
            spec_fixed_tone(1900, ROBOT_CHROMA_PORCH_UNITS as int),
        ] + spec_ry_scan(data, w, h, y, ROBOT_CHROMA_UNITS as int)
    } else {
        seq![
            spec_fixed_tone(2300, ROBOT_SEP_UNITS as int),
            spec_fixed_tone(1900, ROBOT_CHROMA_PORCH_UNITS as int),
        ] + spec_by_scan(data, w, h, y, ROBOT_CHROMA_UNITS as int)
    })
}

/// The first `n` Robot rows.
pub open spec fn spec_robot_rows(data: Seq<u8>, w: int, h: int, n: int) -> Seq<Tone>
    decreases n,
{
    if n <= 0 {
        Seq::empty()
    } else {
        spec_robot_rows(data, w, h, n - 1) + spec_robot_row(data, w, h, n - 1)
    }
}

/// The Robot scan: every row in order.
pub open spec fn spec_robot_tones(data: Seq<u8>, w: int, h: int) -> Seq<Tone> {
    spec_robot_rows(data, w, h, h)
}

/// Appends the Robot scan of `img`.
pub fn append_robot_tones(tones: &mut Vec<Tone>, img: &RgbBuffer)
    requires
        img.wf(),
        spec_tones_wf(old(tones)@),
    ensures
        final(tones)@ == old(tones)@ + spec_robot_tones(img.spec_data(), img.spec_width(), img.spec_height()),
        spec_tones_wf(final(tones)@),
{
    let h = img.height();
    let ghost base = tones@;
    proof {
        assert(spec_robot_rows(img.spec_data(), img.spec_width(), img.spec_height(), 0) =~= Seq::<Tone>::empty());
        assert(tones@ =~= base + spec_robot_rows(img.spec_data(), img.spec_width(), img.spec_height(), 0));
    }
    for y in 0..h
        invariant
            img.wf(),
            h == img.spec_height(),
            tones@ == base + spec_robot_rows(img.spec_data(), img.spec_width(), img.spec_height(), y as int),
            spec_tones_wf(tones@),
    {
        tones.push(make_fixed_tone(1200, ROBOT_SYNC_UNITS));
        tones.push(make_fixed_tone(1500, ROBOT_PORCH_UNITS));
        append_luma_scan(tones, img, y, ROBOT_LUMA_UNITS);
        if y % 2 == 0 {
            tones.push(make_fixed_tone(1500, ROBOT_SEP_UNITS));
            tones.push(make_fixed_tone(1900, ROBOT_CHROMA_PORCH_UNITS));
            append_ry_scan(tones, img, y, ROBOT_CHROMA_UNITS);
        } else {
            tones.push(make_fixed_tone(2300, ROBOT_SEP_UNITS));
            tones.push(make_fixed_tone(1900, ROBOT_CHROMA_PORCH_UNITS));
            append_by_scan(tones, img, y, ROBOT_CHROMA_UNITS);
        }
        proof {
            assert(tones@ =~= base + spec_robot_rows(img.spec_data(), img.spec_width(), img.spec_height(), y + 1));
        }
    }
}

/// One PD row pair, starting at even row `y`: long sync, porch, luminance of
/// row `y`, averaged red difference, averaged blue difference, and the
/// luminance of row `y + 1` when that row exists.
pub open spec fn spec_pd_pair(data: Seq<u8>, w: int, h: int, y: int) -> Seq<Tone> {
    seq![
        spec_fixed_tone(1200, PD_SYNC_UNITS as int),
        spec_fixed_tone(1500, PD_PORCH_UNITS as int),
    ] + spec_luma_scan(data, w, y, PD_PIXEL_UNITS as int) + spec_ry_scan(
        data,
        w,
        h,
        y,
        PD_PIXEL_UNITS as int,
    ) + spec_by_scan(data, w, h, y, PD_PIXEL_UNITS as int) + (if y + 1 < h {
        spec_luma_scan(data, w, y + 1, PD_PIXEL_UNITS as int)
    } else {
        Seq::empty()
    })
}

/// The first `k` PD row pairs.
pub open spec fn spec_pd_pairs(data: Seq<u8>, w: int, h: int, k: int) -> Seq<Tone>
    decreases k,
{
    if k <= 0 {
        Seq::empty()
    } else {
        spec_pd_pairs(data, w, h, k - 1) + spec_pd_pair(data, w, h, 2 * (k - 1))
    }
}

/// Number of PD row pairs of an image: rows are processed in steps of two.
pub open spec fn spec_pd_pair_count(h: int) -> int {
    (h + 1) / 2
}

/// The PD scan: every row pair in order.
pub open spec fn spec_pd_tones(data: Seq<u8>, w: int, h: int) -> Seq<Tone> {
    spec_pd_pairs(data, w, h, spec_pd_pair_count(h))
}

/// Appends the PD scan of `img`.
pub fn append_pd_tones(tones: &mut Vec<Tone>, img: &RgbBuffer)
    requires
        img.wf(),
        spec_tones_wf(old(tones)@),
    ensures
        final(tones)@ == old(tones)@ + spec_pd_tones(img.spec_data(), img.spec_width(), img.spec_height()),
        spec_tones_wf(final(tones)@),
{
    let h = img.height();
    let pairs = h / 2 + h % 2;
    proof {
        assert(pairs == spec_pd_pair_count(h as int));
    }
    let ghost base = tones@;
    proof {
        assert(spec_pd_pairs(img.spec_data(), img.spec_width(), img.spec_height(), 0) =~= Seq::<Tone>::empty());
        assert(tones@ =~= base + spec_pd_pairs(img.spec_data(), img.spec_width(), img.spec_height(), 0));
    }
    for k in 0..pairs
        invariant
            img.wf(),
            h == img.spec_height(),
            pairs == spec_pd_pair_count(h as int),
            tones@ == base + spec_pd_pairs(img.spec_data(), img.spec_width(), img.spec_height(), k as int),
            spec_tones_wf(tones@),
    {
        let y = 2 * k;
        proof {
            assert(y < h);
        }
        tones.push(make_fixed_tone(1200, PD_SYNC_UNITS));
        tones.push(make_fixed_tone(1500, PD_PORCH_UNITS));
        append_luma_scan(tones, img, y, PD_PIXEL_UNITS);
        append_ry_scan(tones, img, y, PD_PIXEL_UNITS);
        append_by_scan(tones, img, y, PD_PIXEL_UNITS);
        if y + 1 < h {
            append_luma_scan(tones, img, y + 1, PD_PIXEL_UNITS);
        }
        proof {
            assert(tones@ =~= base + spec_pd_pairs(img.spec_data(), img.spec_width(), img.spec_height(), k + 1));
        }
    }
}

/// One Martin row: sync, separator, then the green, blue and red channel
/// scans, each followed by a separator.
pub open spec fn spec_martin_row(data: Seq<u8>, w: int, y: int) -> Seq<Tone> {
    seq![
        spec_fixed_tone(1200, MARTIN_SYNC_UNITS as int),
        spec_fixed_tone(1500, MARTIN_SEP_UNITS as int),
    ] + spec_raw_scan(data, w, y, 1, MARTIN_PIXEL_UNITS as int) + seq![
        spec_fixed_tone(1500, MARTIN_SEP_UNITS as int),
    ] + spec_raw_scan(data, w, y, 2, MARTIN_PIXEL_UNITS as int) + seq![
        spec_fixed_tone(1500, MARTIN_SEP_UNITS as int),
    ] + spec_raw_scan(data, w, y, 0, MARTIN_PIXEL_UNITS as int) + seq![
        spec_fixed_tone(1500, MARTIN_SEP_UNITS as int),
    ]
}

/// The first `n` Martin rows.
pub open spec fn spec_martin_rows(data: Seq<u8>, w: int, n: int) -> Seq<Tone>
    decreases n,
{
    if n <= 0 {
        Seq::empty()
    } else {
        spec_martin_rows(data, w, n - 1) + spec_martin_row(data, w, n - 1)
    }
}

/// The Martin scan: every row in order.
pub open spec fn spec_martin_tones(data: Seq<u8>, w: int, h: int) -> Seq<Tone> {
    spec_martin_rows(data, w, h)
}

/// Appends the Martin scan of `img`.
pub fn append_martin_tones(tones: &mut Vec<Tone>, img: &RgbBuffer)
    requires
        img.wf(),
        spec_tones_wf(old(tones)@),
    ensures
        final(tones)@ == old(tones)@ + spec_martin_tones(img.spec_data(), img.spec_width(), img.spec_height()),
        spec_tones_wf(final(tones)@),
{
    let h = img.height();
    let ghost base = tones@;
    proof {
        assert(spec_martin_rows(img.spec_data(), img.spec_width(), 0) =~= Seq::<Tone>::empty());
        assert(tones@ =~= base + spec_martin_rows(img.spec_data(), img.spec_width(), 0));
    }
    for y in 0..h
        invariant
            img.wf(),
            h == img.spec_height(),
            tones@ == base + spec_martin_rows(img.spec_data(), img.spec_width(), y as int),
            spec_tones_wf(tones@),
    {
        tones.push(make_fixed_tone(1200, MARTIN_SYNC_UNITS));
        tones.push(make_fixed_tone(1500, MARTIN_SEP_UNITS));
        append_raw_scan(tones, img, y, 1, MARTIN_PIXEL_UNITS);
        tones.push(make_fixed_tone(1500, MARTIN_SEP_UNITS));
        append_raw_scan(tones, img, y, 2, MARTIN_PIXEL_UNITS);
        tones.push(make_fixed_tone(1500, MARTIN_SEP_UNITS));
        append_raw_scan(tones, img, y, 0, MARTIN_PIXEL_UNITS);
        tones.push(make_fixed_tone(1500, MARTIN_SEP_UNITS));
        proof {
            assert(tones@ =~= base + spec_martin_rows(img.spec_data(), img.spec_width(), y + 1));
        }
    }
}

/// The scan tone sequence of `img` in the given mode.
pub open spec fn spec_scan_tones(mode: SstvMode, data: Seq<u8>, w: int, h: int) -> Seq<Tone> {
    match mode {
        SstvMode::ScottieDx => spec_scottie_tones(data, w, h),
        SstvMode::Robot36 => spec_robot_tones(data, w, h),
        SstvMode::Pd120 => spec_pd_tones(data, w, h),
        SstvMode::MartinM1 => spec_martin_tones(data, w, h),
    }
}

/// Appends the scan of `img` in the given mode.
pub fn append_scan_tones(mode: SstvMode, tones: &mut Vec<Tone>, img: &RgbBuffer)
    requires
        img.wf(),
        spec_tones_wf(old(tones)@),
    ensures
        final(tones)@ == old(tones)@ + spec_scan_tones(mode, img.spec_data(), img.spec_width(), img.spec_height()),
        spec_tones_wf(final(tones)@),
{
    match mode {
        SstvMode::ScottieDx => append_scottie_tones(tones, img),
        SstvMode::Robot36 => append_robot_tones(tones, img),
        SstvMode::Pd120 => append_pd_tones(tones, img),
        SstvMode::MartinM1 => append_martin_tones(tones, img),
    }
}


} // verus!
