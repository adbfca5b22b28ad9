use sstv_rust::tone::{PlannedTone, FREQ_UNITS_PER_HZ};
use sstv_rust::{RgbBuffer, SstvMode, SstvModulator};

fn black_image(w: u32, h: u32) -> RgbBuffer {
    RgbBuffer::from_raw(w, h, vec![0u8; (3 * w * h) as usize]).unwrap()
}

fn white_image(w: u32, h: u32) -> RgbBuffer {
    RgbBuffer::from_raw(w, h, vec![255u8; (3 * w * h) as usize]).unwrap()
}

fn patterned_image(w: u32, h: u32) -> RgbBuffer {
    let mut data = Vec::new();
    for y in 0..h {
        for x in 0..w {
            data.push(((x * 31 + y * 17) % 256) as u8);
            data.push(((x * 7 + y * 101) % 256) as u8);
            data.push(((x * 151 + y * 3) % 256) as u8);
        }
    }
    RgbBuffer::from_raw(w, h, data).unwrap()
}

fn fixed_freq(hz: u128) -> u128 {
    hz * FREQ_UNITS_PER_HZ
}

/// Frequency of a black luminance scan tone:
/// 1500 + (16 + 0.003906 * 0) * 3.1372549 Hz, exactly.
const BLACK_LUMA_FREQ: u128 = 31003921568000000000;

/// Frequency of a black averaged chrominance scan tone:
/// 1500 + 128 * 3.1372549 Hz, exactly.
const BLACK_CHROMA_FREQ: u128 = 38031372544000000000;

#[test]
fn test_robot36_black_end_to_end() {
    let img = black_image(320, 240);
    let mut modulator = SstvModulator::new(SstvMode::Robot36).with_sample_rate(16000);
    let plan = modulator.modulate_image(&img).unwrap();

    // 39.01 s at 16000 Hz: 200 ms silence twice, 1710 ms VIS, 36 s scan,
    // 900 ms end tones.
    assert_eq!(modulator.get_total_samples(), 624160);
    let sum: u64 = plan.iter().map(|t| t.n_samples).sum();
    assert_eq!(sum, 624160);

    // One tone per entry: silence, 21 VIS tones, 240 rows of
    // sync + porch + 320 luminance + separator + porch + 320 chrominance,
    // five end tones, silence.
    assert_eq!(plan.len(), 1 + 21 + 240 * 644 + 5 + 1);

    // Every scan tone frequency equals the literal formula output for black;
    // Y maps to 16 and the color differences map to 128, not to zero.
    let mut luma = 0u64;
    let mut chroma = 0u64;
    for t in &plan {
        if t.freq_units == BLACK_LUMA_FREQ {
            luma += 1;
        } else if t.freq_units == BLACK_CHROMA_FREQ {
            chroma += 1;
        } else {
            let hz_units = t.freq_units;
            assert!(
                hz_units == 0
                    || hz_units == fixed_freq(1100)
                    || hz_units == fixed_freq(1200)
                    || hz_units == fixed_freq(1300)
                    || hz_units == fixed_freq(1500)
                    || hz_units == fixed_freq(1900)
                    || hz_units == fixed_freq(2300),
                "unexpected tone frequency"
            );
        }
    }
    assert_eq!(luma, 240 * 320);
    assert_eq!(chroma, 240 * 320);
}

#[test]
fn test_vis_header_tone_sequence() {
    let img = black_image(320, 240);
    let mut modulator = SstvModulator::new(SstvMode::Robot36).with_sample_rate(16000);
    let plan = modulator.modulate_image(&img).unwrap();

    // Leading silence at frequency zero.
    assert_eq!(plan[0].freq_units, 0);
    assert_eq!(plan[0].n_samples, 3200);

    // Preamble: eight 100 ms leader tones, then the 1900/1200 Hz lead-in.
    let preamble_hz: [u128; 12] =
        [1900, 1500, 1900, 1500, 2300, 1500, 2300, 1500, 1900, 1200, 1900, 1200];
    for (i, hz) in preamble_hz.iter().enumerate() {
        assert_eq!(plan[1 + i].freq_units, fixed_freq(*hz));
    }
    assert_eq!(plan[1].n_samples, 1600);

    // The code 0001000 is emitted from index 6 down to index 0: a single
    // 1100 Hz bit where the '1' sits, 1300 Hz elsewhere.
    let bit_hz: [u128; 7] = [1300, 1300, 1300, 1100, 1300, 1300, 1300];
    for (i, hz) in bit_hz.iter().enumerate() {
        assert_eq!(plan[13 + i].freq_units, fixed_freq(*hz));
        assert_eq!(plan[13 + i].n_samples, 480);
    }

    // One '1' bit: odd count, so the even-parity bit is 1100 Hz.
    assert_eq!(plan[20].freq_units, fixed_freq(1100));
    // Stop bit.
    assert_eq!(plan[21].freq_units, fixed_freq(1200));
}

#[test]
fn test_parity_bit_all_modes() {
    // The parity tone follows the preamble (12 tones) and the 7 data bits,
    // behind the opening silence: plan index 20. PD120's code 1011111 holds
    // six '1' bits, an even count, and alone gets 1300 Hz.
    let cases = [
        (SstvMode::ScottieDx, 1100u128),
        (SstvMode::Robot36, 1100),
        (SstvMode::Pd120, 1300),
        (SstvMode::MartinM1, 1100),
    ];
    for (mode, hz) in cases {
        let img = black_image(8, 8);
        let mut modulator = SstvModulator::new(mode);
        let plan = modulator.modulate_image(&img).unwrap();
        assert_eq!(plan[20].freq_units, fixed_freq(hz), "parity bit of {:?}", mode);
    }
}

#[test]
fn test_total_sample_counts_all_modes() {
    // Full-run totals at the default 6000 Hz rate: the exact run duration
    // of each mode times the rate, rounded down; the fractional carry keeps
    // the total within one sample of exact.
    let cases = [
        (SstvMode::ScottieDx, 1631374u64),
        (SstvMode::Robot36, 234060),
        (SstvMode::Pd120, 774678),
        (SstvMode::MartinM1, 703801),
    ];
    for (mode, expected) in cases {
        let img = patterned_image(8, 8);
        let mut modulator = SstvModulator::new(mode);
        modulator.modulate_image(&img).unwrap();
        assert_eq!(modulator.get_total_samples(), expected, "total samples of {:?}", mode);
    }
}

#[test]
fn test_deterministic_runs() {
    // Two runs with identical input image and mode produce identical plans.
    let img_a = patterned_image(50, 40);
    let img_b = patterned_image(50, 40);
    let mut first = SstvModulator::new(SstvMode::MartinM1);
    let mut second = SstvModulator::new(SstvMode::MartinM1);
    let plan_a = first.modulate_image(&img_a).unwrap();
    let plan_b = second.modulate_image(&img_b).unwrap();
    assert_eq!(plan_a, plan_b);

    // And a repeated run on the same modulator.
    let plan_c = first.modulate_image(&img_b).unwrap();
    assert_eq!(plan_a, plan_c);
}

#[test]
fn test_phase_continuity() {
    // Synthesizes the Robot36 plan and checks that at every tone boundary
    // the first phase of the next tone reproduces the final sample value of
    // the previous one: sin(phi) == previous value, within floating-point
    // tolerance.
    let img = black_image(320, 240);
    let rate = 16000u32;
    let mut modulator = SstvModulator::new(SstvMode::Robot36).with_sample_rate(rate);
    let plan = modulator.modulate_image(&img).unwrap();

    let mut older_data = 0.0f64;
    let mut older_cos = 1.0f64;
    let mut emitted = 0u64;
    for t in &plan {
        let freq = (t.freq_units as f64) / (FREQ_UNITS_PER_HZ as f64);
        let phi = if t.explicit_zero_phase {
            0.0
        } else {
            let sign = if older_cos >= 0.0 { 1.0f64 } else { -1.0f64 };
            let quadrant = (sign - 1.0f64).abs() / 2.0;
            sign * older_data.asin() + quadrant * std::f64::consts::PI
        };
        assert!(
            (phi.sin() - older_data).abs() < 1e-9,
            "phase discontinuity at sample {}",
            emitted
        );
        emitted += t.n_samples;
        let final_phase =
            2.0 * std::f64::consts::PI * freq * (t.n_samples as f64) / (rate as f64) + phi;
        older_data = final_phase.sin();
        older_cos = final_phase.cos();
    }
    assert_eq!(emitted, 624160);
}

#[test]
fn test_scottie_zero_phase_sync() {
    // Only the very first Scottie sync pulse restarts the phase at zero;
    // it stands right after the silence and the 21 VIS tones.
    let img = black_image(8, 8);
    let mut modulator = SstvModulator::new(SstvMode::ScottieDx);
    let plan = modulator.modulate_image(&img).unwrap();
    let flagged: Vec<usize> =
        (0..plan.len()).filter(|&i| plan[i].explicit_zero_phase).collect();
    assert_eq!(flagged, vec![22]);
    assert_eq!(plan[22].freq_units, fixed_freq(1200));

    let mut other = SstvModulator::new(SstvMode::Robot36);
    let plan = other.modulate_image(&img).unwrap();
    assert!(plan.iter().all(|t| !t.explicit_zero_phase));
}

#[test]
fn test_fit_metadata_wide_source() {
    // A 100 x 75 source on the 320 x 256 Scottie canvas: the width binds,
    // the scale is exactly 320/100, the image fills 320 x 240 and is
    // letterboxed with 8 black rows above and below.
    let img = patterned_image(100, 75);
    let mut modulator = SstvModulator::new(SstvMode::ScottieDx);
    modulator.modulate_image(&img).unwrap();
    let meta = modulator.get_processing_metadata().unwrap();
    assert_eq!(meta.original_dimensions, (100, 75));
    assert_eq!(meta.target_dimensions, (320, 256));
    assert_eq!((meta.scale_num, meta.scale_den), (320, 100));
    assert_eq!(meta.black_bars, (0, 8, 0, 8));
}

#[test]
fn test_fit_metadata_tall_source() {
    // A 75 x 100 source on the same canvas: the height binds, the scale is
    // 256/100, the image fills 192 x 256 with 64 black columns on each side.
    let img = patterned_image(75, 100);
    let mut modulator = SstvModulator::new(SstvMode::ScottieDx);
    modulator.modulate_image(&img).unwrap();
    let meta = modulator.get_processing_metadata().unwrap();
    assert_eq!(meta.original_dimensions, (75, 100));
    assert_eq!((meta.scale_num, meta.scale_den), (256, 100));
    assert_eq!(meta.black_bars, (64, 0, 64, 0));
    // The margins and the scaled image always add up to the canvas.
    let (left, top, right, bottom) = meta.black_bars;
    assert_eq!(left + (320 - left - right) + right, 320);
    assert_eq!(top + (256 - top - bottom) + bottom, 256);
}

#[test]
fn test_resampling_reaches_canvas() {
    // A tiny all-white source upscaled onto the Robot36 canvas: the
    // resampled pixels stay white. A fitter that pasted the raw source
    // bytes unscaled would leave the canvas center black.
    let img = white_image(4, 3);
    let mut modulator = SstvModulator::new(SstvMode::Robot36);
    modulator.modulate_image(&img).unwrap();
    let fitted = modulator.get_processed_image().unwrap();
    assert_eq!(fitted.width(), 320);
    assert_eq!(fitted.height(), 240);
    assert_eq!(fitted.get_pixel(160, 120), (255, 255, 255));
    assert_eq!(fitted.get_pixel(5, 5), (255, 255, 255));
}

#[test]
fn test_memory_management() {
    let img = black_image(8, 8);
    let mut modulator = SstvModulator::new(SstvMode::Robot36);
    modulator.modulate_image(&img).unwrap();
    let usage = modulator.get_memory_usage();
    assert_eq!(usage.audio_samples_bytes, 2 * modulator.get_total_samples() as usize);
    assert_eq!(usage.processed_image_bytes, 320 * 240 * 3);
    assert_eq!(
        usage.total_bytes,
        usage.audio_samples_bytes + usage.processed_image_bytes + usage.metadata_bytes
    );
    assert!(modulator.should_clear_memory(0));
    assert!(!modulator.should_clear_memory(1000000));

    modulator.auto_memory_management(1000000);
    assert!(modulator.get_processed_image().is_some());

    modulator.auto_memory_management(0);
    assert!(modulator.get_processed_image().is_none());
    assert!(modulator.get_processing_metadata().is_none());
    assert_eq!(modulator.get_total_samples(), 0);
    assert!(modulator.get_plan().is_empty());
}

#[test]
fn test_clear_and_rate_handling() {
    let img = black_image(8, 8);
    let mut modulator = SstvModulator::new(SstvMode::Pd120);
    assert_eq!(modulator.get_sample_rate(), 6000);
    assert!(matches!(modulator.get_mode(), SstvMode::Pd120));
    modulator.modulate_image(&img).unwrap();

    modulator.clear_audio_memory();
    assert!(modulator.get_plan().is_empty());
    assert!(modulator.get_processed_image().is_some());

    modulator.clear_image_memory();
    assert!(modulator.get_processed_image().is_none());

    modulator.modulate_image(&img).unwrap();
    modulator.clear_memory();
    assert!(modulator.get_plan().is_empty());
    assert!(modulator.get_processed_image().is_none());

    let modulator = SstvModulator::new(SstvMode::Pd120).with_sample_rate(8000);
    assert_eq!(modulator.get_sample_rate(), 8000);
    assert!(matches!(modulator.get_mode(), SstvMode::Pd120));
}

#[test]
fn test_martin_channel_order() {
    // One Martin row is sync, separator, then green, blue and red channel
    // scans each closed by a separator. With a pure red source every
    // channel value is 0 except the red scan's 255.
    let w = 320u32;
    let mut data = Vec::new();
    for _ in 0..(w * 256) {
        data.push(255u8);
        data.push(0u8);
        data.push(0u8);
    }
    let img = RgbBuffer::from_raw(w, 256, data).unwrap();
    let mut modulator = SstvModulator::new(SstvMode::MartinM1);
    let plan = modulator.modulate_image(&img).unwrap();

    // Row layout after silence and VIS: index 22 starts the first row.
    let zero_freq: u128 = 1500 * FREQ_UNITS_PER_HZ;
    let red_freq: u128 = 1500 * FREQ_UNITS_PER_HZ + 2 * 1000000000 * 255 * 31372549;
    let row = &plan[22..22 + 2 + 3 * (w as usize + 1)];
    assert_eq!(row[0].freq_units, fixed_freq(1200));
    assert_eq!(row[1].freq_units, fixed_freq(1500));
    // Green scan: value 0 maps to exactly 1500 Hz.
    assert!(row[2..2 + w as usize].iter().all(|t| t.freq_units == zero_freq));
    assert_eq!(row[2 + w as usize].freq_units, fixed_freq(1500));
    // Blue scan: also zero.
    assert!(row[3 + w as usize..3 + 2 * w as usize].iter().all(|t| t.freq_units == zero_freq));
    // Red scan: 255 maps to 1500 + 255 * 3.1372549 Hz.
    assert!(
        row[4 + 2 * w as usize..4 + 3 * w as usize].iter().all(|t| t.freq_units == red_freq)
    );
}

#[test]
fn test_plan_entries_are_value_types() {
    let a = PlannedTone { freq_units: 7, n_samples: 3, explicit_zero_phase: false };
    let b = a;
    assert_eq!(a, b);
}
