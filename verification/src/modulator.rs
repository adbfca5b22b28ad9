use vstd::prelude::*;
use crate::error::SstvError;
use crate::fit::{fit_image, spec_fitted_channel, spec_fit_wide, spec_offset_x, spec_offset_y, spec_scaled_w, spec_scaled_h};
use crate::image_buf::{lemma_channels_determine_data, RgbBuffer};
use crate::mode::SstvMode;
use crate::scan::{append_scan_tones, spec_scan_tones};
use crate::timing::{
    lemma_martin_duration, lemma_pd_duration, lemma_robot_duration, lemma_scottie_duration,
    lemma_seq_duration_add, lemma_tones_wf_add, lemma_vis_duration,
};
use crate::tone::{
    make_fixed_tone, plan_samples, spec_fixed_tone, spec_plan, spec_plan_total, spec_seq_duration,
    spec_tones_wf, PlannedTone, Tone, TIME_UNITS_PER_SECOND,
};
use crate::vis::{append_vis_tones, spec_vis_tones};

verus! {

/// Duration of the silence before and after a transmission, in time units
/// (200 ms).
pub const SILENCE_UNITS: u64 = 2000000;

/// Nominal in-memory size of one metadata record, in bytes, used by the
/// advisory memory accounting.
pub const METADATA_FOOTPRINT_BYTES: usize = 96;

/// The five end tones closing a transmission.
pub open spec fn spec_end_tones() -> Seq<Tone> {
    seq![
        spec_fixed_tone(1500, 5000000),
        spec_fixed_tone(1900, 1000000),
        spec_fixed_tone(1500, 1000000),
        spec_fixed_tone(1900, 1000000),
        spec_fixed_tone(1500, 1000000),
    ]
}

/// The whole tone sequence of one modulation run over a fitted image:
/// silence, VIS header, mode scan, end tones, silence. The silence keeps
/// frequency zero; the synthesizer still applies the phase-continuity rule
/// to it, so silence is not forced to a flat zero line.
pub open spec fn spec_run_tones(mode: SstvMode, data: Seq<u8>, w: int, h: int) -> Seq<Tone> {
    seq![spec_fixed_tone(0, SILENCE_UNITS as int)] + spec_vis_tones(mode.spec_vis_code())
        + spec_scan_tones(mode, data, w, h) + spec_end_tones() + seq![
        spec_fixed_tone(0, SILENCE_UNITS as int),
    ]
}

/// Exact duration in time units of a full run of each mode over its own
/// canvas: 200 ms silence twice, 1710 ms of VIS header, the scan itself and
/// 900 ms of end tones.
pub open spec fn spec_run_duration_units(mode: SstvMode) -> int {
    match mode {
        SstvMode::ScottieDx => 2718958000,
        SstvMode::Robot36 => 390100000,
        SstvMode::Pd120 => 1291130400,
        SstvMode::MartinM1 => 1173001760,
    }
}

/// A full run over the mode's own canvas lasts exactly the mode's run
/// duration, and every tone of it is well-formed.
pub proof fn lemma_run_properties(mode: SstvMode, data: Seq<u8>, w: int, h: int)
    requires
        w == mode.spec_width(),
        h == mode.spec_height(),
    ensures
        spec_seq_duration(spec_run_tones(mode, data, w, h)) == spec_run_duration_units(mode),
        spec_tones_wf(spec_run_tones(mode, data, w, h)),
{
    let silence = seq![spec_fixed_tone(0, SILENCE_UNITS as int)];
    let vis = spec_vis_tones(mode.spec_vis_code());
    let scan = spec_scan_tones(mode, data, w, h);
    let end = spec_end_tones();
    reveal_with_fuel(spec_seq_duration, 6);
    assert(spec_seq_duration(silence) == 2000000);
    assert(spec_tones_wf(silence));
    assert(spec_seq_duration(end) == 9000000);
    assert(spec_tones_wf(end));
    lemma_vis_duration(mode.spec_vis_code());
    match mode {
        SstvMode::ScottieDx => lemma_scottie_duration(data, w, h),
        SstvMode::Robot36 => lemma_robot_duration(data, w, h),
        SstvMode::Pd120 => lemma_pd_duration(data, w, h),
        SstvMode::MartinM1 => lemma_martin_duration(data, w, h),
    }
    lemma_seq_duration_add(silence, vis);
    lemma_seq_duration_add(silence + vis, scan);
    lemma_seq_duration_add(silence + vis + scan, end);
    lemma_seq_duration_add(silence + vis + scan + end, silence);
    lemma_tones_wf_add(silence, vis);
    lemma_tones_wf_add(silence + vis, scan);
    lemma_tones_wf_add(silence + vis + scan, end);
    lemma_tones_wf_add(silence + vis + scan + end, silence);
}

/// Drift-free total sample count: the plan of a full run holds exactly
/// `rate * duration / 10^7` samples, rounded down, whatever the sample rate;
/// the fractional carry keeps the error below one sample over the whole run.
pub proof fn lemma_total_sample_count(
    mode: SstvMode,
    data: Seq<u8>,
    w: int,
    h: int,
    rate: u32,
)
    requires
        w == mode.spec_width(),
        h == mode.spec_height(),
    ensures
        spec_plan_total(spec_plan(rate as int, spec_run_tones(mode, data, w, h))) == rate
            * spec_run_duration_units(mode) / (TIME_UNITS_PER_SECOND as int),
        0 <= rate * spec_run_duration_units(mode) - TIME_UNITS_PER_SECOND * spec_plan_total(
            spec_plan(rate as int, spec_run_tones(mode, data, w, h)),
        ) < TIME_UNITS_PER_SECOND,
{
    lemma_run_properties(mode, data, w, h);
    crate::tone::lemma_plan_conservation(rate as int, spec_run_tones(mode, data, w, h));
    crate::tone::lemma_carry_bounds(rate as int, spec_run_tones(mode, data, w, h));
}

/// Whether `img` is the fitted canvas of `src` for `mode`: the mode's own
/// dimensions, with every channel as the fitting stage computes it.
pub open spec fn spec_is_fitted(src: RgbBuffer, mode: SstvMode, img: RgbBuffer) -> bool {
    &&& img.wf()
    &&& img.spec_width() == mode.spec_width()
    &&& img.spec_height() == mode.spec_height()
    &&& forall|x: int, y: int, c: int|
        0 <= x < mode.spec_width() && 0 <= y < mode.spec_height() && 0 <= c < 3
            ==> img.spec_channel(x, y, c) == spec_fitted_channel(
            src,
            mode.spec_width() as int,
            mode.spec_height() as int,
            x,
            y,
            c,
        )
}

/// Round-trip determinism: two fitted canvases of the same source image in
/// the same mode hold the same bytes, so two runs with identical input
/// produce identical modulation plans, whatever the sample rate.
pub proof fn lemma_modulation_deterministic(
    src: RgbBuffer,
    mode: SstvMode,
    rate: u32,
    a: RgbBuffer,
    b: RgbBuffer,
)
    requires
        spec_is_fitted(src, mode, a),
        spec_is_fitted(src, mode, b),
    ensures
        a.spec_data() == b.spec_data(),
        spec_plan(
            rate as int,
            spec_run_tones(mode, a.spec_data(), a.spec_width(), a.spec_height()),
        ) == spec_plan(
            rate as int,
            spec_run_tones(mode, b.spec_data(), b.spec_width(), b.spec_height()),
        ),
{
    lemma_channels_determine_data(a, b);
}

/// Builds the complete tone sequence of one run of `mode` over the fitted
/// image `img`.
pub fn build_run_tones(mode: SstvMode, img: &RgbBuffer) -> (r: Vec<Tone>)
    requires
        img.wf(),
    ensures
        r@ == spec_run_tones(mode, img.spec_data(), img.spec_width(), img.spec_height()),
        spec_tones_wf(r@),
{
    let mut tones: Vec<Tone> = Vec::new();
    proof {
        assert(spec_tones_wf(tones@));
    }
    tones.push(make_fixed_tone(0, SILENCE_UNITS));
    append_vis_tones(mode, &mut tones);
    append_scan_tones(mode, &mut tones, img);
    tones.push(make_fixed_tone(1500, 5000000));
    tones.push(make_fixed_tone(1900, 1000000));
    tones.push(make_fixed_tone(1500, 1000000));
    tones.push(make_fixed_tone(1900, 1000000));
    tones.push(make_fixed_tone(1500, 1000000));
    tones.push(make_fixed_tone(0, SILENCE_UNITS));
    proof {
        assert(tones@ =~= spec_run_tones(
            mode,
            img.spec_data(),
            img.spec_width(),
            img.spec_height(),
        ));
    }
    tones
}

/// Fit metadata recorded for one modulation run: the original and target
/// dimensions, the exact scale ratio, the four black margins (left, top,
/// right, bottom) and a timestamp.
#[derive(Debug)]
pub struct ProcessingMetadata {
    /// Dimensions of the source image.
    pub original_dimensions: (u32, u32),
    /// Dimensions of the mode's canvas.
    pub target_dimensions: (u32, u32),
    /// The mode the run used.
    pub sstv_mode: SstvMode,
    /// Numerator of the exact scale factor.
    pub scale_num: u32,
    /// Denominator of the exact scale factor.
    pub scale_den: u32,
    /// Black margins: left, top, right, bottom.
    pub black_bars: (u32, u32, u32, u32),
    /// When the run was processed.
    pub processing_timestamp: String,
}

/// Advisory memory accounting of one modulator, in bytes.
#[derive(Debug, Clone)]
pub struct MemoryUsage {
    /// Bytes held by audio samples.
    pub audio_samples_bytes: usize,
    /// Bytes held by the processed image.
    pub processed_image_bytes: usize,
    /// Bytes held by the metadata record.
    pub metadata_bytes: usize,
    /// Total of the three.
    pub total_bytes: usize,
}

/// Clips a byte count to what a machine word can hold.
pub open spec fn spec_sat_usize(x: int) -> int {
    if x <= usize::MAX {
        x
    } else {
        usize::MAX as int
    }
}

/// Relies on chrono::Utc::now: the moment of the call, formatted as
/// year month day, an underscore, then hour minute second. The result
/// depends on the clock, so nothing is assumed of it.
#[verifier::external_body]
fn now_timestamp() -> String {
    chrono::Utc::now().format("%Y%m%d_%H%M%S").to_string()
}

/// One modulation run: fits a source image onto the mode's canvas, encodes
/// the VIS header and the scan, and assigns each tone its sample count.
pub struct SstvModulator {
    mode: SstvMode,
    sample_rate: u32,
    plan: Vec<PlannedTone>,
    total_samples: u64,
    processed_image: Option<RgbBuffer>,
    processing_metadata: Option<ProcessingMetadata>,
}

impl SstvModulator {
    /// The modulator's mode.
    pub closed spec fn spec_mode(self) -> SstvMode {
        self.mode
    }

    /// The modulator's sample rate, in Hz.
    pub closed spec fn spec_sample_rate(self) -> u32 {
        self.sample_rate
    }

    /// The current modulation plan, one entry per tone.
    pub closed spec fn spec_plan_tones(self) -> Seq<PlannedTone> {
        self.plan@
    }

    /// The total sample count of the current plan.
    pub closed spec fn spec_total_samples(self) -> u64 {
        self.total_samples
    }

    /// The fitted image of the last run, if one completed.
    pub closed spec fn spec_processed_image(self) -> Option<RgbBuffer> {
        self.processed_image
    }

    /// The metadata of the last run, if one completed.
    pub closed spec fn spec_metadata(self) -> Option<ProcessingMetadata> {
        self.processing_metadata
    }

    /// Bytes the audio plan stands for: two per sample, clipped.
    pub open spec fn spec_audio_bytes(self) -> int {
        spec_sat_usize(2 * self.spec_total_samples())
    }

    /// Bytes held by the processed image.
    pub open spec fn spec_image_bytes(self) -> int {
        match self.spec_processed_image() {
            Some(img) => img.spec_data().len() as int,
            None => 0,
        }
    }

    /// Total advisory byte count.
    pub open spec fn spec_total_bytes(self) -> int {
        spec_sat_usize(
            self.spec_audio_bytes() + self.spec_image_bytes() + METADATA_FOOTPRINT_BYTES,
        )
    }

    /// Builds a modulator for `mode` at the default sample rate.
    pub fn new(mode: SstvMode) -> (r: Self)
        ensures
            r.spec_mode() == mode,
            r.spec_sample_rate() == crate::DEFAULT_SAMPLE_RATE,
            r.spec_plan_tones() == Seq::<PlannedTone>::empty(),
            r.spec_total_samples() == 0,
            r.spec_processed_image() is None,
            r.spec_metadata() is None,
    {
        let r = SstvModulator {
            mode,
            sample_rate: crate::DEFAULT_SAMPLE_RATE,
            plan: Vec::new(),
            total_samples: 0,
            processed_image: None,
            processing_metadata: None,
        };
        proof {
            assert(r.spec_plan_tones() =~= Seq::<PlannedTone>::empty());
        }
        r
    }

    /// Replaces the sample rate, discarding any plan already built at the
    /// old rate.
    pub fn with_sample_rate(self, sample_rate: u32) -> (r: Self)
        ensures
            r.spec_mode() == self.spec_mode(),
            r.spec_sample_rate() == sample_rate,
            r.spec_plan_tones() == Seq::<PlannedTone>::empty(),
            r.spec_total_samples() == 0,
            r.spec_processed_image() == self.spec_processed_image(),
            r.spec_metadata() == self.spec_metadata(),
    {
        let r = SstvModulator {
            mode: self.mode,
            sample_rate,
            plan: Vec::new(),
            total_samples: 0,
            processed_image: self.processed_image,
            processing_metadata: self.processing_metadata,
        };
        proof {
            assert(r.spec_plan_tones() =~= Seq::<PlannedTone>::empty());
        }
        r
    }

    /// Modulates one image: fits it onto the mode's canvas, builds the full
    /// tone sequence of the run (silence, VIS header, scan, end tones,
    /// silence) and assigns every tone its sample count, carrying the
    /// fractional sample error forward. Returns the plan, which is also
    /// retained together with the fitted image and the fit metadata.
    pub fn modulate_image(&mut self, image: &RgbBuffer) -> (r: Result<Vec<PlannedTone>, SstvError>)
        requires
            image.wf(),
            1 <= image.spec_width(),
            1 <= image.spec_height(),
        ensures
            r is Ok,
            final(self).spec_mode() == old(self).spec_mode(),
            final(self).spec_sample_rate() == old(self).spec_sample_rate(),
            final(self).spec_processed_image() matches Some(img) && {
                &&& spec_is_fitted(*image, old(self).spec_mode(), img)
                &&& final(self).spec_plan_tones() == spec_plan(
                    old(self).spec_sample_rate() as int,
                    spec_run_tones(
                        old(self).spec_mode(),
                        img.spec_data(),
                        img.spec_width(),
                        img.spec_height(),
                    ),
                )
            },
            final(self).spec_total_samples() == spec_plan_total(final(self).spec_plan_tones()),
            r matches Ok(p) && p@ == final(self).spec_plan_tones(),
            final(self).spec_metadata() matches Some(m) && {
                &&& m.original_dimensions == (
                    image.spec_width() as u32,
                    image.spec_height() as u32,
                )
                &&& m.target_dimensions == (
                    old(self).spec_mode().spec_width(),
                    old(self).spec_mode().spec_height(),
                )
                &&& m.sstv_mode == old(self).spec_mode()
                &&& m.black_bars.0 == spec_offset_x(
                    image.spec_width(),
                    image.spec_height(),
                    old(self).spec_mode().spec_width() as int,
                    old(self).spec_mode().spec_height() as int,
                )
                &&& m.black_bars.1 == spec_offset_y(
                    image.spec_width(),
                    image.spec_height(),
                    old(self).spec_mode().spec_width() as int,
                    old(self).spec_mode().spec_height() as int,
                )
                &&& m.black_bars.0 + spec_scaled_w(
                    image.spec_width(),
                    image.spec_height(),
                    old(self).spec_mode().spec_width() as int,
                    old(self).spec_mode().spec_height() as int,
                ) + m.black_bars.2 == old(self).spec_mode().spec_width()
                &&& m.black_bars.1 + spec_scaled_h(
                    image.spec_width(),
                    image.spec_height(),
                    old(self).spec_mode().spec_width() as int,
                    old(self).spec_mode().spec_height() as int,
                ) + m.black_bars.3 == old(self).spec_mode().spec_height()
                &&& spec_fit_wide(
                    image.spec_width(),
                    image.spec_height(),
                    old(self).spec_mode().spec_width() as int,
                    old(self).spec_mode().spec_height() as int,
                ) ==> m.scale_num == old(self).spec_mode().spec_width() && m.scale_den
                    == image.spec_width()
                &&& !spec_fit_wide(
                    image.spec_width(),
                    image.spec_height(),
                    old(self).spec_mode().spec_width() as int,
                    old(self).spec_mode().spec_height() as int,
                ) ==> m.scale_num == old(self).spec_mode().spec_height() && m.scale_den
                    == image.spec_height()
            },
    {
        let (target_w, target_h) = self.mode.get_dimensions();
        proof {
            match self.mode {
                SstvMode::ScottieDx => assert(target_w <= 640 && target_h <= 496),
                SstvMode::Robot36 => assert(target_w <= 640 && target_h <= 496),
                SstvMode::Pd120 => assert(target_w <= 640 && target_h <= 496),
                SstvMode::MartinM1 => assert(target_w <= 640 && target_h <= 496),
            }
            assert(3 * target_w * target_h <= 1000000) by (nonlinear_arith)
                requires
                    target_w <= 640,
                    target_h <= 496,
            ;
        }
        let fit = fit_image(image, target_w, target_h);
        let fitted = fit.0;
        let geo = fit.1;
        let metadata = ProcessingMetadata {
            original_dimensions: (image.width(), image.height()),
            target_dimensions: (target_w, target_h),
            sstv_mode: self.mode,
            scale_num: geo.scale_num,
            scale_den: geo.scale_den,
            black_bars: (geo.offset_x, geo.offset_y, geo.margin_right, geo.margin_bottom),
            processing_timestamp: now_timestamp(),
        };
        let tones = build_run_tones(self.mode, &fitted);
        proof {
            lemma_run_properties(
                self.mode,
                fitted.spec_data(),
                fitted.spec_width(),
                fitted.spec_height(),
            );
            assert(spec_run_duration_units(self.mode) <= 2718958000);
            vstd::arithmetic::mul::lemma_mul_upper_bound(
                self.sample_rate as int,
                u32::MAX as int,
                spec_seq_duration(tones@),
                2718958000,
            );
        }
        let planned = plan_samples(self.sample_rate, &tones);
        self.plan = planned.0;
        self.total_samples = planned.1;
        self.processed_image = Some(fitted);
        self.processing_metadata = Some(metadata);
        Ok(self.plan.clone())
    }

    /// The current modulation plan.
    pub fn get_plan(&self) -> (r: &Vec<PlannedTone>)
        ensures
            r@ == self.spec_plan_tones(),
    {
        &self.plan
    }

    /// Total sample count of the current plan.
    pub fn get_total_samples(&self) -> (r: u64)
        ensures
            r == self.spec_total_samples(),
    {
        self.total_samples
    }

    /// The fitted image of the last run.
    pub fn get_processed_image(&self) -> (r: Option<&RgbBuffer>)
        ensures
            r is Some <==> self.spec_processed_image() is Some,
            r matches Some(img) ==> self.spec_processed_image() == Some(*img),
    {
        self.processed_image.as_ref()
    }

    /// The metadata of the last run.
    pub fn get_processing_metadata(&self) -> (r: Option<&ProcessingMetadata>)
        ensures
            r is Some <==> self.spec_metadata() is Some,
            r matches Some(m) ==> self.spec_metadata() == Some(*m),
    {
        self.processing_metadata.as_ref()
    }

    /// The modulator's mode.
    pub fn get_mode(&self) -> (r: SstvMode)
        ensures
            r == self.spec_mode(),
    {
        self.mode
    }

    /// The modulator's sample rate, in Hz.
    pub fn get_sample_rate(&self) -> (r: u32)
        ensures
            r == self.spec_sample_rate(),
    {
        self.sample_rate
    }

    /// Discards the plan, the fitted image and the metadata.
    pub fn clear_memory(&mut self)
        ensures
            final(self).spec_mode() == old(self).spec_mode(),
            final(self).spec_sample_rate() == old(self).spec_sample_rate(),
            final(self).spec_plan_tones() == Seq::<PlannedTone>::empty(),
            final(self).spec_total_samples() == 0,
            final(self).spec_processed_image() is None,
            final(self).spec_metadata() is None,
    {
        self.plan.clear();
        self.total_samples = 0;
        self.processed_image = None;
        self.processing_metadata = None;
        proof {
            assert(self.spec_plan_tones() =~= Seq::<PlannedTone>::empty());
        }
    }

    /// Discards only the plan.
    pub fn clear_audio_memory(&mut self)
        ensures
            final(self).spec_mode() == old(self).spec_mode(),
            final(self).spec_sample_rate() == old(self).spec_sample_rate(),
            final(self).spec_plan_tones() == Seq::<PlannedTone>::empty(),
            final(self).spec_total_samples() == 0,
            final(self).spec_processed_image() == old(self).spec_processed_image(),
            final(self).spec_metadata() == old(self).spec_metadata(),
    {
        self.plan.clear();
        self.total_samples = 0;
        proof {
            assert(self.spec_plan_tones() =~= Seq::<PlannedTone>::empty());
        }
    }

    /// Discards only the fitted image and the metadata.
    pub fn clear_image_memory(&mut self)
        ensures
            final(self).spec_mode() == old(self).spec_mode(),
            final(self).spec_sample_rate() == old(self).spec_sample_rate(),
            final(self).spec_plan_tones() == old(self).spec_plan_tones(),
            final(self).spec_total_samples() == old(self).spec_total_samples(),
            final(self).spec_processed_image() is None,
            final(self).spec_metadata() is None,
    {
        self.processed_image = None;
        self.processing_metadata = None;
    }

    /// Reports the advisory memory usage of the modulator: two bytes per
    /// planned sample, the bytes of the fitted image, and a fixed metadata
    /// footprint, each clipped to what a machine word holds.
    pub fn get_memory_usage(&self) -> (r: MemoryUsage)
        ensures
            r.audio_samples_bytes == self.spec_audio_bytes(),
            r.processed_image_bytes == self.spec_image_bytes(),
            r.metadata_bytes == METADATA_FOOTPRINT_BYTES,
            r.total_bytes == self.spec_total_bytes(),
    {
        let audio_wide = (self.total_samples as u128) * 2;
        let audio_samples_bytes: usize = if audio_wide <= usize::MAX as u128 {
            audio_wide as usize
        } else {
            usize::MAX
        };
        let processed_image_bytes: usize = match &self.processed_image {
            Some(img) => img.as_raw().len(),
            None => 0,
        };
        let total_wide = (audio_samples_bytes as u128) + (processed_image_bytes as u128) + (
        METADATA_FOOTPRINT_BYTES as u128);
        let total_bytes: usize = if total_wide <= usize::MAX as u128 {
            total_wide as usize
        } else {
            usize::MAX
        };
        MemoryUsage {
            audio_samples_bytes,
            processed_image_bytes,
            metadata_bytes: METADATA_FOOTPRINT_BYTES,
            total_bytes,
        }
    }

    /// Whether the advisory memory usage exceeds a threshold in megabytes.
    pub fn should_clear_memory(&self, threshold_mb: usize) -> (r: bool)
        ensures
            r == (self.spec_total_bytes() > threshold_mb * 1048576),
    {
        let usage = self.get_memory_usage();
        (usage.total_bytes as u128) > (threshold_mb as u128) * 1048576
    }

    /// Clears everything when the advisory memory usage exceeds a threshold
    /// in megabytes, and otherwise changes nothing.
    pub fn auto_memory_management(&mut self, threshold_mb: usize)
        ensures
            old(self).spec_total_bytes() > threshold_mb * 1048576 ==> {
                &&& final(self).spec_plan_tones() == Seq::<PlannedTone>::empty()
                &&& final(self).spec_total_samples() == 0
                &&& final(self).spec_processed_image() is None
                &&& final(self).spec_metadata() is None
            },
            !(old(self).spec_total_bytes() > threshold_mb * 1048576) ==> *final(self) == *old(
                self,
            ),
            final(self).spec_mode() == old(self).spec_mode(),
            final(self).spec_sample_rate() == old(self).spec_sample_rate(),
    {
        if self.should_clear_memory(threshold_mb) {
            self.clear_memory();
        }
    }

    /// Advisory hint that a large run has finished; the library frees
    /// nothing implicitly, so there is nothing to do.
    pub fn force_gc_hint(&self) {
    }
}

} // verus!
