use sstv_rust::{
    estimate_file_size, estimate_memory_usage, AudioGenerator, AudioProcessor, RgbBuffer,
    SstvError, SstvMode, DEFAULT_SAMPLE_RATE, VERSION,
};
use sstv_rust::decimal::decimal_string;

#[test]
fn test_audio_generator_creation() {
    let generator = AudioGenerator::new(48000, 16).unwrap();
    assert_eq!(generator.sample_rate(), 48000);
    assert_eq!(generator.bit_depth(), 16);
}

#[test]
fn test_version() {
    assert!(!VERSION.is_empty());
}

#[test]
fn test_file_size_estimation() {
    let size = estimate_file_size(SstvMode::Robot36, 44100, 16);
    assert!(size > 0);

    let expected_samples = 36.0 * 44100.0;
    let expected_size = (expected_samples * 2.0) as usize + 44;
    assert!((size as f32 - expected_size as f32).abs() / (expected_size as f32) < 0.1);
}

#[test]
fn test_memory_estimation() {
    let usage = estimate_memory_usage(1920, 1080, SstvMode::Robot36, 44100);
    assert!(usage > 0);

    let expected_min = 320 * 240 * 3 + 44100 * 36 * 2;
    assert!(usage >= expected_min);
}

#[test]
fn test_error_creation() {
    let err = SstvError::unsupported_mode("TestMode");
    assert!(matches!(err, SstvError::UnsupportedMode { .. }));
}

#[test]
fn test_file_size_exact_value() {
    // 36000 ms * 44100 Hz / 1000 samples, two bytes each, plus the header.
    assert_eq!(estimate_file_size(SstvMode::Robot36, 44100, 16), 1587600 * 2 + 44);
}

#[test]
fn test_memory_estimation_exact_value() {
    let usage = estimate_memory_usage(1920, 1080, SstvMode::Robot36, 44100);
    assert_eq!(usage, 1920 * 1080 * 3 + 320 * 240 * 3 + 44100 * 36 * 2 + 1024);
}

#[test]
fn test_invalid_sample_rate_low() {
    match AudioGenerator::new(500, 16) {
        Err(SstvError::InvalidSampleRate { sample_rate, min_rate, max_rate }) => {
            assert_eq!(sample_rate, 500);
            assert_eq!(min_rate, 8000);
            assert_eq!(max_rate, 192000);
        }
        _ => panic!("a 500 Hz sample rate must be rejected with the invalid-sample-rate error"),
    }
}

#[test]
fn test_invalid_sample_rate_high() {
    match AudioGenerator::new(250000, 16) {
        Err(SstvError::InvalidSampleRate { sample_rate, min_rate, max_rate }) => {
            assert_eq!(sample_rate, 250000);
            assert_eq!(min_rate, 8000);
            assert_eq!(max_rate, 192000);
        }
        _ => panic!("a 250000 Hz sample rate must be rejected with the invalid-sample-rate error"),
    }
}

#[test]
fn test_invalid_bit_depth() {
    match AudioGenerator::new(48000, 12) {
        Err(SstvError::InvalidAudioParameter { parameter, value }) => {
            assert_eq!(parameter, "bit_depth");
            assert_eq!(value, "12");
        }
        _ => panic!("a 12-bit depth must be rejected with the invalid-audio-parameter error"),
    }
}

#[test]
fn test_error_variants_carry_context() {
    let err = SstvError::invalid_sample_rate(22050, 8000, 48000);
    match err {
        SstvError::InvalidSampleRate { sample_rate, min_rate, max_rate } => {
            assert_eq!((sample_rate, min_rate, max_rate), (22050, 8000, 48000));
        }
        _ => panic!("wrong variant"),
    }
    let err = SstvError::modulation_error("bad state");
    assert!(matches!(err, SstvError::ModulationError { .. }));
    let err = SstvError::MemoryError { required: 1024 };
    assert!(matches!(err, SstvError::MemoryError { required: 1024 }));
    let err = SstvError::ImageProcessing(String::from("no image"));
    assert!(matches!(err, SstvError::ImageProcessing(_)));
    let err = SstvError::InvalidFormat(String::from("unsupported depth"));
    assert!(matches!(err, SstvError::InvalidFormat(_)));
}

#[test]
fn test_audio_processor_collects_samples() {
    let mut p = AudioProcessor::new(8000);
    assert_eq!(p.sample_rate(), 8000);
    p.add_sample(5);
    p.add_sample(-7);
    assert_eq!(p.get_samples(), &[5, -7]);
    p.clear();
    assert!(p.get_samples().is_empty());
}

#[test]
fn test_mode_constants() {
    assert_eq!(SstvMode::ScottieDx.get_vis_code(), "1001100");
    assert_eq!(SstvMode::Robot36.get_vis_code(), "0001000");
    assert_eq!(SstvMode::Pd120.get_vis_code(), "1011111");
    assert_eq!(SstvMode::MartinM1.get_vis_code(), "0101100");
    assert_eq!(SstvMode::ScottieDx.get_dimensions(), (320, 256));
    assert_eq!(SstvMode::Robot36.get_dimensions(), (320, 240));
    assert_eq!(SstvMode::Pd120.get_dimensions(), (640, 496));
    assert_eq!(SstvMode::MartinM1.get_dimensions(), (320, 256));
    assert_eq!(SstvMode::ScottieDx.get_duration_ms(), 269600);
    assert_eq!(SstvMode::Robot36.get_duration_ms(), 36000);
    assert_eq!(SstvMode::Pd120.get_duration_ms(), 120000);
    assert_eq!(SstvMode::MartinM1.get_duration_ms(), 114700);
    assert_eq!(SstvMode::ScottieDx.get_mode_name(), "ScottieDX");
    assert_eq!(SstvMode::Robot36.get_mode_name(), "Robot36");
    assert_eq!(SstvMode::Pd120.get_mode_name(), "PD120");
    assert_eq!(SstvMode::MartinM1.get_mode_name(), "MartinM1");
    assert_eq!(DEFAULT_SAMPLE_RATE, 6000);
}

#[test]
fn test_decimal_string() {
    assert_eq!(decimal_string(0), "0");
    assert_eq!(decimal_string(7), "7");
    assert_eq!(decimal_string(40500), "40500");
    assert_eq!(decimal_string(18446744073709551615), "18446744073709551615");
}

#[test]
fn test_rgb_buffer_round_trip() {
    let mut data = vec![0u8; 3 * 4 * 2];
    data[3 * (1 * 4 + 2)] = 10;
    data[3 * (1 * 4 + 2) + 1] = 20;
    data[3 * (1 * 4 + 2) + 2] = 30;
    let buf = RgbBuffer::from_raw(4, 2, data).unwrap();
    assert_eq!(buf.width(), 4);
    assert_eq!(buf.height(), 2);
    assert_eq!(buf.get_pixel(2, 1), (10, 20, 30));
    assert_eq!(buf.get_pixel(0, 0), (0, 0, 0));
}

#[test]
fn test_rgb_buffer_rejects_wrong_length() {
    assert!(RgbBuffer::from_raw(4, 2, vec![0u8; 23]).is_none());
    assert!(RgbBuffer::from_raw(4, 2, vec![0u8; 25]).is_none());
    assert!(RgbBuffer::from_raw(4, 2, vec![0u8; 24]).is_some());
}
