use whisper_core::audio::{AudioBuffer, SAMPLE_UNIT, WHISPER_SAMPLE_RATE};

#[test]
fn test_new_buffer_is_empty_at_backend_rate() {
    let b = AudioBuffer::new();
    assert!(b.is_empty());
    assert_eq!(b.len(), 0);
    assert_eq!(b.sample_rate(), WHISPER_SAMPLE_RATE);
}

#[test]
fn test_append_and_clear() {
    let mut b = AudioBuffer::new();
    b.append(&[1, 2, 3]);
    b.append(&[4]);
    assert_eq!(b.samples(), &[1, 2, 3, 4]);
    assert_eq!(b.len(), 4);
    b.clear();
    assert!(b.is_empty());
    assert_eq!(b.sample_rate(), WHISPER_SAMPLE_RATE);
}

#[test]
fn test_duration_ms() {
    let b = AudioBuffer::from_samples(vec![0; 8000], 16000);
    assert_eq!(b.duration_ms(), 500);
}

#[test]
fn test_resample_identity() {
    let b = AudioBuffer::from_samples(vec![5, -7, 32768, 0], 16000);
    let r = b.resample(16000).unwrap();
    assert_eq!(r.samples(), b.samples());
    assert_eq!(r.sample_rate(), 16000);
}

#[test]
fn test_resample_interpolates() {
    let b = AudioBuffer::from_samples(vec![0, 32768], 16000);
    let r = b.resample(32000).unwrap();
    // Length: round(2 * 32000 / 16000) rounds half up: (2*32000 + 8000) / 16000 = 4.
    assert_eq!(r.samples(), &[0, 16384, 32768, 32768]);
    assert_eq!(r.sample_rate(), 32000);
}

#[test]
fn test_resample_length_rounding() {
    let b = AudioBuffer::from_samples(vec![0; 1000], 44100);
    let r = b.resample(16000).unwrap();
    // round(1000 * 16000 / 44100) = round(362.81...) = 363
    assert_eq!(r.len(), 363);
}

#[test]
fn test_resample_48k_to_16k_length() {
    let b = AudioBuffer::from_samples(vec![0; 48000], 48000);
    let r = b.resample(16000).unwrap();
    assert_eq!(r.len(), 16000);
}

#[test]
fn test_normalize_scales_peak_to_full_scale() {
    let mut b = AudioBuffer::from_samples(vec![8192, -16384, 0], 16000);
    b.normalize();
    assert_eq!(b.samples(), &[16384, -32768, 0]);
    let max = b.samples().iter().map(|s| s.abs()).max().unwrap();
    assert_eq!(max, SAMPLE_UNIT);
}

#[test]
fn test_normalize_all_zero_is_noop() {
    let mut b = AudioBuffer::from_samples(vec![0, 0, 0], 16000);
    b.normalize();
    assert_eq!(b.samples(), &[0, 0, 0]);
}

#[test]
fn test_normalize_already_normalized_is_noop() {
    let mut b = AudioBuffer::from_samples(vec![32768, 5, -17], 16000);
    b.normalize();
    assert_eq!(b.samples(), &[32768, 5, -17]);
}

#[test]
fn test_noise_gate_floors_quiet_samples() {
    let mut b = AudioBuffer::from_samples(vec![100, -50, 2000, 0, -149, 150], 16000);
    b.apply_noise_gate(150);
    assert_eq!(b.samples(), &[0, 0, 2000, 0, 0, 150]);
    for s in b.samples() {
        assert!(*s == 0 || s.abs() >= 150);
    }
}

#[test]
fn test_stereo_to_mono_averages_pairs() {
    let m = AudioBuffer::stereo_to_mono(&[2, 4, 10], &[4, 6, -20, 99]);
    assert_eq!(m, vec![3, 5, -5]);
}

#[test]
fn test_stereo_to_mono_rounds_toward_zero() {
    let m = AudioBuffer::stereo_to_mono(&[-3], &[0]);
    assert_eq!(m, vec![-1]);
}

#[test]
fn test_from_decoded_16bit_mono_no_resample() {
    // 16-bit samples are already at Q15 scale.
    let b = AudioBuffer::from_decoded(vec![100, -32768, 32767], 16, 1, 16000).unwrap();
    assert_eq!(b.samples(), &[100, -32768, 32767]);
    assert_eq!(b.sample_rate(), 16000);
}

#[test]
fn test_from_decoded_8bit_stereo() {
    // 8-bit samples scale by 32768/128 = 256; the stereo pair averages to zero.
    let b = AudioBuffer::from_decoded(vec![64, -64, 10], 8, 2, 16000).unwrap();
    // Trailing unpaired sample is paired with silence: 2560 / 2 = 1280.
    assert_eq!(b.samples(), &[0, 1280]);
}

#[test]
fn test_from_decoded_resamples_48k() {
    let b = AudioBuffer::from_decoded(vec![0; 48000], 16, 1, 48000).unwrap();
    assert_eq!(b.len(), 16000);
    assert_eq!(b.sample_rate(), 16000);
}

#[test]
fn test_from_decoded_rejects_bad_bit_depth() {
    let e = AudioBuffer::from_decoded(vec![0], 0, 1, 16000).unwrap_err();
    assert_eq!(e.error_code(), -8);
    let e = AudioBuffer::from_decoded(vec![0], 33, 1, 16000).unwrap_err();
    assert_eq!(e.error_code(), -8);
}

#[test]
fn test_from_decoded_rejects_bad_rate() {
    let e = AudioBuffer::from_decoded(vec![0], 16, 1, 0).unwrap_err();
    assert_eq!(e.error_code(), -8);
}

#[test]
fn test_recorder_state_starts_idle() {
    let s = whisper_core::audio::AudioRecorderState::new();
    assert!(!s.is_recording);
    assert!(s.buffer.is_empty());
}
