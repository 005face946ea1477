//! Sample normalization behavior, exercised through float glue at a
//! power-of-two scale so expected values stay exact.

use heronote_audio::normalize::{mono_mean, normalize_i16, normalize_i16_samples, normalize_i32, normalize_i32_samples};

fn i16_to_f32(sample: i16) -> f32 {
    normalize_i16(sample) as f32 / i16::MAX as f32
}

fn i32_to_f32(sample: i32) -> f32 {
    normalize_i32(sample) as f32 / i32::MAX as f32
}

fn convert_to_mono(data: &[f32], channels: usize) -> Vec<f32> {
    let fixed: Vec<i32> = data.iter().map(|&v| (v * 32768.0) as i32).collect();
    mono_mean(&fixed, channels)
        .iter()
        .map(|&q| q as f32 / 32768.0)
        .collect()
}

#[test]
fn test_i16_to_f32_normal() {
    assert!((i16_to_f32(0) - 0.0).abs() < f32::EPSILON);
    assert!((i16_to_f32(i16::MAX) - 1.0).abs() < f32::EPSILON);
}

#[test]
fn test_i16_to_f32_min_value() {
    assert!((i16_to_f32(i16::MIN) - (-1.0)).abs() < f32::EPSILON);
}

#[test]
fn test_i32_to_f32_min_value() {
    assert!((i32_to_f32(i32::MIN) - (-1.0)).abs() < f32::EPSILON);
}

#[test]
fn test_convert_to_mono_stereo() {
    let stereo = vec![0.5, -0.5, 1.0, -1.0];
    let mono = convert_to_mono(&stereo, 2);
    assert_eq!(mono.len(), 2);
    assert!((mono[0] - 0.0).abs() < f32::EPSILON);
    assert!((mono[1] - 0.0).abs() < f32::EPSILON);
}

#[test]
fn test_convert_to_mono_already_mono() {
    let mono_input = vec![0.5, -0.5, 1.0];
    let mono_output = convert_to_mono(&mono_input, 1);
    assert_eq!(mono_input, mono_output);
}

#[test]
fn normalize_i16_is_identity_off_the_extremum() {
    assert_eq!(normalize_i16(1234), 1234);
    assert_eq!(normalize_i16(-32767), -32767);
    assert_eq!(normalize_i16(i16::MAX), 32767);
}

#[test]
fn normalize_i16_clamps_the_extremum() {
    assert_eq!(normalize_i16(i16::MIN), -32767);
}

#[test]
fn normalize_i32_clamps_the_extremum() {
    assert_eq!(normalize_i32(i32::MIN), -2147483647);
    assert_eq!(normalize_i32(-5), -5);
    assert_eq!(normalize_i32(i32::MAX), i32::MAX);
}

#[test]
fn normalized_output_stays_in_unit_range() {
    for s in [i16::MIN, -32767, -1, 0, 1, i16::MAX] {
        let v = i16_to_f32(s);
        assert!((-1.0..=1.0).contains(&v));
    }
    for s in [i32::MIN, -2147483647, -1, 0, 1, i32::MAX] {
        let v = i32_to_f32(s);
        assert!((-1.0..=1.0).contains(&v));
    }
}

#[test]
fn mono_mean_of_identical_channels_is_unchanged() {
    // Five identical channels in one frame reduce to that very value.
    let frame = vec![7771, 7771, 7771, 7771, 7771];
    assert_eq!(mono_mean(&frame, 5), vec![7771]);
    // One channel passes through unchanged.
    let data = vec![-42, 17, 0];
    assert_eq!(mono_mean(&data, 1), data);
}

#[test]
fn buffer_normalization_maps_each_sample() {
    assert_eq!(
        normalize_i16_samples(&vec![0, i16::MIN, i16::MAX, -5]),
        vec![0, -32767, 32767, -5]
    );
    assert_eq!(
        normalize_i32_samples(&vec![i32::MIN, 9]),
        vec![-2147483647, 9]
    );
}

#[test]
fn mono_mean_divides_by_the_channel_count() {
    // Two frames of two channels each.
    assert_eq!(mono_mean(&vec![10, 20, -10, -30], 2), vec![15, -20]);
    // A trailing short frame is still divided by the channel count.
    assert_eq!(mono_mean(&vec![9, 9, 8], 2), vec![9, 4]);
    // The mean rounds toward zero, as a hardware divide does.
    assert_eq!(mono_mean(&vec![-3, 0], 2), vec![-1]);
}
