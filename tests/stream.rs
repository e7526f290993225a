use audio_capture::stream::{config, downmix, wav_format, ConfigRange, StreamError, StreamSettings};

fn mean(frame: &[f32]) -> f32 {
    frame.iter().sum::<f32>() / frame.len() as f32
}

#[test]
fn two_channel_frame_downmixes_to_mean() {
    assert_eq!(downmix(&[1.0f32, 3.0], 2, &mean), vec![2.0]);
}

#[test]
fn one_channel_frame_passes_through() {
    assert_eq!(downmix(&[0.25f32, -0.5, 0.75], 1, &mean), vec![0.25, -0.5, 0.75]);
}

#[test]
fn downmix_frames_in_order_and_drops_partial_frame() {
    let data = [1.0f32, 3.0, 5.0, 7.0, -2.0, 2.0, 9.0];
    assert_eq!(downmix(&data, 2, &mean), vec![2.0, 6.0, 0.0]);
    assert_eq!(downmix(&data, 3, &mean), vec![3.0, 7.0 / 3.0]);
    assert!(downmix(&[1.0f32], 2, &mean).is_empty());
}

fn range(min: u32, max: u32) -> ConfigRange {
    ConfigRange { channels: 2, min_sample_rate: min, max_sample_rate: max, sample_size: 4 }
}

#[test]
fn config_prefers_forty_khz_within_range() {
    let s = config(&vec![range(8000, 48000), range(1, 2)]).unwrap();
    assert_eq!(s, StreamSettings { channels: 2, sample_rate: 40000, sample_size: 4 });
}

#[test]
fn config_clamps_to_supported_range() {
    assert_eq!(config(&vec![range(44100, 96000)]).unwrap().sample_rate, 44100);
    assert_eq!(config(&vec![range(8000, 16000)]).unwrap().sample_rate, 16000);
}

#[test]
fn config_without_ranges_fails() {
    assert!(matches!(config(&Vec::new()), Err(StreamError::NoConfigAvailable)));
}

#[test]
fn wav_format_is_mono_float() {
    let s = StreamSettings { channels: 2, sample_rate: 44100, sample_size: 2 };
    let w = wav_format(&s);
    assert_eq!((w.channels, w.sample_rate, w.bits_per_sample), (1, 44100, 32));
}
