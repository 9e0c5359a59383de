//! Tests of the onset-detection arithmetic, the frame partition, the error
//! translation, and the hex colour parser.

use phobz_visualizer::color::parse_hex_rgb;
use phobz_visualizer::errors::{check_samples, map_gpu_error, AnalyzerError, GpuFftError};
use phobz_visualizer::frames::{
    frame_bounds, needs_padding, num_frames, samples_per_frame, FRAME_FFT_SIZE,
};
use phobz_visualizer::onset::{
    avg_bounds, bass_bin_range, freq_to_bin_hz, min_beat_spacing, num_windows, select_beats,
    ONSET_FFT_SIZE,
};

#[test]
fn test_num_windows() {
    assert_eq!(num_windows(ONSET_FFT_SIZE), 1);
    assert_eq!(num_windows(1535), 1);
    assert_eq!(num_windows(1536), 2);
    assert_eq!(num_windows(2048), 3);
    // five seconds at 44.1 kHz
    assert_eq!(num_windows(220500), 429);
}

#[test]
fn test_avg_bounds_clipped() {
    assert_eq!(avg_bounds(0, 100), (0, 9));
    assert_eq!(avg_bounds(4, 100), (0, 13));
    assert_eq!(avg_bounds(50, 100), (42, 59));
    assert_eq!(avg_bounds(99, 100), (91, 100));
    assert_eq!(avg_bounds(0, 3), (0, 3));
}

#[test]
fn test_min_beat_spacing() {
    // 200 ms of 512-sample hops at 44.1 kHz
    assert_eq!(min_beat_spacing(44100), 17);
    assert_eq!(min_beat_spacing(48000), 18);
    assert_eq!(min_beat_spacing(8000), 3);
}

#[test]
fn test_freq_to_bin() {
    // the Nyquist frequency lands on the last bin boundary
    assert_eq!(freq_to_bin_hz(22050, 2048, 44100), 1024);
    assert_eq!(freq_to_bin_hz(1000, 2048, 44100), 46);
    assert_eq!(freq_to_bin_hz(0, 2048, 44100), 0);
}

#[test]
fn test_bass_bin_range() {
    // 20 Hz rounds to bin 0 and 200 Hz to bin 5 of a 1024-point transform
    assert_eq!(bass_bin_range(1024, 44100), (0, 5));
    // at a low sample rate the high edge is clipped to the spectrum
    let (low, high) = bass_bin_range(1024, 300);
    assert_eq!((low, high), (68, 512));
    assert!(low <= high);
}

#[test]
fn test_select_beats_spacing() {
    // candidates at 1, 2, 3: spacing 2 skips the middle one
    let candidate = vec![false, true, true, true, false];
    assert_eq!(select_beats(&candidate, 2), vec![1, 3]);
    assert_eq!(select_beats(&candidate, 0), vec![1, 2, 3]);
    assert_eq!(select_beats(&candidate, 3), vec![1]);
}

#[test]
fn test_select_beats_ignores_edges() {
    // the first and last window can never be strict local peaks
    let candidate = vec![true, false, false, true];
    assert_eq!(select_beats(&candidate, 1), Vec::<usize>::new());
}

#[test]
fn test_select_beats_silent() {
    // no candidates, no beats
    let candidate = vec![false; 400];
    assert_eq!(select_beats(&candidate, 17), Vec::<usize>::new());
    assert_eq!(select_beats(&Vec::new(), 17), Vec::<usize>::new());
}

#[test]
fn test_select_beats_click_train() {
    // a candidate every 43 windows, as a 120 BPM click track yields, is
    // kept in full since 43 exceeds the minimum spacing
    let mut candidate = vec![false; 430];
    let mut expected = Vec::new();
    let mut i = 43;
    while i < 429 {
        candidate[i] = true;
        expected.push(i);
        i += 43;
    }
    assert_eq!(select_beats(&candidate, 17), expected);
}

#[test]
fn test_samples_per_frame() {
    assert_eq!(samples_per_frame(44100, 30), 1470);
    assert_eq!(samples_per_frame(48000, 25), 1920);
}

#[test]
fn test_num_frames() {
    // two seconds at 30 frames per second
    assert_eq!(num_frames(88200, 1470), 60);
    // a short signal still yields one frame
    assert_eq!(num_frames(100, 1470), 1);
    assert_eq!(num_frames(0, 1470), 1);
}

#[test]
fn test_frame_bounds() {
    assert_eq!(frame_bounds(0, 1470, 88200), (0, 1470));
    assert_eq!(frame_bounds(59, 1470, 88200), (86730, 88200));
    assert_eq!(frame_bounds(10, 1470, 88200), (14700, 16170));
    // the sole frame of a short signal covers what there is
    assert_eq!(frame_bounds(0, 1470, 100), (0, 100));
    // a trailing partial frame is clipped
    assert_eq!(frame_bounds(1, 1470, 3000), (1470, 2940));
}

#[test]
fn test_needs_padding() {
    assert!(needs_padding(0));
    assert!(needs_padding(FRAME_FFT_SIZE - 1));
    assert!(!needs_padding(FRAME_FFT_SIZE));
    assert!(!needs_padding(FRAME_FFT_SIZE + 1));
}

#[test]
fn test_unified_check_samples() {
    assert!(check_samples(2048, 2048).is_ok());
    assert!(matches!(
        check_samples(2048, 2047),
        Err(AnalyzerError::InsufficientSamples { needed: 2048, got: 2047 })
    ));
}

#[test]
fn test_map_gpu_error() {
    assert!(matches!(
        map_gpu_error(GpuFftError::InvalidFftSize(1000)),
        AnalyzerError::InvalidFftSize(1000)
    ));
    assert!(matches!(
        map_gpu_error(GpuFftError::InsufficientSamples { needed: 1024, got: 3 }),
        AnalyzerError::InsufficientSamples { needed: 1024, got: 3 }
    ));
    assert!(matches!(
        map_gpu_error(GpuFftError::TooManyBands { max: 2048, requested: 5000 }),
        AnalyzerError::GpuError(_)
    ));
    let mapped = map_gpu_error(GpuFftError::BufferMapFailed("lost device".to_string()));
    match mapped {
        AnalyzerError::GpuError(msg) => assert_eq!(msg, "lost device"),
        _ => panic!("wrong variant"),
    }
}

#[test]
fn test_parse_hex_rgb() {
    assert_eq!(parse_hex_rgb("#00ff88"), Some((0, 255, 136)));
    assert_eq!(parse_hex_rgb("ffffff"), Some((255, 255, 255)));
    assert_eq!(parse_hex_rgb("000000"), Some((0, 0, 0)));
    assert_eq!(parse_hex_rgb("#00000000"), Some((0, 0, 0)));
    assert_eq!(parse_hex_rgb("ffffffff"), Some((255, 255, 255)));
    assert_eq!(parse_hex_rgb("invalid"), None);
    assert_eq!(parse_hex_rgb("12345"), None);
    assert_eq!(parse_hex_rgb("1234567"), None);
    assert_eq!(parse_hex_rgb("#A1b2C3"), Some((161, 178, 195)));
    assert_eq!(parse_hex_rgb(""), None);
}
