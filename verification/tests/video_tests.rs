//! Tests of the video configuration and the spectrum-pipeline builder.

use phobz_visualizer::pipeline::SpectrumPipelineBuilder;
use phobz_visualizer::video::{VideoCodec, VideoConfig};

#[test]
fn test_video_config_default() {
    let config = VideoConfig::default();
    assert_eq!(config.width, 1920);
    assert_eq!(config.height, 1080);
    assert_eq!(config.fps, 30);
    assert_eq!(config.codec, VideoCodec::H264);
}

#[test]
fn test_video_config_default_quality() {
    let config = VideoConfig::default();
    assert_eq!(config.bitrate, 8_000_000);
    assert_eq!(config.crf, Some(18));
}

#[test]
fn test_codec_names() {
    assert_eq!(VideoCodec::H264.codec_name(), "libx264");
    assert_eq!(VideoCodec::ProRes4444.codec_name(), "prores_ks");
    assert_eq!(VideoCodec::Vp9.codec_name(), "libvpx-vp9");
}

#[test]
fn test_spectrum_pipeline_builder_defaults() {
    let builder = SpectrumPipelineBuilder::new();
    assert_eq!(builder.fft_size, 2048);
    assert_eq!(builder.max_bands, 256);
    assert_eq!(builder.sample_rate, 44100);
}

#[test]
fn test_spectrum_pipeline_builder_setters() {
    let builder = SpectrumPipelineBuilder::new().fft_size(1024).max_bands(64).sample_rate(48000);
    assert_eq!(builder.fft_size, 1024);
    assert_eq!(builder.max_bands, 64);
    assert_eq!(builder.sample_rate, 48000);
}

#[test]
fn test_spectrum_pipeline_builder_zero_default() {
    let builder = SpectrumPipelineBuilder::default();
    assert_eq!(builder.fft_size, 0);
    assert_eq!(builder.max_bands, 0);
    assert_eq!(builder.sample_rate, 0);
}
