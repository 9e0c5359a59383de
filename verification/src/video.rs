//! Video encoding configuration.
//!
//! The encoder itself is an external collaborator; the codec choice and the
//! configuration record it consumes are fixed here.

use vstd::prelude::*;

verus! {

/// Video codec options.
#[derive(Debug, Clone, Copy, PartialEq, Eq, Structural)]
pub enum VideoCodec {
    /// H.264, no transparency.
    H264,
    /// ProRes 4444 for professional workflows, supports transparency.
    ProRes4444,
    /// VP9 WebM for web use, supports transparency.
    Vp9,
}

/// The encoder name each codec selects.
pub open spec fn spec_codec_name(c: VideoCodec) -> Seq<char> {
    match c {
        VideoCodec::H264 => "libx264"@,
        VideoCodec::ProRes4444 => "prores_ks"@,
        VideoCodec::Vp9 => "libvpx-vp9"@,
    }
}

impl VideoCodec {
    /// The name of the encoder implementing this codec.
    pub fn codec_name(&self) -> (r: &'static str)
        ensures
            r@ == spec_codec_name(*self),
    {
        match self {
            VideoCodec::H264 => "libx264",
            VideoCodec::ProRes4444 => "prores_ks",
            VideoCodec::Vp9 => "libvpx-vp9",
        }
    }
}

/// Video encoding configuration.
#[derive(Debug, Clone)]
pub struct VideoConfig {
    /// Video bitrate in bits per second, for lossy codecs.
    pub bitrate: u64,
    /// CRF quality (0-51 for H.264, lower is better); `None` uses the bitrate.
    pub crf: Option<u32>,
    /// Output width in pixels.
    pub width: u32,
    /// Output height in pixels.
    pub height: u32,
    /// Frame rate in frames per second.
    pub fps: u32,
    /// Video codec to use.
    pub codec: VideoCodec,
}

impl Default for VideoConfig {
    /// High-quality 1080p H.264 at 30 frames per second.
    fn default() -> (r: VideoConfig)
        ensures
            r.bitrate == 8_000_000,
            r.crf == Some(18u32),
            r.width == 1920,
            r.height == 1080,
            r.fps == 30,
            r.codec == VideoCodec::H264,
    {
        VideoConfig {
            bitrate: 8_000_000,
            crf: Some(18),
            width: 1920,
            height: 1080,
            fps: 30,
            codec: VideoCodec::H264,
        }
    }
}

} // verus!
