//! Spectrum-analysis core for an audio visualizer.
//!
//! The crate covers the decision logic of the analysis engine: transform-size
//! validation, the staged schedule of the parallel FFT pipeline (window,
//! bit-reversal, butterfly passes over ping-pong buffers, magnitude, band
//! reduction), the framing and onset-selection rules of the beat detector,
//! and the small configuration types shared with the surrounding tooling.
//! Numeric signal processing on sample buffers lives outside the verified
//! core and consumes the schedules and checks proved here.

pub mod bits;
pub mod color;
pub mod designs;
pub mod errors;
pub mod frames;
pub mod onset;
pub mod params;
pub mod pipeline;
pub mod plan;
pub mod video;
