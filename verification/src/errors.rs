//! Error types of the analysis engine.
//!
//! `GpuFftError` is reported by the parallel pipeline, `AnalyzerError` by the
//! unified analyzer interface; `map_gpu_error` is the exact translation the
//! unified interface applies when it wraps the parallel kernel.

use vstd::prelude::*;

verus! {

/// Failure of the parallel FFT pipeline.
#[derive(Debug, Clone)]
pub enum GpuFftError {
    /// The requested transform size is not an accepted power of two.
    InvalidFftSize(usize),
    /// Fewer samples were supplied than one transform consumes.
    InsufficientSamples { needed: usize, got: usize },
    /// More bands were requested than the pipeline's fixed ceiling.
    TooManyBands { max: usize, requested: usize },
    /// The device-to-host readback failed; carries the backend's message.
    BufferMapFailed(String),
}

/// Failure of the unified analyzer interface.
#[derive(Debug, Clone)]
pub enum AnalyzerError {
    /// The requested transform size is not an accepted power of two.
    InvalidFftSize(usize),
    /// Fewer samples were supplied than one transform consumes.
    InsufficientSamples { needed: usize, got: usize },
    /// An opaque backend failure, carrying a descriptive message.
    GpuError(String),
}

/// Reject, at the unified interface, an input slice shorter than one
/// transform: exactly the inputs of at least `fft_size` samples pass.
pub fn check_samples(fft_size: usize, got: usize) -> (r: Result<(), AnalyzerError>)
    ensures
        r is Ok <==> got >= fft_size,
        r matches Err(e) ==> e == (AnalyzerError::InsufficientSamples { needed: fft_size, got }),
{
    if got < fft_size {
        Err(AnalyzerError::InsufficientSamples { needed: fft_size, got })
    } else {
        Ok(())
    }
}

/// Translate a parallel-pipeline error into the unified error type.
///
/// Size and input errors keep their payloads; everything else is wrapped
/// into the generic backend kind.
pub fn map_gpu_error(e: GpuFftError) -> (r: AnalyzerError)
    ensures
        e matches GpuFftError::InvalidFftSize(n) ==> r == AnalyzerError::InvalidFftSize(n),
        e matches GpuFftError::InsufficientSamples { needed, got } ==> r
            == (AnalyzerError::InsufficientSamples { needed, got }),
        e is TooManyBands ==> r is GpuError,
        e matches GpuFftError::BufferMapFailed(s) ==> r == AnalyzerError::GpuError(s),
{
    match e {
        GpuFftError::InvalidFftSize(n) => AnalyzerError::InvalidFftSize(n),
        GpuFftError::InsufficientSamples { needed, got } => {
            AnalyzerError::InsufficientSamples { needed, got }
        },
        GpuFftError::TooManyBands { max: _, requested: _ } => {
            AnalyzerError::GpuError("too many bands requested".to_owned())
        },
        GpuFftError::BufferMapFailed(s) => AnalyzerError::GpuError(s),
    }
}

} // verus!
