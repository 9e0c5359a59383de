//! Configuration builder of the device-resident spectrum pipeline.
//!
//! The pipeline couples a parallel FFT kernel with a device-side band
//! buffer; its construction needs a live device, which the surrounding code
//! supplies. The builder here fixes the three parameters the construction
//! consumes.

use vstd::prelude::*;

verus! {

/// Builder of a device spectrum pipeline: transform size, band-buffer
/// capacity, and sample rate.
pub struct SpectrumPipelineBuilder {
    pub fft_size: usize,
    pub max_bands: usize,
    pub sample_rate: u32,
}

impl SpectrumPipelineBuilder {
    /// The customary starting point: a 2048-point transform, room for 256
    /// bands, and a 44.1 kHz sample rate.
    pub fn new() -> (r: SpectrumPipelineBuilder)
        ensures
            r.fft_size == 2048,
            r.max_bands == 256,
            r.sample_rate == 44100,
    {
        SpectrumPipelineBuilder { fft_size: 2048, max_bands: 256, sample_rate: 44100 }
    }

    /// Replace the transform size.
    pub fn fft_size(self, size: usize) -> (r: SpectrumPipelineBuilder)
        ensures
            r.fft_size == size,
            r.max_bands == self.max_bands,
            r.sample_rate == self.sample_rate,
    {
        SpectrumPipelineBuilder { fft_size: size, ..self }
    }

    /// Replace the band-buffer capacity.
    pub fn max_bands(self, bands: usize) -> (r: SpectrumPipelineBuilder)
        ensures
            r.fft_size == self.fft_size,
            r.max_bands == bands,
            r.sample_rate == self.sample_rate,
    {
        SpectrumPipelineBuilder { max_bands: bands, ..self }
    }

    /// Replace the sample rate.
    pub fn sample_rate(self, rate: u32) -> (r: SpectrumPipelineBuilder)
        ensures
            r.fft_size == self.fft_size,
            r.max_bands == self.max_bands,
            r.sample_rate == rate,
    {
        SpectrumPipelineBuilder { sample_rate: rate, ..self }
    }
}

impl Default for SpectrumPipelineBuilder {
    /// The all-zero record, as a derived default would produce; callers
    /// normally start from `new` instead.
    fn default() -> (r: SpectrumPipelineBuilder)
        ensures
            r.fft_size == 0,
            r.max_bands == 0,
            r.sample_rate == 0,
    {
        SpectrumPipelineBuilder { fft_size: 0, max_bands: 0, sample_rate: 0 }
    }
}

} // verus!
