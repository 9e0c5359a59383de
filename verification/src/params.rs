//! Uniform parameter blocks for the compute stages of the parallel pipeline.
//!
//! The layouts mirror the shader-side structs; the host fills them once per
//! dispatch. Fields that exist only to satisfy the shader's alignment rules
//! are zero.

use vstd::prelude::*;
use crate::bits::floor_log2;

verus! {

/// Parameters of the reordering and butterfly stages.
#[derive(Debug, Clone, Copy, PartialEq, Eq, Structural)]
pub struct FftParams {
    pub n: u32,
    pub stage: u32,
    pub direction: i32,
    pub log2_n: u32,
}

impl FftParams {
    /// Parameter block for one butterfly pass (or the reordering stage,
    /// which ignores `stage`). `forward` selects the transform direction.
    pub fn new(fft_size: usize, stage: u32, forward: bool) -> (r: FftParams)
        requires
            fft_size >= 1,
        ensures
            r.n == fft_size as u32,
            r.stage == stage,
            r.direction == (if forward { 1int } else { -1int }),
            r.log2_n == floor_log2(fft_size as nat),
    {
        FftParams {
            n: #[verifier::truncate] (fft_size as u32),
            stage,
            direction: if forward { 1 } else { -1 },
            log2_n: crate::bits::log2_floor(fft_size),
        }
    }
}

/// Parameters of the windowing stage. Everything past `n` is padding that
/// keeps the block's size in step with the shader's declaration.
#[derive(Debug, Clone, Copy, PartialEq, Eq, Structural)]
pub struct WindowParams {
    pub n: u32,
    pub _pad1: u32,
    pub _pad2: u32,
    pub _pad3: u32,
    pub _vec3_x: u32,
    pub _vec3_y: u32,
    pub _vec3_z: u32,
    pub _vec3_pad: u32,
}

impl WindowParams {
    /// Parameter block for the windowing stage over `fft_size` samples.
    pub fn new(fft_size: usize) -> (r: WindowParams)
        ensures
            r.n == fft_size as u32,
            r._pad1 == 0 && r._pad2 == 0 && r._pad3 == 0,
            r._vec3_x == 0 && r._vec3_y == 0 && r._vec3_z == 0 && r._vec3_pad == 0,
    {
        WindowParams {
            n: #[verifier::truncate] (fft_size as u32),
            _pad1: 0,
            _pad2: 0,
            _pad3: 0,
            _vec3_x: 0,
            _vec3_y: 0,
            _vec3_z: 0,
            _vec3_pad: 0,
        }
    }
}

} // verus!
