//! Tests of the parallel-pipeline plan: size validation, the bit-reversal
//! permutation, the ping-pong schedule, and the parameter blocks.

use phobz_visualizer::bits::{bit_reverse, is_power_of_two, log2_floor};
use phobz_visualizer::errors::GpuFftError;
use phobz_visualizer::params::{FftParams, WindowParams};
use phobz_visualizer::plan::{
    band_bin_range, check_bands, check_samples, workgroups_of, BufferRole, FftPlan, FftStep,
    MAX_BANDS,
};

#[test]
fn test_is_power_of_two() {
    assert!(!is_power_of_two(0));
    assert!(is_power_of_two(1));
    assert!(is_power_of_two(2));
    assert!(is_power_of_two(512));
    assert!(is_power_of_two(1024));
    assert!(is_power_of_two(2048));
    assert!(!is_power_of_two(3));
    assert!(!is_power_of_two(1000));
    assert!(!is_power_of_two(1023));
}

#[test]
fn test_log2_floor() {
    assert_eq!(log2_floor(1), 0);
    assert_eq!(log2_floor(2), 1);
    assert_eq!(log2_floor(3), 1);
    assert_eq!(log2_floor(1024), 10);
    assert_eq!(log2_floor(2048), 11);
    assert_eq!(log2_floor(4095), 11);
}

#[test]
fn test_bit_reverse_values() {
    // three bits: 0b001 -> 0b100, 0b110 -> 0b011
    assert_eq!(bit_reverse(1, 3), 4);
    assert_eq!(bit_reverse(6, 3), 3);
    assert_eq!(bit_reverse(0, 3), 0);
    assert_eq!(bit_reverse(7, 3), 7);
    // ten bits, as in a 1024-point transform
    assert_eq!(bit_reverse(1, 10), 512);
    assert_eq!(bit_reverse(512, 10), 1);
}

#[test]
fn test_bit_reverse_is_permutation() {
    let bits = 8;
    let n = 1usize << bits;
    let mut seen = vec![false; n];
    for i in 0..n {
        let r = bit_reverse(i, bits);
        assert!(r < n);
        assert!(!seen[r]);
        seen[r] = true;
        assert_eq!(bit_reverse(r, bits), i);
    }
}

#[test]
fn test_plan_rejects_non_power_of_two() {
    assert!(matches!(FftPlan::new(1000), Err(GpuFftError::InvalidFftSize(1000))));
    assert!(matches!(FftPlan::new(0), Err(GpuFftError::InvalidFftSize(0))));
    assert!(matches!(FftPlan::new(1), Err(GpuFftError::InvalidFftSize(1))));
    assert!(matches!(FftPlan::new(1023), Err(GpuFftError::InvalidFftSize(1023))));
}

#[test]
fn test_plan_accepts_powers_of_two() {
    let plan = FftPlan::new(1024).unwrap();
    assert_eq!(plan.fft_size(), 1024);
    assert_eq!(plan.num_bins(), 512);
    assert_eq!(plan.num_stages(), 10);
    let plan = FftPlan::new(2).unwrap();
    assert_eq!(plan.fft_size(), 2);
    assert_eq!(plan.num_stages(), 1);
}

#[test]
fn test_check_samples_boundary() {
    // exactly the transform size succeeds, one sample fewer fails
    assert!(check_samples(1024, 1024).is_ok());
    assert!(matches!(
        check_samples(1024, 1023),
        Err(GpuFftError::InsufficientSamples { needed: 1024, got: 1023 })
    ));
    assert!(check_samples(1024, 4096).is_ok());
}

#[test]
fn test_check_bands_ceiling() {
    // the documented ceiling succeeds, one more fails
    assert!(check_bands(MAX_BANDS).is_ok());
    assert!(matches!(
        check_bands(MAX_BANDS + 1),
        Err(GpuFftError::TooManyBands { max: 2048, requested: 2049 })
    ));
    assert!(check_bands(0).is_ok());
    assert!(check_bands(32).is_ok());
}

#[test]
fn test_workgroups_of() {
    assert_eq!(workgroups_of(0, 256), 0);
    assert_eq!(workgroups_of(1, 256), 1);
    assert_eq!(workgroups_of(256, 256), 1);
    assert_eq!(workgroups_of(257, 256), 2);
    assert_eq!(workgroups_of(1024, 256), 4);
    assert_eq!(workgroups_of(32, 64), 1);
    assert_eq!(workgroups_of(2048, 64), 32);
}

#[test]
fn test_band_bin_range_clamps() {
    assert_eq!(band_bin_range(0, 5, 512), (0, 5));
    assert_eq!(band_bin_range(700, 900, 512), (511, 512));
    assert_eq!(band_bin_range(10, 10, 512), (10, 10));
}

#[test]
fn test_butterfly_passes_ping_pong() {
    let plan = FftPlan::new(1024).unwrap();
    let passes = plan.butterfly_passes();
    assert_eq!(passes.len(), 10);
    // pass 0 reads the buffer the reordering stage wrote
    assert_eq!(passes[0].input, BufferRole::B);
    assert_eq!(passes[0].output, BufferRole::A);
    for (k, pass) in passes.iter().enumerate() {
        assert_eq!(pass.stage as usize, k);
        assert_ne!(pass.input, pass.output);
        if k > 0 {
            assert_eq!(pass.input, passes[k - 1].output);
        }
    }
    // ten passes end in buffer B, so the copy into A is needed
    assert_eq!(passes[9].output, BufferRole::B);
    assert!(plan.needs_final_copy());
}

#[test]
fn test_analyze_steps_order_even_stages() {
    // 4-point transform: two passes, ending in B, so the copy step appears
    let plan = FftPlan::new(4).unwrap();
    let steps = plan.analyze_steps();
    assert_eq!(steps.len(), 6);
    assert!(matches!(steps[0], FftStep::Window { workgroups: 1 }));
    assert!(matches!(steps[1], FftStep::BitReverse { workgroups: 1 }));
    assert!(matches!(
        steps[2],
        FftStep::Butterfly { stage: 0, input: BufferRole::B, output: BufferRole::A, .. }
    ));
    assert!(matches!(
        steps[3],
        FftStep::Butterfly { stage: 1, input: BufferRole::A, output: BufferRole::B, .. }
    ));
    assert!(matches!(steps[4], FftStep::CopyToA));
    assert!(matches!(steps[5], FftStep::Magnitude { workgroups: 1 }));
}

#[test]
fn test_analyze_steps_order_odd_stages() {
    // 8-point transform: three passes, ending in A, no copy step
    let plan = FftPlan::new(8).unwrap();
    let steps = plan.analyze_steps();
    assert_eq!(steps.len(), 6);
    assert!(matches!(steps[2], FftStep::Butterfly { stage: 0, input: BufferRole::B, .. }));
    assert!(matches!(steps[3], FftStep::Butterfly { stage: 1, input: BufferRole::A, .. }));
    assert!(matches!(
        steps[4],
        FftStep::Butterfly { stage: 2, input: BufferRole::B, output: BufferRole::A, .. }
    ));
    assert!(matches!(steps[5], FftStep::Magnitude { .. }));
}

#[test]
fn test_analyze_bands_steps_appends_reduction() {
    let plan = FftPlan::new(1024).unwrap();
    let steps = plan.analyze_bands_steps(32);
    let base = plan.analyze_steps();
    assert_eq!(steps.len(), base.len() + 1);
    assert!(matches!(steps[steps.len() - 1], FftStep::BandReduce { workgroups: 1 }));
    // a 1024-point transform dispatches 4 groups of 256 for the full stages
    assert!(matches!(steps[0], FftStep::Window { workgroups: 4 }));
    assert!(matches!(steps[2], FftStep::Butterfly { workgroups: 2, .. }));
}

#[test]
fn test_analyze_steps_repeatable() {
    // the plan keeps no hidden state: repeating a call repeats its schedule
    let plan = FftPlan::new(2048).unwrap();
    assert_eq!(plan.analyze_steps(), plan.analyze_steps());
    assert_eq!(plan.analyze_bands_steps(64), plan.analyze_bands_steps(64));
    let other = FftPlan::new(2048).unwrap();
    assert_eq!(plan.analyze_steps(), other.analyze_steps());
}

#[test]
fn test_fft_params_fields() {
    let p = FftParams::new(1024, 3, true);
    assert_eq!(p.n, 1024);
    assert_eq!(p.stage, 3);
    assert_eq!(p.direction, 1);
    assert_eq!(p.log2_n, 10);
    let q = FftParams::new(2048, 0, false);
    assert_eq!(q.direction, -1);
    assert_eq!(q.log2_n, 11);
}

#[test]
fn test_window_params_fields() {
    let w = WindowParams::new(2048);
    assert_eq!(w.n, 2048);
    assert_eq!(w._pad1, 0);
    assert_eq!(w._vec3_pad, 0);
}
