//! Mixture-of-experts feed-forward layers.

pub mod enqueued;
pub mod filled;
pub mod forward_batched;
pub mod forward_k2;
pub mod forward_prefill;
pub mod forward_prefill_fp8;
pub mod forward_prefill_phase;
pub mod forward_prefill_routed;
pub mod init;
pub mod launched;
pub mod meaning;
pub mod ordering;
pub mod routing;
pub mod tables;

use crate::gpu::{
    DenseExpertWeight, DenseWeight, DevicePtr, ExpertPtrTable, ExpertWeight, Fp8ExpertPtrTable,
    Fp8ExpertWeight, KernelHandle, QuantizedWeight,
};
use vstd::prelude::*;

verus! {

/// Weights of one mixture-of-experts layer.
#[derive(Clone, Debug)]
pub struct MoeWeights {
    pub gate: DenseWeight,
    pub experts: Vec<ExpertWeight>,
    pub shared_expert: ExpertWeight,
    pub shared_expert_dense: Option<DenseExpertWeight>,
    pub shared_expert_gate: DenseWeight,
    pub correction_bias: Option<DenseWeight>,
}

/// A mixture-of-experts layer: weights, expert tables and kernels.
pub struct MoeLayer {
    pub weights: MoeWeights,
    pub gate_nvfp4: Option<QuantizedWeight>,
    pub pre_expert_norm: Option<DenseWeight>,
    pub gate_ptrs: ExpertPtrTable,
    pub up_ptrs: ExpertPtrTable,
    pub down_ptrs: ExpertPtrTable,
    pub gate_ptrs_t: Option<ExpertPtrTable>,
    pub up_ptrs_t: Option<ExpertPtrTable>,
    pub down_ptrs_t: Option<ExpertPtrTable>,
    pub down_t_scratch_packed: Option<DevicePtr>,
    pub down_t_scratch_scale: Option<DevicePtr>,
    pub shared_gate_t: Option<QuantizedWeight>,
    pub shared_up_t: Option<QuantizedWeight>,
    pub shared_down_t: Option<QuantizedWeight>,
    pub gate_fp8: Option<DevicePtr>,
    pub shared_gate_fp8: Option<DevicePtr>,
    pub shared_up_fp8: Option<DevicePtr>,
    pub shared_down_fp8: Option<DevicePtr>,
    pub shared_gate_dense: Option<DenseWeight>,
    pub shared_up_dense: Option<DenseWeight>,
    pub shared_down_dense: Option<DenseWeight>,
    pub fp8_gate_weight_ptrs: Option<Fp8ExpertPtrTable>,
    pub fp8_up_weight_ptrs: Option<Fp8ExpertPtrTable>,
    pub fp8_down_weight_ptrs: Option<Fp8ExpertPtrTable>,
    pub fp8_shared_expert: Option<Fp8ExpertWeight>,
    pub correction_bias_dev: Option<DevicePtr>,
    pub gelu_activation: bool,
    /// Keep only the transposed expert layout.
    pub unified_layout: bool,
    /// Keep both layouts and pick by the number of rows.
    pub hybrid_layout: bool,
    /// Use 128-row tiles for the fused gate and up projections.
    pub nvfp4_gate_up_m128: bool,
    pub fp8_moe_coalesced_enabled: bool,
    /// Whether several rows go through the transposed layout.
    pub t_layout_prefill: bool,
    /// Whether a few rows go through the transposed layout.
    pub t_layout_decode: bool,
    pub prefill_stream: u64,
    pub event_a: u64,
    pub event_b: u64,
    pub is_dflash_capture_layer: bool,
    /// Limit on the activated product, f32 bits; zero means no limit.
    pub swiglu_clamp: u32,
    pub k: MoeKernels,
}

/// Kernels of a mixture-of-experts layer.
#[derive(Clone, Copy, PartialEq, Eq, Structural, Debug)]
pub struct MoeKernels {
    pub pre_expert_norm: KernelHandle,
    pub dense_gemv: KernelHandle,
    pub w4a16_gemv: KernelHandle,
    pub w4a16_gemm: KernelHandle,
    pub dense_gemm: KernelHandle,
    pub gate_up_shared: KernelHandle,
    pub silu_down_shared: KernelHandle,
    pub topk: KernelHandle,
    pub weighted_sum_blend: KernelHandle,
    pub residual_add: KernelHandle,
    pub topk_batched: KernelHandle,
    pub gate_up_shared_batch2: KernelHandle,
    pub silu_down_shared_batch2: KernelHandle,
    pub weighted_sum_blend_batch2: KernelHandle,
    pub w4a16_gemv_batch2: KernelHandle,
    pub gate_up_shared_batch3: KernelHandle,
    pub silu_down_shared_batch3: KernelHandle,
    pub weighted_sum_blend_batch3: KernelHandle,
    pub w4a16_gemv_batch3: KernelHandle,
    pub sort_by_expert: KernelHandle,
    pub sorted_gate_up: KernelHandle,
    pub sorted_silu_down: KernelHandle,
    pub grouped_gemm: KernelHandle,
    pub grouped_gemm_t: KernelHandle,
    pub grouped_gemm_t_k64: KernelHandle,
    pub fused_gate_up_t: KernelHandle,
    pub fused_gate_up_t_k64: KernelHandle,
    pub fused_gate_up_t_k64_m128: KernelHandle,
    pub fp8_grouped_gemm_t: KernelHandle,
    pub fp8_grouped_gemm: KernelHandle,
    pub fp8_grouped_gemm_v2: KernelHandle,
    pub w8a16_gemm: KernelHandle,
    pub gate_topk_fused: KernelHandle,
    pub w4a16_gemm_t: KernelHandle,
    pub bf16_to_fp8: KernelHandle,
    pub fp8_gemm: KernelHandle,
    pub silu_mul: KernelHandle,
    pub act_mul: KernelHandle,
    pub unpermute_reduce: KernelHandle,
    pub batched_blend: KernelHandle,
    pub transpose_u8_batched: KernelHandle,
    pub gate_up_shared_t: KernelHandle,
    pub silu_down_shared_t: KernelHandle,
    pub gate_up_shared_batch2_t: KernelHandle,
    pub silu_down_shared_batch2_t: KernelHandle,
    pub gate_up_shared_batch3_t: KernelHandle,
    pub silu_down_shared_batch3_t: KernelHandle,
    pub gate_up_shared_fp8_t: KernelHandle,
    pub silu_down_shared_fp8_t: KernelHandle,
    pub gate_up_shared_fp8_batch2_t: KernelHandle,
    pub silu_down_shared_fp8_batch2_t: KernelHandle,
    pub gate_up_shared_fp8_batch3_t: KernelHandle,
    pub silu_down_shared_fp8_batch3_t: KernelHandle,
    pub gate_up_shared_fp8: KernelHandle,
    pub silu_down_shared_fp8: KernelHandle,
    pub gate_up_shared_fp8_batch2: KernelHandle,
    pub silu_down_shared_fp8_batch2: KernelHandle,
    pub weighted_sum_blend_fp8_batch2: KernelHandle,
    pub gate_up_shared_fp8_batch3: KernelHandle,
    pub silu_down_shared_fp8_batch3: KernelHandle,
    pub weighted_sum_blend_fp8_batch3: KernelHandle,
    pub topk_sigmoid: KernelHandle,
    pub topk_sigmoid_batched: KernelHandle,
    pub clamp_bf16: KernelHandle,
}

/// Why a mixture-of-experts pass cannot be planned.
#[derive(Clone, Copy, PartialEq, Eq, Structural, Debug)]
pub enum MoeError {
    /// The layer has no complete set of FP8 expert tables.
    Fp8TablesNotSet,
    /// Experts are selected by sigmoid, and the kernel for it is not loaded.
    SigmoidKernelMissing,
}

/// The feed-forward part of a decoder layer.
pub enum FfnComponent {
    Empty,
    Moe(Box<MoeLayer>),
}

} // verus!
