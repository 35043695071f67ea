//! Weights, kernels and overrides of an attention layer.

use crate::gpu::{DenseWeight, DevicePtr, Fp8Weight, KernelHandle, QuantizedWeight};
use crate::moe::FfnComponent;
use vstd::prelude::*;

verus! {

/// Storage format of the paged key-value cache.
#[derive(Clone, Copy, PartialEq, Eq, Structural, Debug)]
pub enum KvCacheDtype {
    Bf16,
    Fp8,
    Nvfp4,
    Turbo3,
    Turbo4,
    Turbo8,
}

/// A quantized projection.
#[derive(Clone, Copy, PartialEq, Eq, Structural, Debug)]
pub enum QuantWeight {
    Nvfp4(QuantizedWeight),
    Fp8(Fp8Weight),
}

/// Projections and norms of a standard attention layer. The cache scales are
/// f32 bits.
#[derive(Clone, Copy, PartialEq, Eq, Structural, Debug)]
pub struct AttentionWeights {
    pub q_proj: DenseWeight,
    pub k_proj: DenseWeight,
    pub v_proj: DenseWeight,
    pub o_proj: QuantizedWeight,
    pub q_norm: DenseWeight,
    pub k_norm: DenseWeight,
    pub q_norm_full: Option<DenseWeight>,
    pub k_norm_full: Option<DenseWeight>,
    pub k_scale: u32,
    pub v_scale: u32,
}

/// Weights of a latent-attention layer, with the ranks and head widths.
#[derive(Clone, Copy, PartialEq, Eq, Structural, Debug)]
pub struct MlaWeights {
    pub wq_a: DenseWeight,
    pub wq_a_nvfp4: Option<QuantizedWeight>,
    pub wq_b: DenseWeight,
    pub wq_b_nvfp4: Option<QuantizedWeight>,
    pub q_a_norm: DenseWeight,
    pub wkv_a: DenseWeight,
    pub wkv_a_nvfp4: Option<QuantizedWeight>,
    pub wkv_b: DenseWeight,
    pub kv_a_norm: DenseWeight,
    pub wkv_a_rope: DenseWeight,
    pub wkv_a_merged: DenseWeight,
    pub wo: DenseWeight,
    pub wo_nvfp4: Option<QuantizedWeight>,
    pub w_uk_t: DenseWeight,
    pub w_uv: DenseWeight,
    pub wq_b_rope: DenseWeight,
    pub w_qk_absorbed: DenseWeight,
    pub w_uk_block_diag: DenseWeight,
    pub w_uv_block_diag: DenseWeight,
    pub yarn_inv_freq: DevicePtr,
    pub g_proj: DenseWeight,
    pub q_lora_rank: usize,
    pub kv_lora_rank: usize,
    pub nope: usize,
    pub rope: usize,
    pub v_dim: usize,
}

/// Running calibration of the FP8 cache scales.
#[derive(Clone, Copy, PartialEq, Eq, Structural, Debug)]
pub struct Fp8KvCalibration {
    pub tokens: usize,
}

/// An attention layer.
pub struct Qwen3AttentionLayer {
    pub input_norm: DenseWeight,
    pub attn: AttentionWeights,
    pub post_attn_norm: DenseWeight,
    pub ffn: FfnComponent,
    pub attn_layer_idx: usize,
    pub gated: bool,
    pub mrope_interleaved: bool,
    pub head_dim_override: Option<usize>,
    pub num_q_heads_override: Option<usize>,
    pub num_kv_heads_override: Option<usize>,
    pub sliding_window: Option<u32>,
    /// f32 bits.
    pub rope_theta_override: Option<u32>,
    pub rotary_dim_override: Option<u32>,
    pub rope_proportional: bool,
    /// f32 bits.
    pub attn_scale_override: Option<u32>,
    pub k_eq_v: bool,
    pub v_norm_weight: Option<DenseWeight>,
    pub post_attn_out_norm: Option<DenseWeight>,
    pub post_ffn_out_norm: Option<DenseWeight>,
    /// f32 bits.
    pub layer_scalar: Option<u32>,
    pub moe_ffn: Option<FfnComponent>,
    pub pre_moe_norm: Option<DenseWeight>,
    pub post_moe_out_norm: Option<DenseWeight>,
    pub post_dense_ffn_norm: Option<DenseWeight>,
    pub kv_dtype: KvCacheDtype,
    /// f32 bits.
    pub sparse_v_threshold: u32,
    pub q_weight: Option<QuantWeight>,
    pub k_weight: Option<QuantWeight>,
    pub v_weight: Option<QuantWeight>,
    pub o_weight: Option<QuantWeight>,
    pub o_dense_bf16: Option<DenseWeight>,
    pub mla: Option<MlaWeights>,
    pub q_nvfp4_t: Option<QuantizedWeight>,
    pub k_nvfp4_t: Option<QuantizedWeight>,
    pub v_nvfp4_t: Option<QuantizedWeight>,
    pub o_nvfp4_t: Option<QuantizedWeight>,
    pub q_fp8w_t: Option<Fp8Weight>,
    pub k_fp8w_t: Option<Fp8Weight>,
    pub v_fp8w_t: Option<Fp8Weight>,
    pub o_fp8w_t: Option<Fp8Weight>,
    pub q_fp8: Option<DevicePtr>,
    pub k_fp8: Option<DevicePtr>,
    pub v_fp8: Option<DevicePtr>,
    pub o_fp8: Option<DevicePtr>,
    pub fp8_calibration: Option<Fp8KvCalibration>,
    pub k: AttentionKernels,
}

/// Kernels of an attention layer.
#[derive(Clone, Copy, PartialEq, Eq, Structural, Debug)]
pub struct AttentionKernels {
    pub w8a16_gemm_t: KernelHandle,
    pub rms_norm: KernelHandle,
    pub rms_norm_residual: KernelHandle,
    pub rms_norm_f32_in: KernelHandle,
    pub dense_gemv: KernelHandle,
    pub w4a16_gemv: KernelHandle,
    pub w8a16_gemv: KernelHandle,
    pub w8a16_gemm: KernelHandle,
    pub w4a16_gemv_dual: KernelHandle,
    pub rope: KernelHandle,
    pub rope_mrope_interleaved: KernelHandle,
    pub rope_yarn: KernelHandle,
    pub rope_proportional: KernelHandle,
    pub reshape_cache: KernelHandle,
    pub wht_bf16: KernelHandle,
    pub paged_decode: KernelHandle,
    pub paged_decode_512: KernelHandle,
    pub paged_decode_mla: KernelHandle,
    pub mla_batched_gemv: KernelHandle,
    pub mla_q_rope_scatter: KernelHandle,
    pub mla_q_rope_writeback: KernelHandle,
    pub mla_cache_assemble: KernelHandle,
    pub mla_q_rope_extract_batched: KernelHandle,
    pub mla_q_rope_writeback_batched: KernelHandle,
    pub mla_kv_assemble_batched: KernelHandle,
    pub mla_cache_assemble_batched: KernelHandle,
    pub prefill_attn_mla320: KernelHandle,
    pub grouped_gemm_mla: KernelHandle,
    pub mla_q_final_assemble: KernelHandle,
    pub mla_fused_prefill: KernelHandle,
    pub gemm_splitk_partial: KernelHandle,
    pub gemm_splitk_reduce: KernelHandle,
    pub dense_gemm_tc: KernelHandle,
    pub paged_decode_splitk: Option<KernelHandle>,
    pub paged_decode_reduce: Option<KernelHandle>,
    pub residual_add: KernelHandle,
    pub sigmoid_gate_mul: KernelHandle,
    pub deinterleave_qg: KernelHandle,
    pub w4a16_gemv_qg: KernelHandle,
    pub residual_add_rms_norm: KernelHandle,
    pub w4a16_gemv_qg_batch2: KernelHandle,
    pub w4a16_gemv_dual_batch2: KernelHandle,
    pub w4a16_gemv_batch2: KernelHandle,
    pub w4a16_gemv_qg_batch3: KernelHandle,
    pub w4a16_gemv_dual_batch3: KernelHandle,
    pub w4a16_gemv_batch3: KernelHandle,
    pub w4a16_gemm: KernelHandle,
    pub w4a16_gemm_t: KernelHandle,
    pub w4a16_gemm_t_k64: KernelHandle,
    pub w4a16_gemm_t_m128: KernelHandle,
    pub w4a16_gemm_t_m128_v2: KernelHandle,
    pub w4a16_gemm_t_m128_v3: KernelHandle,
    pub dense_gemm: KernelHandle,
    pub prefill_attn: KernelHandle,
    pub prefill_attn_512: KernelHandle,
    pub prefill_attn_paged_512: KernelHandle,
    pub prefill_attn_64: KernelHandle,
    pub prefill_attn_paged: KernelHandle,
    pub prefill_attn_paged_fp8: KernelHandle,
    pub prefill_attn_paged_nvfp4: KernelHandle,
    pub prefill_attn_paged_turbo4: KernelHandle,
    pub prefill_attn_paged_64: KernelHandle,
    pub prefill_attn_paged_fp8_64: KernelHandle,
    pub prefill_attn_paged_nvfp4_64: KernelHandle,
    pub prefill_attn_paged_turbo4_64: KernelHandle,
    pub prefill_attn_paged_batched: KernelHandle,
    pub prefill_attn_paged_fp8_batched: KernelHandle,
    pub prefill_attn_paged_nvfp4_batched: KernelHandle,
    pub prefill_attn_paged_batched_64: KernelHandle,
    pub prefill_attn_paged_fp8_batched_64: KernelHandle,
    pub prefill_attn_paged_nvfp4_batched_64: KernelHandle,
    pub deinterleave_qg_split: KernelHandle,
    pub deinterleave_qg_split_qnorm: KernelHandle,
    pub sigmoid_gate_mul_batched: KernelHandle,
    pub fp8_gemm: KernelHandle,
    pub bf16_to_fp8: KernelHandle,
    pub fp8_fp8_gemm: KernelHandle,
    pub fp8_gemm_t_m128: KernelHandle,
    pub fp8_fp8_gemm_t_m128: KernelHandle,
}

} // verus!
