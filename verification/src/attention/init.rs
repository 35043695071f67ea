//! Setting a layer up.

use crate::attention::types::{
    AttentionKernels, AttentionWeights, Fp8KvCalibration, KvCacheDtype, QuantWeight,
    Qwen3AttentionLayer,
};
use crate::config::ModelConfig;
use crate::gpu::{DenseWeight, KernelHandle, QuantizedWeight};
use crate::kernels::{KernelTable, Lookup, MissingKernel};
use crate::moe::FfnComponent;
use crate::text::same;
use vstd::prelude::*;

verus! {

/// What decides between kernels.
#[derive(Clone, Copy, PartialEq, Eq, Structural, Debug)]
pub struct AttentionOptions {
    pub kv_dtype: KvCacheDtype,
    pub head_dim: usize,
    /// Whether the residual stream is kept in single precision.
    pub fp32_residual: bool,
    /// Whether norms work on absolute values.
    pub gemma4: bool,
    pub rope_interleave: bool,
}

/// Kernels that only latent attention uses. None of them is required; handle
/// zero stands for one that is not loaded.
#[derive(Clone, Copy, PartialEq, Eq, Structural, Debug)]
pub struct LatentKernels {
    /// Attention with 192-wide queries and 128-wide values.
    pub ling_prefill_attn: KernelHandle,
    /// Sigmoid head gate.
    pub headwise_gate: KernelHandle,
    /// Attention with 192-wide heads.
    pub prefill_h192: KernelHandle,
}

impl LatentKernels {
    pub open spec fn of(t: &KernelTable) -> Self {
        LatentKernels {
            ling_prefill_attn: t.handle("ling_mla_attn"@, "ling_mla_prefill_attn"@),
            headwise_gate: t.handle("ling_mla_attn"@, "ling_mla_headwise_gate"@),
            prefill_h192: t.handle("prefill_h192"@, "inferspark_prefill_64_h192"@),
        }
    }

    /// Looks the kernels up.
    pub fn load(t: &KernelTable) -> (r: Self)
        ensures
            r == Self::of(t),
    {
        LatentKernels {
            ling_prefill_attn: t.try_kernel("ling_mla_attn", "ling_mla_prefill_attn"),
            headwise_gate: t.try_kernel("ling_mla_attn", "ling_mla_headwise_gate"),
            prefill_h192: t.try_kernel("prefill_h192", "inferspark_prefill_64_h192"),
        }
    }
}

impl AttentionOptions {
    /// The options that a model's configuration gives.
    pub open spec fn spec_of(c: &ModelConfig, kv_dtype: KvCacheDtype, fp32_residual: bool) -> Self {
        AttentionOptions {
            kv_dtype,
            head_dim: c.head_dim,
            fp32_residual,
            gemma4: c.model_type@ == "gemma4"@,
            rope_interleave: c.rope_interleave,
        }
    }

    pub fn of(c: &ModelConfig, kv_dtype: KvCacheDtype, fp32_residual: bool) -> (r: Self)
        ensures
            r == Self::spec_of(c, kv_dtype, fp32_residual),
    {
        AttentionOptions {
            kv_dtype,
            head_dim: c.head_dim,
            fp32_residual,
            gemma4: same(c.model_type.as_str(), "gemma4"),
            rope_interleave: c.rope_interleave,
        }
    }

    /// Module and function that store rows into the cache.
    pub open spec fn reshape_kernel(self) -> (Seq<char>, Seq<char>) {
        match self.kv_dtype {
            KvCacheDtype::Nvfp4 => ("reshape_and_cache"@, "reshape_and_cache_flash_nvfp4"@),
            KvCacheDtype::Turbo4 => ("reshape_and_cache_turbo"@, "reshape_and_cache_flash_turbo4"@),
            KvCacheDtype::Turbo3 => ("reshape_and_cache_turbo"@, "reshape_and_cache_flash_turbo3"@),
            KvCacheDtype::Turbo8 => ("reshape_and_cache_turbo"@, "reshape_and_cache_flash_turbo8"@),
            KvCacheDtype::Bf16 => ("reshape_and_cache"@, "reshape_and_cache_flash"@),
            KvCacheDtype::Fp8 => ("reshape_and_cache"@, "reshape_and_cache_flash_fp8"@),
        }
    }

    /// Module and function that attend to the cache. The rotated formats have
    /// modules of their own for narrow heads.
    pub open spec fn decode_kernel(self) -> (Seq<char>, Seq<char>) {
        match self.kv_dtype {
            KvCacheDtype::Nvfp4 => ("paged_decode_nvfp4"@, "paged_decode_attn_nvfp4"@),
            KvCacheDtype::Turbo4 => (
                if self.head_dim <= 128 {
                    "paged_decode_turbo4_128"@
                } else {
                    "paged_decode_turbo4"@
                },
                "paged_decode_attn_turbo4"@,
            ),
            KvCacheDtype::Turbo3 => (
                if self.head_dim <= 128 {
                    "paged_decode_turbo3_128"@
                } else {
                    "paged_decode_turbo3"@
                },
                "paged_decode_attn_turbo3"@,
            ),
            KvCacheDtype::Turbo8 => (
                if self.head_dim <= 128 {
                    "paged_decode_turbo8_128"@
                } else {
                    "paged_decode_turbo8"@
                },
                "paged_decode_attn_turbo8"@,
            ),
            KvCacheDtype::Bf16 => ("paged_decode"@, "paged_decode_attn"@),
            KvCacheDtype::Fp8 => ("paged_decode_fp8"@, "paged_decode_attn_fp8"@),
        }
    }

    /// Module and function for heads of 512.
    pub open spec fn decode_512_kernel(self) -> (Seq<char>, Seq<char>) {
        match self.kv_dtype {
            KvCacheDtype::Bf16 => ("paged_decode_attn_512"@, "paged_decode_attn"@),
            KvCacheDtype::Turbo4 => ("paged_decode_turbo4_512"@, "paged_decode_attn_turbo4"@),
            KvCacheDtype::Turbo8 => ("paged_decode_turbo8_512"@, "paged_decode_attn_turbo8"@),
            KvCacheDtype::Turbo3 => ("paged_decode_turbo4_512"@, "paged_decode_attn_turbo4"@),
            _ => ("paged_decode_attn_fp8_512"@, "paged_decode_attn_fp8"@),
        }
    }

    /// Which split kernels there are: 4-bit ones, 8-bit ones, or none.
    pub open spec fn splitk_format(self) -> Option<bool> {
        match self.kv_dtype {
            KvCacheDtype::Nvfp4 => Some(true),
            KvCacheDtype::Turbo3 => None,
            KvCacheDtype::Turbo4 => None,
            KvCacheDtype::Turbo8 => None,
            _ => Some(false),
        }
    }

    fn cache_names(self) -> (r: (&'static str, &'static str, &'static str, &'static str))
        ensures
            (r.0@, r.1@) == self.reshape_kernel(),
            (r.2@, r.3@) == self.decode_kernel(),
    {
        let narrow: bool = self.head_dim <= 128;
        match self.kv_dtype {
            KvCacheDtype::Nvfp4 => (
                "reshape_and_cache",
                "reshape_and_cache_flash_nvfp4",
                "paged_decode_nvfp4",
                "paged_decode_attn_nvfp4",
            ),
            KvCacheDtype::Turbo4 => (
                "reshape_and_cache_turbo",
                "reshape_and_cache_flash_turbo4",
                if narrow {
                    "paged_decode_turbo4_128"
                } else {
                    "paged_decode_turbo4"
                },
                "paged_decode_attn_turbo4",
            ),
            KvCacheDtype::Turbo3 => (
                "reshape_and_cache_turbo",
                "reshape_and_cache_flash_turbo3",
                if narrow {
                    "paged_decode_turbo3_128"
                } else {
                    "paged_decode_turbo3"
                },
                "paged_decode_attn_turbo3",
            ),
            KvCacheDtype::Turbo8 => (
                "reshape_and_cache_turbo",
                "reshape_and_cache_flash_turbo8",
                if narrow {
                    "paged_decode_turbo8_128"
                } else {
                    "paged_decode_turbo8"
                },
                "paged_decode_attn_turbo8",
            ),
            KvCacheDtype::Bf16 => (
                "reshape_and_cache",
                "reshape_and_cache_flash",
                "paged_decode",
                "paged_decode_attn",
            ),
            KvCacheDtype::Fp8 => (
                "reshape_and_cache",
                "reshape_and_cache_flash_fp8",
                "paged_decode_fp8",
                "paged_decode_attn_fp8",
            ),
        }
    }

    fn decode_512_names(self) -> (r: (&'static str, &'static str))
        ensures
            (r.0@, r.1@) == self.decode_512_kernel(),
    {
        match self.kv_dtype {
            KvCacheDtype::Bf16 => ("paged_decode_attn_512", "paged_decode_attn"),
            KvCacheDtype::Turbo4 => ("paged_decode_turbo4_512", "paged_decode_attn_turbo4"),
            KvCacheDtype::Turbo8 => ("paged_decode_turbo8_512", "paged_decode_attn_turbo8"),
            KvCacheDtype::Turbo3 => ("paged_decode_turbo4_512", "paged_decode_attn_turbo4"),
            _ => ("paged_decode_attn_fp8_512", "paged_decode_attn_fp8"),
        }
    }
}

impl AttentionKernels {
    /// The first of two optional kernels that is loaded.
    pub open spec fn first_loaded(
        t: &KernelTable,
        first: (Seq<char>, Seq<char>),
        second: (Seq<char>, Seq<char>),
    ) -> KernelHandle {
        if t.handle(first.0, first.1).0 != 0 {
            t.handle(first.0, first.1)
        } else {
            t.handle(second.0, second.1)
        }
    }

    /// The kernels of a layer.
    pub open spec fn of(t: &KernelTable, o: AttentionOptions) -> AttentionKernels {
        AttentionKernels {
            w8a16_gemm_t: t.handle("w8a16_gemm_t"@, "w8a16_gemm_t"@),
            rms_norm: t.handle("norm"@, "rms_norm"@),
            rms_norm_residual: t.pick(
                o.fp32_residual,
                (
                    "norm"@,
                    if o.gemma4 { "rms_norm_residual_f32_abs"@ } else { "rms_norm_residual_f32"@ },
                ),
                ("norm"@, "rms_norm_residual"@),
            ),
            dense_gemv: t.handle("gemv"@, "dense_gemv_bf16"@),
            w4a16_gemv: t.handle("w4a16_gemv"@, "w4a16_gemv"@),
            w8a16_gemv: t.handle("w8a16_gemv"@, "w8a16_gemv"@),
            w8a16_gemm: t.handle("w8a16_gemm"@, "w8a16_gemm"@),
            w4a16_gemv_dual: t.handle("w4a16_gemv_fused"@, "w4a16_gemv_dual"@),
            rope: t.handle("rope"@, "rope_forward"@),
            rope_mrope_interleaved: t.handle(
                "rope_mrope_interleaved"@, "rope_forward_mrope_interleaved"@,
            ),
            rope_yarn: if o.rope_interleave {
                Self::first_loaded(
                    t, ("rope"@, "rope_forward_yarn_interleave"@), ("rope"@, "rope_forward_yarn"@),
                )
            } else {
                t.handle("rope"@, "rope_forward_yarn"@)
            },
            rope_proportional: t.handle("rope"@, "rope_forward_proportional"@),
            reshape_cache: t.handle(o.reshape_kernel().0, o.reshape_kernel().1),
            wht_bf16: t.handle("wht_bf16"@, "wht_bf16_inplace"@),
            paged_decode: t.handle(o.decode_kernel().0, o.decode_kernel().1),
            paged_decode_512: t.handle(o.decode_512_kernel().0, o.decode_512_kernel().1),
            paged_decode_mla: Self::first_loaded(
                t, ("paged_decode_mla576"@, "paged_decode_attn_mla576"@),
                ("paged_decode"@, "paged_decode_attn"@),
            ),
            mla_batched_gemv: t.handle("mla_absorbed"@, "mla_batched_gemv"@),
            mla_q_rope_scatter: t.handle("mla_absorbed"@, "mla_q_rope_scatter"@),
            mla_q_rope_writeback: t.handle("mla_absorbed"@, "mla_q_rope_writeback"@),
            mla_cache_assemble: t.handle("mla_absorbed"@, "mla_cache_assemble"@),
            mla_q_rope_extract_batched: t.handle("mla_absorbed"@, "mla_q_rope_extract_batched"@),
            mla_q_rope_writeback_batched: t.handle(
                "mla_absorbed"@, "mla_q_rope_writeback_batched"@,
            ),
            mla_kv_assemble_batched: t.handle("mla_absorbed"@, "mla_kv_assemble_batched"@),
            mla_cache_assemble_batched: t.handle("mla_absorbed"@, "mla_cache_assemble_batched"@),
            prefill_attn_mla320: t.handle("mla_prefill_attn"@, "mla_prefill_attn_320"@),
            grouped_gemm_mla: t.handle("grouped_gemm_mla"@, "grouped_gemm_mla"@),
            mla_q_final_assemble: t.handle("mla_absorbed"@, "mla_q_final_assemble_batched"@),
            mla_fused_prefill: t.handle("mla_fused_prefill"@, "mla_fused_prefill"@),
            gemm_splitk_partial: t.handle("gemm_splitk"@, "dense_gemm_splitk_partial"@),
            gemm_splitk_reduce: t.handle("gemm_splitk"@, "dense_gemm_splitk_reduce"@),
            dense_gemm_tc: t.handle("gemm_tc"@, "dense_gemm_tc"@),
            paged_decode_splitk: match o.splitk_format() {
                Some(true) => Some(
                    t.handle("paged_decode_nvfp4"@, "paged_decode_attn_splitk_nvfp4"@),
                ),
                Some(false) => Some(t.handle("paged_decode_fp8"@, "paged_decode_attn_splitk_fp8"@)),
                None => None,
            },
            paged_decode_reduce: match o.splitk_format() {
                Some(true) => Some(
                    t.handle("paged_decode_nvfp4"@, "paged_decode_attn_reduce_nvfp4"@),
                ),
                Some(false) => Some(t.handle("paged_decode_fp8"@, "paged_decode_attn_reduce_fp8"@)),
                None => None,
            },
            residual_add: t.pick(
                o.fp32_residual, ("norm"@, "f32_residual_add"@),
                ("residual_add"@, "bf16_residual_add"@),
            ),
            rms_norm_f32_in: if o.fp32_residual && o.gemma4 {
                t.handle("norm"@, "rms_norm_f32_in_abs"@)
            } else {
                KernelHandle(0)
            },
            sigmoid_gate_mul: t.handle("residual_add"@, "sigmoid_gate_mul"@),
            deinterleave_qg: t.handle("ssm_preprocess"@, "deinterleave_qg"@),
            w4a16_gemv_qg: t.handle("w4a16_gemv"@, "w4a16_gemv_qg"@),
            residual_add_rms_norm: t.pick(
                o.fp32_residual,
                (
                    "norm"@,
                    if o.gemma4 {
                        "residual_add_rms_norm_f32_abs"@
                    } else {
                        "residual_add_rms_norm_f32"@
                    },
                ),
                ("norm"@, "residual_add_rms_norm"@),
            ),
            w4a16_gemv_qg_batch2: t.handle("w4a16_gemv"@, "w4a16_gemv_qg_batch2"@),
            w4a16_gemv_dual_batch2: t.handle("w4a16_gemv"@, "w4a16_gemv_dual_batch2"@),
            w4a16_gemv_batch2: t.handle("w4a16_gemv"@, "w4a16_gemv_batch2"@),
            w4a16_gemv_qg_batch3: t.handle("w4a16_gemv"@, "w4a16_gemv_qg_batch3"@),
            w4a16_gemv_dual_batch3: t.handle("w4a16_gemv"@, "w4a16_gemv_dual_batch3"@),
            w4a16_gemv_batch3: t.handle("w4a16_gemv"@, "w4a16_gemv_batch3"@),
            w4a16_gemm: t.handle("w4a16"@, "w4a16_gemm"@),
            w4a16_gemm_t: t.handle("w4a16"@, "w4a16_gemm_t"@),
            w4a16_gemm_t_k64: t.handle("w4a16"@, "w4a16_gemm_t_k64"@),
            w4a16_gemm_t_m128: t.handle("w4a16"@, "w4a16_gemm_t_m128"@),
            w4a16_gemm_t_m128_v2: t.handle("w4a16_v2"@, "w4a16_gemm_t_m128_v2"@),
            w4a16_gemm_t_m128_v3: t.handle("w4a16_v3"@, "w4a16_gemm_t_m128_v3"@),
            dense_gemm: t.handle("gemm"@, "dense_gemm_bf16"@),
            prefill_attn: t.handle("inferspark_prefill"@, "inferspark_prefill"@),
            prefill_attn_512: t.handle("inferspark_prefill_512"@, "inferspark_prefill_512"@),
            prefill_attn_paged_512: t.handle(
                "inferspark_prefill_paged_512"@, "inferspark_prefill_paged_512"@,
            ),
            prefill_attn_64: t.handle("inferspark_prefill"@, "inferspark_prefill_64"@),
            prefill_attn_paged: t.handle("prefill_paged"@, "inferspark_prefill_paged"@),
            prefill_attn_paged_fp8: t.handle("prefill_paged_fp8"@, "inferspark_prefill_paged_fp8"@),
            prefill_attn_paged_nvfp4: t.handle(
                "prefill_paged_nvfp4"@, "inferspark_prefill_paged_nvfp4"@,
            ),
            prefill_attn_paged_turbo4: t.handle(
                "prefill_paged_turbo4"@, "inferspark_prefill_paged_turbo4"@,
            ),
            prefill_attn_paged_64: t.handle("prefill_paged"@, "inferspark_prefill_paged_64"@),
            prefill_attn_paged_fp8_64: t.handle(
                "prefill_paged_fp8"@, "inferspark_prefill_paged_fp8_64"@,
            ),
            prefill_attn_paged_nvfp4_64: t.handle(
                "prefill_paged_nvfp4"@, "inferspark_prefill_paged_nvfp4_64"@,
            ),
            prefill_attn_paged_turbo4_64: t.handle(
                "prefill_paged_turbo4"@, "inferspark_prefill_paged_turbo4_64"@,
            ),
            prefill_attn_paged_batched: t.handle(
                "inferspark_prefill_paged_batched"@, "inferspark_prefill_paged_batched"@,
            ),
            prefill_attn_paged_fp8_batched: t.handle(
                "inferspark_prefill_paged_fp8_batched"@, "inferspark_prefill_paged_fp8_batched"@,
            ),
            prefill_attn_paged_nvfp4_batched: t.handle(
                "inferspark_prefill_paged_nvfp4_batched"@,
                "inferspark_prefill_paged_nvfp4_batched"@,
            ),
            prefill_attn_paged_batched_64: t.handle(
                "inferspark_prefill_paged_batched"@, "inferspark_prefill_paged_batched_64"@,
            ),
            prefill_attn_paged_fp8_batched_64: t.handle(
                "inferspark_prefill_paged_fp8_batched"@, "inferspark_prefill_paged_fp8_batched_64"@,
            ),
            prefill_attn_paged_nvfp4_batched_64: t.handle(
                "inferspark_prefill_paged_nvfp4_batched"@,
                "inferspark_prefill_paged_nvfp4_batched_64"@,
            ),
            deinterleave_qg_split: t.handle("ssm_preprocess"@, "deinterleave_qg_split"@),
            deinterleave_qg_split_qnorm: t.handle(
                "ssm_preprocess"@, "deinterleave_qg_split_qnorm"@,
            ),
            sigmoid_gate_mul_batched: t.handle("residual_add"@, "sigmoid_gate_mul_batched"@),
            fp8_gemm: t.handle("w4a16"@, "fp8_gemm_t"@),
            bf16_to_fp8: t.handle("w4a16"@, "bf16_to_fp8"@),
            fp8_fp8_gemm: t.handle("w4a16"@, "fp8_fp8_gemm_t"@),
            fp8_gemm_t_m128: t.handle("w4a16"@, "fp8_gemm_t_m128"@),
            fp8_fp8_gemm_t_m128: t.handle("w4a16"@, "fp8_fp8_gemm_t_m128"@),
        }
    }

    /// The first required kernel that is missing.
    pub open spec fn missing(t: &KernelTable, o: AttentionOptions) -> Option<
        (Seq<char>, Seq<char>),
    > {
        let e = None;
        let e = t.need(e, "norm"@, "rms_norm"@);
        let e = t.need_if(
            e, o.fp32_residual,
            (
                "norm"@,
                if o.gemma4 { "rms_norm_residual_f32_abs"@ } else { "rms_norm_residual_f32"@ },
            ),
            ("norm"@, "rms_norm_residual"@),
        );
        let e = t.need(e, "gemv"@, "dense_gemv_bf16"@);
        let e = t.need(e, "w4a16_gemv"@, "w4a16_gemv"@);
        let e = t.need(e, "w8a16_gemv"@, "w8a16_gemv"@);
        let e = t.need(e, "w4a16_gemv_fused"@, "w4a16_gemv_dual"@);
        let e = t.need(e, "rope"@, "rope_forward"@);
        let e = t.need(e, o.reshape_kernel().0, o.reshape_kernel().1);
        let e = t.need(e, o.decode_kernel().0, o.decode_kernel().1);
        let e = match o.splitk_format() {
            Some(true) => t.need(e, "paged_decode_nvfp4"@, "paged_decode_attn_splitk_nvfp4"@),
            Some(false) => t.need(e, "paged_decode_fp8"@, "paged_decode_attn_splitk_fp8"@),
            None => e,
        };
        let e = match o.splitk_format() {
            Some(true) => t.need(e, "paged_decode_nvfp4"@, "paged_decode_attn_reduce_nvfp4"@),
            Some(false) => t.need(e, "paged_decode_fp8"@, "paged_decode_attn_reduce_fp8"@),
            None => e,
        };
        let e = t.need_if(
            e, o.fp32_residual, ("norm"@, "f32_residual_add"@),
            ("residual_add"@, "bf16_residual_add"@),
        );
        let e = t.need(e, "residual_add"@, "sigmoid_gate_mul"@);
        let e = t.need(e, "ssm_preprocess"@, "deinterleave_qg"@);
        let e = t.need(e, "w4a16_gemv"@, "w4a16_gemv_qg"@);
        let e = t.need_if(
            e, o.fp32_residual,
            (
                "norm"@,
                if o.gemma4 {
                    "residual_add_rms_norm_f32_abs"@
                } else {
                    "residual_add_rms_norm_f32"@
                },
            ),
            ("norm"@, "residual_add_rms_norm"@),
        );
        let e = t.need(e, "w4a16_gemv"@, "w4a16_gemv_qg_batch2"@);
        let e = t.need(e, "w4a16_gemv"@, "w4a16_gemv_dual_batch2"@);
        let e = t.need(e, "w4a16_gemv"@, "w4a16_gemv_batch2"@);
        let e = t.need(e, "w4a16_gemv"@, "w4a16_gemv_qg_batch3"@);
        let e = t.need(e, "w4a16_gemv"@, "w4a16_gemv_dual_batch3"@);
        let e = t.need(e, "w4a16_gemv"@, "w4a16_gemv_batch3"@);
        let e = t.need(e, "w4a16"@, "w4a16_gemm"@);
        let e = t.need(e, "w4a16"@, "w4a16_gemm_t"@);
        let e = t.need(e, "w4a16"@, "w4a16_gemm_t_k64"@);
        let e = t.need(e, "w4a16"@, "w4a16_gemm_t_m128"@);
        let e = t.need(e, "gemm"@, "dense_gemm_bf16"@);
        let e = t.need(e, "inferspark_prefill"@, "inferspark_prefill"@);
        let e = t.need(e, "inferspark_prefill"@, "inferspark_prefill_64"@);
        let e = t.need(e, "prefill_paged"@, "inferspark_prefill_paged"@);
        let e = t.need(e, "prefill_paged_fp8"@, "inferspark_prefill_paged_fp8"@);
        let e = t.need(e, "prefill_paged_nvfp4"@, "inferspark_prefill_paged_nvfp4"@);
        let e = t.need(e, "prefill_paged"@, "inferspark_prefill_paged_64"@);
        let e = t.need(e, "prefill_paged_fp8"@, "inferspark_prefill_paged_fp8_64"@);
        let e = t.need(e, "prefill_paged_nvfp4"@, "inferspark_prefill_paged_nvfp4_64"@);
        let e = t.need(e, "ssm_preprocess"@, "deinterleave_qg_split"@);
        let e = t.need(e, "ssm_preprocess"@, "deinterleave_qg_split_qnorm"@);
        let e = t.need(e, "residual_add"@, "sigmoid_gate_mul_batched"@);
        let e = t.need(e, "w4a16"@, "fp8_gemm_t"@);
        let e = t.need(e, "w4a16"@, "bf16_to_fp8"@);
        let e = t.need(e, "w4a16"@, "fp8_fp8_gemm_t"@);
        let e = t.need(e, "w4a16"@, "fp8_gemm_t_m128"@);
        let e = t.need(e, "w4a16"@, "fp8_fp8_gemm_t_m128"@);
        e
    }

    pub fn load(t: &KernelTable, o: AttentionOptions) -> (r: Result<
        AttentionKernels,
        MissingKernel,
    >)
        ensures
            match r {
                Ok(k) => Self::missing(t, o) is None && k == Self::of(t, o),
                Err(e) => Self::missing(t, o) == Some(e@),
            },
    {
        let names: (&'static str, &'static str, &'static str, &'static str) = o.cache_names();
        let mut l: Lookup = Lookup::new(t);
        let w8a16_gemm_t: KernelHandle = l.may("w8a16_gemm_t", "w8a16_gemm_t");
        let rms_norm: KernelHandle = l.must("norm", "rms_norm");
        let rms_norm_residual: KernelHandle = l.must_if(
            o.fp32_residual,
            ("norm", if o.gemma4 { "rms_norm_residual_f32_abs" } else { "rms_norm_residual_f32" }),
            ("norm", "rms_norm_residual"),
        );
        let dense_gemv: KernelHandle = l.must("gemv", "dense_gemv_bf16");
        let w4a16_gemv: KernelHandle = l.must("w4a16_gemv", "w4a16_gemv");
        let w8a16_gemv: KernelHandle = l.must("w8a16_gemv", "w8a16_gemv");
        let w8a16_gemm: KernelHandle = l.may("w8a16_gemm", "w8a16_gemm");
        let w4a16_gemv_dual: KernelHandle = l.must("w4a16_gemv_fused", "w4a16_gemv_dual");
        let rope: KernelHandle = l.must("rope", "rope_forward");
        let rope_mrope_interleaved: KernelHandle = l.may(
            "rope_mrope_interleaved", "rope_forward_mrope_interleaved",
        );
        let interleave: KernelHandle = l.may("rope", "rope_forward_yarn_interleave");
        let rope_yarn: KernelHandle = if o.rope_interleave && interleave.0 != 0 {
            interleave
        } else {
            l.may("rope", "rope_forward_yarn")
        };
        let rope_proportional: KernelHandle = l.may("rope", "rope_forward_proportional");
        let reshape_cache: KernelHandle = l.must(names.0, names.1);
        let wht_bf16: KernelHandle = l.may("wht_bf16", "wht_bf16_inplace");
        let paged_decode: KernelHandle = l.must(names.2, names.3);
        let wide: (&'static str, &'static str) = o.decode_512_names();
        let paged_decode_512: KernelHandle = l.may(wide.0, wide.1);
        let h576: KernelHandle = l.may("paged_decode_mla576", "paged_decode_attn_mla576");
        let paged_decode_mla: KernelHandle = if h576.0 != 0 {
            h576
        } else {
            l.may("paged_decode", "paged_decode_attn")
        };
        let mla_batched_gemv: KernelHandle = l.may("mla_absorbed", "mla_batched_gemv");
        let mla_q_rope_scatter: KernelHandle = l.may("mla_absorbed", "mla_q_rope_scatter");
        let mla_q_rope_writeback: KernelHandle = l.may("mla_absorbed", "mla_q_rope_writeback");
        let mla_cache_assemble: KernelHandle = l.may("mla_absorbed", "mla_cache_assemble");
        let mla_q_rope_extract_batched: KernelHandle = l.may(
            "mla_absorbed", "mla_q_rope_extract_batched",
        );
        let mla_q_rope_writeback_batched: KernelHandle = l.may(
            "mla_absorbed", "mla_q_rope_writeback_batched",
        );
        let mla_kv_assemble_batched: KernelHandle = l.may(
            "mla_absorbed", "mla_kv_assemble_batched",
        );
        let mla_cache_assemble_batched: KernelHandle = l.may(
            "mla_absorbed", "mla_cache_assemble_batched",
        );
        let prefill_attn_mla320: KernelHandle = l.may("mla_prefill_attn", "mla_prefill_attn_320");
        let grouped_gemm_mla: KernelHandle = l.may("grouped_gemm_mla", "grouped_gemm_mla");
        let mla_q_final_assemble: KernelHandle = l.may(
            "mla_absorbed", "mla_q_final_assemble_batched",
        );
        let mla_fused_prefill: KernelHandle = l.may("mla_fused_prefill", "mla_fused_prefill");
        let gemm_splitk_partial: KernelHandle = l.may("gemm_splitk", "dense_gemm_splitk_partial");
        let gemm_splitk_reduce: KernelHandle = l.may("gemm_splitk", "dense_gemm_splitk_reduce");
        let dense_gemm_tc: KernelHandle = l.may("gemm_tc", "dense_gemm_tc");
        let paged_decode_splitk: Option<KernelHandle> = match o.kv_dtype {
            KvCacheDtype::Nvfp4 => Some(
                l.must("paged_decode_nvfp4", "paged_decode_attn_splitk_nvfp4"),
            ),
            KvCacheDtype::Turbo3 | KvCacheDtype::Turbo4 | KvCacheDtype::Turbo8 => None,
            _ => Some(l.must("paged_decode_fp8", "paged_decode_attn_splitk_fp8")),
        };
        let paged_decode_reduce: Option<KernelHandle> = match o.kv_dtype {
            KvCacheDtype::Nvfp4 => Some(
                l.must("paged_decode_nvfp4", "paged_decode_attn_reduce_nvfp4"),
            ),
            KvCacheDtype::Turbo3 | KvCacheDtype::Turbo4 | KvCacheDtype::Turbo8 => None,
            _ => Some(l.must("paged_decode_fp8", "paged_decode_attn_reduce_fp8")),
        };
        let residual_add: KernelHandle = l.must_if(
            o.fp32_residual, ("norm", "f32_residual_add"), ("residual_add", "bf16_residual_add"),
        );
        let rms_norm_f32_in: KernelHandle = if o.fp32_residual && o.gemma4 {
            l.may("norm", "rms_norm_f32_in_abs")
        } else {
            KernelHandle(0)
        };
        let sigmoid_gate_mul: KernelHandle = l.must("residual_add", "sigmoid_gate_mul");
        let deinterleave_qg: KernelHandle = l.must("ssm_preprocess", "deinterleave_qg");
        let w4a16_gemv_qg: KernelHandle = l.must("w4a16_gemv", "w4a16_gemv_qg");
        let residual_add_rms_norm: KernelHandle = l.must_if(
            o.fp32_residual,
            (
                "norm",
                if o.gemma4 {
                    "residual_add_rms_norm_f32_abs"
                } else {
                    "residual_add_rms_norm_f32"
                },
            ),
            ("norm", "residual_add_rms_norm"),
        );
        let w4a16_gemv_qg_batch2: KernelHandle = l.must("w4a16_gemv", "w4a16_gemv_qg_batch2");
        let w4a16_gemv_dual_batch2: KernelHandle = l.must("w4a16_gemv", "w4a16_gemv_dual_batch2");
        let w4a16_gemv_batch2: KernelHandle = l.must("w4a16_gemv", "w4a16_gemv_batch2");
        let w4a16_gemv_qg_batch3: KernelHandle = l.must("w4a16_gemv", "w4a16_gemv_qg_batch3");
        let w4a16_gemv_dual_batch3: KernelHandle = l.must("w4a16_gemv", "w4a16_gemv_dual_batch3");
        let w4a16_gemv_batch3: KernelHandle = l.must("w4a16_gemv", "w4a16_gemv_batch3");
        let w4a16_gemm: KernelHandle = l.must("w4a16", "w4a16_gemm");
        let w4a16_gemm_t: KernelHandle = l.must("w4a16", "w4a16_gemm_t");
        let w4a16_gemm_t_k64: KernelHandle = l.must("w4a16", "w4a16_gemm_t_k64");
        let w4a16_gemm_t_m128: KernelHandle = l.must("w4a16", "w4a16_gemm_t_m128");
        let w4a16_gemm_t_m128_v2: KernelHandle = l.may("w4a16_v2", "w4a16_gemm_t_m128_v2");
        let w4a16_gemm_t_m128_v3: KernelHandle = l.may("w4a16_v3", "w4a16_gemm_t_m128_v3");
        let dense_gemm: KernelHandle = l.must("gemm", "dense_gemm_bf16");
        let prefill_attn: KernelHandle = l.must("inferspark_prefill", "inferspark_prefill");
        let prefill_attn_512: KernelHandle = l.may(
            "inferspark_prefill_512", "inferspark_prefill_512",
        );
        let prefill_attn_paged_512: KernelHandle = l.may(
            "inferspark_prefill_paged_512", "inferspark_prefill_paged_512",
        );
        let prefill_attn_64: KernelHandle = l.must("inferspark_prefill", "inferspark_prefill_64");
        let prefill_attn_paged: KernelHandle = l.must("prefill_paged", "inferspark_prefill_paged");
        let prefill_attn_paged_fp8: KernelHandle = l.must(
            "prefill_paged_fp8", "inferspark_prefill_paged_fp8",
        );
        let prefill_attn_paged_nvfp4: KernelHandle = l.must(
            "prefill_paged_nvfp4", "inferspark_prefill_paged_nvfp4",
        );
        let prefill_attn_paged_turbo4: KernelHandle = l.may(
            "prefill_paged_turbo4", "inferspark_prefill_paged_turbo4",
        );
        let prefill_attn_paged_64: KernelHandle = l.must(
            "prefill_paged", "inferspark_prefill_paged_64",
        );
        let prefill_attn_paged_fp8_64: KernelHandle = l.must(
            "prefill_paged_fp8", "inferspark_prefill_paged_fp8_64",
        );
        let prefill_attn_paged_nvfp4_64: KernelHandle = l.must(
            "prefill_paged_nvfp4", "inferspark_prefill_paged_nvfp4_64",
        );
        let prefill_attn_paged_turbo4_64: KernelHandle = l.may(
            "prefill_paged_turbo4", "inferspark_prefill_paged_turbo4_64",
        );
        let prefill_attn_paged_batched: KernelHandle = l.may(
            "inferspark_prefill_paged_batched", "inferspark_prefill_paged_batched",
        );
        let prefill_attn_paged_fp8_batched: KernelHandle = l.may(
            "inferspark_prefill_paged_fp8_batched", "inferspark_prefill_paged_fp8_batched",
        );
        let prefill_attn_paged_nvfp4_batched: KernelHandle = l.may(
            "inferspark_prefill_paged_nvfp4_batched", "inferspark_prefill_paged_nvfp4_batched",
        );
        let prefill_attn_paged_batched_64: KernelHandle = l.may(
            "inferspark_prefill_paged_batched", "inferspark_prefill_paged_batched_64",
        );
        let prefill_attn_paged_fp8_batched_64: KernelHandle = l.may(
            "inferspark_prefill_paged_fp8_batched", "inferspark_prefill_paged_fp8_batched_64",
        );
        let prefill_attn_paged_nvfp4_batched_64: KernelHandle = l.may(
            "inferspark_prefill_paged_nvfp4_batched", "inferspark_prefill_paged_nvfp4_batched_64",
        );
        let deinterleave_qg_split: KernelHandle = l.must("ssm_preprocess", "deinterleave_qg_split");
        let deinterleave_qg_split_qnorm: KernelHandle = l.must(
            "ssm_preprocess", "deinterleave_qg_split_qnorm",
        );
        let sigmoid_gate_mul_batched: KernelHandle = l.must(
            "residual_add", "sigmoid_gate_mul_batched",
        );
        let fp8_gemm: KernelHandle = l.must("w4a16", "fp8_gemm_t");
        let bf16_to_fp8: KernelHandle = l.must("w4a16", "bf16_to_fp8");
        let fp8_fp8_gemm: KernelHandle = l.must("w4a16", "fp8_fp8_gemm_t");
        let fp8_gemm_t_m128: KernelHandle = l.must("w4a16", "fp8_gemm_t_m128");
        let fp8_fp8_gemm_t_m128: KernelHandle = l.must("w4a16", "fp8_fp8_gemm_t_m128");
        match l.missing {
            Some(e) => Err(e),
            None => Ok(
                AttentionKernels {
                    w8a16_gemm_t, rms_norm, rms_norm_residual, dense_gemv, w4a16_gemv, w8a16_gemv,
                    w8a16_gemm, w4a16_gemv_dual, rope, rope_mrope_interleaved, rope_yarn,
                    rope_proportional, reshape_cache, wht_bf16, paged_decode, paged_decode_512,
                    paged_decode_mla, mla_batched_gemv, mla_q_rope_scatter, mla_q_rope_writeback,
                    mla_cache_assemble, mla_q_rope_extract_batched, mla_q_rope_writeback_batched,
                    mla_kv_assemble_batched, mla_cache_assemble_batched, prefill_attn_mla320,
                    grouped_gemm_mla, mla_q_final_assemble, mla_fused_prefill, gemm_splitk_partial,
                    gemm_splitk_reduce, dense_gemm_tc, paged_decode_splitk, paged_decode_reduce,
                    residual_add, rms_norm_f32_in, sigmoid_gate_mul, deinterleave_qg, w4a16_gemv_qg,
                    residual_add_rms_norm, w4a16_gemv_qg_batch2, w4a16_gemv_dual_batch2,
                    w4a16_gemv_batch2, w4a16_gemv_qg_batch3, w4a16_gemv_dual_batch3,
                    w4a16_gemv_batch3, w4a16_gemm, w4a16_gemm_t, w4a16_gemm_t_k64,
                    w4a16_gemm_t_m128, w4a16_gemm_t_m128_v2, w4a16_gemm_t_m128_v3, dense_gemm,
                    prefill_attn, prefill_attn_512, prefill_attn_paged_512, prefill_attn_64,
                    prefill_attn_paged, prefill_attn_paged_fp8, prefill_attn_paged_nvfp4,
                    prefill_attn_paged_turbo4, prefill_attn_paged_64, prefill_attn_paged_fp8_64,
                    prefill_attn_paged_nvfp4_64, prefill_attn_paged_turbo4_64,
                    prefill_attn_paged_batched, prefill_attn_paged_fp8_batched,
                    prefill_attn_paged_nvfp4_batched, prefill_attn_paged_batched_64,
                    prefill_attn_paged_fp8_batched_64, prefill_attn_paged_nvfp4_batched_64,
                    deinterleave_qg_split, deinterleave_qg_split_qnorm, sigmoid_gate_mul_batched,
                    fp8_gemm, bf16_to_fp8, fp8_fp8_gemm, fp8_gemm_t_m128, fp8_fp8_gemm_t_m128,
                },
            ),
        }
    }
}

/// What a layer is made from.
pub struct AttentionParts {
    pub input_norm: DenseWeight,
    pub attn: AttentionWeights,
    pub post_attn_norm: DenseWeight,
    pub ffn: FfnComponent,
    pub attn_layer_idx: usize,
    pub q_nvfp4: Option<QuantizedWeight>,
    pub k_nvfp4: Option<QuantizedWeight>,
    pub v_nvfp4: Option<QuantizedWeight>,
    pub fp8_calibration_tokens: usize,
}

/// Wraps a 4-bit weight.
pub open spec fn as_quant(w: Option<QuantizedWeight>) -> Option<QuantWeight> {
    match w {
        Some(w) => Some(QuantWeight::Nvfp4(w)),
        None => None,
    }
}

fn wrap_quant(w: Option<QuantizedWeight>) -> (r: Option<QuantWeight>)
    ensures
        r == as_quant(w),
{
    match w {
        Some(w) => Some(QuantWeight::Nvfp4(w)),
        None => None,
    }
}

impl Qwen3AttentionLayer {
    /// Scales are only calibrated for caches in the plain formats.
    pub open spec fn calibrates(tokens: usize, kv_dtype: KvCacheDtype) -> bool {
        tokens > 0 && kv_dtype != KvCacheDtype::Nvfp4 && kv_dtype != KvCacheDtype::Turbo4
            && kv_dtype != KvCacheDtype::Turbo3 && kv_dtype != KvCacheDtype::Turbo8
    }

    /// What a new layer holds besides its kernels: no overrides, and nothing
    /// that is prepared later.
    pub open spec fn fresh(
        &self,
        p: AttentionParts,
        gated: bool,
        c: &ModelConfig,
        kv_dtype: KvCacheDtype,
    ) -> bool {
        &&& self.input_norm == p.input_norm
        &&& self.attn == p.attn
        &&& self.post_attn_norm == p.post_attn_norm
        &&& self.ffn == p.ffn
        &&& self.attn_layer_idx == p.attn_layer_idx
        &&& self.gated == gated
        &&& self.mrope_interleaved == c.mrope_interleaved
        &&& self.kv_dtype == kv_dtype
        &&& self.head_dim_override is None
        &&& self.num_q_heads_override is None
        &&& self.num_kv_heads_override is None
        &&& self.sliding_window is None
        &&& self.rope_theta_override is None
        &&& self.rotary_dim_override is None
        &&& !self.rope_proportional
        &&& self.attn_scale_override is None
        &&& !self.k_eq_v
        &&& self.v_norm_weight is None
        &&& self.post_attn_out_norm is None
        &&& self.post_ffn_out_norm is None
        &&& self.layer_scalar is None
        &&& self.moe_ffn is None
        &&& self.pre_moe_norm is None
        &&& self.post_moe_out_norm is None
        &&& self.post_dense_ffn_norm is None
        &&& self.sparse_v_threshold == 0
        &&& self.q_weight == as_quant(p.q_nvfp4)
        &&& self.k_weight == as_quant(p.k_nvfp4)
        &&& self.v_weight == as_quant(p.v_nvfp4)
        &&& self.o_weight is None
        &&& self.o_dense_bf16 is None
        &&& self.mla is None
        &&& self.q_nvfp4_t is None && self.k_nvfp4_t is None
        &&& self.v_nvfp4_t is None && self.o_nvfp4_t is None
        &&& self.q_fp8w_t is None && self.k_fp8w_t is None
        &&& self.v_fp8w_t is None && self.o_fp8w_t is None
        &&& self.q_fp8 is None && self.k_fp8 is None
        &&& self.v_fp8 is None && self.o_fp8 is None
        &&& self.fp8_calibration == (if Self::calibrates(p.fp8_calibration_tokens, kv_dtype) {
            Some(Fp8KvCalibration { tokens: p.fp8_calibration_tokens })
        } else {
            None
        })
    }

    /// Sets a layer up whose query projection carries an output gate.
    pub fn new(
        parts: AttentionParts,
        c: &ModelConfig,
        kv_dtype: KvCacheDtype,
        fp32_residual: bool,
        table: &KernelTable,
    ) -> (r: Result<Qwen3AttentionLayer, MissingKernel>)
        ensures
            ({
                let o = AttentionOptions::spec_of(c, kv_dtype, fp32_residual);
                match r {
                    Ok(l) => {
                        &&& AttentionKernels::missing(table, o) is None
                        &&& l.k == AttentionKernels::of(table, o)
                        &&& l.fresh(parts, true, c, kv_dtype)
                    },
                    Err(e) => AttentionKernels::missing(table, o) == Some(e@),
                }
            }),
    {
        Self::new_with_gating(parts, true, c, kv_dtype, fp32_residual, table)
    }

    /// Sets a layer up without an output gate.
    pub fn new_ungated(
        parts: AttentionParts,
        c: &ModelConfig,
        kv_dtype: KvCacheDtype,
        fp32_residual: bool,
        table: &KernelTable,
    ) -> (r: Result<Qwen3AttentionLayer, MissingKernel>)
        ensures
            ({
                let o = AttentionOptions::spec_of(c, kv_dtype, fp32_residual);
                match r {
                    Ok(l) => {
                        &&& AttentionKernels::missing(table, o) is None
                        &&& l.k == AttentionKernels::of(table, o)
                        &&& l.fresh(parts, false, c, kv_dtype)
                    },
                    Err(e) => AttentionKernels::missing(table, o) == Some(e@),
                }
            }),
    {
        Self::new_with_gating(parts, false, c, kv_dtype, fp32_residual, table)
    }

    fn new_with_gating(
        parts: AttentionParts,
        gated: bool,
        c: &ModelConfig,
        kv_dtype: KvCacheDtype,
        fp32_residual: bool,
        table: &KernelTable,
    ) -> (r: Result<Qwen3AttentionLayer, MissingKernel>)
        ensures
            ({
                let o = AttentionOptions::spec_of(c, kv_dtype, fp32_residual);
                match r {
                    Ok(l) => {
                        &&& AttentionKernels::missing(table, o) is None
                        &&& l.k == AttentionKernels::of(table, o)
                        &&& l.fresh(parts, gated, c, kv_dtype)
                    },
                    Err(e) => AttentionKernels::missing(table, o) == Some(e@),
                }
            }),
    {
        let o: AttentionOptions = AttentionOptions::of(c, kv_dtype, fp32_residual);
        let k: AttentionKernels = match AttentionKernels::load(table, o) {
            Ok(k) => k,
            Err(e) => {
                return Err(e);
            },
        };
        let tokens: usize = parts.fp8_calibration_tokens;
        let plain: bool = match o.kv_dtype {
            KvCacheDtype::Nvfp4 | KvCacheDtype::Turbo4 | KvCacheDtype::Turbo3
            | KvCacheDtype::Turbo8 => false,
            _ => true,
        };
        let q_weight: Option<QuantWeight> = wrap_quant(parts.q_nvfp4);
        let k_weight: Option<QuantWeight> = wrap_quant(parts.k_nvfp4);
        let v_weight: Option<QuantWeight> = wrap_quant(parts.v_nvfp4);
        Ok(
            Qwen3AttentionLayer {
                input_norm: parts.input_norm,
                attn: parts.attn,
                post_attn_norm: parts.post_attn_norm,
                ffn: parts.ffn,
                attn_layer_idx: parts.attn_layer_idx,
                gated,
                mrope_interleaved: c.mrope_interleaved,
                head_dim_override: None,
                num_q_heads_override: None,
                num_kv_heads_override: None,
                sliding_window: None,
                rope_theta_override: None,
                rotary_dim_override: None,
                rope_proportional: false,
                attn_scale_override: None,
                k_eq_v: false,
                v_norm_weight: None,
                post_attn_out_norm: None,
                post_ffn_out_norm: None,
                layer_scalar: None,
                moe_ffn: None,
                pre_moe_norm: None,
                post_moe_out_norm: None,
                post_dense_ffn_norm: None,
                kv_dtype: o.kv_dtype,
                sparse_v_threshold: 0,
                q_weight,
                k_weight,
                v_weight,
                o_weight: None,
                o_dense_bf16: None,
                mla: None,
                q_nvfp4_t: None,
                k_nvfp4_t: None,
                v_nvfp4_t: None,
                o_nvfp4_t: None,
                q_fp8w_t: None,
                k_fp8w_t: None,
                v_fp8w_t: None,
                o_fp8w_t: None,
                q_fp8: None,
                k_fp8: None,
                v_fp8: None,
                o_fp8: None,
                fp8_calibration: if tokens > 0 && plain {
                    Some(Fp8KvCalibration { tokens })
                } else {
                    None
                },
                k,
            },
        )
    }
}

} // verus!
