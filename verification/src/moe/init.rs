//! Setting a layer up.

use crate::gpu::{DenseExpertWeight, DevicePtr, ExpertPtrTable, KernelHandle, QuantizedWeight};
use crate::kernels::{KernelTable, Lookup, MissingKernel};
use crate::moe::{MoeKernels, MoeLayer, MoeWeights};
use crate::text::{flag, flag_value};
use vstd::prelude::*;

verus! {

/// Why a layer cannot be set up.
pub enum MoeInitError {
    /// Experts per token, experts.
    InvalidConfig(usize, usize),
    MissingKernel(MissingKernel),
}

/// Settings of all layers.
#[derive(Clone, Copy, PartialEq, Eq, Structural, Debug)]
pub struct MoeFlags {
    pub fp8_moe_coalesced: bool,
    pub unified_layout: bool,
    pub hybrid_layout: bool,
    pub nvfp4_gate_up_m128: bool,
}

impl MoeFlags {
    /// Reads the settings; only coalescing is on unless it is turned off.
    pub fn from_settings(
        fp8_moe_coalesced: Option<&str>,
        unified_layout: Option<&str>,
        hybrid_layout: Option<&str>,
        nvfp4_gate_up_m128: Option<&str>,
    ) -> (r: MoeFlags)
        ensures
            r == (MoeFlags {
                fp8_moe_coalesced: flag_value(fp8_moe_coalesced, true),
                unified_layout: flag_value(unified_layout, false),
                hybrid_layout: flag_value(hybrid_layout, false),
                nvfp4_gate_up_m128: flag_value(nvfp4_gate_up_m128, false),
            }),
    {
        MoeFlags {
            fp8_moe_coalesced: flag(fp8_moe_coalesced, true),
            unified_layout: flag(unified_layout, false),
            hybrid_layout: flag(hybrid_layout, false),
            nvfp4_gate_up_m128: flag(nvfp4_gate_up_m128, false),
        }
    }
}

/// Device resources that a layer owns.
#[derive(Clone, Copy, PartialEq, Eq, Structural, Debug)]
pub struct MoeResources {
    pub gate_ptrs: ExpertPtrTable,
    pub up_ptrs: ExpertPtrTable,
    pub down_ptrs: ExpertPtrTable,
    pub prefill_stream: u64,
    pub event_a: u64,
    pub event_b: u64,
}

impl MoeKernels {
    /// The kernels of a layer.
    pub open spec fn of(t: &KernelTable, fp32_residual: bool) -> MoeKernels {
        MoeKernels {
            pre_expert_norm: t.handle("norm"@, "rms_norm"@),
            dense_gemv: t.handle("gemv"@, "dense_gemv_bf16"@),
            w4a16_gemv: t.handle("w4a16_gemv"@, "w4a16_gemv"@),
            w4a16_gemm: t.handle("w4a16"@, "w4a16_gemm"@),
            dense_gemm: t.handle("gemm"@, "dense_gemm_bf16"@),
            gate_up_shared: t.handle("moe_shared_expert_fused"@, "moe_expert_gate_up_shared"@),
            silu_down_shared: t.handle("moe_shared_expert_fused"@, "moe_expert_silu_down_shared"@),
            topk: t.handle("moe_topk"@, "moe_topk_softmax"@),
            weighted_sum_blend: t.handle("moe_expert_gemv"@, "moe_weighted_sum_blend"@),
            residual_add: t.pick(
                fp32_residual, ("norm"@, "f32_residual_add"@),
                ("residual_add"@, "bf16_residual_add"@),
            ),
            topk_batched: t.handle("moe_topk"@, "moe_topk_softmax_batched"@),
            gate_up_shared_batch2: t.handle(
                "moe_fused_batch2"@, "moe_expert_gate_up_shared_batch2"@,
            ),
            silu_down_shared_batch2: t.handle(
                "moe_fused_batch2"@, "moe_expert_silu_down_shared_batch2"@,
            ),
            weighted_sum_blend_batch2: t.handle(
                "moe_fused_batch2"@, "moe_weighted_sum_blend_batch2"@,
            ),
            w4a16_gemv_batch2: t.handle("w4a16_gemv"@, "w4a16_gemv_batch2"@),
            gate_up_shared_batch3: t.handle(
                "moe_fused_batch3"@, "moe_expert_gate_up_shared_batch3"@,
            ),
            silu_down_shared_batch3: t.handle(
                "moe_fused_batch3"@, "moe_expert_silu_down_shared_batch3"@,
            ),
            weighted_sum_blend_batch3: t.handle(
                "moe_fused_batch3"@, "moe_weighted_sum_blend_batch3"@,
            ),
            w4a16_gemv_batch3: t.handle("w4a16_gemv"@, "w4a16_gemv_batch3"@),
            sort_by_expert: t.handle("moe"@, "moe_sort_by_expert"@),
            sorted_gate_up: t.handle("moe_sorted"@, "moe_sorted_gate_up"@),
            sorted_silu_down: t.handle("moe_sorted"@, "moe_sorted_silu_down"@),
            grouped_gemm: t.handle("moe_w4a16"@, "moe_w4a16_grouped_gemm_ptrtable"@),
            grouped_gemm_t: t.handle("moe_w4a16"@, "moe_w4a16_grouped_gemm_ptrtable_t"@),
            grouped_gemm_t_k64: t.handle("moe_w4a16"@, "moe_w4a16_grouped_gemm_ptrtable_t_k64"@),
            fused_gate_up_t: t.handle("moe_w4a16"@, "moe_w4a16_fused_gate_up_t"@),
            fused_gate_up_t_k64: t.handle("moe_w4a16"@, "moe_w4a16_fused_gate_up_t_k64"@),
            fused_gate_up_t_k64_m128: t.handle("moe_w4a16"@, "moe_w4a16_fused_gate_up_t_k64_m128"@),
            fp8_grouped_gemm_t: t.handle("moe_w4a16"@, "moe_fp8_grouped_gemm_ptrtable_t"@),
            fp8_grouped_gemm: t.handle("moe_fp8_grouped_gemm"@, "moe_fp8_grouped_gemm"@),
            fp8_grouped_gemm_v2: t.handle("moe_fp8_grouped_gemm"@, "moe_fp8_grouped_gemm_v2"@),
            w8a16_gemm: t.handle("w8a16_gemm"@, "w8a16_gemm"@),
            gate_topk_fused: t.handle("moe_gate_topk"@, "moe_gate_topk_fused"@),
            w4a16_gemm_t: t.handle("w4a16"@, "w4a16_gemm_t"@),
            bf16_to_fp8: t.handle("w4a16"@, "bf16_to_fp8"@),
            fp8_gemm: t.handle("w4a16"@, "fp8_gemm_t"@),
            silu_mul: t.handle("moe_silu_mul"@, "moe_silu_mul"@),
            act_mul: t.handle("moe_silu_mul"@, "moe_silu_mul"@),
            unpermute_reduce: t.handle("moe"@, "moe_unpermute_reduce_indexed"@),
            batched_blend: t.handle("moe"@, "moe_batched_blend"@),
            transpose_u8_batched: t.handle("moe_transpose_batched"@, "moe_transpose_u8_batched"@),
            gate_up_shared_t: t.handle(
                "moe_shared_expert_fused_t"@, "moe_expert_gate_up_shared_t"@,
            ),
            silu_down_shared_t: t.handle(
                "moe_shared_expert_fused_t"@, "moe_expert_silu_down_shared_t"@,
            ),
            gate_up_shared_batch2_t: t.handle(
                "moe_shared_expert_fused_batch2_t"@, "moe_expert_gate_up_shared_batch2_t"@,
            ),
            silu_down_shared_batch2_t: t.handle(
                "moe_shared_expert_fused_batch2_t"@, "moe_expert_silu_down_shared_batch2_t"@,
            ),
            gate_up_shared_batch3_t: t.handle(
                "moe_shared_expert_fused_batch3_t"@, "moe_expert_gate_up_shared_batch3_t"@,
            ),
            silu_down_shared_batch3_t: t.handle(
                "moe_shared_expert_fused_batch3_t"@, "moe_expert_silu_down_shared_batch3_t"@,
            ),
            gate_up_shared_fp8_t: t.handle(
                "moe_shared_expert_fused_fp8_t"@, "moe_expert_gate_up_shared_fp8_t"@,
            ),
            silu_down_shared_fp8_t: t.handle(
                "moe_shared_expert_fused_fp8_t"@, "moe_expert_silu_down_shared_fp8_t"@,
            ),
            gate_up_shared_fp8_batch2_t: t.handle(
                "moe_shared_expert_fused_fp8_batch2_t"@, "moe_expert_gate_up_shared_fp8_batch2_t"@,
            ),
            silu_down_shared_fp8_batch2_t: t.handle(
                "moe_shared_expert_fused_fp8_batch2_t"@,
                "moe_expert_silu_down_shared_fp8_batch2_t"@,
            ),
            gate_up_shared_fp8_batch3_t: t.handle(
                "moe_shared_expert_fused_fp8_batch3_t"@, "moe_expert_gate_up_shared_fp8_batch3_t"@,
            ),
            silu_down_shared_fp8_batch3_t: t.handle(
                "moe_shared_expert_fused_fp8_batch3_t"@,
                "moe_expert_silu_down_shared_fp8_batch3_t"@,
            ),
            gate_up_shared_fp8: t.handle(
                "moe_shared_expert_fused_fp8"@, "moe_expert_gate_up_shared_fp8"@,
            ),
            silu_down_shared_fp8: t.handle(
                "moe_shared_expert_fused_fp8"@, "moe_expert_silu_down_shared_fp8"@,
            ),
            gate_up_shared_fp8_batch2: t.handle(
                "moe_shared_expert_fused_fp8_batch2"@, "moe_expert_gate_up_shared_fp8_batch2"@,
            ),
            silu_down_shared_fp8_batch2: t.handle(
                "moe_shared_expert_fused_fp8_batch2"@, "moe_expert_silu_down_shared_fp8_batch2"@,
            ),
            weighted_sum_blend_fp8_batch2: t.handle(
                "moe_shared_expert_fused_fp8_batch2"@, "moe_weighted_sum_blend_fp8_batch2"@,
            ),
            gate_up_shared_fp8_batch3: t.handle(
                "moe_shared_expert_fused_fp8_batch3"@, "moe_expert_gate_up_shared_fp8_batch3"@,
            ),
            silu_down_shared_fp8_batch3: t.handle(
                "moe_shared_expert_fused_fp8_batch3"@, "moe_expert_silu_down_shared_fp8_batch3"@,
            ),
            weighted_sum_blend_fp8_batch3: t.handle(
                "moe_shared_expert_fused_fp8_batch3"@, "moe_weighted_sum_blend_fp8_batch3"@,
            ),
            topk_sigmoid: t.handle("moe_topk_sig"@, "moe_topk_sigmoid"@),
            topk_sigmoid_batched: t.handle("moe_topk_sig"@, "moe_topk_sigmoid_batched"@),
            clamp_bf16: t.handle("moe_silu_mul"@, "clamp_bf16"@),
        }
    }

    /// The first required kernel that is missing.
    pub open spec fn missing(t: &KernelTable, fp32_residual: bool) -> Option<
        (Seq<char>, Seq<char>),
    > {
        let e = None;
        let e = t.need(e, "norm"@, "rms_norm"@);
        let e = t.need(e, "gemv"@, "dense_gemv_bf16"@);
        let e = t.need(e, "w4a16_gemv"@, "w4a16_gemv"@);
        let e = t.need(e, "w4a16"@, "w4a16_gemm"@);
        let e = t.need(e, "gemm"@, "dense_gemm_bf16"@);
        let e = t.need(e, "moe_shared_expert_fused"@, "moe_expert_gate_up_shared"@);
        let e = t.need(e, "moe_shared_expert_fused"@, "moe_expert_silu_down_shared"@);
        let e = t.need(e, "moe_topk"@, "moe_topk_softmax"@);
        let e = t.need(e, "moe_expert_gemv"@, "moe_weighted_sum_blend"@);
        let e = t.need_if(
            e, fp32_residual, ("norm"@, "f32_residual_add"@),
            ("residual_add"@, "bf16_residual_add"@),
        );
        let e = t.need(e, "moe_topk"@, "moe_topk_softmax_batched"@);
        let e = t.need(e, "moe_fused_batch2"@, "moe_expert_gate_up_shared_batch2"@);
        let e = t.need(e, "moe_fused_batch2"@, "moe_expert_silu_down_shared_batch2"@);
        let e = t.need(e, "moe_fused_batch2"@, "moe_weighted_sum_blend_batch2"@);
        let e = t.need(e, "w4a16_gemv"@, "w4a16_gemv_batch2"@);
        let e = t.need(e, "moe_fused_batch3"@, "moe_expert_gate_up_shared_batch3"@);
        let e = t.need(e, "moe_fused_batch3"@, "moe_expert_silu_down_shared_batch3"@);
        let e = t.need(e, "moe_fused_batch3"@, "moe_weighted_sum_blend_batch3"@);
        let e = t.need(e, "w4a16_gemv"@, "w4a16_gemv_batch3"@);
        let e = t.need(e, "moe"@, "moe_sort_by_expert"@);
        let e = t.need(e, "moe_sorted"@, "moe_sorted_gate_up"@);
        let e = t.need(e, "moe_sorted"@, "moe_sorted_silu_down"@);
        let e = t.need(e, "moe_w4a16"@, "moe_w4a16_grouped_gemm_ptrtable"@);
        let e = t.need(e, "moe_w4a16"@, "moe_w4a16_grouped_gemm_ptrtable_t"@);
        let e = t.need(e, "moe_w4a16"@, "moe_w4a16_grouped_gemm_ptrtable_t_k64"@);
        let e = t.need(e, "moe_w4a16"@, "moe_w4a16_fused_gate_up_t"@);
        let e = t.need(e, "moe_w4a16"@, "moe_w4a16_fused_gate_up_t_k64"@);
        let e = t.need(e, "moe_w4a16"@, "moe_fp8_grouped_gemm_ptrtable_t"@);
        let e = t.need(e, "w4a16"@, "w4a16_gemm_t"@);
        let e = t.need(e, "w4a16"@, "bf16_to_fp8"@);
        let e = t.need(e, "w4a16"@, "fp8_gemm_t"@);
        let e = t.need(e, "moe_silu_mul"@, "moe_silu_mul"@);
        let e = t.need(e, "moe_silu_mul"@, "moe_silu_mul"@);
        let e = t.need(e, "moe"@, "moe_unpermute_reduce_indexed"@);
        let e = t.need(e, "moe"@, "moe_batched_blend"@);
        let e = t.need(e, "moe_transpose_batched"@, "moe_transpose_u8_batched"@);
        let e = t.need(e, "moe_shared_expert_fused_t"@, "moe_expert_gate_up_shared_t"@);
        let e = t.need(e, "moe_shared_expert_fused_t"@, "moe_expert_silu_down_shared_t"@);
        let e = t.need(
            e, "moe_shared_expert_fused_batch2_t"@, "moe_expert_gate_up_shared_batch2_t"@,
        );
        let e = t.need(
            e, "moe_shared_expert_fused_batch2_t"@, "moe_expert_silu_down_shared_batch2_t"@,
        );
        let e = t.need(
            e, "moe_shared_expert_fused_batch3_t"@, "moe_expert_gate_up_shared_batch3_t"@,
        );
        let e = t.need(
            e, "moe_shared_expert_fused_batch3_t"@, "moe_expert_silu_down_shared_batch3_t"@,
        );
        let e = t.need(e, "moe_shared_expert_fused_fp8_t"@, "moe_expert_gate_up_shared_fp8_t"@);
        let e = t.need(e, "moe_shared_expert_fused_fp8_t"@, "moe_expert_silu_down_shared_fp8_t"@);
        let e = t.need(
            e, "moe_shared_expert_fused_fp8_batch2_t"@, "moe_expert_gate_up_shared_fp8_batch2_t"@,
        );
        let e = t.need(
            e, "moe_shared_expert_fused_fp8_batch2_t"@, "moe_expert_silu_down_shared_fp8_batch2_t"@,
        );
        let e = t.need(
            e, "moe_shared_expert_fused_fp8_batch3_t"@, "moe_expert_gate_up_shared_fp8_batch3_t"@,
        );
        let e = t.need(
            e, "moe_shared_expert_fused_fp8_batch3_t"@, "moe_expert_silu_down_shared_fp8_batch3_t"@,
        );
        let e = t.need(e, "moe_shared_expert_fused_fp8"@, "moe_expert_gate_up_shared_fp8"@);
        let e = t.need(e, "moe_shared_expert_fused_fp8"@, "moe_expert_silu_down_shared_fp8"@);
        let e = t.need(
            e, "moe_shared_expert_fused_fp8_batch2"@, "moe_expert_gate_up_shared_fp8_batch2"@,
        );
        let e = t.need(
            e, "moe_shared_expert_fused_fp8_batch2"@, "moe_expert_silu_down_shared_fp8_batch2"@,
        );
        let e = t.need(
            e, "moe_shared_expert_fused_fp8_batch2"@, "moe_weighted_sum_blend_fp8_batch2"@,
        );
        let e = t.need(
            e, "moe_shared_expert_fused_fp8_batch3"@, "moe_expert_gate_up_shared_fp8_batch3"@,
        );
        let e = t.need(
            e, "moe_shared_expert_fused_fp8_batch3"@, "moe_expert_silu_down_shared_fp8_batch3"@,
        );
        let e = t.need(
            e, "moe_shared_expert_fused_fp8_batch3"@, "moe_weighted_sum_blend_fp8_batch3"@,
        );
        e
    }

    pub fn load(t: &KernelTable, fp32_residual: bool) -> (r: Result<MoeKernels, MissingKernel>)
        ensures
            match r {
                Ok(k) => Self::missing(t, fp32_residual) is None && k == Self::of(
                    t,
                    fp32_residual,
                ),
                Err(e) => Self::missing(t, fp32_residual) == Some(e@),
            },
    {
        let mut l: Lookup = Lookup::new(t);
        let pre_expert_norm: KernelHandle = l.must("norm", "rms_norm");
        let dense_gemv: KernelHandle = l.must("gemv", "dense_gemv_bf16");
        let w4a16_gemv: KernelHandle = l.must("w4a16_gemv", "w4a16_gemv");
        let w4a16_gemm: KernelHandle = l.must("w4a16", "w4a16_gemm");
        let dense_gemm: KernelHandle = l.must("gemm", "dense_gemm_bf16");
        let gate_up_shared: KernelHandle = l.must(
            "moe_shared_expert_fused", "moe_expert_gate_up_shared",
        );
        let silu_down_shared: KernelHandle = l.must(
            "moe_shared_expert_fused", "moe_expert_silu_down_shared",
        );
        let topk: KernelHandle = l.must("moe_topk", "moe_topk_softmax");
        let weighted_sum_blend: KernelHandle = l.must("moe_expert_gemv", "moe_weighted_sum_blend");
        let residual_add: KernelHandle = l.must_if(
            fp32_residual, ("norm", "f32_residual_add"), ("residual_add", "bf16_residual_add"),
        );
        let topk_batched: KernelHandle = l.must("moe_topk", "moe_topk_softmax_batched");
        let gate_up_shared_batch2: KernelHandle = l.must(
            "moe_fused_batch2", "moe_expert_gate_up_shared_batch2",
        );
        let silu_down_shared_batch2: KernelHandle = l.must(
            "moe_fused_batch2", "moe_expert_silu_down_shared_batch2",
        );
        let weighted_sum_blend_batch2: KernelHandle = l.must(
            "moe_fused_batch2", "moe_weighted_sum_blend_batch2",
        );
        let w4a16_gemv_batch2: KernelHandle = l.must("w4a16_gemv", "w4a16_gemv_batch2");
        let gate_up_shared_batch3: KernelHandle = l.must(
            "moe_fused_batch3", "moe_expert_gate_up_shared_batch3",
        );
        let silu_down_shared_batch3: KernelHandle = l.must(
            "moe_fused_batch3", "moe_expert_silu_down_shared_batch3",
        );
        let weighted_sum_blend_batch3: KernelHandle = l.must(
            "moe_fused_batch3", "moe_weighted_sum_blend_batch3",
        );
        let w4a16_gemv_batch3: KernelHandle = l.must("w4a16_gemv", "w4a16_gemv_batch3");
        let sort_by_expert: KernelHandle = l.must("moe", "moe_sort_by_expert");
        let sorted_gate_up: KernelHandle = l.must("moe_sorted", "moe_sorted_gate_up");
        let sorted_silu_down: KernelHandle = l.must("moe_sorted", "moe_sorted_silu_down");
        let grouped_gemm: KernelHandle = l.must("moe_w4a16", "moe_w4a16_grouped_gemm_ptrtable");
        let grouped_gemm_t: KernelHandle = l.must("moe_w4a16", "moe_w4a16_grouped_gemm_ptrtable_t");
        let grouped_gemm_t_k64: KernelHandle = l.must(
            "moe_w4a16", "moe_w4a16_grouped_gemm_ptrtable_t_k64",
        );
        let fused_gate_up_t: KernelHandle = l.must("moe_w4a16", "moe_w4a16_fused_gate_up_t");
        let fused_gate_up_t_k64: KernelHandle = l.must(
            "moe_w4a16", "moe_w4a16_fused_gate_up_t_k64",
        );
        let fused_gate_up_t_k64_m128: KernelHandle = l.may(
            "moe_w4a16", "moe_w4a16_fused_gate_up_t_k64_m128",
        );
        let fp8_grouped_gemm_t: KernelHandle = l.must(
            "moe_w4a16", "moe_fp8_grouped_gemm_ptrtable_t",
        );
        let fp8_grouped_gemm: KernelHandle = l.may("moe_fp8_grouped_gemm", "moe_fp8_grouped_gemm");
        let fp8_grouped_gemm_v2: KernelHandle = l.may(
            "moe_fp8_grouped_gemm", "moe_fp8_grouped_gemm_v2",
        );
        let w8a16_gemm: KernelHandle = l.may("w8a16_gemm", "w8a16_gemm");
        let gate_topk_fused: KernelHandle = l.may("moe_gate_topk", "moe_gate_topk_fused");
        let w4a16_gemm_t: KernelHandle = l.must("w4a16", "w4a16_gemm_t");
        let bf16_to_fp8: KernelHandle = l.must("w4a16", "bf16_to_fp8");
        let fp8_gemm: KernelHandle = l.must("w4a16", "fp8_gemm_t");
        let silu_mul: KernelHandle = l.must("moe_silu_mul", "moe_silu_mul");
        let act_mul: KernelHandle = l.must("moe_silu_mul", "moe_silu_mul");
        let unpermute_reduce: KernelHandle = l.must("moe", "moe_unpermute_reduce_indexed");
        let batched_blend: KernelHandle = l.must("moe", "moe_batched_blend");
        let transpose_u8_batched: KernelHandle = l.must(
            "moe_transpose_batched", "moe_transpose_u8_batched",
        );
        let gate_up_shared_t: KernelHandle = l.must(
            "moe_shared_expert_fused_t", "moe_expert_gate_up_shared_t",
        );
        let silu_down_shared_t: KernelHandle = l.must(
            "moe_shared_expert_fused_t", "moe_expert_silu_down_shared_t",
        );
        let gate_up_shared_batch2_t: KernelHandle = l.must(
            "moe_shared_expert_fused_batch2_t", "moe_expert_gate_up_shared_batch2_t",
        );
        let silu_down_shared_batch2_t: KernelHandle = l.must(
            "moe_shared_expert_fused_batch2_t", "moe_expert_silu_down_shared_batch2_t",
        );
        let gate_up_shared_batch3_t: KernelHandle = l.must(
            "moe_shared_expert_fused_batch3_t", "moe_expert_gate_up_shared_batch3_t",
        );
        let silu_down_shared_batch3_t: KernelHandle = l.must(
            "moe_shared_expert_fused_batch3_t", "moe_expert_silu_down_shared_batch3_t",
        );
        let gate_up_shared_fp8_t: KernelHandle = l.must(
            "moe_shared_expert_fused_fp8_t", "moe_expert_gate_up_shared_fp8_t",
        );
        let silu_down_shared_fp8_t: KernelHandle = l.must(
            "moe_shared_expert_fused_fp8_t", "moe_expert_silu_down_shared_fp8_t",
        );
        let gate_up_shared_fp8_batch2_t: KernelHandle = l.must(
            "moe_shared_expert_fused_fp8_batch2_t", "moe_expert_gate_up_shared_fp8_batch2_t",
        );
        let silu_down_shared_fp8_batch2_t: KernelHandle = l.must(
            "moe_shared_expert_fused_fp8_batch2_t", "moe_expert_silu_down_shared_fp8_batch2_t",
        );
        let gate_up_shared_fp8_batch3_t: KernelHandle = l.must(
            "moe_shared_expert_fused_fp8_batch3_t", "moe_expert_gate_up_shared_fp8_batch3_t",
        );
        let silu_down_shared_fp8_batch3_t: KernelHandle = l.must(
            "moe_shared_expert_fused_fp8_batch3_t", "moe_expert_silu_down_shared_fp8_batch3_t",
        );
        let gate_up_shared_fp8: KernelHandle = l.must(
            "moe_shared_expert_fused_fp8", "moe_expert_gate_up_shared_fp8",
        );
        let silu_down_shared_fp8: KernelHandle = l.must(
            "moe_shared_expert_fused_fp8", "moe_expert_silu_down_shared_fp8",
        );
        let gate_up_shared_fp8_batch2: KernelHandle = l.must(
            "moe_shared_expert_fused_fp8_batch2", "moe_expert_gate_up_shared_fp8_batch2",
        );
        let silu_down_shared_fp8_batch2: KernelHandle = l.must(
            "moe_shared_expert_fused_fp8_batch2", "moe_expert_silu_down_shared_fp8_batch2",
        );
        let weighted_sum_blend_fp8_batch2: KernelHandle = l.must(
            "moe_shared_expert_fused_fp8_batch2", "moe_weighted_sum_blend_fp8_batch2",
        );
        let gate_up_shared_fp8_batch3: KernelHandle = l.must(
            "moe_shared_expert_fused_fp8_batch3", "moe_expert_gate_up_shared_fp8_batch3",
        );
        let silu_down_shared_fp8_batch3: KernelHandle = l.must(
            "moe_shared_expert_fused_fp8_batch3", "moe_expert_silu_down_shared_fp8_batch3",
        );
        let weighted_sum_blend_fp8_batch3: KernelHandle = l.must(
            "moe_shared_expert_fused_fp8_batch3", "moe_weighted_sum_blend_fp8_batch3",
        );
        let topk_sigmoid: KernelHandle = l.may("moe_topk_sig", "moe_topk_sigmoid");
        let topk_sigmoid_batched: KernelHandle = l.may("moe_topk_sig", "moe_topk_sigmoid_batched");
        let clamp_bf16: KernelHandle = l.may("moe_silu_mul", "clamp_bf16");
        match l.missing {
            Some(e) => Err(e),
            None => Ok(
                MoeKernels {
                    pre_expert_norm, dense_gemv, w4a16_gemv, w4a16_gemm, dense_gemm, gate_up_shared,
                    silu_down_shared, topk, weighted_sum_blend, residual_add, topk_batched,
                    gate_up_shared_batch2, silu_down_shared_batch2, weighted_sum_blend_batch2,
                    w4a16_gemv_batch2, gate_up_shared_batch3, silu_down_shared_batch3,
                    weighted_sum_blend_batch3, w4a16_gemv_batch3, sort_by_expert, sorted_gate_up,
                    sorted_silu_down, grouped_gemm, grouped_gemm_t, grouped_gemm_t_k64,
                    fused_gate_up_t, fused_gate_up_t_k64, fused_gate_up_t_k64_m128,
                    fp8_grouped_gemm_t, fp8_grouped_gemm, fp8_grouped_gemm_v2, w8a16_gemm,
                    gate_topk_fused, w4a16_gemm_t, bf16_to_fp8, fp8_gemm, silu_mul, act_mul,
                    unpermute_reduce, batched_blend, transpose_u8_batched, gate_up_shared_t,
                    silu_down_shared_t, gate_up_shared_batch2_t, silu_down_shared_batch2_t,
                    gate_up_shared_batch3_t, silu_down_shared_batch3_t, gate_up_shared_fp8_t,
                    silu_down_shared_fp8_t, gate_up_shared_fp8_batch2_t,
                    silu_down_shared_fp8_batch2_t, gate_up_shared_fp8_batch3_t,
                    silu_down_shared_fp8_batch3_t, gate_up_shared_fp8, silu_down_shared_fp8,
                    gate_up_shared_fp8_batch2, silu_down_shared_fp8_batch2,
                    weighted_sum_blend_fp8_batch2, gate_up_shared_fp8_batch3,
                    silu_down_shared_fp8_batch3, weighted_sum_blend_fp8_batch3, topk_sigmoid,
                    topk_sigmoid_batched, clamp_bf16,
                },
            ),
        }
    }
}

impl MoeLayer {
    /// What a new layer holds besides its kernels: the tables it is given, its
    /// settings, and nothing that is prepared later.
    pub open spec fn fresh(
        &self,
        weights: MoeWeights,
        gate_nvfp4: Option<QuantizedWeight>,
        res: MoeResources,
        flags: MoeFlags,
        swiglu_clamp: u32,
    ) -> bool {
        let dense = weights.shared_expert_dense;
        &&& self.weights == weights
        &&& self.gate_nvfp4 == gate_nvfp4
        &&& self.pre_expert_norm is None
        &&& self.gate_ptrs == res.gate_ptrs
        &&& self.up_ptrs == res.up_ptrs
        &&& self.down_ptrs == res.down_ptrs
        &&& self.gate_ptrs_t is None
        &&& self.up_ptrs_t is None
        &&& self.down_ptrs_t is None
        &&& self.down_t_scratch_packed is None
        &&& self.down_t_scratch_scale is None
        &&& self.shared_gate_t is None
        &&& self.shared_up_t is None
        &&& self.shared_down_t is None
        &&& self.gate_fp8 is None
        &&& self.shared_gate_fp8 is None
        &&& self.shared_up_fp8 is None
        &&& self.shared_down_fp8 is None
        &&& self.shared_gate_dense == (match dense {
            Some(d) => Some(d.gate_proj),
            None => None,
        })
        &&& self.shared_up_dense == (match dense {
            Some(d) => Some(d.up_proj),
            None => None,
        })
        &&& self.shared_down_dense == (match dense {
            Some(d) => Some(d.down_proj),
            None => None,
        })
        &&& self.fp8_gate_weight_ptrs is None
        &&& self.fp8_up_weight_ptrs is None
        &&& self.fp8_down_weight_ptrs is None
        &&& self.fp8_shared_expert is None
        &&& self.correction_bias_dev == (match weights.correction_bias {
            Some(w) => Some(w.weight),
            None => None,
        })
        &&& !self.gelu_activation
        &&& self.unified_layout == flags.unified_layout
        &&& self.hybrid_layout == flags.hybrid_layout
        &&& self.nvfp4_gate_up_m128 == flags.nvfp4_gate_up_m128
        &&& self.fp8_moe_coalesced_enabled == flags.fp8_moe_coalesced
        &&& !self.t_layout_prefill
        &&& !self.t_layout_decode
        &&& self.prefill_stream == res.prefill_stream
        &&& self.event_a == res.event_a
        &&& self.event_b == res.event_b
        &&& !self.is_dflash_capture_layer
        &&& self.swiglu_clamp == swiglu_clamp
    }

    /// A layer can only select experts that exist.
    pub open spec fn selectable(num_experts_per_tok: usize, num_experts: usize) -> bool {
        num_experts_per_tok <= num_experts && num_experts > 0
    }

    /// Sets a layer up.
    pub fn new(
        weights: MoeWeights,
        num_experts: usize,
        num_experts_per_tok: usize,
        gate_nvfp4: Option<QuantizedWeight>,
        res: MoeResources,
        flags: MoeFlags,
        table: &KernelTable,
        fp32_residual: bool,
        swiglu_clamp: u32,
    ) -> (r: Result<MoeLayer, MoeInitError>)
        ensures
            match r {
                Ok(l) => {
                    &&& Self::selectable(num_experts_per_tok, num_experts)
                    &&& MoeKernels::missing(table, fp32_residual) is None
                    &&& l.k == MoeKernels::of(table, fp32_residual)
                    &&& l.fresh(weights, gate_nvfp4, res, flags, swiglu_clamp)
                },
                Err(MoeInitError::InvalidConfig(k, n)) => {
                    &&& !Self::selectable(num_experts_per_tok, num_experts)
                    &&& k == num_experts_per_tok && n == num_experts
                },
                Err(MoeInitError::MissingKernel(m)) => {
                    &&& Self::selectable(num_experts_per_tok, num_experts)
                    &&& MoeKernels::missing(table, fp32_residual) == Some(m@)
                },
            },
    {
        if !(num_experts_per_tok <= num_experts && num_experts > 0) {
            return Err(MoeInitError::InvalidConfig(num_experts_per_tok, num_experts));
        }
        let k: MoeKernels = match MoeKernels::load(table, fp32_residual) {
            Ok(k) => k,
            Err(e) => {
                return Err(MoeInitError::MissingKernel(e));
            },
        };
        let bias: Option<DevicePtr> = match weights.correction_bias {
            Some(w) => Some(w.weight),
            None => None,
        };
        let dense: Option<DenseExpertWeight> = weights.shared_expert_dense;
        Ok(
            MoeLayer {
                weights,
                gate_nvfp4,
                pre_expert_norm: None,
                gate_ptrs: res.gate_ptrs,
                up_ptrs: res.up_ptrs,
                down_ptrs: res.down_ptrs,
                gate_ptrs_t: None,
                up_ptrs_t: None,
                down_ptrs_t: None,
                down_t_scratch_packed: None,
                down_t_scratch_scale: None,
                shared_gate_t: None,
                shared_up_t: None,
                shared_down_t: None,
                gate_fp8: None,
                shared_gate_fp8: None,
                shared_up_fp8: None,
                shared_down_fp8: None,
                shared_gate_dense: match dense {
                    Some(d) => Some(d.gate_proj),
                    None => None,
                },
                shared_up_dense: match dense {
                    Some(d) => Some(d.up_proj),
                    None => None,
                },
                shared_down_dense: match dense {
                    Some(d) => Some(d.down_proj),
                    None => None,
                },
                fp8_gate_weight_ptrs: None,
                fp8_up_weight_ptrs: None,
                fp8_down_weight_ptrs: None,
                fp8_shared_expert: None,
                correction_bias_dev: bias,
                gelu_activation: false,
                unified_layout: flags.unified_layout,
                hybrid_layout: flags.hybrid_layout,
                nvfp4_gate_up_m128: flags.nvfp4_gate_up_m128,
                fp8_moe_coalesced_enabled: flags.fp8_moe_coalesced,
                t_layout_prefill: false,
                t_layout_decode: false,
                prefill_stream: res.prefill_stream,
                event_a: res.event_a,
                event_b: res.event_b,
                is_dflash_capture_layer: false,
                swiglu_clamp,
                k,
            },
        )
    }
}

} // verus!
