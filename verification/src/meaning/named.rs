//! Which functions of which modules plans launch.

use crate::attention::init::{AttentionOptions, LatentKernels};
use crate::attention::mla_cache_skip::MlaCacheSkip;
use crate::attention::mla_decode::MlaDecode;
use crate::attention::mla_paged::MlaPaged;
use crate::attention::types::AttentionKernels;
use crate::config::ModelConfig;
use crate::gpu::KernelHandle;
use crate::kernels::KernelTable;
use crate::model::{ModelKernels, TransformerModel};
use crate::moe::{MoeKernels, MoeLayer};
use crate::plan::Op;
use vstd::prelude::*;

verus! {

/// The kernel of an operation, and the module and function that it is, where
/// these are the same in every layer.
pub open spec fn named(op: Op) -> Option<(KernelHandle, Seq<char>, Seq<char>)> {
    match op {
        Op::DenseGemv(k, ..) => Some((k, "gemv"@, "dense_gemv_bf16"@)),
        Op::DenseGemm(k, ..) => Some((k, "gemm"@, "dense_gemm_bf16"@)),
        Op::DenseGemmTc(k, ..) => Some((k, "gemm_tc"@, "dense_gemm_tc"@)),
        Op::W4a16Gemv(k, ..) => Some((k, "w4a16_gemv"@, "w4a16_gemv"@)),
        Op::W4a16GemvBatch2(k, ..) => Some((k, "w4a16_gemv"@, "w4a16_gemv_batch2"@)),
        Op::W4a16Gemm(k, ..) => Some((k, "w4a16"@, "w4a16_gemm"@)),
        Op::W4a16GemmN128(k, ..) => Some((k, "w4a16"@, "w4a16_gemm_t"@)),
        Op::W8a16Gemm(k, ..) => Some((k, "w8a16_gemm"@, "w8a16_gemm"@)),
        Op::Fp8GemmN128(k, ..) => Some((k, "w4a16"@, "fp8_gemm_t"@)),
        Op::RmsNorm(k, ..) => Some((k, "norm"@, "rms_norm"@)),
        Op::SiluMul(k, ..) => Some((k, "moe_silu_mul"@, "moe_silu_mul"@)),
        Op::ClampBf16(k, ..) => Some((k, "moe_silu_mul"@, "clamp_bf16"@)),
        Op::MoeTopkSoftmax(k, ..) => Some((k, "moe_topk"@, "moe_topk_softmax"@)),
        Op::MoeTopkSoftmaxBatched(k, ..) => Some((k, "moe_topk"@, "moe_topk_softmax_batched"@)),
        Op::MoeTopkSigmoid(k, ..) => Some((k, "moe_topk_sig"@, "moe_topk_sigmoid"@)),
        Op::MoeTopkSigmoidBatched(k, ..) => Some((
            k,
            "moe_topk_sig"@,
            "moe_topk_sigmoid_batched"@,
        )),
        Op::MoeSortByExpert(k, ..) => Some((k, "moe"@, "moe_sort_by_expert"@)),
        Op::MoeGateUpShared(k, ..) => Some((
            k,
            "moe_shared_expert_fused"@,
            "moe_expert_gate_up_shared"@,
        )),
        Op::MoeGateUpSharedT(k, ..) => Some((
            k,
            "moe_shared_expert_fused_t"@,
            "moe_expert_gate_up_shared_t"@,
        )),
        Op::MoeGateUpSharedBatch2(k, ..) => Some((
            k,
            "moe_fused_batch2"@,
            "moe_expert_gate_up_shared_batch2"@,
        )),
        Op::MoeGateUpSharedBatch2T(k, ..) => Some((
            k,
            "moe_shared_expert_fused_batch2_t"@,
            "moe_expert_gate_up_shared_batch2_t"@,
        )),
        Op::MoeGateUpSharedFp8(k, ..) => Some((
            k,
            "moe_shared_expert_fused_fp8"@,
            "moe_expert_gate_up_shared_fp8"@,
        )),
        Op::MoeGateUpSharedFp8Batch2(k, ..) => Some((
            k,
            "moe_shared_expert_fused_fp8_batch2"@,
            "moe_expert_gate_up_shared_fp8_batch2"@,
        )),
        Op::MoeSiluDownShared(k, ..) => Some((
            k,
            "moe_shared_expert_fused"@,
            "moe_expert_silu_down_shared"@,
        )),
        Op::MoeSiluDownSharedT(k, ..) => Some((
            k,
            "moe_shared_expert_fused_t"@,
            "moe_expert_silu_down_shared_t"@,
        )),
        Op::MoeSiluDownSharedBatch2(k, ..) => Some((
            k,
            "moe_fused_batch2"@,
            "moe_expert_silu_down_shared_batch2"@,
        )),
        Op::MoeSiluDownSharedBatch2T(k, ..) => Some((
            k,
            "moe_shared_expert_fused_batch2_t"@,
            "moe_expert_silu_down_shared_batch2_t"@,
        )),
        Op::MoeSiluDownSharedFp8(k, ..) => Some((
            k,
            "moe_shared_expert_fused_fp8"@,
            "moe_expert_silu_down_shared_fp8"@,
        )),
        Op::MoeSiluDownSharedFp8Batch2(k, ..) => Some((
            k,
            "moe_shared_expert_fused_fp8_batch2"@,
            "moe_expert_silu_down_shared_fp8_batch2"@,
        )),
        Op::MoeWeightedSumBlend(k, ..) => Some((k, "moe_expert_gemv"@, "moe_weighted_sum_blend"@)),
        Op::MoeBatchedBlend(k, ..) => Some((k, "moe"@, "moe_batched_blend"@)),
        Op::MoeGroupedGemm(k, ..) => Some((k, "moe_w4a16"@, "moe_w4a16_grouped_gemm_ptrtable"@)),
        Op::MoeGroupedGemmN128(k, ..) => Some((
            k,
            "moe_w4a16"@,
            "moe_w4a16_grouped_gemm_ptrtable_t_k64"@,
        )),
        Op::MoeFusedGateUpN128(k, ..) => Some((k, "moe_w4a16"@, "moe_w4a16_fused_gate_up_t_k64"@)),
        Op::MoeFusedGateUpM128(k, ..) => Some((
            k,
            "moe_w4a16"@,
            "moe_w4a16_fused_gate_up_t_k64_m128"@,
        )),
        Op::MoeUnpermuteReduce(k, ..) => Some((k, "moe"@, "moe_unpermute_reduce_indexed"@)),
        Op::MlaBatchedGemv(k, ..) => Some((k, "mla_absorbed"@, "mla_batched_gemv"@)),
        Op::MlaQRopeScatter(k, ..) => Some((k, "mla_absorbed"@, "mla_q_rope_scatter"@)),
        Op::MlaQRopeWriteback(k, ..) => Some((k, "mla_absorbed"@, "mla_q_rope_writeback"@)),
        Op::MlaCacheAssemble(k, ..) => Some((k, "mla_absorbed"@, "mla_cache_assemble"@)),
        Op::MlaQRopeExtractBatched(k, ..) => Some((
            k,
            "mla_absorbed"@,
            "mla_q_rope_extract_batched"@,
        )),
        Op::MlaQRopeWritebackBatched(k, ..) => Some((
            k,
            "mla_absorbed"@,
            "mla_q_rope_writeback_batched"@,
        )),
        Op::MlaCacheAssembleBatched(k, ..) => Some((
            k,
            "mla_absorbed"@,
            "mla_cache_assemble_batched"@,
        )),
        Op::MlaKvAssembleBatched(k, ..) => Some((k, "mla_absorbed"@, "mla_kv_assemble_batched"@)),
        Op::HeadwiseGate(k, ..) => Some((k, "ling_mla_attn"@, "ling_mla_headwise_gate"@)),
        Op::LingMlaPrefillAttn(k, ..) => Some((k, "ling_mla_attn"@, "ling_mla_prefill_attn"@)),
        Op::FillSlots(k, ..) => Some((k, "metadata_fill"@, "fill_slots_from_block_table"@)),
        Op::SsmStateNorm(k, ..) => Some((k, "ssm_state_norm"@, "ssm_state_clamp_norm_fused"@)),
        _ => None,
    }
}

/// Whether an operation launches the function that is made for it.
pub open spec fn launches_own(t: &KernelTable, op: Op) -> bool {
    named(op) matches Some((k, module, function)) ==> k == t.handle(module, function)
}

/// A mixture-of-experts layer with the kernels of a table launches the functions
/// of these names, one for each operation.
#[verifier::rlimit(40)]
pub proof fn lemma_moe_functions(
    layer: &MoeLayer,
    t: &KernelTable,
    fp32_residual: bool,
    op: Op,
    fp8: KernelHandle,
)
    requires
        layer.k == MoeKernels::of(t, fp32_residual),
        layer.right_kernel(op, fp8),
    ensures
        launches_own(t, op),
        op matches Op::ResidualAdd(k, ..) ==> k == if fp32_residual && t.find(
            "norm"@,
            "f32_residual_add"@,
        ) is Some {
            t.handle("norm"@, "f32_residual_add"@)
        } else {
            t.handle("residual_add"@, "bf16_residual_add"@)
        },
        op matches Op::MoeWeightedSumBlendBatch2(k, ..) ==> k == if layer.spec_fp8_ready() {
            t.handle("moe_shared_expert_fused_fp8_batch2"@, "moe_weighted_sum_blend_fp8_batch2"@)
        } else {
            t.handle("moe_fused_batch2"@, "moe_weighted_sum_blend_batch2"@)
        },
{
    match op {
        Op::DenseGemm(..) => {},
        Op::W4a16Gemm(..) => {},
        Op::RmsNorm(..) => {},
        Op::MoeTopkSigmoid(..) => {},
        Op::MoeSortByExpert(..) => {},
        Op::MoeGateUpShared(..) => {},
        Op::MoeGateUpSharedT(..) => {},
        Op::MoeGateUpSharedBatch2(..) => {},
        Op::MoeGateUpSharedBatch2T(..) => {},
        Op::MoeGateUpSharedFp8(..) => {},
        Op::MoeGateUpSharedFp8Batch2(..) => {},
        Op::MoeSiluDownShared(..) => {},
        Op::MoeSiluDownSharedT(..) => {},
        Op::MoeSiluDownSharedBatch2(..) => {},
        Op::MoeSiluDownSharedBatch2T(..) => {},
        Op::MoeSiluDownSharedFp8(..) => {},
        Op::MoeSiluDownSharedFp8Batch2(..) => {},
        Op::MoeWeightedSumBlend(..) => {},
        Op::MoeWeightedSumBlendBatch2(..) => {},
        Op::MoeGroupedGemm(..) => {},
        Op::MoeGroupedGemmN128(..) => {},
        Op::MoeFusedGateUpN128(..) => {},
        Op::MoeFusedGateUpM128(..) => {},
        Op::ResidualAdd(..) => {},
        _ => {},
    }
}

/// So do the three paths of latent attention. Rotation follows the layout that
/// the options ask for, where there is a function for it, and attention to the
/// cache prefers the function for its width.
pub proof fn lemma_attention_functions(
    d: MlaDecode,
    c: MlaCacheSkip,
    p: MlaPaged,
    t: &KernelTable,
    o: AttentionOptions,
    op: Op,
)
    requires
        d.k == AttentionKernels::of(t, o) && d.lk == LatentKernels::of(t),
        c.k == AttentionKernels::of(t, o) && c.lk == LatentKernels::of(t),
        p.k == AttentionKernels::of(t, o),
        d.right_kernel(op) || c.right_kernel(op) || p.right_kernel(op),
    ensures
        launches_own(t, op),
        op matches Op::RopeYarn(k, ..) ==> {
            let interleaved = t.handle("rope"@, "rope_forward_yarn_interleave"@);
            k == if o.rope_interleave && interleaved.0 != 0 {
                interleaved
            } else {
                t.handle("rope"@, "rope_forward_yarn"@)
            }
        },
        op matches Op::PagedDecodeAttn(k, ..) ==> {
            let wide = t.handle("paged_decode_mla576"@, "paged_decode_attn_mla576"@);
            k == if wide.0 != 0 {
                wide
            } else {
                t.handle("paged_decode"@, "paged_decode_attn"@)
            }
        },
{
}

/// A model with the kernels of a table norms, embeds, fills slots and normalizes
/// states with the functions of these names, in single precision where the
/// residual stream is.
pub proof fn lemma_model_functions(
    m: &TransformerModel,
    t: &KernelTable,
    c: &ModelConfig,
    fp32: bool,
)
    requires
        m.k == ModelKernels::of(t, c, fp32),
    ensures
        m.k.rms_norm == if fp32 && t.find("norm"@, "rms_norm_f32"@) is Some {
            t.handle("norm"@, "rms_norm_f32"@)
        } else {
            t.handle("norm"@, "rms_norm"@)
        },
        m.k.batched_embed == if fp32 && t.find(
            "embed_from_argmax"@,
            "batched_embed_f32"@,
        ) is Some {
            t.handle("embed_from_argmax"@, "batched_embed_f32"@)
        } else {
            t.handle("embed_from_argmax"@, "batched_embed"@)
        },
        m.k.fill_slots == t.handle("metadata_fill"@, "fill_slots_from_block_table"@),
        m.k.ssm_state_norm == t.handle("ssm_state_norm"@, "ssm_state_clamp_norm_fused"@),
        m.k.argmax == t.handle("argmax"@, "argmax_bf16"@),
        m.k.argmax_logits == t.handle("argmax"@, "argmax_fp32"@),
{
}

} // verus!
