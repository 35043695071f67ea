//! Two rows in five fused launches: router, selection, gate and up, down, blend.

use crate::context::ForwardContext;
use crate::gpu::{DevicePtr, KernelHandle, F32_ONE};
use crate::moe::{MoeError, MoeLayer};
use crate::plan::{enqueue, enqueue_reduce, on, reduced, Op, Step};
use vstd::prelude::*;

verus! {

impl MoeLayer {
    /// Every byte count of `forward_k2` is representable, and the transposed
    /// tables are there where they are used.
    pub open spec fn k2_fits(&self, cx: &ForwardContext) -> bool {
        &&& 2 * cx.top_k() * 4 <= usize::MAX
        &&& 2 * cx.h() * 2 <= usize::MAX
        &&& 2 * cx.h() <= u32::MAX
        &&& !self.spec_fp8_ready() && self.t_layout_decode ==> self.has_t_tables()
    }

    /// Router logits and expert selection of both rows.
    pub open spec fn k2_route(
        &self,
        cx: &ForwardContext,
        s: Seq<Step>,
        input: DevicePtr,
        router_in: DevicePtr,
        stream: u64,
    ) -> Seq<Step> {
        let b = cx.buffers;
        let s1 = on(s, stream, Op::RouterInput(input, 2, cx.h(), router_in));
        let s2 = on(
            s1,
            stream,
            match self.gate_nvfp4 {
                Some(w) => Op::W4a16GemvBatch2(
                    self.k.w4a16_gemv_batch2, router_in, w, b.gate_logits, cx.experts(), cx.h(),
                ),
                None => Op::DenseGemm(
                    self.k.dense_gemm, router_in, self.weights.gate, b.gate_logits, 2,
                    cx.experts(), cx.h(),
                ),
            },
        );
        on(
            s2,
            stream,
            self.topk_rows(cx, b.scratch, b.scratch.at(2 * cx.top_k() * 4), F32_ONE, 2),
        )
    }

    /// The weighted sum of both rows. With several ranks the shared part is
    /// replaced by zeros here; it is added once, after the sum over the ranks.
    pub open spec fn k2_blend(
        &self,
        cx: &ForwardContext,
        s: Seq<Step>,
        kernel: KernelHandle,
        input: DevicePtr,
        stream: u64,
    ) -> Seq<Step> {
        let b = cx.buffers;
        let zeroed = cx.spec_is_ep() && !b.attn_output.spec_is_null();
        let s1 = if zeroed {
            on(s, stream, Op::Memset(b.expert_gate_out, 0, (2 * cx.h() * 2) as usize))
        } else {
            s
        };
        on(
            s1,
            stream,
            Op::MoeWeightedSumBlendBatch2(
                kernel, b.moe_output, b.expert_down_out, b.scratch.at(2 * cx.top_k() * 4),
                if zeroed { b.expert_gate_out } else { b.attn_output }, input,
                self.weights.shared_expert_gate.weight, cx.h(), cx.top_k(), cx.h(),
            ),
        )
    }

    /// Threads per block of the fused kernels: wide models use more.
    pub open spec fn k2_block(cx: &ForwardContext) -> u32 {
        if cx.config.hidden_size >= 3072 {
            256
        } else {
            128
        }
    }

    /// Expert and shared projections of both rows, and their blend.
    pub open spec fn k2_experts(
        &self,
        cx: &ForwardContext,
        s: Seq<Step>,
        input: DevicePtr,
        stream: u64,
    ) -> Seq<Step> {
        let b = cx.buffers;
        let idx = b.scratch;
        if self.spec_fp8_ready() {
            let sh = self.fp8_shared_expert->0;
            let s = on(
                s,
                stream,
                Op::MoeGateUpSharedFp8Batch2(
                    self.k.gate_up_shared_fp8_batch2, input, self.fp8_gate_weight_ptrs->0,
                    b.expert_gate_out, self.fp8_up_weight_ptrs->0, b.expert_up_out, idx,
                    sh.gate_proj, b.logits, sh.up_proj, b.ssm_qkvz, cx.inter(), cx.h(),
                    cx.top_k(),
                ),
            );
            let s = on(
                s,
                stream,
                Op::MoeSiluDownSharedFp8Batch2(
                    self.k.silu_down_shared_fp8_batch2, b.expert_gate_out, b.expert_up_out,
                    self.fp8_down_weight_ptrs->0, b.expert_down_out, idx, b.logits, b.ssm_qkvz,
                    sh.down_proj, b.attn_output, cx.h(), cx.inter(), cx.top_k(),
                ),
            );
            self.k2_blend(cx, s, self.k.weighted_sum_blend_fp8_batch2, input, stream)
        } else if self.t_layout_decode {
            let s = on(
                s,
                stream,
                Op::MoeGateUpSharedBatch2T(
                    self.k.gate_up_shared_batch2_t, input, self.gate_ptrs_t->0,
                    b.expert_gate_out, self.up_ptrs_t->0, b.expert_up_out, idx,
                    Self::or_null(self.shared_gate_t), b.logits, Self::or_null(self.shared_up_t),
                    b.ssm_qkvz, cx.inter(), cx.h(), cx.top_k(),
                ),
            );
            let s = on(
                s,
                stream,
                Op::MoeSiluDownSharedBatch2T(
                    self.k.silu_down_shared_batch2_t, b.expert_gate_out, b.expert_up_out,
                    self.down_ptrs_t->0, b.expert_down_out, idx, b.logits, b.ssm_qkvz,
                    Self::or_null(self.shared_down_t), b.attn_output, cx.h(), cx.inter(),
                    cx.top_k(),
                ),
            );
            self.k2_blend(cx, s, self.k.weighted_sum_blend_batch2, input, stream)
        } else {
            let sh = self.weights.shared_expert;
            let s = on(
                s,
                stream,
                Op::MoeGateUpSharedBatch2(
                    self.k.gate_up_shared_batch2, input, self.gate_ptrs, b.expert_gate_out,
                    self.up_ptrs, b.expert_up_out, idx, sh.gate_proj, b.logits, sh.up_proj,
                    b.ssm_qkvz, cx.inter(), cx.h(), cx.top_k(), Self::k2_block(cx),
                ),
            );
            let s = on(
                s,
                stream,
                Op::MoeSiluDownSharedBatch2(
                    self.k.silu_down_shared_batch2, b.expert_gate_out, b.expert_up_out,
                    self.down_ptrs, b.expert_down_out, idx, b.logits, b.ssm_qkvz, sh.down_proj,
                    b.attn_output, cx.h(), cx.inter(), cx.top_k(), Self::k2_block(cx),
                ),
            );
            self.k2_blend(cx, s, self.k.weighted_sum_blend_batch2, input, stream)
        }
    }

    /// The sum over the ranks, then the shared part: added as it is when it has
    /// no gate, through its sigmoid gate otherwise.
    pub open spec fn k2_reduce(
        &self,
        cx: &ForwardContext,
        s: Seq<Step>,
        input: DevicePtr,
        stream: u64,
    ) -> Seq<Step> {
        let b = cx.buffers;
        let s1 = reduced(
            s, cx.spec_is_ep(), cx.graph_capture, b.moe_output, 2 * cx.h() * 2, stream,
        );
        if cx.spec_is_ep() && !b.attn_output.spec_is_null() {
            on(
                s1,
                stream,
                if self.weights.shared_expert_gate.weight.0 == 0 {
                    Op::ResidualAdd(
                        self.k.residual_add, b.moe_output, b.attn_output, (2 * cx.h()) as u32,
                    )
                } else {
                    Op::MoeBatchedBlend(
                        self.k.batched_blend, b.moe_output, b.attn_output, input,
                        self.weights.shared_expert_gate.weight, cx.h(), 2,
                    )
                },
            )
        } else {
            s1
        }
    }

    /// The plan of `forward_k2`.
    pub open spec fn k2_plan(
        &self,
        cx: &ForwardContext,
        input: DevicePtr,
        router_in: DevicePtr,
        stream: u64,
    ) -> Seq<Step> {
        let s = self.k2_route(cx, Seq::empty(), input, router_in, stream);
        self.k2_reduce(cx, self.k2_experts(cx, s, input, stream), input, stream)
    }

    fn plan_k2_route(
        &self,
        cx: &ForwardContext,
        plan: &mut Vec<Step>,
        input: DevicePtr,
        router_in: DevicePtr,
        stream: u64,
    )
        requires
            self.k2_fits(cx),
        ensures
            final(plan)@ == self.k2_route(cx, old(plan)@, input, router_in, stream),
    {
        let b = cx.buffers;
        let h: u32 = cx.config.hidden_size as u32;
        let ne: u32 = cx.config.num_experts as u32;
        let top_k: u32 = cx.config.num_experts_per_tok as u32;
        enqueue(plan, stream, Op::RouterInput(input, 2, h, router_in));
        match self.gate_nvfp4 {
            Some(w) => enqueue(
                plan,
                stream,
                Op::W4a16GemvBatch2(
                    self.k.w4a16_gemv_batch2, router_in, w, b.gate_logits, ne, h,
                ),
            ),
            None => enqueue(
                plan,
                stream,
                Op::DenseGemm(
                    self.k.dense_gemm, router_in, self.weights.gate, b.gate_logits, 2, ne, h,
                ),
            ),
        }
        let weights: DevicePtr = b.scratch.offset(2 * top_k as usize * 4);
        enqueue(plan, stream, self.topk_rows_op(cx, b.scratch, weights, F32_ONE, 2));
    }

    fn plan_k2_blend(
        &self,
        cx: &ForwardContext,
        plan: &mut Vec<Step>,
        kernel: KernelHandle,
        input: DevicePtr,
        stream: u64,
    )
        requires
            self.k2_fits(cx),
        ensures
            final(plan)@ == self.k2_blend(cx, old(plan)@, kernel, input, stream),
    {
        let b = cx.buffers;
        let h: u32 = cx.config.hidden_size as u32;
        let top_k: u32 = cx.config.num_experts_per_tok as u32;
        let zeroed: bool = cx.is_ep() && !b.attn_output.is_null();
        if zeroed {
            enqueue(plan, stream, Op::Memset(b.expert_gate_out, 0, 2 * h as usize * 2));
        }
        let shared: DevicePtr = if zeroed {
            b.expert_gate_out
        } else {
            b.attn_output
        };
        enqueue(
            plan,
            stream,
            Op::MoeWeightedSumBlendBatch2(
                kernel, b.moe_output, b.expert_down_out, b.scratch.offset(2 * top_k as usize * 4),
                shared, input, self.weights.shared_expert_gate.weight, h, top_k, h,
            ),
        );
    }

    fn plan_k2_experts(
        &self,
        cx: &ForwardContext,
        plan: &mut Vec<Step>,
        input: DevicePtr,
        stream: u64,
    )
        requires
            self.k2_fits(cx),
        ensures
            final(plan)@ == self.k2_experts(cx, old(plan)@, input, stream),
    {
        let b = cx.buffers;
        let h: u32 = cx.config.hidden_size as u32;
        let inter: u32 = cx.config.moe_intermediate_size as u32;
        let top_k: u32 = cx.config.num_experts_per_tok as u32;
        let idx: DevicePtr = b.scratch;
        if self.fp8_ready() {
            let sh = self.fp8_shared_expert.unwrap();
            enqueue(
                plan,
                stream,
                Op::MoeGateUpSharedFp8Batch2(
                    self.k.gate_up_shared_fp8_batch2, input, self.fp8_gate_weight_ptrs.unwrap(),
                    b.expert_gate_out, self.fp8_up_weight_ptrs.unwrap(), b.expert_up_out, idx,
                    sh.gate_proj, b.logits, sh.up_proj, b.ssm_qkvz, inter, h, top_k,
                ),
            );
            enqueue(
                plan,
                stream,
                Op::MoeSiluDownSharedFp8Batch2(
                    self.k.silu_down_shared_fp8_batch2, b.expert_gate_out, b.expert_up_out,
                    self.fp8_down_weight_ptrs.unwrap(), b.expert_down_out, idx, b.logits,
                    b.ssm_qkvz, sh.down_proj, b.attn_output, h, inter, top_k,
                ),
            );
            self.plan_k2_blend(cx, plan, self.k.weighted_sum_blend_fp8_batch2, input, stream);
        } else if self.t_layout_decode {
            enqueue(
                plan,
                stream,
                Op::MoeGateUpSharedBatch2T(
                    self.k.gate_up_shared_batch2_t, input, self.gate_ptrs_t.unwrap(),
                    b.expert_gate_out, self.up_ptrs_t.unwrap(), b.expert_up_out, idx,
                    Self::weight_or_null(self.shared_gate_t), b.logits,
                    Self::weight_or_null(self.shared_up_t), b.ssm_qkvz, inter, h, top_k,
                ),
            );
            enqueue(
                plan,
                stream,
                Op::MoeSiluDownSharedBatch2T(
                    self.k.silu_down_shared_batch2_t, b.expert_gate_out, b.expert_up_out,
                    self.down_ptrs_t.unwrap(), b.expert_down_out, idx, b.logits, b.ssm_qkvz,
                    Self::weight_or_null(self.shared_down_t), b.attn_output, h, inter, top_k,
                ),
            );
            self.plan_k2_blend(cx, plan, self.k.weighted_sum_blend_batch2, input, stream);
        } else {
            let sh = self.weights.shared_expert;
            let block: u32 = if cx.config.hidden_size >= 3072 {
                256
            } else {
                128
            };
            enqueue(
                plan,
                stream,
                Op::MoeGateUpSharedBatch2(
                    self.k.gate_up_shared_batch2, input, self.gate_ptrs, b.expert_gate_out,
                    self.up_ptrs, b.expert_up_out, idx, sh.gate_proj, b.logits, sh.up_proj,
                    b.ssm_qkvz, inter, h, top_k, block,
                ),
            );
            enqueue(
                plan,
                stream,
                Op::MoeSiluDownSharedBatch2(
                    self.k.silu_down_shared_batch2, b.expert_gate_out, b.expert_up_out,
                    self.down_ptrs, b.expert_down_out, idx, b.logits, b.ssm_qkvz, sh.down_proj,
                    b.attn_output, h, inter, top_k, block,
                ),
            );
            self.plan_k2_blend(cx, plan, self.k.weighted_sum_blend_batch2, input, stream);
        }
    }

    /// Plans two rows. The result is in `moe_output`, two rows.
    pub fn forward_k2(
        &self,
        cx: &ForwardContext,
        input: DevicePtr,
        router_in: DevicePtr,
        stream: u64,
    ) -> (r: Result<Vec<Step>, MoeError>)
        requires
            self.k2_fits(cx),
        ensures
            match r {
                Ok(plan) => !self.lacks_batch_selection() && plan@ == self.k2_plan(
                    cx,
                    input,
                    router_in,
                    stream,
                ),
                Err(e) => e == MoeError::SigmoidKernelMissing && self.lacks_batch_selection(),
            },
    {
        if self.correction_bias_dev.is_some() && self.k.topk_sigmoid_batched.0 == 0 {
            return Err(MoeError::SigmoidKernelMissing);
        }
        let b = cx.buffers;
        let h: u32 = cx.config.hidden_size as u32;
        let mut plan: Vec<Step> = Vec::new();
        self.plan_k2_route(cx, &mut plan, input, router_in, stream);
        self.plan_k2_experts(cx, &mut plan, input, stream);
        enqueue_reduce(
            &mut plan,
            cx.is_ep(),
            cx.graph_capture,
            b.moe_output,
            2 * h as usize * 2,
            stream,
        );
        if cx.is_ep() && !b.attn_output.is_null() {
            if self.weights.shared_expert_gate.weight.0 == 0 {
                enqueue(
                    &mut plan,
                    stream,
                    Op::ResidualAdd(self.k.residual_add, b.moe_output, b.attn_output, 2 * h),
                );
            } else {
                enqueue(
                    &mut plan,
                    stream,
                    Op::MoeBatchedBlend(
                        self.k.batched_blend, b.moe_output, b.attn_output, input,
                        self.weights.shared_expert_gate.weight, h, 2,
                    ),
                );
            }
        }
        Ok(plan)
    }
}

} // verus!
