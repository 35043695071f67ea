//! Prefill on FP8 experts.

use crate::context::ForwardContext;
use crate::gpu::{DevicePtr, KernelHandle};
use crate::moe::routing::{
    max_m_tiles, sort_regions, split_sort_regions, worst_case_m_tiles, SortRegions,
};
use crate::moe::{MoeError, MoeLayer};
use crate::num::span;
use crate::plan::{enqueue, on, Op, Step};
use vstd::prelude::*;

verus! {

impl MoeLayer {
    /// Every extent and byte count of the FP8 prefill is representable.
    pub open spec fn fp8_fits(&self, cx: &ForwardContext, num_tokens: usize) -> bool {
        let te = Self::expanded(cx, num_tokens);
        &&& Self::routed_fits(cx, num_tokens)
        &&& te * 4 * 2 + (cx.experts() + 1) * 4 <= usize::MAX
        &&& (num_tokens as u32) * cx.shared_inter() <= u32::MAX
        &&& num_tokens * cx.h() * 2 <= usize::MAX
    }

    /// The shared expert on FP8 weights.
    pub open spec fn fp8_shared(
        &self,
        cx: &ForwardContext,
        s: Seq<Step>,
        input: DevicePtr,
        n: u32,
        stream: u64,
    ) -> Seq<Step> {
        let b = cx.buffers;
        let sh = self.fp8_shared_expert->0;
        let si = cx.shared_inter();
        if si > 0 {
            let s = on(
                s,
                stream,
                Op::W8a16Gemm(
                    self.k.w8a16_gemm, input, sh.gate_proj.weight, sh.gate_proj.row_scale,
                    b.ssm_deinterleaved, n, si, cx.h(),
                ),
            );
            let s = on(
                s,
                stream,
                Op::W8a16Gemm(
                    self.k.w8a16_gemm, input, sh.up_proj.weight, sh.up_proj.row_scale, b.ssm_qkvz,
                    n, si, cx.h(),
                ),
            );
            let s = on(
                s,
                stream,
                Op::SiluMul(
                    self.k.act_mul, b.ssm_deinterleaved, b.ssm_qkvz, b.ssm_deinterleaved,
                    (n * si) as u32,
                ),
            );
            on(
                s,
                stream,
                Op::W8a16Gemm(
                    self.k.w8a16_gemm, b.ssm_deinterleaved, sh.down_proj.weight,
                    sh.down_proj.row_scale, b.attn_output, n, cx.h(), si,
                ),
            )
        } else {
            s
        }
    }

    /// Grouped FP8 products over the sorted rows.
    pub open spec fn fp8_grouped(
        &self,
        cx: &ForwardContext,
        s: Seq<Step>,
        input: DevicePtr,
        r: SortRegions,
        num_tokens: usize,
        kernel: KernelHandle,
        stream: u64,
    ) -> Seq<Step> {
        let b = cx.buffers;
        let ne = cx.experts();
        let tiles = max_m_tiles(num_tokens, cx.top_k());
        if tiles > 0 {
            let s = on(
                s,
                stream,
                Op::MoeFp8GroupedGemm(
                    kernel, input, self.fp8_gate_weight_ptrs->0, b.expert_gate_out,
                    r.expert_offsets, r.sorted_token_ids, ne, cx.inter(), cx.h(), tiles,
                ),
            );
            let s = on(
                s,
                stream,
                Op::MoeFp8GroupedGemm(
                    kernel, input, self.fp8_up_weight_ptrs->0, b.expert_up_out, r.expert_offsets,
                    r.sorted_token_ids, ne, cx.inter(), cx.h(), tiles,
                ),
            );
            let s = on(
                s,
                stream,
                Op::SiluMul(
                    self.k.act_mul, b.expert_gate_out, b.expert_up_out, b.expert_gate_out,
                    (Self::expanded(cx, num_tokens) * cx.inter()) as u32,
                ),
            );
            on(
                s,
                stream,
                Op::MoeFp8GroupedGemm(
                    kernel, b.expert_gate_out, self.fp8_down_weight_ptrs->0, b.expert_down_out,
                    r.expert_offsets, DevicePtr(0), ne, cx.h(), cx.inter(), tiles,
                ),
            )
        } else {
            s
        }
    }

    /// The sum over the ranks, then the shared part.
    pub open spec fn fp8_finish(
        &self,
        cx: &ForwardContext,
        s: Seq<Step>,
        input: DevicePtr,
        num_tokens: usize,
        stream: u64,
    ) -> Seq<Step> {
        let s = if cx.spec_is_ep() {
            on(
                s,
                stream,
                Op::AllReduceAsync(cx.buffers.moe_output, (num_tokens * cx.h() * 2) as usize),
            )
        } else {
            s
        };
        if cx.shared_inter() > 0 {
            on(s, stream, self.shared_blend(cx, input, num_tokens as u32))
        } else {
            s
        }
    }

    /// The plan of a prefill on FP8 experts.
    pub open spec fn fp8_plan(
        &self,
        cx: &ForwardContext,
        input: DevicePtr,
        router_in: DevicePtr,
        num_tokens: usize,
        kernel: KernelHandle,
        stream: u64,
    ) -> Seq<Step> {
        let n = num_tokens as u32;
        let te = Self::expanded(cx, num_tokens);
        let weights = cx.buffers.scratch.at(te * 4);
        let r = sort_regions(cx.buffers.gate_logits, te as int, cx.experts() as int);
        let s = self.fp8_shared(cx, Seq::empty(), input, n, stream);
        let s = self.router_logits(cx, s, input, router_in, n, stream);
        let s = on(
            s,
            stream,
            self.topk_rows(cx, cx.buffers.scratch, weights, cx.routed_scaling_factor, n),
        );
        let s = on(s, stream, self.sort_op(cx, r, te));
        let s = Self::routed_zero(cx, s, num_tokens, stream);
        let s = self.fp8_grouped(cx, s, input, r, num_tokens, kernel, stream);
        let s = on(
            s,
            stream,
            Op::MoeUnpermuteReduce(
                self.k.unpermute_reduce, cx.buffers.expert_down_out, cx.buffers.moe_output,
                r.token_to_perm, weights, cx.h(), n, cx.top_k(),
            ),
        );
        self.fp8_finish(cx, s, input, num_tokens, stream)
    }

    fn plan_fp8_shared(
        &self,
        cx: &ForwardContext,
        plan: &mut Vec<Step>,
        input: DevicePtr,
        n: u32,
        stream: u64,
    )
        requires
            self.spec_fp8_ready(),
            n * cx.shared_inter() <= u32::MAX,
        ensures
            final(plan)@ == self.fp8_shared(cx, old(plan)@, input, n, stream),
    {
        let b = cx.buffers;
        let h: u32 = cx.config.hidden_size as u32;
        let si: u32 = cx.config.shared_expert_intermediate_size as u32;
        if si > 0 {
            let sh = self.fp8_shared_expert.unwrap();
            enqueue(
                plan,
                stream,
                Op::W8a16Gemm(
                    self.k.w8a16_gemm, input, sh.gate_proj.weight, sh.gate_proj.row_scale,
                    b.ssm_deinterleaved, n, si, h,
                ),
            );
            enqueue(
                plan,
                stream,
                Op::W8a16Gemm(
                    self.k.w8a16_gemm, input, sh.up_proj.weight, sh.up_proj.row_scale, b.ssm_qkvz,
                    n, si, h,
                ),
            );
            enqueue(
                plan,
                stream,
                Op::SiluMul(
                    self.k.act_mul, b.ssm_deinterleaved, b.ssm_qkvz, b.ssm_deinterleaved, n * si,
                ),
            );
            enqueue(
                plan,
                stream,
                Op::W8a16Gemm(
                    self.k.w8a16_gemm, b.ssm_deinterleaved, sh.down_proj.weight,
                    sh.down_proj.row_scale, b.attn_output, n, h, si,
                ),
            );
        }
    }

    fn plan_fp8_grouped(
        &self,
        cx: &ForwardContext,
        plan: &mut Vec<Step>,
        input: DevicePtr,
        r: SortRegions,
        num_tokens: usize,
        kernel: KernelHandle,
        stream: u64,
    )
        requires
            self.spec_fp8_ready(),
            Self::routed_fits(cx, num_tokens),
        ensures
            final(plan)@ == self.fp8_grouped(
                cx,
                old(plan)@,
                input,
                r,
                num_tokens,
                kernel,
                stream,
            ),
    {
        let b = cx.buffers;
        let h: u32 = cx.config.hidden_size as u32;
        let inter: u32 = cx.config.moe_intermediate_size as u32;
        let ne: u32 = cx.config.num_experts as u32;
        let top_k: u32 = cx.config.num_experts_per_tok as u32;
        let te: u32 = num_tokens as u32 * top_k;
        let tiles: u32 = worst_case_m_tiles(num_tokens, top_k);
        if tiles > 0 {
            enqueue(
                plan,
                stream,
                Op::MoeFp8GroupedGemm(
                    kernel, input, self.fp8_gate_weight_ptrs.unwrap(), b.expert_gate_out,
                    r.expert_offsets, r.sorted_token_ids, ne, inter, h, tiles,
                ),
            );
            enqueue(
                plan,
                stream,
                Op::MoeFp8GroupedGemm(
                    kernel, input, self.fp8_up_weight_ptrs.unwrap(), b.expert_up_out,
                    r.expert_offsets, r.sorted_token_ids, ne, inter, h, tiles,
                ),
            );
            enqueue(
                plan,
                stream,
                Op::SiluMul(
                    self.k.act_mul, b.expert_gate_out, b.expert_up_out, b.expert_gate_out,
                    te * inter,
                ),
            );
            enqueue(
                plan,
                stream,
                Op::MoeFp8GroupedGemm(
                    kernel, b.expert_gate_out, self.fp8_down_weight_ptrs.unwrap(),
                    b.expert_down_out, r.expert_offsets, DevicePtr(0), ne, h, inter, tiles,
                ),
            );
        }
    }

    pub(crate) fn forward_prefill_fp8(
        &self,
        cx: &ForwardContext,
        input: DevicePtr,
        router_in: DevicePtr,
        num_tokens: usize,
        kernel: KernelHandle,
        stream: u64,
    ) -> (r: Result<Vec<Step>, MoeError>)
        requires
            self.spec_fp8_ready() ==> self.fp8_fits(cx, num_tokens),
        ensures
            match r {
                Ok(plan) => {
                    &&& self.spec_fp8_ready()
                    &&& !self.lacks_batch_selection()
                    &&& plan@ == self.fp8_plan(cx, input, router_in, num_tokens, kernel, stream)
                },
                Err(MoeError::Fp8TablesNotSet) => !self.spec_fp8_ready(),
                Err(MoeError::SigmoidKernelMissing) => self.spec_fp8_ready()
                    && self.lacks_batch_selection(),
            },
    {
        if !self.fp8_ready() {
            return Err(MoeError::Fp8TablesNotSet);
        }
        if self.correction_bias_dev.is_some() && self.k.topk_sigmoid_batched.0 == 0 {
            return Err(MoeError::SigmoidKernelMissing);
        }
        let b = cx.buffers;
        let h: u32 = cx.config.hidden_size as u32;
        let ne: u32 = cx.config.num_experts as u32;
        let top_k: u32 = cx.config.num_experts_per_tok as u32;
        let n: u32 = num_tokens as u32;
        let te: u32 = n * top_k;
        let weights: DevicePtr = b.scratch.offset(te as usize * 4);
        let mut plan: Vec<Step> = Vec::new();
        self.plan_fp8_shared(cx, &mut plan, input, n, stream);
        self.plan_router_logits(cx, &mut plan, input, router_in, n, stream);
        enqueue(
            &mut plan,
            stream,
            self.topk_rows_op(cx, b.scratch, weights, cx.routed_scaling_factor, n),
        );
        let r: SortRegions = split_sort_regions(b.gate_logits, te as usize, ne as usize);
        enqueue(
            &mut plan,
            stream,
            Op::MoeSortByExpert(
                self.k.sort_by_expert, b.scratch, r.sorted_token_ids, r.sorted_expert_ids,
                r.expert_offsets, r.token_to_perm, te, ne, top_k,
            ),
        );
        Self::plan_zero_experts(cx, &mut plan, num_tokens, stream);
        self.plan_fp8_grouped(cx, &mut plan, input, r, num_tokens, kernel, stream);
        enqueue(
            &mut plan,
            stream,
            Op::MoeUnpermuteReduce(
                self.k.unpermute_reduce, b.expert_down_out, b.moe_output, r.token_to_perm,
                weights, h, n, top_k,
            ),
        );
        if cx.is_ep() {
            enqueue(
                &mut plan,
                stream,
                Op::AllReduceAsync(b.moe_output, span(num_tokens, h as usize, 2)),
            );
        }
        if cx.config.shared_expert_intermediate_size as u32 > 0 {
            enqueue(&mut plan, stream, self.shared_blend_op(cx, input, n));
        }
        Ok(plan)
    }
}

} // verus!
