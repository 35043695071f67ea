//! Prefill: router, selection, sort, grouped products, reduction, shared blend.

use crate::context::ForwardContext;
use crate::gpu::{DevicePtr, F32_ONE};
use crate::moe::forward_prefill_routed::RoutedRows;
use crate::moe::routing::{sort_regions, split_sort_regions, SortRegions};
use crate::moe::{MoeError, MoeLayer};
use crate::num::{lemma_span_mono, span};
use crate::plan::{enqueue, enqueue_reduce, enqueue_timed, on, reduced, timed, Op, Step};
use vstd::prelude::*;

verus! {

impl MoeLayer {
    /// Every extent and byte count of the 4-bit prefill is representable.
    pub open spec fn prefill_fits(&self, cx: &ForwardContext, num_tokens: usize) -> bool {
        let te = Self::expanded(cx, num_tokens);
        &&& Self::routed_fits(cx, num_tokens)
        &&& te * 4 * 2 + (cx.experts() + 1) * 4 <= usize::MAX
        &&& (num_tokens as u32) * cx.shared_inter() <= u32::MAX
        &&& num_tokens * cx.h() * 2 <= usize::MAX
        &&& (num_tokens as u32) * cx.experts() * 4 <= usize::MAX
        &&& (num_tokens as u32) * cx.top_k() * 4 <= usize::MAX
    }

    /// Router product of the prefill; an FP8 copy of the router weight is
    /// preferred.
    pub open spec fn prefill_router(
        &self, cx: &ForwardContext, router_in: DevicePtr, n: u32,
    ) -> Op {
        let out = cx.buffers.gate_logits;
        match (self.gate_fp8, self.gate_nvfp4) {
            (Some(w), _) => Op::Fp8GemmN128(
                self.k.fp8_gemm, router_in, w, out, n, cx.experts(), cx.h(),
            ),
            (None, Some(w)) => Op::W4a16Gemm(
                self.k.w4a16_gemm, router_in, w, out, n, cx.experts(), cx.h(),
            ),
            (None, None) => Op::DenseGemm(
                self.k.dense_gemm, router_in, self.weights.gate, out, n, cx.experts(), cx.h(),
            ),
        }
    }

    /// Row-by-row sigmoid selection of the first `rows` rows, where the kernel
    /// for all rows is missing.
    pub open spec fn prefill_topk_each(
        &self,
        cx: &ForwardContext,
        s: Seq<Step>,
        bias: DevicePtr,
        weights: DevicePtr,
        rows: nat,
        stream: u64,
    ) -> Seq<Step>
        decreases rows,
    {
        if rows == 0 {
            s
        } else {
            let t = rows - 1;
            on(
                self.prefill_topk_each(cx, s, bias, weights, (rows - 1) as nat, stream),
                stream,
                Op::MoeTopkSigmoid(
                    self.k.topk_sigmoid, cx.buffers.gate_logits.at(t * cx.experts() * 4), bias,
                    cx.buffers.scratch.at(t * cx.top_k() * 4), weights.at(t * cx.top_k() * 4),
                    cx.experts(), cx.top_k(), cx.config.norm_topk_prob, F32_ONE, cx.n_group(),
                    cx.topk_group(),
                ),
            )
        }
    }

    /// Expert selection of all rows.
    pub open spec fn prefill_topk(
        &self,
        cx: &ForwardContext,
        s: Seq<Step>,
        weights: DevicePtr,
        n: u32,
        stream: u64,
    ) -> Seq<Step> {
        if self.correction_bias_dev is Some && self.k.topk_sigmoid_batched.0 == 0 {
            self.prefill_topk_each(cx, s, self.correction_bias_dev->0, weights, n as nat, stream)
        } else {
            on(s, stream, self.topk_rows(cx, cx.buffers.scratch, weights, F32_ONE, n))
        }
    }

    /// Sort of the routed rows by expert.
    pub open spec fn sort_op(&self, cx: &ForwardContext, r: SortRegions, te: u32) -> Op {
        Op::MoeSortByExpert(
            self.k.sort_by_expert, cx.buffers.scratch, r.sorted_token_ids, r.sorted_expert_ids,
            r.expert_offsets, r.token_to_perm, te, cx.experts(), cx.top_k(),
        )
    }

    /// What the experts read: the input, or its norm in a buffer of its own.
    pub open spec fn expert_input(&self, cx: &ForwardContext, input: DevicePtr) -> DevicePtr {
        if self.pre_expert_norm is Some {
            cx.buffers.ssm_deinterleaved
        } else {
            input
        }
    }

    pub open spec fn pre_norm(
        &self,
        cx: &ForwardContext,
        s: Seq<Step>,
        input: DevicePtr,
        n: u32,
        stream: u64,
    ) -> Seq<Step> {
        match self.pre_expert_norm {
            Some(w) => on(
                s,
                stream,
                Op::RmsNorm(
                    self.k.pre_expert_norm, input, w, cx.buffers.ssm_deinterleaved, n, cx.h(),
                    cx.rms_norm_eps,
                ),
            ),
            None => s,
        }
    }

    /// The shared part, through its sigmoid gate.
    pub open spec fn shared_blend(&self, cx: &ForwardContext, input: DevicePtr, n: u32) -> Op {
        Op::MoeBatchedBlend(
            self.k.batched_blend, cx.buffers.moe_output, cx.buffers.attn_output, input,
            self.weights.shared_expert_gate.weight, cx.h(), n,
        )
    }

    /// Transposed down projections, the shared expert, and the routing.
    pub open spec fn prefill_front(
        &self,
        cx: &ForwardContext,
        s: Seq<Step>,
        input: DevicePtr,
        router_in: DevicePtr,
        n: u32,
        stream: u64,
    ) -> Seq<Step> {
        let time_transpose = cx.profile && self.down_t_scratch_packed is Some;
        let s = timed(s, time_transpose, stream);
        let s = on(s, stream, Op::MoeTransposeDown);
        let s = timed(s, time_transpose, stream);
        let s = timed(s, cx.profile, stream);
        let s = self.shared_expert(
            cx, s, input, n, cx.h(), cx.shared_inter(), stream, stream, false,
        );
        let s = timed(s, cx.profile, stream);
        let s = on(s, stream, Op::RouterInput(input, n, cx.h(), router_in));
        let s = on(s, stream, self.prefill_router(cx, router_in, n));
        timed(s, cx.profile, stream)
    }

    /// Selection, sort and the grouped pass.
    pub open spec fn prefill_routed(
        &self,
        cx: &ForwardContext,
        s: Seq<Step>,
        input: DevicePtr,
        num_tokens: usize,
        stream: u64,
    ) -> Seq<Step> {
        let n = num_tokens as u32;
        let te = Self::expanded(cx, num_tokens);
        let weights = cx.buffers.scratch.at(te * 4);
        let r = sort_regions(cx.buffers.gate_logits, te as int, cx.experts() as int);
        let s = timed(self.prefill_topk(cx, s, weights, n, stream), cx.profile, stream);
        let s = timed(on(s, stream, self.sort_op(cx, r, te)), cx.profile, stream);
        let s = timed(self.pre_norm(cx, s, input, n, stream), cx.profile, stream);
        let s = self.routed_plan(
            cx,
            s,
            RoutedRows {
                expert_input: self.expert_input(cx, input),
                expert_offsets: r.expert_offsets,
                sorted_token_ids: r.sorted_token_ids,
                num_tokens,
            },
            stream,
        );
        on(
            s,
            stream,
            Op::MoeUnpermuteReduce(
                self.k.unpermute_reduce, cx.buffers.expert_down_out, cx.buffers.moe_output,
                r.token_to_perm, weights, cx.h(), n, cx.top_k(),
            ),
        )
    }

    /// The shared blend and the sum over the ranks. With several ranks the
    /// shared part, which every rank holds in full, is blended after the sum.
    pub open spec fn prefill_finish(
        &self,
        cx: &ForwardContext,
        s: Seq<Step>,
        input: DevicePtr,
        num_tokens: usize,
        stream: u64,
    ) -> Seq<Step> {
        let n = num_tokens as u32;
        let has_shared = cx.shared_inter() > 0;
        let s = if has_shared && !cx.spec_is_ep() {
            on(s, stream, self.shared_blend(cx, input, n))
        } else {
            s
        };
        let s = timed(s, cx.profile, stream);
        if cx.spec_is_ep() {
            let s = timed(s, cx.profile, stream);
            let s = reduced(
                s,
                true,
                cx.graph_capture,
                cx.buffers.moe_output,
                num_tokens * cx.h() * 2,
                stream,
            );
            let s = timed(s, cx.profile, stream);
            if has_shared {
                on(s, stream, self.shared_blend(cx, input, n))
            } else {
                s
            }
        } else {
            s
        }
    }

    /// The plan of a prefill on 4-bit experts.
    pub open spec fn prefill_plan(
        &self,
        cx: &ForwardContext,
        input: DevicePtr,
        router_in: DevicePtr,
        num_tokens: usize,
        stream: u64,
    ) -> Seq<Step> {
        let s = self.prefill_front(cx, Seq::empty(), input, router_in, num_tokens as u32, stream);
        let s = self.prefill_routed(cx, s, input, num_tokens, stream);
        self.prefill_finish(cx, s, input, num_tokens, stream)
    }

    fn plan_prefill_front(
        &self,
        cx: &ForwardContext,
        plan: &mut Vec<Step>,
        input: DevicePtr,
        router_in: DevicePtr,
        n: u32,
        stream: u64,
    )
        requires
            n * cx.shared_inter() <= u32::MAX,
        ensures
            final(plan)@ == self.prefill_front(cx, old(plan)@, input, router_in, n, stream),
    {
        let h: u32 = cx.config.hidden_size as u32;
        let ne: u32 = cx.config.num_experts as u32;
        let shared_inter: u32 = cx.config.shared_expert_intermediate_size as u32;
        let time_transpose: bool = cx.profile && self.down_t_scratch_packed.is_some();
        enqueue_timed(plan, time_transpose, stream);
        enqueue(plan, stream, Op::MoeTransposeDown);
        enqueue_timed(plan, time_transpose, stream);
        enqueue_timed(plan, cx.profile, stream);
        if shared_inter > 0 {
            self.run_shared_expert_prefill(
                cx, plan, input, n, h, shared_inter, stream, stream, false,
            );
        }
        enqueue_timed(plan, cx.profile, stream);
        enqueue(plan, stream, Op::RouterInput(input, n, h, router_in));
        let out: DevicePtr = cx.buffers.gate_logits;
        let op: Op = if let Some(w) = self.gate_fp8 {
            Op::Fp8GemmN128(self.k.fp8_gemm, router_in, w, out, n, ne, h)
        } else if let Some(w) = self.gate_nvfp4 {
            Op::W4a16Gemm(self.k.w4a16_gemm, router_in, w, out, n, ne, h)
        } else {
            Op::DenseGemm(self.k.dense_gemm, router_in, self.weights.gate, out, n, ne, h)
        };
        enqueue(plan, stream, op);
        enqueue_timed(plan, cx.profile, stream);
    }

    fn plan_prefill_topk(
        &self,
        cx: &ForwardContext,
        plan: &mut Vec<Step>,
        weights: DevicePtr,
        n: u32,
        stream: u64,
    )
        requires
            n * cx.experts() * 4 <= usize::MAX,
            n * cx.top_k() * 4 <= usize::MAX,
        ensures
            final(plan)@ == self.prefill_topk(cx, old(plan)@, weights, n, stream),
    {
        if self.correction_bias_dev.is_some() && self.k.topk_sigmoid_batched.0 == 0 {
            let bias: DevicePtr = self.correction_bias_dev.unwrap();
            let ne: u32 = cx.config.num_experts as u32;
            let top_k: u32 = cx.config.num_experts_per_tok as u32;
            let mut t: u32 = 0;
            while t < n
                invariant
                    t <= n,
                    n * cx.experts() * 4 <= usize::MAX,
                    n * cx.top_k() * 4 <= usize::MAX,
                    ne == cx.experts(),
                    top_k == cx.top_k(),
                    plan@ == self.prefill_topk_each(
                        cx,
                        old(plan)@,
                        bias,
                        weights,
                        t as nat,
                        stream,
                    ),
                decreases n - t,
            {
                proof {
                    lemma_span_mono(t as int, n as int, ne as int, 4);
                    lemma_span_mono(t as int, n as int, top_k as int, 4);
                }
                let tok: usize = t as usize;
                enqueue(
                    plan,
                    stream,
                    Op::MoeTopkSigmoid(
                        self.k.topk_sigmoid,
                        cx.buffers.gate_logits.offset(span(tok, ne as usize, 4)), bias,
                        cx.buffers.scratch.offset(span(tok, top_k as usize, 4)),
                        weights.offset(span(tok, top_k as usize, 4)), ne, top_k,
                        cx.config.norm_topk_prob, F32_ONE, cx.config.n_group as u32,
                        cx.config.topk_group as u32,
                    ),
                );
                t = t + 1;
            }
        } else {
            enqueue(
                plan,
                stream,
                self.topk_rows_op(cx, cx.buffers.scratch, weights, F32_ONE, n),
            );
        }
    }

    fn plan_prefill_routed(
        &self,
        cx: &ForwardContext,
        plan: &mut Vec<Step>,
        input: DevicePtr,
        num_tokens: usize,
        stream: u64,
    )
        requires
            self.prefill_fits(cx, num_tokens),
        ensures
            final(plan)@ == self.prefill_routed(cx, old(plan)@, input, num_tokens, stream),
    {
        let b = cx.buffers;
        let h: u32 = cx.config.hidden_size as u32;
        let ne: u32 = cx.config.num_experts as u32;
        let top_k: u32 = cx.config.num_experts_per_tok as u32;
        let n: u32 = num_tokens as u32;
        let te: u32 = n * top_k;
        let weights: DevicePtr = b.scratch.offset(te as usize * 4);
        self.plan_prefill_topk(cx, plan, weights, n, stream);
        enqueue_timed(plan, cx.profile, stream);
        let r: SortRegions = split_sort_regions(b.gate_logits, te as usize, ne as usize);
        enqueue(
            plan,
            stream,
            Op::MoeSortByExpert(
                self.k.sort_by_expert, b.scratch, r.sorted_token_ids, r.sorted_expert_ids,
                r.expert_offsets, r.token_to_perm, te, ne, top_k,
            ),
        );
        enqueue_timed(plan, cx.profile, stream);
        let expert_input: DevicePtr = match self.pre_expert_norm {
            Some(w) => {
                enqueue(
                    plan,
                    stream,
                    Op::RmsNorm(
                        self.k.pre_expert_norm, input, w, b.ssm_deinterleaved, n, h,
                        cx.rms_norm_eps,
                    ),
                );
                b.ssm_deinterleaved
            },
            None => input,
        };
        enqueue_timed(plan, cx.profile, stream);
        self.run_routed_grouped_gemm(
            cx,
            plan,
            RoutedRows {
                expert_input,
                expert_offsets: r.expert_offsets,
                sorted_token_ids: r.sorted_token_ids,
                num_tokens,
            },
            stream,
        );
        enqueue(
            plan,
            stream,
            Op::MoeUnpermuteReduce(
                self.k.unpermute_reduce, b.expert_down_out, b.moe_output, r.token_to_perm,
                weights, h, n, top_k,
            ),
        );
    }

    pub(crate) fn shared_blend_op(&self, cx: &ForwardContext, input: DevicePtr, n: u32) -> (r: Op)
        ensures
            r == self.shared_blend(cx, input, n),
    {
        Op::MoeBatchedBlend(
            self.k.batched_blend, cx.buffers.moe_output, cx.buffers.attn_output, input,
            self.weights.shared_expert_gate.weight, cx.config.hidden_size as u32, n,
        )
    }

    fn plan_prefill_finish(
        &self,
        cx: &ForwardContext,
        plan: &mut Vec<Step>,
        input: DevicePtr,
        num_tokens: usize,
        stream: u64,
    )
        requires
            num_tokens * cx.h() * 2 <= usize::MAX,
        ensures
            final(plan)@ == self.prefill_finish(cx, old(plan)@, input, num_tokens, stream),
    {
        let h: u32 = cx.config.hidden_size as u32;
        let n: u32 = num_tokens as u32;
        let has_shared: bool = cx.config.shared_expert_intermediate_size as u32 > 0;
        if has_shared && !cx.is_ep() {
            enqueue(plan, stream, self.shared_blend_op(cx, input, n));
        }
        enqueue_timed(plan, cx.profile, stream);
        if cx.is_ep() {
            enqueue_timed(plan, cx.profile, stream);
            enqueue_reduce(
                plan,
                true,
                cx.graph_capture,
                cx.buffers.moe_output,
                span(num_tokens, h as usize, 2),
                stream,
            );
            enqueue_timed(plan, cx.profile, stream);
            if has_shared {
                enqueue(plan, stream, self.shared_blend_op(cx, input, n));
            }
        }
    }

    /// Which of the prefill paths a batch of this length takes, and what it
    /// needs.
    pub open spec fn forward_prefill_fits(&self, cx: &ForwardContext, num_tokens: usize) -> bool {
        if self.fp8_gate_weight_ptrs is Some {
            if self.k.fp8_grouped_gemm.0 != 0 && num_tokens > 64 {
                self.spec_fp8_ready() ==> self.fp8_fits(cx, num_tokens)
            } else {
                self.batched_fits(cx, num_tokens)
            }
        } else {
            self.prefill_fits(cx, num_tokens)
        }
    }

    /// The outcome of `forward_prefill`: FP8 experts use grouped products on
    /// more than 64 rows, where that kernel is loaded, and row-by-row dispatch
    /// otherwise; 4-bit experts use grouped products. Selection by sigmoid needs
    /// its kernel; 4-bit experts can select all rows at once or row by row.
    pub open spec fn forward_prefill_result(
        &self,
        cx: &ForwardContext,
        input: DevicePtr,
        router_in: DevicePtr,
        num_tokens: usize,
        fp8_kernel: crate::gpu::KernelHandle,
        stream: u64,
    ) -> Result<Seq<Step>, MoeError> {
        if self.fp8_gate_weight_ptrs is Some {
            if self.k.fp8_grouped_gemm.0 != 0 && num_tokens > 64 {
                if !self.spec_fp8_ready() {
                    Err(MoeError::Fp8TablesNotSet)
                } else if self.lacks_batch_selection() {
                    Err(MoeError::SigmoidKernelMissing)
                } else {
                    Ok(self.fp8_plan(cx, input, router_in, num_tokens, fp8_kernel, stream))
                }
            } else if self.lacks_row_selection(num_tokens as int) {
                Err(MoeError::SigmoidKernelMissing)
            } else {
                Ok(self.batched_plan(cx, Seq::empty(), input, router_in, num_tokens, stream))
            }
        } else if self.lacks_batch_selection() && self.lacks_row_selection(
            (num_tokens as u32) as int,
        ) {
            Err(MoeError::SigmoidKernelMissing)
        } else {
            Ok(self.prefill_plan(cx, input, router_in, num_tokens, stream))
        }
    }

    /// Plans a prefill. `router_in` is the router's view of the input and
    /// `fp8_kernel` the grouped FP8 kernel in use. The result is in
    /// `moe_output`, one row per token.
    pub fn forward_prefill(
        &self,
        cx: &ForwardContext,
        input: DevicePtr,
        router_in: DevicePtr,
        num_tokens: usize,
        fp8_kernel: crate::gpu::KernelHandle,
        stream: u64,
    ) -> (r: Result<Vec<Step>, MoeError>)
        requires
            self.forward_prefill_fits(cx, num_tokens),
        ensures
            match r {
                Ok(plan) => self.forward_prefill_result(
                    cx,
                    input,
                    router_in,
                    num_tokens,
                    fp8_kernel,
                    stream,
                ) == Ok::<Seq<Step>, MoeError>(plan@),
                Err(e) => self.forward_prefill_result(
                    cx,
                    input,
                    router_in,
                    num_tokens,
                    fp8_kernel,
                    stream,
                ) == Err::<Seq<Step>, MoeError>(e),
            },
    {
        if self.fp8_gate_weight_ptrs.is_some() {
            if self.k.fp8_grouped_gemm.0 != 0 && num_tokens > 64 {
                return self.forward_prefill_fp8(
                    cx, input, router_in, num_tokens, fp8_kernel, stream,
                );
            }
            return self.forward_batched(cx, input, router_in, num_tokens, stream);
        }
        if self.correction_bias_dev.is_some() && self.k.topk_sigmoid_batched.0 == 0
            && self.k.topk_sigmoid.0 == 0 && num_tokens as u32 > 0 {
            return Err(MoeError::SigmoidKernelMissing);
        }
        let mut plan: Vec<Step> = Vec::new();
        self.plan_prefill_front(cx, &mut plan, input, router_in, num_tokens as u32, stream);
        self.plan_prefill_routed(cx, &mut plan, input, num_tokens, stream);
        self.plan_prefill_finish(cx, &mut plan, input, num_tokens, stream);
        Ok(plan)
    }
}

} // verus!
