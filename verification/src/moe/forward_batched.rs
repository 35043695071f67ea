//! Several rows with one router product and per-row expert dispatch.

use crate::context::ForwardContext;
use crate::gpu::{DevicePtr, QuantizedWeight, F32_ONE};
use crate::moe::{MoeError, MoeLayer};
use crate::num::{lemma_span_mono, span};
use crate::plan::{enqueue, enqueue_reduce, on, reduced, Op, Step};
use vstd::prelude::*;

verus! {

impl MoeLayer {
    /// Whether the layer has a complete set of FP8 expert tables.
    pub open spec fn spec_fp8_ready(&self) -> bool {
        self.fp8_gate_weight_ptrs is Some && self.fp8_up_weight_ptrs is Some
            && self.fp8_down_weight_ptrs is Some && self.fp8_shared_expert is Some
    }

    pub(crate) fn fp8_ready(&self) -> (r: bool)
        ensures
            r == self.spec_fp8_ready(),
    {
        self.fp8_gate_weight_ptrs.is_some() && self.fp8_up_weight_ptrs.is_some()
            && self.fp8_down_weight_ptrs.is_some() && self.fp8_shared_expert.is_some()
    }

    /// Whether the transposed expert tables are present.
    pub open spec fn has_t_tables(&self) -> bool {
        self.gate_ptrs_t is Some && self.up_ptrs_t is Some && self.down_ptrs_t is Some
    }

    /// A weight, or the placeholder when it is absent.
    pub open spec fn or_null(w: Option<QuantizedWeight>) -> QuantizedWeight {
        match w {
            Some(x) => x,
            None => QuantizedWeight::spec_null(),
        }
    }

    pub(crate) fn weight_or_null(w: Option<QuantizedWeight>) -> (r: QuantizedWeight)
        ensures
            r == Self::or_null(w),
    {
        match w {
            Some(x) => x,
            None => QuantizedWeight::null(),
        }
    }

    /// Whether a selection row by row needs a kernel that is not loaded.
    pub open spec fn lacks_row_selection(&self, rows: int) -> bool {
        rows > 0 && self.correction_bias_dev is Some && self.k.topk_sigmoid.0 == 0
    }

    /// Whether a selection of all rows at once needs a kernel that is not loaded.
    pub open spec fn lacks_batch_selection(&self) -> bool {
        self.correction_bias_dev is Some && self.k.topk_sigmoid_batched.0 == 0
    }

    /// Expert selection of row `t`.
    pub open spec fn batched_topk(&self, cx: &ForwardContext, t: int) -> Op {
        let logits = cx.buffers.gate_logits.at(t * cx.experts() * 2);
        let weights = cx.buffers.scratch.at(cx.top_k() * 4);
        match self.correction_bias_dev {
            Some(bias) => Op::MoeTopkSigmoid(
                self.k.topk_sigmoid, logits, bias, cx.buffers.scratch, weights, cx.experts(),
                cx.top_k(), cx.config.norm_topk_prob, F32_ONE, cx.n_group(), cx.topk_group(),
            ),
            None => Op::MoeTopkSoftmax(
                self.k.topk, logits, cx.buffers.scratch, weights, cx.experts(), cx.top_k(),
                cx.config.norm_topk_prob,
            ),
        }
    }

    /// Expert and shared projections of one row: on FP8 tables, on transposed
    /// tables, or on the plain tables.
    pub open spec fn batched_experts(
        &self,
        cx: &ForwardContext,
        s: Seq<Step>,
        row: DevicePtr,
        stream: u64,
    ) -> Seq<Step> {
        let b = cx.buffers;
        let idx = b.scratch;
        if self.spec_fp8_ready() {
            let sh = self.fp8_shared_expert->0;
            let s1 = on(
                s,
                stream,
                Op::MoeGateUpSharedFp8(
                    self.k.gate_up_shared_fp8, row, self.fp8_gate_weight_ptrs->0,
                    b.expert_gate_out, self.fp8_up_weight_ptrs->0, b.expert_up_out, idx,
                    sh.gate_proj, b.logits, sh.up_proj, b.ssm_qkvz, cx.inter(), cx.h(),
                    cx.top_k(),
                ),
            );
            on(
                s1,
                stream,
                Op::MoeSiluDownSharedFp8(
                    self.k.silu_down_shared_fp8, b.expert_gate_out, b.expert_up_out,
                    self.fp8_down_weight_ptrs->0, b.expert_down_out, idx, b.logits, b.ssm_qkvz,
                    sh.down_proj, b.attn_output, cx.h(), cx.inter(), cx.top_k(),
                ),
            )
        } else if self.t_layout_prefill {
            let s1 = on(
                s,
                stream,
                Op::MoeGateUpSharedT(
                    self.k.gate_up_shared_t, row, self.gate_ptrs_t->0, b.expert_gate_out,
                    self.up_ptrs_t->0, b.expert_up_out, idx, Self::or_null(self.shared_gate_t),
                    b.logits, Self::or_null(self.shared_up_t), b.ssm_qkvz, cx.inter(), cx.h(),
                    cx.top_k(),
                ),
            );
            on(
                s1,
                stream,
                Op::MoeSiluDownSharedT(
                    self.k.silu_down_shared_t, b.expert_gate_out, b.expert_up_out,
                    self.down_ptrs_t->0, b.expert_down_out, idx, b.logits, b.ssm_qkvz,
                    Self::or_null(self.shared_down_t), b.attn_output, cx.h(), cx.inter(),
                    cx.top_k(),
                ),
            )
        } else {
            let sh = self.weights.shared_expert;
            let s1 = on(
                s,
                stream,
                Op::MoeGateUpShared(
                    self.k.gate_up_shared, row, self.gate_ptrs, b.expert_gate_out, self.up_ptrs,
                    b.expert_up_out, idx, sh.gate_proj, b.logits, sh.up_proj, b.ssm_qkvz,
                    cx.inter(), cx.h(), cx.top_k(),
                ),
            );
            on(
                s1,
                stream,
                Op::MoeSiluDownShared(
                    self.k.silu_down_shared, b.expert_gate_out, b.expert_up_out, self.down_ptrs,
                    b.expert_down_out, idx, b.logits, b.ssm_qkvz, sh.down_proj, b.attn_output,
                    cx.h(), cx.inter(), cx.top_k(),
                ),
            )
        }
    }

    /// Everything done for row `t`.
    pub open spec fn batched_row(
        &self,
        cx: &ForwardContext,
        s: Seq<Step>,
        input: DevicePtr,
        t: int,
        stream: u64,
    ) -> Seq<Step> {
        let b = cx.buffers;
        let row = input.at(t * cx.h() * 2);
        let out = b.moe_output.at(t * cx.h() * 2);
        let s = on(s, stream, self.batched_topk(cx, t));
        let s = self.batched_experts(cx, s, row, stream);
        let s = on(
            s,
            stream,
            Op::MoeWeightedSumBlend(
                self.k.weighted_sum_blend, out, b.expert_down_out, b.scratch.at(cx.top_k() * 4),
                b.attn_output, row, self.weights.shared_expert_gate.weight,
                cx.routed_scaling_factor, cx.h(), cx.top_k(), cx.h(),
            ),
        );
        reduced(s, cx.spec_is_ep(), cx.graph_capture, out, cx.h() * 2, stream)
    }

    pub open spec fn batched_rows(
        &self,
        cx: &ForwardContext,
        s: Seq<Step>,
        input: DevicePtr,
        rows: nat,
        stream: u64,
    ) -> Seq<Step>
        decreases rows,
    {
        if rows == 0 {
            s
        } else {
            self.batched_row(
                cx,
                self.batched_rows(cx, s, input, (rows - 1) as nat, stream),
                input,
                rows - 1,
                stream,
            )
        }
    }

    /// The plan of `forward_batched`, behind the steps `s`.
    pub open spec fn batched_plan(
        &self,
        cx: &ForwardContext,
        s: Seq<Step>,
        input: DevicePtr,
        router_in: DevicePtr,
        num_tokens: usize,
        stream: u64,
    ) -> Seq<Step> {
        self.batched_rows(
            cx,
            self.router_logits(cx, s, input, router_in, num_tokens as u32, stream),
            input,
            num_tokens as nat,
            stream,
        )
    }

    /// Every byte count of `forward_batched` is representable, and the
    /// transposed tables are there where they are used.
    pub open spec fn batched_fits(&self, cx: &ForwardContext, num_tokens: usize) -> bool {
        &&& num_tokens * cx.h() * 2 <= usize::MAX
        &&& num_tokens * cx.experts() * 2 <= usize::MAX
        &&& cx.top_k() * 4 <= usize::MAX
        &&& cx.h() * 2 <= usize::MAX
        &&& !self.spec_fp8_ready() && self.t_layout_prefill ==> self.has_t_tables()
    }

    fn plan_batched_row(
        &self,
        cx: &ForwardContext,
        plan: &mut Vec<Step>,
        input: DevicePtr,
        t: usize,
        stream: u64,
    )
        requires
            self.batched_fits(cx, t),
        ensures
            final(plan)@ == self.batched_row(cx, old(plan)@, input, t as int, stream),
    {
        let b = cx.buffers;
        let h: u32 = cx.config.hidden_size as u32;
        let inter: u32 = cx.config.moe_intermediate_size as u32;
        let ne: u32 = cx.config.num_experts as u32;
        let top_k: u32 = cx.config.num_experts_per_tok as u32;
        let norm: bool = cx.config.norm_topk_prob;
        let row: DevicePtr = input.offset(span(t, h as usize, 2));
        let out: DevicePtr = b.moe_output.offset(span(t, h as usize, 2));
        let logits: DevicePtr = b.gate_logits.offset(span(t, ne as usize, 2));
        let idx: DevicePtr = b.scratch;
        let weights: DevicePtr = b.scratch.offset(top_k as usize * 4);
        match self.correction_bias_dev {
            Some(bias) => enqueue(
                plan,
                stream,
                Op::MoeTopkSigmoid(
                    self.k.topk_sigmoid, logits, bias, idx, weights, ne, top_k, norm, F32_ONE,
                    cx.config.n_group as u32, cx.config.topk_group as u32,
                ),
            ),
            None => enqueue(
                plan,
                stream,
                Op::MoeTopkSoftmax(self.k.topk, logits, idx, weights, ne, top_k, norm),
            ),
        }
        if self.fp8_ready() {
            let sh = self.fp8_shared_expert.unwrap();
            enqueue(
                plan,
                stream,
                Op::MoeGateUpSharedFp8(
                    self.k.gate_up_shared_fp8, row, self.fp8_gate_weight_ptrs.unwrap(),
                    b.expert_gate_out, self.fp8_up_weight_ptrs.unwrap(), b.expert_up_out, idx,
                    sh.gate_proj, b.logits, sh.up_proj, b.ssm_qkvz, inter, h, top_k,
                ),
            );
            enqueue(
                plan,
                stream,
                Op::MoeSiluDownSharedFp8(
                    self.k.silu_down_shared_fp8, b.expert_gate_out, b.expert_up_out,
                    self.fp8_down_weight_ptrs.unwrap(), b.expert_down_out, idx, b.logits,
                    b.ssm_qkvz, sh.down_proj, b.attn_output, h, inter, top_k,
                ),
            );
        } else if self.t_layout_prefill {
            enqueue(
                plan,
                stream,
                Op::MoeGateUpSharedT(
                    self.k.gate_up_shared_t, row, self.gate_ptrs_t.unwrap(), b.expert_gate_out,
                    self.up_ptrs_t.unwrap(), b.expert_up_out, idx,
                    Self::weight_or_null(self.shared_gate_t), b.logits,
                    Self::weight_or_null(self.shared_up_t), b.ssm_qkvz, inter, h, top_k,
                ),
            );
            enqueue(
                plan,
                stream,
                Op::MoeSiluDownSharedT(
                    self.k.silu_down_shared_t, b.expert_gate_out, b.expert_up_out,
                    self.down_ptrs_t.unwrap(), b.expert_down_out, idx, b.logits, b.ssm_qkvz,
                    Self::weight_or_null(self.shared_down_t), b.attn_output, h, inter, top_k,
                ),
            );
        } else {
            let sh = self.weights.shared_expert;
            enqueue(
                plan,
                stream,
                Op::MoeGateUpShared(
                    self.k.gate_up_shared, row, self.gate_ptrs, b.expert_gate_out, self.up_ptrs,
                    b.expert_up_out, idx, sh.gate_proj, b.logits, sh.up_proj, b.ssm_qkvz, inter,
                    h, top_k,
                ),
            );
            enqueue(
                plan,
                stream,
                Op::MoeSiluDownShared(
                    self.k.silu_down_shared, b.expert_gate_out, b.expert_up_out, self.down_ptrs,
                    b.expert_down_out, idx, b.logits, b.ssm_qkvz, sh.down_proj, b.attn_output, h,
                    inter, top_k,
                ),
            );
        }
        enqueue(
            plan,
            stream,
            Op::MoeWeightedSumBlend(
                self.k.weighted_sum_blend, out, b.expert_down_out, weights, b.attn_output, row,
                self.weights.shared_expert_gate.weight, cx.routed_scaling_factor, h, top_k, h,
            ),
        );
        enqueue_reduce(plan, cx.is_ep(), cx.graph_capture, out, h as usize * 2, stream);
    }

    pub(crate) fn plan_batched(
        &self,
        cx: &ForwardContext,
        plan: &mut Vec<Step>,
        input: DevicePtr,
        router_in: DevicePtr,
        num_tokens: usize,
        stream: u64,
    )
        requires
            self.batched_fits(cx, num_tokens),
        ensures
            final(plan)@ == self.batched_plan(
                cx,
                old(plan)@,
                input,
                router_in,
                num_tokens,
                stream,
            ),
    {
        self.plan_router_logits(cx, plan, input, router_in, num_tokens as u32, stream);
        let ghost s1 = plan@;
        let mut t: usize = 0;
        while t < num_tokens
            invariant
                t <= num_tokens,
                self.batched_fits(cx, num_tokens),
                plan@ == self.batched_rows(cx, s1, input, t as nat, stream),
            decreases num_tokens - t,
        {
            proof {
                lemma_span_mono(t as int, num_tokens as int, cx.h() as int, 2);
                lemma_span_mono(t as int, num_tokens as int, cx.experts() as int, 2);
            }
            self.plan_batched_row(cx, plan, input, t, stream);
            t = t + 1;
        }
    }

    /// Plans a batch: one router product for all rows, then each row's experts.
    /// `router_in` is the router's view of the input. The result is in
    /// `moe_output`, one row per token.
    pub fn forward_batched(
        &self,
        cx: &ForwardContext,
        input: DevicePtr,
        router_in: DevicePtr,
        num_tokens: usize,
        stream: u64,
    ) -> (r: Result<Vec<Step>, MoeError>)
        requires
            self.batched_fits(cx, num_tokens),
        ensures
            match r {
                Ok(plan) => !self.lacks_row_selection(num_tokens as int) && plan@
                    == self.batched_plan(
                    cx,
                    Seq::empty(),
                    input,
                    router_in,
                    num_tokens,
                    stream,
                ),
                Err(e) => e == MoeError::SigmoidKernelMissing && self.lacks_row_selection(
                    num_tokens as int,
                ),
            },
    {
        if num_tokens > 0 && self.correction_bias_dev.is_some() && self.k.topk_sigmoid.0 == 0 {
            return Err(MoeError::SigmoidKernelMissing);
        }
        let mut plan: Vec<Step> = Vec::new();
        self.plan_batched(cx, &mut plan, input, router_in, num_tokens, stream);
        Ok(plan)
    }
}

} // verus!
