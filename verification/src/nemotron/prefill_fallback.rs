//! Several rows, one after the other.

use crate::context::ForwardContext;
use crate::gpu::{DevicePtr, F32_ONE};
use crate::moe::MoeError;
use crate::nemotron::{NemotronMoeLayer, SortedPrefillCtx};
use crate::num::{lemma_span_mono, span};
use crate::plan::{enqueue, on, Op, Step};
use vstd::prelude::*;

verus! {

impl NemotronMoeLayer {
    /// All rows are routed in one launch when there are several and the kernel
    /// for that is loaded.
    pub open spec fn routes_rows_at_once(self, p: SortedPrefillCtx) -> bool {
        self.k.topk_sigmoid_batched.0 != 0 && p.num_tokens > 1
    }

    pub open spec fn fallback_fits(self, p: SortedPrefillCtx) -> bool {
        &&& self.wf()
        &&& p.num_tokens * p.h * 2 <= usize::MAX
        &&& p.num_tokens * p.top_k * 4 <= usize::MAX
        &&& p.num_tokens * p.num_experts * 2 <= usize::MAX
        &&& p.num_tokens * p.latent * 2 <= usize::MAX
        &&& p.num_tokens * p.shared_inter * 2 <= usize::MAX
        &&& p.top_k * 4 <= usize::MAX
        &&& p.latent * 2 <= usize::MAX
        &&& self.moe_latent_size > 0 ==> p.latent_base is Some
    }

    /// Where the selection of row `t` is.
    pub open spec fn row_indices(
        self,
        cx: &ForwardContext,
        p: SortedPrefillCtx,
        t: int,
    ) -> DevicePtr {
        if self.routes_rows_at_once(p) {
            p.indices_dev.at(t * p.top_k * 4)
        } else {
            cx.buffers.scratch
        }
    }

    pub open spec fn row_weights(
        self,
        cx: &ForwardContext,
        p: SortedPrefillCtx,
        t: int,
    ) -> DevicePtr {
        if self.routes_rows_at_once(p) {
            p.weights_dev.at(t * p.top_k * 4)
        } else {
            cx.buffers.scratch.at(p.top_k * 4)
        }
    }

    /// The selection of row `t`, when it is not done for all rows at once.
    pub open spec fn row_route(
        self,
        cx: &ForwardContext,
        s: Seq<Step>,
        p: SortedPrefillCtx,
        t: int,
        stream: u64,
    ) -> Seq<Step> {
        if self.routes_rows_at_once(p) {
            s
        } else {
            on(
                s,
                stream,
                Op::MoeTopkSigmoid(
                    self.k.topk_sigmoid, p.gate_logits.at(t * p.num_experts * 2),
                    self.weights.e_score_correction_bias.weight, self.row_indices(cx, p, t),
                    self.row_weights(cx, p, t), p.num_experts, p.top_k, cx.config.norm_topk_prob,
                    p.scale, cx.n_group(), cx.topk_group(),
                ),
            )
        }
    }

    /// The experts of row `t` on the latent width.
    pub open spec fn row_latent(
        self,
        cx: &ForwardContext,
        s: Seq<Step>,
        p: SortedPrefillCtx,
        t: int,
        stream: u64,
    ) -> Seq<Step> {
        let b = cx.buffers;
        let h = p.h as u32;
        let idx = self.row_indices(cx, p, t);
        let s = on(
            s,
            stream,
            Op::MoeExpertGemv(
                self.k.moe_expert_gemv, p.latent_base->0.at(t * p.latent * 2), self.up_ptrs,
                b.expert_up_out, idx, p.inter, p.latent, p.top_k, 0,
            ),
        );
        let s = on(
            s,
            stream,
            self.relu2_down(
                cx, if h >= p.latent { h } else { p.latent }, p.latent, idx,
                p.shared_up_out_base.at(t * p.shared_inter * 2), p.inter, p.shared_inter, h,
                p.top_k,
            ),
        );
        let s = on(s, stream, Op::Memset(b.expert_gate_out, 0, (p.latent * 2) as usize));
        let s = on(
            s,
            stream,
            Op::WeightedSumScale(
                self.k.weighted_sum_scale, b.attn_output, b.expert_down_out,
                self.row_weights(cx, p, t), b.expert_gate_out, p.latent, p.top_k, F32_ONE,
            ),
        );
        let s = on(
            s,
            stream,
            Op::DenseGemv(
                self.k.dense_gemv, b.attn_output, self.weights.fc2_latent_proj->0, b.moe_output,
                h, p.latent,
            ),
        );
        let s = on(
            s,
            stream,
            Op::ResidualAdd(self.k.residual_add, b.moe_output, b.ssm_deinterleaved, h),
        );
        on(
            s,
            stream,
            Op::ResidualAdd(self.k.residual_add, p.hidden.at(t * p.h * 2), b.moe_output, h),
        )
    }

    /// The experts of row `t` on the hidden width.
    pub open spec fn row_direct(
        self,
        cx: &ForwardContext,
        s: Seq<Step>,
        p: SortedPrefillCtx,
        t: int,
        stream: u64,
    ) -> Seq<Step> {
        let b = cx.buffers;
        let h = p.h as u32;
        let idx = self.row_indices(cx, p, t);
        let s = on(
            s,
            stream,
            Op::MoeExpertGemv(
                self.k.moe_expert_gemv, p.normed.at(t * p.h * 2), self.up_ptrs, b.expert_up_out,
                idx, p.inter, h, p.top_k, 0,
            ),
        );
        let s = on(
            s,
            stream,
            self.relu2_down(
                cx, h, h, idx, p.shared_up_out_base.at(t * p.shared_inter * 2), p.inter,
                p.shared_inter, h, p.top_k,
            ),
        );
        let s = on(
            s,
            stream,
            Op::WeightedSumScale(
                self.k.weighted_sum_scale, b.moe_output, b.expert_down_out,
                self.row_weights(cx, p, t), b.ssm_deinterleaved, h, p.top_k, F32_ONE,
            ),
        );
        on(
            s,
            stream,
            Op::ResidualAdd(self.k.residual_add, p.hidden.at(t * p.h * 2), b.moe_output, h),
        )
    }

    /// The first `rows` rows.
    pub open spec fn fallback_rows(
        self,
        cx: &ForwardContext,
        s: Seq<Step>,
        p: SortedPrefillCtx,
        rows: nat,
        stream: u64,
    ) -> Seq<Step>
        decreases rows,
    {
        if rows == 0 {
            s
        } else {
            let t = rows - 1;
            let s1 = self.fallback_rows(cx, s, p, (rows - 1) as nat, stream);
            let s2 = self.row_route(cx, s1, p, t, stream);
            if self.moe_latent_size > 0 {
                self.row_latent(cx, s2, p, t, stream)
            } else {
                self.row_direct(cx, s2, p, t, stream)
            }
        }
    }

    /// The plan of `prefill_fallback_path`.
    pub open spec fn fallback_plan(
        self,
        cx: &ForwardContext,
        p: SortedPrefillCtx,
        stream: u64,
    ) -> Seq<Step> {
        let s = if self.routes_rows_at_once(p) {
            on(Seq::empty(), stream, self.topk_sigmoid_rows(cx, p))
        } else {
            Seq::empty()
        };
        self.fallback_rows(cx, s, p, p.num_tokens as nat, stream)
    }

    fn plan_row_latent(
        &self,
        cx: &ForwardContext,
        plan: &mut Vec<Step>,
        p: SortedPrefillCtx,
        t: usize,
        idx: DevicePtr,
        weights: DevicePtr,
        stream: u64,
    )
        requires
            self.wf(),
            self.moe_latent_size > 0,
            p.latent_base is Some,
            idx == self.row_indices(cx, p, t as int),
            weights == self.row_weights(cx, p, t as int),
            t * p.h * 2 <= usize::MAX,
            t * p.latent * 2 <= usize::MAX,
            t * p.shared_inter * 2 <= usize::MAX,
            p.latent * 2 <= usize::MAX,
        ensures
            final(plan)@ == self.row_latent(cx, old(plan)@, p, t as int, stream),
    {
        let b = cx.buffers;
        let h: u32 = p.h as u32;
        let x: DevicePtr = p.latent_base.unwrap().offset(span(t, p.latent as usize, 2));
        enqueue(
            plan,
            stream,
            Op::MoeExpertGemv(
                self.k.moe_expert_gemv, x, self.up_ptrs, b.expert_up_out, idx, p.inter, p.latent,
                p.top_k, 0,
            ),
        );
        let shared_up: DevicePtr = p.shared_up_out_base.offset(
            span(t, p.shared_inter as usize, 2),
        );
        let widest: u32 = if h >= p.latent {
            h
        } else {
            p.latent
        };
        enqueue(
            plan,
            stream,
            self.relu2_down_op(
                cx, widest, p.latent, idx, shared_up, p.inter, p.shared_inter, h, p.top_k,
            ),
        );
        enqueue(plan, stream, Op::Memset(b.expert_gate_out, 0, p.latent as usize * 2));
        enqueue(
            plan,
            stream,
            Op::WeightedSumScale(
                self.k.weighted_sum_scale, b.attn_output, b.expert_down_out, weights,
                b.expert_gate_out, p.latent, p.top_k, F32_ONE,
            ),
        );
        let fc2 = self.weights.fc2_latent_proj.unwrap();
        enqueue(
            plan,
            stream,
            Op::DenseGemv(self.k.dense_gemv, b.attn_output, fc2, b.moe_output, h, p.latent),
        );
        enqueue(
            plan,
            stream,
            Op::ResidualAdd(self.k.residual_add, b.moe_output, b.ssm_deinterleaved, h),
        );
        enqueue(
            plan,
            stream,
            Op::ResidualAdd(
                self.k.residual_add, p.hidden.offset(span(t, p.h, 2)), b.moe_output, h,
            ),
        );
    }

    fn plan_row_direct(
        &self,
        cx: &ForwardContext,
        plan: &mut Vec<Step>,
        p: SortedPrefillCtx,
        t: usize,
        idx: DevicePtr,
        weights: DevicePtr,
        stream: u64,
    )
        requires
            idx == self.row_indices(cx, p, t as int),
            weights == self.row_weights(cx, p, t as int),
            t * p.h * 2 <= usize::MAX,
            t * p.shared_inter * 2 <= usize::MAX,
        ensures
            final(plan)@ == self.row_direct(cx, old(plan)@, p, t as int, stream),
    {
        let b = cx.buffers;
        let h: u32 = p.h as u32;
        let at: usize = span(t, p.h, 2);
        enqueue(
            plan,
            stream,
            Op::MoeExpertGemv(
                self.k.moe_expert_gemv, p.normed.offset(at), self.up_ptrs, b.expert_up_out, idx,
                p.inter, h, p.top_k, 0,
            ),
        );
        let shared_up: DevicePtr = p.shared_up_out_base.offset(
            span(t, p.shared_inter as usize, 2),
        );
        enqueue(
            plan,
            stream,
            self.relu2_down_op(
                cx, h, h, idx, shared_up, p.inter, p.shared_inter, h, p.top_k,
            ),
        );
        enqueue(
            plan,
            stream,
            Op::WeightedSumScale(
                self.k.weighted_sum_scale, b.moe_output, b.expert_down_out, weights,
                b.ssm_deinterleaved, h, p.top_k, F32_ONE,
            ),
        );
        enqueue(
            plan,
            stream,
            Op::ResidualAdd(self.k.residual_add, p.hidden.offset(at), b.moe_output, h),
        );
    }

    /// Whether experts would be selected row by row without the kernel for it.
    pub open spec fn fallback_refused(self, p: SortedPrefillCtx) -> bool {
        !self.routes_rows_at_once(p) && p.num_tokens > 0 && self.k.topk_sigmoid.0 == 0
    }

    /// Plans several rows, one after the other.
    pub fn prefill_fallback_path(
        &self,
        cx: &ForwardContext,
        p: SortedPrefillCtx,
        stream: u64,
    ) -> (r: Result<Vec<Step>, MoeError>)
        requires
            self.fallback_fits(p),
        ensures
            match r {
                Ok(plan) => !self.fallback_refused(p) && plan@ == self.fallback_plan(
                    cx,
                    p,
                    stream,
                ),
                Err(e) => e == MoeError::SigmoidKernelMissing && self.fallback_refused(p),
            },
    {
        let at_once: bool = self.k.topk_sigmoid_batched.0 != 0 && p.num_tokens > 1;
        if !at_once && p.num_tokens > 0 && self.k.topk_sigmoid.0 == 0 {
            return Err(MoeError::SigmoidKernelMissing);
        }
        let mut plan: Vec<Step> = Vec::new();
        if at_once {
            enqueue(&mut plan, stream, self.topk_sigmoid_rows_op(cx, p));
        }
        let ghost s1 = plan@;
        let mut t: usize = 0;
        while t < p.num_tokens
            invariant
                t <= p.num_tokens,
                at_once == self.routes_rows_at_once(p),
                self.fallback_fits(p),
                plan@ == self.fallback_rows(cx, s1, p, t as nat, stream),
            decreases p.num_tokens - t,
        {
            proof {
                lemma_span_mono(t as int, p.num_tokens as int, p.h as int, 2);
                lemma_span_mono(t as int, p.num_tokens as int, p.top_k as int, 4);
                lemma_span_mono(t as int, p.num_tokens as int, p.num_experts as int, 2);
                lemma_span_mono(t as int, p.num_tokens as int, p.latent as int, 2);
                lemma_span_mono(t as int, p.num_tokens as int, p.shared_inter as int, 2);
            }
            let idx: DevicePtr;
            let weights: DevicePtr;
            if at_once {
                idx = p.indices_dev.offset(span(t, p.top_k as usize, 4));
                weights = p.weights_dev.offset(span(t, p.top_k as usize, 4));
            } else {
                idx = cx.buffers.scratch;
                weights = cx.buffers.scratch.offset(p.top_k as usize * 4);
                enqueue(
                    &mut plan,
                    stream,
                    Op::MoeTopkSigmoid(
                        self.k.topk_sigmoid,
                        p.gate_logits.offset(span(t, p.num_experts as usize, 2)),
                        self.weights.e_score_correction_bias.weight, idx, weights, p.num_experts,
                        p.top_k, cx.config.norm_topk_prob, p.scale, cx.config.n_group as u32,
                        cx.config.topk_group as u32,
                    ),
                );
            }
            if self.moe_latent_size > 0 {
                self.plan_row_latent(cx, &mut plan, p, t, idx, weights, stream);
            } else {
                self.plan_row_direct(cx, &mut plan, p, t, idx, weights, stream);
            }
            t = t + 1;
        }
        Ok(plan)
    }
}

} // verus!
