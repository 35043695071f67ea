//! The drafting head: its dense or mixture-of-experts feed-forward part.
//!
//! Expert selection has to come back to the host before the expert products can
//! be planned, so the mixture-of-experts pass has two plans: one up to the
//! selection, and one from the selected experts on.

use crate::bytes::{decode_le32, le32_list, read_le32};
use crate::context::ForwardContext;
use crate::gpu::{AnyWeight, DenseWeight, DevicePtr, KernelHandle};
use crate::num::{lemma_span_mono, span};
use crate::plan::{enqueue, on, Op, Step};
use vstd::prelude::*;

verus! {

/// The three projections of one expert.
#[derive(Clone, Copy, PartialEq, Eq, Structural, Debug)]
pub struct MtpExpert {
    pub gate: AnyWeight,
    pub up: AnyWeight,
    pub down: AnyWeight,
}

/// The drafting head.
pub struct MtpHead {
    pub moe_gate: DenseWeight,
    pub shared_expert_gate: DenseWeight,
    pub moe_experts: Vec<MtpExpert>,
    pub moe_shared: Option<MtpExpert>,
    pub dense_ffn: Option<MtpExpert>,
    pub dense_gemv: KernelHandle,
    pub moe_topk: KernelHandle,
    pub moe_silu_mul: KernelHandle,
    pub moe_weighted_sum_blend: KernelHandle,
    pub draft_token_id_dev: DevicePtr,
}

impl MtpHead {
    /// Where the last drafted token is on the device, and how many bytes it
    /// takes. Reading them waits for the draft, so it is put off until the token
    /// is needed.
    pub fn deferred_draft_token(&self) -> (r: (DevicePtr, usize))
        ensures
            r == (self.draft_token_id_dev, 4usize),
    {
        (self.draft_token_id_dev, 4)
    }

    /// The drafted token, from the four bytes at `deferred_draft_token`.
    pub fn read_deferred_draft_token(bytes: &[u8]) -> (r: u32)
        requires
            bytes.len() == 4,
        ensures
            r == crate::bytes::from_le32(bytes@),
    {
        proof {
            assert(bytes@.subrange(0, 4) =~= bytes@);
        }
        read_le32(bytes, 0)
    }

    /// Width of the dense part: its own, or the expert width when it has none.
    pub open spec fn dense_inter(cx: &ForwardContext) -> u32 {
        if cx.config.intermediate_size > 0 {
            cx.config.intermediate_size as u32
        } else {
            cx.config.moe_intermediate_size as u32
        }
    }

    /// Gate, up, activation, down.
    pub open spec fn dense_plan(
        &self,
        cx: &ForwardContext,
        input: DevicePtr,
        stream: u64,
    ) -> Seq<Step> {
        let b = cx.buffers;
        let w = self.dense_ffn->0;
        let inter = Self::dense_inter(cx);
        seq![
            Step::On(stream, Op::AnyGemv(input, w.gate, b.expert_gate_out, inter, cx.h())),
            Step::On(stream, Op::AnyGemv(input, w.up, b.expert_up_out, inter, cx.h())),
            Step::On(
                stream,
                Op::MoeSiluMul(
                    self.moe_silu_mul, b.expert_gate_out, b.expert_up_out, b.expert_gate_out,
                    inter,
                ),
            ),
            Step::On(stream, Op::AnyGemv(b.expert_gate_out, w.down, b.moe_output, cx.h(), inter)),
        ]
    }

    /// Plans the dense feed-forward part. Returns the plan and the buffer that
    /// holds the result.
    pub fn dense_ffn_forward_generic(
        &self,
        cx: &ForwardContext,
        input: DevicePtr,
        stream: u64,
    ) -> (r: (Vec<Step>, DevicePtr))
        requires
            self.dense_ffn is Some,
        ensures
            r.0@ == self.dense_plan(cx, input, stream),
            r.1 == cx.buffers.moe_output,
    {
        let b = cx.buffers;
        let h: u32 = cx.config.hidden_size as u32;
        let inter: u32 = if cx.config.intermediate_size > 0 {
            cx.config.intermediate_size as u32
        } else {
            cx.config.moe_intermediate_size as u32
        };
        let w: MtpExpert = self.dense_ffn.unwrap();
        let mut plan: Vec<Step> = Vec::new();
        enqueue(&mut plan, stream, Op::AnyGemv(input, w.gate, b.expert_gate_out, inter, h));
        enqueue(&mut plan, stream, Op::AnyGemv(input, w.up, b.expert_up_out, inter, h));
        enqueue(
            &mut plan,
            stream,
            Op::MoeSiluMul(
                self.moe_silu_mul, b.expert_gate_out, b.expert_up_out, b.expert_gate_out, inter,
            ),
        );
        enqueue(&mut plan, stream, Op::AnyGemv(b.expert_gate_out, w.down, b.moe_output, h, inter));
        (plan, b.moe_output)
    }

    /// Router, selection, and a wait, so that the selection can be read.
    pub open spec fn select_plan(
        &self,
        cx: &ForwardContext,
        input: DevicePtr,
        stream: u64,
    ) -> Seq<Step> {
        let b = cx.buffers;
        seq![
            Step::On(
                stream,
                Op::DenseGemv(
                    self.dense_gemv, input, self.moe_gate, b.gate_logits, cx.experts(), cx.h(),
                ),
            ),
            Step::On(
                stream,
                Op::MoeTopkSoftmax(
                    self.moe_topk, b.gate_logits, b.scratch, b.scratch.at(cx.top_k() * 4),
                    cx.experts(), cx.top_k(), cx.config.norm_topk_prob,
                ),
            ),
            Step::On(stream, Op::Synchronize),
        ]
    }

    /// Plans the pass up to the selection. Returns the plan, where the selected
    /// expert ids are, and how many bytes they take.
    pub fn moe_select(&self, cx: &ForwardContext, input: DevicePtr, stream: u64) -> (r: (
        Vec<Step>,
        DevicePtr,
        usize,
    ))
        requires
            cx.top_k() * 4 <= usize::MAX,
        ensures
            r.0@ == self.select_plan(cx, input, stream),
            r.1 == cx.buffers.scratch,
            r.2 == cx.top_k() * 4,
    {
        let b = cx.buffers;
        let h: u32 = cx.config.hidden_size as u32;
        let ne: u32 = cx.config.num_experts as u32;
        let top_k: u32 = cx.config.num_experts_per_tok as u32;
        let mut plan: Vec<Step> = Vec::new();
        enqueue(
            &mut plan,
            stream,
            Op::DenseGemv(self.dense_gemv, input, self.moe_gate, b.gate_logits, ne, h),
        );
        enqueue(
            &mut plan,
            stream,
            Op::MoeTopkSoftmax(
                self.moe_topk, b.gate_logits, b.scratch, b.scratch.offset(top_k as usize * 4), ne,
                top_k, cx.config.norm_topk_prob,
            ),
        );
        enqueue(&mut plan, stream, Op::Synchronize);
        (plan, b.scratch, top_k as usize * 4)
    }

    /// Gate and up products of the first `slots` selected experts.
    pub open spec fn gate_up_slots(
        &self,
        cx: &ForwardContext,
        ids: Seq<u32>,
        input: DevicePtr,
        slots: nat,
        stream: u64,
    ) -> Seq<Step>
        decreases slots,
    {
        if slots == 0 {
            Seq::empty()
        } else {
            let i = slots - 1;
            let e = self.moe_experts@[ids[i] as int];
            let s = self.gate_up_slots(cx, ids, input, (slots - 1) as nat, stream);
            let s = on(
                s,
                stream,
                Op::AnyGemv(
                    input, e.gate, cx.buffers.expert_gate_out.at(i * cx.inter() * 2), cx.inter(),
                    cx.h(),
                ),
            );
            on(
                s,
                stream,
                Op::AnyGemv(
                    input, e.up, cx.buffers.expert_up_out.at(i * cx.inter() * 2), cx.inter(),
                    cx.h(),
                ),
            )
        }
    }

    /// Activation of the first `slots` slots.
    pub open spec fn silu_slots(
        &self,
        cx: &ForwardContext,
        s: Seq<Step>,
        slots: nat,
        stream: u64,
    ) -> Seq<Step>
        decreases slots,
    {
        if slots == 0 {
            s
        } else {
            let i = slots - 1;
            let g = cx.buffers.expert_gate_out.at(i * cx.inter() * 2);
            on(
                self.silu_slots(cx, s, (slots - 1) as nat, stream),
                stream,
                Op::MoeSiluMul(
                    self.moe_silu_mul, g, cx.buffers.expert_up_out.at(i * cx.inter() * 2), g,
                    cx.inter(),
                ),
            )
        }
    }

    /// Down products of the first `slots` selected experts.
    pub open spec fn down_slots(
        &self,
        cx: &ForwardContext,
        s: Seq<Step>,
        ids: Seq<u32>,
        slots: nat,
        stream: u64,
    ) -> Seq<Step>
        decreases slots,
    {
        if slots == 0 {
            s
        } else {
            let i = slots - 1;
            on(
                self.down_slots(cx, s, ids, (slots - 1) as nat, stream),
                stream,
                Op::AnyGemv(
                    cx.buffers.expert_gate_out.at(i * cx.inter() * 2),
                    self.moe_experts@[ids[i] as int].down,
                    cx.buffers.expert_down_out.at(i * cx.h() * 2), cx.h(), cx.inter(),
                ),
            )
        }
    }

    /// The shared expert and the blend.
    pub open spec fn mtp_finish(
        &self,
        cx: &ForwardContext,
        s: Seq<Step>,
        input: DevicePtr,
        stream: u64,
    ) -> Seq<Step> {
        let b = cx.buffers;
        let sh = self.moe_shared->0;
        let inter = cx.inter();
        let s = on(s, stream, Op::AnyGemv(input, sh.gate, b.logits, inter, cx.h()));
        let s = on(s, stream, Op::AnyGemv(input, sh.up, b.ssm_qkvz, inter, cx.h()));
        let s = on(
            s,
            stream,
            Op::MoeSiluMul(self.moe_silu_mul, b.logits, b.ssm_qkvz, b.logits, inter),
        );
        let s = on(s, stream, Op::AnyGemv(b.logits, sh.down, b.attn_output, cx.h(), inter));
        on(
            s,
            stream,
            Op::MoeWeightedSumBlend(
                self.moe_weighted_sum_blend, b.moe_output, b.expert_down_out,
                b.scratch.at(cx.top_k() * 4), b.attn_output, input,
                self.shared_expert_gate.weight, cx.routed_scaling_factor, cx.h(), cx.top_k(),
                cx.h(),
            ),
        )
    }

    /// The plan from the selected experts on.
    pub open spec fn experts_plan(
        &self,
        cx: &ForwardContext,
        ids: Seq<u32>,
        input: DevicePtr,
        stream: u64,
    ) -> Seq<Step> {
        let n = cx.top_k() as nat;
        let s = self.gate_up_slots(cx, ids, input, n, stream);
        let s = self.silu_slots(cx, s, n, stream);
        let s = self.down_slots(cx, s, ids, n, stream);
        self.mtp_finish(cx, s, input, stream)
    }

    /// Every byte count of the expert products is representable.
    pub open spec fn experts_fit(cx: &ForwardContext) -> bool {
        &&& cx.top_k() * 4 <= usize::MAX
        &&& cx.top_k() * cx.inter() * 2 <= usize::MAX
        &&& cx.top_k() * cx.h() * 2 <= usize::MAX
    }

    /// Plans the pass from the selection on. `id_bytes` are the selected expert
    /// ids as read back from the device; each must name an expert. Returns the
    /// plan and the buffer that holds the result.
    pub fn moe_forward_generic(
        &self,
        cx: &ForwardContext,
        id_bytes: &[u8],
        input: DevicePtr,
        stream: u64,
    ) -> (r: (Vec<Step>, DevicePtr))
        requires
            Self::experts_fit(cx),
            self.moe_shared is Some,
            id_bytes.len() == cx.top_k() * 4,
            forall|i: int|
                0 <= i < cx.top_k() ==> #[trigger] le32_list(
                    id_bytes@,
                    cx.top_k() as nat,
                )[i] < self.moe_experts@.len(),
        ensures
            r.0@ == self.experts_plan(
                cx,
                le32_list(id_bytes@, cx.top_k() as nat),
                input,
                stream,
            ),
            r.1 == cx.buffers.moe_output,
    {
        let b = cx.buffers;
        let h: u32 = cx.config.hidden_size as u32;
        let inter: u32 = cx.config.moe_intermediate_size as u32;
        let top_k: u32 = cx.config.num_experts_per_tok as u32;
        let n: usize = top_k as usize;
        let ids: Vec<u32> = decode_le32(id_bytes, n);
        let mut plan: Vec<Step> = Vec::new();
        let mut i: usize = 0;
        while i < n
            invariant
                i <= n,
                n == cx.top_k(),
                n == ids@.len(),
                inter == cx.inter(),
                h == cx.h(),
                b == cx.buffers,
                Self::experts_fit(cx),
                forall|j: int| 0 <= j < n ==> #[trigger] ids@[j] < self.moe_experts@.len(),
                plan@ == self.gate_up_slots(cx, ids@, input, i as nat, stream),
            decreases n - i,
        {
            proof {
                lemma_span_mono(i as int, n as int, inter as int, 2);
            }
            let e: MtpExpert = self.moe_experts[ids[i] as usize];
            let at: usize = span(i, inter as usize, 2);
            enqueue(
                &mut plan,
                stream,
                Op::AnyGemv(input, e.gate, b.expert_gate_out.offset(at), inter, h),
            );
            enqueue(
                &mut plan,
                stream,
                Op::AnyGemv(input, e.up, b.expert_up_out.offset(at), inter, h),
            );
            i = i + 1;
        }
        let ghost s1 = plan@;
        i = 0;
        while i < n
            invariant
                i <= n,
                n == cx.top_k(),
                inter == cx.inter(),
                b == cx.buffers,
                Self::experts_fit(cx),
                plan@ == self.silu_slots(cx, s1, i as nat, stream),
            decreases n - i,
        {
            proof {
                lemma_span_mono(i as int, n as int, inter as int, 2);
            }
            let at: usize = span(i, inter as usize, 2);
            let g: DevicePtr = b.expert_gate_out.offset(at);
            enqueue(
                &mut plan,
                stream,
                Op::MoeSiluMul(self.moe_silu_mul, g, b.expert_up_out.offset(at), g, inter),
            );
            i = i + 1;
        }
        let ghost s2 = plan@;
        i = 0;
        while i < n
            invariant
                i <= n,
                n == cx.top_k(),
                n == ids@.len(),
                inter == cx.inter(),
                h == cx.h(),
                b == cx.buffers,
                Self::experts_fit(cx),
                forall|j: int| 0 <= j < n ==> #[trigger] ids@[j] < self.moe_experts@.len(),
                plan@ == self.down_slots(cx, s2, ids@, i as nat, stream),
            decreases n - i,
        {
            proof {
                lemma_span_mono(i as int, n as int, inter as int, 2);
                lemma_span_mono(i as int, n as int, h as int, 2);
            }
            let e: MtpExpert = self.moe_experts[ids[i] as usize];
            enqueue(
                &mut plan,
                stream,
                Op::AnyGemv(
                    b.expert_gate_out.offset(span(i, inter as usize, 2)), e.down,
                    b.expert_down_out.offset(span(i, h as usize, 2)), h, inter,
                ),
            );
            i = i + 1;
        }
        let sh: MtpExpert = self.moe_shared.unwrap();
        enqueue(&mut plan, stream, Op::AnyGemv(input, sh.gate, b.logits, inter, h));
        enqueue(&mut plan, stream, Op::AnyGemv(input, sh.up, b.ssm_qkvz, inter, h));
        enqueue(
            &mut plan,
            stream,
            Op::MoeSiluMul(self.moe_silu_mul, b.logits, b.ssm_qkvz, b.logits, inter),
        );
        enqueue(&mut plan, stream, Op::AnyGemv(b.logits, sh.down, b.attn_output, h, inter));
        enqueue(
            &mut plan,
            stream,
            Op::MoeWeightedSumBlend(
                self.moe_weighted_sum_blend, b.moe_output, b.expert_down_out,
                b.scratch.offset(n * 4), b.attn_output, input, self.shared_expert_gate.weight,
                cx.routed_scaling_factor, h, top_k, h,
            ),
        );
        (plan, b.moe_output)
    }
}

} // verus!
