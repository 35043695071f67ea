//! What the plans of a layer promise about the order of their steps.

use crate::context::ForwardContext;
use crate::gpu::{DevicePtr, KernelHandle};
use crate::moe::forward_prefill_routed::RoutedRows;
use crate::moe::routing::sort_regions;
use crate::moe::MoeLayer;
use crate::ops::launch_refused;
use crate::plan::{lemma_one_more, on, steps_with, timed, Op, Step};
use vstd::prelude::*;

verus! {

/// The step adds the shared expert's output.
pub open spec fn is_blend() -> spec_fn(Step) -> bool {
    |x: Step|
        match x {
            Step::On(_, Op::MoeBatchedBlend(..)) => true,
            _ => false,
        }
}

/// The step sums a buffer over the ranks.
pub open spec fn is_sum() -> spec_fn(Step) -> bool {
    |x: Step|
        match x {
            Step::On(_, Op::AllReduceAsync(..)) => true,
            Step::AllReduce(..) => true,
            _ => false,
        }
}

/// The step would be refused when it is launched.
pub open spec fn is_refused() -> spec_fn(Step) -> bool {
    |x: Step|
        match x {
            Step::On(_, op) => launch_refused(op),
            _ => false,
        }
}

/// The step multiplies rows by expert weights.
pub open spec fn is_expert_product(x: Step) -> bool {
    match x {
        Step::On(_, Op::MoeFusedGateUpM128(..)) => true,
        Step::On(_, Op::MoeFusedGateUpN128(..)) => true,
        Step::On(_, Op::MoeGroupedGemm(..)) => true,
        Step::On(_, Op::MoeGroupedGemmN128(..)) => true,
        Step::On(_, Op::MoeFp8GroupedGemm(..)) => true,
        _ => false,
    }
}

/// How often the shared part is added: once where there is a shared expert.
pub open spec fn blends_owed(cx: &ForwardContext) -> nat {
    if cx.shared_inter() > 0 {
        1
    } else {
        0
    }
}

/// How often a prefill sums over the ranks.
pub open spec fn sums_owed(cx: &ForwardContext) -> nat {
    if cx.spec_is_ep() {
        1
    } else {
        0
    }
}

impl MoeLayer {
    proof fn lemma_topk_each(
        &self,
        cx: &ForwardContext,
        s: Seq<Step>,
        bias: DevicePtr,
        weights: DevicePtr,
        rows: nat,
        stream: u64,
    )
        ensures
            steps_with(self.prefill_topk_each(cx, s, bias, weights, rows, stream), is_blend())
                == steps_with(s, is_blend()),
            steps_with(self.prefill_topk_each(cx, s, bias, weights, rows, stream), is_sum())
                == steps_with(s, is_sum()),
        decreases rows,
    {
        broadcast use lemma_one_more;

        if rows > 0 {
            self.lemma_topk_each(cx, s, bias, weights, (rows - 1) as nat, stream);
        }
    }

    proof fn lemma_front_adds_nothing(
        &self,
        cx: &ForwardContext,
        s: Seq<Step>,
        input: DevicePtr,
        router_in: DevicePtr,
        n: u32,
        stream: u64,
    )
        ensures
            ({
                let t = self.prefill_front(cx, s, input, router_in, n, stream);
                &&& steps_with(t, is_blend()) == steps_with(s, is_blend())
                &&& steps_with(t, is_sum()) == steps_with(s, is_sum())
            }),
    {
        broadcast use lemma_one_more;

    }

    proof fn lemma_products_add_nothing(
        &self,
        cx: &ForwardContext,
        s: Seq<Step>,
        r: RoutedRows,
        stream: u64,
    )
        ensures
            ({
                let t = self.routed_gate_up(cx, s, r, stream);
                let u = self.routed_down(cx, s, r, stream);
                let z = Self::routed_zero(cx, s, r.num_tokens, stream);
                &&& steps_with(t, is_blend()) == steps_with(s, is_blend())
                &&& steps_with(t, is_sum()) == steps_with(s, is_sum())
                &&& steps_with(u, is_blend()) == steps_with(s, is_blend())
                &&& steps_with(u, is_sum()) == steps_with(s, is_sum())
                &&& steps_with(z, is_blend()) == steps_with(s, is_blend())
                &&& steps_with(z, is_sum()) == steps_with(s, is_sum())
            }),
    {
        broadcast use lemma_one_more;

    }

    proof fn lemma_pass_adds_nothing(
        &self,
        cx: &ForwardContext,
        s: Seq<Step>,
        r: RoutedRows,
        stream: u64,
    )
        ensures
            ({
                let t = self.routed_plan(cx, s, r, stream);
                &&& steps_with(t, is_blend()) == steps_with(s, is_blend())
                &&& steps_with(t, is_sum()) == steps_with(s, is_sum())
            }),
    {
        broadcast use lemma_one_more;

        let s1 = timed(s, cx.profile, stream);
        self.lemma_products_add_nothing(cx, s1, r, stream);
        let s2 = Self::routed_zero(cx, s1, r.num_tokens, stream);
        self.lemma_products_add_nothing(cx, s2, r, stream);
        let s3 = timed(self.routed_gate_up(cx, s2, r, stream), cx.profile, stream);
        self.lemma_products_add_nothing(cx, s3, r, stream);
        self.lemma_products_add_nothing(cx, timed(s2, cx.profile, stream), r, stream);
    }

    proof fn lemma_routed_adds_nothing(
        &self,
        cx: &ForwardContext,
        s: Seq<Step>,
        input: DevicePtr,
        num_tokens: usize,
        stream: u64,
    )
        ensures
            ({
                let t = self.prefill_routed(cx, s, input, num_tokens, stream);
                &&& steps_with(t, is_blend()) == steps_with(s, is_blend())
                &&& steps_with(t, is_sum()) == steps_with(s, is_sum())
            }),
    {
        broadcast use lemma_one_more;

        if self.correction_bias_dev is Some {
            let weights = cx.buffers.scratch.at(Self::expanded(cx, num_tokens) * 4);
            self.lemma_topk_each(
                cx,
                s,
                self.correction_bias_dev->0,
                weights,
                num_tokens as u32 as nat,
                stream,
            );
        }
        let te = Self::expanded(cx, num_tokens);
        let weights = cx.buffers.scratch.at(te * 4);
        let r = sort_regions(cx.buffers.gate_logits, te as int, cx.experts() as int);
        let n = num_tokens as u32;
        let s1 = timed(self.prefill_topk(cx, s, weights, n, stream), cx.profile, stream);
        let s2 = timed(on(s1, stream, self.sort_op(cx, r, te)), cx.profile, stream);
        let s3 = timed(self.pre_norm(cx, s2, input, n, stream), cx.profile, stream);
        self.lemma_pass_adds_nothing(
            cx,
            s3,
            RoutedRows {
                expert_input: self.expert_input(cx, input),
                expert_offsets: r.expert_offsets,
                sorted_token_ids: r.sorted_token_ids,
                num_tokens,
            },
            stream,
        );
    }

    /// A prefill on 4-bit experts adds the shared expert once, or never when
    /// there is none, and sums over the ranks once, or never on one rank. With
    /// several ranks the shared part is the last step, so it comes after the
    /// sum and is not multiplied by the number of ranks.
    pub proof fn lemma_shared_added_once(
        &self,
        cx: &ForwardContext,
        input: DevicePtr,
        router_in: DevicePtr,
        num_tokens: usize,
        stream: u64,
    )
        ensures
            ({
                let t = self.prefill_plan(cx, input, router_in, num_tokens, stream);
                &&& steps_with(t, is_blend()) == blends_owed(cx)
                &&& steps_with(t, is_sum()) == sums_owed(cx)
                &&& cx.spec_is_ep() && cx.shared_inter() > 0 ==> t.len() > 0 && is_blend()(t.last())
            }),
    {
        broadcast use lemma_one_more;

        let n = num_tokens as u32;
        let s = self.prefill_front(cx, Seq::empty(), input, router_in, n, stream);
        self.lemma_front_adds_nothing(cx, Seq::empty(), input, router_in, n, stream);
        self.lemma_routed_adds_nothing(cx, s, input, num_tokens, stream);
    }

    /// The same of a prefill on FP8 experts, where the shared part always comes
    /// last.
    pub proof fn lemma_fp8_shared_added_once(
        &self,
        cx: &ForwardContext,
        input: DevicePtr,
        router_in: DevicePtr,
        num_tokens: usize,
        kernel: KernelHandle,
        stream: u64,
    )
        ensures
            ({
                let t = self.fp8_plan(cx, input, router_in, num_tokens, kernel, stream);
                &&& steps_with(t, is_blend()) == blends_owed(cx)
                &&& steps_with(t, is_sum()) == sums_owed(cx)
                &&& cx.shared_inter() > 0 ==> t.len() > 0 && is_blend()(t.last())
            }),
    {
        broadcast use lemma_one_more;

        assert(steps_with(Seq::<Step>::empty(), is_blend()) == 0);
        assert(steps_with(Seq::<Step>::empty(), is_sum()) == 0);
    }

    proof fn lemma_rows_refused(
        &self,
        cx: &ForwardContext,
        s: Seq<Step>,
        input: DevicePtr,
        rows: nat,
        stream: u64,
    )
        ensures
            steps_with(self.batched_rows(cx, s, input, rows, stream), is_refused()) == steps_with(
                s,
                is_refused(),
            ) + (if self.lacks_row_selection(rows as int) {
                rows
            } else {
                0
            }),
        decreases rows,
    {
        broadcast use lemma_one_more;

        if rows > 0 {
            self.lemma_rows_refused(cx, s, input, (rows - 1) as nat, stream);
        }
    }

    /// A batch that is planned has no step that is refused when it is launched.
    /// Where planning is refused, the selection of every row would be.
    pub proof fn lemma_planned_batch_is_launchable(
        &self,
        cx: &ForwardContext,
        input: DevicePtr,
        router_in: DevicePtr,
        num_tokens: usize,
        stream: u64,
    )
        ensures
            ({
                let t = self.batched_plan(
                    cx, Seq::empty(), input, router_in, num_tokens, stream,
                );
                steps_with(t, is_refused()) == (if self.lacks_row_selection(num_tokens as int) {
                    num_tokens as nat
                } else {
                    0
                })
            }),
    {
        broadcast use lemma_one_more;

        let s = self.router_logits(
            cx, Seq::empty(), input, router_in, num_tokens as u32, stream,
        );
        assert(steps_with(Seq::<Step>::empty(), is_refused()) == 0);
        self.lemma_rows_refused(cx, s, input, num_tokens as nat, stream);
    }

    /// On one rank, two rows take five launches behind the router's input: gate,
    /// selection, gate and up, down, and the weighted sum, which leaves the
    /// result in the output buffer.
    pub proof fn lemma_two_rows_in_five_launches(
        &self,
        cx: &ForwardContext,
        input: DevicePtr,
        router_in: DevicePtr,
        stream: u64,
    )
        requires
            !cx.spec_is_ep(),
        ensures
            ({
                let t = self.k2_plan(cx, input, router_in, stream);
                &&& t.len() == 6
                &&& t[0] == Step::On(stream, Op::RouterInput(input, 2, cx.h(), router_in))
                &&& t[5] matches Step::On(st, Op::MoeWeightedSumBlendBatch2(_, out, ..)) && st
                    == stream && out == cx.buffers.moe_output
            }),
    {
    }

    /// The three expert buffers are cleared, in full, before the first grouped
    /// product of a pass: rows that no expert of this rank takes stay zero.
    pub proof fn lemma_cleared_before_products(
        &self,
        cx: &ForwardContext,
        s: Seq<Step>,
        r: RoutedRows,
        stream: u64,
    )
        ensures
            ({
                let t = self.routed_plan(cx, s, r, stream);
                let a = s.len() + if cx.profile {
                    1int
                } else {
                    0int
                };
                let b = cx.buffers;
                let te = Self::expanded(cx, r.num_tokens);
                &&& t.len() >= a + 3
                &&& t.take(s.len() as int) == s
                &&& t[a] == Step::On(
                    stream,
                    Op::Memset(b.expert_gate_out, 0, (te * cx.inter() * 2) as usize),
                )
                &&& t[a + 1] == Step::On(
                    stream,
                    Op::Memset(b.expert_up_out, 0, (te * cx.inter() * 2) as usize),
                )
                &&& t[a + 2] == Step::On(
                    stream,
                    Op::Memset(b.expert_down_out, 0, (te * cx.h() * 2) as usize),
                )
                &&& forall|i: int|
                    s.len() <= i < t.len() && is_expert_product(#[trigger] t[i]) ==> i >= a + 3
            }),
    {
        assert(self.routed_plan(cx, s, r, stream).take(s.len() as int) =~= s);
    }
}

} // verus!
