//! Where the plans of a mixture-of-experts layer are enqueued.

use crate::context::ForwardContext;
use crate::gpu::{DevicePtr, KernelHandle};
use crate::meaning::streams::stray;
use crate::moe::forward_prefill_routed::RoutedRows;
use crate::moe::routing::sort_regions;
use crate::moe::MoeLayer;
use crate::plan::{lemma_one_more, on, steps_with, timed, Step};
use vstd::prelude::*;

verus! {

impl MoeLayer {
    proof fn lemma_each_enqueued(
        &self,
        cx: &ForwardContext,
        s: Seq<Step>,
        bias: DevicePtr,
        weights: DevicePtr,
        rows: nat,
        stream: u64,
    )
        ensures
            steps_with(
                self.prefill_topk_each(cx, s, bias, weights, rows, stream),
                stray(stream, cx.profile),
            ) == steps_with(s, stray(stream, cx.profile)),
        decreases rows,
    {
        broadcast use lemma_one_more;

        if rows > 0 {
            self.lemma_each_enqueued(cx, s, bias, weights, (rows - 1) as nat, stream);
        }
    }

    proof fn lemma_front_enqueued(
        &self,
        cx: &ForwardContext,
        s: Seq<Step>,
        input: DevicePtr,
        router_in: DevicePtr,
        n: u32,
        stream: u64,
    )
        ensures
            steps_with(
                self.prefill_front(cx, s, input, router_in, n, stream),
                stray(stream, cx.profile),
            ) == steps_with(s, stray(stream, cx.profile)),
    {
        broadcast use lemma_one_more;

    }

    proof fn lemma_pass_enqueued(
        &self,
        cx: &ForwardContext,
        s: Seq<Step>,
        r: RoutedRows,
        stream: u64,
    )
        ensures
            steps_with(self.routed_plan(cx, s, r, stream), stray(stream, cx.profile)) == steps_with(
                s,
                stray(stream, cx.profile),
            ),
    {
        broadcast use lemma_one_more;

    }

    /// A batch on 4-bit experts is enqueued on the stream that is given, and waits only
    /// where it is timed.
    pub proof fn lemma_batch_enqueued(
        &self,
        cx: &ForwardContext,
        input: DevicePtr,
        router_in: DevicePtr,
        num_tokens: usize,
        stream: u64,
    )
        ensures
            steps_with(
                self.prefill_plan(cx, input, router_in, num_tokens, stream),
                stray(stream, cx.profile),
            ) == 0,
    {
        broadcast use lemma_one_more;

        let n = num_tokens as u32;
        let te = Self::expanded(cx, num_tokens);
        let weights = cx.buffers.scratch.at(te * 4);
        let r = sort_regions(cx.buffers.gate_logits, te as int, cx.experts() as int);
        let s = self.prefill_front(cx, Seq::empty(), input, router_in, n, stream);
        self.lemma_front_enqueued(cx, Seq::empty(), input, router_in, n, stream);
        if self.correction_bias_dev is Some {
            self.lemma_each_enqueued(
                cx, s, self.correction_bias_dev->0, weights, n as nat, stream,
            );
        }
        let s = timed(self.prefill_topk(cx, s, weights, n, stream), cx.profile, stream);
        let s = timed(on(s, stream, self.sort_op(cx, r, te)), cx.profile, stream);
        let s = timed(self.pre_norm(cx, s, input, n, stream), cx.profile, stream);
        self.lemma_pass_enqueued(
            cx,
            s,
            RoutedRows {
                expert_input: self.expert_input(cx, input),
                expert_offsets: r.expert_offsets,
                sorted_token_ids: r.sorted_token_ids,
                num_tokens,
            },
            stream,
        );
    }

    /// So is a batch on FP8 experts, which never waits.
    pub proof fn lemma_fp8_enqueued(
        &self,
        cx: &ForwardContext,
        input: DevicePtr,
        router_in: DevicePtr,
        num_tokens: usize,
        kernel: KernelHandle,
        stream: u64,
    )
        ensures
            steps_with(
                self.fp8_plan(cx, input, router_in, num_tokens, kernel, stream),
                stray(stream, false),
            ) == 0,
    {
        broadcast use lemma_one_more;

    }

    /// So are two rows at once.
    pub proof fn lemma_pair_enqueued(
        &self,
        cx: &ForwardContext,
        input: DevicePtr,
        router_in: DevicePtr,
        stream: u64,
    )
        ensures
            steps_with(self.k2_plan(cx, input, router_in, stream), stray(stream, false)) == 0,
    {
        broadcast use lemma_one_more;

    }

    proof fn lemma_rows_enqueued(
        &self,
        cx: &ForwardContext,
        s: Seq<Step>,
        input: DevicePtr,
        rows: nat,
        stream: u64,
    )
        ensures
            steps_with(self.batched_rows(cx, s, input, rows, stream), stray(stream, false))
                == steps_with(s, stray(stream, false)),
        decreases rows,
    {
        broadcast use lemma_one_more;

        if rows > 0 {
            self.lemma_rows_enqueued(cx, s, input, (rows - 1) as nat, stream);
        }
    }

    /// So is a batch that goes row by row.
    pub proof fn lemma_row_by_row_enqueued(
        &self,
        cx: &ForwardContext,
        input: DevicePtr,
        router_in: DevicePtr,
        num_tokens: usize,
        stream: u64,
    )
        ensures
            steps_with(
                self.batched_plan(cx, Seq::empty(), input, router_in, num_tokens, stream),
                stray(stream, false),
            ) == 0,
    {
        broadcast use lemma_one_more;

        let n = num_tokens as u32;
        let s = self.router_logits(cx, Seq::empty(), input, router_in, n, stream);
        self.lemma_rows_enqueued(cx, s, input, num_tokens as nat, stream);
    }
}

} // verus!
