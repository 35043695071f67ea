//! Router projection and expert selection, shared by the forward paths.

use crate::context::ForwardContext;
use crate::gpu::DevicePtr;
use crate::moe::MoeLayer;
use crate::num::{ceil_div, imax, lemma_ceil_div};
use crate::plan::{enqueue, on, Op, Step};
use vstd::prelude::*;

verus! {

/// Upper bound on the 64-row tiles that one expert can need: the case that a
/// single expert takes every routed row.
pub open spec fn max_m_tiles(num_tokens: usize, top_k: u32) -> u32 {
    imax(ceil_div(num_tokens * top_k, 64), 1) as u32
}

/// The tiles hold every routed row, even when one expert takes them all.
pub proof fn lemma_tiles_hold_all_rows(num_tokens: usize, top_k: u32)
    requires
        num_tokens * top_k <= u32::MAX,
    ensures
        max_m_tiles(num_tokens, top_k) * 64 >= num_tokens * top_k,
        max_m_tiles(num_tokens, top_k) >= 1,
{
    assert(0 <= num_tokens * top_k) by (nonlinear_arith);
    lemma_ceil_div(num_tokens * top_k, 64);
}

pub fn worst_case_m_tiles(num_tokens: usize, top_k: u32) -> (r: u32)
    requires
        num_tokens * top_k <= usize::MAX,
    ensures
        r == max_m_tiles(num_tokens, top_k),
{
    let t: usize = crate::num::div_ceil_usize(num_tokens * top_k as usize, 64);
    if t >= 1 {
        t as u32
    } else {
        1
    }
}

/// Regions of the sorted-routing scratch, which takes the place of the router
/// logits once the experts are selected.
#[derive(Clone, Copy, PartialEq, Eq, Structural, Debug)]
pub struct SortRegions {
    pub sorted_token_ids: DevicePtr,
    pub sorted_expert_ids: DevicePtr,
    pub expert_offsets: DevicePtr,
    pub token_to_perm: DevicePtr,
}

/// The regions for `te` routed rows and `ne` experts, one after the other:
/// `te` token ids, `te` expert ids, `ne + 1` offsets, then the positions.
pub open spec fn sort_regions(base: DevicePtr, te: int, ne: int) -> SortRegions {
    SortRegions {
        sorted_token_ids: base,
        sorted_expert_ids: base.at(te * 4),
        expert_offsets: base.at(te * 4 * 2),
        token_to_perm: base.at(te * 4 * 2 + (ne + 1) * 4),
    }
}

/// The regions follow each other without gap or overlap, when they fit into
/// the address space: each starts where the one before it ends, and the last
/// ends `te` entries on.
pub proof fn lemma_sort_regions(base: DevicePtr, te: int, ne: int)
    requires
        te >= 0,
        ne >= 0,
        base.0 + te * 12 + (ne + 1) * 4 <= u64::MAX,
    ensures
        ({
            let r = sort_regions(base, te, ne);
            &&& r.sorted_token_ids == base
            &&& r.sorted_expert_ids.0 == r.sorted_token_ids.0 + te * 4
            &&& r.expert_offsets.0 == r.sorted_expert_ids.0 + te * 4
            &&& r.token_to_perm.0 == r.expert_offsets.0 + (ne + 1) * 4
            &&& r.token_to_perm.0 + te * 4 == base.0 + te * 12 + (ne + 1) * 4
        }),
{
}

pub fn split_sort_regions(base: DevicePtr, te: usize, ne: usize) -> (r: SortRegions)
    requires
        te * 4 * 2 + (ne + 1) * 4 <= usize::MAX,
    ensures
        r == sort_regions(base, te as int, ne as int),
{
    SortRegions {
        sorted_token_ids: base,
        sorted_expert_ids: base.offset(te * 4),
        expert_offsets: base.offset(te * 4 * 2),
        token_to_perm: base.offset(te * 4 * 2 + (ne + 1) * 4),
    }
}

impl MoeLayer {
    /// Router logits of `n` rows.
    pub open spec fn router_logits(
        &self,
        cx: &ForwardContext,
        s: Seq<Step>,
        input: DevicePtr,
        router_in: DevicePtr,
        n: u32,
        stream: u64,
    ) -> Seq<Step> {
        let s1 = on(s, stream, Op::RouterInput(input, n, cx.h(), router_in));
        on(
            s1,
            stream,
            match self.gate_nvfp4 {
                Some(w) => Op::W4a16Gemm(
                    self.k.w4a16_gemm, router_in, w, cx.buffers.gate_logits, n, cx.experts(),
                    cx.h(),
                ),
                None => Op::DenseGemm(
                    self.k.dense_gemm, router_in, self.weights.gate, cx.buffers.gate_logits, n,
                    cx.experts(), cx.h(),
                ),
            },
        )
    }

    pub(crate) fn plan_router_logits(
        &self,
        cx: &ForwardContext,
        plan: &mut Vec<Step>,
        input: DevicePtr,
        router_in: DevicePtr,
        n: u32,
        stream: u64,
    )
        ensures
            final(plan)@ == self.router_logits(cx, old(plan)@, input, router_in, n, stream),
    {
        let h: u32 = cx.config.hidden_size as u32;
        let ne: u32 = cx.config.num_experts as u32;
        enqueue(plan, stream, Op::RouterInput(input, n, h, router_in));
        match self.gate_nvfp4 {
            Some(w) => enqueue(
                plan,
                stream,
                Op::W4a16Gemm(
                    self.k.w4a16_gemm, router_in, w, cx.buffers.gate_logits, n, ne, h,
                ),
            ),
            None => enqueue(
                plan,
                stream,
                Op::DenseGemm(
                    self.k.dense_gemm, router_in, self.weights.gate, cx.buffers.gate_logits, n,
                    ne, h,
                ),
            ),
        }
    }

    /// Expert selection for all rows at once: sigmoid scores with a correction
    /// bias where the model has one, softmax scores otherwise.
    pub open spec fn topk_rows(
        &self,
        cx: &ForwardContext,
        indices: DevicePtr,
        weights: DevicePtr,
        scale: u32,
        n: u32,
    ) -> Op {
        match self.correction_bias_dev {
            Some(bias) => Op::MoeTopkSigmoidBatched(
                self.k.topk_sigmoid_batched, cx.buffers.gate_logits, bias, indices, weights,
                cx.experts(), cx.top_k(), cx.config.norm_topk_prob, scale, n, cx.n_group(),
                cx.topk_group(),
            ),
            None => Op::MoeTopkSoftmaxBatched(
                self.k.topk_batched, cx.buffers.gate_logits, indices, weights, cx.experts(),
                cx.top_k(), cx.config.norm_topk_prob, n,
            ),
        }
    }

    pub(crate) fn topk_rows_op(
        &self,
        cx: &ForwardContext,
        indices: DevicePtr,
        weights: DevicePtr,
        scale: u32,
        n: u32,
    ) -> (r: Op)
        ensures
            r == self.topk_rows(cx, indices, weights, scale, n),
    {
        let ne: u32 = cx.config.num_experts as u32;
        let top_k: u32 = cx.config.num_experts_per_tok as u32;
        match self.correction_bias_dev {
            Some(bias) => Op::MoeTopkSigmoidBatched(
                self.k.topk_sigmoid_batched, cx.buffers.gate_logits, bias, indices, weights, ne,
                top_k, cx.config.norm_topk_prob, scale, n, cx.config.n_group as u32,
                cx.config.topk_group as u32,
            ),
            None => Op::MoeTopkSoftmaxBatched(
                self.k.topk_batched, cx.buffers.gate_logits, indices, weights, ne, top_k,
                cx.config.norm_topk_prob, n,
            ),
        }
    }
}

} // verus!
