//! Several rows as grouped products over rows sorted by expert.

use crate::context::ForwardContext;
use crate::gpu::DevicePtr;
use crate::moe::routing::{sort_regions, split_sort_regions, SortRegions};
use crate::nemotron::{NemotronMoeLayer, SortedPrefillCtx};
use crate::num::{ceil_div, div_ceil_usize, imax, lemma_ceil_div};
use crate::plan::{enqueue, on, Op, Step};
use vstd::prelude::*;

verus! {

impl NemotronMoeLayer {
    /// Rows after each token has been repeated for its experts.
    pub open spec fn expanded(p: SortedPrefillCtx) -> u32 {
        (p.n * p.top_k) as u32
    }

    /// Tiles of 64 rows for twice the average load of an expert.
    pub open spec fn average_tiles(p: SortedPrefillCtx) -> u32 {
        imax(
            ceil_div(ceil_div(p.num_tokens * p.top_k, p.num_experts as int) * 2, 64),
            1,
        ) as u32
    }

    pub open spec fn sorted_fits(self, p: SortedPrefillCtx) -> bool {
        &&& self.wf()
        &&& p.num_experts > 0
        &&& p.n * p.top_k <= u32::MAX
        &&& Self::expanded(p) * p.inter <= u32::MAX
        &&& p.n * p.shared_inter <= u32::MAX
        &&& Self::expanded(p) * 4 * 2 + (p.num_experts + 1) * 4 <= usize::MAX
        &&& p.num_tokens * p.top_k * 2 <= usize::MAX
        &&& p.num_tokens * p.h <= usize::MAX
        &&& self.moe_latent_size > 0 ==> p.latent_base is Some
    }

    /// Width that the experts read and write.
    pub open spec fn expert_dim(self, p: SortedPrefillCtx) -> u32 {
        if self.moe_latent_size > 0 {
            p.latent
        } else {
            p.h as u32
        }
    }

    pub open spec fn topk_sigmoid_rows(self, cx: &ForwardContext, p: SortedPrefillCtx) -> Op {
        Op::TopkSigmoidRows(
            self.k.topk_sigmoid_batched, p.gate_logits,
            self.weights.e_score_correction_bias.weight, p.indices_dev, p.weights_dev,
            p.num_experts, p.top_k, cx.config.norm_topk_prob, p.scale, p.n, cx.n_group(),
            cx.topk_group(),
        )
    }

    pub(crate) fn topk_sigmoid_rows_op(&self, cx: &ForwardContext, p: SortedPrefillCtx) -> (r: Op)
        ensures
            r == self.topk_sigmoid_rows(cx, p),
    {
        Op::TopkSigmoidRows(
            self.k.topk_sigmoid_batched, p.gate_logits,
            self.weights.e_score_correction_bias.weight, p.indices_dev, p.weights_dev,
            p.num_experts, p.top_k, cx.config.norm_topk_prob, p.scale, p.n,
            cx.config.n_group as u32, cx.config.topk_group as u32,
        )
    }

    /// A grouped product, on transposed tables where they are held.
    pub open spec fn grouped(
        self,
        table_t: Option<crate::gpu::ExpertPtrTable>,
        table: crate::gpu::ExpertPtrTable,
        x: DevicePtr,
        out: DevicePtr,
        r: SortRegions,
        rows: DevicePtr,
        p: SortedPrefillCtx,
        n: u32,
        kd: u32,
    ) -> Op {
        match table_t {
            Some(t) => Op::MoeGroupedGemm(
                self.k.moe_grouped_gemm_n128, x, t, out, r.expert_offsets, rows, p.num_experts, n,
                kd, Self::average_tiles(p),
            ),
            None => Op::MoeGroupedGemm(
                self.k.moe_grouped_gemm, x, table, out, r.expert_offsets, rows, p.num_experts, n,
                kd, Self::average_tiles(p),
            ),
        }
    }

    fn grouped_op(
        &self,
        table_t: Option<crate::gpu::ExpertPtrTable>,
        table: crate::gpu::ExpertPtrTable,
        x: DevicePtr,
        out: DevicePtr,
        r: SortRegions,
        rows: DevicePtr,
        p: SortedPrefillCtx,
        n: u32,
        kd: u32,
    ) -> (op: Op)
        requires
            self.sorted_fits(p),
        ensures
            op == self.grouped(table_t, table, x, out, r, rows, p, n, kd),
    {
        proof {
            lemma_ceil_div(p.num_tokens * p.top_k, p.num_experts as int);
        }
        let avg: usize = div_ceil_usize(
            p.num_tokens * p.top_k as usize,
            p.num_experts as usize,
        );
        let t: usize = div_ceil_usize(avg * 2, 64);
        let tiles: u32 = if t >= 1 {
            t as u32
        } else {
            1
        };
        match table_t {
            Some(tt) => Op::MoeGroupedGemm(
                self.k.moe_grouped_gemm_n128, x, tt, out, r.expert_offsets, rows, p.num_experts,
                n, kd, tiles,
            ),
            None => Op::MoeGroupedGemm(
                self.k.moe_grouped_gemm, x, table, out, r.expert_offsets, rows, p.num_experts, n,
                kd, tiles,
            ),
        }
    }

    /// Selection, sort, grouped products and reduction.
    pub open spec fn sorted_routed(
        self,
        cx: &ForwardContext,
        p: SortedPrefillCtx,
        stream: u64,
    ) -> Seq<Step> {
        let b = cx.buffers;
        let te = Self::expanded(p);
        let r = sort_regions(p.gate_logits, te as int, p.num_experts as int);
        let dim = self.expert_dim(p);
        let x = if self.moe_latent_size > 0 {
            p.latent_base->0
        } else {
            p.normed
        };
        let s = on(Seq::empty(), stream, self.topk_sigmoid_rows(cx, p));
        let s = on(
            s,
            stream,
            Op::MoeSortByExpert(
                self.k.moe_sort, p.indices_dev, r.sorted_token_ids, r.sorted_expert_ids,
                r.expert_offsets, r.token_to_perm, te, p.num_experts, p.top_k,
            ),
        );
        let s = on(
            s,
            stream,
            self.grouped(
                self.up_ptrs_t, self.up_ptrs, x, b.expert_up_out, r, r.sorted_token_ids, p,
                p.inter, dim,
            ),
        );
        let s = on(
            s,
            stream,
            Op::Relu2Elementwise(
                self.k.moe_relu2_elementwise, b.expert_up_out, (te * p.inter) as u32,
            ),
        );
        let s = on(
            s,
            stream,
            self.grouped(
                self.down_ptrs_t, self.down_ptrs, b.expert_up_out, b.expert_down_out, r,
                DevicePtr(0), p, dim, p.inter,
            ),
        );
        on(
            s,
            stream,
            Op::MoeUnpermuteReduce(
                self.k.moe_unpermute_reduce, b.expert_down_out, b.moe_output, r.token_to_perm,
                p.weights_dev, dim, p.n, p.top_k,
            ),
        )
    }

    /// The shared expert, the way back from the latent width, and the residual.
    pub open spec fn sorted_finish(
        self,
        cx: &ForwardContext,
        s: Seq<Step>,
        p: SortedPrefillCtx,
        stream: u64,
    ) -> Seq<Step> {
        let b = cx.buffers;
        let h = p.h as u32;
        let all = (p.num_tokens * p.h) as u32;
        let s = on(
            s,
            stream,
            Op::Relu2Elementwise(
                self.k.moe_relu2_elementwise, p.shared_up_out_base, (p.n * p.shared_inter) as u32,
            ),
        );
        let s = on(
            s,
            stream,
            match self.shared_down_t {
                Some(w) => Op::W4a16GemmN128(
                    self.k.w4a16_gemm_t, p.shared_up_out_base, w, b.ssm_deinterleaved, p.n, h,
                    p.shared_inter,
                ),
                None => Op::W4a16Gemm(
                    self.k.w4a16_gemm, p.shared_up_out_base, self.weights.shared_down,
                    b.ssm_deinterleaved, p.n, h, p.shared_inter,
                ),
            },
        );
        if self.moe_latent_size > 0 {
            let s = on(
                s,
                stream,
                Op::DenseGemm(
                    self.k.dense_gemm, b.moe_output, self.weights.fc2_latent_proj->0,
                    b.attn_output, p.n, h, p.latent,
                ),
            );
            let s = on(
                s,
                stream,
                Op::ResidualAdd(self.k.residual_add, b.attn_output, b.ssm_deinterleaved, all),
            );
            on(s, stream, Op::ResidualAdd(self.k.residual_add, p.hidden, b.attn_output, all))
        } else {
            let s = on(
                s,
                stream,
                Op::ResidualAdd(self.k.residual_add, b.moe_output, b.ssm_deinterleaved, all),
            );
            on(s, stream, Op::ResidualAdd(self.k.residual_add, p.hidden, b.moe_output, all))
        }
    }

    fn plan_sorted_finish(
        &self,
        cx: &ForwardContext,
        plan: &mut Vec<Step>,
        p: SortedPrefillCtx,
        stream: u64,
    )
        requires
            self.sorted_fits(p),
        ensures
            final(plan)@ == self.sorted_finish(cx, old(plan)@, p, stream),
    {
        let b = cx.buffers;
        let h: u32 = p.h as u32;
        let all: u32 = (p.num_tokens * p.h) as u32;
        enqueue(
            plan,
            stream,
            Op::Relu2Elementwise(
                self.k.moe_relu2_elementwise, p.shared_up_out_base, p.n * p.shared_inter,
            ),
        );
        match self.shared_down_t {
            Some(w) => enqueue(
                plan,
                stream,
                Op::W4a16GemmN128(
                    self.k.w4a16_gemm_t, p.shared_up_out_base, w, b.ssm_deinterleaved, p.n, h,
                    p.shared_inter,
                ),
            ),
            None => enqueue(
                plan,
                stream,
                Op::W4a16Gemm(
                    self.k.w4a16_gemm, p.shared_up_out_base, self.weights.shared_down,
                    b.ssm_deinterleaved, p.n, h, p.shared_inter,
                ),
            ),
        }
        if self.moe_latent_size > 0 {
            let fc2 = self.weights.fc2_latent_proj.unwrap();
            enqueue(
                plan,
                stream,
                Op::DenseGemm(
                    self.k.dense_gemm, b.moe_output, fc2, b.attn_output, p.n, h, p.latent,
                ),
            );
            enqueue(
                plan,
                stream,
                Op::ResidualAdd(self.k.residual_add, b.attn_output, b.ssm_deinterleaved, all),
            );
            enqueue(
                plan,
                stream,
                Op::ResidualAdd(self.k.residual_add, p.hidden, b.attn_output, all),
            );
        } else {
            enqueue(
                plan,
                stream,
                Op::ResidualAdd(self.k.residual_add, b.moe_output, b.ssm_deinterleaved, all),
            );
            enqueue(
                plan,
                stream,
                Op::ResidualAdd(self.k.residual_add, p.hidden, b.moe_output, all),
            );
        }
    }

    /// Plans several rows over sorted routing.
    pub fn prefill_sorted_path(
        &self,
        cx: &ForwardContext,
        p: SortedPrefillCtx,
        stream: u64,
    ) -> (r: Vec<Step>)
        requires
            self.sorted_fits(p),
        ensures
            r@ == self.sorted_finish(cx, self.sorted_routed(cx, p, stream), p, stream),
    {
        let b = cx.buffers;
        let te: u32 = p.n * p.top_k;
        let mut plan: Vec<Step> = Vec::new();
        enqueue(&mut plan, stream, self.topk_sigmoid_rows_op(cx, p));
        let r: SortRegions = split_sort_regions(
            p.gate_logits,
            te as usize,
            p.num_experts as usize,
        );
        enqueue(
            &mut plan,
            stream,
            Op::MoeSortByExpert(
                self.k.moe_sort, p.indices_dev, r.sorted_token_ids, r.sorted_expert_ids,
                r.expert_offsets, r.token_to_perm, te, p.num_experts, p.top_k,
            ),
        );
        let latent: bool = self.moe_latent_size > 0;
        let x: DevicePtr = if latent {
            p.latent_base.unwrap()
        } else {
            p.normed
        };
        let dim: u32 = if latent {
            p.latent
        } else {
            p.h as u32
        };
        enqueue(
            &mut plan,
            stream,
            self.grouped_op(
                self.up_ptrs_t, self.up_ptrs, x, b.expert_up_out, r, r.sorted_token_ids, p,
                p.inter, dim,
            ),
        );
        enqueue(
            &mut plan,
            stream,
            Op::Relu2Elementwise(self.k.moe_relu2_elementwise, b.expert_up_out, te * p.inter),
        );
        enqueue(
            &mut plan,
            stream,
            self.grouped_op(
                self.down_ptrs_t, self.down_ptrs, b.expert_up_out, b.expert_down_out, r,
                DevicePtr(0), p, dim, p.inter,
            ),
        );
        enqueue(
            &mut plan,
            stream,
            Op::MoeUnpermuteReduce(
                self.k.moe_unpermute_reduce, b.expert_down_out, b.moe_output, r.token_to_perm,
                p.weights_dev, dim, p.n, p.top_k,
            ),
        );
        self.plan_sorted_finish(cx, &mut plan, p, stream);
        plan
    }
}

} // verus!
