//! Which kernels the plans of a mixture-of-experts layer with squared
//! activations launch.

use crate::context::ForwardContext;
use crate::gpu::DevicePtr;
use crate::nemotron::{NemotronMoeLayer, SortedPrefillCtx};
use crate::plan::{lemma_one_more, on, steps_with, Op, Step};
use vstd::prelude::*;

verus! {

impl NemotronMoeLayer {
    /// Whether an operation is launched with the kernel that was loaded for it.
    /// A grouped product on a transposed table takes the kernel for those.
    pub open spec fn right_kernel(self, op: Op) -> bool {
        match op {
            Op::RmsNormResidual(k, ..) => k == self.k.rms_norm_residual,
            Op::DenseGemv(k, ..) => k == self.k.dense_gemv,
            Op::DenseGemm(k, ..) => k == self.k.dense_gemm,
            Op::MoeTopkSigmoid(k, ..) => k == self.k.topk_sigmoid,
            Op::TopkSigmoidRows(k, ..) => k == self.k.topk_sigmoid_batched,
            Op::MoeExpertGemv(k, ..) => k == self.k.moe_expert_gemv,
            Op::W4a16Gemv(k, ..) => k == self.k.w4a16_gemv,
            Op::W4a16Gemm(k, ..) => k == self.k.w4a16_gemm,
            Op::W4a16GemmN128(k, ..) => k == self.k.w4a16_gemm_t,
            Op::Relu2DownShared(k, ..) => k == self.k.relu2_down_shared,
            Op::WeightedSumScale(k, ..) => k == self.k.weighted_sum_scale,
            Op::ResidualAdd(k, ..) => k == self.k.residual_add,
            Op::MoeSortByExpert(k, ..) => k == self.k.moe_sort,
            Op::Relu2Elementwise(k, ..) => k == self.k.moe_relu2_elementwise,
            Op::MoeUnpermuteReduce(k, ..) => k == self.k.moe_unpermute_reduce,
            Op::MoeGroupedGemm(k, _, t, ..) => {
                ||| k == self.k.moe_grouped_gemm_n128 && (self.up_ptrs_t == Some(t)
                    || self.down_ptrs_t == Some(t))
                ||| k == self.k.moe_grouped_gemm && (self.up_ptrs_t is None && t == self.up_ptrs
                    || self.down_ptrs_t is None && t == self.down_ptrs)
            },
            Op::Memset(..) => true,
            _ => false,
        }
    }

    /// The step launches another kernel than the one for it.
    pub open spec fn wrong_kernel(self) -> spec_fn(Step) -> bool {
        |x: Step|
            match x {
                Step::On(_, op) => !self.right_kernel(op),
                _ => false,
            }
    }

    /// Every step of one row launches the kernel loaded for it.
    pub proof fn lemma_decode_kernels(
        self,
        cx: &ForwardContext,
        hidden: DevicePtr,
        residual: DevicePtr,
        stream: u64,
    )
        ensures
            steps_with(
                self.decode_plan(cx, hidden, residual, stream),
                self.wrong_kernel(),
            ) == 0,
    {
        broadcast use lemma_one_more;

        let t = self.decode_route(cx, hidden, residual, stream);
        assert(t =~= Seq::<Step>::empty().push(t[0]).push(t[1]).push(t[2]));
    }

    /// So does every step of a batch.
    pub proof fn lemma_batch_kernels(self, cx: &ForwardContext, p: SortedPrefillCtx, stream: u64)
        ensures
            steps_with(
                self.sorted_finish(cx, self.sorted_routed(cx, p, stream), p, stream),
                self.wrong_kernel(),
            ) == 0,
    {
        broadcast use lemma_one_more;

    }

    proof fn lemma_rows_kernels(
        self,
        cx: &ForwardContext,
        s: Seq<Step>,
        p: SortedPrefillCtx,
        rows: nat,
        stream: u64,
    )
        ensures
            steps_with(self.fallback_rows(cx, s, p, rows, stream), self.wrong_kernel())
                == steps_with(s, self.wrong_kernel()),
        decreases rows,
    {
        broadcast use lemma_one_more;

        if rows > 0 {
            self.lemma_rows_kernels(cx, s, p, (rows - 1) as nat, stream);
        }
    }

    /// So does every step of a batch that goes row by row.
    pub proof fn lemma_row_by_row_kernels(
        self,
        cx: &ForwardContext,
        p: SortedPrefillCtx,
        stream: u64,
    )
        ensures
            steps_with(self.fallback_plan(cx, p, stream), self.wrong_kernel()) == 0,
    {
        broadcast use lemma_one_more;

        let s = if self.routes_rows_at_once(p) {
            on(Seq::empty(), stream, self.topk_sigmoid_rows(cx, p))
        } else {
            Seq::empty()
        };
        self.lemma_rows_kernels(cx, s, p, p.num_tokens as nat, stream);
    }
}

} // verus!
