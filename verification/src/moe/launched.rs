//! Which kernels the plans of a mixture-of-experts layer launch.

use crate::context::ForwardContext;
use crate::gpu::{DevicePtr, KernelHandle};
use crate::moe::forward_prefill_routed::RoutedRows;
use crate::moe::routing::sort_regions;
use crate::moe::MoeLayer;
use crate::plan::{lemma_one_more, on, steps_with, timed, Op, Step};
use vstd::prelude::*;

verus! {

impl MoeLayer {
    /// Whether an operation is launched with the kernel that was loaded for it;
    /// `fp8` is the one for grouped FP8 products.
    pub open spec fn right_kernel(&self, op: Op, fp8: KernelHandle) -> bool {
        match op {
            Op::RmsNorm(k, ..) => k == self.k.pre_expert_norm,
            Op::DenseGemm(k, ..) => k == self.k.dense_gemm,
            Op::W4a16Gemm(k, ..) => k == self.k.w4a16_gemm,
            Op::W4a16GemvBatch2(k, ..) => k == self.k.w4a16_gemv_batch2,
            Op::W4a16GemmN128(k, ..) => k == self.k.w4a16_gemm_t,
            Op::Fp8GemmN128(k, ..) => k == self.k.fp8_gemm,
            Op::W8a16Gemm(k, ..) => k == self.k.w8a16_gemm,
            Op::SiluMul(k, ..) => k == self.k.act_mul,
            Op::ClampBf16(k, ..) => k == self.k.clamp_bf16,
            Op::MoeTopkSigmoid(k, ..) => k == self.k.topk_sigmoid,
            Op::MoeTopkSigmoidBatched(k, ..) => k == self.k.topk_sigmoid_batched,
            Op::MoeTopkSoftmax(k, ..) => k == self.k.topk,
            Op::MoeTopkSoftmaxBatched(k, ..) => k == self.k.topk_batched,
            Op::MoeSortByExpert(k, ..) => k == self.k.sort_by_expert,
            Op::MoeGateUpShared(k, ..) => k == self.k.gate_up_shared,
            Op::MoeGateUpSharedT(k, ..) => k == self.k.gate_up_shared_t,
            Op::MoeGateUpSharedBatch2(k, ..) => k == self.k.gate_up_shared_batch2,
            Op::MoeGateUpSharedBatch2T(k, ..) => k == self.k.gate_up_shared_batch2_t,
            Op::MoeGateUpSharedFp8(k, ..) => k == self.k.gate_up_shared_fp8,
            Op::MoeGateUpSharedFp8Batch2(k, ..) => k == self.k.gate_up_shared_fp8_batch2,
            Op::MoeSiluDownShared(k, ..) => k == self.k.silu_down_shared,
            Op::MoeSiluDownSharedT(k, ..) => k == self.k.silu_down_shared_t,
            Op::MoeSiluDownSharedBatch2(k, ..) => k == self.k.silu_down_shared_batch2,
            Op::MoeSiluDownSharedBatch2T(k, ..) => k == self.k.silu_down_shared_batch2_t,
            Op::MoeSiluDownSharedFp8(k, ..) => k == self.k.silu_down_shared_fp8,
            Op::MoeSiluDownSharedFp8Batch2(k, ..) => k == self.k.silu_down_shared_fp8_batch2,
            Op::MoeWeightedSumBlend(k, ..) => k == self.k.weighted_sum_blend,
            Op::MoeBatchedBlend(k, ..) => k == self.k.batched_blend,
            Op::ResidualAdd(k, ..) => k == self.k.residual_add,
            Op::MoeGroupedGemm(k, ..) => k == self.k.grouped_gemm,
            Op::MoeGroupedGemmN128(k, ..) => k == self.k.grouped_gemm_t_k64,
            Op::MoeFusedGateUpN128(k, ..) => k == self.k.fused_gate_up_t_k64,
            Op::MoeFusedGateUpM128(k, ..) => k == self.k.fused_gate_up_t_k64_m128,
            Op::MoeUnpermuteReduce(k, ..) => k == self.k.unpermute_reduce,
            Op::MoeFp8GroupedGemm(k, ..) => k == fp8,
            Op::MoeWeightedSumBlendBatch2(k, ..) => if self.spec_fp8_ready() {
                k == self.k.weighted_sum_blend_fp8_batch2
            } else {
                k == self.k.weighted_sum_blend_batch2
            },
            Op::Memset(..) => true,
            Op::AllReduceAsync(..) => true,
            Op::RouterInput(..) => true,
            Op::MoeTransposeDown => true,
            Op::Synchronize => true,
            Op::RecordEvent(_) => true,
            Op::WaitEvent(_) => true,
            _ => false,
        }
    }

    /// The step launches another kernel than the one for it.
    pub open spec fn wrong_kernel(&self, fp8: KernelHandle) -> spec_fn(Step) -> bool {
        |x: Step|
            match x {
                Step::On(_, op) => !self.right_kernel(op, fp8),
                _ => false,
            }
    }

    proof fn lemma_each(
        &self,
        cx: &ForwardContext,
        s: Seq<Step>,
        bias: DevicePtr,
        weights: DevicePtr,
        rows: nat,
        fp8: KernelHandle,
        stream: u64,
    )
        ensures
            steps_with(
                self.prefill_topk_each(cx, s, bias, weights, rows, stream),
                self.wrong_kernel(fp8),
            ) == steps_with(s, self.wrong_kernel(fp8)),
        decreases rows,
    {
        broadcast use lemma_one_more;

        if rows > 0 {
            self.lemma_each(cx, s, bias, weights, (rows - 1) as nat, fp8, stream);
        }
    }

    proof fn lemma_front_kernels(
        &self,
        cx: &ForwardContext,
        s: Seq<Step>,
        input: DevicePtr,
        router_in: DevicePtr,
        n: u32,
        fp8: KernelHandle,
        stream: u64,
    )
        ensures
            steps_with(
                self.prefill_front(cx, s, input, router_in, n, stream),
                self.wrong_kernel(fp8),
            ) == steps_with(s, self.wrong_kernel(fp8)),
    {
        broadcast use lemma_one_more;

    }

    proof fn lemma_pass_kernels(
        &self,
        cx: &ForwardContext,
        s: Seq<Step>,
        r: RoutedRows,
        fp8: KernelHandle,
        stream: u64,
    )
        ensures
            steps_with(self.routed_plan(cx, s, r, stream), self.wrong_kernel(fp8)) == steps_with(
                s,
                self.wrong_kernel(fp8),
            ),
    {
        broadcast use lemma_one_more;

    }

    /// Every step of a batch on 4-bit experts launches the kernel loaded for it.
    pub proof fn lemma_batch_kernels(
        &self,
        cx: &ForwardContext,
        input: DevicePtr,
        router_in: DevicePtr,
        num_tokens: usize,
        fp8: KernelHandle,
        stream: u64,
    )
        ensures
            steps_with(
                self.prefill_plan(cx, input, router_in, num_tokens, stream),
                self.wrong_kernel(fp8),
            ) == 0,
    {
        broadcast use lemma_one_more;

        let n = num_tokens as u32;
        let te = Self::expanded(cx, num_tokens);
        let weights = cx.buffers.scratch.at(te * 4);
        let r = sort_regions(cx.buffers.gate_logits, te as int, cx.experts() as int);
        let s = self.prefill_front(cx, Seq::empty(), input, router_in, n, stream);
        self.lemma_front_kernels(cx, Seq::empty(), input, router_in, n, fp8, stream);
        if self.correction_bias_dev is Some {
            self.lemma_each(
                cx, s, self.correction_bias_dev->0, weights, n as nat, fp8, stream,
            );
        }
        let s = timed(self.prefill_topk(cx, s, weights, n, stream), cx.profile, stream);
        let s = timed(on(s, stream, self.sort_op(cx, r, te)), cx.profile, stream);
        let s = timed(self.pre_norm(cx, s, input, n, stream), cx.profile, stream);
        self.lemma_pass_kernels(
            cx,
            s,
            RoutedRows {
                expert_input: self.expert_input(cx, input),
                expert_offsets: r.expert_offsets,
                sorted_token_ids: r.sorted_token_ids,
                num_tokens,
            },
            fp8,
            stream,
        );
    }

    /// So does every step of a batch on FP8 experts.
    pub proof fn lemma_fp8_kernels(
        &self,
        cx: &ForwardContext,
        input: DevicePtr,
        router_in: DevicePtr,
        num_tokens: usize,
        kernel: KernelHandle,
        stream: u64,
    )
        ensures
            steps_with(
                self.fp8_plan(cx, input, router_in, num_tokens, kernel, stream),
                self.wrong_kernel(kernel),
            ) == 0,
    {
        broadcast use lemma_one_more;

    }

    /// So does every step of two rows at once.
    pub proof fn lemma_pair_kernels(
        &self,
        cx: &ForwardContext,
        input: DevicePtr,
        router_in: DevicePtr,
        fp8: KernelHandle,
        stream: u64,
    )
        ensures
            steps_with(self.k2_plan(cx, input, router_in, stream), self.wrong_kernel(fp8)) == 0,
    {
        broadcast use lemma_one_more;

    }

    proof fn lemma_rows_kernels(
        &self,
        cx: &ForwardContext,
        s: Seq<Step>,
        input: DevicePtr,
        rows: nat,
        fp8: KernelHandle,
        stream: u64,
    )
        ensures
            steps_with(self.batched_rows(cx, s, input, rows, stream), self.wrong_kernel(fp8))
                == steps_with(s, self.wrong_kernel(fp8)),
        decreases rows,
    {
        broadcast use lemma_one_more;

        if rows > 0 {
            self.lemma_rows_kernels(cx, s, input, (rows - 1) as nat, fp8, stream);
        }
    }

    /// So does every step of a batch that goes row by row.
    pub proof fn lemma_row_by_row_kernels(
        &self,
        cx: &ForwardContext,
        input: DevicePtr,
        router_in: DevicePtr,
        num_tokens: usize,
        fp8: KernelHandle,
        stream: u64,
    )
        ensures
            steps_with(
                self.batched_plan(cx, Seq::empty(), input, router_in, num_tokens, stream),
                self.wrong_kernel(fp8),
            ) == 0,
    {
        broadcast use lemma_one_more;

        let n = num_tokens as u32;
        let s = self.router_logits(cx, Seq::empty(), input, router_in, n, stream);
        self.lemma_rows_kernels(cx, s, input, num_tokens as nat, fp8, stream);
    }
}

} // verus!
