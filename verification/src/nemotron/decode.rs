//! One row.

use crate::context::ForwardContext;
use crate::gpu::{DevicePtr, F32_ONE};
use crate::moe::MoeError;
use crate::nemotron::NemotronMoeLayer;
use crate::plan::{enqueue, on, Op, Step};
use vstd::prelude::*;

verus! {

impl NemotronMoeLayer {
    /// Norm, router and selection.
    pub open spec fn decode_route(
        self,
        cx: &ForwardContext,
        hidden: DevicePtr,
        residual: DevicePtr,
        stream: u64,
    ) -> Seq<Step> {
        let b = cx.buffers;
        seq![
            Step::On(
                stream,
                Op::RmsNormResidual(
                    self.k.rms_norm_residual, hidden, self.input_norm, b.norm_output, residual, 1,
                    cx.h(), cx.rms_norm_eps,
                ),
            ),
            Step::On(
                stream,
                Op::DenseGemv(
                    self.k.dense_gemv, b.norm_output, self.weights.gate, b.gate_logits,
                    cx.experts(), cx.h(),
                ),
            ),
            Step::On(
                stream,
                Op::MoeTopkSigmoid(
                    self.k.topk_sigmoid, b.gate_logits,
                    self.weights.e_score_correction_bias.weight, b.scratch,
                    b.scratch.at(cx.top_k() * 4), cx.experts(), cx.top_k(),
                    cx.config.norm_topk_prob, cx.routed_scaling_factor, cx.n_group(),
                    cx.topk_group(),
                ),
            ),
        ]
    }

    /// The down product of the routed experts and of the shared one, in one
    /// launch.
    pub open spec fn relu2_down(
        self,
        cx: &ForwardContext,
        widest: u32,
        expert_n: u32,
        idx: DevicePtr,
        shared_up: DevicePtr,
        inter: u32,
        shared_inter: u32,
        h: u32,
        top_k: u32,
    ) -> Op {
        let b = cx.buffers;
        Op::Relu2DownShared(
            self.k.relu2_down_shared, widest, b.expert_up_out, self.down_ptrs, b.expert_down_out,
            idx, shared_up, self.weights.shared_down, b.ssm_deinterleaved, expert_n, inter,
            shared_inter, h, top_k,
        )
    }

    pub(crate) fn relu2_down_op(
        &self,
        cx: &ForwardContext,
        widest: u32,
        expert_n: u32,
        idx: DevicePtr,
        shared_up: DevicePtr,
        inter: u32,
        shared_inter: u32,
        h: u32,
        top_k: u32,
    ) -> (r: Op)
        ensures
            r == self.relu2_down(
                cx,
                widest,
                expert_n,
                idx,
                shared_up,
                inter,
                shared_inter,
                h,
                top_k,
            ),
    {
        let b = cx.buffers;
        Op::Relu2DownShared(
            self.k.relu2_down_shared, widest, b.expert_up_out, self.down_ptrs, b.expert_down_out,
            idx, shared_up, self.weights.shared_down, b.ssm_deinterleaved, expert_n, inter,
            shared_inter, h, top_k,
        )
    }

    /// Experts on the hidden width.
    pub open spec fn decode_direct(
        self,
        cx: &ForwardContext,
        s: Seq<Step>,
        hidden: DevicePtr,
        stream: u64,
    ) -> Seq<Step> {
        let b = cx.buffers;
        let h = cx.h();
        let s = on(
            s,
            stream,
            Op::MoeExpertGemv(
                self.k.moe_expert_gemv, b.norm_output, self.up_ptrs, b.expert_up_out, b.scratch,
                cx.inter(), h, cx.top_k(), 0,
            ),
        );
        let s = on(
            s,
            stream,
            Op::W4a16Gemv(
                self.k.w4a16_gemv, b.norm_output, self.weights.shared_up, b.ssm_qkvz,
                cx.shared_inter(), h,
            ),
        );
        let s = on(
            s,
            stream,
            self.relu2_down(
                cx, h, h, b.scratch, b.ssm_qkvz, cx.inter(), cx.shared_inter(), h, cx.top_k(),
            ),
        );
        let s = on(
            s,
            stream,
            Op::WeightedSumScale(
                self.k.weighted_sum_scale, b.moe_output, b.expert_down_out,
                b.scratch.at(cx.top_k() * 4), b.ssm_deinterleaved, h, cx.top_k(), F32_ONE,
            ),
        );
        on(s, stream, Op::ResidualAdd(self.k.residual_add, hidden, b.moe_output, h))
    }

    /// Experts on the latent width: down to it, through the experts, back up,
    /// then the shared part. The weighted sum gets a zeroed shared operand.
    pub open spec fn decode_latent(
        self,
        cx: &ForwardContext,
        s: Seq<Step>,
        hidden: DevicePtr,
        stream: u64,
    ) -> Seq<Step> {
        let b = cx.buffers;
        let h = cx.h();
        let latent = self.moe_latent_size as u32;
        let s = on(
            s,
            stream,
            Op::DenseGemv(
                self.k.dense_gemv, b.norm_output, self.weights.fc1_latent_proj->0, b.ssm_ba,
                latent, h,
            ),
        );
        let s = on(
            s,
            stream,
            Op::MoeExpertGemv(
                self.k.moe_expert_gemv, b.ssm_ba, self.up_ptrs, b.expert_up_out, b.scratch,
                cx.inter(), latent, cx.top_k(), 0,
            ),
        );
        let s = on(
            s,
            stream,
            Op::W4a16Gemv(
                self.k.w4a16_gemv, b.norm_output, self.weights.shared_up, b.ssm_qkvz,
                cx.shared_inter(), h,
            ),
        );
        let s = on(
            s,
            stream,
            self.relu2_down(
                cx, if h >= latent { h } else { latent }, latent, b.scratch, b.ssm_qkvz,
                cx.inter(), cx.shared_inter(), h, cx.top_k(),
            ),
        );
        let s = on(s, stream, Op::Memset(b.expert_gate_out, 0, (latent * 2) as usize));
        let s = on(
            s,
            stream,
            Op::WeightedSumScale(
                self.k.weighted_sum_scale, b.ssm_ba, b.expert_down_out,
                b.scratch.at(cx.top_k() * 4), b.expert_gate_out, latent, cx.top_k(), F32_ONE,
            ),
        );
        let s = on(
            s,
            stream,
            Op::DenseGemv(
                self.k.dense_gemv, b.ssm_ba, self.weights.fc2_latent_proj->0, b.moe_output, h,
                latent,
            ),
        );
        let s = on(
            s,
            stream,
            Op::ResidualAdd(self.k.residual_add, b.moe_output, b.ssm_deinterleaved, h),
        );
        on(s, stream, Op::ResidualAdd(self.k.residual_add, hidden, b.moe_output, h))
    }

    /// The plan of one row.
    pub open spec fn decode_plan(
        self,
        cx: &ForwardContext,
        hidden: DevicePtr,
        residual: DevicePtr,
        stream: u64,
    ) -> Seq<Step> {
        let s = self.decode_route(cx, hidden, residual, stream);
        if self.moe_latent_size > 0 {
            self.decode_latent(cx, s, hidden, stream)
        } else {
            self.decode_direct(cx, s, hidden, stream)
        }
    }

    fn decode_direct_moe(
        &self,
        cx: &ForwardContext,
        plan: &mut Vec<Step>,
        hidden: DevicePtr,
        stream: u64,
    )
        requires
            cx.top_k() * 4 <= usize::MAX,
        ensures
            final(plan)@ == self.decode_direct(cx, old(plan)@, hidden, stream),
    {
        let b = cx.buffers;
        let h: u32 = cx.config.hidden_size as u32;
        let inter: u32 = cx.config.moe_intermediate_size as u32;
        let shared_inter: u32 = cx.config.shared_expert_intermediate_size as u32;
        let top_k: u32 = cx.config.num_experts_per_tok as u32;
        enqueue(
            plan,
            stream,
            Op::MoeExpertGemv(
                self.k.moe_expert_gemv, b.norm_output, self.up_ptrs, b.expert_up_out, b.scratch,
                inter, h, top_k, 0,
            ),
        );
        enqueue(
            plan,
            stream,
            Op::W4a16Gemv(
                self.k.w4a16_gemv, b.norm_output, self.weights.shared_up, b.ssm_qkvz,
                shared_inter, h,
            ),
        );
        enqueue(
            plan,
            stream,
            self.relu2_down_op(cx, h, h, b.scratch, b.ssm_qkvz, inter, shared_inter, h, top_k),
        );
        enqueue(
            plan,
            stream,
            Op::WeightedSumScale(
                self.k.weighted_sum_scale, b.moe_output, b.expert_down_out,
                b.scratch.offset(top_k as usize * 4), b.ssm_deinterleaved, h, top_k, F32_ONE,
            ),
        );
        enqueue(plan, stream, Op::ResidualAdd(self.k.residual_add, hidden, b.moe_output, h));
    }

    fn decode_latent_moe(
        &self,
        cx: &ForwardContext,
        plan: &mut Vec<Step>,
        hidden: DevicePtr,
        stream: u64,
    )
        requires
            self.wf(),
            self.moe_latent_size > 0,
            cx.top_k() * 4 <= usize::MAX,
            (self.moe_latent_size as u32) * 2 <= usize::MAX,
        ensures
            final(plan)@ == self.decode_latent(cx, old(plan)@, hidden, stream),
    {
        let b = cx.buffers;
        let h: u32 = cx.config.hidden_size as u32;
        let inter: u32 = cx.config.moe_intermediate_size as u32;
        let shared_inter: u32 = cx.config.shared_expert_intermediate_size as u32;
        let top_k: u32 = cx.config.num_experts_per_tok as u32;
        let latent: u32 = self.moe_latent_size as u32;
        let fc1 = self.weights.fc1_latent_proj.unwrap();
        let fc2 = self.weights.fc2_latent_proj.unwrap();
        enqueue(
            plan,
            stream,
            Op::DenseGemv(self.k.dense_gemv, b.norm_output, fc1, b.ssm_ba, latent, h),
        );
        enqueue(
            plan,
            stream,
            Op::MoeExpertGemv(
                self.k.moe_expert_gemv, b.ssm_ba, self.up_ptrs, b.expert_up_out, b.scratch, inter,
                latent, top_k, 0,
            ),
        );
        enqueue(
            plan,
            stream,
            Op::W4a16Gemv(
                self.k.w4a16_gemv, b.norm_output, self.weights.shared_up, b.ssm_qkvz,
                shared_inter, h,
            ),
        );
        let widest: u32 = if h >= latent {
            h
        } else {
            latent
        };
        enqueue(
            plan,
            stream,
            self.relu2_down_op(
                cx, widest, latent, b.scratch, b.ssm_qkvz, inter, shared_inter, h, top_k,
            ),
        );
        enqueue(plan, stream, Op::Memset(b.expert_gate_out, 0, latent as usize * 2));
        enqueue(
            plan,
            stream,
            Op::WeightedSumScale(
                self.k.weighted_sum_scale, b.ssm_ba, b.expert_down_out,
                b.scratch.offset(top_k as usize * 4), b.expert_gate_out, latent, top_k, F32_ONE,
            ),
        );
        enqueue(
            plan,
            stream,
            Op::DenseGemv(self.k.dense_gemv, b.ssm_ba, fc2, b.moe_output, h, latent),
        );
        enqueue(
            plan,
            stream,
            Op::ResidualAdd(self.k.residual_add, b.moe_output, b.ssm_deinterleaved, h),
        );
        enqueue(plan, stream, Op::ResidualAdd(self.k.residual_add, hidden, b.moe_output, h));
    }

    /// Plans one row.
    pub fn decode_inner(
        &self,
        cx: &ForwardContext,
        hidden: DevicePtr,
        residual: DevicePtr,
        stream: u64,
    ) -> (r: Result<Vec<Step>, MoeError>)
        requires
            self.wf(),
            cx.top_k() * 4 <= usize::MAX,
            (self.moe_latent_size as u32) * 2 <= usize::MAX,
        ensures
            match r {
                Ok(plan) => self.k.topk_sigmoid.0 != 0 && plan@ == self.decode_plan(
                    cx,
                    hidden,
                    residual,
                    stream,
                ),
                Err(e) => e == MoeError::SigmoidKernelMissing && self.k.topk_sigmoid.0 == 0,
            },
    {
        if self.k.topk_sigmoid.0 == 0 {
            return Err(MoeError::SigmoidKernelMissing);
        }
        let b = cx.buffers;
        let h: u32 = cx.config.hidden_size as u32;
        let ne: u32 = cx.config.num_experts as u32;
        let top_k: u32 = cx.config.num_experts_per_tok as u32;
        let mut plan: Vec<Step> = Vec::new();
        enqueue(
            &mut plan,
            stream,
            Op::RmsNormResidual(
                self.k.rms_norm_residual, hidden, self.input_norm, b.norm_output, residual, 1, h,
                cx.rms_norm_eps,
            ),
        );
        enqueue(
            &mut plan,
            stream,
            Op::DenseGemv(
                self.k.dense_gemv, b.norm_output, self.weights.gate, b.gate_logits, ne, h,
            ),
        );
        enqueue(
            &mut plan,
            stream,
            Op::MoeTopkSigmoid(
                self.k.topk_sigmoid, b.gate_logits, self.weights.e_score_correction_bias.weight,
                b.scratch, b.scratch.offset(top_k as usize * 4), ne, top_k,
                cx.config.norm_topk_prob, cx.routed_scaling_factor, cx.config.n_group as u32,
                cx.config.topk_group as u32,
            ),
        );
        proof {
            assert(plan@ =~= self.decode_route(cx, hidden, residual, stream));
        }
        if self.moe_latent_size > 0 {
            self.decode_latent_moe(cx, &mut plan, hidden, stream);
        } else {
            self.decode_direct_moe(cx, &mut plan, hidden, stream);
        }
        Ok(plan)
    }
}

} // verus!
