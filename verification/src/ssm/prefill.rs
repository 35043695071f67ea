//! All rows of a prompt through a linear-attention layer in one pass.

use crate::context::ForwardContext;
use crate::gpu::{DevicePtr, F32_1E_MINUS_6};
use crate::plan::{enqueue, enqueue_timed, on, timed, Op, SsmState, Step};
use crate::ssm::{Qwen3SsmLayer, SsmDims, SsmError};
use vstd::prelude::*;

verus! {

impl Qwen3SsmLayer {
    /// Every extent and byte count of the pass is representable; there is a key
    /// head.
    pub open spec fn prefill_fits(cx: &ForwardContext, num_tokens: usize) -> bool {
        let d = SsmDims::of(cx);
        &&& SsmDims::fit(cx)
        &&& d.nk > 0
        &&& d.conv_dim * 2 <= usize::MAX
        &&& d.nv * 2 <= usize::MAX
        &&& d.nk * 2 <= usize::MAX
        &&& num_tokens * d.h <= usize::MAX
    }

    /// A stage boundary: when the pass is timed, a wait that ends one stage and
    /// a wait that begins the next.
    pub open spec fn stage(cx: &ForwardContext, s: Seq<Step>, stream: u64) -> Seq<Step> {
        timed(timed(s, cx.profile, stream), cx.profile, stream)
    }

    fn plan_stage(cx: &ForwardContext, plan: &mut Vec<Step>, stream: u64)
        ensures
            final(plan)@ == Self::stage(cx, old(plan)@, stream),
    {
        enqueue_timed(plan, cx.profile, stream);
        enqueue_timed(plan, cx.profile, stream);
    }

    /// Gates and betas of all rows.
    pub open spec fn gates_rows(
        &self,
        cx: &ForwardContext,
        d: SsmDims,
        normed: DevicePtr,
        k: u32,
    ) -> Op {
        Op::DenseGemmBaGatesPrefill(
            self.k.ba_gates_prefill, normed, self.ssm.in_proj_ba, self.ssm.a_log.weight,
            self.ssm.dt_bias.weight, cx.buffers.ssm_gates, k, d.ba as u32, d.h as u32, d.h as u32,
            (d.nv * 2) as u32, d.nv as u32, Self::vpg(d),
        )
    }

    pub(crate) fn gates_rows_op(
        &self,
        cx: &ForwardContext,
        d: SsmDims,
        normed: DevicePtr,
        k: u32,
    ) -> (r: Op)
        requires
            d.nk > 0,
            d.nv * 2 <= usize::MAX,
        ensures
            r == self.gates_rows(cx, d, normed, k),
    {
        Op::DenseGemmBaGatesPrefill(
            self.k.ba_gates_prefill, normed, self.ssm.in_proj_ba, self.ssm.a_log.weight,
            self.ssm.dt_bias.weight, cx.buffers.ssm_gates, k, d.ba as u32, d.h as u32, d.h as u32,
            (d.nv * 2) as u32, d.nv as u32, (d.nv / d.nk) as u32,
        )
    }

    /// Convolution of all rows.
    pub open spec fn conv_rows(
        &self,
        cx: &ForwardContext,
        d: SsmDims,
        state: SsmState,
        k: u32,
    ) -> Op {
        Op::Conv1dUpdatePrefill(
            self.k.conv1d_prefill, state.conv_state, cx.buffers.ssm_deinterleaved,
            self.ssm.conv1d, DevicePtr(0), cx.buffers.ssm_qkvz, d.conv_dim as u32,
            d.d_conv as u32, k, d.qkvz as u32, d.conv_dim as u32,
        )
    }

    pub(crate) fn conv_rows_op(
        &self,
        cx: &ForwardContext,
        d: SsmDims,
        state: SsmState,
        k: u32,
    ) -> (r: Op)
        ensures
            r == self.conv_rows(cx, d, state, k),
    {
        Op::Conv1dUpdatePrefill(
            self.k.conv1d_prefill, state.conv_state, cx.buffers.ssm_deinterleaved,
            self.ssm.conv1d, DevicePtr(0), cx.buffers.ssm_qkvz, d.conv_dim as u32,
            d.d_conv as u32, k, d.qkvz as u32, d.conv_dim as u32,
        )
    }

    /// Norm of all query and key heads.
    pub open spec fn l2_rows(&self, cx: &ForwardContext, d: SsmDims, k: u32) -> Op {
        Op::L2Norm(
            self.k.l2_norm, cx.buffers.ssm_qkvz, (d.nk * 2) as u32, d.kd as u32, F32_1E_MINUS_6,
            k, d.conv_dim as u32,
        )
    }

    pub(crate) fn l2_rows_op(&self, cx: &ForwardContext, d: SsmDims, k: u32) -> (r: Op)
        requires
            d.nk * 2 <= usize::MAX,
        ensures
            r == self.l2_rows(cx, d, k),
    {
        Op::L2Norm(
            self.k.l2_norm, cx.buffers.ssm_qkvz, (d.nk * 2) as u32, d.kd as u32, F32_1E_MINUS_6,
            k, d.conv_dim as u32,
        )
    }

    /// Norm, projection, gates, convolution and recurrence.
    pub open spec fn prefill_mix(
        &self,
        cx: &ForwardContext,
        s: Seq<Step>,
        d: SsmDims,
        hidden: DevicePtr,
        residual: DevicePtr,
        k: u32,
        state: SsmState,
        stream: u64,
    ) -> Seq<Step> {
        let b = cx.buffers;
        let conv = b.ssm_qkvz;
        let s = timed(s, cx.profile, stream);
        let s = on(
            s,
            stream,
            Op::RmsNormResidual(
                self.k.rms_norm_residual, hidden, self.input_norm, b.norm_output, residual, k,
                d.h as u32, cx.rms_norm_eps,
            ),
        );
        let s = Self::stage(cx, s, stream);
        let s = on(
            s,
            stream,
            Op::PrefillQkvzProj(
                b.norm_output, b.ssm_deinterleaved, k, d.qkvz, d.h, d.nk, d.kd,
                (d.nv as int / d.nk as int) as usize, d.vd,
            ),
        );
        let s = Self::stage(cx, s, stream);
        let s = on(s, stream, self.gates_rows(cx, d, b.norm_output, k));
        let s = Self::stage(cx, s, stream);
        let s = on(s, stream, self.conv_rows(cx, d, state, k));
        let s = Self::stage(cx, s, stream);
        let s = on(s, stream, self.l2_rows(cx, d, k));
        let s = Self::stage(cx, s, stream);
        let s = on(
            s,
            stream,
            Op::PrefillGdnRecurrence(
                state.h_state, conv, conv.at(d.key_dim * 2), conv.at(d.key_dim * 2 * 2),
                b.ssm_gates, b.attn_output, k, d.nk, d.nv, d.kd, d.vd, d.conv_dim,
            ),
        );
        Self::stage(cx, s, stream)
    }

    /// Gated norm, output projection, feed-forward part and residual.
    pub open spec fn prefill_out(
        &self,
        cx: &ForwardContext,
        s: Seq<Step>,
        d: SsmDims,
        hidden: DevicePtr,
        residual: DevicePtr,
        num_tokens: usize,
        stream: u64,
    ) -> Seq<Step> {
        let b = cx.buffers;
        let k = num_tokens as u32;
        let s = on(
            s,
            stream,
            Op::GatedRmsNormPrefill(
                self.k.gated_rms_norm_prefill, b.attn_output,
                b.ssm_deinterleaved.at(d.conv_dim * 2), self.ssm.norm, b.ssm_qkvz, d.nv as u32,
                d.vd as u32, cx.rms_norm_eps, k, d.value_dim as u32, d.qkvz as u32,
            ),
        );
        let s = Self::stage(cx, s, stream);
        let s = on(
            s,
            stream,
            Op::PrefillOutProj(b.ssm_qkvz, b.moe_output, k, d.h, d.value_dim),
        );
        let s = Self::stage(cx, s, stream);
        let s = self.ffn_rows(cx, s, hidden, residual, num_tokens, stream);
        timed(s, cx.profile, stream)
    }

    /// Post-mixing norm, feed-forward part and residual of all rows.
    pub open spec fn ffn_rows(
        &self,
        cx: &ForwardContext,
        s: Seq<Step>,
        hidden: DevicePtr,
        residual: DevicePtr,
        num_tokens: usize,
        stream: u64,
    ) -> Seq<Step> {
        let b = cx.buffers;
        let s = on(
            s,
            stream,
            Op::ResidualAddRmsNorm(
                self.k.residual_add_rms_norm, hidden, b.moe_output, self.post_attn_norm,
                b.norm_output, residual, num_tokens as u32, cx.h(), cx.rms_norm_eps,
            ),
        );
        let s = on(s, stream, Op::FfnForwardPrefill(b.norm_output, num_tokens));
        on(
            s,
            stream,
            Op::ResidualAdd(
                self.k.residual_add, hidden, b.moe_output,
                (num_tokens * cx.config.hidden_size) as u32,
            ),
        )
    }

    pub(crate) fn plan_ffn_rows(
        &self,
        cx: &ForwardContext,
        plan: &mut Vec<Step>,
        hidden: DevicePtr,
        residual: DevicePtr,
        num_tokens: usize,
        stream: u64,
    )
        requires
            num_tokens * cx.config.hidden_size <= usize::MAX,
        ensures
            final(plan)@ == self.ffn_rows(cx, old(plan)@, hidden, residual, num_tokens, stream),
    {
        let b = cx.buffers;
        let h: usize = cx.config.hidden_size;
        enqueue(
            plan,
            stream,
            Op::ResidualAddRmsNorm(
                self.k.residual_add_rms_norm, hidden, b.moe_output, self.post_attn_norm,
                b.norm_output, residual, num_tokens as u32, h as u32, cx.rms_norm_eps,
            ),
        );
        enqueue(plan, stream, Op::FfnForwardPrefill(b.norm_output, num_tokens));
        enqueue(
            plan,
            stream,
            Op::ResidualAdd(self.k.residual_add, hidden, b.moe_output, (num_tokens * h) as u32),
        );
    }

    /// The plan of `prefill`.
    pub open spec fn prefill_plan(
        &self,
        cx: &ForwardContext,
        hidden: DevicePtr,
        residual: DevicePtr,
        num_tokens: usize,
        state: SsmState,
        stream: u64,
    ) -> Seq<Step> {
        let d = SsmDims::of(cx);
        let s = self.prefill_mix(
            cx, Seq::empty(), d, hidden, residual, num_tokens as u32, state, stream,
        );
        self.prefill_out(cx, s, d, hidden, residual, num_tokens, stream)
    }

    fn plan_prefill_mix(
        &self,
        cx: &ForwardContext,
        plan: &mut Vec<Step>,
        d: SsmDims,
        hidden: DevicePtr,
        residual: DevicePtr,
        k: u32,
        state: SsmState,
        stream: u64,
    )
        requires
            d.nk > 0,
            d.conv_dim == d.key_dim * 2 + d.value_dim,
            d.conv_dim * 2 <= usize::MAX,
            d.nv * 2 <= usize::MAX,
            d.nk * 2 <= usize::MAX,
        ensures
            final(plan)@ == self.prefill_mix(
                cx,
                old(plan)@,
                d,
                hidden,
                residual,
                k,
                state,
                stream,
            ),
    {
        let b = cx.buffers;
        let conv: DevicePtr = b.ssm_qkvz;
        enqueue_timed(plan, cx.profile, stream);
        enqueue(
            plan,
            stream,
            Op::RmsNormResidual(
                self.k.rms_norm_residual, hidden, self.input_norm, b.norm_output, residual, k,
                d.h as u32, cx.rms_norm_eps,
            ),
        );
        Self::plan_stage(cx, plan, stream);
        enqueue(
            plan,
            stream,
            Op::PrefillQkvzProj(
                b.norm_output, b.ssm_deinterleaved, k, d.qkvz, d.h, d.nk, d.kd, d.nv / d.nk, d.vd,
            ),
        );
        Self::plan_stage(cx, plan, stream);
        enqueue(plan, stream, self.gates_rows_op(cx, d, b.norm_output, k));
        Self::plan_stage(cx, plan, stream);
        enqueue(plan, stream, self.conv_rows_op(cx, d, state, k));
        Self::plan_stage(cx, plan, stream);
        enqueue(plan, stream, self.l2_rows_op(cx, d, k));
        Self::plan_stage(cx, plan, stream);
        enqueue(
            plan,
            stream,
            Op::PrefillGdnRecurrence(
                state.h_state, conv, conv.offset(d.key_dim * 2), conv.offset(d.key_dim * 2 * 2),
                b.ssm_gates, b.attn_output, k, d.nk, d.nv, d.kd, d.vd, d.conv_dim,
            ),
        );
        Self::plan_stage(cx, plan, stream);
    }

    /// Plans all rows of a prompt in one pass, for layers with scalar gates. With
    /// per-channel decay a prompt is processed in two phases.
    pub fn prefill(
        &self,
        cx: &ForwardContext,
        hidden: DevicePtr,
        residual: DevicePtr,
        num_tokens: usize,
        state: SsmState,
        stream: u64,
    ) -> (r: Result<Vec<Step>, SsmError>)
        requires
            !self.kda_mode ==> Self::prefill_fits(cx, num_tokens),
        ensures
            r is Err <==> self.kda_mode,
            self.kda_mode ==> r->Err_0 == SsmError::KdaNeedsTwoPhases,
            !self.kda_mode ==> r->Ok_0@ == self.prefill_plan(
                cx,
                hidden,
                residual,
                num_tokens,
                state,
                stream,
            ),
    {
        if self.kda_mode {
            return Err(SsmError::KdaNeedsTwoPhases);
        }
        let b = cx.buffers;
        let d: SsmDims = SsmDims::read(cx);
        let k: u32 = num_tokens as u32;
        let mut plan: Vec<Step> = Vec::new();
        self.plan_prefill_mix(cx, &mut plan, d, hidden, residual, k, state, stream);
        enqueue(
            &mut plan,
            stream,
            Op::GatedRmsNormPrefill(
                self.k.gated_rms_norm_prefill, b.attn_output,
                b.ssm_deinterleaved.offset(d.conv_dim * 2), self.ssm.norm, b.ssm_qkvz,
                d.nv as u32, d.vd as u32, cx.rms_norm_eps, k, d.value_dim as u32, d.qkvz as u32,
            ),
        );
        Self::plan_stage(cx, &mut plan, stream);
        enqueue(
            &mut plan,
            stream,
            Op::PrefillOutProj(b.ssm_qkvz, b.moe_output, k, d.h, d.value_dim),
        );
        Self::plan_stage(cx, &mut plan, stream);
        self.plan_ffn_rows(cx, &mut plan, hidden, residual, num_tokens, stream);
        enqueue_timed(&mut plan, cx.profile, stream);
        Ok(plan)
    }
}

} // verus!
