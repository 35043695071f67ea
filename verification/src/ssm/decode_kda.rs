//! One row with per-channel decay.

use crate::context::ForwardContext;
use crate::gpu::{DevicePtr, KernelHandle};
use crate::plan::{enqueue, enqueue_timed, on, timed, Op, SsmState, Step};
use crate::ssm::{Qwen3SsmLayer, SsmDims, SsmError};
use vstd::prelude::*;

verus! {

/// Regions behind the convolution's output in the single-precision buffer.
#[derive(Clone, Copy, PartialEq, Eq, Structural, Debug)]
pub struct KdaRegions {
    pub f_raw: DevicePtr,
    pub b_raw: DevicePtr,
    pub log_decay: DevicePtr,
    pub beta: DevicePtr,
    pub out: DevicePtr,
}

/// One region after the other: raw decay (2 bytes per channel), raw beta
/// (2 bytes per head), log decay (4 bytes per channel), beta (4 bytes per
/// head), then the output.
pub open spec fn kda_regions(base: DevicePtr, d: SsmDims) -> KdaRegions {
    let f_raw = base.at(d.conv_dim * 4);
    let b_raw = f_raw.at(d.nv * d.kd * 2);
    let log_decay = b_raw.at(d.nv * 2);
    let beta = log_decay.at(d.nv * d.kd * 4);
    KdaRegions { f_raw, b_raw, log_decay, beta, out: beta.at(d.nv * 4) }
}

/// The regions follow each other without gap or overlap behind the
/// convolution's output, when they fit into the address space.
pub proof fn lemma_kda_regions(base: DevicePtr, d: SsmDims)
    requires
        base.0 + d.conv_dim * 4 + d.nv * d.kd * 6 + d.nv * 6 <= u64::MAX,
    ensures
        ({
            let r = kda_regions(base, d);
            &&& r.f_raw.0 == base.0 + d.conv_dim * 4
            &&& r.b_raw.0 == r.f_raw.0 + d.nv * d.kd * 2
            &&& r.log_decay.0 == r.b_raw.0 + d.nv * 2
            &&& r.beta.0 == r.log_decay.0 + d.nv * d.kd * 4
            &&& r.out.0 == r.beta.0 + d.nv * 4
        }),
{
    assert(d.nv * d.kd >= 0) by (nonlinear_arith);
}

pub fn split_kda_regions(base: DevicePtr, d: SsmDims) -> (r: KdaRegions)
    requires
        d.conv_dim * 4 <= usize::MAX,
        d.nv * 4 <= usize::MAX,
        d.nv * d.kd * 4 <= usize::MAX,
    ensures
        r == kda_regions(base, d),
{
    let channels: usize = d.nv * d.kd;
    let f_raw: DevicePtr = base.offset(d.conv_dim * 4);
    let b_raw: DevicePtr = f_raw.offset(channels * 2);
    let log_decay: DevicePtr = b_raw.offset(d.nv * 2);
    let beta: DevicePtr = log_decay.offset(channels * 4);
    KdaRegions { f_raw, b_raw, log_decay, beta, out: beta.offset(d.nv * 4) }
}

impl Qwen3SsmLayer {
    /// Projections and gates.
    pub open spec fn kda_front(
        &self,
        cx: &ForwardContext,
        s: Seq<Step>,
        d: SsmDims,
        normed: DevicePtr,
        stream: u64,
        trace: bool,
    ) -> Seq<Step> {
        let r = kda_regions(cx.buffers.ssm_conv_out_f32, d);
        let h = d.h as u32;
        let s = on(
            s,
            stream,
            Op::DenseGemv(
                self.k.dense_gemv, normed, self.ssm.in_proj_qkvz, cx.buffers.ssm_deinterleaved,
                d.qkvz as u32, h,
            ),
        );
        let s = timed(s, trace, stream);
        let s = on(
            s,
            stream,
            Op::DenseGemv(
                self.k.dense_gemv, normed, self.kda_f_proj, r.f_raw, (d.nv * d.kd) as u32, h,
            ),
        );
        let s = on(
            s,
            stream,
            Op::DenseGemv(self.k.dense_gemv, normed, self.kda_b_proj, r.b_raw, d.nv as u32, h),
        );
        let s = timed(s, trace, stream);
        let s = on(
            s,
            stream,
            Op::KdaGates(
                self.k.kda_gates, r.f_raw, r.b_raw, self.ssm.a_log.weight,
                self.ssm.dt_bias.weight, r.log_decay, r.beta, 1, d.nk as u32, d.nv as u32,
                d.kd as u32, self.kda_lower_bound,
            ),
        );
        timed(s, trace, stream)
    }

    /// Convolution and recurrence. The recurrence reads single-precision
    /// inputs when the convolution writes them.
    pub open spec fn kda_recurrence(
        &self,
        cx: &ForwardContext,
        s: Seq<Step>,
        d: SsmDims,
        state: SsmState,
        stream: u64,
        trace: bool,
    ) -> Seq<Step> {
        let r = kda_regions(cx.buffers.ssm_conv_out_f32, d);
        let conv = self.conv_out(cx);
        let s = on(s, stream, self.conv_op(cx, d, state));
        let s = timed(s, trace, stream);
        let s = on(
            s,
            stream,
            Op::KdaDecode(
                if self.k.conv1d_l2norm_f32.0 != 0 {
                    self.k.kda_decode_f32i
                } else {
                    self.k.kda_decode
                },
                state.h_state, conv, conv.at(d.key_dim * self.conv_elem()),
                conv.at(d.key_dim * 2 * self.conv_elem()), r.log_decay, r.beta, r.out, 1,
                d.nk as u32, d.nv as u32, d.kd as u32, d.vd as u32,
            ),
        );
        timed(s, trace, stream)
    }

    /// One row with per-channel decay. Without the norm kernel the row stops
    /// behind the recurrence.
    pub open spec fn kda_row(
        &self,
        cx: &ForwardContext,
        s: Seq<Step>,
        d: SsmDims,
        normed: DevicePtr,
        state: SsmState,
        stream: u64,
        trace: bool,
    ) -> Seq<Step> {
        let b = cx.buffers;
        let r = kda_regions(b.ssm_conv_out_f32, d);
        let s = self.kda_front(cx, s, d, normed, stream, trace);
        let s = self.kda_recurrence(cx, s, d, state, stream, trace);
        if self.k.gated_rms_norm_f32.0 == 0 {
            s
        } else {
            let s = on(
                s,
                stream,
                Op::GatedRmsNorm(
                    self.k.gated_rms_norm_f32, r.out, b.ssm_deinterleaved.at(d.conv_dim * 2),
                    self.ssm.norm, b.ssm_qkvz, d.nv as u32, d.vd as u32, d.vd as u32,
                    cx.rms_norm_eps, d.vd as u32,
                ),
            );
            let s = timed(s, trace, stream);
            let s = on(
                s,
                stream,
                self.out_proj(b.ssm_qkvz, b.moe_output, d.h as u32, d.value_dim as u32),
            );
            timed(s, trace, stream)
        }
    }

    pub(crate) fn ssm_forward_kda(
        &self,
        cx: &ForwardContext,
        plan: &mut Vec<Step>,
        normed: DevicePtr,
        state: SsmState,
        stream: u64,
        trace: bool,
    ) -> (r: Result<DevicePtr, SsmError>)
        requires
            self.kda_mode,
            self.row_fits(cx),
        ensures
            final(plan)@ == self.kda_row(
                cx,
                old(plan)@,
                SsmDims::of(cx),
                normed,
                state,
                stream,
                trace,
            ),
            r == self.row_result(cx),
    {
        let b = cx.buffers;
        let d: SsmDims = SsmDims::read(cx);
        let h: u32 = d.h as u32;
        let r: KdaRegions = split_kda_regions(b.ssm_conv_out_f32, d);
        enqueue(
            plan,
            stream,
            Op::DenseGemv(
                self.k.dense_gemv, normed, self.ssm.in_proj_qkvz, b.ssm_deinterleaved,
                d.qkvz as u32, h,
            ),
        );
        enqueue_timed(plan, trace, stream);
        enqueue(
            plan,
            stream,
            Op::DenseGemv(
                self.k.dense_gemv, normed, self.kda_f_proj, r.f_raw, (d.nv * d.kd) as u32, h,
            ),
        );
        enqueue(
            plan,
            stream,
            Op::DenseGemv(self.k.dense_gemv, normed, self.kda_b_proj, r.b_raw, d.nv as u32, h),
        );
        enqueue_timed(plan, trace, stream);
        enqueue(
            plan,
            stream,
            Op::KdaGates(
                self.k.kda_gates, r.f_raw, r.b_raw, self.ssm.a_log.weight,
                self.ssm.dt_bias.weight, r.log_decay, r.beta, 1, d.nk as u32, d.nv as u32,
                d.kd as u32, self.kda_lower_bound,
            ),
        );
        enqueue_timed(plan, trace, stream);
        enqueue(plan, stream, self.conv_op_exec(cx, d, state));
        enqueue_timed(plan, trace, stream);
        let conv: DevicePtr = self.conv_out_exec(cx);
        let elem: usize = if self.k.conv1d_l2norm_f32.0 != 0 {
            4
        } else {
            2
        };
        let kernel: KernelHandle = if self.k.conv1d_l2norm_f32.0 != 0 {
            self.k.kda_decode_f32i
        } else {
            self.k.kda_decode
        };
        enqueue(
            plan,
            stream,
            Op::KdaDecode(
                kernel, state.h_state, conv, conv.offset(d.key_dim * elem),
                conv.offset(d.key_dim * 2 * elem), r.log_decay, r.beta, r.out, 1, d.nk as u32,
                d.nv as u32, d.kd as u32, d.vd as u32,
            ),
        );
        enqueue_timed(plan, trace, stream);
        if self.k.gated_rms_norm_f32.0 == 0 {
            return Err(SsmError::KdaNeedsF32Norm);
        }
        enqueue(
            plan,
            stream,
            Op::GatedRmsNorm(
                self.k.gated_rms_norm_f32, r.out, b.ssm_deinterleaved.offset(d.conv_dim * 2),
                self.ssm.norm, b.ssm_qkvz, d.nv as u32, d.vd as u32, d.vd as u32,
                cx.rms_norm_eps, d.vd as u32,
            ),
        );
        enqueue_timed(plan, trace, stream);
        enqueue(
            plan,
            stream,
            self.out_proj_op(b.ssm_qkvz, b.moe_output, h, d.value_dim as u32),
        );
        enqueue_timed(plan, trace, stream);
        Ok(b.moe_output)
    }
}

} // verus!
