//! One row through the mixing part of a linear-attention layer.

use crate::context::ForwardContext;
use crate::gpu::{DevicePtr, KernelHandle, F32_1E_MINUS_6};
use crate::plan::{enqueue, enqueue_timed, on, timed, Op, SsmState, Step};
use crate::ssm::{Qwen3SsmLayer, SsmDims, SsmError};
use vstd::prelude::*;

verus! {

impl Qwen3SsmLayer {
    /// Value heads per key head.
    pub open spec fn vpg(d: SsmDims) -> u32 {
        (d.nv as int / d.nk as int) as u32
    }

    /// The fused projection in sequential order, in the best format held.
    pub open spec fn qkvz_row(
        &self,
        cx: &ForwardContext,
        s: Seq<Step>,
        d: SsmDims,
        normed: DevicePtr,
        stream: u64,
    ) -> Seq<Step> {
        let out = cx.buffers.ssm_deinterleaved;
        let raw = cx.buffers.ssm_qkvz;
        let n = d.qkvz as u32;
        let h = d.h as u32;
        let reorder = Op::DeinterleaveQkvz(
            self.k.deinterleave, raw, out, 1, d.nk as u32, d.kd as u32, Self::vpg(d), d.vd as u32,
        );
        match self.qkvz_fp8w {
            Some(w) => if self.sequential_qkvz {
                on(
                    s,
                    stream,
                    Op::W8a16Gemv(self.k.w8a16_gemv, normed, w.weight, w.row_scale, out, n, h),
                )
            } else {
                on(
                    on(
                        s,
                        stream,
                        Op::W8a16Gemv(self.k.w8a16_gemv, normed, w.weight, w.row_scale, raw, n, h),
                    ),
                    stream,
                    reorder,
                )
            },
            None => if self.sequential_qkvz {
                on(
                    s,
                    stream,
                    match self.qkvz_nvfp4 {
                        Some(w) => Op::W4a16Gemv(self.k.w4a16_gemv, normed, w, out, n, h),
                        None => Op::DenseGemv(
                            self.k.dense_gemv, normed, self.ssm.in_proj_qkvz, out, n, h,
                        ),
                    },
                )
            } else {
                match self.qkvz_nvfp4 {
                    Some(w) => on(
                        s,
                        stream,
                        Op::W4a16GemvQkvz(
                            self.k.w4a16_gemv_qkvz, normed, w, out, n, h, d.nk as u32,
                            d.kd as u32, Self::vpg(d), d.vd as u32,
                        ),
                    ),
                    None => on(
                        on(
                            s,
                            stream,
                            Op::DenseGemv(
                                self.k.dense_gemv, normed, self.ssm.in_proj_qkvz, raw, n, h,
                            ),
                        ),
                        stream,
                        reorder,
                    ),
                }
            },
        }
    }

    fn plan_qkvz_row(
        &self,
        cx: &ForwardContext,
        plan: &mut Vec<Step>,
        d: SsmDims,
        normed: DevicePtr,
        stream: u64,
    )
        requires
            d.nk > 0,
        ensures
            final(plan)@ == self.qkvz_row(cx, old(plan)@, d, normed, stream),
    {
        let out: DevicePtr = cx.buffers.ssm_deinterleaved;
        let raw: DevicePtr = cx.buffers.ssm_qkvz;
        let n: u32 = d.qkvz as u32;
        let h: u32 = d.h as u32;
        let vpg: u32 = (d.nv / d.nk) as u32;
        let reorder: Op = Op::DeinterleaveQkvz(
            self.k.deinterleave, raw, out, 1, d.nk as u32, d.kd as u32, vpg, d.vd as u32,
        );
        if let Some(w) = self.qkvz_fp8w {
            if self.sequential_qkvz {
                enqueue(
                    plan,
                    stream,
                    Op::W8a16Gemv(self.k.w8a16_gemv, normed, w.weight, w.row_scale, out, n, h),
                );
            } else {
                enqueue(
                    plan,
                    stream,
                    Op::W8a16Gemv(self.k.w8a16_gemv, normed, w.weight, w.row_scale, raw, n, h),
                );
                enqueue(plan, stream, reorder);
            }
        } else if self.sequential_qkvz {
            match self.qkvz_nvfp4 {
                Some(w) => enqueue(
                    plan,
                    stream,
                    Op::W4a16Gemv(self.k.w4a16_gemv, normed, w, out, n, h),
                ),
                None => enqueue(
                    plan,
                    stream,
                    Op::DenseGemv(self.k.dense_gemv, normed, self.ssm.in_proj_qkvz, out, n, h),
                ),
            }
        } else {
            match self.qkvz_nvfp4 {
                Some(w) => enqueue(
                    plan,
                    stream,
                    Op::W4a16GemvQkvz(
                        self.k.w4a16_gemv_qkvz, normed, w, out, n, h, d.nk as u32, d.kd as u32,
                        vpg, d.vd as u32,
                    ),
                ),
                None => {
                    enqueue(
                        plan,
                        stream,
                        Op::DenseGemv(self.k.dense_gemv, normed, self.ssm.in_proj_qkvz, raw, n, h),
                    );
                    enqueue(plan, stream, reorder);
                },
            }
        }
    }

    /// Where the convolution writes and with which kernel: single precision
    /// when that kernel is loaded.
    pub open spec fn conv_out(&self, cx: &ForwardContext) -> DevicePtr {
        if self.k.conv1d_l2norm_f32.0 != 0 {
            cx.buffers.ssm_conv_out_f32
        } else {
            cx.buffers.ssm_qkvz
        }
    }

    pub open spec fn conv_kernel(&self) -> KernelHandle {
        if self.k.conv1d_l2norm_f32.0 != 0 {
            self.k.conv1d_l2norm_f32
        } else {
            self.k.conv1d_l2norm
        }
    }

    /// Bytes per element of the convolution's output.
    pub open spec fn conv_elem(&self) -> int {
        if self.k.conv1d_l2norm_f32.0 != 0 {
            4
        } else {
            2
        }
    }

    pub open spec fn conv_op(&self, cx: &ForwardContext, d: SsmDims, state: SsmState) -> Op {
        Op::Conv1dUpdateL2norm(
            self.conv_kernel(), state.conv_state, cx.buffers.ssm_deinterleaved, self.ssm.conv1d,
            self.conv_out(cx), d.conv_dim as u32, d.d_conv as u32, 1, (d.key_dim * 2) as u32,
            d.kd as u32, F32_1E_MINUS_6,
        )
    }

    pub(crate) fn conv_out_exec(&self, cx: &ForwardContext) -> (r: DevicePtr)
        ensures
            r == self.conv_out(cx),
    {
        if self.k.conv1d_l2norm_f32.0 != 0 {
            cx.buffers.ssm_conv_out_f32
        } else {
            cx.buffers.ssm_qkvz
        }
    }

    pub(crate) fn conv_op_exec(&self, cx: &ForwardContext, d: SsmDims, state: SsmState) -> (r: Op)
        requires
            d.key_dim * 2 <= usize::MAX,
        ensures
            r == self.conv_op(cx, d, state),
    {
        let kernel: KernelHandle = if self.k.conv1d_l2norm_f32.0 != 0 {
            self.k.conv1d_l2norm_f32
        } else {
            self.k.conv1d_l2norm
        };
        Op::Conv1dUpdateL2norm(
            kernel, state.conv_state, cx.buffers.ssm_deinterleaved, self.ssm.conv1d,
            self.conv_out_exec(cx), d.conv_dim as u32, d.d_conv as u32, 1, (d.key_dim * 2) as u32,
            d.kd as u32, F32_1E_MINUS_6,
        )
    }

    /// The recurrence and its norm both work in single precision.
    pub open spec fn f32_gdn(&self) -> bool {
        self.k.gdn_f32.0 != 0 && self.k.gated_rms_norm_f32.0 != 0
    }

    /// Where the recurrence writes: behind the convolution's output in the
    /// single-precision buffer, or the attention buffer.
    pub open spec fn gdn_out(&self, cx: &ForwardContext, d: SsmDims) -> DevicePtr {
        if self.f32_gdn() {
            cx.buffers.ssm_conv_out_f32.at(d.conv_dim * 4)
        } else {
            cx.buffers.attn_output
        }
    }

    /// Gates, convolution, recurrence, gated norm and output projection. A
    /// trace waits for each of them.
    pub open spec fn gdn_row(
        &self,
        cx: &ForwardContext,
        s: Seq<Step>,
        d: SsmDims,
        normed: DevicePtr,
        state: SsmState,
        stream: u64,
        trace: bool,
    ) -> Seq<Step> {
        let b = cx.buffers;
        let beta = b.ssm_gates.at(d.nv * 4);
        let conv = self.conv_out(cx);
        let s = timed(
            on(
                s,
                stream,
                Op::DenseGemvBaGates(
                    self.k.ba_gates, normed, self.ssm.in_proj_ba, self.ssm.a_log.weight,
                    self.ssm.dt_bias.weight, b.ssm_gates, beta, d.ba as u32, d.h as u32,
                    Self::vpg(d),
                ),
            ),
            cx.profile,
            stream,
        );
        let s = timed(s, trace, stream);
        let s = on(s, stream, self.conv_op(cx, d, state));
        let s = timed(s, trace, stream);
        let s = on(
            s,
            stream,
            Op::GdnDecode(
                if self.f32_gdn() { self.k.gdn_f32 } else { self.k.gdn }, state.h_state, conv,
                conv.at(d.key_dim * self.conv_elem()), conv.at(d.key_dim * 2 * self.conv_elem()),
                b.ssm_gates, beta, self.gdn_out(cx, d), 1, d.nk as u32, d.nv as u32, d.kd as u32,
                d.vd as u32,
            ),
        );
        let s = timed(s, trace, stream);
        let s = on(
            s,
            stream,
            Op::GatedRmsNorm(
                if self.f32_gdn() { self.k.gated_rms_norm_f32 } else { self.k.gated_rms_norm },
                self.gdn_out(cx, d), b.ssm_deinterleaved.at(d.conv_dim * 2), self.ssm.norm,
                b.ssm_qkvz, d.nv as u32, d.vd as u32, d.vd as u32, cx.rms_norm_eps, d.vd as u32,
            ),
        );
        let s = timed(s, trace, stream);
        let s = on(
            s,
            stream,
            self.out_proj(b.ssm_qkvz, b.moe_output, d.h as u32, d.value_dim as u32),
        );
        timed(s, trace, stream)
    }

    fn plan_gdn_row(
        &self,
        cx: &ForwardContext,
        plan: &mut Vec<Step>,
        d: SsmDims,
        normed: DevicePtr,
        state: SsmState,
        stream: u64,
        trace: bool,
    )
        requires
            d.nk > 0,
            d.conv_dim == d.key_dim * 2 + d.value_dim,
            d.conv_dim * 4 <= usize::MAX,
            d.nv * 4 <= usize::MAX,
        ensures
            final(plan)@ == self.gdn_row(cx, old(plan)@, d, normed, state, stream, trace),
    {
        let b = cx.buffers;
        let beta: DevicePtr = b.ssm_gates.offset(d.nv * 4);
        enqueue(
            plan,
            stream,
            Op::DenseGemvBaGates(
                self.k.ba_gates, normed, self.ssm.in_proj_ba, self.ssm.a_log.weight,
                self.ssm.dt_bias.weight, b.ssm_gates, beta, d.ba as u32, d.h as u32,
                (d.nv / d.nk) as u32,
            ),
        );
        enqueue_timed(plan, cx.profile, stream);
        enqueue_timed(plan, trace, stream);
        enqueue(plan, stream, self.conv_op_exec(cx, d, state));
        enqueue_timed(plan, trace, stream);
        let conv: DevicePtr = self.conv_out_exec(cx);
        let elem: usize = if self.k.conv1d_l2norm_f32.0 != 0 {
            4
        } else {
            2
        };
        let f32_gdn: bool = self.k.gdn_f32.0 != 0 && self.k.gated_rms_norm_f32.0 != 0;
        let gdn_out: DevicePtr = if f32_gdn {
            b.ssm_conv_out_f32.offset(d.conv_dim * 4)
        } else {
            b.attn_output
        };
        let gdn_k: KernelHandle = if f32_gdn {
            self.k.gdn_f32
        } else {
            self.k.gdn
        };
        enqueue(
            plan,
            stream,
            Op::GdnDecode(
                gdn_k, state.h_state, conv, conv.offset(d.key_dim * elem),
                conv.offset(d.key_dim * 2 * elem), b.ssm_gates, beta, gdn_out, 1, d.nk as u32,
                d.nv as u32, d.kd as u32, d.vd as u32,
            ),
        );
        enqueue_timed(plan, trace, stream);
        let norm_k: KernelHandle = if f32_gdn {
            self.k.gated_rms_norm_f32
        } else {
            self.k.gated_rms_norm
        };
        enqueue(
            plan,
            stream,
            Op::GatedRmsNorm(
                norm_k, gdn_out, b.ssm_deinterleaved.offset(d.conv_dim * 2), self.ssm.norm,
                b.ssm_qkvz, d.nv as u32, d.vd as u32, d.vd as u32, cx.rms_norm_eps, d.vd as u32,
            ),
        );
        enqueue_timed(plan, trace, stream);
        enqueue(
            plan,
            stream,
            self.out_proj_op(b.ssm_qkvz, b.moe_output, d.h as u32, d.value_dim as u32),
        );
        enqueue_timed(plan, trace, stream);
    }

    /// Every extent and byte count of one row is representable; there is a key
    /// head.
    pub open spec fn row_fits(&self, cx: &ForwardContext) -> bool {
        let d = SsmDims::of(cx);
        &&& SsmDims::fit(cx)
        &&& d.nk > 0
        &&& d.conv_dim * 4 <= usize::MAX
        &&& d.nv * 4 <= usize::MAX
        &&& self.kda_mode ==> d.nv * d.kd * 4 <= usize::MAX
    }

    /// Steps of one row, behind `s`.
    pub open spec fn row_plan(
        &self,
        cx: &ForwardContext,
        s: Seq<Step>,
        normed: DevicePtr,
        state: SsmState,
        stream: u64,
        trace: bool,
    ) -> Seq<Step> {
        let d = SsmDims::of(cx);
        if self.kda_mode {
            self.kda_row(cx, s, d, normed, state, stream, trace)
        } else {
            let s = timed(self.qkvz_row(cx, s, d, normed, stream), cx.profile, stream);
            let s = timed(s, trace, stream);
            self.gdn_row(cx, s, d, normed, state, stream, trace)
        }
    }

    /// Whether one row runs to its end, and with which output.
    pub open spec fn row_result(&self, cx: &ForwardContext) -> Result<DevicePtr, SsmError> {
        if self.kda_mode && self.k.gated_rms_norm_f32.0 == 0 {
            Err(SsmError::KdaNeedsF32Norm)
        } else {
            Ok(cx.buffers.moe_output)
        }
    }

    /// Plans one row of the mixing part. The steps are appended to `plan` also
    /// when the row stops with an error: they come before it. With `trace`
    /// there is a wait after each stage, where its output can be read.
    pub fn ssm_forward(
        &self,
        cx: &ForwardContext,
        plan: &mut Vec<Step>,
        normed: DevicePtr,
        state: SsmState,
        stream: u64,
        trace: bool,
    ) -> (r: Result<DevicePtr, SsmError>)
        requires
            self.row_fits(cx),
        ensures
            final(plan)@ == self.row_plan(cx, old(plan)@, normed, state, stream, trace),
            r == self.row_result(cx),
    {
        let d: SsmDims = SsmDims::read(cx);
        if self.kda_mode {
            return self.ssm_forward_kda(cx, plan, normed, state, stream, trace);
        }
        self.plan_qkvz_row(cx, plan, d, normed, stream);
        enqueue_timed(plan, cx.profile, stream);
        enqueue_timed(plan, trace, stream);
        self.plan_gdn_row(cx, plan, d, normed, state, stream, trace);
        Ok(cx.buffers.moe_output)
    }
}

} // verus!
