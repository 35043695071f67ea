//! One row through a whole linear-attention layer.

use crate::context::ForwardContext;
use crate::gpu::DevicePtr;
use crate::plan::{enqueue, enqueue_timed, on, timed, Op, SsmState, Step};
use crate::ssm::{Qwen3SsmLayer, SsmError};
use vstd::prelude::*;

verus! {

impl Qwen3SsmLayer {
    /// Mixing part, norm, feed-forward part, residual. When the mixing part
    /// stops with an error, so does the layer.
    pub open spec fn decode_plan(
        &self,
        cx: &ForwardContext,
        hidden: DevicePtr,
        residual: DevicePtr,
        state: SsmState,
        ffn_out: DevicePtr,
        stream: u64,
        trace: bool,
    ) -> Seq<Step> {
        let normed = cx.buffers.norm_output;
        let h = cx.h();
        let s = on(
            Seq::empty(),
            stream,
            Op::RmsNormResidual(
                self.k.rms_norm_residual, hidden, self.input_norm, normed, residual, 1, h,
                cx.rms_norm_eps,
            ),
        );
        let s = self.row_plan(cx, s, normed, state, stream, trace);
        match self.row_result(cx) {
            Err(_) => s,
            Ok(out) => {
                let s = timed(s, cx.profile, stream);
                let s = on(
                    s,
                    stream,
                    Op::ResidualAddRmsNorm(
                        self.k.residual_add_rms_norm, hidden, out, self.post_attn_norm, normed,
                        residual, 1, h, cx.rms_norm_eps,
                    ),
                );
                let s = timed(s, trace && !cx.profile, stream);
                let s = on(s, stream, Op::FfnForward(normed, ffn_out));
                let s = timed(s, trace || cx.profile, stream);
                on(s, stream, Op::ResidualAdd(self.k.residual_add, hidden, ffn_out, h))
            },
        }
    }

    /// Plans one decode row. `ffn_out` is where the feed-forward part leaves its
    /// result. The plan holds what runs, also before an error. With `trace` it
    /// waits after each stage.
    pub fn decode(
        &self,
        cx: &ForwardContext,
        hidden: DevicePtr,
        residual: DevicePtr,
        state: SsmState,
        ffn_out: DevicePtr,
        stream: u64,
        trace: bool,
    ) -> (r: (Vec<Step>, Result<(), SsmError>))
        requires
            self.row_fits(cx),
        ensures
            r.0@ == self.decode_plan(cx, hidden, residual, state, ffn_out, stream, trace),
            match self.row_result(cx) {
                Ok(_) => r.1 is Ok,
                Err(e) => r.1 == Err::<(), SsmError>(e),
            },
    {
        let normed: DevicePtr = cx.buffers.norm_output;
        let h: u32 = cx.config.hidden_size as u32;
        let mut plan: Vec<Step> = Vec::new();
        enqueue(
            &mut plan,
            stream,
            Op::RmsNormResidual(
                self.k.rms_norm_residual, hidden, self.input_norm, normed, residual, 1, h,
                cx.rms_norm_eps,
            ),
        );
        match self.ssm_forward(cx, &mut plan, normed, state, stream, trace) {
            Err(e) => (plan, Err(e)),
            Ok(out) => {
                enqueue_timed(&mut plan, cx.profile, stream);
                enqueue(
                    &mut plan,
                    stream,
                    Op::ResidualAddRmsNorm(
                        self.k.residual_add_rms_norm, hidden, out, self.post_attn_norm, normed,
                        residual, 1, h, cx.rms_norm_eps,
                    ),
                );
                enqueue_timed(&mut plan, trace && !cx.profile, stream);
                enqueue(&mut plan, stream, Op::FfnForward(normed, ffn_out));
                enqueue_timed(&mut plan, trace || cx.profile, stream);
                enqueue(
                    &mut plan,
                    stream,
                    Op::ResidualAdd(self.k.residual_add, hidden, ffn_out, h),
                );
                (plan, Ok(()))
            },
        }
    }
}

} // verus!
