//! Second half of a two-phase prefill: gated norm, output projection and
//! feed-forward part of one chunk of rows. Also the layer's state.

use crate::context::ForwardContext;
use crate::gpu::DevicePtr;
use crate::num::span;
use crate::plan::{enqueue, on, GdnPrefillBuffers, Op, SsmState, Step};
use crate::ssm::Qwen3SsmLayer;
use vstd::prelude::*;

verus! {

impl Qwen3SsmLayer {
    pub open spec fn value_dim(cx: &ForwardContext) -> usize {
        (cx.config.linear_num_value_heads * cx.config.linear_value_head_dim) as usize
    }

    /// Every extent and byte count of a chunk is representable. When dense
    /// projections are asked for and there is no dense one, the transposed
    /// 4-bit one takes its place and is there.
    pub open spec fn phase3_fits(
        &self,
        cx: &ForwardContext,
        num_tokens: usize,
        token_offset: usize,
        dense_out: bool,
    ) -> bool {
        &&& cx.config.linear_num_value_heads * cx.config.linear_value_head_dim <= usize::MAX
        &&& token_offset * Self::value_dim(cx) * 2 <= usize::MAX
        &&& num_tokens * cx.config.hidden_size <= usize::MAX
        &&& dense_out && self.out_proj_dense is None ==> self.out_proj_nvfp4_t is Some
    }

    /// The output projection of the chunk.
    pub open spec fn out_proj_rows(&self, cx: &ForwardContext, k: u32, dense_out: bool) -> Op {
        let x = cx.buffers.ssm_qkvz;
        let out = cx.buffers.moe_output;
        let h = cx.h();
        let vd = Self::value_dim(cx) as u32;
        match self.out_proj_dense {
            Some(w) => Op::DenseGemm(self.k.dense_gemm, x, w, out, k, h, vd),
            None => if dense_out {
                Op::W4a16GemmN128(
                    self.k.w4a16_gemm_t, x, self.out_proj_nvfp4_t->0, out, k, h, vd,
                )
            } else {
                match (self.out_proj_fp8, self.out_proj_nvfp4_t) {
                    (Some(w), _) => if k > 128 {
                        Op::Fp8GemmN128M128(self.k.fp8_gemm_t_m128, x, w, out, k, h, vd)
                    } else {
                        Op::Fp8GemmN128(self.k.fp8_gemm, x, w, out, k, h, vd)
                    },
                    (None, Some(w)) => Op::W4a16GemmN128(
                        self.k.w4a16_gemm_t, x, w, out, k, h, vd,
                    ),
                    (None, None) => Op::W4a16Gemm(
                        self.k.w4a16_gemm, x, self.ssm.out_proj, out, k, h, vd,
                    ),
                }
            },
        }
    }

    /// The plan of `prefill_phase3`.
    pub open spec fn phase3_plan(
        &self,
        cx: &ForwardContext,
        hidden: DevicePtr,
        residual: DevicePtr,
        num_tokens: usize,
        g: GdnPrefillBuffers,
        token_offset: usize,
        dense_out: bool,
        stream: u64,
    ) -> Seq<Step> {
        let k = num_tokens as u32;
        let vd = Self::value_dim(cx);
        let s = on(
            Seq::empty(),
            stream,
            Op::GatedRmsNormPrefill(
                self.k.gated_rms_norm_prefill, g.output.at(token_offset * vd * 2),
                g.z.at(token_offset * vd * 2), self.ssm.norm, cx.buffers.ssm_qkvz,
                cx.config.linear_num_value_heads as u32, cx.config.linear_value_head_dim as u32,
                cx.rms_norm_eps, k, vd as u32, vd as u32,
            ),
        );
        let s = on(s, stream, self.out_proj_rows(cx, k, dense_out));
        self.ffn_rows(cx, s, hidden, residual, num_tokens, stream)
    }

    /// Plans the second half of a prefill for one chunk of rows, the chunk that
    /// begins at row `token_offset` of the recurrence buffers.
    pub fn prefill_phase3(
        &self,
        cx: &ForwardContext,
        hidden: DevicePtr,
        residual: DevicePtr,
        num_tokens: usize,
        g: GdnPrefillBuffers,
        token_offset: usize,
        dense_out: bool,
        stream: u64,
    ) -> (r: Vec<Step>)
        requires
            self.phase3_fits(cx, num_tokens, token_offset, dense_out),
        ensures
            r@ == self.phase3_plan(
                cx,
                hidden,
                residual,
                num_tokens,
                g,
                token_offset,
                dense_out,
                stream,
            ),
    {
        let b = cx.buffers;
        let k: u32 = num_tokens as u32;
        let h: u32 = cx.config.hidden_size as u32;
        let nv: usize = cx.config.linear_num_value_heads;
        let vd: usize = cx.config.linear_value_head_dim;
        let value_dim: usize = nv * vd;
        let at: usize = span(token_offset, value_dim, 2);
        let mut plan: Vec<Step> = Vec::new();
        enqueue(
            &mut plan,
            stream,
            Op::GatedRmsNormPrefill(
                self.k.gated_rms_norm_prefill, g.output.offset(at), g.z.offset(at), self.ssm.norm,
                b.ssm_qkvz, nv as u32, vd as u32, cx.rms_norm_eps, k, value_dim as u32,
                value_dim as u32,
            ),
        );
        let x: DevicePtr = b.ssm_qkvz;
        let out: DevicePtr = b.moe_output;
        let n: u32 = value_dim as u32;
        let op: Op = if let Some(w) = self.out_proj_dense {
            Op::DenseGemm(self.k.dense_gemm, x, w, out, k, h, n)
        } else if dense_out {
            Op::W4a16GemmN128(
                self.k.w4a16_gemm_t, x, self.out_proj_nvfp4_t.unwrap(), out, k, h, n,
            )
        } else if let Some(w) = self.out_proj_fp8 {
            if k > 128 {
                Op::Fp8GemmN128M128(self.k.fp8_gemm_t_m128, x, w, out, k, h, n)
            } else {
                Op::Fp8GemmN128(self.k.fp8_gemm, x, w, out, k, h, n)
            }
        } else if let Some(w) = self.out_proj_nvfp4_t {
            Op::W4a16GemmN128(self.k.w4a16_gemm_t, x, w, out, k, h, n)
        } else {
            Op::W4a16Gemm(self.k.w4a16_gemm, x, self.ssm.out_proj, out, k, h, n)
        };
        enqueue(&mut plan, stream, op);
        self.plan_ffn_rows(cx, &mut plan, hidden, residual, num_tokens, stream);
        plan
    }

    /// The state that begins a sequence, from two fresh allocations of the
    /// layer's state sizes, and the steps that zero them.
    pub fn alloc_state(&self, h_state: DevicePtr, conv_state: DevicePtr, stream: u64) -> (r: (
        SsmState,
        Vec<Step>,
    ))
        ensures
            r.0 == (SsmState { h_state, conv_state }),
            r.1@ == seq![
                Step::On(stream, Op::Memset(h_state, 0, self.h_state_bytes)),
                Step::On(stream, Op::Memset(conv_state, 0, self.conv_state_bytes)),
            ],
    {
        let mut plan: Vec<Step> = Vec::new();
        enqueue(&mut plan, stream, Op::Memset(h_state, 0, self.h_state_bytes));
        enqueue(&mut plan, stream, Op::Memset(conv_state, 0, self.conv_state_bytes));
        (SsmState { h_state, conv_state }, plan)
    }
}

} // verus!
