//! The shared expert on all rows of a prefill.

use crate::context::ForwardContext;
use crate::gpu::{DevicePtr, QuantizedWeight};
use crate::moe::MoeLayer;
use crate::plan::{enqueue, on, Op, Step};
use vstd::prelude::*;

verus! {

impl MoeLayer {
    /// Gate and up projections of the shared expert, in the best format that
    /// the layer holds: FP8, dense, transposed 4-bit, plain 4-bit.
    pub open spec fn shared_gate_up(
        &self,
        cx: &ForwardContext,
        s: Seq<Step>,
        input: DevicePtr,
        n: u32,
        h: u32,
        shared_inter: u32,
        aux: u64,
    ) -> Seq<Step> {
        let g = cx.buffers.ssm_deinterleaved;
        let u = cx.buffers.ssm_qkvz;
        if self.shared_gate_fp8 is Some && self.shared_up_fp8 is Some {
            let s1 = on(
                s,
                aux,
                Op::Fp8GemmN128(
                    self.k.fp8_gemm, input, self.shared_gate_fp8->0, g, n, shared_inter, h,
                ),
            );
            on(
                s1,
                aux,
                Op::Fp8GemmN128(
                    self.k.fp8_gemm, input, self.shared_up_fp8->0, u, n, shared_inter, h,
                ),
            )
        } else if self.shared_gate_dense is Some && self.shared_up_dense is Some
            && self.shared_down_dense is Some {
            let s1 = on(
                s,
                aux,
                Op::DenseGemm(
                    self.k.dense_gemm, input, self.shared_gate_dense->0, g, n, shared_inter, h,
                ),
            );
            on(
                s1,
                aux,
                Op::DenseGemm(
                    self.k.dense_gemm, input, self.shared_up_dense->0, u, n, shared_inter, h,
                ),
            )
        } else if self.shared_gate_t is Some && self.shared_up_t is Some
            && self.shared_down_t is Some {
            let s1 = on(
                s,
                aux,
                Op::W4a16GemmN128(
                    self.k.w4a16_gemm_t, input, self.shared_gate_t->0, g, n, shared_inter, h,
                ),
            );
            on(
                s1,
                aux,
                Op::W4a16GemmN128(
                    self.k.w4a16_gemm_t, input, self.shared_up_t->0, u, n, shared_inter, h,
                ),
            )
        } else {
            let s1 = on(
                s,
                aux,
                Op::W4a16Gemm(
                    self.k.w4a16_gemm, input, self.weights.shared_expert.gate_proj, g, n,
                    shared_inter, h,
                ),
            );
            on(
                s1,
                aux,
                Op::W4a16Gemm(
                    self.k.w4a16_gemm, input, self.weights.shared_expert.up_proj, u, n,
                    shared_inter, h,
                ),
            )
        }
    }

    /// Down projection of the shared expert: FP8, transposed 4-bit, dense,
    /// plain 4-bit, whichever is held first in this order.
    pub open spec fn shared_down(
        &self,
        cx: &ForwardContext,
        n: u32,
        h: u32,
        shared_inter: u32,
    ) -> Op {
        let x = cx.buffers.ssm_deinterleaved;
        let out = cx.buffers.attn_output;
        match (self.shared_down_fp8, self.shared_down_t, self.shared_down_dense) {
            (Some(w), _, _) => Op::Fp8GemmN128(self.k.fp8_gemm, x, w, out, n, h, shared_inter),
            (None, Some(w), _) => Op::W4a16GemmN128(
                self.k.w4a16_gemm_t, x, w, out, n, h, shared_inter,
            ),
            (None, None, Some(w)) => Op::DenseGemm(
                self.k.dense_gemm, x, w, out, n, h, shared_inter,
            ),
            (None, None, None) => Op::W4a16Gemm(
                self.k.w4a16_gemm, x, self.weights.shared_expert.down_proj, out, n, h,
                shared_inter,
            ),
        }
    }

    /// The shared expert, on the stream `aux`. With overlap, `aux` first waits
    /// for what `stream` has enqueued and marks its own end.
    pub open spec fn shared_expert(
        &self,
        cx: &ForwardContext,
        s: Seq<Step>,
        input: DevicePtr,
        n: u32,
        h: u32,
        shared_inter: u32,
        aux: u64,
        stream: u64,
        overlap: bool,
    ) -> Seq<Step> {
        if shared_inter == 0 {
            s
        } else {
            let s = if overlap {
                on(on(s, stream, Op::RecordEvent(self.event_a)), aux, Op::WaitEvent(self.event_a))
            } else {
                s
            };
            let s = self.shared_gate_up(cx, s, input, n, h, shared_inter, aux);
            let s = on(
                s,
                aux,
                Op::SiluMul(
                    self.k.act_mul, cx.buffers.ssm_deinterleaved, cx.buffers.ssm_qkvz,
                    cx.buffers.ssm_deinterleaved, (n * shared_inter) as u32,
                ),
            );
            let s = on(s, aux, self.shared_down(cx, n, h, shared_inter));
            if overlap {
                on(s, aux, Op::RecordEvent(self.event_b))
            } else {
                s
            }
        }
    }

    pub(crate) fn run_shared_expert_prefill(
        &self,
        cx: &ForwardContext,
        plan: &mut Vec<Step>,
        input: DevicePtr,
        n: u32,
        h: u32,
        shared_inter: u32,
        aux: u64,
        stream: u64,
        overlap: bool,
    )
        requires
            n * shared_inter <= u32::MAX,
        ensures
            final(plan)@ == self.shared_expert(
                cx,
                old(plan)@,
                input,
                n,
                h,
                shared_inter,
                aux,
                stream,
                overlap,
            ),
    {
        if shared_inter == 0 {
            return;
        }
        if overlap {
            enqueue(plan, stream, Op::RecordEvent(self.event_a));
            enqueue(plan, aux, Op::WaitEvent(self.event_a));
        }
        let g: DevicePtr = cx.buffers.ssm_deinterleaved;
        let u: DevicePtr = cx.buffers.ssm_qkvz;
        if self.shared_gate_fp8.is_some() && self.shared_up_fp8.is_some() {
            let wg: DevicePtr = self.shared_gate_fp8.unwrap();
            let wu: DevicePtr = self.shared_up_fp8.unwrap();
            enqueue(plan, aux, Op::Fp8GemmN128(self.k.fp8_gemm, input, wg, g, n, shared_inter, h));
            enqueue(plan, aux, Op::Fp8GemmN128(self.k.fp8_gemm, input, wu, u, n, shared_inter, h));
        } else if self.shared_gate_dense.is_some() && self.shared_up_dense.is_some()
            && self.shared_down_dense.is_some() {
            let wg = self.shared_gate_dense.unwrap();
            let wu = self.shared_up_dense.unwrap();
            enqueue(plan, aux, Op::DenseGemm(self.k.dense_gemm, input, wg, g, n, shared_inter, h));
            enqueue(plan, aux, Op::DenseGemm(self.k.dense_gemm, input, wu, u, n, shared_inter, h));
        } else if self.shared_gate_t.is_some() && self.shared_up_t.is_some()
            && self.shared_down_t.is_some() {
            let wg: QuantizedWeight = self.shared_gate_t.unwrap();
            let wu: QuantizedWeight = self.shared_up_t.unwrap();
            enqueue(
                plan,
                aux,
                Op::W4a16GemmN128(self.k.w4a16_gemm_t, input, wg, g, n, shared_inter, h),
            );
            enqueue(
                plan,
                aux,
                Op::W4a16GemmN128(self.k.w4a16_gemm_t, input, wu, u, n, shared_inter, h),
            );
        } else {
            let sh = self.weights.shared_expert;
            enqueue(
                plan,
                aux,
                Op::W4a16Gemm(self.k.w4a16_gemm, input, sh.gate_proj, g, n, shared_inter, h),
            );
            enqueue(
                plan,
                aux,
                Op::W4a16Gemm(self.k.w4a16_gemm, input, sh.up_proj, u, n, shared_inter, h),
            );
        }
        enqueue(plan, aux, Op::SiluMul(self.k.act_mul, g, u, g, n * shared_inter));
        let out: DevicePtr = cx.buffers.attn_output;
        let op: Op = if let Some(w) = self.shared_down_fp8 {
            Op::Fp8GemmN128(self.k.fp8_gemm, g, w, out, n, h, shared_inter)
        } else if let Some(w) = self.shared_down_t {
            Op::W4a16GemmN128(self.k.w4a16_gemm_t, g, w, out, n, h, shared_inter)
        } else if let Some(w) = self.shared_down_dense {
            Op::DenseGemm(self.k.dense_gemm, g, w, out, n, h, shared_inter)
        } else {
            Op::W4a16Gemm(
                self.k.w4a16_gemm, g, self.weights.shared_expert.down_proj, out, n, h,
                shared_inter,
            )
        };
        enqueue(plan, aux, op);
        if overlap {
            enqueue(plan, aux, Op::RecordEvent(self.event_b));
        }
    }
}

} // verus!
