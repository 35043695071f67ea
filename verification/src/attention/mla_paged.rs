//! Latent-attention prefill that stores its rows in the paged cache and attends
//! over the rows of the batch.

use crate::attention::types::{AttentionKernels, MlaWeights, Qwen3AttentionLayer};
use crate::context::ForwardContext;
use crate::gpu::{AttnMetadataDev, Buffers, DenseWeight, DevicePtr, KernelHandle};
use crate::num::span;
use crate::plan::{enqueue, enqueue_timed, on, timed, Op, Step};
use vstd::prelude::*;

verus! {

/// Arguments of the prefill.
#[derive(Clone, Copy, PartialEq, Eq, Structural, Debug)]
pub struct MlaPrefillArgs {
    pub normed: DevicePtr,
    pub num_tokens: usize,
    pub n: u32,
    pub h: u32,
    pub nq: u32,
    pub nkv: u32,
    pub kv_dim: usize,
    /// f32 bits.
    pub eps: u32,
    /// Bytes per activation element.
    pub bf16: usize,
    /// Rows per cache block.
    pub bs: u32,
    pub stream: u64,
    /// Wait after every operation.
    pub sync_each: bool,
    /// `1 / sqrt(nope + rope)`, f32 bits.
    pub default_scale: u32,
}

/// What the planner works from.
#[derive(Clone, Copy, PartialEq, Eq, Structural, Debug)]
pub struct MlaPaged {
    pub k: AttentionKernels,
    pub m: MlaWeights,
    pub b: Buffers,
    pub meta: AttnMetadataDev,
    pub a: MlaPrefillArgs,
    pub layer: usize,
    pub scale: u32,
    pub window: u32,
    pub theta: u32,
    pub graph_capture: bool,
}

impl MlaPaged {
    pub open spec fn q_lora(self) -> u32 {
        self.m.q_lora_rank as u32
    }

    pub open spec fn kv_lora(self) -> u32 {
        self.m.kv_lora_rank as u32
    }

    pub open spec fn nope(self) -> u32 {
        self.m.nope as u32
    }

    pub open spec fn rope(self) -> u32 {
        self.m.rope as u32
    }

    pub open spec fn v_dim(self) -> u32 {
        self.m.v_dim as u32
    }

    pub open spec fn hd(self) -> u32 {
        (self.nope() + self.rope()) as u32
    }

    pub open spec fn q_width(self) -> u32 {
        (self.a.nq * self.hd()) as u32
    }

    pub open spec fn cache_dim(self) -> u32 {
        (self.kv_lora() + self.rope()) as u32
    }

    pub open spec fn kv_width(self) -> u32 {
        (self.a.nkv * (self.nope() + self.v_dim())) as u32
    }

    pub open spec fn v_rows(self) -> DevicePtr {
        self.b.ssm_qkvz.at(self.a.num_tokens * self.a.kv_dim * self.a.bf16)
    }

    /// Value half of the assembled cache rows, right behind the key half.
    pub open spec fn v_cache_rows(self) -> DevicePtr {
        self.b.expert_down_out.at(self.a.num_tokens * self.cache_dim() * self.a.bf16)
    }

    pub open spec fn fits(self) -> bool {
        &&& self.nope() + self.rope() <= u32::MAX
        &&& self.kv_lora() + self.rope() <= u32::MAX
        &&& self.nope() + self.v_dim() <= u32::MAX
        &&& self.a.nq * self.hd() <= u32::MAX
        &&& self.a.nq * self.v_dim() <= u32::MAX
        &&& self.a.nkv * (self.nope() + self.v_dim()) <= u32::MAX
        &&& self.a.num_tokens * self.a.kv_dim <= usize::MAX
        &&& self.a.num_tokens * self.a.kv_dim * self.a.bf16 <= usize::MAX
        &&& self.a.num_tokens * self.cache_dim() <= usize::MAX
        &&& self.a.num_tokens * self.cache_dim() * self.a.bf16 <= usize::MAX
    }

    /// One operation, with a wait when every operation is waited for.
    pub open spec fn run(self, s: Seq<Step>, op: Op) -> Seq<Step> {
        timed(on(s, self.a.stream, op), self.a.sync_each, self.a.stream)
    }

    fn plan_run(&self, plan: &mut Vec<Step>, op: Op)
        ensures
            final(plan)@ == self.run(old(plan)@, op),
    {
        enqueue(plan, self.a.stream, op);
        enqueue_timed(plan, self.a.sync_each, self.a.stream);
    }

    pub open spec fn gemm(
        self, x: DevicePtr, w: DenseWeight, out: DevicePtr, n: u32, kd: u32,
    ) -> Op {
        Op::DenseGemm(self.k.dense_gemm, x, w, out, self.a.n, n, kd)
    }

    fn gemm_op(&self, x: DevicePtr, w: DenseWeight, out: DevicePtr, n: u32, kd: u32) -> (r: Op)
        ensures
            r == self.gemm(x, w, out, n, kd),
    {
        Op::DenseGemm(self.k.dense_gemm, x, w, out, self.a.n, n, kd)
    }

    /// Query, latent rows, expanded rows and rope keys.
    pub open spec fn project(self, s: Seq<Step>) -> Seq<Step> {
        let b = self.b;
        let n = self.a.n;
        let normed = self.a.normed;
        let s = self.run(s, self.gemm(normed, self.m.wq_a, b.ssm_ba, self.q_lora(), self.a.h));
        let s = if self.m.q_a_norm.weight.0 != 0 {
            on(
                s,
                self.a.stream,
                Op::RmsNorm(
                    self.k.rms_norm, b.ssm_ba, self.m.q_a_norm, b.ssm_ba, n, self.q_lora(),
                    self.a.eps,
                ),
            )
        } else {
            s
        };
        let s = timed(s, self.a.sync_each, self.a.stream);
        let s = self.run(
            s,
            self.gemm(b.ssm_ba, self.m.wq_b, b.attn_output, self.q_width(), self.q_lora()),
        );
        let s = self.run(
            s,
            self.gemm(normed, self.m.wkv_a, b.expert_gate_out, self.kv_lora(), self.a.h),
        );
        let s = self.run(
            s,
            Op::RmsNorm(
                self.k.rms_norm, b.expert_gate_out, self.m.kv_a_norm, b.expert_gate_out, n,
                self.kv_lora(), self.a.eps,
            ),
        );
        let s = self.run(
            s,
            self.gemm(
                b.expert_gate_out, self.m.wkv_b, b.ssm_deinterleaved, self.kv_width(),
                self.kv_lora(),
            ),
        );
        self.run(s, self.gemm(normed, self.m.wkv_a_rope, b.ssm_ba, self.rope(), self.a.h))
    }

    fn plan_project(&self, plan: &mut Vec<Step>)
        requires
            self.fits(),
        ensures
            final(plan)@ == self.project(old(plan)@),
    {
        let b = self.b;
        let n: u32 = self.a.n;
        let normed: DevicePtr = self.a.normed;
        let q_lora: u32 = self.m.q_lora_rank as u32;
        let kv_lora: u32 = self.m.kv_lora_rank as u32;
        let nope: u32 = self.m.nope as u32;
        let rope: u32 = self.m.rope as u32;
        let kv_width: u32 = self.a.nkv * (nope + self.m.v_dim as u32);
        self.plan_run(plan, self.gemm_op(normed, self.m.wq_a, b.ssm_ba, q_lora, self.a.h));
        if self.m.q_a_norm.weight.0 != 0 {
            enqueue(
                plan,
                self.a.stream,
                Op::RmsNorm(
                    self.k.rms_norm, b.ssm_ba, self.m.q_a_norm, b.ssm_ba, n, q_lora, self.a.eps,
                ),
            );
        }
        enqueue_timed(plan, self.a.sync_each, self.a.stream);
        self.plan_run(
            plan,
            self.gemm_op(b.ssm_ba, self.m.wq_b, b.attn_output, self.a.nq * (nope + rope), q_lora),
        );
        self.plan_run(
            plan,
            self.gemm_op(normed, self.m.wkv_a, b.expert_gate_out, kv_lora, self.a.h),
        );
        self.plan_run(
            plan,
            Op::RmsNorm(
                self.k.rms_norm, b.expert_gate_out, self.m.kv_a_norm, b.expert_gate_out, n,
                kv_lora, self.a.eps,
            ),
        );
        self.plan_run(
            plan,
            self.gemm_op(b.expert_gate_out, self.m.wkv_b, b.ssm_deinterleaved, kv_width, kv_lora),
        );
        self.plan_run(plan, self.gemm_op(normed, self.m.wkv_a_rope, b.ssm_ba, rope, self.a.h));
    }

    /// Rotation, keys and values of the batch, cache rows.
    pub open spec fn rotate_and_store(self, s: Seq<Step>) -> Seq<Step> {
        let b = self.b;
        let n = self.a.n;
        let nq = self.a.nq;
        let cd = self.cache_dim();
        let s = self.run(
            s,
            Op::MlaQRopeExtractBatched(
                self.k.mla_q_rope_extract_batched, b.attn_output, b.ssm_conv_out_f32, n, nq,
                self.hd(), self.nope(), self.rope(), self.q_width(),
            ),
        );
        let s = self.run(
            s,
            Op::RopeYarn(
                self.k.rope_yarn, b.ssm_conv_out_f32, b.ssm_ba, self.meta.positions, n, nq, 1,
                self.rope(), self.rope(), self.m.yarn_inv_freq, self.theta,
            ),
        );
        let s = self.run(
            s,
            Op::MlaQRopeWritebackBatched(
                self.k.mla_q_rope_writeback_batched, b.ssm_conv_out_f32, b.attn_output, n, nq,
                self.hd(), self.nope(), self.rope(), self.q_width(),
            ),
        );
        let s = self.run(
            s,
            Op::MlaKvAssembleBatched(
                self.k.mla_kv_assemble_batched, b.ssm_deinterleaved, b.ssm_ba, b.ssm_qkvz,
                self.v_rows(), n, self.a.nkv, self.nope(), self.v_dim(), self.rope(), self.hd(),
                self.kv_width(),
            ),
        );
        let s = self.run(
            s,
            Op::MlaCacheAssembleBatched(
                self.k.mla_cache_assemble_batched, b.expert_gate_out, b.ssm_ba, b.expert_down_out,
                self.v_cache_rows(), n, self.kv_lora(), self.rope(), cd,
            ),
        );
        on(
            s,
            self.a.stream,
            Op::WriteKvCache(
                self.layer, b.expert_down_out, self.v_cache_rows(), self.meta.slot, n, 1, cd,
                self.a.bs, cd, cd, self.graph_capture,
            ),
        )
    }

    fn plan_rotate_and_store(&self, plan: &mut Vec<Step>)
        requires
            self.fits(),
        ensures
            final(plan)@ == self.rotate_and_store(old(plan)@),
    {
        let b = self.b;
        let n: u32 = self.a.n;
        let nq: u32 = self.a.nq;
        let kv_lora: u32 = self.m.kv_lora_rank as u32;
        let nope: u32 = self.m.nope as u32;
        let rope: u32 = self.m.rope as u32;
        let v_dim: u32 = self.m.v_dim as u32;
        let hd: u32 = nope + rope;
        let cd: u32 = kv_lora + rope;
        let kv_width: u32 = self.a.nkv * (nope + v_dim);
        self.plan_run(
            plan,
            Op::MlaQRopeExtractBatched(
                self.k.mla_q_rope_extract_batched, b.attn_output, b.ssm_conv_out_f32, n, nq, hd,
                nope, rope, nq * hd,
            ),
        );
        self.plan_run(
            plan,
            Op::RopeYarn(
                self.k.rope_yarn, b.ssm_conv_out_f32, b.ssm_ba, self.meta.positions, n, nq, 1,
                rope, rope, self.m.yarn_inv_freq, self.theta,
            ),
        );
        self.plan_run(
            plan,
            Op::MlaQRopeWritebackBatched(
                self.k.mla_q_rope_writeback_batched, b.ssm_conv_out_f32, b.attn_output, n, nq, hd,
                nope, rope, nq * hd,
            ),
        );
        let v_rows: DevicePtr = b.ssm_qkvz.offset(
            span(self.a.num_tokens, self.a.kv_dim, self.a.bf16),
        );
        self.plan_run(
            plan,
            Op::MlaKvAssembleBatched(
                self.k.mla_kv_assemble_batched, b.ssm_deinterleaved, b.ssm_ba, b.ssm_qkvz, v_rows,
                n, self.a.nkv, nope, v_dim, rope, hd, kv_width,
            ),
        );
        let v_cache: DevicePtr = b.expert_down_out.offset(
            span(self.a.num_tokens, cd as usize, self.a.bf16),
        );
        self.plan_run(
            plan,
            Op::MlaCacheAssembleBatched(
                self.k.mla_cache_assemble_batched, b.expert_gate_out, b.ssm_ba, b.expert_down_out,
                v_cache, n, kv_lora, rope, cd,
            ),
        );
        enqueue(
            plan,
            self.a.stream,
            Op::WriteKvCache(
                self.layer, b.expert_down_out, v_cache, self.meta.slot, n, 1, cd, self.a.bs, cd,
                cd, self.graph_capture,
            ),
        );
    }

    /// Wide heads have a kernel of their own, where it is loaded.
    pub open spec fn flash_kernel(self) -> KernelHandle {
        if self.hd() > 256 && self.k.prefill_attn_512.0 != 0 {
            self.k.prefill_attn_512
        } else {
            self.k.prefill_attn
        }
    }

    pub open spec fn attend(self, s: Seq<Step>) -> Seq<Step> {
        let b = self.b;
        let wo_k = (self.a.nq * self.v_dim()) as u32;
        let s = self.run(
            s,
            Op::PrefillAttention(
                self.flash_kernel(), b.attn_output, b.ssm_qkvz, self.v_rows(), b.attn_output,
                self.a.n, 1, self.a.nq, self.a.nkv, self.hd(), self.scale, true, self.window,
            ),
        );
        self.run(
            s,
            match self.m.wo_nvfp4 {
                Some(w) => Op::W4a16Gemm(
                    self.k.w4a16_gemm, b.attn_output, w, b.norm_output, self.a.n, self.a.h, wo_k,
                ),
                None => Op::DenseGemm(
                    self.k.dense_gemm, b.attn_output, self.m.wo, b.norm_output, self.a.n,
                    self.a.h, wo_k,
                ),
            },
        )
    }

    fn plan_attend(&self, plan: &mut Vec<Step>)
        requires
            self.fits(),
        ensures
            final(plan)@ == self.attend(old(plan)@),
    {
        let b = self.b;
        let v_dim: u32 = self.m.v_dim as u32;
        let hd: u32 = self.m.nope as u32 + self.m.rope as u32;
        let v_rows: DevicePtr = b.ssm_qkvz.offset(
            span(self.a.num_tokens, self.a.kv_dim, self.a.bf16),
        );
        let flash: KernelHandle = if hd > 256 && self.k.prefill_attn_512.0 != 0 {
            self.k.prefill_attn_512
        } else {
            self.k.prefill_attn
        };
        self.plan_run(
            plan,
            Op::PrefillAttention(
                flash, b.attn_output, b.ssm_qkvz, v_rows, b.attn_output, self.a.n, 1, self.a.nq,
                self.a.nkv, hd, self.scale, true, self.window,
            ),
        );
        let wo_k: u32 = self.a.nq * v_dim;
        match self.m.wo_nvfp4 {
            Some(w) => self.plan_run(
                plan,
                Op::W4a16Gemm(
                    self.k.w4a16_gemm, b.attn_output, w, b.norm_output, self.a.n, self.a.h, wo_k,
                ),
            ),
            None => self.plan_run(
                plan,
                Op::DenseGemm(
                    self.k.dense_gemm, b.attn_output, self.m.wo, b.norm_output, self.a.n,
                    self.a.h, wo_k,
                ),
            ),
        }
    }

    /// The whole prefill.
    pub open spec fn steps(self) -> Seq<Step> {
        self.attend(self.rotate_and_store(self.project(Seq::empty())))
    }
}

impl Qwen3AttentionLayer {
    pub open spec fn mla_paged(&self, cx: &ForwardContext, args: &MlaPrefillArgs) -> MlaPaged {
        MlaPaged {
            k: self.k,
            m: self.mla->0,
            b: cx.buffers,
            meta: cx.attn_metadata->0,
            a: *args,
            layer: self.attn_layer_idx,
            scale: self.spec_attn_scale(args.default_scale),
            window: match self.sliding_window {
                Some(w) => w,
                None => 0,
            },
            theta: cx.rope_theta,
            graph_capture: cx.graph_capture,
        }
    }

    /// Plans the prefill. Returns the plan and the buffer that holds the output
    /// projection.
    pub fn prefill_attention_paged_mla(
        &self,
        cx: &ForwardContext,
        args: &MlaPrefillArgs,
    ) -> (r: (Vec<Step>, DevicePtr))
        requires
            self.mla is Some,
            cx.attn_metadata is Some,
            self.mla_paged(cx, args).fits(),
        ensures
            r.0@ == self.mla_paged(cx, args).steps(),
            r.1 == cx.buffers.norm_output,
    {
        let p = MlaPaged {
            k: self.k,
            m: self.mla.unwrap(),
            b: cx.buffers,
            meta: cx.attn_metadata.unwrap(),
            a: *args,
            layer: self.attn_layer_idx,
            scale: self.effective_attn_scale(args.default_scale),
            window: match self.sliding_window {
                Some(w) => w,
                None => 0,
            },
            theta: cx.rope_theta,
            graph_capture: cx.graph_capture,
        };
        let mut plan: Vec<Step> = Vec::new();
        p.plan_project(&mut plan);
        p.plan_rotate_and_store(&mut plan);
        p.plan_attend(&mut plan);
        (plan, cx.buffers.norm_output)
    }
}

} // verus!
