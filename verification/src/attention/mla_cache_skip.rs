//! Latent-attention prefill of a prompt whose rows are all new.
//!
//! The rows are projected, rotated and stored in the paged cache, and attention
//! runs on the expanded keys and values that are still at hand, not on the
//! cache. Every operation is followed by a wait, except for those that only
//! feed the cache.

use crate::attention::init::LatentKernels;
use crate::attention::types::{AttentionKernels, MlaWeights, Qwen3AttentionLayer};
use crate::context::ForwardContext;
use crate::gpu::{AttnMetadataDev, Buffers, DenseWeight, DevicePtr, KernelHandle};
use crate::kernels::KernelTable;
use crate::num::span;
use crate::plan::{enqueue, enqueue_synced, on, on_synced, Op, Step};
use vstd::prelude::*;

verus! {

/// Arguments of the prefill.
#[derive(Clone, Copy, PartialEq, Eq, Structural, Debug)]
pub struct CacheSkipMlaArgs {
    pub normed: DevicePtr,
    pub num_tokens: usize,
    pub n: u32,
    pub h: u32,
    pub nq: u32,
    pub nkv: u32,
    pub kv_dim: usize,
    /// f32 bits.
    pub eps: u32,
    /// Bytes per activation element.
    pub bf16: usize,
    /// Rows per cache block.
    pub bs: usize,
    pub stream: u64,
    /// Keep the rope key off the tensor-core path.
    pub force_dense_rope: bool,
    /// `1 / sqrt(nope + rope)`, f32 bits.
    pub inv_sqrt_hd: u32,
}

/// What the planner works from.
#[derive(Clone, Copy, PartialEq, Eq, Structural, Debug)]
pub struct MlaCacheSkip {
    pub k: AttentionKernels,
    pub lk: LatentKernels,
    pub m: MlaWeights,
    pub b: Buffers,
    pub meta: AttnMetadataDev,
    pub a: CacheSkipMlaArgs,
    pub layer: usize,
    pub theta: u32,
    pub graph_capture: bool,
}

impl MlaCacheSkip {
    pub open spec fn q_lora(self) -> u32 {
        self.m.q_lora_rank as u32
    }

    pub open spec fn kv_lora(self) -> u32 {
        self.m.kv_lora_rank as u32
    }

    pub open spec fn nope(self) -> u32 {
        self.m.nope as u32
    }

    pub open spec fn rope(self) -> u32 {
        self.m.rope as u32
    }

    pub open spec fn v_dim(self) -> u32 {
        self.m.v_dim as u32
    }

    /// Width of a query head: the plain part and the rope part.
    pub open spec fn hd(self) -> u32 {
        (self.nope() + self.rope()) as u32
    }

    pub open spec fn q_width(self) -> u32 {
        (self.a.nq * self.hd()) as u32
    }

    pub open spec fn cache_dim(self) -> u32 {
        (self.kv_lora() + self.rope()) as u32
    }

    /// Width of an expanded key-value row.
    pub open spec fn kv_width(self) -> u32 {
        (self.a.nkv * (self.nope() + self.v_dim())) as u32
    }

    /// The tensor-core product needs a whole number of 16-row tiles.
    pub open spec fn use_tc(self) -> bool {
        self.k.dense_gemm_tc.0 != 0 && self.a.n % 16 == 0
    }

    pub open spec fn v_rows(self) -> DevicePtr {
        self.b.ssm_qkvz.at(self.a.num_tokens * self.a.kv_dim * self.a.bf16)
    }

    pub open spec fn fits(self) -> bool {
        &&& self.nope() + self.rope() <= u32::MAX
        &&& self.kv_lora() + self.rope() <= u32::MAX
        &&& self.nope() + self.v_dim() <= u32::MAX
        &&& self.a.nq * self.hd() <= u32::MAX
        &&& self.a.nq * self.v_dim() <= u32::MAX
        &&& self.a.nkv * (self.nope() + self.v_dim()) <= u32::MAX
        &&& self.a.num_tokens * self.a.kv_dim <= usize::MAX
        &&& self.a.num_tokens * self.a.kv_dim * self.a.bf16 <= usize::MAX
    }

    /// A dense product, on tensor cores when `tc`.
    pub open spec fn gemm(
        self,
        tc: bool,
        x: DevicePtr,
        w: DenseWeight,
        out: DevicePtr,
        n: u32,
        kd: u32,
    ) -> Op {
        if tc {
            Op::DenseGemmTc(self.k.dense_gemm_tc, x, w, out, self.a.n, n, kd)
        } else {
            Op::DenseGemm(self.k.dense_gemm, x, w, out, self.a.n, n, kd)
        }
    }

    fn gemm_op(
        &self,
        tc: bool,
        x: DevicePtr,
        w: DenseWeight,
        out: DevicePtr,
        n: u32,
        kd: u32,
    ) -> (r: Op)
        ensures
            r == self.gemm(tc, x, w, out, n, kd),
    {
        if tc {
            Op::DenseGemmTc(self.k.dense_gemm_tc, x, w, out, self.a.n, n, kd)
        } else {
            Op::DenseGemm(self.k.dense_gemm, x, w, out, self.a.n, n, kd)
        }
    }

    /// Query, latent rows and rope keys.
    pub open spec fn project(self, s: Seq<Step>) -> Seq<Step> {
        let st = self.a.stream;
        let b = self.b;
        let n = self.a.n;
        let h = self.a.h;
        let tc = self.use_tc();
        let s = on_synced(
            s, st, self.gemm(tc, self.a.normed, self.m.wq_a, b.ssm_ba, self.q_lora(), h),
        );
        let s = if self.m.q_a_norm.weight.0 != 0 {
            on_synced(
                s,
                st,
                Op::RmsNorm(
                    self.k.rms_norm, b.ssm_ba, self.m.q_a_norm, b.ssm_ba, n, self.q_lora(),
                    self.a.eps,
                ),
            )
        } else {
            s
        };
        let s = on_synced(
            s,
            st,
            self.gemm(tc, b.ssm_ba, self.m.wq_b, b.qkv_output, self.q_width(), self.q_lora()),
        );
        let s = on_synced(
            s,
            st,
            self.gemm(tc, self.a.normed, self.m.wkv_a, b.expert_gate_out, self.kv_lora(), h),
        );
        let s = on_synced(
            s,
            st,
            Op::RmsNorm(
                self.k.rms_norm, b.expert_gate_out, self.m.kv_a_norm, b.expert_gate_out, n,
                self.kv_lora(), self.a.eps,
            ),
        );
        on_synced(
            s,
            st,
            self.gemm(
                tc && !self.a.force_dense_rope,
                self.a.normed,
                self.m.wkv_a_rope,
                b.ssm_ba,
                self.rope(),
                h,
            ),
        )
    }

    fn plan_project(&self, plan: &mut Vec<Step>)
        requires
            self.fits(),
        ensures
            final(plan)@ == self.project(old(plan)@),
    {
        let st: u64 = self.a.stream;
        let b = self.b;
        let n: u32 = self.a.n;
        let h: u32 = self.a.h;
        let q_lora: u32 = self.m.q_lora_rank as u32;
        let kv_lora: u32 = self.m.kv_lora_rank as u32;
        let hd: u32 = self.m.nope as u32 + self.m.rope as u32;
        let tc: bool = self.k.dense_gemm_tc.0 != 0 && n % 16 == 0;
        enqueue_synced(plan, st, self.gemm_op(tc, self.a.normed, self.m.wq_a, b.ssm_ba, q_lora, h));
        if self.m.q_a_norm.weight.0 != 0 {
            enqueue_synced(
                plan,
                st,
                Op::RmsNorm(
                    self.k.rms_norm, b.ssm_ba, self.m.q_a_norm, b.ssm_ba, n, q_lora, self.a.eps,
                ),
            );
        }
        enqueue_synced(
            plan,
            st,
            self.gemm_op(tc, b.ssm_ba, self.m.wq_b, b.qkv_output, self.a.nq * hd, q_lora),
        );
        enqueue_synced(
            plan,
            st,
            self.gemm_op(tc, self.a.normed, self.m.wkv_a, b.expert_gate_out, kv_lora, h),
        );
        enqueue_synced(
            plan,
            st,
            Op::RmsNorm(
                self.k.rms_norm, b.expert_gate_out, self.m.kv_a_norm, b.expert_gate_out, n,
                kv_lora, self.a.eps,
            ),
        );
        enqueue_synced(
            plan,
            st,
            self.gemm_op(
                tc && !self.a.force_dense_rope,
                self.a.normed,
                self.m.wkv_a_rope,
                b.ssm_ba,
                self.m.rope as u32,
                h,
            ),
        );
    }

    /// Rotation, cache rows, expanded keys and values.
    pub open spec fn rotate_and_store(self, s: Seq<Step>) -> Seq<Step> {
        let st = self.a.stream;
        let b = self.b;
        let n = self.a.n;
        let nq = self.a.nq;
        let cd = self.cache_dim();
        let s = on_synced(
            s,
            st,
            Op::MlaQRopeExtractBatched(
                self.k.mla_q_rope_extract_batched, b.qkv_output, b.ssm_conv_out_f32, n, nq,
                self.hd(), self.nope(), self.rope(), self.q_width(),
            ),
        );
        let s = on_synced(
            s,
            st,
            Op::RopeYarn(
                self.k.rope_yarn, b.ssm_conv_out_f32, b.ssm_ba, self.meta.positions, n, nq, 1,
                self.rope(), self.rope(), self.m.yarn_inv_freq, self.theta,
            ),
        );
        let s = on(
            s,
            st,
            Op::MlaCacheAssembleBatched(
                self.k.mla_cache_assemble_batched, b.expert_gate_out, b.ssm_ba, b.expert_up_out,
                b.expert_down_out, n, self.kv_lora(), self.rope(), cd,
            ),
        );
        let s = on(
            s,
            st,
            Op::WriteKvCache(
                self.layer, b.expert_up_out, b.expert_down_out, self.meta.slot, n, 1, cd,
                self.a.bs as u32, cd, cd, self.graph_capture,
            ),
        );
        let s = on_synced(
            s,
            st,
            Op::DenseGemm(
                self.k.dense_gemm, b.expert_gate_out, self.m.wkv_b, b.ssm_deinterleaved, n,
                self.kv_width(), self.kv_lora(),
            ),
        );
        let s = on_synced(
            s,
            st,
            Op::MlaKvAssembleBatched(
                self.k.mla_kv_assemble_batched, b.ssm_deinterleaved, b.ssm_ba, b.ssm_qkvz,
                self.v_rows(), n, self.a.nkv, self.nope(), self.v_dim(), self.rope(), self.hd(),
                self.kv_width(),
            ),
        );
        on_synced(
            s,
            st,
            Op::MlaQRopeWritebackBatched(
                self.k.mla_q_rope_writeback_batched, b.ssm_conv_out_f32, b.qkv_output, n, nq,
                self.hd(), self.nope(), self.rope(), self.q_width(),
            ),
        )
    }

    fn plan_rotate_and_store(&self, plan: &mut Vec<Step>)
        requires
            self.fits(),
        ensures
            final(plan)@ == self.rotate_and_store(old(plan)@),
    {
        let st: u64 = self.a.stream;
        let b = self.b;
        let n: u32 = self.a.n;
        let nq: u32 = self.a.nq;
        let kv_lora: u32 = self.m.kv_lora_rank as u32;
        let nope: u32 = self.m.nope as u32;
        let rope: u32 = self.m.rope as u32;
        let v_dim: u32 = self.m.v_dim as u32;
        let hd: u32 = nope + rope;
        let cd: u32 = kv_lora + rope;
        let kv_width: u32 = self.a.nkv * (nope + v_dim);
        enqueue_synced(
            plan,
            st,
            Op::MlaQRopeExtractBatched(
                self.k.mla_q_rope_extract_batched, b.qkv_output, b.ssm_conv_out_f32, n, nq, hd,
                nope, rope, nq * hd,
            ),
        );
        enqueue_synced(
            plan,
            st,
            Op::RopeYarn(
                self.k.rope_yarn, b.ssm_conv_out_f32, b.ssm_ba, self.meta.positions, n, nq, 1,
                rope, rope, self.m.yarn_inv_freq, self.theta,
            ),
        );
        enqueue(
            plan,
            st,
            Op::MlaCacheAssembleBatched(
                self.k.mla_cache_assemble_batched, b.expert_gate_out, b.ssm_ba, b.expert_up_out,
                b.expert_down_out, n, kv_lora, rope, cd,
            ),
        );
        enqueue(
            plan,
            st,
            Op::WriteKvCache(
                self.layer, b.expert_up_out, b.expert_down_out, self.meta.slot, n, 1, cd,
                self.a.bs as u32, cd, cd, self.graph_capture,
            ),
        );
        enqueue_synced(
            plan,
            st,
            Op::DenseGemm(
                self.k.dense_gemm, b.expert_gate_out, self.m.wkv_b, b.ssm_deinterleaved, n,
                kv_width, kv_lora,
            ),
        );
        let v_rows: DevicePtr = b.ssm_qkvz.offset(
            span(self.a.num_tokens, self.a.kv_dim, self.a.bf16),
        );
        enqueue_synced(
            plan,
            st,
            Op::MlaKvAssembleBatched(
                self.k.mla_kv_assemble_batched, b.ssm_deinterleaved, b.ssm_ba, b.ssm_qkvz, v_rows,
                n, self.a.nkv, nope, v_dim, rope, hd, kv_width,
            ),
        );
        enqueue_synced(
            plan,
            st,
            Op::MlaQRopeWritebackBatched(
                self.k.mla_q_rope_writeback_batched, b.ssm_conv_out_f32, b.qkv_output, n, nq, hd,
                nope, rope, nq * hd,
            ),
        );
    }

    /// Whether the kernel made for these head widths runs.
    pub open spec fn ling_path(self) -> bool {
        self.hd() == 192 && self.v_dim() == 128 && self.lk.ling_prefill_attn.0 != 0
    }

    /// The flash-attention kernel otherwise.
    pub open spec fn flash_kernel(self) -> KernelHandle {
        if self.hd() == 192 && self.lk.prefill_h192.0 != 0 {
            self.lk.prefill_h192
        } else {
            self.k.prefill_attn_64
        }
    }

    pub open spec fn attend(self, s: Seq<Step>) -> Seq<Step> {
        let b = self.b;
        if self.ling_path() {
            on_synced(
                s,
                self.a.stream,
                Op::LingMlaPrefillAttn(
                    self.lk.ling_prefill_attn, b.qkv_output, b.ssm_qkvz, self.v_rows(),
                    b.attn_output, self.a.n, self.a.nq, self.a.nkv, self.hd(), self.v_dim(),
                    self.a.inv_sqrt_hd,
                ),
            )
        } else {
            on_synced(
                s,
                self.a.stream,
                Op::PrefillAttention64(
                    self.flash_kernel(), b.qkv_output, b.ssm_qkvz, self.v_rows(), b.attn_output,
                    self.a.n, 1, self.a.nq, self.a.nkv, self.hd(), self.a.inv_sqrt_hd, true, 0,
                ),
            )
        }
    }

    /// The head gate of models that have one: its logits are computed, and
    /// applied when the kernel is there. A null weight means no gate.
    pub open spec fn gate(self, s: Seq<Step>) -> Seq<Step> {
        let s1 = on(
            s,
            self.a.stream,
            Op::DenseGemm(
                self.k.dense_gemm, self.a.normed, self.m.g_proj, self.b.gate_logits, self.a.n,
                self.a.nq, self.a.h,
            ),
        );
        if self.m.g_proj.weight.0 == 0 {
            s
        } else if self.lk.headwise_gate.0 != 0 {
            on_synced(
                s1,
                self.a.stream,
                Op::HeadwiseGate(
                    self.lk.headwise_gate, self.b.attn_output, self.b.gate_logits, self.a.n,
                ),
            )
        } else {
            s1
        }
    }

    pub open spec fn o_proj(self, s: Seq<Step>) -> Seq<Step> {
        let wo_k = (self.a.nq * self.v_dim()) as u32;
        let op = match self.m.wo_nvfp4 {
            Some(w) => Op::W4a16Gemm(
                self.k.w4a16_gemm, self.b.attn_output, w, self.b.qkv_output, self.a.n, self.a.h,
                wo_k,
            ),
            None => Op::DenseGemm(
                self.k.dense_gemm, self.b.attn_output, self.m.wo, self.b.qkv_output, self.a.n,
                self.a.h, wo_k,
            ),
        };
        if self.ling_path() {
            on(s, self.a.stream, op)
        } else {
            on_synced(s, self.a.stream, op)
        }
    }

    fn plan_attend(&self, plan: &mut Vec<Step>)
        requires
            self.fits(),
        ensures
            final(plan)@ == self.o_proj(self.gate(self.attend(old(plan)@))),
    {
        let st: u64 = self.a.stream;
        let b = self.b;
        let n: u32 = self.a.n;
        let nq: u32 = self.a.nq;
        let v_dim: u32 = self.m.v_dim as u32;
        let hd: u32 = self.m.nope as u32 + self.m.rope as u32;
        let v_rows: DevicePtr = b.ssm_qkvz.offset(
            span(self.a.num_tokens, self.a.kv_dim, self.a.bf16),
        );
        let ling: bool = hd == 192 && v_dim == 128 && self.lk.ling_prefill_attn.0 != 0;
        if ling {
            enqueue_synced(
                plan,
                st,
                Op::LingMlaPrefillAttn(
                    self.lk.ling_prefill_attn, b.qkv_output, b.ssm_qkvz, v_rows, b.attn_output, n,
                    nq, self.a.nkv, hd, v_dim, self.a.inv_sqrt_hd,
                ),
            );
        } else {
            let flash: KernelHandle = if hd == 192 && self.lk.prefill_h192.0 != 0 {
                self.lk.prefill_h192
            } else {
                self.k.prefill_attn_64
            };
            enqueue_synced(
                plan,
                st,
                Op::PrefillAttention64(
                    flash, b.qkv_output, b.ssm_qkvz, v_rows, b.attn_output, n, 1, nq, self.a.nkv,
                    hd, self.a.inv_sqrt_hd, true, 0,
                ),
            );
        }
        if self.m.g_proj.weight.0 != 0 {
            enqueue(
                plan,
                st,
                Op::DenseGemm(
                    self.k.dense_gemm, self.a.normed, self.m.g_proj, b.gate_logits, n, nq,
                    self.a.h,
                ),
            );
            if self.lk.headwise_gate.0 != 0 {
                enqueue_synced(
                    plan,
                    st,
                    Op::HeadwiseGate(self.lk.headwise_gate, b.attn_output, b.gate_logits, n),
                );
            }
        }
        let wo_k: u32 = nq * v_dim;
        let op: Op = match self.m.wo_nvfp4 {
            Some(w) => Op::W4a16Gemm(
                self.k.w4a16_gemm, b.attn_output, w, b.qkv_output, n, self.a.h, wo_k,
            ),
            None => Op::DenseGemm(
                self.k.dense_gemm, b.attn_output, self.m.wo, b.qkv_output, n, self.a.h, wo_k,
            ),
        };
        if ling {
            enqueue(plan, st, op);
        } else {
            enqueue_synced(plan, st, op);
        }
    }

    /// The whole prefill.
    pub open spec fn steps(self) -> Seq<Step> {
        let s = self.rotate_and_store(self.project(Seq::empty()));
        self.o_proj(self.gate(self.attend(s)))
    }
}

impl Qwen3AttentionLayer {
    pub open spec fn mla_cache_skip(
        &self,
        cx: &ForwardContext,
        args: &CacheSkipMlaArgs,
        table: &KernelTable,
    ) -> MlaCacheSkip {
        MlaCacheSkip {
            k: self.k,
            lk: LatentKernels::of(table),
            m: self.mla->0,
            b: cx.buffers,
            meta: cx.attn_metadata->0,
            a: *args,
            layer: self.attn_layer_idx,
            theta: cx.rope_theta,
            graph_capture: cx.graph_capture,
        }
    }

    /// Plans the prefill of a prompt without cached rows. Returns the plan and
    /// the buffer that holds the output projection.
    pub fn prefill_attention_cache_skip_mla(
        &self,
        cx: &ForwardContext,
        args: &CacheSkipMlaArgs,
        table: &KernelTable,
    ) -> (r: (Vec<Step>, DevicePtr))
        requires
            self.mla is Some,
            cx.attn_metadata is Some,
            self.mla_cache_skip(cx, args, table).fits(),
        ensures
            r.0@ == self.mla_cache_skip(cx, args, table).steps(),
            r.1 == cx.buffers.qkv_output,
    {
        let p = MlaCacheSkip {
            k: self.k,
            lk: LatentKernels::load(table),
            m: self.mla.unwrap(),
            b: cx.buffers,
            meta: cx.attn_metadata.unwrap(),
            a: *args,
            layer: self.attn_layer_idx,
            theta: cx.rope_theta,
            graph_capture: cx.graph_capture,
        };
        let mut plan: Vec<Step> = Vec::new();
        p.plan_project(&mut plan);
        p.plan_rotate_and_store(&mut plan);
        p.plan_attend(&mut plan);
        (plan, cx.buffers.qkv_output)
    }
}

} // verus!
