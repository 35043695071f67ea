//! One decode step of latent attention in absorbed form.
//!
//! The chain for one row: latent query, expanded query, absorbed query, rope
//! scatter, latent key-value row, rotated key, cache entry, paged attention,
//! value extraction, head gate, output projection.

use crate::attention::init::LatentKernels;
use crate::attention::types::{AttentionKernels, MlaWeights, Qwen3AttentionLayer};
use crate::context::ForwardContext;
use crate::gpu::{AttnMetadataDev, Buffers, DenseWeight, DevicePtr};
use crate::kernels::KernelTable;
use crate::num::{lemma_span4_mono, lemma_span_mono, span, span4};
use crate::plan::{enqueue, enqueue_timed, on, timed, Op, Step};
use vstd::prelude::*;

verus! {

/// Arguments of one decode step.
#[derive(Clone, Copy, PartialEq, Eq, Structural, Debug)]
pub struct DecodeMlaArgs {
    pub normed: DevicePtr,
    pub k_out: DevicePtr,
    pub v_out: DevicePtr,
    pub q_dim: u32,
    pub h: u32,
    pub nq: u32,
    pub hd: u32,
    /// f32 bits.
    pub eps: u32,
    /// Rows per cache block.
    pub bs: usize,
    pub stream: u64,
    /// Key half of the layer's cache.
    pub k_pool: DevicePtr,
    /// Value half of the layer's cache.
    pub v_pool: DevicePtr,
    /// `1 / sqrt(hd)`, f32 bits.
    pub default_scale: u32,
}

/// What a planner of this module works from.
#[derive(Clone, Copy, PartialEq, Eq, Structural, Debug)]
pub struct MlaDecode {
    pub k: AttentionKernels,
    pub lk: LatentKernels,
    pub m: MlaWeights,
    pub b: Buffers,
    pub meta: AttnMetadataDev,
    pub a: DecodeMlaArgs,
    pub layer: usize,
    pub scale: u32,
    pub theta: u32,
    pub profile: bool,
    pub graph_capture: bool,
}

impl MlaDecode {
    pub open spec fn q_lora(self) -> u32 {
        self.m.q_lora_rank as u32
    }

    pub open spec fn kv_lora(self) -> u32 {
        self.m.kv_lora_rank as u32
    }

    pub open spec fn nope(self) -> u32 {
        self.m.nope as u32
    }

    pub open spec fn rope(self) -> u32 {
        self.m.rope as u32
    }

    pub open spec fn v_dim(self) -> u32 {
        self.m.v_dim as u32
    }

    /// Width of one cache entry: the latent row followed by the rotated key.
    pub open spec fn cache_dim(self) -> u32 {
        (self.kv_lora() + self.rope()) as u32
    }

    /// Every extent and byte count of the step is representable.
    pub open spec fn fits(self) -> bool {
        &&& self.kv_lora() + self.rope() <= u32::MAX
        &&& self.a.nq * self.cache_dim() <= u32::MAX
        &&& self.a.nq * self.v_dim() <= u32::MAX
        &&& self.m.q_lora_rank * 2 <= usize::MAX
        &&& self.q_lora() * 2 <= usize::MAX
        &&& self.m.kv_lora_rank * 2 <= usize::MAX
        &&& self.m.rope * 2 <= usize::MAX
        &&& self.a.nq <= usize::MAX
        &&& (self.a.nq * self.a.hd + self.m.nope) * 2 <= usize::MAX
        &&& (self.a.nq * self.cache_dim() + self.m.kv_lora_rank) * 2 <= usize::MAX
        &&& self.a.nq * self.m.rope * 2 <= usize::MAX
        &&& self.a.nq * self.m.nope <= usize::MAX
        &&& self.a.nq * self.m.nope * self.m.kv_lora_rank * 2 <= usize::MAX
        &&& self.a.nq * self.m.v_dim * 2 <= usize::MAX
        &&& self.a.nq * self.m.v_dim * self.m.kv_lora_rank * 2 <= usize::MAX
    }

    // ---- latent and expanded query ----

    /// The latent query: a projection of the normed row, or the row itself when
    /// the query is not compressed.
    pub open spec fn q_latent(self, s: Seq<Step>) -> Seq<Step> {
        let st = self.a.stream;
        let s = if self.q_lora() == self.a.h {
            on(s, st, Op::CopyD2d(self.a.normed, self.b.ssm_ba, (self.q_lora() * 2) as usize))
        } else {
            timed(
                on(
                    s,
                    st,
                    match self.m.wq_a_nvfp4 {
                        Some(w) => Op::W4a16Gemv(
                            self.k.w4a16_gemv,
                            self.a.normed,
                            w,
                            self.b.ssm_ba,
                            self.q_lora(),
                            self.a.h,
                        ),
                        None => Op::DenseGemv(
                            self.k.dense_gemv,
                            self.a.normed,
                            self.m.wq_a,
                            self.b.ssm_ba,
                            self.q_lora(),
                            self.a.h,
                        ),
                    },
                ),
                self.profile,
                st,
            )
        };
        if self.m.q_a_norm.weight.0 != 0 {
            timed(
                on(
                    s,
                    st,
                    Op::RmsNorm(
                        self.k.rms_norm,
                        self.b.ssm_ba,
                        self.m.q_a_norm,
                        self.b.ssm_ba,
                        1,
                        self.q_lora(),
                        self.a.eps,
                    ),
                ),
                self.profile,
                st,
            )
        } else {
            s
        }
    }

    /// All query heads from the latent query.
    pub open spec fn q_full(self, s: Seq<Step>) -> Seq<Step> {
        timed(
            on(
                s,
                self.a.stream,
                match self.m.wq_b_nvfp4 {
                    Some(w) => Op::W4a16Gemv(
                        self.k.w4a16_gemv,
                        self.b.ssm_ba,
                        w,
                        self.b.ssm_deinterleaved,
                        self.a.q_dim,
                        self.q_lora(),
                    ),
                    None => Op::DenseGemv(
                        self.k.dense_gemv,
                        self.b.ssm_ba,
                        self.m.wq_b,
                        self.b.ssm_deinterleaved,
                        self.a.q_dim,
                        self.q_lora(),
                    ),
                },
            ),
            self.profile,
            self.a.stream,
        )
    }

    fn plan_q(&self, plan: &mut Vec<Step>)
        requires
            self.fits(),
        ensures
            final(plan)@ == self.q_full(self.q_latent(old(plan)@)),
    {
        let st: u64 = self.a.stream;
        let q_lora: u32 = self.m.q_lora_rank as u32;
        if q_lora == self.a.h {
            enqueue(plan, st, Op::CopyD2d(self.a.normed, self.b.ssm_ba, q_lora as usize * 2));
        } else {
            match self.m.wq_a_nvfp4 {
                Some(w) => enqueue(
                    plan,
                    st,
                    Op::W4a16Gemv(
                        self.k.w4a16_gemv,
                        self.a.normed,
                        w,
                        self.b.ssm_ba,
                        q_lora,
                        self.a.h,
                    ),
                ),
                None => enqueue(
                    plan,
                    st,
                    Op::DenseGemv(
                        self.k.dense_gemv,
                        self.a.normed,
                        self.m.wq_a,
                        self.b.ssm_ba,
                        q_lora,
                        self.a.h,
                    ),
                ),
            }
            enqueue_timed(plan, self.profile, st);
        }
        if self.m.q_a_norm.weight.0 != 0 {
            enqueue(
                plan,
                st,
                Op::RmsNorm(
                    self.k.rms_norm,
                    self.b.ssm_ba,
                    self.m.q_a_norm,
                    self.b.ssm_ba,
                    1,
                    q_lora,
                    self.a.eps,
                ),
            );
            enqueue_timed(plan, self.profile, st);
        }
        match self.m.wq_b_nvfp4 {
            Some(w) => enqueue(
                plan,
                st,
                Op::W4a16Gemv(
                    self.k.w4a16_gemv,
                    self.b.ssm_ba,
                    w,
                    self.b.ssm_deinterleaved,
                    self.a.q_dim,
                    q_lora,
                ),
            ),
            None => enqueue(
                plan,
                st,
                Op::DenseGemv(
                    self.k.dense_gemv,
                    self.b.ssm_ba,
                    self.m.wq_b,
                    self.b.ssm_deinterleaved,
                    self.a.q_dim,
                    q_lora,
                ),
            ),
        }
        enqueue_timed(plan, self.profile, st);
    }

    // ---- absorbed query ----

    /// One product per head, for the first `heads` heads.
    pub open spec fn absorb_heads(self, s: Seq<Step>, heads: nat) -> Seq<Step>
        decreases heads,
    {
        if heads == 0 {
            s
        } else {
            let i = heads - 1;
            on(
                self.absorb_heads(s, (heads - 1) as nat),
                self.a.stream,
                Op::DenseGemv(
                    self.k.dense_gemv,
                    self.b.ssm_deinterleaved.at(i * self.a.hd * 2),
                    DenseWeight {
                        weight: self.m.w_uk_t.weight.at(
                            i * self.m.nope * self.m.kv_lora_rank * 2,
                        ),
                    },
                    self.b.expert_up_out.at(i * self.cache_dim() * 2),
                    self.kv_lora(),
                    self.nope(),
                ),
            )
        }
    }

    pub open spec fn absorb(self, s: Seq<Step>) -> Seq<Step> {
        timed(
            if self.k.mla_batched_gemv.0 != 0 {
                on(
                    s,
                    self.a.stream,
                    Op::MlaBatchedGemv(
                        self.k.mla_batched_gemv,
                        self.b.ssm_deinterleaved,
                        self.m.w_uk_t.weight,
                        self.b.expert_up_out,
                        self.kv_lora(),
                        self.nope(),
                        self.a.nq,
                        self.a.hd,
                        self.cache_dim(),
                    ),
                )
            } else {
                self.absorb_heads(s, self.a.nq as nat)
            },
            self.profile,
            self.a.stream,
        )
    }

    fn plan_absorb(&self, plan: &mut Vec<Step>)
        requires
            self.fits(),
        ensures
            final(plan)@ == self.absorb(old(plan)@),
    {
        let st: u64 = self.a.stream;
        let kv_lora: u32 = self.m.kv_lora_rank as u32;
        let nope: u32 = self.m.nope as u32;
        let cache_dim: u32 = kv_lora + self.m.rope as u32;
        if self.k.mla_batched_gemv.0 != 0 {
            enqueue(
                plan,
                st,
                Op::MlaBatchedGemv(
                    self.k.mla_batched_gemv,
                    self.b.ssm_deinterleaved,
                    self.m.w_uk_t.weight,
                    self.b.expert_up_out,
                    kv_lora,
                    nope,
                    self.a.nq,
                    self.a.hd,
                    cache_dim,
                ),
            );
        } else {
            let nq: usize = self.a.nq as usize;
            let mut i: usize = 0;
            while i < nq
                invariant
                    i <= nq,
                    nq == self.a.nq,
                    self.fits(),
                    st == self.a.stream,
                    kv_lora == self.kv_lora(),
                    nope == self.nope(),
                    cache_dim == self.cache_dim(),
                    plan@ == self.absorb_heads(old(plan)@, i as nat),
                decreases nq - i,
            {
                proof {
                    lemma_span_mono(i as int, nq as int, self.a.hd as int, 2);
                    lemma_span_mono(i as int, nq as int, cache_dim as int, 2);
                    lemma_span4_mono(
                        i as int,
                        nq as int,
                        self.m.nope as int,
                        self.m.kv_lora_rank as int,
                        2,
                    );
                }
                enqueue(
                    plan,
                    st,
                    Op::DenseGemv(
                        self.k.dense_gemv,
                        self.b.ssm_deinterleaved.offset(span(i, self.a.hd as usize, 2)),
                        DenseWeight {
                            weight: self.m.w_uk_t.weight.offset(
                                span4(i, self.m.nope, self.m.kv_lora_rank, 2),
                            ),
                        },
                        self.b.expert_up_out.offset(span(i, cache_dim as usize, 2)),
                        kv_lora,
                        nope,
                    ),
                );
                i = i + 1;
            }
        }
        enqueue_timed(plan, self.profile, st);
    }

    // ---- rope part of the query ----

    /// The rope part of the first `heads` heads, copied both to its own buffer
    /// and behind the absorbed part.
    pub open spec fn scatter_heads(self, s: Seq<Step>, heads: nat) -> Seq<Step>
        decreases heads,
    {
        if heads == 0 {
            s
        } else {
            let i = heads - 1;
            let src = self.b.ssm_deinterleaved.at((i * self.a.hd + self.m.nope) * 2);
            let s1 = on(
                self.scatter_heads(s, (heads - 1) as nat),
                self.a.stream,
                Op::CopyD2d(
                    src,
                    self.b.ssm_conv_out_f32.at(i * self.m.rope * 2),
                    (self.m.rope * 2) as usize,
                ),
            );
            on(
                s1,
                self.a.stream,
                Op::CopyD2d(
                    src,
                    self.b.expert_up_out.at((i * self.cache_dim() + self.m.kv_lora_rank) * 2),
                    (self.m.rope * 2) as usize,
                ),
            )
        }
    }

    pub open spec fn scatter(self, s: Seq<Step>) -> Seq<Step> {
        timed(
            if self.k.mla_q_rope_scatter.0 != 0 {
                on(
                    s,
                    self.a.stream,
                    Op::MlaQRopeScatter(
                        self.k.mla_q_rope_scatter,
                        self.b.ssm_deinterleaved,
                        self.b.expert_up_out,
                        self.b.ssm_conv_out_f32,
                        self.a.nq,
                        self.a.hd,
                        self.nope(),
                        self.rope(),
                        self.kv_lora(),
                        self.cache_dim(),
                    ),
                )
            } else {
                self.scatter_heads(s, self.a.nq as nat)
            },
            self.profile,
            self.a.stream,
        )
    }

    fn plan_scatter(&self, plan: &mut Vec<Step>)
        requires
            self.fits(),
        ensures
            final(plan)@ == self.scatter(old(plan)@),
    {
        let st: u64 = self.a.stream;
        let kv_lora: u32 = self.m.kv_lora_rank as u32;
        let rope: u32 = self.m.rope as u32;
        let cache_dim: u32 = kv_lora + rope;
        if self.k.mla_q_rope_scatter.0 != 0 {
            enqueue(
                plan,
                st,
                Op::MlaQRopeScatter(
                    self.k.mla_q_rope_scatter,
                    self.b.ssm_deinterleaved,
                    self.b.expert_up_out,
                    self.b.ssm_conv_out_f32,
                    self.a.nq,
                    self.a.hd,
                    self.m.nope as u32,
                    rope,
                    kv_lora,
                    cache_dim,
                ),
            );
        } else {
            let nq: usize = self.a.nq as usize;
            let mut i: usize = 0;
            while i < nq
                invariant
                    i <= nq,
                    nq == self.a.nq,
                    self.fits(),
                    st == self.a.stream,
                    cache_dim == self.cache_dim(),
                    plan@ == self.scatter_heads(old(plan)@, i as nat),
                decreases nq - i,
            {
                proof {
                    lemma_span_mono(i as int, nq as int, self.a.hd as int, 1);
                    lemma_span_mono(i as int, nq as int, cache_dim as int, 1);
                    lemma_span_mono(i as int, nq as int, self.m.rope as int, 2);
                }
                let src: DevicePtr = self.b.ssm_deinterleaved.offset(
                    (i * self.a.hd as usize + self.m.nope) * 2,
                );
                enqueue(
                    plan,
                    st,
                    Op::CopyD2d(
                        src,
                        self.b.ssm_conv_out_f32.offset(span(i, self.m.rope, 2)),
                        self.m.rope * 2,
                    ),
                );
                enqueue(
                    plan,
                    st,
                    Op::CopyD2d(
                        src,
                        self.b.expert_up_out.offset(
                            (i * cache_dim as usize + self.m.kv_lora_rank) * 2,
                        ),
                        self.m.rope * 2,
                    ),
                );
                i = i + 1;
            }
        }
        enqueue_timed(plan, self.profile, st);
    }

    // ---- latent key-value row and rotated key ----

    /// The latent key-value row, normed in place.
    pub open spec fn kv_latent(self, s: Seq<Step>) -> Seq<Step> {
        let st = self.a.stream;
        let s1 = on(
            s,
            st,
            match self.m.wkv_a_nvfp4 {
                Some(w) => Op::W4a16Gemv(
                    self.k.w4a16_gemv,
                    self.a.normed,
                    w,
                    self.b.expert_gate_out,
                    self.kv_lora(),
                    self.a.h,
                ),
                None => Op::DenseGemv(
                    self.k.dense_gemv,
                    self.a.normed,
                    self.m.wkv_a,
                    self.b.expert_gate_out,
                    self.kv_lora(),
                    self.a.h,
                ),
            },
        );
        timed(
            on(
                s1,
                st,
                Op::RmsNorm(
                    self.k.rms_norm,
                    self.b.expert_gate_out,
                    self.m.kv_a_norm,
                    self.b.expert_gate_out,
                    1,
                    self.kv_lora(),
                    self.a.eps,
                ),
            ),
            self.profile,
            st,
        )
    }

    /// The rotated query parts of the first `heads` heads, written back behind
    /// the absorbed part.
    pub open spec fn writeback_heads(self, s: Seq<Step>, heads: nat) -> Seq<Step>
        decreases heads,
    {
        if heads == 0 {
            s
        } else {
            let i = heads - 1;
            on(
                self.writeback_heads(s, (heads - 1) as nat),
                self.a.stream,
                Op::CopyD2d(
                    self.b.ssm_conv_out_f32.at(i * self.m.rope * 2),
                    self.b.expert_up_out.at((i * self.cache_dim() + self.m.kv_lora_rank) * 2),
                    (self.m.rope * 2) as usize,
                ),
            )
        }
    }

    /// The rope key, rotated together with the rope part of the query. The key
    /// has a buffer of its own, apart from the latent row.
    pub open spec fn k_rope(self, s: Seq<Step>) -> Seq<Step> {
        let st = self.a.stream;
        let s1 = on(
            s,
            st,
            Op::DenseGemv(
                self.k.dense_gemv,
                self.a.normed,
                self.m.wkv_a_rope,
                self.b.ssm_qkvz,
                self.rope(),
                self.a.h,
            ),
        );
        let s2 = on(
            s1,
            st,
            Op::RopeYarn(
                self.k.rope_yarn,
                self.b.ssm_conv_out_f32,
                self.b.ssm_qkvz,
                self.meta.positions,
                1,
                self.a.nq,
                1,
                self.rope(),
                self.rope(),
                self.m.yarn_inv_freq,
                self.theta,
            ),
        );
        timed(
            if self.k.mla_q_rope_writeback.0 != 0 {
                on(
                    s2,
                    st,
                    Op::MlaQRopeWriteback(
                        self.k.mla_q_rope_writeback,
                        self.b.ssm_conv_out_f32,
                        self.b.expert_up_out,
                        self.a.nq,
                        self.rope(),
                        self.kv_lora(),
                        self.cache_dim(),
                    ),
                )
            } else {
                self.writeback_heads(s2, self.a.nq as nat)
            },
            self.profile,
            st,
        )
    }

    fn plan_kv(&self, plan: &mut Vec<Step>)
        requires
            self.fits(),
        ensures
            final(plan)@ == self.k_rope(self.kv_latent(old(plan)@)),
    {
        let st: u64 = self.a.stream;
        let kv_lora: u32 = self.m.kv_lora_rank as u32;
        let rope: u32 = self.m.rope as u32;
        let cache_dim: u32 = kv_lora + rope;
        match self.m.wkv_a_nvfp4 {
            Some(w) => enqueue(
                plan,
                st,
                Op::W4a16Gemv(
                    self.k.w4a16_gemv,
                    self.a.normed,
                    w,
                    self.b.expert_gate_out,
                    kv_lora,
                    self.a.h,
                ),
            ),
            None => enqueue(
                plan,
                st,
                Op::DenseGemv(
                    self.k.dense_gemv,
                    self.a.normed,
                    self.m.wkv_a,
                    self.b.expert_gate_out,
                    kv_lora,
                    self.a.h,
                ),
            ),
        }
        enqueue(
            plan,
            st,
            Op::RmsNorm(
                self.k.rms_norm,
                self.b.expert_gate_out,
                self.m.kv_a_norm,
                self.b.expert_gate_out,
                1,
                kv_lora,
                self.a.eps,
            ),
        );
        enqueue_timed(plan, self.profile, st);
        enqueue(
            plan,
            st,
            Op::DenseGemv(
                self.k.dense_gemv,
                self.a.normed,
                self.m.wkv_a_rope,
                self.b.ssm_qkvz,
                rope,
                self.a.h,
            ),
        );
        enqueue(
            plan,
            st,
            Op::RopeYarn(
                self.k.rope_yarn,
                self.b.ssm_conv_out_f32,
                self.b.ssm_qkvz,
                self.meta.positions,
                1,
                self.a.nq,
                1,
                rope,
                rope,
                self.m.yarn_inv_freq,
                self.theta,
            ),
        );
        if self.k.mla_q_rope_writeback.0 != 0 {
            enqueue(
                plan,
                st,
                Op::MlaQRopeWriteback(
                    self.k.mla_q_rope_writeback,
                    self.b.ssm_conv_out_f32,
                    self.b.expert_up_out,
                    self.a.nq,
                    rope,
                    kv_lora,
                    cache_dim,
                ),
            );
        } else {
            let ghost s2 = plan@;
            let nq: usize = self.a.nq as usize;
            let mut i: usize = 0;
            while i < nq
                invariant
                    i <= nq,
                    nq == self.a.nq,
                    self.fits(),
                    st == self.a.stream,
                    cache_dim == self.cache_dim(),
                    plan@ == self.writeback_heads(s2, i as nat),
                decreases nq - i,
            {
                proof {
                    lemma_span_mono(i as int, nq as int, cache_dim as int, 1);
                    lemma_span_mono(i as int, nq as int, self.m.rope as int, 2);
                }
                enqueue(
                    plan,
                    st,
                    Op::CopyD2d(
                        self.b.ssm_conv_out_f32.offset(span(i, self.m.rope, 2)),
                        self.b.expert_up_out.offset(
                            (i * cache_dim as usize + self.m.kv_lora_rank) * 2,
                        ),
                        self.m.rope * 2,
                    ),
                );
                i = i + 1;
            }
        }
        enqueue_timed(plan, self.profile, st);
    }

    // ---- cache entry and paged attention ----

    /// The cache entry: the latent row and the rotated key on the key side, the
    /// latent row and zeros on the value side; stored as one head.
    pub open spec fn cache_write(self, s: Seq<Step>) -> Seq<Step> {
        let st = self.a.stream;
        let s1 = if self.k.mla_cache_assemble.0 != 0 {
            on(
                s,
                st,
                Op::MlaCacheAssemble(
                    self.k.mla_cache_assemble,
                    self.b.expert_gate_out,
                    self.b.ssm_qkvz,
                    self.a.k_out,
                    self.a.v_out,
                    self.kv_lora(),
                    self.rope(),
                    self.cache_dim(),
                ),
            )
        } else {
            let latent = (self.m.kv_lora_rank * 2) as usize;
            let rope = (self.m.rope * 2) as usize;
            let c1 = on(s, st, Op::CopyD2d(self.b.expert_gate_out, self.a.k_out, latent));
            let c2 = on(c1, st, Op::CopyD2d(self.b.ssm_qkvz, self.a.k_out.at(latent as int), rope));
            let c3 = on(c2, st, Op::CopyD2d(self.b.expert_gate_out, self.a.v_out, latent));
            on(c3, st, Op::Memset(self.a.v_out.at(latent as int), 0, rope))
        };
        timed(
            on(
                s1,
                st,
                Op::WriteKvCache(
                    self.layer,
                    self.a.k_out,
                    self.a.v_out,
                    self.meta.slot,
                    1,
                    1,
                    self.cache_dim(),
                    self.a.bs as u32,
                    self.cache_dim(),
                    self.cache_dim(),
                    self.graph_capture,
                ),
            ),
            self.profile,
            st,
        )
    }

    pub open spec fn attend(self, s: Seq<Step>) -> Seq<Step> {
        timed(
            on(
                s,
                self.a.stream,
                Op::PagedDecodeAttn(
                    self.k.paged_decode_mla,
                    self.b.expert_up_out,
                    self.a.k_pool,
                    self.a.v_pool,
                    self.b.attn_output,
                    self.meta.block_table,
                    self.meta.seq_len,
                    self.meta.max_blocks_per_seq,
                    1,
                    self.a.nq,
                    1,
                    self.cache_dim(),
                    self.a.bs as u32,
                    self.scale,
                    (self.a.nq * self.cache_dim()) as u32,
                    0,
                ),
            ),
            self.profile,
            self.a.stream,
        )
    }

    fn plan_attend(&self, plan: &mut Vec<Step>)
        requires
            self.fits(),
        ensures
            final(plan)@ == self.attend(self.cache_write(old(plan)@)),
    {
        let st: u64 = self.a.stream;
        let kv_lora: u32 = self.m.kv_lora_rank as u32;
        let rope: u32 = self.m.rope as u32;
        let cache_dim: u32 = kv_lora + rope;
        if self.k.mla_cache_assemble.0 != 0 {
            enqueue(
                plan,
                st,
                Op::MlaCacheAssemble(
                    self.k.mla_cache_assemble,
                    self.b.expert_gate_out,
                    self.b.ssm_qkvz,
                    self.a.k_out,
                    self.a.v_out,
                    kv_lora,
                    rope,
                    cache_dim,
                ),
            );
        } else {
            let latent: usize = self.m.kv_lora_rank * 2;
            let rope_bytes: usize = self.m.rope * 2;
            enqueue(plan, st, Op::CopyD2d(self.b.expert_gate_out, self.a.k_out, latent));
            enqueue(
                plan,
                st,
                Op::CopyD2d(self.b.ssm_qkvz, self.a.k_out.offset(latent), rope_bytes),
            );
            enqueue(plan, st, Op::CopyD2d(self.b.expert_gate_out, self.a.v_out, latent));
            enqueue(plan, st, Op::Memset(self.a.v_out.offset(latent), 0, rope_bytes));
        }
        enqueue(
            plan,
            st,
            Op::WriteKvCache(
                self.layer,
                self.a.k_out,
                self.a.v_out,
                self.meta.slot,
                1,
                1,
                cache_dim,
                self.a.bs as u32,
                cache_dim,
                cache_dim,
                self.graph_capture,
            ),
        );
        enqueue_timed(plan, self.profile, st);
        enqueue(
            plan,
            st,
            Op::PagedDecodeAttn(
                self.k.paged_decode_mla,
                self.b.expert_up_out,
                self.a.k_pool,
                self.a.v_pool,
                self.b.attn_output,
                self.meta.block_table,
                self.meta.seq_len,
                self.meta.max_blocks_per_seq,
                1,
                self.a.nq,
                1,
                cache_dim,
                self.a.bs as u32,
                self.scale,
                self.a.nq * cache_dim,
                0,
            ),
        );
        enqueue_timed(plan, self.profile, st);
    }

    // ---- value extraction, gate and output projection ----

    /// One product per head, for the first `heads` heads.
    pub open spec fn extract_heads(self, s: Seq<Step>, heads: nat) -> Seq<Step>
        decreases heads,
    {
        if heads == 0 {
            s
        } else {
            let i = heads - 1;
            on(
                self.extract_heads(s, (heads - 1) as nat),
                self.a.stream,
                Op::DenseGemv(
                    self.k.dense_gemv,
                    self.b.attn_output.at(i * self.cache_dim() * 2),
                    DenseWeight {
                        weight: self.m.w_uv.weight.at(
                            i * self.m.v_dim * self.m.kv_lora_rank * 2,
                        ),
                    },
                    self.b.norm_output.at(i * self.m.v_dim * 2),
                    self.v_dim(),
                    self.kv_lora(),
                ),
            )
        }
    }

    pub open spec fn extract(self, s: Seq<Step>) -> Seq<Step> {
        timed(
            if self.k.mla_batched_gemv.0 != 0 {
                on(
                    s,
                    self.a.stream,
                    Op::MlaBatchedGemv(
                        self.k.mla_batched_gemv,
                        self.b.attn_output,
                        self.m.w_uv.weight,
                        self.b.norm_output,
                        self.v_dim(),
                        self.kv_lora(),
                        self.a.nq,
                        self.cache_dim(),
                        self.v_dim(),
                    ),
                )
            } else {
                self.extract_heads(s, self.a.nq as nat)
            },
            self.profile,
            self.a.stream,
        )
    }

    /// The sigmoid head gate, for models that have one.
    pub open spec fn gate(self, s: Seq<Step>) -> Seq<Step> {
        let st = self.a.stream;
        if self.m.g_proj.weight.0 != 0 {
            let s1 = timed(
                on(
                    s,
                    st,
                    Op::DenseGemv(
                        self.k.dense_gemv,
                        self.a.normed,
                        self.m.g_proj,
                        self.b.gate_logits,
                        self.a.nq,
                        self.a.h,
                    ),
                ),
                self.profile,
                st,
            );
            if self.lk.headwise_gate.0 != 0 {
                timed(
                    on(
                        s1,
                        st,
                        Op::HeadwiseGate(
                            self.lk.headwise_gate,
                            self.b.norm_output,
                            self.b.gate_logits,
                            1,
                        ),
                    ),
                    self.profile,
                    st,
                )
            } else {
                s1
            }
        } else {
            s
        }
    }

    pub open spec fn o_proj(self, s: Seq<Step>) -> Seq<Step> {
        timed(
            on(
                s,
                self.a.stream,
                match self.m.wo_nvfp4 {
                    Some(w) => Op::W4a16Gemv(
                        self.k.w4a16_gemv,
                        self.b.norm_output,
                        w,
                        self.b.qkv_output,
                        self.a.h,
                        (self.a.nq * self.v_dim()) as u32,
                    ),
                    None => Op::DenseGemv(
                        self.k.dense_gemv,
                        self.b.norm_output,
                        self.m.wo,
                        self.b.qkv_output,
                        self.a.h,
                        (self.a.nq * self.v_dim()) as u32,
                    ),
                },
            ),
            self.profile,
            self.a.stream,
        )
    }

    fn plan_out(&self, plan: &mut Vec<Step>)
        requires
            self.fits(),
        ensures
            final(plan)@ == self.o_proj(self.gate(self.extract(old(plan)@))),
    {
        let st: u64 = self.a.stream;
        let kv_lora: u32 = self.m.kv_lora_rank as u32;
        let v_dim: u32 = self.m.v_dim as u32;
        let cache_dim: u32 = kv_lora + self.m.rope as u32;
        if self.k.mla_batched_gemv.0 != 0 {
            enqueue(
                plan,
                st,
                Op::MlaBatchedGemv(
                    self.k.mla_batched_gemv,
                    self.b.attn_output,
                    self.m.w_uv.weight,
                    self.b.norm_output,
                    v_dim,
                    kv_lora,
                    self.a.nq,
                    cache_dim,
                    v_dim,
                ),
            );
        } else {
            let nq: usize = self.a.nq as usize;
            let mut i: usize = 0;
            while i < nq
                invariant
                    i <= nq,
                    nq == self.a.nq,
                    self.fits(),
                    st == self.a.stream,
                    kv_lora == self.kv_lora(),
                    v_dim == self.v_dim(),
                    cache_dim == self.cache_dim(),
                    plan@ == self.extract_heads(old(plan)@, i as nat),
                decreases nq - i,
            {
                proof {
                    lemma_span_mono(i as int, nq as int, cache_dim as int, 2);
                    lemma_span_mono(i as int, nq as int, self.m.v_dim as int, 2);
                    lemma_span4_mono(
                        i as int,
                        nq as int,
                        self.m.v_dim as int,
                        self.m.kv_lora_rank as int,
                        2,
                    );
                }
                enqueue(
                    plan,
                    st,
                    Op::DenseGemv(
                        self.k.dense_gemv,
                        self.b.attn_output.offset(span(i, cache_dim as usize, 2)),
                        DenseWeight {
                            weight: self.m.w_uv.weight.offset(
                                span4(i, self.m.v_dim, self.m.kv_lora_rank, 2),
                            ),
                        },
                        self.b.norm_output.offset(span(i, self.m.v_dim, 2)),
                        v_dim,
                        kv_lora,
                    ),
                );
                i = i + 1;
            }
        }
        enqueue_timed(plan, self.profile, st);
        if self.m.g_proj.weight.0 != 0 {
            enqueue(
                plan,
                st,
                Op::DenseGemv(
                    self.k.dense_gemv,
                    self.a.normed,
                    self.m.g_proj,
                    self.b.gate_logits,
                    self.a.nq,
                    self.a.h,
                ),
            );
            enqueue_timed(plan, self.profile, st);
            if self.lk.headwise_gate.0 != 0 {
                enqueue(
                    plan,
                    st,
                    Op::HeadwiseGate(
                        self.lk.headwise_gate,
                        self.b.norm_output,
                        self.b.gate_logits,
                        1,
                    ),
                );
                enqueue_timed(plan, self.profile, st);
            }
        }
        match self.m.wo_nvfp4 {
            Some(w) => enqueue(
                plan,
                st,
                Op::W4a16Gemv(
                    self.k.w4a16_gemv,
                    self.b.norm_output,
                    w,
                    self.b.qkv_output,
                    self.a.h,
                    self.a.nq * v_dim,
                ),
            ),
            None => enqueue(
                plan,
                st,
                Op::DenseGemv(
                    self.k.dense_gemv,
                    self.b.norm_output,
                    self.m.wo,
                    self.b.qkv_output,
                    self.a.h,
                    self.a.nq * v_dim,
                ),
            ),
        }
        enqueue_timed(plan, self.profile, st);
    }

    /// The whole decode step.
    pub open spec fn steps(self) -> Seq<Step> {
        let s = self.q_full(self.q_latent(Seq::empty()));
        let s = self.scatter(self.absorb(s));
        let s = self.k_rope(self.kv_latent(s));
        let s = self.attend(self.cache_write(s));
        self.o_proj(self.gate(self.extract(s)))
    }
}

impl Qwen3AttentionLayer {
    /// The decode step of this layer in this pass.
    pub open spec fn mla_decode(
        &self,
        cx: &ForwardContext,
        args: &DecodeMlaArgs,
        table: &KernelTable,
    ) -> MlaDecode {
        MlaDecode {
            k: self.k,
            lk: LatentKernels::of(table),
            m: self.mla->0,
            b: cx.buffers,
            meta: cx.attn_metadata->0,
            a: *args,
            layer: self.attn_layer_idx,
            scale: self.spec_attn_scale(args.default_scale),
            theta: cx.rope_theta,
            profile: cx.profile,
            graph_capture: cx.graph_capture,
        }
    }

    /// Plans one absorbed decode step. Returns the plan and the buffer that
    /// holds the output projection.
    pub fn attention_forward_mla(
        &self,
        cx: &ForwardContext,
        args: &DecodeMlaArgs,
        table: &KernelTable,
    ) -> (r: (Vec<Step>, DevicePtr))
        requires
            self.mla is Some,
            cx.attn_metadata is Some,
            self.mla_decode(cx, args, table).fits(),
        ensures
            r.0@ == self.mla_decode(cx, args, table).steps(),
            r.1 == cx.buffers.qkv_output,
    {
        let d = MlaDecode {
            k: self.k,
            lk: LatentKernels::load(table),
            m: self.mla.unwrap(),
            b: cx.buffers,
            meta: cx.attn_metadata.unwrap(),
            a: *args,
            layer: self.attn_layer_idx,
            scale: self.effective_attn_scale(args.default_scale),
            theta: cx.rope_theta,
            profile: cx.profile,
            graph_capture: cx.graph_capture,
        };
        let mut plan: Vec<Step> = Vec::new();
        d.plan_q(&mut plan);
        d.plan_absorb(&mut plan);
        d.plan_scatter(&mut plan);
        d.plan_kv(&mut plan);
        d.plan_attend(&mut plan);
        d.plan_out(&mut plan);
        (plan, cx.buffers.qkv_output)
    }

    /// The override when there is one, the given default otherwise.
    pub open spec fn spec_attn_scale(&self, default_scale: u32) -> u32 {
        match self.attn_scale_override {
            Some(x) => x,
            None => default_scale,
        }
    }

    /// The softmax scale: the override, or else `default_scale`, which is one
    /// over the square root of the head dimension (f32 bits).
    pub fn effective_attn_scale(&self, default_scale: u32) -> (r: u32)
        ensures
            r == self.spec_attn_scale(default_scale),
    {
        match self.attn_scale_override {
            Some(x) => x,
            None => default_scale,
        }
    }
}

} // verus!
