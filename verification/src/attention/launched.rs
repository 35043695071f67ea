//! Which kernels the plans of latent attention launch.

use crate::attention::mla_cache_skip::MlaCacheSkip;
use crate::attention::mla_decode::MlaDecode;
use crate::attention::mla_paged::MlaPaged;
use crate::plan::{lemma_one_more, steps_with, Op, Step};
use vstd::prelude::*;

verus! {

impl MlaDecode {
    /// Whether an operation is launched with the kernel that was loaded for it.
    pub open spec fn right_kernel(self, op: Op) -> bool {
        match op {
            Op::DenseGemv(k, ..) => k == self.k.dense_gemv,
            Op::W4a16Gemv(k, ..) => k == self.k.w4a16_gemv,
            Op::RmsNorm(k, ..) => k == self.k.rms_norm,
            Op::MlaBatchedGemv(k, ..) => k == self.k.mla_batched_gemv,
            Op::MlaQRopeScatter(k, ..) => k == self.k.mla_q_rope_scatter,
            Op::RopeYarn(k, ..) => k == self.k.rope_yarn,
            Op::MlaQRopeWriteback(k, ..) => k == self.k.mla_q_rope_writeback,
            Op::MlaCacheAssemble(k, ..) => k == self.k.mla_cache_assemble,
            Op::PagedDecodeAttn(k, ..) => k == self.k.paged_decode_mla,
            Op::HeadwiseGate(k, ..) => k == self.lk.headwise_gate,
            Op::CopyD2d(..) => true,
            Op::Memset(..) => true,
            Op::Synchronize => true,
            Op::WriteKvCache(..) => true,
            _ => false,
        }
    }

    /// The step launches another kernel than the one for it.
    pub open spec fn wrong_kernel(self) -> spec_fn(Step) -> bool {
        |x: Step|
            match x {
                Step::On(_, op) => !self.right_kernel(op),
                _ => false,
            }
    }

    proof fn lemma_head_kernels(self, s: Seq<Step>, n: nat)
        ensures
            steps_with(self.absorb_heads(s, n), self.wrong_kernel()) == steps_with(
                s,
                self.wrong_kernel(),
            ),
            steps_with(self.scatter_heads(s, n), self.wrong_kernel()) == steps_with(
                s,
                self.wrong_kernel(),
            ),
            steps_with(self.writeback_heads(s, n), self.wrong_kernel()) == steps_with(
                s,
                self.wrong_kernel(),
            ),
            steps_with(self.extract_heads(s, n), self.wrong_kernel()) == steps_with(
                s,
                self.wrong_kernel(),
            ),
        decreases n,
    {
        broadcast use lemma_one_more;

        if n > 0 {
            self.lemma_head_kernels(s, (n - 1) as nat);
        }
    }

    proof fn lemma_front_kernels(self, s: Seq<Step>)
        ensures
            ({
                let t = self.scatter(self.absorb(self.q_full(self.q_latent(s))));
                steps_with(t, self.wrong_kernel()) == steps_with(s, self.wrong_kernel())
            }),
    {
        broadcast use lemma_one_more;

        let q = self.q_full(self.q_latent(s));
        self.lemma_head_kernels(q, self.a.nq as nat);
        self.lemma_head_kernels(self.absorb(q), self.a.nq as nat);
    }

    proof fn lemma_keys_kernels(self, s: Seq<Step>)
        ensures
            steps_with(self.k_rope(self.kv_latent(s)), self.wrong_kernel()) == steps_with(
                s,
                self.wrong_kernel(),
            ),
    {
        broadcast use lemma_one_more;

        let s1 = self.kv_latent(s);
        let t = self.k_rope(s1);
        assert forall|u: Seq<Step>|
            steps_with(#[trigger] self.writeback_heads(u, self.a.nq as nat), self.wrong_kernel())
                == steps_with(u, self.wrong_kernel()) by {
            self.lemma_head_kernels(u, self.a.nq as nat);
        }
    }

    /// Every step of a decode step launches the kernel loaded for it.
    pub proof fn lemma_kernels(self)
        ensures
            steps_with(self.steps(), self.wrong_kernel()) == 0,
    {
        broadcast use lemma_one_more;

        let s = self.q_full(self.q_latent(Seq::empty()));
        let s = self.scatter(self.absorb(s));
        self.lemma_front_kernels(Seq::empty());
        self.lemma_keys_kernels(s);
        let s = self.attend(self.cache_write(self.k_rope(self.kv_latent(s))));
        self.lemma_head_kernels(s, self.a.nq as nat);
    }
}

impl MlaCacheSkip {
    /// Whether an operation is launched with the kernel that was loaded for it.
    pub open spec fn right_kernel(self, op: Op) -> bool {
        match op {
            Op::DenseGemm(k, ..) => k == self.k.dense_gemm,
            Op::DenseGemmTc(k, ..) => k == self.k.dense_gemm_tc,
            Op::W4a16Gemm(k, ..) => k == self.k.w4a16_gemm,
            Op::RmsNorm(k, ..) => k == self.k.rms_norm,
            Op::MlaQRopeExtractBatched(k, ..) => k == self.k.mla_q_rope_extract_batched,
            Op::RopeYarn(k, ..) => k == self.k.rope_yarn,
            Op::MlaCacheAssembleBatched(k, ..) => k == self.k.mla_cache_assemble_batched,
            Op::MlaKvAssembleBatched(k, ..) => k == self.k.mla_kv_assemble_batched,
            Op::MlaQRopeWritebackBatched(k, ..) => k == self.k.mla_q_rope_writeback_batched,
            Op::LingMlaPrefillAttn(k, ..) => k == self.lk.ling_prefill_attn,
            Op::HeadwiseGate(k, ..) => k == self.lk.headwise_gate,
            Op::PrefillAttention64(k, ..) => if self.hd() == 192 && self.lk.prefill_h192.0 != 0 {
                k == self.lk.prefill_h192
            } else {
                k == self.k.prefill_attn_64
            },
            Op::Synchronize => true,
            Op::WriteKvCache(..) => true,
            _ => false,
        }
    }

    /// The step launches another kernel than the one for it.
    pub open spec fn wrong_kernel(self) -> spec_fn(Step) -> bool {
        |x: Step|
            match x {
                Step::On(_, op) => !self.right_kernel(op),
                _ => false,
            }
    }

    /// Every step of a prefill launches the kernel loaded for it.
    pub proof fn lemma_kernels(self)
        ensures
            steps_with(self.steps(), self.wrong_kernel()) == 0,
    {
        broadcast use lemma_one_more;

    }
}

impl MlaPaged {
    /// Whether an operation is launched with the kernel that was loaded for it.
    pub open spec fn right_kernel(self, op: Op) -> bool {
        match op {
            Op::DenseGemm(k, ..) => k == self.k.dense_gemm,
            Op::W4a16Gemm(k, ..) => k == self.k.w4a16_gemm,
            Op::RmsNorm(k, ..) => k == self.k.rms_norm,
            Op::MlaQRopeExtractBatched(k, ..) => k == self.k.mla_q_rope_extract_batched,
            Op::RopeYarn(k, ..) => k == self.k.rope_yarn,
            Op::MlaCacheAssembleBatched(k, ..) => k == self.k.mla_cache_assemble_batched,
            Op::MlaKvAssembleBatched(k, ..) => k == self.k.mla_kv_assemble_batched,
            Op::MlaQRopeWritebackBatched(k, ..) => k == self.k.mla_q_rope_writeback_batched,
            Op::PrefillAttention(k, ..) => if self.hd() > 256 && self.k.prefill_attn_512.0 != 0 {
                k == self.k.prefill_attn_512
            } else {
                k == self.k.prefill_attn
            },
            Op::Synchronize => true,
            Op::WriteKvCache(..) => true,
            _ => false,
        }
    }

    /// The step launches another kernel than the one for it.
    pub open spec fn wrong_kernel(self) -> spec_fn(Step) -> bool {
        |x: Step|
            match x {
                Step::On(_, op) => !self.right_kernel(op),
                _ => false,
            }
    }

    /// Every step of a prefill launches the kernel loaded for it.
    pub proof fn lemma_kernels(self)
        ensures
            steps_with(self.steps(), self.wrong_kernel()) == 0,
    {
        broadcast use lemma_one_more;

    }
}

} // verus!
