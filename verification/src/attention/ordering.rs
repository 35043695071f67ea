//! What the plans of latent attention promise about the order of their steps.

use crate::attention::mla_cache_skip::MlaCacheSkip;
use crate::attention::mla_decode::MlaDecode;
use crate::attention::mla_paged::MlaPaged;
use crate::plan::{lemma_one_more, steps_with, Op, Step};
use vstd::prelude::*;

verus! {

/// The step stores rows into the cache.
pub open spec fn is_store() -> spec_fn(Step) -> bool {
    |x: Step|
        match x {
            Step::On(_, Op::WriteKvCache(..)) => true,
            _ => false,
        }
}

/// The step attends.
pub open spec fn is_attention() -> spec_fn(Step) -> bool {
    |x: Step|
        match x {
            Step::On(_, Op::PagedDecodeAttn(..)) => true,
            Step::On(_, Op::PrefillAttention(..)) => true,
            Step::On(_, Op::PrefillAttention64(..)) => true,
            Step::On(_, Op::LingMlaPrefillAttn(..)) => true,
            _ => false,
        }
}

/// Neither stores nor attends more often than `s` does.
pub open spec fn quiet(s: Seq<Step>, t: Seq<Step>) -> bool {
    &&& steps_with(t, is_store()) == steps_with(s, is_store())
    &&& steps_with(t, is_attention()) == steps_with(s, is_attention())
}

/// The step applies the head gate.
pub open spec fn is_head_gate() -> spec_fn(Step) -> bool {
    |x: Step|
        match x {
            Step::On(_, Op::HeadwiseGate(..)) => true,
            _ => false,
        }
}

/// Applies the head gate as often as `s` does.
pub open spec fn ungated(s: Seq<Step>, t: Seq<Step>) -> bool {
    steps_with(t, is_head_gate()) == steps_with(s, is_head_gate())
}

impl MlaDecode {
    proof fn lemma_heads(self, s: Seq<Step>, n: nat)
        ensures
            quiet(s, self.absorb_heads(s, n)),
            ungated(s, self.absorb_heads(s, n)),
            quiet(s, self.scatter_heads(s, n)),
            ungated(s, self.scatter_heads(s, n)),
            quiet(s, self.writeback_heads(s, n)),
            ungated(s, self.writeback_heads(s, n)),
            quiet(s, self.extract_heads(s, n)),
            ungated(s, self.extract_heads(s, n)),
        decreases n,
    {
        broadcast use lemma_one_more;

        if n > 0 {
            self.lemma_heads(s, (n - 1) as nat);
        }
    }

    proof fn lemma_queries(self, s: Seq<Step>)
        ensures
            quiet(s, self.q_latent(s)),
            ungated(s, self.q_latent(s)),
            quiet(s, self.q_full(s)),
            ungated(s, self.q_full(s)),
            quiet(s, self.absorb(s)),
            ungated(s, self.absorb(s)),
            quiet(s, self.scatter(s)),
            ungated(s, self.scatter(s)),
    {
        broadcast use lemma_one_more;

        self.lemma_heads(s, self.a.nq as nat);
    }

    proof fn lemma_keys(self, s: Seq<Step>)
        ensures
            quiet(s, self.kv_latent(s)),
            ungated(s, self.kv_latent(s)),
            quiet(s, self.k_rope(s)),
            ungated(s, self.k_rope(s)),
    {
        broadcast use lemma_one_more;

        let s1 = s.push(
            Step::On(
                self.a.stream,
                Op::DenseGemv(
                    self.k.dense_gemv,
                    self.a.normed,
                    self.m.wkv_a_rope,
                    self.b.ssm_qkvz,
                    self.rope(),
                    self.a.h,
                ),
            ),
        );
        let s2 = s1.push(
            Step::On(
                self.a.stream,
                Op::RopeYarn(
                    self.k.rope_yarn,
                    self.b.ssm_conv_out_f32,
                    self.b.ssm_qkvz,
                    self.meta.positions,
                    1,
                    self.a.nq,
                    1,
                    self.rope(),
                    self.rope(),
                    self.m.yarn_inv_freq,
                    self.theta,
                ),
            ),
        );
        self.lemma_heads(s2, self.a.nq as nat);
    }

    proof fn lemma_output(self, s: Seq<Step>)
        ensures
            quiet(s, self.extract(s)),
            quiet(s, self.gate(s)),
            quiet(s, self.o_proj(s)),
            ungated(s, self.extract(s)),
            ungated(s, self.o_proj(s)),
            steps_with(self.gate(s), is_head_gate()) == steps_with(s, is_head_gate()) + (
            if self.m.g_proj.weight.0 != 0 && self.lk.headwise_gate.0 != 0 {
                1nat
            } else {
                0
            }),
            self.m.g_proj.weight.0 == 0 ==> self.gate(s) == s,
    {
        broadcast use lemma_one_more;

        self.lemma_heads(s, self.a.nq as nat);
    }

    /// The steps up to and with the store of the new row.
    pub open spec fn until_store(self) -> Seq<Step> {
        let s = self.q_full(self.q_latent(Seq::empty()));
        let s = self.scatter(self.absorb(s));
        self.cache_write(self.k_rope(self.kv_latent(s)))
    }

    /// A decode step stores its row once and attends once, and it stores before
    /// it attends: the row sees itself. The head gate is applied once where the
    /// model has one and its kernel is loaded, and not otherwise.
    pub proof fn lemma_stores_then_attends(self)
        ensures
            steps_with(self.steps(), is_head_gate()) == (if self.m.g_proj.weight.0 != 0
                && self.lk.headwise_gate.0 != 0 {
                1nat
            } else {
                0
            }),
            steps_with(self.steps(), is_store()) == 1,
            steps_with(self.steps(), is_attention()) == 1,
            steps_with(self.until_store(), is_store()) == 1,
            steps_with(self.until_store(), is_attention()) == 0,
            self.steps() == self.o_proj(
                self.gate(self.extract(self.attend(self.until_store()))),
            ),
    {
        broadcast use lemma_one_more;

        let e = Seq::<Step>::empty();
        assert(steps_with(e, is_store()) == 0);
        assert(steps_with(e, is_attention()) == 0);
        assert(steps_with(e, is_head_gate()) == 0);
        self.lemma_queries(e);
        let a = self.q_latent(e);
        self.lemma_queries(a);
        let b = self.q_full(a);
        self.lemma_queries(b);
        let c = self.absorb(b);
        self.lemma_queries(c);
        let d = self.scatter(c);
        self.lemma_keys(d);
        let f = self.kv_latent(d);
        self.lemma_keys(f);
        let g = self.attend(self.until_store());
        self.lemma_output(g);
        self.lemma_output(self.extract(g));
        self.lemma_output(self.gate(self.extract(g)));
    }
}

impl MlaCacheSkip {
    proof fn lemma_parts(self, s: Seq<Step>)
        ensures
            quiet(s, self.project(s)),
            quiet(s, self.gate(s)),
            quiet(s, self.o_proj(s)),
            steps_with(self.rotate_and_store(s), is_store()) == steps_with(s, is_store()) + 1,
            steps_with(self.rotate_and_store(s), is_attention()) == steps_with(s, is_attention()),
            steps_with(self.attend(s), is_store()) == steps_with(s, is_store()),
            steps_with(self.attend(s), is_attention()) == steps_with(s, is_attention()) + 1,
    {
        broadcast use lemma_one_more;

    }

    proof fn lemma_front_ungated(self, s: Seq<Step>)
        ensures
            ungated(s, self.project(s)),
            ungated(s, self.rotate_and_store(s)),
    {
        broadcast use lemma_one_more;

    }

    proof fn lemma_gated(self, s: Seq<Step>)
        ensures
            ungated(s, self.attend(s)),
            ungated(s, self.o_proj(s)),
            steps_with(self.gate(s), is_head_gate()) == steps_with(s, is_head_gate()) + (
            if self.m.g_proj.weight.0 != 0 && self.lk.headwise_gate.0 != 0 {
                1nat
            } else {
                0
            }),
    {
        broadcast use lemma_one_more;

    }

    /// A prompt without cached rows is stored once and attended to once. The
    /// head gate is applied once where the model has one and its kernel is
    /// loaded. A model without one projects what it attended to.
    pub proof fn lemma_stores_and_attends_once(self)
        ensures
            steps_with(self.steps(), is_head_gate()) == (if self.m.g_proj.weight.0 != 0
                && self.lk.headwise_gate.0 != 0 {
                1nat
            } else {
                0
            }),
            self.m.g_proj.weight.0 == 0 ==> self.steps() == self.o_proj(
                self.attend(self.rotate_and_store(self.project(Seq::empty()))),
            ),
            steps_with(self.steps(), is_store()) == 1,
            steps_with(self.steps(), is_attention()) == 1,
    {
        let e = Seq::<Step>::empty();
        assert(steps_with(e, is_store()) == 0);
        assert(steps_with(e, is_attention()) == 0);
        assert(steps_with(e, is_head_gate()) == 0);
        self.lemma_parts(e);
        let a = self.project(e);
        self.lemma_parts(a);
        let b = self.rotate_and_store(a);
        self.lemma_parts(b);
        let c = self.attend(b);
        self.lemma_parts(c);
        self.lemma_parts(self.gate(c));
        self.lemma_front_ungated(e);
        self.lemma_front_ungated(a);
        self.lemma_gated(b);
        self.lemma_gated(c);
        self.lemma_gated(self.gate(c));
    }
}

impl MlaPaged {
    proof fn lemma_parts(self, s: Seq<Step>)
        ensures
            quiet(s, self.project(s)),
            steps_with(self.rotate_and_store(s), is_store()) == steps_with(s, is_store()) + 1,
            steps_with(self.rotate_and_store(s), is_attention()) == steps_with(s, is_attention()),
            steps_with(self.attend(s), is_store()) == steps_with(s, is_store()),
            steps_with(self.attend(s), is_attention()) == steps_with(s, is_attention()) + 1,
    {
        broadcast use lemma_one_more;

    }

    /// A prompt over the paged cache is stored once and attended to once.
    pub proof fn lemma_stores_and_attends_once(self)
        ensures
            steps_with(self.steps(), is_store()) == 1,
            steps_with(self.steps(), is_attention()) == 1,
    {
        let e = Seq::<Step>::empty();
        assert(steps_with(e, is_store()) == 0);
        assert(steps_with(e, is_attention()) == 0);
        self.lemma_parts(e);
        let a = self.project(e);
        self.lemma_parts(a);
        self.lemma_parts(self.rotate_and_store(a));
    }
}

} // verus!
