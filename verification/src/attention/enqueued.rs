//! Where the plans of latent attention are enqueued.

use crate::attention::mla_cache_skip::MlaCacheSkip;
use crate::attention::mla_decode::MlaDecode;
use crate::attention::mla_paged::MlaPaged;
use crate::meaning::streams::stray;
use crate::plan::{lemma_one_more, steps_with, Step};
use vstd::prelude::*;

verus! {

impl MlaDecode {
    /// The step is on another stream, or waits in a pass that is not timed.
    pub open spec fn strays(self) -> spec_fn(Step) -> bool {
        stray(self.a.stream, self.profile)
    }

    proof fn lemma_head_enqueued(self, s: Seq<Step>, n: nat)
        ensures
            steps_with(self.absorb_heads(s, n), self.strays()) == steps_with(s, self.strays()),
            steps_with(self.scatter_heads(s, n), self.strays()) == steps_with(s, self.strays()),
            steps_with(self.writeback_heads(s, n), self.strays()) == steps_with(s, self.strays()),
            steps_with(self.extract_heads(s, n), self.strays()) == steps_with(s, self.strays()),
        decreases n,
    {
        broadcast use lemma_one_more;

        if n > 0 {
            self.lemma_head_enqueued(s, (n - 1) as nat);
        }
    }

    proof fn lemma_front_enqueued(self, s: Seq<Step>)
        ensures
            ({
                let t = self.scatter(self.absorb(self.q_full(self.q_latent(s))));
                steps_with(t, self.strays()) == steps_with(s, self.strays())
            }),
    {
        broadcast use lemma_one_more;

        let q = self.q_full(self.q_latent(s));
        self.lemma_head_enqueued(q, self.a.nq as nat);
        self.lemma_head_enqueued(self.absorb(q), self.a.nq as nat);
    }

    proof fn lemma_keys_enqueued(self, s: Seq<Step>)
        ensures
            steps_with(self.k_rope(self.kv_latent(s)), self.strays()) == steps_with(
                s,
                self.strays(),
            ),
    {
        broadcast use lemma_one_more;

        let s1 = self.kv_latent(s);
        let t = self.k_rope(s1);
        assert forall|u: Seq<Step>|
            steps_with(#[trigger] self.writeback_heads(u, self.a.nq as nat), self.strays())
                == steps_with(u, self.strays()) by {
            self.lemma_head_enqueued(u, self.a.nq as nat);
        }
    }

    /// A decode step is enqueued on the stream that is given, and waits only where it is
    /// timed.
    pub proof fn lemma_enqueued(self)
        ensures
            steps_with(self.steps(), self.strays()) == 0,
    {
        broadcast use lemma_one_more;

        let s = self.q_full(self.q_latent(Seq::empty()));
        let s = self.scatter(self.absorb(s));
        self.lemma_front_enqueued(Seq::empty());
        self.lemma_keys_enqueued(s);
        let s = self.attend(self.cache_write(self.k_rope(self.kv_latent(s))));
        self.lemma_head_enqueued(s, self.a.nq as nat);
    }
}

impl MlaCacheSkip {
    /// A prefill is enqueued on the stream that is given.
    pub proof fn lemma_enqueued(self)
        ensures
            steps_with(self.steps(), stray(self.a.stream, true)) == 0,
    {
        broadcast use lemma_one_more;

    }
}

impl MlaPaged {
    /// A prefill is enqueued on the stream that is given, and waits only where every
    /// operation is waited for.
    pub proof fn lemma_enqueued(self)
        ensures
            steps_with(self.steps(), stray(self.a.stream, self.a.sync_each)) == 0,
    {
        broadcast use lemma_one_more;

    }
}

} // verus!
