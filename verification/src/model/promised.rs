//! What callers of a model may rely on, whatever a call returns.

use crate::config::{LayerType, ModelConfig};
use crate::gpu::{f32_positive, DevicePtr, F32_ONE};
use crate::mistral::{yarn_parameters, YarnParameters};
use crate::model::meta::PoolLayer;
use crate::model::sequence::LayerState;
use crate::model::TransformerModel;
use crate::plan::{Op, Step};
use vstd::prelude::*;

verus! {

impl TransformerModel {
    /// The most likely token is searched once, among all logits that are handed
    /// in, with the kernel for their precision, and is found where the caller is
    /// told to read it.
    pub proof fn lemma_argmax(&self, logits: DevicePtr, r: (Vec<Step>, DevicePtr))
        requires
            call_ensures(TransformerModel::argmax_on_device_dispatch, (self, logits), r),
        ensures
            r.0@.len() == 1,
            r.0@[0] matches Step::On(st, Op::Argmax(k, from, to, n)) && st == self.default_stream
                && from == logits && to == r.1 && n == self.config.vocab_size as u32 && k == if
            self.use_fp32_logits && logits == self.logits_fp32_buf {
                self.k.argmax_logits
            } else {
                self.k.argmax
            },
    {
    }

    /// The states of a new sequence come from the pool: every linear-attention
    /// layer has all its states from one entry, each in its own role and with
    /// checkpoints exactly where tokens are drafted, and no two layers share an
    /// entry. Layers of other kinds hold none.
    pub proof fn lemma_states_apart(
        &self,
        states: Seq<LayerState>,
        pool: Seq<PoolLayer>,
        i: int,
        j: int,
    )
        requires
            forall|k: int|
                0 <= k < self.layers@.len() ==> #[trigger] self.fresh_state(states[k], pool, k),
            pool.len() >= self.linear_before(self.layers@.len()),
            forall|a: int, b: int|
                0 <= a < b < pool.len() ==> #[trigger] pool[a].h_state != (
                #[trigger] pool[b]).h_state,
            0 <= i <= j < self.layers@.len(),
        ensures
            self.layers@[i].kind != LayerType::LinearAttention ==> states[i] is Cached,
            self.layers@[i].kind == LayerType::LinearAttention ==> exists|k: int|
                0 <= k < pool.len() && {
                    let st = states[i]->Recurrent_0;
                    let p = #[trigger] pool[k];
                    let drafts = self.has_proposer || self.self_speculative;
                    &&& states[i] is Recurrent
                    &&& st.h_state == p.h_state && st.conv_state == p.conv_state
                    &&& drafts ==> st.h_state_checkpoint == Some(p.h_checkpoint)
                        && st.conv_state_checkpoint == Some(p.conv_checkpoint)
                        && st.h_state_intermediates@ == p.h_intermediates@
                        && st.conv_state_intermediates@ == p.conv_intermediates@
                    &&& !drafts ==> st.h_state_checkpoint is None
                        && st.conv_state_checkpoint is None
                },
            i < j && self.layers@[i].kind == LayerType::LinearAttention && self.layers@[j].kind
                == LayerType::LinearAttention ==> states[i]->Recurrent_0.h_state
                != states[j]->Recurrent_0.h_state,
    {
        let n = self.layers@.len();
        assert(self.fresh_state(states[i], pool, i));
        assert(self.fresh_state(states[j], pool, j));
        self.lemma_linear_mono((i + 1) as nat, n);
        self.lemma_linear_mono((j + 1) as nat, n);
        let a = self.linear_before(i as nat) as int;
        let b = self.linear_before(j as nat) as int;
        if self.layers@[i].kind == LayerType::LinearAttention {
            assert(self.linear_before((i + 1) as nat) == a + 1);
            assert(pool[a] == pool[a]);
            if i < j && self.layers@[j].kind == LayerType::LinearAttention {
                self.lemma_linear_mono((i + 1) as nat, j as nat);
                assert(self.linear_before((j + 1) as nat) == b + 1);
                assert(pool[a].h_state != pool[b].h_state);
            }
        }
    }

    /// The rows of several images are those of all of them, in any grouping.
    pub proof fn lemma_patches_add_up(a: Seq<usize>, b: Seq<usize>, x: usize)
        ensures
            Self::sum_patches(a + b) == Self::sum_patches(a) + Self::sum_patches(b),
            Self::sum_patches(seq![x]) == x,
        decreases b.len(),
    {
        assert(seq![x].drop_last() =~= Seq::<usize>::empty());
        assert(Self::sum_patches(Seq::<usize>::empty()) == 0);
        if b.len() == 0 {
            assert(a + b =~= a);
        } else {
            Self::lemma_patches_add_up(a, b.drop_last(), x);
            assert((a + b).drop_last() =~= a + b.drop_last());
        }
    }
}

/// Rotary parameters that are given and positive are used as they are; for the
/// others there is a factor of one and cutoffs of 32 and 1 rotations, over 8192
/// positions.
pub proof fn lemma_yarn(c: &ModelConfig, rope: usize, r: YarnParameters)
    requires
        call_ensures(yarn_parameters, (c, rope), r),
    ensures
        f32_positive(c.yarn_factor) ==> r.factor == c.yarn_factor,
        !f32_positive(c.yarn_factor) ==> r.factor == F32_ONE,
        f32_positive(c.yarn_beta_fast) ==> r.beta_fast == c.yarn_beta_fast,
        !f32_positive(c.yarn_beta_fast) ==> r.beta_fast == 0x4200_0000,
        f32_positive(c.yarn_beta_slow) ==> r.beta_slow == c.yarn_beta_slow,
        !f32_positive(c.yarn_beta_slow) ==> r.beta_slow == F32_ONE,
        c.yarn_original_max_position_embeddings > 0 ==> r.original_positions
            == c.yarn_original_max_position_embeddings,
        c.yarn_original_max_position_embeddings == 0 ==> r.original_positions == 8192,
        r.pairs == rope / 2,
{
}

} // verus!
