//! How many layers of each kind a model has.

use crate::config::factory::{group_layers, grouped_layers};
use crate::config::{LayerType, ModelConfig};
use vstd::prelude::*;

verus! {

/// Layers of one kind in a list.
pub open spec fn layers_of(types: Seq<LayerType>, kind: LayerType) -> nat
    decreases types.len(),
{
    if types.len() == 0 {
        0
    } else {
        layers_of(types.drop_last(), kind) + (if types.last() == kind {
            1nat
        } else {
            0
        })
    }
}

fn count_layers(types: &[LayerType], kind: LayerType) -> (r: usize)
    ensures
        r == layers_of(types@, kind),
{
    let mut n: usize = 0;
    let mut i: usize = 0;
    while i < types.len()
        invariant
            i <= types@.len(),
            n <= i,
            n == layers_of(types@.take(i as int), kind),
        decreases types@.len() - i,
    {
        proof {
            assert(types@.take(i + 1).drop_last() =~= types@.take(i as int));
        }
        if types[i] == kind {
            n = n + 1;
        }
        i = i + 1;
    }
    proof {
        assert(types@.take(i as int) =~= types@);
    }
    n
}

impl ModelConfig {
    /// The kind of each layer: the list, or else full attention at the end of
    /// every group of `full_attention_interval` layers.
    pub open spec fn layer_kinds(&self) -> Seq<LayerType> {
        if self.layer_types@.len() > 0 {
            self.layer_types@
        } else {
            grouped_layers(self.num_hidden_layers as nat, self.full_attention_interval as int)
        }
    }

    fn count_kind(&self, kind: LayerType) -> (r: usize)
        requires
            self.layer_types@.len() > 0 || self.full_attention_interval > 0,
        ensures
            r == layers_of(self.layer_kinds(), kind),
    {
        if self.layer_types.len() > 0 {
            count_layers(self.layer_types.as_slice(), kind)
        } else {
            let types: Vec<LayerType> = group_layers(
                self.num_hidden_layers,
                self.full_attention_interval,
            );
            count_layers(types.as_slice(), kind)
        }
    }

    /// Layers with a recurrent state.
    pub fn num_ssm_layers(&self) -> (r: usize)
        requires
            self.layer_types@.len() > 0 || self.full_attention_interval > 0,
        ensures
            r == layers_of(self.layer_kinds(), LayerType::LinearAttention),
    {
        self.count_kind(LayerType::LinearAttention)
    }

    /// Layers with a cache of keys and values.
    pub fn num_attention_layers(&self) -> (r: usize)
        requires
            self.layer_types@.len() > 0 || self.full_attention_interval > 0,
        ensures
            r == layers_of(self.layer_kinds(), LayerType::FullAttention),
    {
        self.count_kind(LayerType::FullAttention)
    }
}

/// Every layer is of one kind.
pub proof fn lemma_layers_of(types: Seq<LayerType>)
    ensures
        layers_of(types, LayerType::FullAttention) + layers_of(types, LayerType::LinearAttention)
            + layers_of(types, LayerType::Moe) == types.len(),
    decreases types.len(),
{
    if types.len() > 0 {
        lemma_layers_of(types.drop_last());
    }
}

} // verus!
