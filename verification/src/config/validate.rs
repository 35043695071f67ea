//! Checks on a finished configuration.

use crate::config::{LayerType, ModelConfig, QuantizationConfig};
use vstd::prelude::*;

verus! {

/// Why a configuration is refused.
#[derive(Clone, Copy, PartialEq, Eq, Structural, Debug)]
pub enum ConfigError {
    InvalidJson,
    /// A nested configuration has no text part.
    MissingTextConfig,
    /// A layer pattern has a letter that stands for nothing.
    UnknownLayerCode,
    /// Layer types, layers.
    LayerTypesLength(usize, usize),
    /// Linear-attention layers without a number of heads.
    MissingLinearHeads,
    /// Latent attention without a rank.
    MissingLatentRank,
    /// A rotary base that is not positive.
    RopeTheta,
}

/// Whether a layer of the kind is listed.
pub open spec fn lists(types: Seq<LayerType>, kind: LayerType) -> bool {
    exists|i: int| 0 <= i < types.len() && types[i] == kind
}

pub fn contains_type(types: &[LayerType], kind: LayerType) -> (r: bool)
    ensures
        r == lists(types@, kind),
{
    let mut i: usize = 0;
    while i < types.len()
        invariant
            i <= types@.len(),
            forall|j: int| 0 <= j < i ==> types@[j] != kind,
        decreases types@.len() - i,
    {
        if types[i] == kind {
            return true;
        }
        i = i + 1;
    }
    false
}

/// The layer list, where there is one, has an entry per layer.
pub open spec fn layers_consistent(c: &ModelConfig) -> bool {
    c.layer_types@.len() == 0 || c.layer_types@.len() == c.num_hidden_layers
}

/// Linear-attention layers have heads of one kind or the other.
pub open spec fn heads_consistent(c: &ModelConfig) -> bool {
    lists(c.layer_types@, LayerType::LinearAttention) ==> c.linear_num_key_heads > 0
        || c.mamba_num_heads > 0
}

/// Checks a configuration.
pub fn validate_config(c: &ModelConfig) -> (r: Result<(), ConfigError>)
    ensures
        match r {
            Ok(_) => layers_consistent(c) && heads_consistent(c),
            Err(ConfigError::LayerTypesLength(types, layers)) => !layers_consistent(c) && types
                == c.layer_types@.len() && layers == c.num_hidden_layers,
            Err(ConfigError::MissingLinearHeads) => layers_consistent(c) && !heads_consistent(c),
            Err(_) => false,
        },
{
    if c.layer_types.len() != 0 && c.layer_types.len() != c.num_hidden_layers {
        return Err(ConfigError::LayerTypesLength(c.layer_types.len(), c.num_hidden_layers));
    }
    let recurrent: bool = contains_type(c.layer_types.as_slice(), LayerType::LinearAttention)
        || c.linear_num_key_heads > 0;
    if recurrent && c.linear_num_key_heads == 0 && c.mamba_num_heads == 0 {
        return Err(ConfigError::MissingLinearHeads);
    }
    Ok(())
}

/// Fills the quantization in where the parser of the family has not, and checks
/// the configuration. `declared` is what the file declares.
pub fn finalize_config(c: &mut ModelConfig, declared: Option<QuantizationConfig>) -> (r: Result<
    (),
    ConfigError,
>)
    ensures
        *final(c) == finalized(*old(c), declared),
        match r {
            Ok(_) => layers_consistent(final(c)) && heads_consistent(final(c)),
            Err(ConfigError::LayerTypesLength(types, layers)) => !layers_consistent(final(c))
                && types == final(c).layer_types@.len() && layers == final(c).num_hidden_layers,
            Err(ConfigError::MissingLinearHeads) => layers_consistent(final(c))
                && !heads_consistent(final(c)),
            Err(_) => false,
        },
{
    if c.quantization_config.is_none() {
        c.quantization_config = declared;
    }
    validate_config(c)
}

pub open spec fn finalized(c: ModelConfig, declared: Option<QuantizationConfig>) -> ModelConfig {
    if c.quantization_config is None {
        ModelConfig { quantization_config: declared, ..c }
    } else {
        c
    }
}

} // verus!
