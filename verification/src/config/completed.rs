//! What completing a configuration keeps, and what it fills in.

use crate::config::dispatch::{
    completes_bailing, completes_nemotron, completes_nested, group_size, layer_code, layout_of,
    pattern_layers, sections, ConfigLayout,
};
use crate::config::factory::grouped_layers;
use crate::config::json::JsonView;
use crate::config::validate::{finalized, validate_config, ConfigError};
use crate::config::{LayerType, ModelConfig, QuantizationConfig, VisionConfig};
use crate::gpu::f64_positive;
use vstd::prelude::*;

verus! {

/// The extents of a configuration that no completion may touch.
pub open spec fn same_extents(a: ModelConfig, b: ModelConfig) -> bool {
    &&& a.hidden_size == b.hidden_size
    &&& a.num_hidden_layers == b.num_hidden_layers
    &&& a.num_attention_heads == b.num_attention_heads
    &&& a.num_key_value_heads == b.num_key_value_heads
    &&& a.head_dim == b.head_dim
    &&& a.intermediate_size == b.intermediate_size
    &&& a.moe_intermediate_size == b.moe_intermediate_size
    &&& a.num_experts_per_tok == b.num_experts_per_tok
    &&& a.kv_lora_rank == b.kv_lora_rank
}

/// Letters of a layer pattern stand for the kinds of layers, each for one.
pub proof fn lemma_pattern_letters(pattern: Seq<char>, i: int)
    requires
        0 <= i < pattern.len(),
        layer_code(pattern[i]) is Some,
    ensures
        pattern_layers(pattern).len() == pattern.len(),
        pattern_layers(pattern)[i] == LayerType::LinearAttention <==> pattern[i] == 'M',
        pattern_layers(pattern)[i] == LayerType::Moe <==> pattern[i] == 'E',
        pattern_layers(pattern)[i] == LayerType::FullAttention <==> pattern[i] == '*',
{
}

/// A name of the family's own stands for the common one exactly where that has
/// its default; a value that the file gives under the common name stays.
pub proof fn lemma_nemotron_names(r: ModelConfig, c: ModelConfig)
    requires
        completes_nemotron(r, c),
    ensures
        same_extents(r, c),
        c.num_experts > 0 ==> r.num_experts == c.num_experts,
        c.num_experts == 0 ==> r.num_experts == c.n_routed_experts,
        c.shared_expert_intermediate_size > 0 ==> r.shared_expert_intermediate_size
            == c.shared_expert_intermediate_size,
        c.shared_expert_intermediate_size == 0 ==> r.shared_expert_intermediate_size
            == c.moe_shared_expert_intermediate_size,
        c.linear_conv_kernel_dim != 4 || c.conv_kernel == 0 ==> r.linear_conv_kernel_dim
            == c.linear_conv_kernel_dim,
        c.linear_conv_kernel_dim == 4 && c.conv_kernel > 0 ==> r.linear_conv_kernel_dim
            == c.conv_kernel,
        !f64_positive(c.norm_eps) ==> r.rms_norm_eps == c.rms_norm_eps,
        r.rms_norm_eps == c.rms_norm_eps || r.rms_norm_eps == c.norm_eps,
        !r.attn_gated,
        c.layer_types@.len() > 0 ==> r.layer_types@ == c.layer_types@,
        c.layer_types@.len() == 0 && c.hybrid_override_pattern@.len() > 0 ==> r.layer_types@
            == pattern_layers(c.hybrid_override_pattern@),
        r.vocab_size == c.vocab_size && r.rope_theta == c.rope_theta,
{
}

/// Linear attention has the heads and the width of full attention where the file
/// gives none; what it gives stays.
pub proof fn lemma_bailing_names(r: ModelConfig, c: ModelConfig, raw: JsonView)
    requires
        completes_bailing(r, c, raw),
    ensures
        same_extents(r, c),
        c.linear_num_key_heads > 0 ==> r.linear_num_key_heads == c.linear_num_key_heads,
        c.linear_num_key_heads == 0 ==> r.linear_num_key_heads == c.num_attention_heads,
        c.linear_num_value_heads > 0 ==> r.linear_num_value_heads == c.linear_num_value_heads,
        c.linear_num_value_heads == 0 ==> r.linear_num_value_heads == c.num_attention_heads,
        c.linear_key_head_dim > 0 ==> r.linear_key_head_dim == c.linear_key_head_dim,
        c.linear_key_head_dim == 0 && c.head_dim > 0 ==> r.linear_key_head_dim == c.head_dim,
        c.linear_value_head_dim > 0 ==> r.linear_value_head_dim == c.linear_value_head_dim,
        c.linear_value_head_dim == 0 && c.head_dim > 0 ==> r.linear_value_head_dim == c.head_dim,
        c.linear_conv_kernel_dim > 0 ==> r.linear_conv_kernel_dim == c.linear_conv_kernel_dim,
        c.num_mtp_modules > 0 ==> r.num_mtp_modules == c.num_mtp_modules,
        c.full_attention_interval != 1 ==> r.full_attention_interval == c.full_attention_interval,
        c.layer_types@.len() > 0 ==> r.layer_types@ == c.layer_types@,
        c.layer_types@.len() == 0 && group_size(raw) > 1 ==> r.layer_types@ == grouped_layers(
            c.num_hidden_layers as nat,
            group_size(raw) as int,
        ),
        r.use_routing_bias && r.scoring_func@ == "sigmoid"@,
        r.num_experts == c.num_experts && r.vocab_size == c.vocab_size,
        !r.nested_config,
{
}

/// A nested file fills in only what its text part left open, from where it stands
/// in the file; experts' shares are normalized.
pub proof fn lemma_nested_names(
    r: ModelConfig,
    c: ModelConfig,
    raw: JsonView,
    text: JsonView,
    top: Seq<char>,
    vision: Option<VisionConfig>,
)
    requires
        completes_nested(r, c, raw, text, top, vision),
    ensures
        same_extents(r, c),
        c.eos_token_id != 0 ==> r.eos_token_id == c.eos_token_id,
        c.eos_token_id == 0 && text.unsigned_at("eos_token_id"@) is Some ==> r.eos_token_id
            == text.unsigned_at("eos_token_id"@)->0 as u32,
        c.vocab_size != 0 ==> r.vocab_size == c.vocab_size,
        c.vocab_size == 0 && raw.unsigned_at("vocab_size"@) is Some ==> r.vocab_size
            == raw.unsigned_at("vocab_size"@)->0 as usize,
        text.get("rope_parameters"@) is None ==> r.rope_theta == c.rope_theta
            && r.partial_rotary_factor == c.partial_rotary_factor && r.mrope_section@
            == c.mrope_section@ && r.mrope_interleaved == c.mrope_interleaved && r.model_type@
            == top,
        r.mrope_section@ == sections(c.mrope_section@, text.get("rope_parameters"@)),
        r.norm_topk_prob && r.nested_config,
        r.attn_gated <==> top != "qwen3_vl_moe"@,
        r.num_experts == c.num_experts,
        r.linear_num_key_heads == c.linear_num_key_heads,
        r.linear_num_value_heads == c.linear_num_value_heads,
{
}

/// A family is read in the way that is made for it, and only that.
pub proof fn lemma_families(top: Seq<char>)
    ensures
        layout_of(top) == ConfigLayout::NemotronH ==> top == "nemotron_h"@,
        layout_of(top) == ConfigLayout::Gemma4 ==> top == "gemma4"@,
        layout_of(top) == ConfigLayout::MiniMaxM2 ==> top == "minimax_m2"@,
        layout_of(top) == ConfigLayout::BailingHybrid ==> top == "bailing_hybrid"@ || top
            == "bailing_moe_v3"@,
        layout_of(top) == ConfigLayout::Nested <==> top == "qwen3_vl_moe"@ || top
            == "qwen3_5_moe"@ || top == "qwen3_5"@,
        layout_of(top) == ConfigLayout::Flat ==> top != "nemotron_h"@ && top != "gemma4"@ && top
            != "minimax_m2"@ && top != "bailing_hybrid"@ && top != "bailing_moe_v3"@,
{
}

/// A configuration is accepted exactly if it has a kind for every layer and no
/// more, and heads where a listed layer needs them.
pub proof fn lemma_validated(c: &ModelConfig, r: Result<(), ConfigError>)
    requires
        call_ensures(validate_config, (c,), r),
    ensures
        r is Ok <==> {
            &&& c.layer_kinds().len() == c.num_hidden_layers
            &&& forall|i: int|
                0 <= i < c.layer_types@.len() && (#[trigger] c.layer_types@[i])
                    == LayerType::LinearAttention ==> c.linear_num_key_heads + c.mamba_num_heads > 0
        },
{
}

/// What a configuration says of its quantization itself is kept; otherwise the
/// file's declaration stands. Nothing else changes, also if it is done again.
pub proof fn lemma_finalized(
    c: ModelConfig,
    declared: Option<QuantizationConfig>,
    again: Option<QuantizationConfig>,
)
    ensures
        c.quantization_config is Some ==> finalized(c, declared) == c,
        c.quantization_config is None ==> finalized(c, declared).quantization_config == declared,
        (ModelConfig { quantization_config: c.quantization_config, ..finalized(c, declared) }) == c,
        declared is Some ==> finalized(finalized(c, declared), again) == finalized(c, declared),
{
}

} // verus!
