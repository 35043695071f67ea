//! From a configuration file to a configuration, by model family.
//!
//! The fields of a configuration are read from JSON by whoever owns the reader.
//! This module says which part of the file holds them and settles everything
//! that depends on the family.

use crate::config::defaults::{F64_MILLIONTH, F64_ONE, F64_TEN_THOUSAND};
use crate::config::factory::{group_layers, grouped_layers};
use crate::config::json::{json_of, parse_json, Json, JsonView};
use crate::config::validate::{
    finalize_config, finalized, heads_consistent, layers_consistent, ConfigError,
};
use crate::config::{LayerType, ModelConfig, QuantizationConfig, VisionConfig};
use crate::gpu::{f64_positive, is_f64_positive};
use crate::text::{chars_of, same};
use vstd::prelude::*;

verus! {

/// Where the fields of a configuration stand, and what completes them.
#[derive(Clone, Copy, PartialEq, Eq, Structural, Debug)]
pub enum ConfigLayout {
    /// In `text_config`.
    Nested,
    /// At the top, under the names of this family.
    NemotronH,
    /// The parser of this family does everything.
    Gemma4,
    /// The parser of this family does everything.
    MiniMaxM2,
    /// At the top.
    BailingHybrid,
    /// At the top, complete.
    Flat,
}

/// What the parsers of other parts of the file found.
pub struct DeclaredParts {
    pub quantization: Option<QuantizationConfig>,
    pub vision: Option<VisionConfig>,
}

/// Whether `f` is what a file gives of the fields `c`: fields that no file
/// declares are empty or zero.
pub open spec fn as_read(f: ModelConfig, c: ModelConfig) -> bool {
    &&& f == (ModelConfig {
        kv_layer_dims: f.kv_layer_dims,
        vision: None,
        quantization_config: None,
        attn_gated: false,
        nested_config: false,
        mrope_section: f.mrope_section,
        mrope_interleaved: false,
        weight_prefix: f.weight_prefix,
        ep_rank: 0,
        ep_world_size: 0,
        tp_rank: 0,
        tp_world_size: 0,
        fp8_kv_calibration_tokens: 0,
        final_logit_softcapping: 0,
        embed_scale: 0,
        ..c
    })
    &&& f.kv_layer_dims@ == Seq::<(usize, usize)>::empty()
    &&& f.mrope_section@ == seq![0usize, 0, 0]
    &&& f.weight_prefix@ == Seq::<char>::empty()
}

/// Drops what no file declares.
fn read_fields(c: ModelConfig) -> (f: ModelConfig)
    ensures
        as_read(f, c),
{
    let f = ModelConfig {
        kv_layer_dims: Vec::new(),
        vision: None,
        quantization_config: None,
        attn_gated: false,
        nested_config: false,
        mrope_section: [0, 0, 0],
        mrope_interleaved: false,
        weight_prefix: String::new(),
        ep_rank: 0,
        ep_world_size: 0,
        tp_rank: 0,
        tp_world_size: 0,
        fp8_kv_calibration_tokens: 0,
        final_logit_softcapping: 0,
        embed_scale: 0,
        ..c
    };
    proof {
        assert(f.mrope_section@ =~= seq![0usize, 0, 0]);
    }
    f
}

/// The declared family; empty when there is none.
pub open spec fn family(raw: JsonView) -> Seq<char> {
    match raw.text_at("model_type"@) {
        Some(s) => s,
        None => ""@,
    }
}

pub open spec fn layout_of(top: Seq<char>) -> ConfigLayout {
    if top == "qwen3_vl_moe"@ || top == "qwen3_5_moe"@ || top == "qwen3_5"@ {
        ConfigLayout::Nested
    } else if top == "nemotron_h"@ {
        ConfigLayout::NemotronH
    } else if top == "gemma4"@ {
        ConfigLayout::Gemma4
    } else if top == "minimax_m2"@ {
        ConfigLayout::MiniMaxM2
    } else if top == "bailing_hybrid"@ || top == "bailing_moe_v3"@ {
        ConfigLayout::BailingHybrid
    } else {
        ConfigLayout::Flat
    }
}

fn layout_for(top: &str) -> (r: ConfigLayout)
    ensures
        r == layout_of(top@),
{
    if same(top, "qwen3_vl_moe") || same(top, "qwen3_5_moe") || same(top, "qwen3_5") {
        ConfigLayout::Nested
    } else if same(top, "nemotron_h") {
        ConfigLayout::NemotronH
    } else if same(top, "gemma4") {
        ConfigLayout::Gemma4
    } else if same(top, "minimax_m2") {
        ConfigLayout::MiniMaxM2
    } else if same(top, "bailing_hybrid") || same(top, "bailing_moe_v3") {
        ConfigLayout::BailingHybrid
    } else {
        ConfigLayout::Flat
    }
}

/// The layout of a configuration file.
pub fn config_layout(raw: &Json) -> (r: ConfigLayout)
    ensures
        r == layout_of(family(raw@)),
{
    let top: &str = match raw.text_at("model_type") {
        Some(s) => s,
        None => "",
    };
    layout_for(top)
}

// ---- nested ----

/// A member's number where the current value is still the default.
pub open spec fn refined(
    current: u64, default: u64, part: Option<JsonView>, key: Seq<char>,
) -> u64 {
    if current == default && part is Some && part->0.double_at(key) is Some {
        part->0.double_at(key)->0
    } else {
        current
    }
}

fn refine(current: u64, default: u64, part: Option<&Json>, key: &str) -> (r: u64)
    ensures
        r == refined(
            current,
            default,
            match part {
                Some(p) => Some(p@),
                None => None,
            },
            key@,
        ),
{
    match part {
        Some(p) => match p.double_at(key) {
            Some(x) => if current == default {
                x
            } else {
                current
            },
            None => current,
        },
        None => current,
    }
}

/// Entry `i` of a list of three sizes; entries that are no sizes count as zero.
pub open spec fn section_entry(items: Seq<JsonView>, i: int) -> usize {
    match items[i].as_unsigned() {
        Some(x) => x as usize,
        None => 0,
    }
}

/// The rotary sections: those of the file when it lists three.
pub open spec fn sections(current: Seq<usize>, rope: Option<JsonView>) -> Seq<usize> {
    if rope is Some && rope->0.get("mrope_section"@) is Some && rope->0.get(
        "mrope_section"@,
    )->0 is Array && rope->0.get("mrope_section"@)->0->Array_0.len() == 3 {
        let items = rope->0.get("mrope_section"@)->0->Array_0;
        seq![section_entry(items, 0), section_entry(items, 1), section_entry(items, 2)]
    } else {
        current
    }
}

/// Whether the rotary channels of the sections alternate.
pub open spec fn interleaved(current: bool, rope: Option<JsonView>) -> bool {
    match rope {
        Some(p) => match p.flag_at("mrope_interleaved"@) {
            Some(b) => b,
            None => false,
        },
        None => current,
    }
}

/// The family that a nested configuration belongs to. Sparse models with
/// alternating sections form a family of their own.
pub open spec fn nested_family(
    top: Seq<char>,
    rope: Option<JsonView>,
    alternates: bool,
    sections: Seq<usize>,
) -> Seq<char> {
    if rope is Some && (top == "qwen3_5_moe"@ || top == "qwen3_vl_moe"@) && alternates && (
    sections[0] > 0 || sections[1] > 0 || sections[2] > 0) {
        "qwen3_6_moe"@
    } else {
        top
    }
}

/// Whether `r` completes the fields `c` of a nested configuration.
pub open spec fn completes_nested(
    r: ModelConfig,
    c: ModelConfig,
    raw: JsonView,
    text: JsonView,
    top: Seq<char>,
    vision: Option<VisionConfig>,
) -> bool {
    let rope = text.get("rope_parameters"@);
    &&& r == (ModelConfig {
        model_type: r.model_type,
        eos_token_id: if c.eos_token_id == 0 {
            match text.unsigned_at("eos_token_id"@) {
                Some(x) => x as u32,
                None => 0,
            }
        } else {
            c.eos_token_id
        },
        vocab_size: if c.vocab_size == 0 {
            match raw.unsigned_at("vocab_size"@) {
                Some(x) => x as usize,
                None => 0,
            }
        } else {
            c.vocab_size
        },
        rope_theta: refined(c.rope_theta, F64_TEN_THOUSAND, rope, "rope_theta"@),
        partial_rotary_factor: refined(
            c.partial_rotary_factor,
            F64_ONE,
            rope,
            "partial_rotary_factor"@,
        ),
        norm_topk_prob: true,
        nested_config: true,
        attn_gated: top != "qwen3_vl_moe"@,
        vision: if top == "qwen3_vl_moe"@ || raw.get("vision_config"@) is Some {
            vision
        } else {
            c.vision
        },
        mrope_section: r.mrope_section,
        mrope_interleaved: interleaved(c.mrope_interleaved, rope),
        ..c
    })
    &&& r.mrope_section@ == sections(c.mrope_section@, rope)
    &&& r.model_type@ == nested_family(top, rope, r.mrope_interleaved, r.mrope_section@)
}

/// Completes the fields of a nested configuration.
pub fn complete_nested(
    c: ModelConfig,
    raw: &Json,
    text: &Json,
    top: &str,
    vision: Option<VisionConfig>,
) -> (r: ModelConfig)
    ensures
        completes_nested(r, c, raw@, text@, top@, vision),
{
    let eos_token_id: u32 = if c.eos_token_id == 0 {
        match text.unsigned_at("eos_token_id") {
            Some(x) => x as u32,
            None => 0,
        }
    } else {
        c.eos_token_id
    };
    let vocab_size: usize = if c.vocab_size == 0 {
        match raw.unsigned_at("vocab_size") {
            Some(x) => x as usize,
            None => 0,
        }
    } else {
        c.vocab_size
    };
    let rope: Option<&Json> = text.get("rope_parameters");
    let rope_theta: u64 = refine(c.rope_theta, F64_TEN_THOUSAND, rope, "rope_theta");
    let partial_rotary_factor: u64 = refine(
        c.partial_rotary_factor,
        F64_ONE,
        rope,
        "partial_rotary_factor",
    );
    let is_vl: bool = same(top, "qwen3_vl_moe");
    let has_vision: bool = is_vl || raw.get("vision_config").is_some();
    let mrope_section: [usize; 3] = read_sections(c.mrope_section, rope);
    let mrope_interleaved: bool = match rope {
        Some(p) => match p.flag_at("mrope_interleaved") {
            Some(b) => b,
            None => false,
        },
        None => c.mrope_interleaved,
    };
    let special: bool = rope.is_some() && (same(top, "qwen3_5_moe") || is_vl) && mrope_interleaved
        && (mrope_section[0] > 0 || mrope_section[1] > 0 || mrope_section[2] > 0);
    let model_type: String = if special {
        "qwen3_6_moe".to_owned()
    } else {
        top.to_owned()
    };
    if has_vision {
        ModelConfig {
            model_type,
            eos_token_id,
            vocab_size,
            rope_theta,
            partial_rotary_factor,
            norm_topk_prob: true,
            nested_config: true,
            attn_gated: !is_vl,
            vision,
            mrope_section,
            mrope_interleaved,
            ..c
        }
    } else {
        ModelConfig {
            model_type,
            eos_token_id,
            vocab_size,
            rope_theta,
            partial_rotary_factor,
            norm_topk_prob: true,
            nested_config: true,
            attn_gated: !is_vl,
            mrope_section,
            mrope_interleaved,
            ..c
        }
    }
}

fn read_sections(current: [usize; 3], rope: Option<&Json>) -> (r: [usize; 3])
    ensures
        r@ == sections(
            current@,
            match rope {
                Some(p) => Some(p@),
                None => None,
            },
        ),
{
    match rope {
        Some(p) => match p.get("mrope_section") {
            Some(Json::Array(ms)) => {
                if ms.len() != 3 {
                    return current;
                }
                let a: usize = match ms[0].as_u64() {
                    Some(x) => x as usize,
                    None => 0,
                };
                let b: usize = match ms[1].as_u64() {
                    Some(x) => x as usize,
                    None => 0,
                };
                let c: usize = match ms[2].as_u64() {
                    Some(x) => x as usize,
                    None => 0,
                };
                let r: [usize; 3] = [a, b, c];
                proof {
                    let items = p@.get("mrope_section"@)->0->Array_0;
                    assert(items[0] == ms@[0].view());
                    assert(items[1] == ms@[1].view());
                    assert(items[2] == ms@[2].view());
                    assert(r@ =~= seq![
                        section_entry(items, 0),
                        section_entry(items, 1),
                        section_entry(items, 2),
                    ]);
                }
                r
            },
            _ => current,
        },
        None => current,
    }
}

// ---- patterns ----

/// The kind of layer that a letter stands for.
pub open spec fn layer_code(c: char) -> Option<LayerType> {
    if c == 'M' {
        Some(LayerType::LinearAttention)
    } else if c == 'E' {
        Some(LayerType::Moe)
    } else if c == '*' {
        Some(LayerType::FullAttention)
    } else {
        None
    }
}

pub open spec fn pattern_known(pattern: Seq<char>) -> bool {
    forall|i: int| 0 <= i < pattern.len() ==> layer_code(#[trigger] pattern[i]) is Some
}

pub open spec fn pattern_layers(pattern: Seq<char>) -> Seq<LayerType> {
    pattern.map_values(|c: char| layer_code(c)->0)
}

/// The layers of a pattern, or none when a letter is unknown.
pub fn layers_of_pattern(pattern: &str) -> (r: Option<Vec<LayerType>>)
    ensures
        match r {
            Some(v) => pattern_known(pattern@) && v@ == pattern_layers(pattern@),
            None => !pattern_known(pattern@),
        },
{
    let letters: Vec<char> = chars_of(pattern);
    let mut out: Vec<LayerType> = Vec::new();
    let mut i: usize = 0;
    while i < letters.len()
        invariant
            i <= letters@.len(),
            letters@ == pattern@,
            forall|j: int| 0 <= j < i ==> layer_code(#[trigger] pattern@[j]) is Some,
            out@ == pattern_layers(pattern@.take(i as int)),
        decreases letters@.len() - i,
    {
        let c: char = letters[i];
        if c == 'M' {
            out.push(LayerType::LinearAttention);
        } else if c == 'E' {
            out.push(LayerType::Moe);
        } else if c == '*' {
            out.push(LayerType::FullAttention);
        } else {
            proof {
                assert(layer_code(pattern@[i as int]) is None);
            }
            return None;
        }
        i = i + 1;
        proof {
            assert(out@ =~= pattern_layers(pattern@.take(i as int)));
        }
    }
    proof {
        assert(pattern@.take(i as int) =~= pattern@);
    }
    Some(out)
}

/// Whether the layers of a configuration come from its pattern.
pub open spec fn uses_pattern(c: ModelConfig) -> bool {
    c.hybrid_override_pattern@.len() > 0 && c.layer_types@.len() == 0
}

/// Whether `r` completes the fields `c` of this family: names of its own stand
/// for common ones where those are still the defaults.
pub open spec fn completes_nemotron(r: ModelConfig, c: ModelConfig) -> bool {
    &&& r == (ModelConfig {
        num_experts: if c.num_experts == 0 && c.n_routed_experts > 0 {
            c.n_routed_experts
        } else {
            c.num_experts
        },
        rms_norm_eps: if c.rms_norm_eps == F64_MILLIONTH && f64_positive(c.norm_eps) {
            c.norm_eps
        } else {
            c.rms_norm_eps
        },
        linear_conv_kernel_dim: if c.linear_conv_kernel_dim == 4 && c.conv_kernel > 0 {
            c.conv_kernel
        } else {
            c.linear_conv_kernel_dim
        },
        shared_expert_intermediate_size: if c.shared_expert_intermediate_size == 0
            && c.moe_shared_expert_intermediate_size > 0 {
            c.moe_shared_expert_intermediate_size
        } else {
            c.shared_expert_intermediate_size
        },
        attn_gated: false,
        weight_prefix: r.weight_prefix,
        layer_types: r.layer_types,
        ..c
    })
    &&& r.weight_prefix@ == "backbone"@
    &&& r.layer_types@ == (if uses_pattern(c) {
        pattern_layers(c.hybrid_override_pattern@)
    } else {
        c.layer_types@
    })
}

pub fn complete_nemotron(c: ModelConfig) -> (r: ModelConfig)
    requires
        uses_pattern(c) ==> pattern_known(c.hybrid_override_pattern@),
    ensures
        completes_nemotron(r, c),
{
    let num_experts: usize = if c.num_experts == 0 && c.n_routed_experts > 0 {
        c.n_routed_experts
    } else {
        c.num_experts
    };
    let rms_norm_eps: u64 = if c.rms_norm_eps == F64_MILLIONTH && is_f64_positive(c.norm_eps) {
        c.norm_eps
    } else {
        c.rms_norm_eps
    };
    let linear_conv_kernel_dim: usize = if c.linear_conv_kernel_dim == 4 && c.conv_kernel > 0 {
        c.conv_kernel
    } else {
        c.linear_conv_kernel_dim
    };
    let shared_expert_intermediate_size: usize = if c.shared_expert_intermediate_size == 0
        && c.moe_shared_expert_intermediate_size > 0 {
        c.moe_shared_expert_intermediate_size
    } else {
        c.shared_expert_intermediate_size
    };
    let mut from_pattern: Option<Vec<LayerType>> = None;
    if !c.hybrid_override_pattern.as_str().is_empty() && c.layer_types.len() == 0 {
        from_pattern = layers_of_pattern(c.hybrid_override_pattern.as_str());
    }
    let weight_prefix: String = "backbone".to_owned();
    match from_pattern {
        Some(layer_types) => ModelConfig {
            num_experts,
            rms_norm_eps,
            linear_conv_kernel_dim,
            shared_expert_intermediate_size,
            attn_gated: false,
            weight_prefix,
            layer_types,
            ..c
        },
        None => ModelConfig {
            num_experts,
            rms_norm_eps,
            linear_conv_kernel_dim,
            shared_expert_intermediate_size,
            attn_gated: false,
            weight_prefix,
            ..c
        },
    }
}

// ---- groups ----

/// Layers per group; zero when the file names none.
pub open spec fn group_size(raw: JsonView) -> usize {
    match raw.unsigned_at("layer_group_size"@) {
        Some(x) => x as usize,
        None => 0,
    }
}

pub open spec fn or_else(current: usize, fallback: usize) -> usize {
    if current == 0 {
        fallback
    } else {
        current
    }
}

/// Whether `r` completes the fields `c` of this family: each layer that ends a
/// group is full attention, linear attention has the heads of full attention,
/// and experts are selected by biased sigmoids.
pub open spec fn completes_bailing(r: ModelConfig, c: ModelConfig, raw: JsonView) -> bool {
    let group = group_size(raw);
    let width = if c.head_dim == 0 {
        1
    } else {
        c.head_dim
    };
    let drafts = match raw.unsigned_at("num_nextn_predict_layers"@) {
        Some(x) => x as usize,
        None => 0,
    };
    &&& r == (ModelConfig {
        nested_config: false,
        full_attention_interval: if c.full_attention_interval == 1 && group > 1 {
            group
        } else {
            c.full_attention_interval
        },
        layer_types: r.layer_types,
        linear_num_key_heads: or_else(c.linear_num_key_heads, c.num_attention_heads),
        linear_num_value_heads: or_else(c.linear_num_value_heads, c.num_attention_heads),
        linear_key_head_dim: or_else(c.linear_key_head_dim, width),
        linear_value_head_dim: or_else(c.linear_value_head_dim, width),
        linear_conv_kernel_dim: or_else(
            c.linear_conv_kernel_dim,
            match raw.unsigned_at("short_conv_kernel_size"@) {
                Some(x) => x as usize,
                None => 4,
            },
        ),
        scoring_func: r.scoring_func,
        use_routing_bias: true,
        num_mtp_modules: if drafts > 0 && c.num_mtp_modules == 0 {
            drafts
        } else {
            c.num_mtp_modules
        },
        weight_prefix: r.weight_prefix,
        ..c
    })
    &&& r.layer_types@ == (if c.layer_types@.len() == 0 && group > 1 {
        grouped_layers(c.num_hidden_layers as nat, group as int)
    } else {
        c.layer_types@
    })
    &&& r.scoring_func@ == "sigmoid"@
    &&& r.weight_prefix@ == "model"@
}

fn complete_bailing(c: ModelConfig, raw: &Json) -> (r: ModelConfig)
    ensures
        completes_bailing(r, c, raw@),
{
    let mut r: ModelConfig = c;
    r.nested_config = false;
    let group: usize = match raw.unsigned_at("layer_group_size") {
        Some(x) => x as usize,
        None => 0,
    };
    if r.full_attention_interval == 1 && group > 1 {
        r.full_attention_interval = group;
    }
    if r.layer_types.len() == 0 && group > 1 {
        r.layer_types = group_layers(r.num_hidden_layers, group);
    }
    let width: usize = if r.head_dim == 0 {
        1
    } else {
        r.head_dim
    };
    let heads: usize = r.num_attention_heads;
    if r.linear_num_key_heads == 0 {
        r.linear_num_key_heads = heads;
    }
    if r.linear_num_value_heads == 0 {
        r.linear_num_value_heads = heads;
    }
    if r.linear_key_head_dim == 0 {
        r.linear_key_head_dim = width;
    }
    if r.linear_value_head_dim == 0 {
        r.linear_value_head_dim = width;
    }
    if r.linear_conv_kernel_dim == 0 {
        r.linear_conv_kernel_dim = match raw.unsigned_at("short_conv_kernel_size") {
            Some(x) => x as usize,
            None => 4,
        };
    }
    r.scoring_func = "sigmoid".to_owned();
    r.use_routing_bias = true;
    let drafts: usize = match raw.unsigned_at("num_nextn_predict_layers") {
        Some(x) => x as usize,
        None => 0,
    };
    if drafts > 0 && r.num_mtp_modules == 0 {
        r.num_mtp_modules = drafts;
    }
    r.weight_prefix = "model".to_owned();
    r
}

/// The outcome of completing and checking: `r` is the checked configuration, or
/// says what is wrong with it.
pub open spec fn checked(
    r: Result<ModelConfig, ConfigError>,
    c: ModelConfig,
    declared: Option<QuantizationConfig>,
) -> bool {
    let f = finalized(c, declared);
    match r {
        Ok(x) => x == f && layers_consistent(&f) && heads_consistent(&f),
        Err(ConfigError::LayerTypesLength(types, layers)) => !layers_consistent(&f) && types
            == f.layer_types@.len() && layers == f.num_hidden_layers,
        Err(ConfigError::MissingLinearHeads) => layers_consistent(&f) && !heads_consistent(&f),
        Err(_) => false,
    }
}

fn finish(c: ModelConfig, declared: Option<QuantizationConfig>) -> (r: Result<
    ModelConfig,
    ConfigError,
>)
    ensures
        checked(r, c, declared),
{
    let mut x: ModelConfig = c;
    match finalize_config(&mut x, declared) {
        Ok(_) => Ok(x),
        Err(e) => Err(e),
    }
}

/// Completes and checks a configuration of this family. Its attention is
/// latent, so it needs a rank, and its rotary base has to be positive.
pub fn parse_bailing_hybrid(
    c: ModelConfig,
    raw: &Json,
    declared: Option<QuantizationConfig>,
) -> (r: Result<ModelConfig, ConfigError>)
    ensures
        bailing_outcome(r, c, raw@, declared),
{
    if c.kv_lora_rank == 0 {
        return Err(ConfigError::MissingLatentRank);
    }
    if !is_f64_positive(c.rope_theta) {
        return Err(ConfigError::RopeTheta);
    }
    let f: ModelConfig = read_fields(c);
    let ghost g = f;
    let x: ModelConfig = complete_bailing(f, raw);
    let r: Result<ModelConfig, ConfigError> = finish(x, declared);
    proof {
        assert(as_read(g, c));
        assert(completes_bailing(x, g, raw@) && checked(r, x, declared));
    }
    r
}

pub open spec fn bailing_outcome(
    r: Result<ModelConfig, ConfigError>,
    c: ModelConfig,
    raw: JsonView,
    declared: Option<QuantizationConfig>,
) -> bool {
    if c.kv_lora_rank == 0 {
        r == Err::<ModelConfig, ConfigError>(ConfigError::MissingLatentRank)
    } else if !f64_positive(c.rope_theta) {
        r == Err::<ModelConfig, ConfigError>(ConfigError::RopeTheta)
    } else {
        exists|f: ModelConfig, x: ModelConfig| #[trigger]
            as_read(f, c) && #[trigger] completes_bailing(x, f, raw) && checked(r, x, declared)
    }
}

// ---- all families ----

/// The outcome for the fields `f` of the file `raw`, where this module
/// completes them.
pub open spec fn completed_outcome(
    r: Result<ModelConfig, ConfigError>,
    f: ModelConfig,
    raw: JsonView,
    parts: DeclaredParts,
) -> bool {
    let top = family(raw);
    match layout_of(top) {
        ConfigLayout::Nested => match raw.get("text_config"@) {
            None => r == Err::<ModelConfig, ConfigError>(ConfigError::MissingTextConfig),
            Some(text) => exists|x: ModelConfig| #[trigger]
                completes_nested(x, f, raw, text, top, parts.vision) && checked(
                    r,
                    x,
                    parts.quantization,
                ),
        },
        ConfigLayout::NemotronH => exists|x: ModelConfig| #[trigger]
            completes_nemotron(x, f) && checked(r, x, parts.quantization),
        _ => checked(r, (ModelConfig { attn_gated: true, ..f }), parts.quantization),
    }
}

/// The outcome for the fields `c` read from the file `raw`.
pub open spec fn config_outcome(
    r: Result<ModelConfig, ConfigError>,
    c: ModelConfig,
    raw: JsonView,
    parts: DeclaredParts,
) -> bool {
    match layout_of(family(raw)) {
        ConfigLayout::Gemma4 => r == Ok::<ModelConfig, ConfigError>(c),
        ConfigLayout::MiniMaxM2 => r == Ok::<ModelConfig, ConfigError>(c),
        ConfigLayout::BailingHybrid => bailing_outcome(r, c, raw, parts.quantization),
        _ => exists|f: ModelConfig| #[trigger]
            as_read(f, c) && completed_outcome(r, f, raw, parts),
    }
}

/// Completes and checks the fields `c` that were read from the part of the file
/// that `config_layout` names.
pub fn config_from_json(raw: &Json, c: ModelConfig, parts: DeclaredParts) -> (r: Result<
    ModelConfig,
    ConfigError,
>)
    requires
        layout_of(family(raw@)) == ConfigLayout::NemotronH && uses_pattern(c) ==> pattern_known(
            c.hybrid_override_pattern@,
        ),
    ensures
        config_outcome(r, c, raw@, parts),
{
    let top: &str = match raw.text_at("model_type") {
        Some(s) => s,
        None => "",
    };
    match layout_for(top) {
        ConfigLayout::Gemma4 => Ok(c),
        ConfigLayout::MiniMaxM2 => Ok(c),
        ConfigLayout::BailingHybrid => parse_bailing_hybrid(c, raw, parts.quantization),
        layout => complete_config(raw, read_fields(c), layout, top, parts),
    }
}

fn complete_config(
    raw: &Json,
    f: ModelConfig,
    layout: ConfigLayout,
    top: &str,
    parts: DeclaredParts,
) -> (r: Result<ModelConfig, ConfigError>)
    requires
        top@ == family(raw@),
        layout == layout_of(top@),
        layout == ConfigLayout::NemotronH && uses_pattern(f) ==> pattern_known(
            f.hybrid_override_pattern@,
        ),
    ensures
        completed_outcome(r, f, raw@, parts),
{
    let ghost g = parts;
    match layout {
        ConfigLayout::Nested => match raw.get("text_config") {
            None => Err(ConfigError::MissingTextConfig),
            Some(text) => {
                let x: ModelConfig = complete_nested(f, raw, text, top, parts.vision);
                let r: Result<ModelConfig, ConfigError> = finish(x, parts.quantization);
                proof {
                    assert(completes_nested(x, f, raw@, text@, top@, g.vision) && checked(
                        r,
                        x,
                        g.quantization,
                    ));
                }
                r
            },
        },
        ConfigLayout::NemotronH => {
            let x: ModelConfig = complete_nemotron(f);
            let r: Result<ModelConfig, ConfigError> = finish(x, parts.quantization);
            proof {
                assert(completes_nemotron(x, f) && checked(r, x, g.quantization));
            }
            r
        },
        _ => {
            let mut x: ModelConfig = f;
            x.attn_gated = true;
            finish(x, parts.quantization)
        },
    }
}

/// The layout of a configuration file; none when it is not JSON.
pub fn parse_layout(json: &str) -> (r: Option<ConfigLayout>)
    ensures
        r == (match json_of(json@) {
            Some(raw) => Some(layout_of(family(raw))),
            None => None,
        }),
{
    match parse_json(json) {
        Some(raw) => Some(config_layout(&raw)),
        None => None,
    }
}

/// Reads a configuration file: `c` are the fields that were read from the part
/// that `parse_layout` names. A layer pattern with an unknown letter is refused.
pub fn parse_config(json: &str, c: ModelConfig, parts: DeclaredParts) -> (r: Result<
    ModelConfig,
    ConfigError,
>)
    ensures
        match json_of(json@) {
            None => r == Err::<ModelConfig, ConfigError>(ConfigError::InvalidJson),
            Some(raw) => if layout_of(family(raw)) == ConfigLayout::NemotronH && uses_pattern(c)
                && !pattern_known(c.hybrid_override_pattern@) {
                r == Err::<ModelConfig, ConfigError>(ConfigError::UnknownLayerCode)
            } else {
                config_outcome(r, c, raw, parts)
            },
        },
{
    match parse_json(json) {
        None => Err(ConfigError::InvalidJson),
        Some(raw) => {
            if config_layout(&raw) == ConfigLayout::NemotronH
                && !c.hybrid_override_pattern.as_str().is_empty() && c.layer_types.len() == 0
                && layers_of_pattern(c.hybrid_override_pattern.as_str()).is_none() {
                return Err(ConfigError::UnknownLayerCode);
            }
            config_from_json(&raw, c, parts)
        },
    }
}

/// Only the families with a nested file are marked as nested, and where no
/// family sets it, what no file declares stays empty.
pub proof fn lemma_nested_files(
    r: Result<ModelConfig, ConfigError>,
    c: ModelConfig,
    raw: JsonView,
    parts: DeclaredParts,
)
    requires
        config_outcome(r, c, raw, parts),
        r is Ok,
        layout_of(family(raw)) != ConfigLayout::Gemma4,
        layout_of(family(raw)) != ConfigLayout::MiniMaxM2,
    ensures
        r->Ok_0.nested_config == (layout_of(family(raw)) == ConfigLayout::Nested),
        r->Ok_0.quantization_config == parts.quantization,
        r->Ok_0.ep_world_size == 0,
        r->Ok_0.tp_world_size == 0,
{
}

/// Whatever the family, a configuration that is accepted by this module's own
/// rules has a consistent layer list and consistent heads.
pub proof fn lemma_accepted_is_consistent(
    r: Result<ModelConfig, ConfigError>,
    c: ModelConfig,
    raw: JsonView,
    parts: DeclaredParts,
)
    requires
        config_outcome(r, c, raw, parts),
        r is Ok,
        layout_of(family(raw)) != ConfigLayout::Gemma4,
        layout_of(family(raw)) != ConfigLayout::MiniMaxM2,
    ensures
        layers_consistent(&r->Ok_0),
        heads_consistent(&r->Ok_0),
{
}

} // verus!
