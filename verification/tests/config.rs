use atlas_plan::config::defaults::{
    default_conv_kernel, default_one, default_one_f64, default_partial_rotary, default_rms_eps,
    default_rope_theta, null_to_zero, nullable_u32,
};
use atlas_plan::config::dispatch::{
    complete_nemotron, config_from_json, config_layout, layers_of_pattern, parse_bailing_hybrid,
    parse_config, parse_layout, ConfigLayout, DeclaredParts,
};
use atlas_plan::config::factory::group_layers;
use atlas_plan::config::json::{parse_json, Json};
use atlas_plan::config::validate::{
    contains_type, finalize_config, validate_config, ConfigError,
};
use atlas_plan::config::{LayerType, ModelConfig, QuantizationConfig, VisionConfig};

/// A configuration with nothing in it but the defaults of a file.
fn empty() -> ModelConfig {
    let mut c = ModelConfig::qwen3_next_80b_nvfp4();
    c.hidden_size = 0;
    c.num_hidden_layers = 0;
    c.vocab_size = 0;
    c.num_attention_heads = 0;
    c.num_key_value_heads = 0;
    c.head_dim = 0;
    c.partial_rotary_factor = default_one_f64();
    c.linear_num_key_heads = 0;
    c.linear_key_head_dim = 0;
    c.linear_num_value_heads = 0;
    c.linear_value_head_dim = 0;
    c.linear_conv_kernel_dim = 0;
    c.num_experts = 0;
    c.num_experts_per_tok = 0;
    c.moe_intermediate_size = 0;
    c.shared_expert_intermediate_size = 0;
    c.norm_topk_prob = false;
    c.layer_types = vec![];
    c.full_attention_interval = 1;
    c.rope_theta = default_rope_theta();
    c.rms_norm_eps = default_rms_eps();
    c.eos_token_id = 0;
    c.model_type = String::new();
    c.mtp_num_hidden_layers = 0;
    c.num_mtp_modules = 0;
    c.quantization_config = None;
    c.vision = None;
    c.attn_gated = false;
    c.nested_config = false;
    c.mrope_section = [0, 0, 0];
    c.mrope_interleaved = false;
    c.weight_prefix = String::new();
    c.scoring_func = String::new();
    c.use_routing_bias = false;
    c
}

fn no_parts() -> DeclaredParts {
    DeclaredParts { quantization: None, vision: None }
}

fn mxfp4() -> QuantizationConfig {
    QuantizationConfig {
        quant_method: "compressed-tensors".to_string(),
        quant_algo: String::new(),
        format: "mxfp4-pack-quantized".to_string(),
        ignore_modules: vec![],
    }
}

const BAILING: &str = r#"{
    "model_type": "bailing_hybrid",
    "hidden_size": 2560,
    "num_hidden_layers": 42,
    "layer_group_size": 6,
    "head_dim": 128,
    "num_attention_heads": 32,
    "kv_lora_rank": 512,
    "qk_rope_head_dim": 64,
    "qk_nope_head_dim": 128,
    "v_head_dim": 128,
    "rope_theta": 6000000.0,
    "partial_rotary_factor": 0.5,
    "num_experts": 512,
    "num_experts_per_tok": 8,
    "moe_intermediate_size": 768,
    "n_group": 8,
    "topk_group": 4,
    "routed_scaling_factor": 2.5,
    "norm_topk_prob": true,
    "short_conv_kernel_size": 4,
    "num_nextn_predict_layers": 1,
    "quantization_config": {
        "quant_method": "compressed-tensors",
        "format": "mxfp4-pack-quantized"
    }
}"#;

/// The fields of the file above.
fn bailing_fields() -> ModelConfig {
    let mut c = empty();
    c.model_type = "bailing_hybrid".to_string();
    c.hidden_size = 2560;
    c.num_hidden_layers = 42;
    c.head_dim = 128;
    c.num_attention_heads = 32;
    c.kv_lora_rank = 512;
    c.qk_rope_head_dim = 64;
    c.qk_nope_head_dim = 128;
    c.v_head_dim = 128;
    c.rope_theta = 6e6f64.to_bits();
    c.partial_rotary_factor = 0.5f64.to_bits();
    c.num_experts = 512;
    c.num_experts_per_tok = 8;
    c.moe_intermediate_size = 768;
    c.n_group = 8;
    c.topk_group = 4;
    c.routed_scaling_factor = 2.5f64.to_bits();
    c.norm_topk_prob = true;
    c
}

#[test]
fn bailing_layer_types() {
    let raw = parse_json(BAILING).unwrap();
    assert_eq!(config_layout(&raw), ConfigLayout::BailingHybrid);
    let cfg = parse_bailing_hybrid(bailing_fields(), &raw, Some(mxfp4())).unwrap();
    assert_eq!(cfg.layer_types.len(), 42);
    let full = cfg.layer_types.iter().filter(|t| **t == LayerType::FullAttention).count();
    let linear = cfg.layer_types.iter().filter(|t| **t == LayerType::LinearAttention).count();
    assert_eq!(full, 7);
    assert_eq!(linear, 35);
    assert_eq!(cfg.layer_types[5], LayerType::FullAttention);
    assert_eq!(cfg.layer_types[41], LayerType::FullAttention);
    assert_eq!(cfg.layer_types[0], LayerType::LinearAttention);
    assert_eq!(cfg.full_attention_interval, 6);
    assert_eq!(cfg.scoring_func, "sigmoid");
    assert!(cfg.use_routing_bias);
    assert_eq!(cfg.num_experts, 512);
    assert_eq!(cfg.num_experts_per_tok, 8);
    assert_eq!(cfg.num_mtp_modules, 1);
    assert_eq!(cfg.kv_lora_rank, 512);
    assert_eq!(cfg.qk_rope_head_dim, 64);
    assert_eq!(cfg.weight_prefix, "model");
}

#[test]
fn bailing_borrows_heads_from_full_attention() {
    let cfg = parse_config(BAILING, bailing_fields(), no_parts()).unwrap();
    assert_eq!(cfg.linear_num_key_heads, 32);
    assert_eq!(cfg.linear_num_value_heads, 32);
    assert_eq!(cfg.linear_key_head_dim, 128);
    assert_eq!(cfg.linear_value_head_dim, 128);
    assert_eq!(cfg.linear_conv_kernel_dim, 4);
    assert!(!cfg.nested_config);
    assert_eq!(cfg.hidden_size, 2560);
    assert!(cfg.quantization_config.is_none());
}

#[test]
fn bailing_needs_a_rank_and_a_base() {
    let mut c = bailing_fields();
    c.kv_lora_rank = 0;
    c.rope_theta = 0;
    assert_eq!(parse_config(BAILING, c, no_parts()).err(), Some(ConfigError::MissingLatentRank));
    let mut c = bailing_fields();
    c.rope_theta = (-1.0f64).to_bits();
    assert_eq!(parse_config(BAILING, c, no_parts()).err(), Some(ConfigError::RopeTheta));
}

#[test]
fn json_is_taken_apart() {
    let v = parse_json(
        r#"{"a": [1, -2, 2.5, null, true, "x"], "b": {"c": "d"}, "n": 18446744073709551615}"#,
    ).unwrap();
    match v.get("a") {
        Some(Json::Array(items)) => {
            assert_eq!(items.len(), 6);
            assert_eq!(items[0].as_u64(), Some(1));
            assert_eq!(items[0].as_double_bits(), Some(1.0f64.to_bits()));
            assert_eq!(items[1].as_u64(), None);
            assert_eq!(items[1].as_double_bits(), Some((-2.0f64).to_bits()));
            assert_eq!(items[2].as_u64(), None);
            assert_eq!(items[2].as_double_bits(), Some(2.5f64.to_bits()));
            assert!(matches!(items[3], Json::Null));
            assert_eq!(items[4].as_bool(), Some(true));
            assert_eq!(items[5].as_str(), Some("x"));
            assert_eq!(items[5].as_u64(), None);
        }
        _ => panic!("no array"),
    }
    assert_eq!(v.get("b").unwrap().text_at("c"), Some("d"));
    assert_eq!(v.unsigned_at("n"), Some(u64::MAX));
    assert_eq!(v.double_at("n"), Some((u64::MAX as f64).to_bits()));
    assert_eq!(v.flag_at("n"), None);
    assert!(v.get("z").is_none());
    assert!(v.get("b").unwrap().get("c").unwrap().get("d").is_none());
    assert!(parse_json("{").is_none());
    assert!(parse_json("").is_none());
}

#[test]
fn layouts() {
    let layout = |t: &str| parse_layout(&format!("{{\"model_type\": \"{}\"}}", t)).unwrap();
    assert_eq!(layout("qwen3_vl_moe"), ConfigLayout::Nested);
    assert_eq!(layout("qwen3_5_moe"), ConfigLayout::Nested);
    assert_eq!(layout("qwen3_5"), ConfigLayout::Nested);
    assert_eq!(layout("nemotron_h"), ConfigLayout::NemotronH);
    assert_eq!(layout("gemma4"), ConfigLayout::Gemma4);
    assert_eq!(layout("minimax_m2"), ConfigLayout::MiniMaxM2);
    assert_eq!(layout("bailing_hybrid"), ConfigLayout::BailingHybrid);
    assert_eq!(layout("bailing_moe_v3"), ConfigLayout::BailingHybrid);
    assert_eq!(layout("qwen3_next"), ConfigLayout::Flat);
    assert_eq!(parse_layout("{}"), Some(ConfigLayout::Flat));
    assert_eq!(parse_layout("{\"model_type\": 3}"), Some(ConfigLayout::Flat));
    assert_eq!(parse_layout("no"), None);
}

#[test]
fn text_that_is_no_json_is_refused() {
    assert_eq!(parse_config("{", empty(), no_parts()).err(), Some(ConfigError::InvalidJson));
}

#[test]
fn flat_files_are_gated_and_checked() {
    let mut c = empty();
    c.num_hidden_layers = 2;
    c.layer_types = vec![LayerType::FullAttention, LayerType::FullAttention];
    let parts = DeclaredParts { quantization: Some(mxfp4()), vision: None };
    let r = parse_config("{\"model_type\": \"qwen3_next\"}", c.clone(), parts).unwrap();
    assert!(r.attn_gated);
    assert_eq!(r.quantization_config.unwrap().format, "mxfp4-pack-quantized");
    c.num_hidden_layers = 3;
    assert_eq!(
        parse_config("{}", c.clone(), no_parts()).err(),
        Some(ConfigError::LayerTypesLength(2, 3))
    );
    c.num_hidden_layers = 2;
    c.layer_types[1] = LayerType::LinearAttention;
    assert_eq!(
        parse_config("{}", c.clone(), no_parts()).err(), Some(ConfigError::MissingLinearHeads),
    );
    c.mamba_num_heads = 1;
    assert!(parse_config("{}", c, no_parts()).is_ok());
}

#[test]
fn nested_files_are_completed() {
    let json = r#"{
        "model_type": "qwen3_5_moe",
        "vocab_size": 1000,
        "vision_config": {},
        "text_config": {
            "eos_token_id": 7,
            "rope_parameters": {
                "rope_theta": 10000000.0,
                "partial_rotary_factor": 0.25,
                "mrope_section": [11, 11, 10],
                "mrope_interleaved": true
            }
        }
    }"#;
    let vision = VisionConfig {
        depth: 1,
        hidden_size: 2,
        num_heads: 1,
        patch_size: 16,
        temporal_patch_size: 2,
        spatial_merge_size: 2,
        intermediate_size: 4,
        out_hidden_size: 8,
        deepstack_visual_indexes: vec![],
        image_pad_token_id: 9,
    };
    assert_eq!(vision.merger_input_size(), 8);
    let parts = DeclaredParts { quantization: None, vision: Some(vision) };
    let r = parse_config(json, empty(), parts).unwrap();
    assert_eq!(r.model_type, "qwen3_6_moe");
    assert_eq!(r.eos_token_id, 7);
    assert_eq!(r.vocab_size, 1000);
    assert_eq!(r.rope_theta, 1e7f64.to_bits());
    assert_eq!(r.partial_rotary_factor, 0.25f64.to_bits());
    assert_eq!(r.mrope_section, [11, 11, 10]);
    assert!(r.mrope_interleaved);
    assert!(r.norm_topk_prob && r.nested_config && r.attn_gated);
    assert_eq!(r.vision.unwrap().image_pad_token_id, 9);
}

#[test]
fn nested_files_keep_what_is_set() {
    let json = r#"{
        "model_type": "qwen3_vl_moe",
        "vocab_size": 1000,
        "text_config": {
            "eos_token_id": 7,
            "rope_parameters": {"rope_theta": 10000000.0, "mrope_section": [1, 2]}
        }
    }"#;
    let mut c = empty();
    c.eos_token_id = 3;
    c.vocab_size = 5;
    c.rope_theta = 123.0f64.to_bits();
    c.mrope_interleaved = true;
    let r = parse_config(json, c, no_parts()).unwrap();
    assert_eq!(r.model_type, "qwen3_vl_moe");
    assert_eq!(r.eos_token_id, 3);
    assert_eq!(r.vocab_size, 5);
    assert_eq!(r.rope_theta, 123.0f64.to_bits());
    assert_eq!(r.mrope_section, [0, 0, 0]);
    assert!(!r.mrope_interleaved);
    assert!(!r.attn_gated);
    assert_eq!(
        parse_config("{\"model_type\": \"qwen3_5\"}", empty(), no_parts()).err(),
        Some(ConfigError::MissingTextConfig)
    );
}

#[test]
fn patterns_list_layers() {
    assert_eq!(
        layers_of_pattern("ME*"),
        Some(vec![LayerType::LinearAttention, LayerType::Moe, LayerType::FullAttention])
    );
    assert_eq!(layers_of_pattern(""), Some(vec![]));
    assert_eq!(layers_of_pattern("MX"), None);
    let mut c = empty();
    c.hybrid_override_pattern = "ME*".to_string();
    c.num_hidden_layers = 3;
    c.mamba_num_heads = 4;
    c.n_routed_experts = 16;
    let n = complete_nemotron(c.clone());
    assert_eq!(n.layer_types.len(), 3);
    assert_eq!(n.num_experts, 16);
    assert_eq!(n.weight_prefix, "backbone");
    assert!(!n.attn_gated);
    let raw = parse_json("{\"model_type\": \"nemotron_h\"}").unwrap();
    assert!(config_from_json(&raw, c.clone(), no_parts()).is_ok());
    c.hybrid_override_pattern = "M?".to_string();
    assert_eq!(
        parse_config("{\"model_type\": \"nemotron_h\"}", c, no_parts()).err(),
        Some(ConfigError::UnknownLayerCode)
    );
}

#[test]
fn groups_end_in_full_attention() {
    let t = group_layers(10, 4);
    assert_eq!(t.len(), 10);
    assert_eq!(t.iter().filter(|x| **x == LayerType::FullAttention).count(), 2);
    assert_eq!(t[3], LayerType::FullAttention);
    assert_eq!(t[7], LayerType::FullAttention);
    assert!(contains_type(&t, LayerType::LinearAttention));
    assert!(!contains_type(&t, LayerType::Moe));
}

#[test]
fn the_built_in_model_is_consistent() {
    let c = ModelConfig::qwen3_next_80b_nvfp4();
    assert_eq!(c.layer_types.len(), c.num_hidden_layers);
    assert_eq!(c.num_hidden_layers, 48);
    assert_eq!(c.hidden_size, 2048);
    assert_eq!(c.num_experts, 512);
    assert_eq!(c.decoder_sparse_step, 1);
    assert_eq!(c.layer_types.iter().filter(|x| **x == LayerType::FullAttention).count(), 12);
    assert_eq!(validate_config(&c), Ok(()));
}

#[test]
fn declared_quantization_fills_a_gap_only() {
    let mut c = empty();
    assert_eq!(finalize_config(&mut c, Some(mxfp4())), Ok(()));
    assert_eq!(c.quantization_config.as_ref().unwrap().format, "mxfp4-pack-quantized");
    let other = QuantizationConfig { format: "other".to_string(), ..mxfp4() };
    assert_eq!(finalize_config(&mut c, Some(other)), Ok(()));
    assert_eq!(c.quantization_config.as_ref().unwrap().format, "mxfp4-pack-quantized");
}

#[test]
fn defaults_of_fields() {
    assert_eq!(default_one(), 1);
    assert_eq!(default_conv_kernel(), 4);
    assert_eq!(default_one_f64(), 1.0f64.to_bits());
    assert_eq!(default_rope_theta(), 10_000.0f64.to_bits());
    assert_eq!(default_rms_eps(), 1e-6f64.to_bits());
    assert_eq!(default_partial_rotary(), 1.0f64.to_bits());
    assert_eq!(null_to_zero(None), 0);
    assert_eq!(null_to_zero(Some(3)), 3);
    assert_eq!(nullable_u32(None), 0);
    assert_eq!(nullable_u32(Some(3)), 3);
}

#[test]
fn what_no_file_declares_is_dropped() {
    let mut c = empty();
    c.nested_config = true;
    c.attn_gated = true;
    c.weight_prefix = "model.language_model".to_string();
    c.ep_world_size = 2;
    c.tp_rank = 1;
    c.embed_scale = 1f32.to_bits();
    c.mrope_interleaved = true;
    c.mrope_section = [1, 2, 3];
    c.quantization_config = Some(mxfp4());
    let read = |file: &str| {
        config_from_json(&parse_json(file).unwrap(), c.clone(), no_parts()).ok().unwrap()
    };
    for r in [read("{}"), read("{\"model_type\": \"nemotron_h\"}")] {
        assert!(!r.nested_config && !r.mrope_interleaved);
        assert_eq!((r.ep_world_size, r.tp_rank, r.embed_scale), (0, 0, 0));
        assert_eq!(r.mrope_section, [0, 0, 0]);
        assert!(r.quantization_config.is_none());
    }
    assert!(read("{}").attn_gated && read("{}").weight_prefix.is_empty());
    let nested = read("{\"model_type\": \"qwen3_5\", \"text_config\": {}}");
    assert!(nested.nested_config && nested.ep_world_size == 0);
}
