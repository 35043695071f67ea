use atlas_plan::config::{ModelConfig, QuantizationConfig};
use atlas_plan::preflight::{
    check_embedding_and_head, check_mtp_consumability, check_quant_method, extract_expert_idx,
    preflight, PreflightError, TensorInfo,
};

fn store(names: &[(&str, usize)]) -> Vec<TensorInfo> {
    names.iter().map(|(n, e)| TensorInfo { name: n.to_string(), num_elements: *e }).collect()
}

fn config(layers: usize, experts: usize) -> ModelConfig {
    let mut c = ModelConfig::qwen3_next_80b_nvfp4();
    c.num_hidden_layers = layers;
    c.num_experts = experts;
    c.quantization_config = None;
    c
}

fn quant(method: &str) -> Option<QuantizationConfig> {
    Some(QuantizationConfig {
        quant_method: method.to_string(),
        quant_algo: String::new(),
        format: String::new(),
        ignore_modules: vec![],
    })
}

#[test]
fn a_complete_checkpoint_passes() {
    let s = store(&[
        ("model.embed_tokens.weight", 1),
        ("model.layers.0.mlp.experts.3.gate_proj.weight", 1),
        ("model.layers.1.input_layernorm.weight", 1),
        ("lm_head.weight", 1),
    ]);
    let r = preflight(&s, &config(2, 4), false).unwrap();
    assert_eq!(r.max_layer, 1);
    assert!(r.has_head);
}

#[test]
fn the_head_may_be_tied() {
    let s = store(&[("tok_embeddings.weight", 1), ("layers.0.x", 1), ("model.layers.0.x", 1)]);
    let r = preflight(&s, &config(1, 4), false).unwrap();
    assert!(!r.has_head);
    assert_eq!(
        check_embedding_and_head(&store(&[("a.embeddings.weight", 1), ("output.weight", 1)])),
        Ok(true),
    );
    assert_eq!(check_embedding_and_head(&store(&[("a.word_embeddings.weight", 1)])), Ok(false));
}

#[test]
fn unknown_quantization_is_refused_first() {
    let mut c = config(1, 4);
    c.quantization_config = quant("awq");
    assert_eq!(preflight(&[], &c, false).err(), Some(PreflightError::UnknownQuantMethod));
    for known in ["", "compressed-tensors", "modelopt", "fp8"] {
        c.quantization_config = quant(known);
        assert_eq!(check_quant_method(&c), Ok(()));
    }
}

#[test]
fn an_embedding_is_needed() {
    let s = store(&[("model.layers.0.x", 1), ("embed_tokens.weight", 1)]);
    assert_eq!(preflight(&s, &config(1, 4), false).err(), Some(PreflightError::NoEmbedding));
}

#[test]
fn layers_are_counted() {
    let none = store(&[("model.embed_tokens.weight", 1)]);
    assert_eq!(preflight(&none, &config(3, 4), false).err(), Some(PreflightError::NoLayers(3)));
    let few = store(&[("model.embed_tokens.weight", 1), ("model.layers.1.x", 1)]);
    assert_eq!(
        preflight(&few, &config(3, 4), false).err(), Some(PreflightError::TooFewLayers(1, 3)),
    );
}

#[test]
fn experts_are_counted() {
    let s = store(&[
        ("model.embed_tokens.weight", 1),
        ("model.layers.0.mlp.experts.4.up_proj.weight", 1),
    ]);
    assert_eq!(
        preflight(&s, &config(1, 4), false).err(), Some(PreflightError::TooManyExperts(4, 4)),
    );
    assert!(preflight(&s, &config(1, 5), false).is_ok());
    let several = store(&[
        ("model.embed_tokens.weight", 1),
        ("model.layers.0.mlp.experts.6.up_proj.weight", 1),
        ("model.layers.0.mlp.experts.9.up_proj.weight", 1),
        ("model.layers.0.mlp.experts.2.up_proj.weight", 1),
    ]);
    assert_eq!(
        preflight(&several, &config(1, 8), false).err(),
        Some(PreflightError::TooManyExperts(9, 8)),
    );
    assert_eq!(extract_expert_idx("model.layers.0.mlp.experts.17.up_proj.weight"), Some(17));
    assert_eq!(extract_expert_idx("model.layers.0.mlp.gate.weight"), None);
    assert_eq!(extract_expert_idx("a.experts.x.b"), None);
}

#[test]
fn router_biases_have_one_entry_per_expert() {
    let s = store(&[
        ("model.embed_tokens.weight", 1),
        ("model.layers.0.block_sparse_moe.e_score_correction_bias", 6),
    ]);
    assert_eq!(preflight(&s, &config(1, 4), false).err(), Some(PreflightError::BiasSize(1, 6, 4)));
    assert!(preflight(&s, &config(1, 6), false).is_ok());
}

#[test]
fn extra_layers_matter_only_for_drafting() {
    let s = store(&[("model.embed_tokens.weight", 1), ("model.layers.2.x", 1)]);
    let mut c = config(2, 4);
    c.model_type = "minimax_m2".to_string();
    assert!(preflight(&s, &c, false).is_ok());
    assert_eq!(preflight(&s, &c, true).err(), Some(PreflightError::DraftLayersUnsupported));
    assert_eq!(check_mtp_consumability(&c), Err(PreflightError::DraftLayersUnsupported));
    c.model_type = "qwen3_next".to_string();
    assert!(preflight(&s, &c, true).is_ok());
    assert_eq!(check_mtp_consumability(&c), Ok(()));
}
