use atlas_plan::config::{ModelConfig, QuantizationConfig};
use atlas_plan::quant_format::{
    detect_quant_format, module_matches_pattern as m, CompressedTensorsFormat, DetectedFormat,
    Fp8BlockScaledFormat, ModeloptFormat, Nvfp4Variant, QuantFormat,
};

fn declared(method: &str, ignore: &[&str]) -> ModelConfig {
    let mut c = ModelConfig::qwen3_next_80b_nvfp4();
    c.quantization_config = Some(QuantizationConfig {
        quant_method: method.to_string(),
        quant_algo: "NVFP4".to_string(),
        format: "nvfp4-pack-quantized".to_string(),
        ignore_modules: ignore.iter().map(|s| s.to_string()).collect(),
    });
    c
}

#[test]
fn exact_match() {
    assert!(m("lm_head", "lm_head"));
    assert!(!m("lm_head_norm", "lm_head"));
}

#[test]
fn prefix_star() {
    assert!(m("model.layers.5.self_attn.q_proj", "model.layers.*.self_attn*"));
    assert!(m("model.layers.62.self_attn.out", "model.layers.*.self_attn*"));
    assert!(!m("model.layers.5.mlp.gate_proj", "model.layers.*.self_attn*"));
}

#[test]
fn suffix_star() {
    assert!(m("lm_head.weight", "lm_head*"));
}

#[test]
fn middle_star() {
    assert!(m("model.layers.0.mlp.gate", "model.layers.*.mlp.gate"));
    assert!(!m("model.layers.0.attn.gate", "model.layers.*.mlp.gate"));
}

#[test]
fn stars_stand_for_any_run() {
    assert!(m("", ""));
    assert!(m("", "*"));
    assert!(m("", "**"));
    assert!(!m("", "a"));
    assert!(!m("a", ""));
    assert!(m("a.b.c", "*"));
    assert!(m("abc", "a*c"));
    assert!(m("ac", "a*c"));
    assert!(!m("ab", "a*c"));
    assert!(m("abcbc", "a*bc"));
    assert!(m("aXbXc", "*X*X*"));
    assert!(!m("aXb", "*X*X*"));
    assert!(!m("aba", "ab*ba"));
    assert!(m("visual.blocks.3", "visual*"));
    assert!(!m("model.visual", "visual*"));
    assert!(m("model.visual", "*visual"));
    assert!(!m("a.b", "a?b"));
}

#[test]
fn declared_method_decides() {
    let f = detect_quant_format(&declared("modelopt", &["lm_head", "mlp*"]), Nvfp4Variant::Bf16Raw);
    assert!(matches!(f, DetectedFormat::Modelopt(_)));
    assert_eq!(f.name(), "modelopt");
    assert_eq!(f.base_variant(), Nvfp4Variant::Standard);
    assert!(f.is_ignored("lm_head"));
    assert!(f.is_ignored("mlp.gate"));
    assert!(!f.is_ignored("attn"));
    assert_eq!(f.variant_for("lm_head"), Nvfp4Variant::Bf16Raw);
    assert_eq!(f.variant_for("attn"), Nvfp4Variant::Standard);
    match f {
        DetectedFormat::Modelopt(x) => assert_eq!(x.algo, "NVFP4"),
        _ => panic!("wrong format"),
    }

    let f = detect_quant_format(&declared("compressed-tensors", &[]), Nvfp4Variant::Standard);
    assert_eq!(f.name(), "compressed-tensors");
    assert_eq!(f.base_variant(), Nvfp4Variant::CompressedTensors);
    match f {
        DetectedFormat::CompressedTensors(x) => assert_eq!(x.format, "nvfp4-pack-quantized"),
        _ => panic!("wrong format"),
    }

    let f = detect_quant_format(&declared("fp8", &["a"]), Nvfp4Variant::Standard);
    assert_eq!(f.name(), "fp8-blockscaled");
    assert_eq!(f.base_variant(), Nvfp4Variant::Fp8Dequanted);
    assert!(f.is_ignored("a"));
}

#[test]
fn names_decide_without_a_known_method() {
    let mut bare = ModelConfig::qwen3_next_80b_nvfp4();
    bare.quantization_config = None;
    for v in [
        Nvfp4Variant::Standard,
        Nvfp4Variant::CompressedTensors,
        Nvfp4Variant::Fp8Dequanted,
        Nvfp4Variant::Bf16Raw,
        Nvfp4Variant::Mxfp4Dequanted,
    ] {
        assert_eq!(detect_quant_format(&bare, v).base_variant(), v);
    }
    let odd = declared("awq", &["lm_head"]);
    let f = detect_quant_format(&odd, Nvfp4Variant::CompressedTensors);
    assert!(f.is_ignored("lm_head"));
    assert!(detect_quant_format(&odd, Nvfp4Variant::Standard).is_ignored("lm_head"));
}

#[test]
fn nothing_is_listed_when_nothing_is_quantized() {
    let f = detect_quant_format(&declared("", &["lm_head"]), Nvfp4Variant::Bf16Raw);
    assert_eq!(f.name(), "modelopt");
    assert!(!f.is_ignored("lm_head"));
}

#[test]
fn formats_by_hand() {
    let c = CompressedTensorsFormat::new("x".to_string(), vec!["lm_head".to_string()]);
    assert!(c.is_ignored("lm_head"));
    let p = ModeloptFormat::new("NVFP4".to_string(), vec![]);
    assert_eq!(p.base_variant(), Nvfp4Variant::Standard);
    let u = ModeloptFormat::unquantized(Nvfp4Variant::Mxfp4Dequanted, vec![]);
    assert_eq!(u.base_variant(), Nvfp4Variant::Mxfp4Dequanted);
    assert_eq!(u.algo, "");
    let f = Fp8BlockScaledFormat::new(vec!["*".to_string()]);
    assert!(f.is_ignored("anything"));
}
