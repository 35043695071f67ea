use atlas_plan::attention::init::{AttentionOptions, AttentionParts, LatentKernels};
use atlas_plan::attention::mla_cache_skip::CacheSkipMlaArgs;
use atlas_plan::attention::mla_decode::DecodeMlaArgs;
use atlas_plan::attention::mla_paged::MlaPrefillArgs;
use atlas_plan::attention::types::{
    AttentionKernels, AttentionWeights, KvCacheDtype, MlaWeights, QuantWeight, Qwen3AttentionLayer,
};
use atlas_plan::config::ModelConfig;
use atlas_plan::context::ForwardContext;
use atlas_plan::gpu::{
    AttnMetadataDev, Buffers, DenseWeight, DevicePtr, ExpertPtrTable, ExpertWeight, KernelHandle,
    QuantizedWeight,
};
use atlas_plan::kernels::{KernelEntry, KernelTable};
use atlas_plan::mistral::{
    assemble_layer, build_moe_ffn, find_stored, is_turned_off, yarn_parameters, AssembleError,
    LayerNorm, LayerParts, MistralLayerTensors, StoredTensor,
};
use atlas_plan::moe::init::{MoeFlags, MoeResources};
use atlas_plan::moe::{FfnComponent, MoeKernels, MoeWeights};
use atlas_plan::plan::{Op, Step};

const STREAM: u64 = 3;

fn dense(p: u64) -> DenseWeight {
    DenseWeight { weight: DevicePtr(p) }
}

fn nvfp4(p: u64) -> QuantizedWeight {
    QuantizedWeight {
        weight: DevicePtr(p),
        weight_scale: DevicePtr(p + 1),
        weight_scale_2: 1,
        input_scale: DevicePtr(p + 2),
    }
}

fn buffers() -> Buffers {
    Buffers {
        hidden_states: DevicePtr(0x1_0000),
        residual: DevicePtr(0x2_0000),
        norm_output: DevicePtr(0x3_0000),
        qkv_output: DevicePtr(0x4_0000),
        attn_output: DevicePtr(0x5_0000),
        gate_logits: DevicePtr(0x6_0000),
        scratch: DevicePtr(0x7_0000),
        logits: DevicePtr(0x8_0000),
        expert_gate_out: DevicePtr(0x9_0000),
        expert_up_out: DevicePtr(0xa_0000),
        expert_down_out: DevicePtr(0xb_0000),
        moe_output: DevicePtr(0xc_0000),
        ssm_qkvz: DevicePtr(0xd_0000),
        ssm_deinterleaved: DevicePtr(0xe_0000),
        ssm_conv_out_f32: DevicePtr(0xf_0000),
        ssm_ba: DevicePtr(0x10_0000),
        ssm_gates: DevicePtr(0x11_0000),
        max_batch_tokens: 4096,
        scratch_bytes: 1 << 20,
        moe_output_bytes: 1 << 20,
    }
}

fn context(config: &ModelConfig) -> ForwardContext<'_> {
    ForwardContext {
        buffers: buffers(),
        config,
        attn_metadata: Some(AttnMetadataDev {
            positions: DevicePtr(0x71),
            positions_h: DevicePtr(0x72),
            positions_w: DevicePtr(0x73),
            slot: DevicePtr(0x74),
            seq_len: DevicePtr(0x75),
            block_table: DevicePtr(0x76),
            max_blocks_per_seq: 9,
            num_seqs: 1,
        }),
        comm_world_size: None,
        graph_capture: false,
        profile: false,
        ssm_qkvz_size: 0,
        ssm_ba_size: 0,
        rms_norm_eps: 1e-6f32.to_bits(),
        routed_scaling_factor: 1f32.to_bits(),
        rope_theta: 1e4f32.to_bits(),
    }
}

fn options(kv_dtype: KvCacheDtype) -> AttentionOptions {
    AttentionOptions {
        kv_dtype, head_dim: 128, fp32_residual: false, gemma4: false, rope_interleave: false,
    }
}

fn full_table(o: AttentionOptions) -> KernelTable {
    let mut t = KernelTable { entries: vec![] };
    let mut next = 1;
    while let Err(m) = AttentionKernels::load(&t, o) {
        t.entries.push(KernelEntry {
            module: m.module.to_string(),
            function: m.function.to_string(),
            handle: KernelHandle(next),
        });
        next += 1;
    }
    t
}

fn standard() -> AttentionWeights {
    AttentionWeights {
        q_proj: dense(1),
        k_proj: dense(2),
        v_proj: dense(3),
        o_proj: QuantizedWeight::null(),
        q_norm: dense(4),
        k_norm: dense(5),
        q_norm_full: None,
        k_norm_full: None,
        k_scale: 1f32.to_bits(),
        v_scale: 1f32.to_bits(),
    }
}

fn parts(tokens: usize) -> AttentionParts {
    AttentionParts {
        input_norm: dense(11),
        attn: standard(),
        post_attn_norm: dense(12),
        ffn: FfnComponent::Empty,
        attn_layer_idx: 5,
        q_nvfp4: Some(nvfp4(100)),
        k_nvfp4: None,
        v_nvfp4: None,
        fp8_calibration_tokens: tokens,
    }
}

fn mla() -> MlaWeights {
    MlaWeights {
        wq_a: dense(21),
        wq_a_nvfp4: None,
        wq_b: dense(22),
        wq_b_nvfp4: None,
        q_a_norm: dense(23),
        wkv_a: dense(24),
        wkv_a_nvfp4: None,
        wkv_b: dense(25),
        kv_a_norm: dense(26),
        wkv_a_rope: dense(27),
        wkv_a_merged: dense(24),
        wo: dense(28),
        wo_nvfp4: None,
        w_uk_t: dense(29),
        w_uv: dense(30),
        wq_b_rope: dense(31),
        w_qk_absorbed: dense(32),
        w_uk_block_diag: dense(33),
        w_uv_block_diag: dense(34),
        yarn_inv_freq: DevicePtr(35),
        g_proj: dense(0),
        q_lora_rank: 1024,
        kv_lora_rank: 256,
        nope: 64,
        rope: 64,
        v_dim: 128,
    }
}

fn layer() -> Qwen3AttentionLayer {
    let o = options(KvCacheDtype::Bf16);
    let mut l = match Qwen3AttentionLayer::new_ungated(
        parts(0), &plain_config(), KvCacheDtype::Bf16, false, &full_table(o),
    ) {
        Ok(l) => l,
        Err(_) => panic!("layer"),
    };
    l.set_mla_weights(mla(), 0.125f32.to_bits());
    l
}

fn count(plan: &[Step], f: fn(&Op) -> bool) -> usize {
    plan.iter().filter(|s| matches!(s, Step::On(_, op) if f(op))).count()
}

#[test]
fn a_new_layer_has_no_overrides() {
    let o = options(KvCacheDtype::Fp8);
    let t = full_table(o);
    let mut c = plain_config();
    c.mrope_interleaved = true;
    let l = match Qwen3AttentionLayer::new(parts(256), &c, KvCacheDtype::Fp8, false, &t) {
        Ok(l) => l,
        Err(_) => panic!("layer"),
    };
    assert!(l.gated && l.mrope_interleaved);
    assert_eq!(l.attn_layer_idx, 5);
    assert_eq!(l.fp8_calibration.map(|c| c.tokens), Some(256));
    assert_eq!(l.q_weight, Some(QuantWeight::Nvfp4(nvfp4(100))));
    assert!(l.k_weight.is_none() && l.mla.is_none() && l.sliding_window.is_none());
    assert_eq!(l.effective_attn_scale(7), 7);
    let ungated = Qwen3AttentionLayer::new_ungated(
        parts(0), &plain_config(), KvCacheDtype::Fp8, false, &t,
    ).ok().unwrap();
    assert!(!ungated.gated && !ungated.mrope_interleaved);
    assert!(ungated.fp8_calibration.is_none());
    let n = options(KvCacheDtype::Nvfp4);
    let l = Qwen3AttentionLayer::new(
        parts(256), &c, KvCacheDtype::Nvfp4, false, &full_table(n),
    ).ok().unwrap();
    assert!(l.fp8_calibration.is_none());
}

#[test]
fn attention_kernels_are_required() {
    let o = options(KvCacheDtype::Fp8);
    let mut t = full_table(o);
    let last = t.entries.pop().unwrap();
    match Qwen3AttentionLayer::new(parts(0), &plain_config(), KvCacheDtype::Fp8, false, &t) {
        Err(m) => assert_eq!(
            (m.module.to_string(), m.function.to_string()), (last.module, last.function),
        ),
        Ok(_) => panic!("a kernel is missing"),
    }
    let stores = |d: KvCacheDtype| full_table(options(d)).entries.iter().any(
        |e| e.function == "reshape_and_cache_flash_fp8",
    );
    assert!(stores(KvCacheDtype::Fp8));
    assert!(!stores(KvCacheDtype::Bf16));
}

#[test]
fn setters_change_what_they_name() {
    let mut l = layer();
    l.set_dimension_overrides(256, 8, 2);
    assert_eq!(
        (l.head_dim_override, l.num_q_heads_override, l.num_kv_heads_override),
        (Some(256), Some(8), Some(2)),
    );
    l.set_sliding_window(Some(1024));
    assert_eq!(l.sliding_window, Some(1024));
    l.set_rope_overrides(5, 64);
    assert_eq!((l.rope_theta_override, l.rotary_dim_override), (Some(5), Some(64)));
    l.set_rope_proportional(true);
    assert!(l.rope_proportional);
    l.set_k_eq_v(dense(41));
    assert!(l.k_eq_v);
    assert_eq!(l.v_norm_weight, Some(dense(41)));
    l.set_v_norm(dense(42));
    assert_eq!(l.v_norm_weight, Some(dense(42)));
    l.set_o_dense_bf16(dense(43));
    assert_eq!(l.o_dense_bf16, Some(dense(43)));
    l.set_post_sublayer_norms(dense(44), dense(45));
    assert_eq!(l.post_ffn_out_norm, Some(dense(45)));
    l.set_layer_scalar(9);
    assert_eq!(l.layer_scalar, Some(9));
    l.set_moe_ffn(FfnComponent::Empty, dense(46), dense(47), dense(48));
    assert_eq!(l.post_dense_ffn_norm, Some(dense(48)));
    assert_eq!(l.effective_attn_scale(7), 0.125f32.to_bits());
    l.set_attn_scale_override(6);
    assert_eq!(l.effective_attn_scale(7), 6);
}

#[test]
fn a_layer_scalar_needs_its_kernel() {
    let l = layer();
    let t = KernelTable {
        entries: vec![KernelEntry {
            module: "embed_scale".to_string(),
            function: "bf16_scale_inplace".to_string(),
            handle: KernelHandle(8),
        }],
    };
    let p = l.apply_layer_scalar(&t, DevicePtr(1), 2048, 9, STREAM, false).ok().unwrap();
    assert_eq!(p, vec![Step::On(STREAM, Op::ScaleInplace(KernelHandle(8), DevicePtr(1), 2048, 9))]);
    match l.apply_layer_scalar(&t, DevicePtr(1), 2048, 9, STREAM, true) {
        Err(m) => assert_eq!(m.function, "f32_scale_inplace"),
        Ok(_) => panic!("kernel"),
    }
}

fn no_kernels() -> KernelTable {
    KernelTable { entries: vec![] }
}

fn latent_kernels() -> KernelTable {
    let entry = |module: &str, function: &str, handle| KernelEntry {
        module: module.to_string(),
        function: function.to_string(),
        handle: KernelHandle(handle),
    };
    KernelTable {
        entries: vec![
            entry("ling_mla_attn", "ling_mla_prefill_attn", 600),
            entry("ling_mla_attn", "ling_mla_headwise_gate", 601),
            entry("prefill_h192", "inferspark_prefill_64_h192", 602),
        ],
    }
}

#[test]
fn kernels_of_latent_attention_are_optional() {
    let none = LatentKernels::load(&no_kernels());
    assert_eq!(none.ling_prefill_attn, KernelHandle(0));
    assert_eq!((none.headwise_gate, none.prefill_h192), (KernelHandle(0), KernelHandle(0)));
    let all = LatentKernels::load(&latent_kernels());
    assert_eq!(all.ling_prefill_attn, KernelHandle(600));
    assert_eq!((all.headwise_gate, all.prefill_h192), (KernelHandle(601), KernelHandle(602)));
}

#[test]
fn options_come_from_the_configuration() {
    let mut c = ModelConfig::qwen3_next_80b_nvfp4();
    c.head_dim = 192;
    c.rope_interleave = true;
    let o = AttentionOptions::of(&c, KvCacheDtype::Turbo4, true);
    assert_eq!((o.kv_dtype, o.head_dim), (KvCacheDtype::Turbo4, 192));
    assert!(o.fp32_residual && o.rope_interleave && !o.gemma4);
    c.model_type = "gemma4".to_string();
    assert!(AttentionOptions::of(&c, KvCacheDtype::Fp8, false).gemma4);
}

fn decode_args() -> DecodeMlaArgs {
    DecodeMlaArgs {
        normed: DevicePtr(0x3_0000),
        k_out: DevicePtr(0x61),
        v_out: DevicePtr(0x62),
        q_dim: 32 * 128,
        h: 4096,
        nq: 32,
        hd: 128,
        eps: 1e-6f32.to_bits(),
        bs: 16,
        stream: STREAM,
        k_pool: DevicePtr(0x100_0000),
        v_pool: DevicePtr(0x200_0000),
        default_scale: 1f32.to_bits(),
    }
}

#[test]
fn a_latent_decode_step() {
    let c = ModelConfig::qwen3_next_80b_nvfp4();
    let mut l = layer();
    l.k.mla_batched_gemv = KernelHandle(500);
    let (p, out) = l.attention_forward_mla(&context(&c), &decode_args(), &no_kernels());
    assert_eq!(out, DevicePtr(0x4_0000));
    assert!(
        matches!(
            p[0],
            Step::On(
                STREAM, Op::DenseGemv(_, DevicePtr(0x3_0000), w, DevicePtr(0x10_0000), 1024, 4096),
            ) if w == dense(21),
        ),
    );
    assert!(
        matches!(
            p[1],
            Step::On(_, Op::RmsNorm(_, DevicePtr(0x10_0000), _, DevicePtr(0x10_0000), 1, 1024, _)),
        ),
    );
    assert!(count(&p, |o| matches!(o, Op::MlaBatchedGemv(..))) >= 1);
    let store = p.iter().position(
        |s| matches!(s, Step::On(_, Op::WriteKvCache(5, _, _, _, 1, 1, 320, ..))),
    ).unwrap();
    let attend = p.iter().position(|s| matches!(s, Step::On(_, Op::PagedDecodeAttn(..)))).unwrap();
    assert!(store < attend);
    assert_eq!(count(&p, |o| matches!(o, Op::WriteKvCache(..))), 1);
    assert_eq!(count(&p, |o| matches!(o, Op::PagedDecodeAttn(..))), 1);
    l.k.mla_batched_gemv = KernelHandle(0);
    let (q, _) = l.attention_forward_mla(&context(&c), &decode_args(), &no_kernels());
    assert!(q.len() > p.len() + 31);
    let mut same = decode_args();
    same.h = 1024;
    let (q, _) = l.attention_forward_mla(&context(&c), &same, &no_kernels());
    assert!(
        matches!(q[0], Step::On(_, Op::CopyD2d(DevicePtr(0x3_0000), DevicePtr(0x10_0000), 2048))),
    );
}

#[test]
fn a_latent_prompt_without_cached_rows() {
    let c = ModelConfig::qwen3_next_80b_nvfp4();
    let a = CacheSkipMlaArgs {
        normed: DevicePtr(0x3_0000),
        num_tokens: 4,
        n: 4,
        h: 4096,
        nq: 32,
        nkv: 32,
        kv_dim: 4096,
        eps: 1e-6f32.to_bits(),
        bf16: 2,
        bs: 16,
        stream: STREAM,
        force_dense_rope: false,
        inv_sqrt_hd: 0.1f32.to_bits(),
    };
    let (p, out) = layer().prefill_attention_cache_skip_mla(&context(&c), &a, &no_kernels());
    assert_eq!(out, DevicePtr(0x4_0000));
    assert_eq!(count(&p, |o| matches!(o, Op::WriteKvCache(..))), 1);
    assert_eq!(count(&p, |o| matches!(o, Op::PrefillAttention64(..))), 1);
    let tiles = CacheSkipMlaArgs { num_tokens: 16, n: 16, ..a };
    let mut l = layer();
    l.k.dense_gemm_tc = KernelHandle(600);
    let (q, _) = l.prefill_attention_cache_skip_mla(&context(&c), &tiles, &no_kernels());
    assert_eq!(count(&q, |o| matches!(o, Op::DenseGemmTc(KernelHandle(600), ..))), 4);
    let (q, _) = l.prefill_attention_cache_skip_mla(
        &context(&c), &CacheSkipMlaArgs { force_dense_rope: true, ..tiles }, &no_kernels(),
    );
    assert_eq!(count(&q, |o| matches!(o, Op::DenseGemmTc(..))), 3);
    let (q, _) = l.prefill_attention_cache_skip_mla(&context(&c), &a, &no_kernels());
    assert_eq!(count(&q, |o| matches!(o, Op::DenseGemmTc(..))), 0);
    let flat = CacheSkipMlaArgs { bf16: 0, ..a };
    let (q, _) = layer().prefill_attention_cache_skip_mla(&context(&c), &flat, &no_kernels());
    assert_eq!(q.len(), p.len());
    let gate = latent_kernels();
    let (without, _) = layer().prefill_attention_cache_skip_mla(&context(&c), &a, &gate);
    assert_eq!(without, p);
    assert_eq!(count(&p, |o| matches!(o, Op::DenseGemm(_, _, w, ..) if w.weight.0 == 0)), 0);
    let mut l = layer();
    if let Some(m) = l.mla.as_mut() {
        m.g_proj = dense(77);
    }
    let (with, _) = l.prefill_attention_cache_skip_mla(&context(&c), &a, &gate);
    assert_eq!(count(&with, |o| matches!(o, Op::DenseGemm(_, _, w, ..) if w.weight.0 == 77)), 1);
    assert_eq!(count(&with, |o| matches!(o, Op::HeadwiseGate(KernelHandle(601), ..))), 1);
}

#[test]
fn the_latent_scale_does_not_depend_on_the_head() {
    let mut l = layer();
    let m = MlaWeights { nope: 192, rope: 64, ..l.mla.unwrap() };
    l.set_mla_weights(m, (1.0f32 / ((m.nope + m.rope) as f32).sqrt()).to_bits());
    for head_dim in [64, 128, 320] {
        let default = (1.0f32 / (head_dim as f32).sqrt()).to_bits();
        assert_eq!(f32::from_bits(l.effective_attn_scale(default)), 0.0625);
    }
}

#[test]
fn a_latent_prompt_over_the_paged_cache() {
    let c = ModelConfig::qwen3_next_80b_nvfp4();
    let a = MlaPrefillArgs {
        normed: DevicePtr(0x3_0000),
        num_tokens: 4,
        n: 4,
        h: 4096,
        nq: 32,
        nkv: 32,
        kv_dim: 4096,
        eps: 1e-6f32.to_bits(),
        bf16: 2,
        bs: 16,
        stream: STREAM,
        sync_each: false,
        default_scale: 0.1f32.to_bits(),
    };
    let (p, out) = layer().prefill_attention_paged_mla(&context(&c), &a);
    assert_eq!(out, DevicePtr(0x3_0000));
    assert_eq!(count(&p, |o| matches!(o, Op::WriteKvCache(..))), 1);
    assert_eq!(count(&p, |o| matches!(o, Op::PrefillAttention(..))), 1);
    let (q, _) = layer().prefill_attention_paged_mla(
        &context(&c), &MlaPrefillArgs { sync_each: true, ..a },
    );
    assert!(
        count(&q, |o| matches!(o, Op::Synchronize)) > count(&p, |o| matches!(o, Op::Synchronize)),
    );
}

// ---- layers of consolidated checkpoints ----

fn tensors() -> MistralLayerTensors {
    MistralLayerTensors {
        wq_a_dense: Some(dense(1)),
        wq_a_nvfp4: Some(nvfp4(1)),
        wq_b: Some(dense(2)),
        wq_b_nvfp4: Some(nvfp4(2)),
        q_a_norm: Some(dense(3)),
        wkv_a_dense: Some(dense(4)),
        wkv_a_nvfp4: Some(nvfp4(4)),
        wkv_b: Some(dense(5)),
        kv_a_norm: Some(dense(6)),
        wkv_a_rope_dense: Some(dense(7)),
        o_dense_bf16: Some(dense(8)),
        o_nvfp4: Some(nvfp4(8)),
        wq_b_rope: Some(dense(9)),
        w_uk_t: Some(dense(10)),
        w_uv: Some(dense(11)),
        w_qk_absorbed: Some(dense(12)),
        w_uk_block_diag: Some(dense(13)),
        w_uv_block_diag: Some(dense(14)),
        q_lora: 1024,
        kv_lora: 256,
        nope: 64,
        rope: 64,
        v_dim: 128,
    }
}

fn layer_parts() -> LayerParts {
    LayerParts {
        ffn: FfnComponent::Empty,
        attn_scale: 0.088f32.to_bits(),
    }
}

#[test]
fn settings_that_turn_off() {
    for s in ["0", "false", "no", "off", " OFF\n", "False"] {
        assert!(is_turned_off(Some(s)));
    }
    for s in ["", "1", "true", "offf", "n"] {
        assert!(!is_turned_off(Some(s)));
    }
    assert!(!is_turned_off(None));
}

fn norms(layer: usize) -> Vec<StoredTensor> {
    let tensor = |name: String, at| StoredTensor { name, weight: DevicePtr(at) };
    vec![
        tensor("norm.weight".to_string(), 50),
        tensor(format!("layers.{layer}.ffn_norm.weight"), 52),
        tensor(format!("layers.{layer}.attention_norm.weight"), 51),
        tensor(format!("layers.{}.attention_norm.weight", layer + 10), 53),
    ]
}

fn plain_config() -> ModelConfig {
    let mut c = ModelConfig::qwen3_next_80b_nvfp4();
    c.head_dim = 128;
    c
}

#[test]
fn norms_are_found_by_name() {
    for i in [0, 7, 10, 61, 109, usize::MAX] {
        assert_eq!(
            LayerNorm::Attention.tensor_name(i),
            format!("layers.{i}.attention_norm.weight"),
        );
        assert_eq!(LayerNorm::FeedForward.tensor_name(i), format!("layers.{i}.ffn_norm.weight"));
    }
    let store = norms(3);
    assert_eq!(find_stored(&store, "layers.13.attention_norm.weight"), Some(dense(53)));
    assert_eq!(find_stored(&store, "layers.1.attention_norm.weight"), None);
}

#[test]
fn a_layer_is_assembled() {
    let c = plain_config();
    let bf16 = full_table(options(KvCacheDtype::Bf16));
    let l = assemble_layer(
        tensors(), 2, &norms(2), DevicePtr(9), None, layer_parts(), &[KvCacheDtype::Bf16; 3], &c,
        false, &bf16,
    ).ok().unwrap();
    let m = l.mla.unwrap();
    assert_eq!(m.wq_a, dense(1));
    assert_eq!(m.wkv_a_merged, dense(4));
    assert_eq!(m.wo_nvfp4, Some(nvfp4(8)));
    assert_eq!(m.g_proj, dense(0));
    assert_eq!(m.yarn_inv_freq, DevicePtr(9));
    assert_eq!(l.attn_scale_override, Some(0.088f32.to_bits()));
    assert_eq!(l.kv_dtype, KvCacheDtype::Bf16);
    assert!(!l.gated && l.fp8_calibration.is_none());
    assert_eq!((l.input_norm, l.post_attn_norm, l.attn_layer_idx), (dense(51), dense(52), 2));
    assert_eq!(l.attn.k_scale, 1f32.to_bits());

    let fp8 = full_table(options(KvCacheDtype::Fp8));
    let l = assemble_layer(
        tensors(), 2, &norms(2), DevicePtr(9), Some("off"), layer_parts(), &[], &c, false, &fp8,
    ).ok().unwrap();
    assert_eq!(l.kv_dtype, KvCacheDtype::Fp8);
    let m = l.mla.unwrap();
    assert!(m.wq_a_nvfp4.is_none() && m.wq_b_nvfp4.is_none());
    assert!(m.wkv_a_nvfp4.is_none() && m.wo_nvfp4.is_none());
}

#[test]
fn missing_parts_of_a_layer_are_named() {
    let c = plain_config();
    let t = full_table(options(KvCacheDtype::Bf16));
    let assemble = |x, store: &[StoredTensor], t: &KernelTable| {
        assemble_layer(x, 7, store, DevicePtr(9), None, layer_parts(), &[], &c, false, t)
    };
    let mut x = tensors();
    x.w_uv = None;
    x.wkv_a_dense = None;
    match assemble(x, &[], &t) {
        Err(AssembleError::Tensor(e)) => assert_eq!((e.layer, e.name), (7, "wkv_a_dense")),
        _ => panic!("a tensor is missing"),
    }
    let empty = no_kernels();
    match assemble(tensors(), &norms(8), &empty) {
        Err(AssembleError::Norm(LayerNorm::Attention, 7)) => {}
        _ => panic!("both norms are missing"),
    }
    let mut store = norms(7);
    store.remove(1);
    match assemble(tensors(), &store, &empty) {
        Err(AssembleError::Norm(LayerNorm::FeedForward, 7)) => {}
        _ => panic!("one norm is missing"),
    }
    match assemble(tensors(), &norms(7), &empty) {
        Err(AssembleError::Kernel(_)) => {}
        _ => panic!("kernels are missing"),
    }
}

fn moe_weights() -> MoeWeights {
    let e = ExpertWeight { gate_proj: nvfp4(1), up_proj: nvfp4(2), down_proj: nvfp4(3) };
    MoeWeights {
        gate: dense(1),
        experts: vec![e],
        shared_expert: e,
        shared_expert_dense: None,
        shared_expert_gate: dense(2),
        correction_bias: None,
    }
}

#[test]
fn experts_are_optional() {
    let mut t = KernelTable { entries: vec![] };
    while let Err(m) = MoeKernels::load(&t, false) {
        t.entries.push(KernelEntry {
            module: m.module.to_string(),
            function: m.function.to_string(),
            handle: KernelHandle(1),
        });
    }
    let p = ExpertPtrTable {
        packed_ptrs: DevicePtr(1),
        scale_ptrs: DevicePtr(2),
        scale2_vals: DevicePtr(3),
    };
    let res = MoeResources {
        gate_ptrs: p,
        up_ptrs: p,
        down_ptrs: p,
        prefill_stream: 1,
        event_a: 2,
        event_b: 3,
    };
    let f = MoeFlags::from_settings(None, None, None, None);
    let build = |n, k, ranks, w, t: &KernelTable| build_moe_ffn(n, k, ranks, w, res, f, t, false);
    assert!(matches!(build(4, 2, 2, Some(moe_weights()), &t), (FfnComponent::Moe(_), true)));
    assert!(matches!(build(4, 2, 1, Some(moe_weights()), &t), (FfnComponent::Moe(_), false)));
    assert!(matches!(build(0, 0, 2, Some(moe_weights()), &t), (FfnComponent::Empty, false)));
    assert!(matches!(build(4, 2, 2, None, &t), (FfnComponent::Empty, false)));
    assert!(matches!(build(4, 5, 2, Some(moe_weights()), &t), (FfnComponent::Empty, false)));
    let none = KernelTable { entries: vec![] };
    assert!(matches!(build(4, 2, 2, Some(moe_weights()), &none), (FfnComponent::Empty, false)));
}

#[test]
fn rotary_parameters() {
    let mut c = ModelConfig::qwen3_next_80b_nvfp4();
    c.yarn_factor = 0;
    c.yarn_beta_fast = 0;
    c.yarn_beta_slow = (-1f32).to_bits();
    c.yarn_original_max_position_embeddings = 0;
    let y = yarn_parameters(&c, 64);
    assert_eq!(y.factor, 1f32.to_bits());
    assert_eq!(y.beta_fast, 32f32.to_bits());
    assert_eq!(y.beta_slow, 1f32.to_bits());
    assert_eq!(y.original_positions, 8192);
    assert_eq!(y.pairs, 32);
    c.yarn_factor = 128f32.to_bits();
    c.yarn_beta_fast = 16f32.to_bits();
    c.yarn_beta_slow = 2f32.to_bits();
    c.yarn_original_max_position_embeddings = 4096;
    let y = yarn_parameters(&c, 63);
    assert_eq!(
        (y.factor, y.beta_fast, y.beta_slow), (128f32.to_bits(), 16f32.to_bits(), 2f32.to_bits()),
    );
    assert_eq!((y.original_positions, y.pairs), (4096, 31));
}
