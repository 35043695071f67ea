use atlas_plan::config::ModelConfig;
use atlas_plan::context::ForwardContext;
use atlas_plan::gpu::{Buffers, DenseWeight, DevicePtr, KernelHandle, QuantizedWeight};
use atlas_plan::plan::{GdnPrefillBuffers, Op, SsmState, Step};
use atlas_plan::ssm::debug::{dump_layers_from_env, maybe_dump_gdn_buf};
use atlas_plan::ssm::decode_kda::split_kda_regions;
use atlas_plan::ssm::{Qwen3SsmLayer, SsmDims, SsmError, SsmKernels, SsmWeights};

const STREAM: u64 = 3;
const STATE: SsmState = SsmState { h_state: DevicePtr(0xaa), conv_state: DevicePtr(0xbb) };

fn dense(p: u64) -> DenseWeight {
    DenseWeight { weight: DevicePtr(p) }
}

fn buffers() -> Buffers {
    Buffers {
        hidden_states: DevicePtr(0x1_0000),
        residual: DevicePtr(0x2_0000),
        norm_output: DevicePtr(0x3_0000),
        qkv_output: DevicePtr(0x4_0000),
        attn_output: DevicePtr(0x5_0000),
        gate_logits: DevicePtr(0x6_0000),
        scratch: DevicePtr(0x7_0000),
        logits: DevicePtr(0x8_0000),
        expert_gate_out: DevicePtr(0x9_0000),
        expert_up_out: DevicePtr(0xa_0000),
        expert_down_out: DevicePtr(0xb_0000),
        moe_output: DevicePtr(0xc_0000),
        ssm_qkvz: DevicePtr(0xd_0000),
        ssm_deinterleaved: DevicePtr(0xe_0000),
        ssm_conv_out_f32: DevicePtr(0xf_0000),
        ssm_ba: DevicePtr(0x10_0000),
        ssm_gates: DevicePtr(0x11_0000),
        max_batch_tokens: 4096,
        scratch_bytes: 1 << 20,
        moe_output_bytes: 1 << 20,
    }
}

fn context(config: &ModelConfig) -> ForwardContext<'_> {
    ForwardContext {
        buffers: buffers(),
        config,
        attn_metadata: None,
        comm_world_size: None,
        graph_capture: false,
        profile: false,
        ssm_qkvz_size: 12288,
        ssm_ba_size: 64,
        rms_norm_eps: 1e-6f32.to_bits(),
        routed_scaling_factor: 1f32.to_bits(),
        rope_theta: 1e7f32.to_bits(),
    }
}

fn kernels() -> SsmKernels {
    let k = |x| KernelHandle(x);
    SsmKernels {
        rms_norm_residual: k(1),
        gated_rms_norm: k(2),
        gated_rms_norm_f32: k(3),
        dense_gemv: k(4),
        w4a16_gemv: k(5),
        w8a16_gemv: k(6),
        w4a16_gemv_qkvz: k(7),
        deinterleave: k(8),
        conv1d_l2norm: k(9),
        conv1d_l2norm_f32: k(10),
        gdn: k(11),
        gdn_f32: k(12),
        ba_gates: k(13),
        residual_add: k(14),
        l2_norm: k(15),
        residual_add_rms_norm: k(16),
        gated_rms_norm_prefill: k(17),
        w4a16_gemm: k(18),
        w4a16_gemm_t: k(19),
        w4a16_gemm_t_m128: k(20),
        dense_gemm: k(21),
        gdn_prefill_split4: k(22),
        gdn_prefill_persistent: k(23),
        gdn_prefill_persistent_wy4: k(24),
        gdn_prefill_wy32: k(25),
        gdn_prefill_wy32_batched: k(26),
        gdn_prefill_persistent_batched: k(27),
        gdn_prefill_persistent_wy4_batched: k(28),
        gdn_prefill_split4_batched: k(29),
        ba_gates_prefill: k(30),
        conv1d_prefill: k(31),
        kda_gates: k(32),
        kda_decode: k(33),
        kda_prefill: k(34),
        kda_decode_f32i: k(35),
        fp8_gemm: k(36),
        fp8_gemm_t_m128: k(37),
    }
}

fn layer() -> Qwen3SsmLayer {
    Qwen3SsmLayer {
        input_norm: dense(1),
        ssm: SsmWeights {
            in_proj_qkvz: dense(2),
            in_proj_ba: dense(3),
            conv1d: dense(4),
            a_log: dense(5),
            dt_bias: dense(6),
            norm: dense(7),
            out_proj: QuantizedWeight::null(),
        },
        post_attn_norm: dense(8),
        qkvz_nvfp4: None,
        qkvz_nvfp4_t: None,
        out_proj_nvfp4_t: None,
        out_proj_dense: None,
        qkvz_fp8w: None,
        out_proj_fp8w: None,
        qkvz_fp8: None,
        out_proj_fp8: None,
        sequential_qkvz: false,
        kda_mode: false,
        kda_f_proj: dense(9),
        kda_b_proj: dense(10),
        kda_lower_bound: (-5f32).to_bits(),
        h_state_bytes: 32 * 128 * 128 * 4,
        conv_state_bytes: 8192 * 4 * 4,
        k: kernels(),
    }
}

fn gdn(rows: usize) -> GdnPrefillBuffers {
    GdnPrefillBuffers {
        qkv: DevicePtr(0x20_0000),
        gate_beta: DevicePtr(0x30_0000),
        output: DevicePtr(0x40_0000),
        z: DevicePtr(0x50_0000),
        total_len: rows,
    }
}

fn count(plan: &[Step], f: fn(&Op) -> bool) -> usize {
    plan.iter().filter(|s| matches!(s, Step::On(_, op) if f(op))).count()
}

#[test]
fn test_ssm_state_allocation_sizes() {
    let config = ModelConfig::qwen3_next_80b_nvfp4();
    let nv = config.linear_num_value_heads;
    let vd = config.linear_value_head_dim;
    let nk = config.linear_num_key_heads;
    let kd = config.linear_key_head_dim;
    let d_conv = config.linear_conv_kernel_dim;

    let h_bytes = nv * vd * kd * 4;
    assert_eq!(h_bytes, 32 * 128 * 128 * 4);

    let conv_dim = nk * kd * 2 + nv * vd;
    let conv_bytes = conv_dim * d_conv * 4;
    assert_eq!(conv_bytes, 8192 * 4 * 4);

    let h_state = DevicePtr(0x1000);
    let conv_state = DevicePtr(0x2000);
    assert!(!h_state.is_null());
    assert!(!conv_state.is_null());
    let l = Qwen3SsmLayer { h_state_bytes: h_bytes, conv_state_bytes: conv_bytes, ..layer() };
    let (state, plan) = l.alloc_state(h_state, conv_state, STREAM);
    assert_eq!(state, SsmState { h_state, conv_state });
    assert_eq!(
        plan,
        vec![
            Step::On(STREAM, Op::Memset(h_state, 0, 32 * 128 * 128 * 4)),
            Step::On(STREAM, Op::Memset(conv_state, 0, 8192 * 4 * 4)),
        ]
    );
}

#[test]
fn a_decoded_row() {
    let c = ModelConfig::qwen3_next_80b_nvfp4();
    let l = layer();
    assert!(l.is_ssm_layer());
    let (p, r) = l.decode(
        &context(&c), DevicePtr(0x1_0000), DevicePtr(0x2_0000), STATE, DevicePtr(0x99), STREAM,
        false,
    );
    assert!(r.is_ok());
    assert!(matches!(p[0], Step::On(STREAM, Op::RmsNormResidual(KernelHandle(1), ..))));
    let n = p.len();
    assert!(
        matches!(
            p[n - 1],
            Step::On(
                _, Op::ResidualAdd(KernelHandle(14), DevicePtr(0x1_0000), DevicePtr(0x99), 2048),
            ),
        ),
    );
    assert!(matches!(p[n - 2], Step::On(_, Op::FfnForward(DevicePtr(0x3_0000), DevicePtr(0x99)))));
    assert!(matches!(p[n - 3], Step::On(_, Op::ResidualAddRmsNorm(KernelHandle(16), ..))));
    let mut cx = context(&c);
    cx.profile = true;
    let (q, _) = l.decode(
        &cx, DevicePtr(0x1_0000), DevicePtr(0x2_0000), STATE, DevicePtr(0x99), STREAM, false,
    );
    assert!(count(&q, |o| matches!(o, Op::Synchronize)) > 0);
    assert_eq!(count(&p, |o| matches!(o, Op::Synchronize)), 0);
}

#[test]
fn per_channel_decay_needs_a_norm_in_single_precision() {
    let c = ModelConfig::qwen3_next_80b_nvfp4();
    let mut l = Qwen3SsmLayer { kda_mode: true, ..layer() };
    let (p, r) = l.decode(
        &context(&c), DevicePtr(1), DevicePtr(2), STATE, DevicePtr(3), STREAM, false,
    );
    assert!(r.is_ok());
    assert_eq!(count(&p, |o| matches!(o, Op::KdaGates(..))), 1);
    l.k.gated_rms_norm_f32 = KernelHandle(0);
    let (p, r) = l.decode(
        &context(&c), DevicePtr(1), DevicePtr(2), STATE, DevicePtr(3), STREAM, false,
    );
    assert_eq!(r, Err(SsmError::KdaNeedsF32Norm));
    assert_eq!(count(&p, |o| matches!(o, Op::FfnForward(..))), 0);
}

#[test]
fn a_trace_waits_after_each_stage() {
    let c = ModelConfig::qwen3_next_80b_nvfp4();
    let waits = |l: &Qwen3SsmLayer, profile: bool, trace: bool| {
        let mut cx = context(&c);
        cx.profile = profile;
        let (p, _) = l.decode(
            &cx, DevicePtr(1), DevicePtr(2), STATE, DevicePtr(3), STREAM, trace,
        );
        count(&p, |o| matches!(o, Op::Synchronize))
    };
    let plain = layer();
    let kda = Qwen3SsmLayer { kda_mode: true, ..layer() };
    assert_eq!(waits(&plain, false, false), 0);
    assert_eq!(waits(&plain, true, false), 4);
    assert_eq!(waits(&plain, false, true), 8);
    assert_eq!(waits(&plain, true, true), 10);
    assert_eq!(waits(&kda, false, true), 9);
    assert_eq!(waits(&kda, true, false), 2);
}

#[test]
fn kda_regions_follow_the_convolution() {
    let d = SsmDims {
        h: 2048,
        nk: 16,
        kd: 128,
        nv: 32,
        vd: 128,
        key_dim: 2048,
        value_dim: 4096,
        conv_dim: 8192,
        d_conv: 4,
        qkvz: 12288,
        ba: 64,
    };
    let r = split_kda_regions(DevicePtr(0), d);
    assert_eq!(r.f_raw.0, 8192 * 4);
    assert_eq!(r.b_raw.0, r.f_raw.0 + 32 * 128 * 2);
    assert_eq!(r.log_decay.0, r.b_raw.0 + 64);
    assert_eq!(r.beta.0, r.log_decay.0 + 32 * 128 * 4);
    assert_eq!(r.out.0, r.beta.0 + 128);
}

#[test]
fn long_prompts_are_cut_into_launches() {
    let c = ModelConfig::qwen3_next_80b_nvfp4();
    let mut l = Qwen3SsmLayer { kda_mode: true, ..layer() };
    let p = l.prefill_kda_full(&context(&c), gdn(65535 * 2 + 5), STATE, STREAM).unwrap();
    assert_eq!(p.len(), 3);
    let rows: Vec<u32> = p
        .iter()
        .filter_map(|s| match s {
            Step::On(_, Op::KdaPrefill(_, _, _, _, _, _, _, _, 1, rows, ..)) => Some(*rows),
            _ => None,
        })
        .collect();
    assert_eq!(rows, vec![65535, 65535, 5]);
    assert!(l.prefill_kda_full(&context(&c), gdn(0), STATE, STREAM).unwrap().is_empty());
    l.k.kda_prefill = KernelHandle(0);
    assert_eq!(
        l.prefill_kda_full(&context(&c), gdn(5), STATE, STREAM).err(),
        Some(SsmError::KdaPrefillUnavailable)
    );
}

#[test]
fn the_recurrence_picks_its_kernel() {
    let c = ModelConfig::qwen3_next_80b_nvfp4();
    let mut l = layer();
    let p = l.prefill_gdn_full(&context(&c), gdn(33), STATE, STREAM).unwrap();
    assert!(matches!(p[0], Step::On(_, Op::GdnPrefillPersistentSmem(KernelHandle(25), ..))));
    let p = l.prefill_gdn_full(&context(&c), gdn(32), STATE, STREAM).unwrap();
    assert!(matches!(p[0], Step::On(_, Op::GdnPrefillPersistentSmem(KernelHandle(24), ..))));
    l.k.gdn_prefill_wy32 = KernelHandle(0);
    l.k.gdn_prefill_persistent_wy4 = KernelHandle(0);
    let p = l.prefill_gdn_full(&context(&c), gdn(4096 + 10), STATE, STREAM).unwrap();
    assert_eq!(p.len(), 2);

    let mut gates = c.clone();
    gates.ssm_per_channel_gates = true;
    assert_eq!(
        layer().prefill_gdn_full(&context(&gates), gdn(5), STATE, STREAM).err(),
        Some(SsmError::PerChannelGates)
    );
    let mut k = Qwen3SsmLayer { kda_mode: true, ..layer() };
    let p = k.prefill_gdn_full(&context(&gates), gdn(5), STATE, STREAM).unwrap();
    assert_eq!(p, k.prefill_kda_full(&context(&gates), gdn(5), STATE, STREAM).unwrap());
    assert_eq!(p.len(), 1);
    assert!(
        matches!(
            p[0],
            Step::On(
                STREAM,
                Op::KdaPrefill(
                    _, DevicePtr(0xaa), DevicePtr(0x20_0000), _, _, DevicePtr(0x30_0000),
                    DevicePtr(0x11_0000), DevicePtr(0x40_0000), 1, 5, ..
                ),
            ),
        ),
    );
    k.k.kda_prefill = KernelHandle(0);
    assert_eq!(
        k.prefill_gdn_full(&context(&gates), gdn(5), STATE, STREAM).err(),
        Some(SsmError::KdaPrefillUnavailable)
    );
}

#[test]
fn per_channel_gates_of_all_chunks_are_kept() {
    let c = ModelConfig::qwen3_next_80b_nvfp4();
    let l = Qwen3SsmLayer { kda_mode: true, ..layer() };
    let gates = |rows: usize, offset: usize| -> (u64, u64) {
        let p = l.prefill_phase1(
            &context(&c), DevicePtr(1), DevicePtr(2), rows, STATE, gdn(10), offset, false, STREAM,
        );
        p.iter()
            .find_map(|s| match s {
                Step::On(_, Op::KdaGates(_, _, _, _, _, decay, beta, ..)) => {
                    Some((decay.0, beta.0))
                }
                _ => None,
            })
            .unwrap()
    };
    assert_eq!(gates(3, 0), (0x30_0000, 0x11_0000));
    let (decay, beta) = gates(2, 3);
    assert_eq!(decay, 0x30_0000 + 3 * 32 * 128 * 4);
    assert_eq!(beta, 0x11_0000 + 3 * 32 * 4);
}

#[test]
fn several_sequences_at_once() {
    let c = ModelConfig::qwen3_next_80b_nvfp4();
    let mut l = layer();
    let p = l.prefill_gdn_full_batched(
        &context(&c), gdn(100), DevicePtr(9), 2, 50, STREAM,
    ).unwrap();
    assert!(
        matches!(
            p[0],
            Step::On(_, Op::GdnPrefillPersistentSmemBatched(KernelHandle(26), DevicePtr(9), ..)),
        ),
    );
    l.k.gdn_prefill_wy32_batched = KernelHandle(0);
    l.k.gdn_prefill_persistent_wy4_batched = KernelHandle(0);
    let p = l.prefill_gdn_full_batched(
        &context(&c), gdn(512), DevicePtr(9), 2, 256, STREAM,
    ).unwrap();
    assert!(matches!(p[0], Step::On(_, Op::GdnPrefillPersistentBatched(KernelHandle(27), ..))));
    let p = l.prefill_gdn_full_batched(
        &context(&c), gdn(510), DevicePtr(9), 2, 255, STREAM,
    ).unwrap();
    assert!(matches!(p[0], Step::On(_, Op::GdnPrefillSplit4Batched(KernelHandle(29), ..))));
    l.k.gdn_prefill_split4_batched = KernelHandle(0);
    assert_eq!(
        l.prefill_gdn_full_batched(&context(&c), gdn(510), DevicePtr(9), 2, 255, STREAM).err(),
        Some(SsmError::NoBatchedKernel)
    );
    let mut gates = c.clone();
    gates.ssm_per_channel_gates = true;
    assert_eq!(
        l.prefill_gdn_full_batched(&context(&gates), gdn(510), DevicePtr(9), 2, 255, STREAM).err(),
        Some(SsmError::PerChannelGates)
    );
}

#[test]
fn chunks_adjoin_in_the_recurrence_buffers() {
    let c = ModelConfig::qwen3_next_80b_nvfp4();
    let l = layer();
    let copies = |rows: usize, offset: usize| -> Vec<(u64, u64)> {
        l.prefill_phase1(
            &context(&c), DevicePtr(1), DevicePtr(2), rows, STATE, gdn(10), offset, false, STREAM,
        )
        .iter()
        .filter_map(|s| match s {
            Step::On(_, Op::CopyD2d(_, to, count)) => Some((to.0, to.0 + *count as u64)),
            _ => None,
        })
        .collect()
    };
    let first = copies(3, 0);
    let second = copies(2, 3);
    assert_eq!((first.len(), second.len()), (2 + 3, 2 + 2));
    assert_eq!(first[0].1, second[0].0);
    assert_eq!(first[1].1, second[1].0);
    assert_eq!(first[4].1, second[2].0);
    let whole = copies(5, 0);
    assert_eq!(&whole[2..5], &first[2..5]);
    assert_eq!(&whole[5..7], &second[2..4]);
}

#[test]
fn prefill_halves() {
    let c = ModelConfig::qwen3_next_80b_nvfp4();
    let l = layer();
    let p = l.prefill_phase1(
        &context(&c), DevicePtr(1), DevicePtr(2), 3, STATE, gdn(10), 4, false, STREAM,
    );
    assert!(
        p.contains(
            &Step::On(
                STREAM,
                Op::CopyD2d(DevicePtr(0xd_0000), DevicePtr(0x20_0000 + 4 * 8192 * 2), 3 * 8192 * 2),
            ),
        ),
    );
    assert!(
        p.contains(
            &Step::On(
                STREAM,
                Op::CopyD2d(DevicePtr(0x11_0000), DevicePtr(0x30_0000 + 4 * 64 * 4), 3 * 64 * 4),
            ),
        ),
    );
    let z = p.iter().filter(
        |s| matches!(s, Step::On(_, Op::CopyD2d(_, DevicePtr(d), 8192)) if *d >= 0x50_0000),
    ).count();
    assert_eq!(z, 3);
    let p = l.prefill_phase3(
        &context(&c), DevicePtr(1), DevicePtr(2), 3, gdn(10), 4, false, STREAM,
    );
    assert!(matches!(p[0], Step::On(
        _, Op::GatedRmsNormPrefill(KernelHandle(17), DevicePtr(o), DevicePtr(z), ..),
    )
        if o == 0x40_0000 + 4 * 4096 * 2 && z == 0x50_0000 + 4 * 4096 * 2));
    assert!(matches!(p[1], Step::On(_, Op::W4a16Gemm(KernelHandle(18), ..))));
    let fp8 = Qwen3SsmLayer { out_proj_fp8: Some(DevicePtr(7)), ..layer() };
    let p = fp8.prefill_phase3(
        &context(&c), DevicePtr(1), DevicePtr(2), 129, gdn(200), 0, false, STREAM,
    );
    assert!(matches!(p[1], Step::On(_, Op::Fp8GemmN128M128(KernelHandle(37), ..))));
    let p = fp8.prefill_phase3(
        &context(&c), DevicePtr(1), DevicePtr(2), 128, gdn(200), 0, false, STREAM,
    );
    assert!(matches!(p[1], Step::On(_, Op::Fp8GemmN128(KernelHandle(36), ..))));
}

#[test]
fn a_prompt_in_one_go() {
    let c = ModelConfig::qwen3_next_80b_nvfp4();
    let p = layer().prefill(&context(&c), DevicePtr(1), DevicePtr(2), 3, STATE, STREAM).unwrap();
    assert_eq!(count(&p, |o| matches!(o, Op::PrefillQkvzProj(..))), 1);
    assert_eq!(count(&p, |o| matches!(o, Op::PrefillGdnRecurrence(..))), 1);
    assert_eq!(count(&p, |o| matches!(o, Op::PrefillOutProj(..))), 1);
    let kda = Qwen3SsmLayer { kda_mode: true, ..layer() };
    assert_eq!(
        kda.prefill(&context(&c), DevicePtr(1), DevicePtr(2), 3, STATE, STREAM).err(),
        Some(SsmError::KdaNeedsTwoPhases)
    );
}

#[test]
fn dumped_layers() {
    assert_eq!(dump_layers_from_env(None), vec![0]);
    assert_eq!(dump_layers_from_env(Some("0,15,29")), vec![0, 15, 29]);
    assert_eq!(dump_layers_from_env(Some(" 3 , x,,7 ")), vec![3, 7]);
    assert!(dump_layers_from_env(Some("")).is_empty());
    let dump = maybe_dump_gdn_buf;
    assert_eq!(dump(None, None, None, 0, false), None);
    assert_eq!(dump(Some(""), None, None, 0, false), None);
    assert_eq!(dump(Some("d"), None, None, 0, false), Some(0));
    assert_eq!(dump(Some("d"), None, None, 30, false), Some(0));
    assert_eq!(dump(Some("d"), None, None, 1, false), None);
    assert_eq!(dump(Some("d"), None, None, 0, true), None);
    assert_eq!(dump(Some("d"), Some("48"), Some("47"), 95, false), Some(47));
    assert_eq!(dump(Some("d"), Some("0"), None, 95, false), Some(0));
    assert_eq!(dump(Some("d"), Some("100"), Some("64"), 64, false), None);
    assert_eq!(dump(Some("d"), Some("x"), Some("5"), 35, false), Some(5));
}
