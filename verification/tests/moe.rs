use atlas_plan::config::ModelConfig;
use atlas_plan::context::ForwardContext;
use atlas_plan::gpu::{
    Buffers, DenseExpertWeight, DenseWeight, DevicePtr, ExpertPtrTable, ExpertWeight,
    Fp8ExpertPtrTable, Fp8ExpertWeight, Fp8Weight, KernelHandle, QuantizedWeight,
};
use atlas_plan::kernels::{KernelEntry, KernelTable};
use atlas_plan::moe::init::{MoeFlags, MoeInitError, MoeResources};
use atlas_plan::moe::routing::{split_sort_regions, worst_case_m_tiles};
use atlas_plan::moe::tables::{
    build_expert_tables, build_fp8_ptr_table, build_ptr_table, build_ptr_table_from_qw, Projection,
};
use atlas_plan::moe::{MoeError, MoeKernels, MoeLayer, MoeWeights};
use atlas_plan::plan::{Op, Step};

const STREAM: u64 = 7;
const INPUT: DevicePtr = DevicePtr(0x500);
const ROUTER: DevicePtr = DevicePtr(0x600);

fn dense(p: u64) -> DenseWeight {
    DenseWeight { weight: DevicePtr(p) }
}

fn nvfp4(p: u64) -> QuantizedWeight {
    QuantizedWeight {
        weight: DevicePtr(p),
        weight_scale: DevicePtr(p + 1),
        weight_scale_2: p as u32 + 2,
        input_scale: DevicePtr(p + 3),
    }
}

fn fp8(p: u64) -> Fp8Weight {
    Fp8Weight { weight: DevicePtr(p), row_scale: DevicePtr(p + 1) }
}

fn expert(p: u64) -> ExpertWeight {
    ExpertWeight { gate_proj: nvfp4(p), up_proj: nvfp4(p + 10), down_proj: nvfp4(p + 20) }
}

fn ptrs(p: u64) -> ExpertPtrTable {
    ExpertPtrTable {
        packed_ptrs: DevicePtr(p),
        scale_ptrs: DevicePtr(p + 1),
        scale2_vals: DevicePtr(p + 2),
    }
}

fn buffers() -> Buffers {
    Buffers {
        hidden_states: DevicePtr(0x1_0000),
        residual: DevicePtr(0x2_0000),
        norm_output: DevicePtr(0x3_0000),
        qkv_output: DevicePtr(0x4_0000),
        attn_output: DevicePtr(0x5_0000),
        gate_logits: DevicePtr(0x6_0000),
        scratch: DevicePtr(0x7_0000),
        logits: DevicePtr(0x8_0000),
        expert_gate_out: DevicePtr(0x9_0000),
        expert_up_out: DevicePtr(0xa_0000),
        expert_down_out: DevicePtr(0xb_0000),
        moe_output: DevicePtr(0xc_0000),
        ssm_qkvz: DevicePtr(0xd_0000),
        ssm_deinterleaved: DevicePtr(0xe_0000),
        ssm_conv_out_f32: DevicePtr(0xf_0000),
        ssm_ba: DevicePtr(0x10_0000),
        ssm_gates: DevicePtr(0x11_0000),
        max_batch_tokens: 4096,
        scratch_bytes: 1 << 20,
        moe_output_bytes: 1 << 20,
    }
}

fn context(config: &ModelConfig, ranks: Option<usize>) -> ForwardContext<'_> {
    ForwardContext {
        buffers: buffers(),
        config,
        attn_metadata: None,
        comm_world_size: ranks,
        graph_capture: false,
        profile: false,
        ssm_qkvz_size: 0,
        ssm_ba_size: 0,
        rms_norm_eps: 1e-6f32.to_bits(),
        routed_scaling_factor: 2.5f32.to_bits(),
        rope_theta: 1e7f32.to_bits(),
    }
}

/// A table with every required kernel, and handles from 1 on.
fn full_table() -> KernelTable {
    let mut t = KernelTable { entries: vec![] };
    let mut next = 1;
    while let Err(m) = MoeKernels::load(&t, false) {
        t.entries.push(KernelEntry {
            module: m.module.to_string(),
            function: m.function.to_string(),
            handle: KernelHandle(next),
        });
        next += 1;
    }
    t
}

fn weights() -> MoeWeights {
    MoeWeights {
        gate: dense(11),
        experts: vec![expert(1000), expert(2000)],
        shared_expert: expert(3000),
        shared_expert_dense: None,
        shared_expert_gate: dense(12),
        correction_bias: None,
    }
}

fn resources() -> MoeResources {
    MoeResources {
        gate_ptrs: ptrs(100),
        up_ptrs: ptrs(200),
        down_ptrs: ptrs(300),
        prefill_stream: 1,
        event_a: 2,
        event_b: 3,
    }
}

fn flags() -> MoeFlags {
    MoeFlags::from_settings(None, None, None, None)
}

fn layer() -> MoeLayer {
    match MoeLayer::new(weights(), 2, 2, None, resources(), flags(), &full_table(), false, 0) {
        Ok(l) => l,
        Err(_) => panic!("layer"),
    }
}

fn count(plan: &[Step], f: fn(&Op) -> bool) -> usize {
    plan.iter().filter(|s| matches!(s, Step::On(_, op) if f(op))).count()
}

#[test]
fn test_moe_kernel_loading() {
    let names = [
        ("gemv", "dense_gemv_bf16"),
        ("w4a16_gemv", "w4a16_gemv"),
        ("moe_topk", "moe_topk_softmax"),
        ("moe_expert_gemv_fused", "moe_expert_gemv_gate_up"),
        ("moe_expert_gemv_fused", "moe_expert_gemv_gate_up_2x"),
        ("moe_expert_gemv_fused", "moe_expert_gemv_silu_down"),
        ("moe_expert_gemv_fused", "moe_expert_gemv_silu_down_2x"),
        ("moe_shared_expert_fused", "moe_expert_gate_up_shared"),
        ("moe_shared_expert_fused", "moe_expert_silu_down_shared"),
        ("moe_expert_gemv", "moe_weighted_sum_blend"),
        ("moe_topk", "moe_topk_softmax_batched"),
    ];
    let mut t = KernelTable { entries: vec![] };
    for (i, (m, f)) in names.iter().enumerate() {
        t.entries.push(KernelEntry {
            module: m.to_string(),
            function: f.to_string(),
            handle: KernelHandle(i as u64 + 1),
        });
    }
    for (m, f) in names {
        let k = t.kernel(m, f).unwrap();
        assert!(k.0 > 0);
    }
}

#[test]
fn the_first_missing_kernel_is_named() {
    match MoeKernels::load(&KernelTable { entries: vec![] }, false) {
        Err(m) => assert_eq!((m.module, m.function), ("norm", "rms_norm")),
        Ok(_) => panic!("nothing is loaded"),
    }
    let mut t = full_table();
    t.entries.retain(|e| e.function != "moe_batched_blend");
    match MoeLayer::new(weights(), 2, 2, None, resources(), flags(), &t, false, 0) {
        Err(MoeInitError::MissingKernel(m)) => assert_eq!(
            (m.module, m.function), ("moe", "moe_batched_blend"),
        ),
        _ => panic!("a kernel is missing"),
    }
    let mut t = full_table();
    let plain = t.kernel("residual_add", "bf16_residual_add").unwrap();
    assert_eq!(MoeKernels::load(&t, true).ok().unwrap().residual_add, plain);
    t.entries.push(KernelEntry {
        module: "norm".to_string(),
        function: "f32_residual_add".to_string(),
        handle: KernelHandle(999),
    });
    assert_eq!(MoeKernels::load(&t, true).ok().unwrap().residual_add, KernelHandle(999));
    assert_eq!(MoeKernels::load(&t, false).ok().unwrap().residual_add, plain);
}

#[test]
fn experts_have_to_be_selectable() {
    for (n, k) in [(2usize, 3usize), (0, 0)] {
        match MoeLayer::new(weights(), n, k, None, resources(), flags(), &full_table(), false, 0) {
            Err(MoeInitError::InvalidConfig(a, b)) => assert_eq!((a, b), (k, n)),
            _ => panic!("selectable"),
        }
    }
}

#[test]
fn a_fresh_layer() {
    let mut w = weights();
    w.correction_bias = Some(dense(77));
    w.shared_expert_dense = Some(DenseExpertWeight {
        gate_proj: dense(1),
        up_proj: dense(2),
        down_proj: dense(3),
    });
    let f = MoeFlags::from_settings(Some("0"), Some("1"), Some("true"), Some("no"));
    let l = match MoeLayer::new(w, 2, 1, Some(nvfp4(9)), resources(), f, &full_table(), false, 5) {
        Ok(l) => l,
        Err(_) => panic!("layer"),
    };
    assert_eq!(l.correction_bias_dev, Some(DevicePtr(77)));
    assert_eq!(l.shared_down_dense, Some(dense(3)));
    assert!(l.unified_layout && l.hybrid_layout);
    assert!(!l.fp8_moe_coalesced_enabled && !l.nvfp4_gate_up_m128);
    assert_eq!(l.gate_nvfp4, Some(nvfp4(9)));
    assert_eq!(l.swiglu_clamp, 5);
    assert!(flags().fp8_moe_coalesced);
    assert_eq!(l.k.silu_mul, l.k.act_mul);
    assert_eq!(l.k.topk_sigmoid, KernelHandle(0));
}

#[test]
fn tables_have_one_entry_per_expert() {
    let t = build_ptr_table(&[expert(0x100), expert(0x200)], Projection::Up);
    assert_eq!(t.packed.len(), 16);
    assert_eq!(&t.packed[8..], &(0x20au64).to_le_bytes()[..]);
    assert_eq!(&t.scale[..8], &(0x10bu64).to_le_bytes()[..]);
    assert_eq!(&t.scale2[4..], &(0x20cu32).to_le_bytes()[..]);
    let q = build_ptr_table_from_qw(&[nvfp4(5)]);
    assert_eq!(q.packed, 5u64.to_le_bytes().to_vec());
    let e = Fp8ExpertWeight { gate_proj: fp8(1), up_proj: fp8(3), down_proj: fp8(5) };
    let f = build_fp8_ptr_table(&[e], Projection::Down);
    assert_eq!(f.weight, 5u64.to_le_bytes().to_vec());
    assert_eq!(f.scale, 6u64.to_le_bytes().to_vec());
    assert!(build_ptr_table(&[], Projection::Gate).packed.is_empty());
}

#[test]
fn tiles_hold_every_row() {
    assert_eq!(worst_case_m_tiles(0, 8), 1);
    assert_eq!(worst_case_m_tiles(8, 8), 1);
    assert_eq!(worst_case_m_tiles(9, 8), 2);
    assert_eq!(worst_case_m_tiles(1000, 10), 157);
    for n in [1usize, 63, 64, 65, 4096] {
        assert!(worst_case_m_tiles(n, 10) as usize * 64 >= n * 10);
    }
}

#[test]
fn sort_regions_follow_each_other() {
    let r = split_sort_regions(DevicePtr(0x1000), 20, 512);
    assert_eq!(r.sorted_token_ids, DevicePtr(0x1000));
    assert_eq!(r.sorted_expert_ids, DevicePtr(0x1000 + 80));
    assert_eq!(r.expert_offsets, DevicePtr(0x1000 + 160));
    assert_eq!(r.token_to_perm, DevicePtr(0x1000 + 160 + 513 * 4));
}

#[test]
fn two_rows_take_five_launches() {
    let c = ModelConfig::qwen3_next_80b_nvfp4();
    let l = layer();
    let p = l.forward_k2(&context(&c, None), INPUT, ROUTER, STREAM).ok().unwrap();
    assert_eq!(p.len(), 6);
    assert!(matches!(p[0], Step::On(STREAM, Op::RouterInput(INPUT, 2, 2048, ROUTER))));
    assert!(
        matches!(p[1], Step::On(_, Op::DenseGemm(_, ROUTER, _, DevicePtr(0x6_0000), 2, 512, 2048))),
    );
    assert!(matches!(p[2], Step::On(_, Op::MoeTopkSoftmaxBatched(..))));
    assert!(matches!(p[3], Step::On(_, Op::MoeGateUpSharedBatch2(..))));
    assert!(matches!(p[4], Step::On(_, Op::MoeSiluDownSharedBatch2(..))));
    assert!(matches!(p[5], Step::On(_, Op::MoeWeightedSumBlendBatch2(_, DevicePtr(0xc_0000), ..))));
}

#[test]
fn two_rows_on_the_transposed_layout_are_blended_too() {
    let c = ModelConfig::qwen3_next_80b_nvfp4();
    let mut l = layer();
    l.t_layout_decode = true;
    l.gate_ptrs_t = Some(ptrs(1));
    l.up_ptrs_t = Some(ptrs(2));
    l.down_ptrs_t = Some(ptrs(3));
    let p = l.forward_k2(&context(&c, None), INPUT, ROUTER, STREAM).ok().unwrap();
    assert_eq!(p.len(), 6);
    assert!(matches!(p[3], Step::On(_, Op::MoeGateUpSharedBatch2T(..))));
    assert!(matches!(p[5], Step::On(_, Op::MoeWeightedSumBlendBatch2(_, DevicePtr(0xc_0000), ..))));
}

#[test]
fn ranks_add_the_shared_part_after_the_sum() {
    let c = ModelConfig::qwen3_next_80b_nvfp4();
    let l = layer();
    let p = l.forward_k2(&context(&c, Some(2)), INPUT, ROUTER, STREAM).ok().unwrap();
    assert!(matches!(p[p.len() - 2], Step::On(_, Op::AllReduceAsync(DevicePtr(0xc_0000), 8192))));
    assert!(matches!(p[p.len() - 1], Step::On(_, Op::MoeBatchedBlend(..))));
    assert_eq!(count(&p, |o| matches!(o, Op::Memset(DevicePtr(0x9_0000), 0, 8192))), 1);

    let mut cx = context(&c, Some(2));
    cx.graph_capture = true;
    let p = l.forward_k2(&cx, INPUT, ROUTER, STREAM).ok().unwrap();
    assert!(matches!(p[p.len() - 2], Step::AllReduce(DevicePtr(0xc_0000), 8192)));

    let mut l = layer();
    l.weights.shared_expert_gate = dense(0);
    let p = l.forward_k2(&context(&c, Some(2)), INPUT, ROUTER, STREAM).ok().unwrap();
    assert!(
        matches!(
            p[p.len() - 1],
            Step::On(_, Op::ResidualAdd(_, DevicePtr(0xc_0000), DevicePtr(0x5_0000), 4096)),
        ),
    );
}

#[test]
fn batched_rows_are_planned_one_by_one() {
    let c = ModelConfig::qwen3_next_80b_nvfp4();
    let p = layer().forward_batched(&context(&c, None), INPUT, ROUTER, 3, STREAM).ok().unwrap();
    assert_eq!(p.len(), 2 + 3 * 4);
    assert!(
        matches!(
            p[2 + 4],
            Step::On(_, Op::MoeTopkSoftmax(_, DevicePtr(x), ..)) if x == 0x6_0000 + 512 * 2,
        ),
    );
    assert!(
        matches!(
            p[2 + 7],
            Step::On(_, Op::MoeWeightedSumBlend(_, DevicePtr(x), ..)) if x == 0xc_0000 + 4096,
        ),
    );
    let none = layer().forward_batched(&context(&c, None), INPUT, ROUTER, 0, STREAM).unwrap();
    assert_eq!(none.len(), 2);
    let p = layer().forward_batched(&context(&c, Some(2)), INPUT, ROUTER, 1, STREAM).ok().unwrap();
    assert!(matches!(p[6], Step::On(_, Op::AllReduceAsync(DevicePtr(0xc_0000), 4096))));
}

#[test]
fn a_prefill_clears_sorts_and_blends() {
    let c = ModelConfig::qwen3_next_80b_nvfp4();
    let l = layer();
    let p = match l.forward_prefill(
        &context(&c, None), INPUT, ROUTER, 100, KernelHandle(0), STREAM,
    ) {
        Ok(p) => p,
        Err(_) => panic!("plan"),
    };
    let at = |f: fn(&Op) -> bool| p.iter().position(
        |s| matches!(s, Step::On(_, op) if f(op)),
    ).unwrap();
    let clear = at(|o| matches!(o, Op::Memset(..)));
    let sort = at(|o| matches!(o, Op::MoeSortByExpert(..)));
    let product = at(|o| matches!(o, Op::MoeGroupedGemm(..)));
    let reduce = at(|o| matches!(o, Op::MoeUnpermuteReduce(..)));
    assert!(sort < clear && clear + 2 < product && product < reduce);
    assert!(
        matches!(
            p[clear], Step::On(_, Op::Memset(DevicePtr(0x9_0000), 0, n)) if n == 1000 * 512 * 2,
        ),
    );
    assert!(
        matches!(
            p[clear + 2],
            Step::On(_, Op::Memset(DevicePtr(0xb_0000), 0, n)) if n == 1000 * 2048 * 2,
        ),
    );
    assert_eq!(count(&p, |o| matches!(o, Op::MoeBatchedBlend(..))), 1);
    assert_eq!(count(&p, |o| matches!(o, Op::AllReduceAsync(..))), 0);
    assert!(matches!(p[p.len() - 1], Step::On(_, Op::MoeBatchedBlend(..))));
}

#[test]
fn without_a_shared_expert_nothing_is_blended() {
    let mut c = ModelConfig::qwen3_next_80b_nvfp4();
    c.shared_expert_intermediate_size = 0;
    let p = layer().forward_prefill(
        &context(&c, Some(4)), INPUT, ROUTER, 10, KernelHandle(0), STREAM,
    );
    let p = match p {
        Ok(p) => p,
        Err(_) => panic!("plan"),
    };
    assert_eq!(count(&p, |o| matches!(o, Op::MoeBatchedBlend(..))), 0);
    assert_eq!(count(&p, |o| matches!(o, Op::AllReduceAsync(..))), 1);
    assert_eq!(count(&p, |o| matches!(o, Op::W4a16Gemm(..))), 0);
}

#[test]
fn fp8_experts_need_their_tables() {
    let c = ModelConfig::qwen3_next_80b_nvfp4();
    let mut l = layer();
    let tables = Fp8ExpertPtrTable { weight_ptrs: DevicePtr(1), scale_ptrs: DevicePtr(2) };
    l.fp8_gate_weight_ptrs = Some(tables);
    l.k.fp8_grouped_gemm = KernelHandle(99);
    let r = l.forward_prefill(&context(&c, None), INPUT, ROUTER, 65, KernelHandle(98), STREAM);
    assert_eq!(r.err(), Some(MoeError::Fp8TablesNotSet));
    l.fp8_up_weight_ptrs = Some(tables);
    l.fp8_down_weight_ptrs = Some(tables);
    l.fp8_shared_expert = Some(
        Fp8ExpertWeight { gate_proj: fp8(1), up_proj: fp8(3), down_proj: fp8(5) },
    );
    let p = l.forward_prefill(
        &context(&c, Some(2)), INPUT, ROUTER, 65, KernelHandle(98), STREAM,
    ).unwrap();
    assert_eq!(count(&p, |o| matches!(o, Op::MoeFp8GroupedGemm(KernelHandle(98), ..))), 3);
    assert!(matches!(p[p.len() - 2], Step::On(_, Op::AllReduceAsync(..))));
    assert!(matches!(p[p.len() - 1], Step::On(_, Op::MoeBatchedBlend(..))));
    let p = l.forward_prefill(
        &context(&c, None), INPUT, ROUTER, 64, KernelHandle(98), STREAM,
    ).unwrap();
    assert_eq!(count(&p, |o| matches!(o, Op::MoeFp8GroupedGemm(..))), 0);
    assert_eq!(count(&p, |o| matches!(o, Op::MoeGateUpSharedFp8(..))), 64);
}

#[test]
fn sigmoid_selection_falls_back_to_single_rows() {
    let c = ModelConfig::qwen3_next_80b_nvfp4();
    let mut l = layer();
    l.k.topk_sigmoid = KernelHandle(3);
    l.correction_bias_dev = Some(DevicePtr(55));
    let p = l.forward_prefill(
        &context(&c, None), INPUT, ROUTER, 5, KernelHandle(0), STREAM,
    ).unwrap();
    assert_eq!(count(&p, |o| matches!(o, Op::MoeTopkSigmoid(_, _, DevicePtr(55), ..))), 5);
    l.k.topk_sigmoid_batched = KernelHandle(44);
    let p = l.forward_prefill(
        &context(&c, None), INPUT, ROUTER, 5, KernelHandle(0), STREAM,
    ).unwrap();
    assert_eq!(count(&p, |o| matches!(o, Op::MoeTopkSigmoidBatched(KernelHandle(44), ..))), 1);
}

#[test]
fn selection_by_sigmoid_needs_its_kernel() {
    let c = ModelConfig::qwen3_next_80b_nvfp4();
    let cx = context(&c, None);
    let refused = Err(MoeError::SigmoidKernelMissing);
    let mut l = layer();
    l.correction_bias_dev = Some(DevicePtr(0x77));
    l.k.topk_sigmoid = KernelHandle(0);
    l.k.topk_sigmoid_batched = KernelHandle(0);
    assert_eq!(l.forward_batched(&cx, INPUT, ROUTER, 1, STREAM), refused);
    assert_eq!(l.forward_batched(&cx, INPUT, ROUTER, 0, STREAM).unwrap().len(), 2);
    assert_eq!(l.forward_k2(&cx, INPUT, ROUTER, STREAM), refused);
    assert_eq!(l.forward_prefill(&cx, INPUT, ROUTER, 65, KernelHandle(98), STREAM), refused);
    l.k.topk_sigmoid = KernelHandle(3);
    let p = l.forward_batched(&cx, INPUT, ROUTER, 2, STREAM).unwrap();
    assert_eq!(count(&p, |o| matches!(o, Op::MoeTopkSigmoid(KernelHandle(3), ..))), 2);
    let p = l.forward_prefill(&cx, INPUT, ROUTER, 65, KernelHandle(98), STREAM).unwrap();
    assert_eq!(count(&p, |o| matches!(o, Op::MoeTopkSigmoid(..))), 65);
    assert_eq!(l.forward_k2(&cx, INPUT, ROUTER, STREAM), refused);
    l.k.topk_sigmoid_batched = KernelHandle(4);
    assert!(l.forward_k2(&cx, INPUT, ROUTER, STREAM).is_ok());
}

#[test]
fn tables_are_filled_from_the_experts() {
    let mut l = layer();
    l.weights.experts = vec![expert(0x100), expert(0x200)];
    l.gate_ptrs = ptrs(0x1000);
    l.up_ptrs = ptrs(0x2000);
    l.down_ptrs = ptrs(0x3000);
    let t = build_expert_tables(&l.weights.experts);
    assert_eq!(t.up.packed, build_ptr_table(&l.weights.experts, Projection::Up).packed);
    assert_ne!(t.up.packed, t.down.packed);
    let p = l.fill_tables(STREAM);
    let mut bytes = t.gate.packed.clone();
    for part in [
        &t.gate.scale, &t.gate.scale2, &t.up.packed, &t.up.scale, &t.up.scale2, &t.down.packed,
        &t.down.scale, &t.down.scale2,
    ] {
        bytes.extend_from_slice(part);
    }
    assert_eq!(p.staging, bytes);
    assert_eq!(p.steps.len(), 10);
    assert_eq!(p.steps[0], Step::On(STREAM, Op::Upload(0, 16, l.gate_ptrs.packed_ptrs)));
    assert_eq!(p.steps[3], Step::On(STREAM, Op::Upload(40, 16, l.up_ptrs.packed_ptrs)));
    assert_eq!(p.steps[8], Step::On(STREAM, Op::Upload(112, 8, l.down_ptrs.scale2_vals)));
    assert_eq!(p.steps[9], Step::On(STREAM, Op::Synchronize));
}
