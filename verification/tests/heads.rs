use atlas_plan::config::ModelConfig;
use atlas_plan::context::ForwardContext;
use atlas_plan::gpu::{
    AnyWeight, Buffers, DenseWeight, DevicePtr, ExpertPtrTable, KernelHandle, QuantizedWeight,
};
use atlas_plan::mtp_head::{MtpExpert, MtpHead};
use atlas_plan::moe::MoeError;
use atlas_plan::nemotron::{NemotronKernels, NemotronMoeLayer, NemotronMoeWeights, SortedPrefillCtx};
use atlas_plan::plan::{Op, Step};

const STREAM: u64 = 3;
const INPUT: DevicePtr = DevicePtr(0x500);

fn dense(p: u64) -> DenseWeight {
    DenseWeight { weight: DevicePtr(p) }
}

fn buffers() -> Buffers {
    Buffers {
        hidden_states: DevicePtr(0x1_0000),
        residual: DevicePtr(0x2_0000),
        norm_output: DevicePtr(0x3_0000),
        qkv_output: DevicePtr(0x4_0000),
        attn_output: DevicePtr(0x5_0000),
        gate_logits: DevicePtr(0x6_0000),
        scratch: DevicePtr(0x7_0000),
        logits: DevicePtr(0x8_0000),
        expert_gate_out: DevicePtr(0x9_0000),
        expert_up_out: DevicePtr(0xa_0000),
        expert_down_out: DevicePtr(0xb_0000),
        moe_output: DevicePtr(0xc_0000),
        ssm_qkvz: DevicePtr(0xd_0000),
        ssm_deinterleaved: DevicePtr(0xe_0000),
        ssm_conv_out_f32: DevicePtr(0xf_0000),
        ssm_ba: DevicePtr(0x10_0000),
        ssm_gates: DevicePtr(0x11_0000),
        max_batch_tokens: 4096,
        scratch_bytes: 1 << 20,
        moe_output_bytes: 1 << 20,
    }
}

fn config() -> ModelConfig {
    let mut c = ModelConfig::qwen3_next_80b_nvfp4();
    c.num_experts = 4;
    c.num_experts_per_tok = 2;
    c.intermediate_size = 0;
    c
}

fn context(config: &ModelConfig) -> ForwardContext<'_> {
    ForwardContext {
        buffers: buffers(),
        config,
        attn_metadata: None,
        comm_world_size: None,
        graph_capture: false,
        profile: false,
        ssm_qkvz_size: 0,
        ssm_ba_size: 0,
        rms_norm_eps: 1e-6f32.to_bits(),
        routed_scaling_factor: 2.5f32.to_bits(),
        rope_theta: 1e4f32.to_bits(),
    }
}

fn expert(x: u64) -> MtpExpert {
    MtpExpert {
        gate: AnyWeight::Dense(dense(x)),
        up: AnyWeight::Dense(dense(x + 1)),
        down: AnyWeight::Dense(dense(x + 2)),
    }
}

fn head() -> MtpHead {
    MtpHead {
        moe_gate: dense(1),
        shared_expert_gate: dense(2),
        moe_experts: vec![expert(100), expert(200), expert(300), expert(400)],
        moe_shared: Some(expert(500)),
        dense_ffn: Some(expert(600)),
        dense_gemv: KernelHandle(1),
        moe_topk: KernelHandle(2),
        moe_silu_mul: KernelHandle(3),
        moe_weighted_sum_blend: KernelHandle(4),
        draft_token_id_dev: DevicePtr(9),
    }
}

#[test]
fn drafted_tokens_are_read_back() {
    assert_eq!(head().deferred_draft_token(), (DevicePtr(9), 4));
    assert_eq!(MtpHead::read_deferred_draft_token(&[0x10, 0x27, 0, 0]), 10_000);
}

#[test]
fn the_dense_part_of_the_drafting_head() {
    let mut c = config();
    let (p, out) = head().dense_ffn_forward_generic(&context(&c), INPUT, STREAM);
    assert_eq!(out, DevicePtr(0xc_0000));
    assert_eq!(p.len(), 4);
    assert!(
        matches!(p[0], Step::On(STREAM, Op::AnyGemv(INPUT, _, DevicePtr(0x9_0000), 512, 2048))),
    );
    c.intermediate_size = 5120;
    let (p, _) = head().dense_ffn_forward_generic(&context(&c), INPUT, STREAM);
    assert!(
        matches!(
            p[3], Step::On(_, Op::AnyGemv(DevicePtr(0x9_0000), _, DevicePtr(0xc_0000), 2048, 5120)),
        ),
    );
}

#[test]
fn experts_of_the_drafting_head() {
    let c = config();
    let h = head();
    let (p, at, bytes) = h.moe_select(&context(&c), INPUT, STREAM);
    assert_eq!((at, bytes), (DevicePtr(0x7_0000), 8));
    assert!(matches!(p[2], Step::On(STREAM, Op::Synchronize)));
    let (p, out) = h.moe_forward_generic(&context(&c), &[3, 0, 0, 0, 1, 0, 0, 0], INPUT, STREAM);
    assert_eq!(out, DevicePtr(0xc_0000));
    assert_eq!(p.len(), 2 * 2 + 2 + 2 + 5);
    assert!(
        matches!(
            p[0],
            Step::On(
                _, Op::AnyGemv(INPUT, AnyWeight::Dense(w), DevicePtr(0x9_0000), ..),
            ) if w == dense(400),
        ),
    );
    assert!(
        matches!(
            p[2],
            Step::On(
                _, Op::AnyGemv(INPUT, AnyWeight::Dense(w), DevicePtr(x), ..),
            ) if w == dense(200) && x == 0x9_0000 + 1024,
        ),
    );
    assert!(
        matches!(
            p[12],
            Step::On(
                _,
                Op::MoeWeightedSumBlend(KernelHandle(4), DevicePtr(0xc_0000), _, DevicePtr(w), ..),
            ) if w == 0x7_0000 + 8,
        ),
    );
}

fn ptrs(x: u64) -> ExpertPtrTable {
    ExpertPtrTable {
        packed_ptrs: DevicePtr(x), scale_ptrs: DevicePtr(x + 1), scale2_vals: DevicePtr(x + 2),
    }
}

fn nemotron(latent: usize) -> NemotronMoeLayer {
    let k = |x| KernelHandle(x);
    let some = if latent > 0 { Some(dense(70)) } else { None };
    NemotronMoeLayer {
        input_norm: dense(60),
        weights: NemotronMoeWeights {
            gate: dense(61),
            e_score_correction_bias: dense(62),
            shared_up: QuantizedWeight::null(),
            shared_down: QuantizedWeight::null(),
            fc1_latent_proj: some,
            fc2_latent_proj: some,
        },
        up_ptrs: ptrs(10),
        down_ptrs: ptrs(20),
        up_ptrs_t: None,
        down_ptrs_t: None,
        shared_down_t: None,
        moe_latent_size: latent,
        k: NemotronKernels {
            rms_norm_residual: k(1),
            dense_gemv: k(2),
            dense_gemm: k(3),
            topk_sigmoid: k(4),
            topk_sigmoid_batched: k(5),
            moe_expert_gemv: k(6),
            w4a16_gemv: k(7),
            w4a16_gemm: k(8),
            w4a16_gemm_t: k(9),
            relu2_down_shared: k(10),
            weighted_sum_scale: k(11),
            residual_add: k(12),
            moe_sort: k(13),
            moe_grouped_gemm: k(14),
            moe_grouped_gemm_n128: k(15),
            moe_relu2_elementwise: k(16),
            moe_unpermute_reduce: k(17),
        },
    }
}

fn sorted(latent: u32) -> SortedPrefillCtx {
    SortedPrefillCtx {
        n: 3,
        num_tokens: 3,
        h: 2048,
        inter: 512,
        shared_inter: 1024,
        num_experts: 4,
        top_k: 2,
        scale: 2.5f32.to_bits(),
        latent,
        gate_logits: DevicePtr(0x6_0000),
        indices_dev: DevicePtr(0x7_0000),
        weights_dev: DevicePtr(0x7_0100),
        normed: DevicePtr(0x3_0000),
        hidden: DevicePtr(0x1_0000),
        latent_base: if latent > 0 { Some(DevicePtr(0x88_0000)) } else { None },
        shared_up_out_base: DevicePtr(0xd_0000),
    }
}

fn count(plan: &[Step], f: fn(&Op) -> bool) -> usize {
    plan.iter().filter(|s| matches!(s, Step::On(_, op) if f(op))).count()
}

#[test]
fn squared_relu_experts_decode() {
    let c = config();
    let p = nemotron(0).decode_inner(
        &context(&c), DevicePtr(0x1_0000), DevicePtr(0x2_0000), STREAM,
    ).ok().unwrap();
    assert!(
        matches!(
            p[0], Step::On(STREAM, Op::RmsNormResidual(KernelHandle(1), DevicePtr(0x1_0000), ..)),
        ),
    );
    assert!(matches!(p[2], Step::On(_, Op::MoeTopkSigmoid(KernelHandle(4), _, DevicePtr(62), ..))));
    assert!(
        matches!(
            p.last(),
            Some(
                Step::On(
                    _,
                    Op::ResidualAdd(
                        KernelHandle(12), DevicePtr(0x1_0000), DevicePtr(0xc_0000), 2048,
                    ),
                ),
            ),
        ),
    );
    let q = nemotron(1024).decode_inner(
        &context(&c), DevicePtr(0x1_0000), DevicePtr(0x2_0000), STREAM,
    ).ok().unwrap();
    assert!(q.len() > p.len());
    assert_eq!(count(&q, |o| matches!(o, Op::Memset(DevicePtr(0x9_0000), 0, 2048))), 1);
}

#[test]
fn squared_relu_experts_on_sorted_rows() {
    let c = config();
    let p = nemotron(0).prefill_sorted_path(&context(&c), sorted(0), STREAM);
    assert_eq!(count(&p, |o| matches!(o, Op::MoeSortByExpert(KernelHandle(13), ..))), 1);
    assert_eq!(count(&p, |o| matches!(o, Op::MoeGroupedGemm(KernelHandle(14), ..))), 2);
    assert_eq!(count(&p, |o| matches!(o, Op::Relu2Elementwise(_, DevicePtr(0xa_0000), 3072))), 1);
    let mut l = nemotron(0);
    l.up_ptrs_t = Some(ptrs(30));
    l.down_ptrs_t = Some(ptrs(40));
    let p = l.prefill_sorted_path(&context(&c), sorted(0), STREAM);
    assert_eq!(count(&p, |o| matches!(o, Op::MoeGroupedGemm(KernelHandle(15), ..))), 2);
    let p = nemotron(1024).prefill_sorted_path(&context(&c), sorted(1024), STREAM);
    assert!(
        matches!(
            p.last(),
            Some(Step::On(_, Op::ResidualAdd(_, DevicePtr(0x1_0000), DevicePtr(0x5_0000), 6144))),
        ),
    );
}

#[test]
fn squared_relu_experts_row_by_row() {
    let c = config();
    let mut l = nemotron(0);
    let p = l.prefill_fallback_path(&context(&c), sorted(0), STREAM).ok().unwrap();
    assert_eq!(count(&p, |o| matches!(o, Op::MoeTopkSigmoid(..))), 0);
    assert_eq!(count(&p, |o| matches!(o, Op::ResidualAdd(..))), 3);
    l.k.topk_sigmoid_batched = KernelHandle(0);
    let p = l.prefill_fallback_path(&context(&c), sorted(0), STREAM).ok().unwrap();
    assert_eq!(count(&p, |o| matches!(o, Op::MoeTopkSigmoid(..))), 3);
    l.k.topk_sigmoid = KernelHandle(0);
    assert_eq!(
        l.prefill_fallback_path(&context(&c), sorted(0), STREAM),
        Err(MoeError::SigmoidKernelMissing),
    );
    assert_eq!(
        l.decode_inner(&context(&c), DevicePtr(0x1_0000), DevicePtr(0x2_0000), STREAM),
        Err(MoeError::SigmoidKernelMissing),
    );
    l.k.topk_sigmoid_batched = KernelHandle(5);
    assert!(l.prefill_fallback_path(&context(&c), sorted(0), STREAM).is_ok());
}
