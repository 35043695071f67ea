use atlas_plan::attention::types::KvCacheDtype;
use atlas_plan::config::{LayerType, ModelConfig};
use atlas_plan::gpu::{Buffers, DenseWeight, DevicePtr, KernelHandle};
use atlas_plan::kernels::{KernelEntry, KernelTable};
use atlas_plan::model::decode::DecodeMode;
use atlas_plan::model::init::{
    is_setting_on, plan_dummy_block, ModelInputs, ModelMemory, ModelParts, ModelSizes,
};
use atlas_plan::model::meta::PoolLayer;
use atlas_plan::model::metadata::{pack_meta, pack_meta_table, position_list};
use atlas_plan::model::prefill::{PrefillError, PrefillRoute, PrefixMatch, ProcRange, Reuse};
use atlas_plan::model::prefill_chunk::{ChunkEnd, ChunkMeta, ChunkRoute};
use atlas_plan::model::prefill_twophase::{cut_chunks, TwoPhaseRoute};
use atlas_plan::model::sequence::{ChunkedPrefillMeta, LayerState, SequenceState};
use atlas_plan::model::{LayerInfo, ModelKernels, TransformerModel, VisionOutput};
use atlas_plan::plan::{Op, Program, Step};

const SCRATCH: u64 = 0x7_0000;
const DEFAULT: u64 = 5;

fn buffers() -> Buffers {
    Buffers {
        hidden_states: DevicePtr(0x1_0000),
        residual: DevicePtr(0x2_0000),
        norm_output: DevicePtr(0x3_0000),
        qkv_output: DevicePtr(0x4_0000),
        attn_output: DevicePtr(0x5_0000),
        gate_logits: DevicePtr(0x6_0000),
        scratch: DevicePtr(SCRATCH),
        logits: DevicePtr(0x8_0000),
        expert_gate_out: DevicePtr(0x9_0000),
        expert_up_out: DevicePtr(0xa_0000),
        expert_down_out: DevicePtr(0xb_0000),
        moe_output: DevicePtr(0xc_0000),
        ssm_qkvz: DevicePtr(0xd_0000),
        ssm_deinterleaved: DevicePtr(0xe_0000),
        ssm_conv_out_f32: DevicePtr(0xf_0000),
        ssm_ba: DevicePtr(0x10_0000),
        ssm_gates: DevicePtr(0x11_0000),
        max_batch_tokens: 64,
        scratch_bytes: 100_000,
        moe_output_bytes: 777,
    }
}

fn config() -> ModelConfig {
    let mut c = ModelConfig::qwen3_next_80b_nvfp4();
    c.num_hidden_layers = 4;
    c.layer_types.truncate(4);
    c
}

fn inputs() -> ModelInputs {
    ModelInputs {
        fp32_residual: false,
        max_seq_len: 1000,
        use_speculative: false,
        self_speculative: false,
        has_mtp_weights: false,
        has_lm_head_nvfp4: false,
        num_drafts: 3,
        num_ssm_layers: 3,
        rollback_cap: 2,
        block_size: 16,
        kv_dtype: KvCacheDtype::Fp8,
        buffers: buffers(),
    }
}

fn table(c: &ModelConfig, fp32: bool) -> KernelTable {
    let mut t = KernelTable { entries: vec![] };
    let mut next = 1;
    while let Err(m) = ModelKernels::load(&t, c, fp32) {
        t.entries.push(KernelEntry {
            module: m.module.to_string(),
            function: m.function.to_string(),
            handle: KernelHandle(next),
        });
        next += 1;
    }
    t
}

fn kernels(c: &ModelConfig) -> ModelKernels {
    match ModelKernels::load(&table(c, false), c, false) {
        Ok(k) => k,
        Err(_) => panic!("kernels"),
    }
}

fn model_of(c: ModelConfig) -> TransformerModel {
    let i = inputs();
    let k = kernels(&c);
    let sizes = ModelSizes::compute(&c, &i, k, None, None);
    let layers = c
        .layer_types
        .iter()
        .map(|t| LayerInfo { kind: *t, is_ssm: *t == LayerType::LinearAttention })
        .collect();
    let parts = ModelParts {
        config: c,
        embed_tokens: DenseWeight { weight: DevicePtr(0x21) },
        final_norm: DenseWeight { weight: DevicePtr(0x22) },
        lm_head_weight: DenseWeight { weight: DevicePtr(0x23) },
        lm_head_nvfp4: None,
        layers,
        rms_norm_eps: 1e-6f32.to_bits(),
        has_comm: false,
        cache_blocks_per_seq: None,
        profile: false,
        profile_first: false,
        has_proposer: false,
        ssm_norm_dims: (32, 128, 128),
        vision: None,
        mtp_modules: 0,
    };
    let mem = ModelMemory {
        default_stream: DEFAULT,
        dummy_kv_block: 99,
        logits_fp32: DevicePtr(0x31),
        ssm_norm_ptrs: DevicePtr(0x32),
        gdn_qkv: DevicePtr(0x33),
        gdn_gate_beta: DevicePtr(0x34),
        gdn_output: DevicePtr(0x35),
        gdn_z: DevicePtr(0x36),
    };
    TransformerModel::new(parts, &i, k, sizes, mem)
}

fn model() -> TransformerModel {
    model_of(config())
}

fn sequence(tokens: &[u32], blocks: &[u32]) -> SequenceState {
    SequenceState {
        tokens: tokens.to_vec(),
        block_table: blocks.to_vec(),
        hss_window_start: 0,
        seq_len: tokens.len(),
        layer_states: vec![],
        slot_idx: 1,
        marconi_skip_to: 0,
        session_hash: 0,
        chunked_prefill_meta: None,
        cached_prefix_tokens: 0,
        prompt_len: 0,
        disk_block_ids: vec![],
        disk_last_offloaded_per_layer: vec![],
    }
}

fn prefix(matched: usize, snapshot: Option<u64>, covered: usize) -> PrefixMatch {
    PrefixMatch {
        matched_tokens: matched,
        matched_blocks: vec![40, 41],
        matched_disk_block_ids: vec![4, 5],
        ssm_snapshot: snapshot,
        ssm_snapshot_tokens: covered,
    }
}

#[test]
fn sizes_of_a_model() {
    let c = config();
    let s = ModelSizes::compute(&c, &inputs(), kernels(&c), None, None);
    assert!(!s.has_mtp);
    assert_eq!(s.num_intermediates, 0);
    assert_eq!(s.decode_ring_slots, 3);
    assert_eq!(s.max_blocks_per_seq, 63);
    assert_eq!(s.mtp_hidden_save, 2048 * 4);
    assert_eq!(s.dflash_hidden_save, None);
    assert_eq!(s.pinned_bytes, 100_000);
    assert_eq!(s.logits_fp32, None);
    assert_eq!(s.ssm_norm_ptrs, Some(24));
    assert_eq!(s.gdn_len, 64);
    let g = s.gdn.unwrap();
    assert_eq!(g.qkv, 64 * 8192 * 2);
    assert_eq!(g.gate_beta, 64 * 64 * 4);
    assert_eq!(g.output, 64 * 4096 * 2);
    assert_eq!(g.z, g.output);
}

#[test]
fn drafting_and_precision_change_sizes() {
    let mut c = config();
    c.dflash_capture_layers = vec![1, 2];
    c.ssm_per_channel_gates = true;
    let mut i = inputs();
    i.fp32_residual = true;
    i.buffers.scratch_bytes = 10;
    let k = match ModelKernels::load(&table(&c, true), &c, true) {
        Ok(mut k) => {
            k.dense_gemv_fp32out = KernelHandle(50);
            k
        }
        Err(_) => panic!("kernels"),
    };
    let s = ModelSizes::compute(&c, &i, k, Some("1"), Some("true"));
    assert!(s.has_mtp);
    assert_eq!(s.num_intermediates, 17);
    assert_eq!(s.dflash_hidden_save, Some(2 * 2048 * 2));
    assert_eq!(s.pinned_bytes, 65536);
    assert!(s.use_fp32_logits);
    assert_eq!(s.logits_fp32, Some(c.vocab_size * 4));
    assert!(s.suppress_graphs);
    assert_eq!(s.gdn.unwrap().gate_beta, 64 * 32 * 128 * 4);
    assert!(!ModelSizes::compute(&c, &i, k, Some("0"), None).use_fp32_logits);
    assert!(is_setting_on(Some("true")) && !is_setting_on(Some("TRUE")) && !is_setting_on(None));
}

#[test]
fn a_missing_model_kernel_is_named() {
    let c = config();
    let mut t = table(&c, false);
    t.entries.retain(|e| e.function != "argmax_bf16");
    match ModelKernels::load(&t, &c, false) {
        Err(m) => assert_eq!((m.module, m.function), ("argmax", "argmax_bf16")),
        Ok(_) => panic!("kernel"),
    }
}

#[test]
fn small_services() {
    let mut m = model();
    assert_eq!(m.vocab_size_dispatch(), m.config.vocab_size);
    let d = m.high_speed_swap_dims_dispatch().unwrap();
    assert_eq!((d.num_layers, d.max_blocks_per_layer, d.block_size), (4, 63, 16));
    assert_eq!(m.bind_gpu_to_thread_dispatch(), vec![Step::On(DEFAULT, Op::BindThread)]);
    assert_eq!(m.logits_buffer_ptr_dispatch(), DevicePtr(0x8_0000));
    assert_eq!(m.hidden_after_norm_dispatch(), DevicePtr(0x3_0000));
    assert_eq!(m.decode_logits_ptr(), DevicePtr(0x8_0000));
    assert!(!m.logits_ptr_is_fp32_dispatch(DevicePtr(0)));
    let (p, at) = m.argmax_on_device_dispatch(DevicePtr(0x8_0000));
    assert_eq!(at, DevicePtr(SCRATCH));
    assert_eq!(
        p[0],
        Step::On(
            DEFAULT,
            Op::Argmax(
                m.k.argmax, DevicePtr(0x8_0000), DevicePtr(SCRATCH), m.config.vocab_size as u32,
            ),
        ),
    );
    m.use_fp32_logits = true;
    m.logits_fp32_buf = DevicePtr(0x31);
    assert_eq!(m.decode_logits_ptr(), DevicePtr(0x31));
    assert!(m.logits_ptr_is_fp32_dispatch(DevicePtr(0x31)));
    let (p, _) = m.argmax_on_device_dispatch(DevicePtr(0x31));
    assert!(matches!(p[0], Step::On(_, Op::Argmax(k, ..)) if k == m.k.argmax_logits));
    assert_eq!(TransformerModel::argmax_token(&[1, 2, 0, 0]), 513);
    let (p, _) = m.argmax_batch_dispatch(DevicePtr(0x8_0000), 2);
    assert_eq!(p.len(), 2);
    assert!(matches!(p[1], Step::On(_, Op::Argmax(_, DevicePtr(l), DevicePtr(o), _))
        if l == 0x8_0000 + m.config.vocab_size as u64 * 2 && o == SCRATCH + 4));
    assert_eq!(TransformerModel::argmax_tokens(&[1, 0, 0, 0, 2, 0, 0, 0], 2), vec![1, 2]);
    assert_eq!(m.registered_buffer(Some(2)), Some((DevicePtr(0xc_0000), 777)));
    assert_eq!(m.registered_buffer(Some(4)), None);
    assert_eq!(m.registered_buffer(None), None);
}

#[test]
fn states_are_normalized_by_address() {
    let mut m = model();
    m.k.ssm_state_norm = KernelHandle(70);
    let p = m.normalize_ssm_states_dispatch(&[DevicePtr(1), DevicePtr(2), DevicePtr(3)], 9);
    assert_eq!(p.steps[0], Step::On(9, Op::Upload(0, 24, DevicePtr(0x32))));
    assert_eq!(
        p.steps[1],
        Step::On(9, Op::SsmStateNorm(KernelHandle(70), DevicePtr(0x32), 32, 3, 128, 128)),
    );
    assert_eq!(&p.staging[8..16], &2u64.to_le_bytes()[..]);
    m.k.ssm_state_norm = KernelHandle(0);
    assert!(
        m.normalize_ssm_states_dispatch(
            &[DevicePtr(1), DevicePtr(2), DevicePtr(3)], 9,
        ).steps.is_empty(),
    );
}

fn pool() -> Vec<PoolLayer> {
    (0..3u64)
        .map(|i| PoolLayer {
            h_state: DevicePtr(100 + i),
            conv_state: DevicePtr(200 + i),
            h_checkpoint: DevicePtr(300 + i),
            conv_checkpoint: DevicePtr(400 + i),
            h_intermediates: vec![DevicePtr(500 + i)],
            conv_intermediates: vec![DevicePtr(600 + i)],
        })
        .collect()
}

#[test]
fn a_fresh_sequence() {
    let mut m = model();
    let (steps, s) = m.alloc_sequence_dispatch(6, &pool());
    assert_eq!(
        steps,
        vec![
            Step::On(DEFAULT, Op::ZeroSlot(6)),
            Step::On(DEFAULT, Op::Synchronize),
            Step::On(DEFAULT, Op::ResetSlot(6)),
            Step::On(DEFAULT, Op::Synchronize),
        ]
    );
    assert_eq!(s.slot_idx, 6);
    assert_eq!(s.seq_len, 0);
    assert_eq!(s.layer_states.len(), 4);
    assert_eq!(s.disk_last_offloaded_per_layer, vec![0]);
    assert!(matches!(s.layer_states[3], LayerState::Cached));
    match &s.layer_states[2] {
        LayerState::Recurrent(x) => {
            assert_eq!(x.h_state, DevicePtr(102));
            assert_eq!(x.conv_state, DevicePtr(202));
            assert_eq!(x.h_state_checkpoint, None);
            assert!(x.h_state_intermediates.is_empty());
        }
        _ => panic!("state"),
    }
    m.has_proposer = true;
    let (_, s) = m.alloc_sequence_dispatch(6, &pool());
    match &s.layer_states[1] {
        LayerState::Recurrent(x) => {
            assert_eq!(x.h_state_checkpoint, Some(DevicePtr(301)));
            assert_eq!(x.conv_state_intermediates, vec![DevicePtr(601)]);
        }
        _ => panic!("state"),
    }
}

#[test]
fn slots_of_positions() {
    let mut s = sequence(&[], &[7, 3]);
    assert_eq!(s.slot_for(99, 16, 0), 7 * 16);
    assert_eq!(s.slot_for(99, 16, 17), 3 * 16 + 1);
    assert_eq!(s.slot_for(99, 16, 33), 99 * 16 + 1);
    assert_eq!(s.physical_block_for(2), None);
    s.hss_window_start = 4;
    assert_eq!(s.physical_block_for(4), Some(7));
    assert_eq!(s.physical_block_for(0), None);
    let mut seen: Vec<u64> = (64..96).map(|p| s.slot_for(99, 16, p)).collect();
    seen.sort();
    seen.dedup();
    assert_eq!(seen.len(), 32);
}

#[test]
fn prompts_are_recorded_piece_by_piece() {
    let prompt = [1, 2, 3, 4, 5];
    let mut s = sequence(&[], &[]);
    s.advance_prompt(&prompt, 0, 2);
    s.advance_prompt(&prompt, 2, 5);
    assert_eq!(s.tokens, prompt.to_vec());
    assert_eq!(s.seq_len, 5);
    s.advance(9);
    assert_eq!(s.tokens.last(), Some(&9));
    assert_eq!(s.seq_len, 6);
}

#[test]
fn packed_metadata() {
    assert_eq!(position_list(3, 2), vec![3, 4]);
    let b = pack_meta(&[3], &[17]);
    assert_eq!(b.len(), 16);
    assert_eq!(&b[..4], &3u32.to_le_bytes()[..]);
    assert_eq!(&b[4..8], &[0u8; 4][..]);
    assert_eq!(&b[8..], &17u64.to_le_bytes()[..]);
    let b = pack_meta_table(&[3], &[17], &[8, 9], 4);
    assert_eq!(b.len(), 28);
    assert_eq!(&b[20..24], &9u32.to_le_bytes()[..]);
    assert_eq!(&b[24..], &4u32.to_le_bytes()[..]);
}

#[test]
fn batches_are_padded_with_the_dummy_block() {
    let m = model();
    let a = sequence(&[1; 17], &[7, 3]);
    let (p, meta) = m.upload_batch_metadata_fixed(&[&a], 2, 4);
    let base = SCRATCH + 32768;
    assert_eq!(meta.positions, DevicePtr(base));
    assert_eq!(meta.slot, DevicePtr(base + 256));
    assert_eq!(meta.seq_len, DevicePtr(base + 512));
    assert_eq!(meta.block_table, DevicePtr(base + 768));
    assert_eq!((meta.num_seqs, meta.max_blocks_per_seq), (2, 63));
    assert_eq!(p.steps.len(), 4);
    assert_eq!(&p.staging[..8], &[17, 0, 0, 0, 0, 0, 0, 0]);
    assert_eq!(&p.staging[8..16], &(3u64 * 16 + 1).to_le_bytes()[..]);
    assert_eq!(&p.staging[16..24], &(99u64 * 16).to_le_bytes()[..]);
    assert_eq!(&p.staging[24..32], &[18, 0, 0, 0, 1, 0, 0, 0]);
    assert_eq!(p.staging.len(), 32 + 2 * 63 * 4);
    assert_eq!(&p.staging[32 + 8..32 + 12], &99u32.to_le_bytes()[..]);
    let (_, meta) = m.upload_batch_metadata_at(&[], 1, DevicePtr(10), 4);
    assert_eq!(meta.slot, DevicePtr(266));
}

#[test]
fn decoding_starts_with_the_embedding() {
    let mut m = model();
    let s = sequence(&[1; 16], &[7]);
    let (p, block) = m.decode_begin(42, &s, false);
    assert_eq!(p.steps, vec![Step::On(DEFAULT, Op::Embed(42, DevicePtr(0x1_0000)))]);
    assert_eq!(block, 1);
    m.config.kv_lora_rank = 512;
    let (p, _) = m.decode_begin(42, &s, false);
    assert_eq!(p.steps[0], Step::On(DEFAULT, Op::ZeroAll));
    assert_eq!(m.decode_begin(42, &s, true).0.steps.len(), 1);
}

#[test]
fn graphs_are_captured_once_and_replayed() {
    let mut m = model();
    let s = sequence(&[1; 16], &[7, 8]);
    let plan = m.decode_dispatch(&s, false);
    assert!(matches!(plan.mode, DecodeMode::Capture));
    assert_eq!(plan.metadata.max_blocks_per_seq, 2);
    assert_eq!(
        plan.program.steps.iter().filter(|x| matches!(x, Step::On(_, Op::LayerDecode(..)))).count(),
        4,
    );
    assert!(matches!(plan.program.steps.last(), Some(Step::On(_, Op::EndCapture))));
    assert!(m.decode_captured(1, 0).steps.is_empty());
    assert!(matches!(m.decode_dispatch(&s, false).mode, DecodeMode::Capture));
    let p = m.decode_captured(1, 77);
    assert_eq!(p.steps, vec![Step::On(DEFAULT, Op::LaunchGraph(77))]);
    let plan = m.decode_dispatch(&s, false);
    assert!(matches!(plan.mode, DecodeMode::Replay(77)));
    assert_eq!(
        plan.program.steps.iter().filter(|x| matches!(x, Step::On(_, Op::LayerDecode(..)))).count(),
        0,
    );
    assert!(matches!(m.decode_dispatch(&s, true).mode, DecodeMode::Eager));
    m.has_comm = true;
    assert!(matches!(m.decode_dispatch(&s, false).mode, DecodeMode::Eager));
    m.profile = true;
    assert!(matches!(m.decode_dispatch(&s, false).mode, DecodeMode::Profiled(_)));
}

#[test]
fn calibration_suppresses_graphs_until_it_is_over() {
    let mut m = model();
    m.suppress_graphs = true;
    m.config.fp8_kv_calibration_tokens = 4;
    let early = sequence(&[1; 4], &[7]);
    assert!(matches!(m.decode_dispatch(&early, false).mode, DecodeMode::Eager));
    assert!(m.suppress_graphs);
    let late = sequence(&[1; 400], &[7; 26]);
    assert!(matches!(m.decode_dispatch(&late, false).mode, DecodeMode::Capture));
    assert!(!m.suppress_graphs);
}

#[test]
fn drafting_leaves_recurrent_layers_out() {
    let m = model();
    let (p, _) = m.decode_draft(&sequence(&[1; 16], &[7, 8]));
    let layers: Vec<usize> = p
        .steps
        .iter()
        .filter_map(|x| match x {
            Step::On(_, Op::LayerDecode(i, ..)) => Some(*i),
            _ => None,
        })
        .collect();
    assert_eq!(layers, vec![3]);
}

#[test]
fn drafting_starts_with_the_drafted_token() {
    let mut m = model();
    m.config.kv_lora_rank = 512;
    let s = sequence(&[1; 16], &[7, 8]);
    let (open, block) = m.draft_begin(42, &s);
    assert_eq!(open.steps, vec![Step::On(DEFAULT, Op::Embed(42, DevicePtr(0x1_0000)))]);
    assert_eq!(block, 1);
    let (rest, _) = m.decode_draft(&s);
    assert!(!rest.steps.iter().any(|x| matches!(x, Step::On(_, Op::Embed(..) | Op::ZeroAll))));
}

#[test]
fn the_dummy_block_is_cleared_and_waited_for() {
    assert_eq!(
        plan_dummy_block(99, DEFAULT),
        vec![Step::On(DEFAULT, Op::ZeroKvBlock(99)), Step::On(DEFAULT, Op::Synchronize)],
    );
}

#[test]
fn layers_are_counted_by_kind() {
    let mut c = config();
    assert_eq!((c.num_ssm_layers(), c.num_attention_layers()), (3, 1));
    assert_eq!(model().num_ssm_layers, c.num_ssm_layers());
    c.layer_types.push(LayerType::Moe);
    assert_eq!((c.num_ssm_layers(), c.num_attention_layers()), (3, 1));
    c.layer_types.clear();
    c.num_hidden_layers = 13;
    c.full_attention_interval = 6;
    assert_eq!((c.num_ssm_layers(), c.num_attention_layers()), (11, 2));
    c.full_attention_interval = 1;
    assert_eq!((c.num_ssm_layers(), c.num_attention_layers()), (0, 13));
}

#[test]
fn routes_of_a_prompt() {
    let mut m = model();
    assert_eq!(m.prefill_dispatch(1), Ok(PrefillRoute::Decode));
    assert_eq!(m.prefill_dispatch(64), Ok(PrefillRoute::SinglePass));
    assert_eq!(m.prefill_dispatch(65), Err(PrefillError::ExceedsArena(65, 64)));
    m.config.ssm_per_channel_gates = true;
    assert_eq!(m.prefill_dispatch(65), Ok(PrefillRoute::TwoPhase(65)));
}

#[test]
fn cached_prefixes_are_adopted() {
    let mut m = model();
    let mut s = sequence(&[], &[]);
    assert_eq!(m.prefill_adopt(&mut s, &prefix(32, None, 0), 40), Ok(2));
    assert_eq!(s.block_table, vec![40, 41]);
    assert_eq!((s.cached_prefix_tokens, s.prompt_len), (32, 40));
    m.cache_blocks_per_seq = Some(2);
    assert_eq!(
        m.prefill_adopt(&mut s, &prefix(0, None, 0), 40),
        Err(PrefillError::ExceedsSwapWindow(3, 2))
    );
}

#[test]
fn prompts_with_images_are_not_looked_up() {
    let used = prefix(32, Some(5), 30).usable(true);
    assert_eq!((used.matched_tokens, used.ssm_snapshot, used.ssm_snapshot_tokens), (0, None, 0));
    assert!(used.matched_blocks.is_empty() && used.matched_disk_block_ids.is_empty());
    let u = TransformerModel::prefill_reuse(&used, 40, true, true);
    assert_eq!(TransformerModel::prefill_range(40, u), ProcRange { start: 0, count: 40 });
    assert_eq!(prefix(32, Some(5), 30).usable(false).matched_tokens, 32);
}

#[test]
fn what_is_reused_of_a_prefix() {
    let reuse = TransformerModel::prefill_reuse;
    assert_eq!(
        reuse(&prefix(32, Some(5), 30), 40, true, true),
        Reuse { restore: Some(5), kv_write_start: 30, skip: true },
    );
    assert_eq!(
        reuse(&prefix(40, Some(5), 30), 40, true, true),
        Reuse { restore: Some(5), kv_write_start: 40, skip: true },
    );
    assert_eq!(
        reuse(&prefix(32, Some(5), 30), 40, false, true),
        Reuse { restore: None, kv_write_start: 32, skip: false },
    );
    assert_eq!(
        reuse(&prefix(32, None, 0), 40, true, true),
        Reuse { restore: None, kv_write_start: 0, skip: false },
    );
    assert_eq!(
        reuse(&prefix(32, None, 0), 40, true, false),
        Reuse { restore: None, kv_write_start: 32, skip: true },
    );
    assert_eq!(
        reuse(&prefix(40, None, 0), 40, true, false),
        Reuse { restore: None, kv_write_start: 40, skip: false },
    );
    let range = TransformerModel::prefill_range;
    let u = |start, skip| Reuse { restore: None, kv_write_start: start, skip };
    assert_eq!(range(40, u(30, true)), ProcRange { start: 30, count: 10 });
    assert_eq!(range(40, u(40, true)), ProcRange { start: 39, count: 1 });
    assert_eq!(range(40, u(32, false)), ProcRange { start: 0, count: 40 });
}

#[test]
fn a_prompt_in_one_pass() {
    let m = model();
    assert_eq!(m.prefill_begin().steps, vec![Step::On(DEFAULT, Op::ZeroAll)]);
    let s = sequence(&[], &[7, 8]);
    let u = Reuse { restore: None, kv_write_start: 3, skip: false };
    let (p, meta) = m.prefill_forward(&[1, 2, 3, 4], &s, u);
    let base = SCRATCH + 4 * 10 * 4 * 2;
    assert_eq!(meta.positions, DevicePtr(base));
    assert_eq!(meta.slot, DevicePtr(base + 16));
    assert_eq!(meta.block_table, DevicePtr(0));
    assert_eq!(p.steps[0], Step::On(DEFAULT, Op::Upload(0, 16, DevicePtr(SCRATCH))));
    assert!(
        p.steps.contains(
            &Step::On(
                DEFAULT, Op::LayerPrefill(3, DevicePtr(0x1_0000), DevicePtr(0x2_0000), 4, 0, 3),
            ),
        ),
    );
    let u = Reuse { restore: None, kv_write_start: 3, skip: true };
    let (p, meta) = m.prefill_forward(&[1, 2, 3, 4], &s, u);
    assert!(meta.block_table != DevicePtr(0));
    assert!(
        p.steps.contains(
            &Step::On(
                DEFAULT, Op::LayerPrefill(0, DevicePtr(0x1_0000), DevicePtr(0x2_0000), 1, 3, 0),
            ),
        ),
    );
}

#[test]
fn chunks_of_a_prompt() {
    let mut m = model();
    m.config.ep_world_size = 2;
    assert_eq!(m.stream_for(8), 8);
    match m.prefill_chunk_dispatch(100, 0, 50, 8) {
        Ok(ChunkRoute::Chunk(c)) => {
            assert_eq!(c.stream, 8);
            assert_eq!(c.last_block, 3);
            assert_eq!(c.program.steps, vec![Step::On(8, Op::ZeroAll)]);
        }
        _ => panic!("route"),
    }
    match m.prefill_chunk_dispatch(100, 50, 50, 8) {
        Ok(ChunkRoute::Chunk(c)) => assert!(c.program.steps.is_empty()),
        _ => panic!("route"),
    }
    assert_eq!(
        m.prefill_chunk_dispatch(100, 0, 65, 8).err(), Some(PrefillError::ExceedsArena(65, 64)),
    );
    m.has_comm = true;
    match m.prefill_chunk_dispatch(100, 50, 50, 8) {
        Ok(ChunkRoute::Chunk(c)) => assert_eq!(
            c.program.steps, vec![Step::On(DEFAULT, Op::ZeroAll)],
        ),
        _ => panic!("route"),
    }
    m.config.ssm_per_channel_gates = true;
    assert!(matches!(m.prefill_chunk_dispatch(10, 0, 10, 8), Ok(ChunkRoute::TwoPhase(10))));
    assert!(matches!(m.prefill_chunk_dispatch(0, 0, 0, 8), Ok(ChunkRoute::TwoPhase(0))));
    let mut s = sequence(&[], &[]);
    assert_eq!(
        TransformerModel::prefill_chunk_finish(&mut s, &[1, 2, 3], 0, 2, false),
        ChunkEnd::SaveCheckpoint,
    );
    assert_eq!(
        TransformerModel::prefill_chunk_finish(&mut s, &[1, 2, 3], 2, 1, true), ChunkEnd::Finalize,
    );
    assert_eq!(s.tokens, vec![1, 2, 3]);
}

#[test]
fn layers_of_a_chunk() {
    let mut m = model();
    m.profile_first_pending = true;
    m.profile = true;
    let mut s = sequence(&[], &[7]);
    s.chunked_prefill_meta = Some(
        ChunkedPrefillMeta {
            block_table: DevicePtr(61), seq_len: DevicePtr(62), uploaded_blocks: 0,
        },
    );
    let meta = ChunkMeta {
        base: DevicePtr(1000),
        slot_offset: 24,
        pos_stream_bytes: 8,
        use_mrope: true,
        needs_paged: true,
    };
    let (p, a) = m.prefill_b_forward_layers(&s, meta, 1, 5, 0, false, 3);
    assert_eq!((a.positions_h, a.positions_w), (DevicePtr(1008), DevicePtr(1016)));
    assert_eq!((a.block_table, a.seq_len), (DevicePtr(61), DevicePtr(62)));
    assert_eq!(
        p.steps.iter().filter(|x| matches!(x, Step::On(3, Op::LayerDecode(_, _, _, 5)))).count(), 4,
    );
    m.profile = false;
    let (p, _) = m.prefill_b_forward_layers(&s, meta, 2, 5, 4, false, 3);
    assert_eq!(
        p.steps.iter().filter(
            |x| matches!(x, Step::On(3, Op::LayerPrefill(_, _, _, 2, 5, 4))),
        ).count(),
        4,
    );
    assert!(!m.profile_first_pending);
    assert_eq!(p.steps[0], Step::On(3, Op::Synchronize));
    let (p, _) = m.prefill_b_forward_layers(&s, meta, 2, 5, 4, false, 3);
    assert_eq!(p.steps[0], Step::On(3, Op::Synchronize));
    assert_eq!(p.steps.iter().filter(|x| matches!(x, Step::On(_, Op::Synchronize))).count(), 1);
}

#[test]
fn cutting_chunks() {
    let c = cut_chunks(10, 4);
    assert_eq!(
        c.iter().map(|x| (x.start, x.len, x.is_last)).collect::<Vec<_>>(),
        vec![(0, 4, false), (4, 4, false), (8, 2, true)],
    );
    assert!(cut_chunks(0, 4).is_empty());
    let mut m = model();
    assert!(matches!(m.prefill_twophase_dispatch(0, 4, 8), TwoPhaseRoute::Nothing));
    assert!(matches!(m.prefill_twophase_dispatch(64, 4, 8), TwoPhaseRoute::TwoPhase(8)));
    match m.prefill_twophase_dispatch(65, 30, 8) {
        TwoPhaseRoute::Chunks(c) => assert_eq!(c.len(), 3),
        _ => panic!("route"),
    }
    m.gdn.max_len = 10;
    match m.prefill_twophase_dispatch(11, 4, 8) {
        TwoPhaseRoute::Chunks(c) => assert_eq!((c.len(), c[0].len, c[0].is_last), (1, 11, true)),
        _ => panic!("route"),
    }
}

#[test]
fn two_phases() {
    let m = model();
    let mut s = sequence(&[], &[]);
    let (u, block) = m.twophase_adopt(&mut s, &prefix(32, Some(3), 32), 40, true);
    assert_eq!(u, Reuse { restore: Some(3), kv_write_start: 32, skip: true });
    assert_eq!(block, 2);
    assert_eq!(s.marconi_skip_to, 32);
    assert_eq!(TransformerModel::twophase_range(40, u), ProcRange { start: 32, count: 8 });
    let mut s = sequence(&[], &[7, 8, 9]);
    let tokens: Vec<u32> = (0..40).collect();
    let plain = Reuse { restore: None, kv_write_start: 0, skip: false };
    let plan = m.twophase_forward(&tokens, &mut s, plain, 16, 8);
    assert_eq!(plan.gdn.total_len, 40);
    assert_eq!(plan.gdn.qkv, DevicePtr(0x33));
    let of = |f: fn(&Op) -> bool| plan.program.steps.iter().filter(
        |x| matches!(x, Step::On(_, op) if f(op)),
    ).count();
    assert_eq!(of(|o| matches!(o, Op::LayerPhase1(..))), 9);
    assert_eq!(of(|o| matches!(o, Op::LayerPhase3(..))), 9);
    assert_eq!(of(|o| matches!(o, Op::LayerRecurrence(..))), 3);
}

fn uploads(p: &Program) -> usize {
    let mut n = 0;
    for x in &p.steps {
        if let Step::On(_, Op::Upload(first, count, _)) = x {
            assert!(first + count <= p.staging.len());
            n += 1;
        }
    }
    n
}

#[test]
fn programs_upload_what_they_staged() {
    let mut m = model();
    let s = sequence(&[1; 17], &[7, 3]);
    assert!(uploads(&m.decode_dispatch(&s, true).program) > 0);
    assert!(uploads(&m.decode_draft(&s).0) > 0);
    assert_eq!(uploads(&m.upload_batch_metadata_fixed(&[&s], 2, 4).0), 4);
    let plain = Reuse { restore: None, kv_write_start: 0, skip: false };
    assert!(uploads(&m.prefill_forward(&[1, 2, 3], &s, plain).0) > 1);
    let tokens: Vec<u32> = (0..40).collect();
    let mut s = sequence(&[], &[7, 8, 9]);
    assert_eq!(uploads(&m.twophase_begin(&tokens, 8)), 1);
    assert_eq!(uploads(&m.twophase_forward(&tokens, &mut s, plain, 16, 8).program), 1);
}

#[test]
fn image_rows_replace_placeholder_tokens() {
    let mut c = config();
    c.vision = None;
    let mut m = model_of(c);
    m.vision = Some(
        VisionOutput {
            buf_out: DevicePtr(0x90_0000), out_hidden_size: 2048, spatial_merge_size: 2,
            fallback_pad_token: 55,
        },
    );
    m.prepare_vision_embed_dispatch(&[(8, 6)], &[12]);
    assert_eq!(m.vision_embed_patches, 12);
    assert_eq!(m.vision_image_grids, vec![(4, 3)]);
    let p = m.twophase_begin(&[1, 55, 2, 55], 8);
    let copies: Vec<(u64, u64, usize)> = p
        .steps
        .iter()
        .filter_map(|x| match x {
            Step::On(_, Op::CopyD2d(a, b, n)) => Some((a.0, b.0, *n)),
            _ => None,
        })
        .collect();
    assert_eq!(
        copies,
        vec![(0x90_0000, 0x1_0000 + 4096, 4096), (0x90_0000 + 4096, 0x1_0000 + 3 * 4096, 4096)],
    );
}
