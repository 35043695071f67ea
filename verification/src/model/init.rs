//! Setting a model up: which kernels it uses and how large its buffers are.

use crate::attention::types::KvCacheDtype;
use crate::config::layers::layers_of;
use crate::config::{LayerType, ModelConfig};
use crate::gpu::{
    f32_positive, is_f32_positive, Buffers, DenseWeight, DevicePtr, KernelHandle, QuantizedWeight,
};
use crate::kernels::{KernelTable, Lookup, MissingKernel};
use crate::model::{GdnBuffers, LayerInfo, ModelKernels, TransformerModel, VisionOutput};
use crate::num::{imax, imin, lemma_span_mono, span};
use crate::plan::{enqueue_synced, on_synced, Op, Step};
use crate::text::same;
use std::collections::HashMap;
use vstd::prelude::*;

verus! {

/// Draft positions of a block drafter, with the position that is verified.
pub const BLOCK_DRAFT_POSITIONS: usize = 17;

/// The least number of host bytes for staging.
pub const MIN_PINNED_BYTES: usize = 65536;

/// What the sizes of a model depend on besides its configuration.
pub struct ModelInputs {
    pub fp32_residual: bool,
    pub max_seq_len: usize,
    pub use_speculative: bool,
    pub self_speculative: bool,
    pub has_mtp_weights: bool,
    pub has_lm_head_nvfp4: bool,
    pub num_drafts: usize,
    pub num_ssm_layers: usize,
    /// Rollbacks that a sequence may ask for.
    pub rollback_cap: u32,
    pub block_size: usize,
    pub kv_dtype: KvCacheDtype,
    pub buffers: Buffers,
}

/// Sizes of the buffers between the halves of linear-attention layers.
#[derive(Clone, Copy, PartialEq, Eq, Structural, Debug)]
pub struct GdnSizes {
    pub qkv: usize,
    pub gate_beta: usize,
    pub output: usize,
    pub z: usize,
}

/// Sizes and decisions that are fixed before anything is allocated.
#[derive(Clone, Copy, PartialEq, Eq, Structural, Debug)]
pub struct ModelSizes {
    /// Whether recurrent states have checkpoints.
    pub has_mtp: bool,
    /// Recurrent states kept per verified token.
    pub num_intermediates: usize,
    /// Snapshots kept per sequence to roll decoding back.
    pub decode_ring_slots: usize,
    pub max_blocks_per_seq: u32,
    pub mtp_hidden_save: usize,
    pub dflash_hidden_save: Option<usize>,
    pub ep_cmd_buf: usize,
    pub pinned_bytes: usize,
    pub use_fp32_logits: bool,
    pub logits_fp32: Option<usize>,
    pub ssm_norm_ptrs: Option<usize>,
    pub gdn_len: usize,
    pub gdn: Option<GdnSizes>,
    pub suppress_graphs: bool,
}

/// Whether a setting is `1` or `true`.
pub open spec fn setting_on(v: Option<&str>) -> bool {
    v is Some && (v->0@ == "1"@ || v->0@ == "true"@)
}

pub fn is_setting_on(v: Option<&str>) -> (r: bool)
    ensures
        r == setting_on(v),
{
    match v {
        Some(s) => same(s, "1") || same(s, "true"),
        None => false,
    }
}

impl ModelKernels {
    /// The kernels of a model. Those for single precision, for capped logits
    /// and for scaled embeddings are only looked up where they are used.
    pub open spec fn of(t: &KernelTable, c: &ModelConfig, fp32: bool) -> ModelKernels {
        let none = KernelHandle(0);
        let caps = f32_positive(c.final_logit_softcapping);
        ModelKernels {
            rms_norm: t.pick(fp32, ("norm"@, "rms_norm_f32"@), ("norm"@, "rms_norm"@)),
            bf16_to_f32: if fp32 {
                t.handle("residual_add"@, "bf16_to_f32"@)
            } else {
                none
            },
            dense_gemv: t.handle("gemv"@, "dense_gemv_bf16"@),
            dense_gemv_fp32out: if fp32 {
                t.handle("gemv"@, "dense_gemv_bf16_fp32out"@)
            } else {
                none
            },
            w4a16_gemv: t.handle("w4a16_gemv"@, "w4a16_gemv"@),
            w4a16_gemv_logits: t.handle("w4a16_gemv"@, "w4a16_gemv_logits"@),
            w4a16_gemm: t.handle("w4a16"@, "w4a16_gemm"@),
            w4a16_gemv_batch2: t.handle("w4a16_gemv"@, "w4a16_gemv_batch2"@),
            dense_gemm: t.handle("gemm"@, "dense_gemm_bf16"@),
            argmax: t.handle("argmax"@, "argmax_bf16"@),
            argmax_logits: t.handle("argmax"@, "argmax_fp32"@),
            batched_embed: t.pick(
                fp32,
                ("embed_from_argmax"@, "batched_embed_f32"@),
                ("embed_from_argmax"@, "batched_embed"@),
            ),
            fill_slots: t.handle("metadata_fill"@, "fill_slots_from_block_table"@),
            ssm_state_norm: t.handle("ssm_state_norm"@, "ssm_state_clamp_norm_fused"@),
            logit_softcap: if caps {
                t.handle("logit_softcap"@, "logit_softcap_bf16"@)
            } else {
                none
            },
            logit_softcap_fp32: if caps && fp32 {
                t.handle("logit_softcap"@, "logit_softcap_fp32"@)
            } else {
                none
            },
            embed_scale: if f32_positive(c.embed_scale) {
                t.handle("embed_scale"@, "bf16_scale_inplace"@)
            } else {
                none
            },
        }
    }

    /// The first required kernel that is missing.
    pub open spec fn missing(t: &KernelTable, fp32: bool) -> Option<(Seq<char>, Seq<char>)> {
        let e = None;
        let e = t.need_if(e, fp32, ("norm"@, "rms_norm_f32"@), ("norm"@, "rms_norm"@));
        let e = t.need(e, "gemv"@, "dense_gemv_bf16"@);
        let e = t.need(e, "w4a16_gemv"@, "w4a16_gemv"@);
        let e = t.need(e, "w4a16_gemv"@, "w4a16_gemv_logits"@);
        let e = t.need(e, "w4a16"@, "w4a16_gemm"@);
        let e = t.need(e, "w4a16_gemv"@, "w4a16_gemv_batch2"@);
        let e = t.need(e, "gemm"@, "dense_gemm_bf16"@);
        let e = t.need(e, "argmax"@, "argmax_bf16"@);
        let e = t.need(e, "argmax"@, "argmax_fp32"@);
        let e = t.need_if(
            e,
            fp32,
            ("embed_from_argmax"@, "batched_embed_f32"@),
            ("embed_from_argmax"@, "batched_embed"@),
        );
        t.need(e, "metadata_fill"@, "fill_slots_from_block_table"@)
    }

    pub fn load(t: &KernelTable, c: &ModelConfig, fp32: bool) -> (r: Result<
        ModelKernels,
        MissingKernel,
    >)
        ensures
            match r {
                Ok(k) => Self::missing(t, fp32) is None && k == Self::of(t, c, fp32),
                Err(e) => Self::missing(t, fp32) == Some(e@),
            },
    {
        let none = KernelHandle(0);
        let caps: bool = is_f32_positive(c.final_logit_softcapping);
        let scales: bool = is_f32_positive(c.embed_scale);
        let mut l: Lookup = Lookup::new(t);
        let rms_norm: KernelHandle = l.must_if(
            fp32,
            ("norm", "rms_norm_f32"),
            ("norm", "rms_norm"),
        );
        let dense_gemv: KernelHandle = l.must("gemv", "dense_gemv_bf16");
        let w4a16_gemv: KernelHandle = l.must("w4a16_gemv", "w4a16_gemv");
        let w4a16_gemv_logits: KernelHandle = l.must("w4a16_gemv", "w4a16_gemv_logits");
        let w4a16_gemm: KernelHandle = l.must("w4a16", "w4a16_gemm");
        let w4a16_gemv_batch2: KernelHandle = l.must("w4a16_gemv", "w4a16_gemv_batch2");
        let dense_gemm: KernelHandle = l.must("gemm", "dense_gemm_bf16");
        let argmax: KernelHandle = l.must("argmax", "argmax_bf16");
        let argmax_logits: KernelHandle = l.must("argmax", "argmax_fp32");
        let batched_embed: KernelHandle = l.must_if(
            fp32,
            ("embed_from_argmax", "batched_embed_f32"),
            ("embed_from_argmax", "batched_embed"),
        );
        let fill_slots: KernelHandle = l.must("metadata_fill", "fill_slots_from_block_table");
        let k = ModelKernels {
            rms_norm,
            bf16_to_f32: if fp32 {
                l.may("residual_add", "bf16_to_f32")
            } else {
                none
            },
            dense_gemv,
            dense_gemv_fp32out: if fp32 {
                l.may("gemv", "dense_gemv_bf16_fp32out")
            } else {
                none
            },
            w4a16_gemv,
            w4a16_gemv_logits,
            w4a16_gemm,
            w4a16_gemv_batch2,
            dense_gemm,
            argmax,
            argmax_logits,
            batched_embed,
            fill_slots,
            ssm_state_norm: l.may("ssm_state_norm", "ssm_state_clamp_norm_fused"),
            logit_softcap: if caps {
                l.may("logit_softcap", "logit_softcap_bf16")
            } else {
                none
            },
            logit_softcap_fp32: if caps && fp32 {
                l.may("logit_softcap", "logit_softcap_fp32")
            } else {
                none
            },
            embed_scale: if scales {
                l.may("embed_scale", "bf16_scale_inplace")
            } else {
                none
            },
        };
        match l.missing {
            Some(e) => Err(e),
            None => Ok(k),
        }
    }
}

impl ModelSizes {
    /// Widths of the linear-attention buffers: projected channels, gates, and
    /// value channels.
    pub open spec fn channels(c: &ModelConfig) -> int {
        c.linear_num_key_heads * c.linear_key_head_dim * 2 + Self::values(c)
    }

    pub open spec fn values(c: &ModelConfig) -> int {
        c.linear_num_value_heads * c.linear_value_head_dim
    }

    /// Gates per row: two per value head, or one per key channel of each when
    /// that is more and the model gates channels.
    pub open spec fn gates(c: &ModelConfig) -> int {
        let nv = c.linear_num_value_heads as int;
        if c.ssm_per_channel_gates {
            imax(nv * 2, nv * c.linear_key_head_dim)
        } else {
            nv * 2
        }
    }

    pub open spec fn fits(c: &ModelConfig, i: &ModelInputs) -> bool {
        let len = imin(i.buffers.max_batch_tokens as int, i.max_seq_len as int);
        &&& i.block_size > 0
        &&& i.num_drafts < usize::MAX
        &&& i.rollback_cap < usize::MAX
        &&& i.max_seq_len / i.block_size < usize::MAX
        &&& c.hidden_size * 4 <= usize::MAX
        &&& c.dflash_capture_layers@.len() * c.hidden_size * 2 <= usize::MAX
        &&& c.vocab_size * 4 <= usize::MAX
        &&& i.num_ssm_layers * 8 <= usize::MAX
        &&& c.linear_num_key_heads * c.linear_key_head_dim * 2 <= usize::MAX
        &&& c.linear_num_value_heads * c.linear_value_head_dim <= usize::MAX
        &&& c.ssm_per_channel_gates ==> c.linear_num_value_heads * c.linear_key_head_dim
            <= usize::MAX
        &&& c.linear_num_value_heads * 2 <= usize::MAX
        &&& Self::channels(c) <= usize::MAX
        &&& len * Self::channels(c) * 2 <= usize::MAX
        &&& len * Self::gates(c) * 4 <= usize::MAX
        &&& len * Self::values(c) * 2 <= usize::MAX
    }

    /// Drafting by any means needs checkpoints.
    pub open spec fn drafts(c: &ModelConfig, i: &ModelInputs) -> bool {
        i.self_speculative || (i.use_speculative && i.has_mtp_weights && i.has_lm_head_nvfp4)
            || c.dflash_capture_layers@.len() > 0
    }

    /// Logits in single precision have to be asked for, and need a residual
    /// stream in single precision and a kernel that fits the head's format.
    pub open spec fn fp32_logits(i: &ModelInputs, k: ModelKernels, asked: bool) -> bool {
        asked && i.fp32_residual && (if i.has_lm_head_nvfp4 {
            k.w4a16_gemv_logits.0 != 0
        } else {
            k.dense_gemv_fp32out.0 != 0
        })
    }

    pub open spec fn of(
        c: &ModelConfig,
        i: &ModelInputs,
        k: ModelKernels,
        fp32_lm_head: Option<&str>,
        diagnose: Option<&str>,
    ) -> ModelSizes {
        Self::with_settings(c, i, k, setting_on(fp32_lm_head), setting_on(diagnose))
    }

    /// Whether these are the sizes of a model, whatever the settings.
    pub open spec fn belong_to(self, c: &ModelConfig, i: &ModelInputs, k: ModelKernels) -> bool {
        exists|fp32_lm_head: bool, diagnose: bool|
            self == #[trigger] Self::with_settings(c, i, k, fp32_lm_head, diagnose)
    }

    /// The sizes of a model, with and without logits in single precision and
    /// diagnostics.
    pub open spec fn with_settings(
        c: &ModelConfig,
        i: &ModelInputs,
        k: ModelKernels,
        fp32_lm_head: bool,
        diagnose: bool,
    ) -> ModelSizes {
        let blocks = c.dflash_capture_layers@.len();
        let len = imin(i.buffers.max_batch_tokens as int, i.max_seq_len as int);
        let logits = Self::fp32_logits(i, k, fp32_lm_head);
        ModelSizes {
            has_mtp: Self::drafts(c, i),
            num_intermediates: if Self::drafts(c, i) {
                imax(
                    i.num_drafts + 1,
                    if blocks > 0 {
                        BLOCK_DRAFT_POSITIONS as int
                    } else {
                        0
                    },
                ) as usize
            } else {
                0
            },
            decode_ring_slots: if i.num_ssm_layers > 0 {
                (i.rollback_cap + 1) as usize
            } else {
                0
            },
            max_blocks_per_seq: (i.max_seq_len as int / i.block_size as int + 1) as u32,
            mtp_hidden_save: (c.hidden_size * 4) as usize,
            dflash_hidden_save: if blocks > 0 {
                Some((blocks * c.hidden_size * 2) as usize)
            } else {
                None
            },
            ep_cmd_buf: 4,
            pinned_bytes: imax(i.buffers.scratch_bytes as int, MIN_PINNED_BYTES as int) as usize,
            use_fp32_logits: logits,
            logits_fp32: if logits {
                Some((c.vocab_size * 4) as usize)
            } else {
                None
            },
            ssm_norm_ptrs: if i.num_ssm_layers > 0 {
                Some((i.num_ssm_layers * 8) as usize)
            } else {
                None
            },
            gdn_len: len as usize,
            gdn: if Self::channels(c) > 0 {
                Some(
                    GdnSizes {
                        qkv: (len * Self::channels(c) * 2) as usize,
                        gate_beta: (len * Self::gates(c) * 4) as usize,
                        output: (len * Self::values(c) * 2) as usize,
                        z: (len * Self::values(c) * 2) as usize,
                    },
                )
            } else {
                None
            },
            suppress_graphs: (c.fp8_kv_calibration_tokens > 0 && i.kv_dtype == KvCacheDtype::Fp8)
                || diagnose,
        }
    }

    /// Computes all sizes. `fp32_lm_head` and `diagnose` are settings.
    pub fn compute(
        c: &ModelConfig,
        i: &ModelInputs,
        k: ModelKernels,
        fp32_lm_head: Option<&str>,
        diagnose: Option<&str>,
    ) -> (r: ModelSizes)
        requires
            Self::fits(c, i),
        ensures
            r == Self::of(c, i, k, fp32_lm_head, diagnose),
            r.belong_to(c, i, k),
    {
        let captured: usize = c.dflash_capture_layers.len();
        let has_mtp: bool = i.self_speculative || (i.use_speculative && i.has_mtp_weights
            && i.has_lm_head_nvfp4) || captured > 0;
        let least: usize = if captured > 0 {
            BLOCK_DRAFT_POSITIONS
        } else {
            0
        };
        let num_intermediates: usize = if has_mtp {
            if i.num_drafts + 1 >= least {
                i.num_drafts + 1
            } else {
                least
            }
        } else {
            0
        };
        let use_fp32_logits: bool = is_setting_on(fp32_lm_head) && i.fp32_residual && ((
        !i.has_lm_head_nvfp4 && k.dense_gemv_fp32out.0 != 0) || (i.has_lm_head_nvfp4
            && k.w4a16_gemv_logits.0 != 0));
        let nv: usize = c.linear_num_value_heads;
        proof {
            vstd::arithmetic::mul::lemma_mul_nonnegative(
                c.linear_num_key_heads as int,
                c.linear_key_head_dim as int,
            );
            vstd::arithmetic::mul::lemma_mul_nonnegative(
                nv as int,
                c.linear_value_head_dim as int,
            );
            vstd::arithmetic::mul::lemma_mul_nonnegative(nv as int, c.linear_key_head_dim as int);
        }
        let value_dim: usize = nv * c.linear_value_head_dim;
        let conv_dim: usize = c.linear_num_key_heads * c.linear_key_head_dim * 2 + value_dim;
        let gdn_len: usize = if i.buffers.max_batch_tokens <= i.max_seq_len {
            i.buffers.max_batch_tokens
        } else {
            i.max_seq_len
        };
        let gate_elems: usize = if c.ssm_per_channel_gates && nv * c.linear_key_head_dim > nv * 2 {
            nv * c.linear_key_head_dim
        } else {
            nv * 2
        };
        let gdn: Option<GdnSizes> = if conv_dim > 0 {
            let values: usize = span(gdn_len, value_dim, 2);
            Some(
                GdnSizes {
                    qkv: span(gdn_len, conv_dim, 2),
                    gate_beta: span(gdn_len, gate_elems, 4),
                    output: values,
                    z: values,
                },
            )
        } else {
            None
        };
        ModelSizes {
            has_mtp,
            num_intermediates,
            decode_ring_slots: if i.num_ssm_layers > 0 {
                i.rollback_cap as usize + 1
            } else {
                0
            },
            max_blocks_per_seq: (i.max_seq_len / i.block_size + 1) as u32,
            mtp_hidden_save: c.hidden_size * 4,
            dflash_hidden_save: if captured > 0 {
                Some(span(captured, c.hidden_size, 2))
            } else {
                None
            },
            ep_cmd_buf: 4,
            pinned_bytes: if i.buffers.scratch_bytes >= MIN_PINNED_BYTES {
                i.buffers.scratch_bytes
            } else {
                MIN_PINNED_BYTES
            },
            use_fp32_logits,
            logits_fp32: if use_fp32_logits {
                Some(c.vocab_size * 4)
            } else {
                None
            },
            ssm_norm_ptrs: if i.num_ssm_layers > 0 {
                Some(i.num_ssm_layers * 8)
            } else {
                None
            },
            gdn_len,
            gdn,
            suppress_graphs: (c.fp8_kv_calibration_tokens > 0 && i.kv_dtype == KvCacheDtype::Fp8)
                || is_setting_on(diagnose),
        }
    }

    /// The recurrence buffers hold the rows of every prompt that is processed
    /// in two phases, in either layout of the gates.
    pub proof fn lemma_gdn_sizes(
        c: &ModelConfig,
        i: &ModelInputs,
        k: ModelKernels,
        fp32_lm_head: Option<&str>,
        diagnose: Option<&str>,
        rows: int,
    )
        requires
            Self::fits(c, i),
            Self::channels(c) > 0,
            0 <= rows <= Self::of(c, i, k, fp32_lm_head, diagnose).gdn_len,
        ensures
            ({
                let g = Self::of(c, i, k, fp32_lm_head, diagnose).gdn->0;
                let nv = c.linear_num_value_heads as int;
                &&& rows * Self::channels(c) * 2 <= g.qkv
                &&& rows * (nv * 2) * 4 <= g.gate_beta
                &&& c.ssm_per_channel_gates ==> rows * (nv * c.linear_key_head_dim) * 4
                    <= g.gate_beta
                &&& rows * Self::values(c) * 2 <= g.output
                &&& rows * Self::values(c) * 2 <= g.z
            }),
    {
        let len = imin(i.buffers.max_batch_tokens as int, i.max_seq_len as int);
        let nv = c.linear_num_value_heads as int;
        let per = nv * c.linear_key_head_dim;
        vstd::arithmetic::mul::lemma_mul_nonnegative(nv, c.linear_key_head_dim as int);
        vstd::arithmetic::mul::lemma_mul_nonnegative(nv, c.linear_value_head_dim as int);
        lemma_span_mono(rows, len, Self::channels(c), 2);
        lemma_span_mono(rows, len, Self::gates(c), 4);
        lemma_span_mono(rows, len, Self::values(c), 2);
        assert(rows * (nv * 2) * 4 <= rows * Self::gates(c) * 4) by (nonlinear_arith)
            requires
                rows >= 0,
                0 <= nv * 2 <= Self::gates(c),
        ;
        if c.ssm_per_channel_gates {
            assert(rows * per * 4 <= rows * Self::gates(c) * 4) by (nonlinear_arith)
                requires
                    rows >= 0,
                    0 <= per <= Self::gates(c),
            ;
        }
    }
}

/// Device memory of a model.
#[derive(Clone, Copy, PartialEq, Eq, Structural, Debug)]
pub struct ModelMemory {
    pub default_stream: u64,
    pub dummy_kv_block: u32,
    pub logits_fp32: DevicePtr,
    pub ssm_norm_ptrs: DevicePtr,
    pub gdn_qkv: DevicePtr,
    pub gdn_gate_beta: DevicePtr,
    pub gdn_output: DevicePtr,
    pub gdn_z: DevicePtr,
}

/// What else a model is made from.
pub struct ModelParts {
    pub config: ModelConfig,
    pub embed_tokens: DenseWeight,
    pub final_norm: DenseWeight,
    pub lm_head_weight: DenseWeight,
    pub lm_head_nvfp4: Option<QuantizedWeight>,
    pub layers: Vec<LayerInfo>,
    /// `rms_norm_eps` in single precision.
    pub rms_norm_eps: u32,
    pub has_comm: bool,
    pub cache_blocks_per_seq: Option<u32>,
    pub profile: bool,
    pub profile_first: bool,
    pub has_proposer: bool,
    /// Heads, key dim and value dim of a recurrent state.
    pub ssm_norm_dims: (usize, usize, usize),
    pub vision: Option<VisionOutput>,
    /// Drafting modules that the checkpoint has weights for.
    pub mtp_modules: usize,
}

impl ModelInputs {
    /// Whether the facts that sizes depend on are those of the parts: which
    /// weights there are, and how many recurrent layers. The layers are of the
    /// kinds that the configuration lists.
    pub open spec fn describe(&self, parts: &ModelParts) -> bool {
        let kinds = parts.config.layer_kinds();
        &&& parts.layers@.len() == kinds.len()
        &&& forall|j: int| 0 <= j < kinds.len() ==> (#[trigger] parts.layers@[j]).kind == kinds[j]
        &&& self.has_lm_head_nvfp4 == (parts.lm_head_nvfp4 is Some)
        &&& self.has_mtp_weights == (parts.mtp_modules > 0)
        &&& self.num_ssm_layers == layers_of(kinds, LayerType::LinearAttention)
    }
}

/// The cache block that stands in for blocks that a sequence does not have is
/// cleared and waited for before the model is used: what is read of it must not
/// be what the memory held before.
pub open spec fn dummy_block_plan(block: u32, stream: u64) -> Seq<Step> {
    on_synced(Seq::empty(), stream, Op::ZeroKvBlock(block))
}

pub fn plan_dummy_block(block: u32, stream: u64) -> (r: Vec<Step>)
    ensures
        r@ == dummy_block_plan(block, stream),
{
    let mut plan: Vec<Step> = Vec::new();
    enqueue_synced(&mut plan, stream, Op::ZeroKvBlock(block));
    plan
}

impl TransformerModel {
    /// The recurrent layers among the first `n` are those of the list of kinds.
    proof fn lemma_linear_layers(&self, kinds: Seq<LayerType>, n: nat)
        requires
            n <= kinds.len(),
            n <= self.layers@.len(),
            forall|j: int|
                0 <= j < kinds.len() ==> (#[trigger] self.layers@[j]).kind == kinds[j],
        ensures
            self.linear_before(n) == layers_of(kinds.take(n as int), LayerType::LinearAttention),
        decreases n,
    {
        if n > 0 {
            self.lemma_linear_layers(kinds, (n - 1) as nat);
            assert(kinds.take(n as int).drop_last() =~= kinds.take(n - 1));
            assert(self.layers@[n - 1].kind == kinds[n - 1]);
        }
    }

    /// Assembles a model from its parts, once its kernels are chosen and its
    /// memory is allocated in the sizes of its own configuration. Buffers that
    /// were not asked for are null.
    pub fn new(
        parts: ModelParts,
        i: &ModelInputs,
        k: ModelKernels,
        sizes: ModelSizes,
        mem: ModelMemory,
    ) -> (r: TransformerModel)
        requires
            i.describe(&parts),
            sizes.belong_to(&parts.config, i, k),
        ensures
            sizes.belong_to(&r.config, i, r.k),
            r.config == parts.config,
            r.embed_tokens == parts.embed_tokens,
            r.final_norm == parts.final_norm,
            r.lm_head_weight == parts.lm_head_weight,
            r.lm_head_nvfp4 == parts.lm_head_nvfp4,
            r.layers == parts.layers,
            r.buffers == i.buffers,
            r.k == k,
            r.rms_norm_eps == parts.rms_norm_eps,
            r.fp32_residual == i.fp32_residual,
            r.default_stream == mem.default_stream,
            r.has_comm == parts.has_comm,
            r.block_size == i.block_size,
            r.cache_blocks_per_seq == parts.cache_blocks_per_seq,
            r.max_blocks_per_seq == sizes.max_blocks_per_seq,
            r.dummy_kv_block == mem.dummy_kv_block,
            r.profile == parts.profile,
            r.profile_first_pending == parts.profile_first,
            r.suppress_graphs == sizes.suppress_graphs,
            r.decode_graphs@ == Map::<usize, u64>::empty(),
            r.has_proposer == parts.has_proposer,
            r.self_speculative == i.self_speculative,
            r.gdn == (GdnBuffers {
                qkv: if sizes.gdn is Some {
                    mem.gdn_qkv
                } else {
                    DevicePtr(0)
                },
                gate_beta: if sizes.gdn is Some {
                    mem.gdn_gate_beta
                } else {
                    DevicePtr(0)
                },
                output: if sizes.gdn is Some {
                    mem.gdn_output
                } else {
                    DevicePtr(0)
                },
                z: if sizes.gdn is Some {
                    mem.gdn_z
                } else {
                    DevicePtr(0)
                },
                max_len: sizes.gdn_len,
            }),
            r.use_fp32_logits == sizes.use_fp32_logits,
            r.logits_fp32_buf == (if sizes.logits_fp32 is Some {
                mem.logits_fp32
            } else {
                DevicePtr(0)
            }),
            r.ssm_norm_ptrs_buf == (if sizes.ssm_norm_ptrs is Some {
                mem.ssm_norm_ptrs
            } else {
                DevicePtr(0)
            }),
            r.num_ssm_layers == i.num_ssm_layers,
            r.num_ssm_layers == r.linear_before(r.layers@.len()),
            r.ssm_norm_dims == parts.ssm_norm_dims,
            r.pinned_bytes == sizes.pinned_bytes,
            r.vision == parts.vision,
            r.vision_embed_patches == 0,
            r.vision_image_grids@ == Seq::<(usize, usize)>::empty(),
    {
        let null = DevicePtr(0);
        let gdn: GdnBuffers = if sizes.gdn.is_some() {
            GdnBuffers {
                qkv: mem.gdn_qkv,
                gate_beta: mem.gdn_gate_beta,
                output: mem.gdn_output,
                z: mem.gdn_z,
                max_len: sizes.gdn_len,
            }
        } else {
            GdnBuffers {
                qkv: null,
                gate_beta: null,
                output: null,
                z: null,
                max_len: sizes.gdn_len,
            }
        };
        let model = TransformerModel {
            config: parts.config,
            embed_tokens: parts.embed_tokens,
            final_norm: parts.final_norm,
            lm_head_weight: parts.lm_head_weight,
            lm_head_nvfp4: parts.lm_head_nvfp4,
            layers: parts.layers,
            buffers: i.buffers,
            k,
            rms_norm_eps: parts.rms_norm_eps,
            fp32_residual: i.fp32_residual,
            default_stream: mem.default_stream,
            has_comm: parts.has_comm,
            block_size: i.block_size,
            cache_blocks_per_seq: parts.cache_blocks_per_seq,
            max_blocks_per_seq: sizes.max_blocks_per_seq,
            dummy_kv_block: mem.dummy_kv_block,
            profile: parts.profile,
            profile_first_pending: parts.profile_first,
            suppress_graphs: sizes.suppress_graphs,
            decode_graphs: HashMap::new(),
            has_proposer: parts.has_proposer,
            self_speculative: i.self_speculative,
            gdn,
            use_fp32_logits: sizes.use_fp32_logits,
            logits_fp32_buf: if sizes.logits_fp32.is_some() {
                mem.logits_fp32
            } else {
                null
            },
            ssm_norm_ptrs_buf: if sizes.ssm_norm_ptrs.is_some() {
                mem.ssm_norm_ptrs
            } else {
                null
            },
            num_ssm_layers: i.num_ssm_layers,
            ssm_norm_dims: parts.ssm_norm_dims,
            pinned_bytes: sizes.pinned_bytes,
            vision: parts.vision,
            vision_embed_patches: 0,
            vision_image_grids: Vec::new(),
        };
        proof {
            let kinds = model.config.layer_kinds();
            model.lemma_linear_layers(kinds, model.layers@.len());
            assert(kinds.take(kinds.len() as int) =~= kinds);
        }
        model
    }

    /// A communicator of two ranks reduces the expert output in place: its
    /// address and size are registered.
    pub fn registered_buffer(&self, world_size: Option<usize>) -> (r: Option<(DevicePtr, usize)>)
        ensures
            r == (if world_size == Some(2usize) {
                Some((self.buffers.moe_output, self.buffers.moe_output_bytes))
            } else {
                None
            }),
    {
        match world_size {
            Some(w) => if w == 2 {
                Some((self.buffers.moe_output, self.buffers.moe_output_bytes))
            } else {
                None
            },
            None => None,
        }
    }
}

} // verus!
