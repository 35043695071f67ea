//! The whole model: embedding, layers, head, and the bookkeeping of sequences.
//!
//! The device, the block allocator, the prefix cache and the snapshot pool are
//! not part of this crate. What a pass does with them is split at each point
//! where an answer of theirs is needed: a function up to that point, and one
//! that takes the answer.

pub mod decisions;
pub mod decode;
pub mod enqueued;
pub mod init;
pub mod meaning;
pub mod meta;
pub mod metadata;
pub mod prefill;
pub mod prefill_chunk;
pub mod prefill_twophase;
pub mod promised;
pub mod sequence;
pub mod uploads;

use crate::config::{LayerType, ModelConfig};
use crate::gpu::{Buffers, DenseWeight, DevicePtr, KernelHandle, QuantizedWeight};
use std::collections::HashMap;
use vstd::prelude::*;

verus! {

/// What the passes have to know of one layer.
#[derive(Clone, Copy, PartialEq, Eq, Structural, Debug)]
pub struct LayerInfo {
    pub kind: LayerType,
    /// Whether the layer splits its prefill around a recurrence.
    pub is_ssm: bool,
}

/// Kernels of the model level.
#[derive(Clone, Copy, PartialEq, Eq, Structural, Debug)]
pub struct ModelKernels {
    pub rms_norm: KernelHandle,
    pub bf16_to_f32: KernelHandle,
    pub dense_gemv: KernelHandle,
    pub dense_gemv_fp32out: KernelHandle,
    pub w4a16_gemv: KernelHandle,
    pub w4a16_gemv_logits: KernelHandle,
    pub w4a16_gemm: KernelHandle,
    pub w4a16_gemv_batch2: KernelHandle,
    pub dense_gemm: KernelHandle,
    pub argmax: KernelHandle,
    pub argmax_logits: KernelHandle,
    pub batched_embed: KernelHandle,
    pub fill_slots: KernelHandle,
    pub ssm_state_norm: KernelHandle,
    pub logit_softcap: KernelHandle,
    pub logit_softcap_fp32: KernelHandle,
    pub embed_scale: KernelHandle,
}

/// What the passes have to know of the vision encoder.
#[derive(Clone, Copy, PartialEq, Eq, Structural, Debug)]
pub struct VisionOutput {
    /// Rows that the encoder wrote, one per image token.
    pub buf_out: DevicePtr,
    pub out_hidden_size: usize,
    pub spatial_merge_size: usize,
    /// Image token of models whose configuration names none.
    pub fallback_pad_token: u32,
}

/// Buffers that hold a prompt between the halves of linear-attention layers.
#[derive(Clone, Copy, PartialEq, Eq, Structural, Debug)]
pub struct GdnBuffers {
    pub qkv: DevicePtr,
    pub gate_beta: DevicePtr,
    pub output: DevicePtr,
    pub z: DevicePtr,
    /// Rows that fit.
    pub max_len: usize,
}

/// A loaded model.
pub struct TransformerModel {
    pub config: ModelConfig,
    pub embed_tokens: DenseWeight,
    pub final_norm: DenseWeight,
    pub lm_head_weight: DenseWeight,
    pub lm_head_nvfp4: Option<QuantizedWeight>,
    pub layers: Vec<LayerInfo>,
    pub buffers: Buffers,
    pub k: ModelKernels,
    /// `rms_norm_eps` in single precision.
    pub rms_norm_eps: u32,
    /// Whether the residual stream is kept in single precision.
    pub fp32_residual: bool,
    pub default_stream: u64,
    /// Whether there is a communicator.
    pub has_comm: bool,
    /// Positions per cache block.
    pub block_size: usize,
    /// Cache blocks that a sequence may keep on the device, when older ones are
    /// swapped out.
    pub cache_blocks_per_seq: Option<u32>,
    pub max_blocks_per_seq: u32,
    /// A cache block of zeros, for padding.
    pub dummy_kv_block: u32,
    pub profile: bool,
    pub profile_first_pending: bool,
    pub suppress_graphs: bool,
    /// Captured decode graphs by slot.
    pub decode_graphs: HashMap<usize, u64>,
    pub has_proposer: bool,
    pub self_speculative: bool,
    pub gdn: GdnBuffers,
    pub use_fp32_logits: bool,
    pub logits_fp32_buf: DevicePtr,
    pub ssm_norm_ptrs_buf: DevicePtr,
    /// Linear-attention layers that have states in the pool.
    pub num_ssm_layers: usize,
    /// Heads, key dim and value dim of a recurrent state.
    pub ssm_norm_dims: (usize, usize, usize),
    /// Host bytes that a prefill may stage.
    pub pinned_bytes: usize,
    pub vision: Option<VisionOutput>,
    /// Image rows that wait to be spliced into the next prompt.
    pub vision_embed_patches: usize,
    pub vision_image_grids: Vec<(usize, usize)>,
}

impl TransformerModel {
    /// Bytes per element of the residual stream.
    pub open spec fn elem(&self) -> int {
        if self.fp32_residual {
            4
        } else {
            2
        }
    }

    pub fn elem_bytes(&self) -> (r: usize)
        ensures
            r == self.elem(),
    {
        if self.fp32_residual {
            4
        } else {
            2
        }
    }

    pub open spec fn spec_decode_logits_ptr(&self) -> DevicePtr {
        if self.use_fp32_logits {
            self.logits_fp32_buf
        } else {
            self.buffers.logits
        }
    }

    /// Where the head leaves the logits of one row.
    #[verifier::when_used_as_spec(spec_decode_logits_ptr)]
    pub fn decode_logits_ptr(&self) -> (r: DevicePtr)
        ensures
            r == self.spec_decode_logits_ptr(),
    {
        if self.use_fp32_logits {
            self.logits_fp32_buf
        } else {
            self.buffers.logits
        }
    }
}

} // verus!
