//! Linear-attention decoder layers: gated delta rule with scalar gates, or with
//! per-channel decay.

pub mod debug;
pub mod decode;
pub mod decode_kda;
pub mod enqueued;
pub mod forward;
pub mod launched;
pub mod meaning;
pub mod prefill;
pub mod prefill_gdn;
pub mod prefill_phase1;
pub mod prefill_phase3;

use crate::context::ForwardContext;
use crate::gpu::{DenseWeight, DevicePtr, Fp8Weight, KernelHandle, QuantizedWeight};
use crate::plan::Op;
use vstd::prelude::*;

verus! {

/// Weights of a linear-attention layer.
#[derive(Clone, Copy, PartialEq, Eq, Structural, Debug)]
pub struct SsmWeights {
    pub in_proj_qkvz: DenseWeight,
    pub in_proj_ba: DenseWeight,
    pub conv1d: DenseWeight,
    pub a_log: DenseWeight,
    pub dt_bias: DenseWeight,
    pub norm: DenseWeight,
    pub out_proj: QuantizedWeight,
}

/// Kernels of a linear-attention layer.
#[derive(Clone, Copy, PartialEq, Eq, Structural, Debug)]
pub struct SsmKernels {
    pub rms_norm_residual: KernelHandle,
    pub gated_rms_norm: KernelHandle,
    pub gated_rms_norm_f32: KernelHandle,
    pub dense_gemv: KernelHandle,
    pub w4a16_gemv: KernelHandle,
    pub w8a16_gemv: KernelHandle,
    pub w4a16_gemv_qkvz: KernelHandle,
    pub deinterleave: KernelHandle,
    pub conv1d_l2norm: KernelHandle,
    pub conv1d_l2norm_f32: KernelHandle,
    pub gdn: KernelHandle,
    pub gdn_f32: KernelHandle,
    pub ba_gates: KernelHandle,
    pub residual_add: KernelHandle,
    pub l2_norm: KernelHandle,
    pub residual_add_rms_norm: KernelHandle,
    pub gated_rms_norm_prefill: KernelHandle,
    pub w4a16_gemm: KernelHandle,
    pub w4a16_gemm_t: KernelHandle,
    pub w4a16_gemm_t_m128: KernelHandle,
    pub dense_gemm: KernelHandle,
    pub gdn_prefill_split4: KernelHandle,
    pub gdn_prefill_persistent: KernelHandle,
    pub gdn_prefill_persistent_wy4: KernelHandle,
    pub gdn_prefill_wy32: KernelHandle,
    pub gdn_prefill_wy32_batched: KernelHandle,
    pub gdn_prefill_persistent_batched: KernelHandle,
    pub gdn_prefill_persistent_wy4_batched: KernelHandle,
    pub gdn_prefill_split4_batched: KernelHandle,
    pub ba_gates_prefill: KernelHandle,
    pub conv1d_prefill: KernelHandle,
    pub kda_gates: KernelHandle,
    pub kda_decode: KernelHandle,
    pub kda_prefill: KernelHandle,
    pub kda_decode_f32i: KernelHandle,
    pub fp8_gemm: KernelHandle,
    pub fp8_gemm_t_m128: KernelHandle,
}

/// A linear-attention layer.
#[derive(Clone, Copy, PartialEq, Eq, Structural, Debug)]
pub struct Qwen3SsmLayer {
    pub input_norm: DenseWeight,
    pub ssm: SsmWeights,
    pub post_attn_norm: DenseWeight,
    pub qkvz_nvfp4: Option<QuantizedWeight>,
    pub qkvz_nvfp4_t: Option<QuantizedWeight>,
    pub out_proj_nvfp4_t: Option<QuantizedWeight>,
    pub out_proj_dense: Option<DenseWeight>,
    pub qkvz_fp8w: Option<Fp8Weight>,
    pub out_proj_fp8w: Option<Fp8Weight>,
    pub qkvz_fp8: Option<DevicePtr>,
    pub out_proj_fp8: Option<DevicePtr>,
    /// The projection comes out in sequential order and needs no reordering.
    pub sequential_qkvz: bool,
    /// Per-channel decay instead of scalar gates.
    pub kda_mode: bool,
    pub kda_f_proj: DenseWeight,
    pub kda_b_proj: DenseWeight,
    /// f32 bits.
    pub kda_lower_bound: u32,
    pub h_state_bytes: usize,
    pub conv_state_bytes: usize,
    pub k: SsmKernels,
}

/// Why a linear-attention pass cannot be planned, or stops.
#[derive(Clone, Copy, PartialEq, Eq, Structural, Debug)]
pub enum SsmError {
    /// Per-channel decay needs the norm kernel that reads single precision.
    KdaNeedsF32Norm,
    /// Per-channel decay has no prefill in one pass, only in two phases.
    KdaNeedsTwoPhases,
    /// The prefill kernel for per-channel decay is not loaded.
    KdaPrefillUnavailable,
    /// The buffer for gates and betas holds per-channel decay instead.
    PerChannelGates,
    /// No kernel for several sequences at once is loaded.
    NoBatchedKernel,
}

/// Extents of a linear-attention layer.
#[derive(Clone, Copy, PartialEq, Eq, Structural, Debug)]
pub struct SsmDims {
    pub h: usize,
    pub nk: usize,
    pub kd: usize,
    pub nv: usize,
    pub vd: usize,
    /// Channels of all keys.
    pub key_dim: usize,
    /// Channels of all values.
    pub value_dim: usize,
    /// Channels of queries, keys and values.
    pub conv_dim: usize,
    pub d_conv: usize,
    pub qkvz: usize,
    pub ba: usize,
}

impl SsmDims {
    pub open spec fn of(cx: &ForwardContext) -> SsmDims {
        let c = cx.config;
        let key_dim = (c.linear_num_key_heads * c.linear_key_head_dim) as usize;
        let value_dim = (c.linear_num_value_heads * c.linear_value_head_dim) as usize;
        SsmDims {
            h: c.hidden_size,
            nk: c.linear_num_key_heads,
            kd: c.linear_key_head_dim,
            nv: c.linear_num_value_heads,
            vd: c.linear_value_head_dim,
            key_dim,
            value_dim,
            conv_dim: (key_dim * 2 + value_dim) as usize,
            d_conv: c.linear_conv_kernel_dim,
            qkvz: cx.ssm_qkvz_size,
            ba: cx.ssm_ba_size,
        }
    }

    /// The channel counts are representable.
    pub open spec fn fit(cx: &ForwardContext) -> bool {
        let c = cx.config;
        &&& c.linear_num_key_heads * c.linear_key_head_dim <= usize::MAX
        &&& c.linear_num_value_heads * c.linear_value_head_dim <= usize::MAX
        &&& c.linear_num_key_heads * c.linear_key_head_dim * 2 + c.linear_num_value_heads
            * c.linear_value_head_dim <= usize::MAX
    }

    pub(crate) fn read(cx: &ForwardContext) -> (r: SsmDims)
        requires
            Self::fit(cx),
        ensures
            r == Self::of(cx),
            r.key_dim == r.nk * r.kd,
            r.value_dim == r.nv * r.vd,
            r.conv_dim == r.key_dim * 2 + r.value_dim,
    {
        let c = cx.config;
        let key_dim: usize = c.linear_num_key_heads * c.linear_key_head_dim;
        let value_dim: usize = c.linear_num_value_heads * c.linear_value_head_dim;
        SsmDims {
            h: c.hidden_size,
            nk: c.linear_num_key_heads,
            kd: c.linear_key_head_dim,
            nv: c.linear_num_value_heads,
            vd: c.linear_value_head_dim,
            key_dim,
            value_dim,
            conv_dim: key_dim * 2 + value_dim,
            d_conv: c.linear_conv_kernel_dim,
            qkvz: cx.ssm_qkvz_size,
            ba: cx.ssm_ba_size,
        }
    }
}

impl Qwen3SsmLayer {
    /// Linear-attention layers keep a recurrent state.
    pub fn is_ssm_layer(&self) -> (r: bool)
        ensures
            r,
    {
        true
    }

    /// The output projection of one row: FP8, dense or 4-bit, whichever is held
    /// first in this order.
    pub open spec fn out_proj(&self, x: DevicePtr, out: DevicePtr, h: u32, value_dim: u32) -> Op {
        match (self.out_proj_fp8w, self.out_proj_dense) {
            (Some(w), _) => Op::W8a16Gemv(
                self.k.w8a16_gemv, x, w.weight, w.row_scale, out, h, value_dim,
            ),
            (None, Some(w)) => Op::DenseGemv(self.k.dense_gemv, x, w, out, h, value_dim),
            (None, None) => Op::W4a16Gemv(
                self.k.w4a16_gemv, x, self.ssm.out_proj, out, h, value_dim,
            ),
        }
    }

    pub(crate) fn out_proj_op(&self, x: DevicePtr, out: DevicePtr, h: u32, value_dim: u32) -> (r:
        Op)
        ensures
            r == self.out_proj(x, out, h, value_dim),
    {
        if let Some(w) = self.out_proj_fp8w {
            Op::W8a16Gemv(self.k.w8a16_gemv, x, w.weight, w.row_scale, out, h, value_dim)
        } else if let Some(w) = self.out_proj_dense {
            Op::DenseGemv(self.k.dense_gemv, x, w, out, h, value_dim)
        } else {
            Op::W4a16Gemv(self.k.w4a16_gemv, x, self.ssm.out_proj, out, h, value_dim)
        }
    }
}

} // verus!
