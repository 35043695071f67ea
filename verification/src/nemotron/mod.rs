//! Mixture-of-experts layers with squared-ReLU experts, on the hidden width or
//! on a narrower latent width.

pub mod decode;
pub mod enqueued;
pub mod launched;
pub mod meaning;
pub mod prefill_fallback;
pub mod prefill_sorted;

use crate::gpu::{DenseWeight, DevicePtr, ExpertPtrTable, KernelHandle, QuantizedWeight};
use vstd::prelude::*;

verus! {

/// Weights of a layer.
#[derive(Clone, Copy, PartialEq, Eq, Structural, Debug)]
pub struct NemotronMoeWeights {
    pub gate: DenseWeight,
    pub e_score_correction_bias: DenseWeight,
    pub shared_up: QuantizedWeight,
    pub shared_down: QuantizedWeight,
    pub fc1_latent_proj: Option<DenseWeight>,
    pub fc2_latent_proj: Option<DenseWeight>,
}

/// Kernels of a layer.
#[derive(Clone, Copy, PartialEq, Eq, Structural, Debug)]
pub struct NemotronKernels {
    pub rms_norm_residual: KernelHandle,
    pub dense_gemv: KernelHandle,
    pub dense_gemm: KernelHandle,
    pub topk_sigmoid: KernelHandle,
    pub topk_sigmoid_batched: KernelHandle,
    pub moe_expert_gemv: KernelHandle,
    pub w4a16_gemv: KernelHandle,
    pub w4a16_gemm: KernelHandle,
    pub w4a16_gemm_t: KernelHandle,
    pub relu2_down_shared: KernelHandle,
    pub weighted_sum_scale: KernelHandle,
    pub residual_add: KernelHandle,
    pub moe_sort: KernelHandle,
    pub moe_grouped_gemm: KernelHandle,
    pub moe_grouped_gemm_n128: KernelHandle,
    pub moe_relu2_elementwise: KernelHandle,
    pub moe_unpermute_reduce: KernelHandle,
}

/// A layer. A latent width of zero means that the experts work on the hidden
/// width.
#[derive(Clone, Copy, PartialEq, Eq, Structural, Debug)]
pub struct NemotronMoeLayer {
    pub input_norm: DenseWeight,
    pub weights: NemotronMoeWeights,
    pub up_ptrs: ExpertPtrTable,
    pub down_ptrs: ExpertPtrTable,
    pub up_ptrs_t: Option<ExpertPtrTable>,
    pub down_ptrs_t: Option<ExpertPtrTable>,
    pub shared_down_t: Option<QuantizedWeight>,
    pub moe_latent_size: usize,
    pub k: NemotronKernels,
}

impl NemotronMoeLayer {
    /// A layer with a latent width has both latent projections.
    pub open spec fn wf(self) -> bool {
        self.moe_latent_size > 0 ==> self.weights.fc1_latent_proj is Some
            && self.weights.fc2_latent_proj is Some
    }
}

/// What a prefill has computed before its experts run. Offsets in these
/// buffers are per token.
#[derive(Clone, Copy, PartialEq, Eq, Structural, Debug)]
pub struct SortedPrefillCtx {
    pub n: u32,
    pub num_tokens: usize,
    pub h: usize,
    pub inter: u32,
    pub shared_inter: u32,
    pub num_experts: u32,
    pub top_k: u32,
    /// f32 bits.
    pub scale: u32,
    pub latent: u32,
    pub gate_logits: DevicePtr,
    pub indices_dev: DevicePtr,
    pub weights_dev: DevicePtr,
    pub normed: DevicePtr,
    pub hidden: DevicePtr,
    pub latent_base: Option<DevicePtr>,
    pub shared_up_out_base: DevicePtr,
}

} // verus!
