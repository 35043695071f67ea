//! What a forward pass hands to every layer.

use crate::config::ModelConfig;
use crate::gpu::{AttnMetadataDev, Buffers};
use vstd::prelude::*;

verus! {

/// The context of one forward pass.
pub struct ForwardContext<'a> {
    pub buffers: Buffers,
    pub config: &'a ModelConfig,
    pub attn_metadata: Option<AttnMetadataDev>,
    /// Number of ranks, when there is a communicator.
    pub comm_world_size: Option<usize>,
    /// Whether the pass is being captured into a graph.
    pub graph_capture: bool,
    /// Whether operations are timed one by one, with a wait after each.
    pub profile: bool,
    /// Width of the fused query, key, value and gate projection of a
    /// linear-attention layer.
    pub ssm_qkvz_size: usize,
    /// Width of its decay and beta projection.
    pub ssm_ba_size: usize,
    /// `rms_norm_eps` in single precision.
    pub rms_norm_eps: u32,
    /// `routed_scaling_factor` in single precision.
    pub routed_scaling_factor: u32,
    /// `rope_theta` in single precision.
    pub rope_theta: u32,
}

impl<'a> ForwardContext<'a> {
    /// Width of the residual stream.
    pub open spec fn h(&self) -> u32 {
        self.config.hidden_size as u32
    }

    /// Width of a routed expert.
    pub open spec fn inter(&self) -> u32 {
        self.config.moe_intermediate_size as u32
    }

    /// Width of the shared expert; zero when there is none.
    pub open spec fn shared_inter(&self) -> u32 {
        self.config.shared_expert_intermediate_size as u32
    }

    pub open spec fn experts(&self) -> u32 {
        self.config.num_experts as u32
    }

    pub open spec fn top_k(&self) -> u32 {
        self.config.num_experts_per_tok as u32
    }

    pub open spec fn n_group(&self) -> u32 {
        self.config.n_group as u32
    }

    pub open spec fn topk_group(&self) -> u32 {
        self.config.topk_group as u32
    }

    /// Whether experts are spread over more than one rank.
    pub open spec fn spec_is_ep(&self) -> bool {
        self.comm_world_size is Some && self.comm_world_size->0 > 1
    }

    pub fn is_ep(&self) -> (r: bool)
        ensures
            r == self.spec_is_ep(),
    {
        match self.comm_world_size {
            Some(w) => w > 1,
            None => false,
        }
    }
}

} // verus!
