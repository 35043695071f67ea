//! Model configuration.

pub mod completed;
pub mod defaults;
pub mod dispatch;
pub mod factory;
pub mod json;
pub mod layers;
pub mod validate;

use vstd::prelude::*;

verus! {

/// What a decoder layer is built from.
#[derive(Clone, Copy, PartialEq, Eq, Structural, Debug)]
pub enum LayerType {
    FullAttention,
    LinearAttention,
    Moe,
}

/// Everything the engine needs to know of a model. Fields of floating-point
/// type hold bit patterns: `u64` for double and `u32` for single precision.
#[derive(Clone, Debug)]
pub struct ModelConfig {
    pub hidden_size: usize,
    pub num_hidden_layers: usize,
    pub intermediate_size: usize,
    pub vocab_size: usize,
    pub num_attention_heads: usize,
    pub num_key_value_heads: usize,
    pub head_dim: usize,
    pub partial_rotary_factor: u64,
    pub linear_num_key_heads: usize,
    pub linear_key_head_dim: usize,
    pub linear_num_value_heads: usize,
    pub linear_value_head_dim: usize,
    pub linear_conv_kernel_dim: usize,
    pub num_experts: usize,
    pub num_experts_per_tok: usize,
    pub moe_intermediate_size: usize,
    pub shared_expert_intermediate_size: usize,
    pub norm_topk_prob: bool,
    pub decoder_sparse_step: usize,
    pub layer_types: Vec<LayerType>,
    pub full_attention_interval: usize,
    pub sliding_window: u32,
    pub max_position_embeddings: usize,
    pub rope_theta: u64,
    pub rms_norm_eps: u64,
    pub bos_token_id: u32,
    pub eos_token_id: u32,
    pub tie_word_embeddings: bool,
    pub model_type: String,
    pub mtp_num_hidden_layers: usize,
    pub hybrid_override_pattern: String,
    pub mamba_num_heads: usize,
    pub mamba_head_dim: usize,
    pub ssm_state_size: usize,
    pub n_groups: usize,
    pub expand: usize,
    pub n_routed_experts: usize,
    pub norm_eps: u64,
    pub conv_kernel: usize,
    pub moe_shared_expert_intermediate_size: usize,
    pub first_k_dense_replace: usize,
    pub expert_swiglu_limit_list: Vec<u32>,
    pub routed_scaling_factor: u64,
    pub n_group: usize,
    pub topk_group: usize,
    pub kda_lower_bound: u32,
    pub ssm_per_channel_gates: bool,
    pub rope_interleave: bool,
    pub moe_latent_size: usize,
    pub kv_lora_rank: usize,
    pub kv_layer_dims: Vec<(usize, usize)>,
    pub q_lora_rank: usize,
    pub qk_nope_head_dim: usize,
    pub qk_rope_head_dim: usize,
    pub v_head_dim: usize,
    pub yarn_factor: u32,
    pub yarn_beta_slow: u32,
    pub yarn_beta_fast: u32,
    pub yarn_original_max_position_embeddings: usize,
    pub llama_4_scaling_beta: u32,
    pub llama_4_scaling_original_max_position_embeddings: usize,
    pub vision: Option<VisionConfig>,
    pub quantization_config: Option<QuantizationConfig>,
    pub attn_gated: bool,
    pub nested_config: bool,
    pub mrope_section: [usize; 3],
    pub mrope_interleaved: bool,
    pub weight_prefix: String,
    pub ep_rank: usize,
    pub ep_world_size: usize,
    pub tp_rank: usize,
    pub tp_world_size: usize,
    pub fp8_kv_calibration_tokens: usize,
    pub final_logit_softcapping: u32,
    pub embed_scale: u32,
    pub scoring_func: String,
    pub use_routing_bias: bool,
    pub qk_norm_type: String,
    pub num_mtp_modules: usize,
    pub mtp_transformer_layers: usize,
    pub rotary_dim: usize,
    pub dflash_capture_layers: Vec<usize>,
}

/// How the checkpoint says it is quantized.
#[derive(Clone, Debug)]
pub struct QuantizationConfig {
    pub quant_method: String,
    pub quant_algo: String,
    pub format: String,
    pub ignore_modules: Vec<String>,
}

/// The vision tower of a multimodal model.
#[derive(Clone, Debug)]
pub struct VisionConfig {
    pub depth: usize,
    pub hidden_size: usize,
    pub num_heads: usize,
    pub patch_size: usize,
    pub temporal_patch_size: usize,
    pub spatial_merge_size: usize,
    pub intermediate_size: usize,
    pub out_hidden_size: usize,
    pub deepstack_visual_indexes: Vec<usize>,
    pub image_pad_token_id: u32,
}

impl VisionConfig {
    /// Width of the row that the patch merger reads: a square of
    /// `spatial_merge_size` patches side by side.
    pub fn merger_input_size(&self) -> (r: usize)
        requires
            self.spatial_merge_size * self.spatial_merge_size <= usize::MAX,
            self.spatial_merge_size * self.spatial_merge_size * self.hidden_size <= usize::MAX,
        ensures
            r == self.spatial_merge_size * self.spatial_merge_size * self.hidden_size,
    {
        self.spatial_merge_size * self.spatial_merge_size * self.hidden_size
    }
}

} // verus!
