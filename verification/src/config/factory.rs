//! Built-in configurations.

use crate::config::{LayerType, ModelConfig};
use crate::config::layers::layers_of;
use vstd::prelude::*;

verus! {

/// Kinds of layers where each one that ends a group of `group` is full
/// attention and the others are linear.
pub open spec fn grouped_layers(layers: nat, group: int) -> Seq<LayerType> {
    Seq::new(
        layers,
        |i: int|
            if (i + 1) % group == 0 {
                LayerType::FullAttention
            } else {
                LayerType::LinearAttention
            },
    )
}

pub fn group_layers(layers: usize, group: usize) -> (r: Vec<LayerType>)
    requires
        group > 0,
    ensures
        r@ == grouped_layers(layers as nat, group as int),
{
    let mut types: Vec<LayerType> = Vec::new();
    let mut i: usize = 0;
    while i < layers
        invariant
            i <= layers,
            group > 0,
            types@ == grouped_layers(i as nat, group as int),
        decreases layers - i,
    {
        if (i + 1) % group == 0 {
            types.push(LayerType::FullAttention);
        } else {
            types.push(LayerType::LinearAttention);
        }
        i = i + 1;
        proof {
            assert(types@ =~= grouped_layers(i as nat, group as int));
        }
    }
    types
}

/// One layer of every complete group is full attention.
pub proof fn lemma_grouped_layers(layers: nat, group: int)
    requires
        group > 0,
    ensures
        layers_of(grouped_layers(layers, group), LayerType::FullAttention) == layers as int / group,
    decreases layers,
{
    if layers > 0 {
        let n = layers as int;
        lemma_grouped_layers((layers - 1) as nat, group);
        assert(grouped_layers(layers, group).drop_last() =~= grouped_layers(
            (layers - 1) as nat,
            group,
        ));
        vstd::arithmetic::div_mod::lemma_fundamental_div_mod(n, group);
        vstd::arithmetic::div_mod::lemma_fundamental_div_mod(n - 1, group);
        let (q, r) = (n / group, n % group);
        let (p, s) = ((n - 1) / group, (n - 1) % group);
        assert(0 <= r < group && 0 <= s < group);
        if r == 0 {
            assert(q == p + 1) by (nonlinear_arith)
                requires
                    n == group * q,
                    n - 1 == group * p + s,
                    0 <= s < group,
            ;
        } else {
            assert(q == p) by (nonlinear_arith)
                requires
                    n == group * q + r,
                    n - 1 == group * p + s,
                    0 < r < group,
                    0 <= s < group,
            ;
        }
    } else {
        assert(0int / group == 0) by (nonlinear_arith)
            requires
                group > 0,
        ;
    }
}

impl ModelConfig {
    pub fn qwen3_next_80b_nvfp4() -> (r: ModelConfig)
        ensures
            r.layer_types@ == grouped_layers(48, 4),
            r.hidden_size == 2048,
            r.num_hidden_layers == 48,
            r.intermediate_size == 5120,
            r.vocab_size == 151936,
            r.num_attention_heads == 16,
            r.num_key_value_heads == 2,
            r.head_dim == 256,
            r.partial_rotary_factor == 0x3fd0_0000_0000_0000,
            r.linear_num_key_heads == 16,
            r.linear_key_head_dim == 128,
            r.linear_num_value_heads == 32,
            r.linear_value_head_dim == 128,
            r.linear_conv_kernel_dim == 4,
            r.num_experts == 512,
            r.num_experts_per_tok == 10,
            r.moe_intermediate_size == 512,
            r.shared_expert_intermediate_size == 512,
            r.norm_topk_prob,
            r.decoder_sparse_step == 1,
            r.full_attention_interval == 4,
            r.sliding_window == 0,
            r.max_position_embeddings == 262144,
            r.rope_theta == 0x4163_12d0_0000_0000,
            r.rms_norm_eps == 0x3eb0_c6f7_a0b5_ed8d,
            r.bos_token_id == 151643,
            r.eos_token_id == 151645,
            !r.tie_word_embeddings,
            r.model_type@ == "qwen3_next"@,
            r.mtp_num_hidden_layers == 1,
            r.hybrid_override_pattern@ == Seq::<char>::empty(),
            r.mamba_num_heads == 0,
            r.mamba_head_dim == 0,
            r.ssm_state_size == 0,
            r.n_groups == 0,
            r.expand == 0,
            r.n_routed_experts == 0,
            r.norm_eps == 0,
            r.conv_kernel == 0,
            r.moe_shared_expert_intermediate_size == 0,
            r.first_k_dense_replace == 0,
            r.expert_swiglu_limit_list@ == Seq::<u32>::empty(),
            r.routed_scaling_factor == 0x3ff0_0000_0000_0000,
            r.n_group == 0,
            r.topk_group == 0,
            r.kda_lower_bound == 0,
            !r.ssm_per_channel_gates,
            !r.rope_interleave,
            r.moe_latent_size == 0,
            r.kv_lora_rank == 0,
            r.kv_layer_dims@ == Seq::<(usize, usize)>::empty(),
            r.q_lora_rank == 0,
            r.qk_nope_head_dim == 0,
            r.qk_rope_head_dim == 0,
            r.v_head_dim == 0,
            r.yarn_factor == 0,
            r.yarn_beta_slow == 0,
            r.yarn_beta_fast == 0,
            r.yarn_original_max_position_embeddings == 0,
            r.llama_4_scaling_beta == 0,
            r.llama_4_scaling_original_max_position_embeddings == 0,
            r.vision is None,
            r.quantization_config is None,
            r.attn_gated,
            !r.nested_config,
            r.mrope_section@ == seq![0usize, 0, 0],
            !r.mrope_interleaved,
            r.weight_prefix@ == Seq::<char>::empty(),
            r.ep_rank == 0,
            r.ep_world_size == 1,
            r.tp_rank == 0,
            r.tp_world_size == 1,
            r.fp8_kv_calibration_tokens == 0,
            r.final_logit_softcapping == 0,
            r.embed_scale == 0,
            r.scoring_func@ == Seq::<char>::empty(),
            !r.use_routing_bias,
            r.qk_norm_type@ == Seq::<char>::empty(),
            r.num_mtp_modules == 0,
            r.mtp_transformer_layers == 0,
            r.rotary_dim == 0,
            r.dflash_capture_layers@ == Seq::<usize>::empty(),
    {
        let types: Vec<LayerType> = group_layers(48, 4);
        ModelConfig {
            hidden_size: 2048,
            num_hidden_layers: 48,
            intermediate_size: 5120,
            vocab_size: 151936,
            num_attention_heads: 16,
            num_key_value_heads: 2,
            head_dim: 256,
            partial_rotary_factor: 0x3fd0_0000_0000_0000,
            linear_num_key_heads: 16,
            linear_key_head_dim: 128,
            linear_num_value_heads: 32,
            linear_value_head_dim: 128,
            linear_conv_kernel_dim: 4,
            num_experts: 512,
            num_experts_per_tok: 10,
            moe_intermediate_size: 512,
            shared_expert_intermediate_size: 512,
            norm_topk_prob: true,
            decoder_sparse_step: 1,
            layer_types: types,
            full_attention_interval: 4,
            sliding_window: 0,
            max_position_embeddings: 262144,
            rope_theta: 0x4163_12d0_0000_0000,
            rms_norm_eps: 0x3eb0_c6f7_a0b5_ed8d,
            bos_token_id: 151643,
            eos_token_id: 151645,
            tie_word_embeddings: false,
            model_type: "qwen3_next".to_owned(),
            mtp_num_hidden_layers: 1,
            hybrid_override_pattern: String::new(),
            mamba_num_heads: 0,
            mamba_head_dim: 0,
            ssm_state_size: 0,
            n_groups: 0,
            expand: 0,
            n_routed_experts: 0,
            norm_eps: 0,
            conv_kernel: 0,
            moe_shared_expert_intermediate_size: 0,
            first_k_dense_replace: 0,
            expert_swiglu_limit_list: Vec::new(),
            routed_scaling_factor: 0x3ff0_0000_0000_0000,
            n_group: 0,
            topk_group: 0,
            kda_lower_bound: 0,
            ssm_per_channel_gates: false,
            rope_interleave: false,
            moe_latent_size: 0,
            kv_lora_rank: 0,
            kv_layer_dims: Vec::new(),
            q_lora_rank: 0,
            qk_nope_head_dim: 0,
            qk_rope_head_dim: 0,
            v_head_dim: 0,
            yarn_factor: 0,
            yarn_beta_slow: 0,
            yarn_beta_fast: 0,
            yarn_original_max_position_embeddings: 0,
            llama_4_scaling_beta: 0,
            llama_4_scaling_original_max_position_embeddings: 0,
            vision: None,
            quantization_config: None,
            attn_gated: true,
            nested_config: false,
            mrope_section: [0, 0, 0],
            mrope_interleaved: false,
            weight_prefix: String::new(),
            ep_rank: 0,
            ep_world_size: 1,
            tp_rank: 0,
            tp_world_size: 1,
            fp8_kv_calibration_tokens: 0,
            final_logit_softcapping: 0,
            embed_scale: 0,
            scoring_func: String::new(),
            use_routing_bias: false,
            qk_norm_type: String::new(),
            num_mtp_modules: 0,
            mtp_transformer_layers: 0,
            rotary_dim: 0,
            dflash_capture_layers: Vec::new(),
        }
    }
}

} // verus!
