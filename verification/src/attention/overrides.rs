//! Settings of a layer that depart from the model's.

use crate::attention::types::{MlaWeights, Qwen3AttentionLayer};
use crate::gpu::{DenseWeight, DevicePtr, KernelHandle};
use crate::kernels::{KernelTable, MissingKernel};
use crate::moe::FfnComponent;
use crate::plan::{Op, Step};
use vstd::prelude::*;

verus! {

impl Qwen3AttentionLayer {
    /// Makes the layer a latent-attention one. `scale` (f32 bits) is one over
    /// the root of the width of a query head, `nope + rope`.
    pub fn set_mla_weights(&mut self, mla: MlaWeights, scale: u32)
        ensures
            *final(self) == (Qwen3AttentionLayer {
                attn_scale_override: Some(scale),
                mla: Some(mla),
                ..*old(self)
            }),
    {
        self.attn_scale_override = Some(scale);
        self.mla = Some(mla);
    }

    /// The scale that came with the latent weights is the softmax scale, whatever
    /// the width of a head gives by itself.
    pub proof fn lemma_latent_scale(
        before: Qwen3AttentionLayer,
        after: Qwen3AttentionLayer,
        mla: MlaWeights,
        scale: u32,
        default_scale: u32,
    )
        requires
            after == (Qwen3AttentionLayer {
                attn_scale_override: Some(scale),
                mla: Some(mla),
                ..before
            }),
        ensures
            after.spec_attn_scale(default_scale) == scale,
    {
    }

    pub fn set_dimension_overrides(
        &mut self,
        head_dim: usize,
        num_q_heads: usize,
        num_kv_heads: usize,
    )
        ensures
            *final(self) == (Qwen3AttentionLayer {
                head_dim_override: Some(head_dim),
                num_q_heads_override: Some(num_q_heads),
                num_kv_heads_override: Some(num_kv_heads),
                ..*old(self)
            }),
    {
        self.head_dim_override = Some(head_dim);
        self.num_q_heads_override = Some(num_q_heads);
        self.num_kv_heads_override = Some(num_kv_heads);
    }

    pub fn set_sliding_window(&mut self, window: Option<u32>)
        ensures
            *final(self) == (Qwen3AttentionLayer { sliding_window: window, ..*old(self) }),
    {
        self.sliding_window = window;
    }

    /// `theta` is in f32 bits.
    pub fn set_rope_overrides(&mut self, theta: u32, rotary_dim: u32)
        ensures
            *final(self) == (Qwen3AttentionLayer {
                rope_theta_override: Some(theta),
                rotary_dim_override: Some(rotary_dim),
                ..*old(self)
            }),
    {
        self.rope_theta_override = Some(theta);
        self.rotary_dim_override = Some(rotary_dim);
    }

    pub fn set_rope_proportional(&mut self, enable: bool)
        ensures
            *final(self) == (Qwen3AttentionLayer { rope_proportional: enable, ..*old(self) }),
    {
        self.rope_proportional = enable;
    }

    /// `scale` is in f32 bits.
    pub fn set_attn_scale_override(&mut self, scale: u32)
        ensures
            *final(self) == (Qwen3AttentionLayer {
                attn_scale_override: Some(scale),
                ..*old(self)
            }),
    {
        self.attn_scale_override = Some(scale);
    }

    /// Values are the normalized keys.
    pub fn set_k_eq_v(&mut self, v_norm_weight: DenseWeight)
        ensures
            *final(self) == (Qwen3AttentionLayer {
                k_eq_v: true,
                v_norm_weight: Some(v_norm_weight),
                ..*old(self)
            }),
    {
        self.k_eq_v = true;
        self.v_norm_weight = Some(v_norm_weight);
    }

    pub fn set_v_norm(&mut self, v_norm_weight: DenseWeight)
        ensures
            *final(self) == (Qwen3AttentionLayer {
                v_norm_weight: Some(v_norm_weight),
                ..*old(self)
            }),
    {
        self.v_norm_weight = Some(v_norm_weight);
    }

    pub fn set_o_dense_bf16(&mut self, o_dense: DenseWeight)
        ensures
            *final(self) == (Qwen3AttentionLayer { o_dense_bf16: Some(o_dense), ..*old(self) }),
    {
        self.o_dense_bf16 = Some(o_dense);
    }

    pub fn set_post_sublayer_norms(
        &mut self,
        post_attn_out: DenseWeight,
        post_ffn_out: DenseWeight,
    )
        ensures
            *final(self) == (Qwen3AttentionLayer {
                post_attn_out_norm: Some(post_attn_out),
                post_ffn_out_norm: Some(post_ffn_out),
                ..*old(self)
            }),
    {
        self.post_attn_out_norm = Some(post_attn_out);
        self.post_ffn_out_norm = Some(post_ffn_out);
    }

    /// `scalar` is in f32 bits.
    pub fn set_layer_scalar(&mut self, scalar: u32)
        ensures
            *final(self) == (Qwen3AttentionLayer { layer_scalar: Some(scalar), ..*old(self) }),
    {
        self.layer_scalar = Some(scalar);
    }

    /// Adds a mixture-of-experts part beside the dense one.
    pub fn set_moe_ffn(
        &mut self,
        ffn: FfnComponent,
        pre_norm: DenseWeight,
        post_norm: DenseWeight,
        post_dense_norm: DenseWeight,
    )
        ensures
            *final(self) == (Qwen3AttentionLayer {
                moe_ffn: Some(ffn),
                pre_moe_norm: Some(pre_norm),
                post_moe_out_norm: Some(post_norm),
                post_dense_ffn_norm: Some(post_dense_norm),
                ..*old(self)
            }),
    {
        self.moe_ffn = Some(ffn);
        self.pre_moe_norm = Some(pre_norm);
        self.post_moe_out_norm = Some(post_norm);
        self.post_dense_ffn_norm = Some(post_dense_norm);
    }

    /// Plans the scaling of a row of the residual stream by the layer's scalar
    /// (f32 bits), with the kernel that fits the stream's precision.
    pub fn apply_layer_scalar(
        &self,
        table: &KernelTable,
        hidden: DevicePtr,
        hidden_size: usize,
        scalar: u32,
        stream: u64,
        fp32_residual: bool,
    ) -> (r: Result<Vec<Step>, MissingKernel>)
        ensures
            ({
                let f = if fp32_residual {
                    "f32_scale_inplace"@
                } else {
                    "bf16_scale_inplace"@
                };
                match r {
                    Ok(plan) => table.find("embed_scale"@, f) is Some && plan@ == seq![
                        Step::On(
                            stream,
                            Op::ScaleInplace(
                                table.handle("embed_scale"@, f),
                                hidden,
                                hidden_size as u32,
                                scalar,
                            ),
                        ),
                    ],
                    Err(e) => table.find("embed_scale"@, f) is None && e@ == ("embed_scale"@, f),
                }
            }),
    {
        let function: &'static str = if fp32_residual {
            "f32_scale_inplace"
        } else {
            "bf16_scale_inplace"
        };
        let k: KernelHandle = match table.kernel("embed_scale", function) {
            Some(k) => k,
            None => {
                return Err(MissingKernel { module: "embed_scale", function });
            },
        };
        let mut plan: Vec<Step> = Vec::new();
        plan.push(Step::On(stream, Op::ScaleInplace(k, hidden, hidden_size as u32, scalar)));
        Ok(plan)
    }
}

} // verus!
