//! Which tensors of a checkpoint a layer computes with.

use crate::attention::meaning::best;
use crate::attention::mla_cache_skip::CacheSkipMlaArgs;
use crate::attention::mla_decode::DecodeMlaArgs;
use crate::attention::mla_paged::MlaPrefillArgs;
use crate::attention::types::{KvCacheDtype, Qwen3AttentionLayer};
use crate::config::ModelConfig;
use crate::context::ForwardContext;
use crate::gpu::{DenseWeight, DevicePtr, QuantizedWeight};
use crate::kernels::KernelTable;
use crate::meaning::{product, unary, Content, Rule, Weight};
use crate::mistral::{assembled, LayerParts, MistralLayerTensors};
use vstd::prelude::*;

verus! {

/// The form of a projection that is used: 4 bits where they are held and not
/// turned off, dense otherwise.
pub open spec fn chosen_form(
    off: bool,
    small: Option<QuantizedWeight>,
    dense: Option<DenseWeight>,
) -> Weight {
    if off {
        Weight::Dense(dense->0)
    } else {
        best(small, dense->0)
    }
}

impl MistralLayerTensors {
    /// A layer lacks nothing exactly when every dense tensor is there; 4-bit
    /// forms may be missing.
    pub proof fn lemma_complete(self)
        ensures
            self.missing() is None <==> {
                &&& self.wq_a_dense is Some && self.wkv_a_dense is Some && self.wq_b is Some
                &&& self.q_a_norm is Some && self.wkv_b is Some && self.kv_a_norm is Some
                &&& self.wkv_a_rope_dense is Some && self.o_dense_bf16 is Some
                &&& self.wq_b_rope is Some && self.w_uk_t is Some && self.w_uv is Some
                &&& self.w_qk_absorbed is Some && self.w_uk_block_diag is Some
                &&& self.w_uv_block_diag is Some
            },
    {
    }
}

/// A layer that was put together from the tensors of a checkpoint computes with
/// these: query, latent row, rope key, absorbed and extracted heads and output
/// each with the tensor of that name, at the widths of the checkpoint and with
/// its own place in the cache, scale and norms.
pub proof fn lemma_assembled_decode(
    layer: Qwen3AttentionLayer,
    t: MistralLayerTensors,
    i: usize,
    yarn: DevicePtr,
    off: bool,
    norms: (DenseWeight, DenseWeight),
    p: LayerParts,
    c: &ModelConfig,
    kv_dtype: KvCacheDtype,
    fp32_residual: bool,
    table: &KernelTable,
    cx: &ForwardContext,
    args: &DecodeMlaArgs,
    x: Content,
)
    requires
        assembled(layer, t, i, yarn, off, norms, p, c, kv_dtype, fp32_residual, table),
        t.q_lora as u32 != args.h,
        (t.q_a_norm->0).weight.0 != 0,
    ensures
        ({
            let d = layer.mla_decode(cx, args, table);
            let r = t.q_lora as u32;
            let q = product(x, chosen_form(off, t.wq_a_nvfp4, t.wq_a_dense), 1, r, args.h);
            let kv = product(
                x,
                chosen_form(off, t.wkv_a_nvfp4, t.wkv_a_dense),
                1,
                t.kv_lora as u32,
                args.h,
            );
            &&& d.query_of(x) == product(
                unary(Rule::Norm(t.q_a_norm->0, 1, r, args.eps), q),
                chosen_form(off, t.wq_b_nvfp4, t.wq_b),
                1,
                args.q_dim,
                r,
            )
            &&& d.latent_of(x) == unary(
                Rule::Norm(t.kv_a_norm->0, 1, t.kv_lora as u32, args.eps),
                kv,
            )
            &&& d.m.wkv_a_rope == t.wkv_a_rope_dense->0
            &&& d.m.w_uk_t == t.w_uk_t->0 && d.m.w_uv == t.w_uv->0
            &&& best(d.m.wo_nvfp4, d.m.wo) == chosen_form(off, t.o_nvfp4, t.o_dense_bf16)
            &&& d.m.g_proj.weight.0 == 0
            &&& d.m.yarn_inv_freq == yarn
            &&& d.nope() == t.nope as u32 && d.rope() == t.rope as u32
            &&& d.v_dim() == t.v_dim as u32 && d.kv_lora() == t.kv_lora as u32
            &&& d.layer == i
            &&& d.scale == p.attn_scale
            &&& d.a == *args && d.b == cx.buffers && d.theta == cx.rope_theta
            &&& cx.attn_metadata is Some ==> d.meta == cx.attn_metadata->0
            &&& d.profile == cx.profile && d.graph_capture == cx.graph_capture
            &&& layer.input_norm == norms.0 && layer.post_attn_norm == norms.1
        }),
{
}

/// A prompt goes through the same tensors, the same place in the cache and the
/// same buffers.
pub proof fn lemma_prefill_as_decode(
    layer: Qwen3AttentionLayer,
    cx: &ForwardContext,
    table: &KernelTable,
    args: &DecodeMlaArgs,
    skip: &CacheSkipMlaArgs,
    paged: &MlaPrefillArgs,
)
    ensures
        ({
            let d = layer.mla_decode(cx, args, table);
            let s = layer.mla_cache_skip(cx, skip, table);
            let p = layer.mla_paged(cx, paged);
            &&& s.k == d.k && s.lk == d.lk && s.m == d.m && s.b == d.b && s.meta == d.meta
            &&& s.layer == d.layer && s.theta == d.theta && s.graph_capture == d.graph_capture
            &&& p.k == d.k && p.m == d.m && p.b == d.b && p.meta == d.meta
            &&& p.layer == d.layer && p.theta == d.theta && p.graph_capture == d.graph_capture
            &&& s.a == *skip && p.a == *paged
            &&& args.default_scale == paged.default_scale ==> p.scale == d.scale
            &&& layer.sliding_window is None ==> p.window == 0
            &&& layer.sliding_window matches Some(w) ==> p.window == w
        }),
{
}

} // verus!
