//! Putting together a layer of a consolidated latent-attention checkpoint.

use crate::attention::init::{AttentionOptions, AttentionParts};
use crate::attention::types::{
    AttentionKernels, AttentionWeights, KvCacheDtype, MlaWeights, Qwen3AttentionLayer,
};
use crate::config::ModelConfig;
use crate::gpu::{f32_positive, is_f32_positive, DenseWeight, DevicePtr, QuantizedWeight, F32_ONE};
use crate::kernels::{KernelTable, MissingKernel};
use crate::moe::init::{MoeFlags, MoeResources};
use crate::moe::{FfnComponent, MoeKernels, MoeLayer, MoeWeights};
use crate::text::{
    chars_of, lower, lower_code, same, same_ignoring_case, trim, trimmed, write_size, written,
};
use vstd::prelude::*;
use vstd::string::StringExecFns;

verus! {

/// Bits of the single-precision number 32.
pub const F32_THIRTY_TWO: u32 = 0x4200_0000;

/// Context length that a scaled rotary base was trained for, unless the
/// configuration names another.
pub const DEFAULT_ORIGINAL_POSITIONS: usize = 8192;

/// What has been loaded of a layer.
#[derive(Clone, Copy, PartialEq, Eq, Structural, Debug)]
pub struct MistralLayerTensors {
    pub wq_a_dense: Option<DenseWeight>,
    pub wq_a_nvfp4: Option<QuantizedWeight>,
    pub wq_b: Option<DenseWeight>,
    pub wq_b_nvfp4: Option<QuantizedWeight>,
    pub q_a_norm: Option<DenseWeight>,
    pub wkv_a_dense: Option<DenseWeight>,
    pub wkv_a_nvfp4: Option<QuantizedWeight>,
    pub wkv_b: Option<DenseWeight>,
    pub kv_a_norm: Option<DenseWeight>,
    pub wkv_a_rope_dense: Option<DenseWeight>,
    pub o_dense_bf16: Option<DenseWeight>,
    pub o_nvfp4: Option<QuantizedWeight>,
    pub wq_b_rope: Option<DenseWeight>,
    pub w_uk_t: Option<DenseWeight>,
    pub w_uv: Option<DenseWeight>,
    pub w_qk_absorbed: Option<DenseWeight>,
    pub w_uk_block_diag: Option<DenseWeight>,
    pub w_uv_block_diag: Option<DenseWeight>,
    pub q_lora: usize,
    pub kv_lora: usize,
    pub nope: usize,
    pub rope: usize,
    pub v_dim: usize,
}

/// A required tensor that was not loaded.
#[derive(Clone, Copy, Debug)]
pub struct MissingTensor {
    pub layer: usize,
    pub name: &'static str,
}

/// Why a layer cannot be put together.
pub enum AssembleError {
    Tensor(MissingTensor),
    /// A norm of this layer is not in the checkpoint.
    Norm(LayerNorm, usize),
    Kernel(MissingKernel),
}

/// Whether a setting turns 4-bit projections off: `0`, `false`, `no` or `off`,
/// in any case and with white space around it.
pub open spec fn turned_off(setting: Option<&str>) -> bool {
    match setting {
        Some(s) => {
            let t = trimmed(s@);
            same_ignoring_case(t, "0"@) || same_ignoring_case(t, "false"@) || same_ignoring_case(
                t,
                "no"@,
            ) || same_ignoring_case(t, "off"@)
        },
        None => false,
    }
}

/// Whether `s[a..b]` is `word` but for the case of letters.
fn part_is(s: &[char], a: usize, b: usize, word: &str) -> (r: bool)
    requires
        a <= b <= s.len(),
    ensures
        r == same_ignoring_case(s@.subrange(a as int, b as int), word@),
{
    let ghost part = s@.subrange(a as int, b as int);
    let w: Vec<char> = chars_of(word);
    if w.len() != b - a {
        return false;
    }
    let mut i: usize = 0;
    while i < w.len()
        invariant
            i <= w@.len(),
            w@ == word@,
            w@.len() == b - a,
            a <= b <= s@.len(),
            part == s@.subrange(a as int, b as int),
            forall|j: int| 0 <= j < i ==> lower(#[trigger] part[j]) == lower(word@[j]),
        decreases w@.len() - i,
    {
        if lower_code(s[a + i]) != lower_code(w[i]) {
            proof {
                assert(lower(part[i as int]) != lower(word@[i as int]));
            }
            return false;
        }
        proof {
            assert(part[i as int] == s@[a + i]);
        }
        i = i + 1;
    }
    true
}

pub fn is_turned_off(setting: Option<&str>) -> (r: bool)
    ensures
        r == turned_off(setting),
{
    match setting {
        Some(s) => {
            let c: Vec<char> = chars_of(s);
            proof {
                assert(c@.subrange(0, c@.len() as int) =~= s@);
            }
            let (a, b): (usize, usize) = trim(c.as_slice(), 0, c.len());
            part_is(c.as_slice(), a, b, "0") || part_is(c.as_slice(), a, b, "false") || part_is(
                c.as_slice(),
                a,
                b,
                "no",
            ) || part_is(c.as_slice(), a, b, "off")
        },
        None => false,
    }
}

/// The first missing tensor after one more is required.
pub open spec fn require_tensor(
    missing: Option<Seq<char>>,
    w: Option<DenseWeight>,
    name: Seq<char>,
) -> Option<Seq<char>> {
    if missing is None && w is None {
        Some(name)
    } else {
        missing
    }
}

impl MistralLayerTensors {
    /// The first required tensor that is missing.
    pub open spec fn missing(self) -> Option<Seq<char>> {
        let e = None;
        let e = require_tensor(e, self.wq_a_dense, "wq_a_dense"@);
        let e = require_tensor(e, self.wkv_a_dense, "wkv_a_dense"@);
        let e = require_tensor(e, self.wq_b, "wq_b"@);
        let e = require_tensor(e, self.q_a_norm, "q_a_norm"@);
        let e = require_tensor(e, self.wkv_b, "wkv_b"@);
        let e = require_tensor(e, self.kv_a_norm, "kv_a_norm"@);
        let e = require_tensor(e, self.wkv_a_rope_dense, "wkv_a_rope_dense"@);
        let e = require_tensor(e, self.o_dense_bf16, "o_dense_bf16"@);
        let e = require_tensor(e, self.wq_b_rope, "wq_b_rope"@);
        let e = require_tensor(e, self.w_uk_t, "w_uk_t"@);
        let e = require_tensor(e, self.w_uv, "w_uv"@);
        let e = require_tensor(e, self.w_qk_absorbed, "w_qk_absorbed"@);
        let e = require_tensor(e, self.w_uk_block_diag, "w_uk_block_diag"@);
        require_tensor(e, self.w_uv_block_diag, "w_uv_block_diag"@)
    }

    /// The weights of the layer: 4-bit forms unless they are turned off, and no
    /// head gate.
    pub open spec fn mla_weights(self, yarn_inv_freq: DevicePtr, off: bool) -> MlaWeights {
        MlaWeights {
            wq_a: self.wq_a_dense->0,
            wq_a_nvfp4: if off {
                None
            } else {
                self.wq_a_nvfp4
            },
            wq_b: self.wq_b->0,
            wq_b_nvfp4: if off {
                None
            } else {
                self.wq_b_nvfp4
            },
            q_a_norm: self.q_a_norm->0,
            wkv_a: self.wkv_a_dense->0,
            wkv_a_nvfp4: if off {
                None
            } else {
                self.wkv_a_nvfp4
            },
            wkv_b: self.wkv_b->0,
            kv_a_norm: self.kv_a_norm->0,
            wkv_a_rope: self.wkv_a_rope_dense->0,
            wkv_a_merged: self.wkv_a_dense->0,
            wo: self.o_dense_bf16->0,
            wo_nvfp4: if off {
                None
            } else {
                self.o_nvfp4
            },
            w_uk_t: self.w_uk_t->0,
            w_uv: self.w_uv->0,
            wq_b_rope: self.wq_b_rope->0,
            w_qk_absorbed: self.w_qk_absorbed->0,
            w_uk_block_diag: self.w_uk_block_diag->0,
            w_uv_block_diag: self.w_uv_block_diag->0,
            yarn_inv_freq,
            g_proj: DenseWeight { weight: DevicePtr(0) },
            q_lora_rank: self.q_lora,
            kv_lora_rank: self.kv_lora,
            nope: self.nope,
            rope: self.rope,
            v_dim: self.v_dim,
        }
    }

    fn take(
        missing: &mut Option<&'static str>,
        w: Option<DenseWeight>,
        name: &'static str,
    ) -> (r: DenseWeight)
        ensures
            w is Some ==> r == w->0,
            (match *final(missing) {
                Some(m) => Some(m@),
                None => None,
            }) == require_tensor(
                match *old(missing) {
                    Some(m) => Some(m@),
                    None => None,
                },
                w,
                name@,
            ),
    {
        match w {
            Some(x) => x,
            None => {
                if missing.is_none() {
                    *missing = Some(name);
                }
                DenseWeight { weight: DevicePtr(0) }
            },
        }
    }

    /// Collects the weights of layer `layer`.
    pub fn collect(
        self,
        layer: usize,
        yarn_inv_freq: DevicePtr,
        nvfp4_setting: Option<&str>,
    ) -> (r: Result<MlaWeights, MissingTensor>)
        ensures
            match r {
                Ok(w) => self.missing() is None && w == self.mla_weights(
                    yarn_inv_freq,
                    turned_off(nvfp4_setting),
                ),
                Err(e) => self.missing() == Some(e.name@) && e.layer == layer,
            },
    {
        let off: bool = is_turned_off(nvfp4_setting);
        let mut m: Option<&'static str> = None;
        let wq_a: DenseWeight = Self::take(&mut m, self.wq_a_dense, "wq_a_dense");
        let wkv_a: DenseWeight = Self::take(&mut m, self.wkv_a_dense, "wkv_a_dense");
        let wq_b: DenseWeight = Self::take(&mut m, self.wq_b, "wq_b");
        let q_a_norm: DenseWeight = Self::take(&mut m, self.q_a_norm, "q_a_norm");
        let wkv_b: DenseWeight = Self::take(&mut m, self.wkv_b, "wkv_b");
        let kv_a_norm: DenseWeight = Self::take(&mut m, self.kv_a_norm, "kv_a_norm");
        let wkv_a_rope: DenseWeight = Self::take(
            &mut m,
            self.wkv_a_rope_dense,
            "wkv_a_rope_dense",
        );
        let wo: DenseWeight = Self::take(&mut m, self.o_dense_bf16, "o_dense_bf16");
        let wq_b_rope: DenseWeight = Self::take(&mut m, self.wq_b_rope, "wq_b_rope");
        let w_uk_t: DenseWeight = Self::take(&mut m, self.w_uk_t, "w_uk_t");
        let w_uv: DenseWeight = Self::take(&mut m, self.w_uv, "w_uv");
        let w_qk_absorbed: DenseWeight = Self::take(&mut m, self.w_qk_absorbed, "w_qk_absorbed");
        let w_uk_block_diag: DenseWeight = Self::take(
            &mut m,
            self.w_uk_block_diag,
            "w_uk_block_diag",
        );
        let w_uv_block_diag: DenseWeight = Self::take(
            &mut m,
            self.w_uv_block_diag,
            "w_uv_block_diag",
        );
        match m {
            Some(name) => {
                return Err(MissingTensor { layer, name });
            },
            None => {},
        }
        Ok(
            MlaWeights {
                wq_a,
                wq_a_nvfp4: if off {
                    None
                } else {
                    self.wq_a_nvfp4
                },
                wq_b,
                wq_b_nvfp4: if off {
                    None
                } else {
                    self.wq_b_nvfp4
                },
                q_a_norm,
                wkv_a,
                wkv_a_nvfp4: if off {
                    None
                } else {
                    self.wkv_a_nvfp4
                },
                wkv_b,
                kv_a_norm,
                wkv_a_rope,
                wkv_a_merged: wkv_a,
                wo,
                wo_nvfp4: if off {
                    None
                } else {
                    self.o_nvfp4
                },
                w_uk_t,
                w_uv,
                wq_b_rope,
                w_qk_absorbed,
                w_uk_block_diag,
                w_uv_block_diag,
                yarn_inv_freq,
                g_proj: DenseWeight { weight: DevicePtr(0) },
                q_lora_rank: self.q_lora,
                kv_lora_rank: self.kv_lora,
                nope: self.nope,
                rope: self.rope,
                v_dim: self.v_dim,
            },
        )
    }
}

/// Cache format of a layer; layers without one of their own use FP8.
pub open spec fn layer_dtype(dtypes: Seq<KvCacheDtype>, i: int) -> KvCacheDtype {
    if i < dtypes.len() {
        dtypes[i]
    } else {
        KvCacheDtype::Fp8
    }
}

/// Stand-ins for the standard projections, which latent attention never reads.
pub open spec fn placeholder_attention() -> AttentionWeights {
    let none = DenseWeight { weight: DevicePtr(0) };
    AttentionWeights {
        q_proj: none,
        k_proj: none,
        v_proj: none,
        o_proj: QuantizedWeight::spec_null(),
        q_norm: none,
        k_norm: none,
        q_norm_full: None,
        k_norm_full: None,
        k_scale: F32_ONE,
        v_scale: F32_ONE,
    }
}

/// A tensor of the checkpoint on the device.
pub struct StoredTensor {
    pub name: String,
    pub weight: DevicePtr,
}

/// The first of the first `n` tensors with this name.
pub open spec fn stored_in(store: Seq<StoredTensor>, name: Seq<char>, n: nat) -> Option<DenseWeight>
    decreases n,
{
    if n == 0 {
        None
    } else if stored_in(store, name, (n - 1) as nat) is Some {
        stored_in(store, name, (n - 1) as nat)
    } else if store[n - 1].name@ == name {
        Some(DenseWeight { weight: store[n - 1].weight })
    } else {
        None
    }
}

/// The tensor with this name.
pub open spec fn stored(store: Seq<StoredTensor>, name: Seq<char>) -> Option<DenseWeight> {
    stored_in(store, name, store.len())
}

proof fn lemma_stored_stays(store: Seq<StoredTensor>, name: Seq<char>, a: nat, b: nat)
    requires
        a <= b,
        stored_in(store, name, a) is Some,
    ensures
        stored_in(store, name, b) == stored_in(store, name, a),
    decreases b,
{
    if a < b {
        lemma_stored_stays(store, name, a, (b - 1) as nat);
    }
}

/// Looks a tensor up by its name.
pub fn find_stored(store: &[StoredTensor], name: &str) -> (r: Option<DenseWeight>)
    ensures
        r == stored(store@, name@),
{
    let mut i: usize = 0;
    while i < store.len()
        invariant
            i <= store@.len(),
            stored_in(store@, name@, i as nat) is None,
        decreases store@.len() - i,
    {
        if same(store[i].name.as_str(), name) {
            proof {
                lemma_stored_stays(store@, name@, (i + 1) as nat, store@.len());
            }
            return Some(DenseWeight { weight: store[i].weight });
        }
        i = i + 1;
    }
    None
}

/// One of a layer's two norms.
#[derive(Clone, Copy, PartialEq, Eq, Structural, Debug)]
pub enum LayerNorm {
    /// In front of attention.
    Attention,
    /// In front of the feed-forward part.
    FeedForward,
}

impl LayerNorm {
    /// Name of the norm's tensor in layer `i`.
    pub open spec fn tensor(self, i: usize) -> Seq<char> {
        "layers."@ + written(i as nat) + (match self {
            LayerNorm::Attention => ".attention_norm.weight"@,
            LayerNorm::FeedForward => ".ffn_norm.weight"@,
        })
    }

    pub fn tensor_name(self, i: usize) -> (r: String)
        ensures
            r@ == self.tensor(i),
    {
        let mut name: String = "layers.".to_owned();
        name.append(write_size(i).as_str());
        match self {
            LayerNorm::Attention => name.append(".attention_norm.weight"),
            LayerNorm::FeedForward => name.append(".ffn_norm.weight"),
        }
        name
    }
}

/// Options and parts of a layer besides its tensors.
pub struct LayerParts {
    pub ffn: FfnComponent,
    /// One over the root of `nope + rope`, f32 bits.
    pub attn_scale: u32,
}

/// What `assemble_layer` makes.
pub open spec fn assembled(
    l: Qwen3AttentionLayer,
    t: MistralLayerTensors,
    i: usize,
    yarn_inv_freq: DevicePtr,
    off: bool,
    norms: (DenseWeight, DenseWeight),
    p: LayerParts,
    c: &ModelConfig,
    kv_dtype: KvCacheDtype,
    fp32_residual: bool,
    table: &KernelTable,
) -> bool {
    let o = AttentionOptions::spec_of(c, kv_dtype, fp32_residual);
    let bare = (Qwen3AttentionLayer { attn_scale_override: None, mla: None, ..l });
    &&& l.k == AttentionKernels::of(table, o)
    &&& l.mla == Some(t.mla_weights(yarn_inv_freq, off))
    &&& l.attn_scale_override == Some(p.attn_scale)
    &&& bare.fresh(
        AttentionParts {
            input_norm: norms.0,
            attn: placeholder_attention(),
            post_attn_norm: norms.1,
            ffn: p.ffn,
            attn_layer_idx: i,
            q_nvfp4: None,
            k_nvfp4: None,
            v_nvfp4: None,
            fp8_calibration_tokens: 0,
        },
        false,
        c,
        kv_dtype,
    )
}

/// The first of a layer's norms that the checkpoint lacks.
pub open spec fn missing_norm(store: Seq<StoredTensor>, i: usize) -> Option<LayerNorm> {
    if stored(store, LayerNorm::Attention.tensor(i)) is None {
        Some(LayerNorm::Attention)
    } else if stored(store, LayerNorm::FeedForward.tensor(i)) is None {
        Some(LayerNorm::FeedForward)
    } else {
        None
    }
}

/// Puts layer `i` together: latent attention without an output gate, in the
/// cache format of the layer, with the layer's norms from the checkpoint.
/// Missing tensors are reported before missing norms, and these before missing
/// kernels.
pub fn assemble_layer(
    t: MistralLayerTensors,
    i: usize,
    store: &[StoredTensor],
    yarn_inv_freq: DevicePtr,
    nvfp4_setting: Option<&str>,
    p: LayerParts,
    dtypes: &[KvCacheDtype],
    c: &ModelConfig,
    fp32_residual: bool,
    table: &KernelTable,
) -> (r: Result<Qwen3AttentionLayer, AssembleError>)
    ensures
        ({
            let kv_dtype = layer_dtype(dtypes@, i as int);
            let o = AttentionOptions::spec_of(c, kv_dtype, fp32_residual);
            match r {
                Ok(l) => {
                    &&& t.missing() is None
                    &&& missing_norm(store@, i) is None
                    &&& AttentionKernels::missing(table, o) is None
                    &&& assembled(
                        l,
                        t,
                        i,
                        yarn_inv_freq,
                        turned_off(nvfp4_setting),
                        (
                            stored(store@, LayerNorm::Attention.tensor(i))->0,
                            stored(store@, LayerNorm::FeedForward.tensor(i))->0,
                        ),
                        p,
                        c,
                        kv_dtype,
                        fp32_residual,
                        table,
                    )
                },
                Err(AssembleError::Tensor(e)) => t.missing() == Some(e.name@) && e.layer == i,
                Err(AssembleError::Norm(n, at)) => {
                    &&& t.missing() is None
                    &&& missing_norm(store@, i) == Some(n)
                    &&& at == i
                },
                Err(AssembleError::Kernel(e)) => {
                    &&& t.missing() is None
                    &&& missing_norm(store@, i) is None
                    &&& AttentionKernels::missing(table, o) == Some(e@)
                },
            }
        }),
{
    let mla: MlaWeights = match t.collect(i, yarn_inv_freq, nvfp4_setting) {
        Ok(w) => w,
        Err(e) => {
            return Err(AssembleError::Tensor(e));
        },
    };
    let name: String = LayerNorm::Attention.tensor_name(i);
    let input_norm: DenseWeight = match find_stored(store, name.as_str()) {
        Some(w) => w,
        None => {
            return Err(AssembleError::Norm(LayerNorm::Attention, i));
        },
    };
    let name: String = LayerNorm::FeedForward.tensor_name(i);
    let post_attn_norm: DenseWeight = match find_stored(store, name.as_str()) {
        Some(w) => w,
        None => {
            return Err(AssembleError::Norm(LayerNorm::FeedForward, i));
        },
    };
    let kv_dtype: KvCacheDtype = if i < dtypes.len() {
        dtypes[i]
    } else {
        KvCacheDtype::Fp8
    };
    let none = DenseWeight { weight: DevicePtr(0) };
    let attn = AttentionWeights {
        q_proj: none,
        k_proj: none,
        v_proj: none,
        o_proj: QuantizedWeight::null(),
        q_norm: none,
        k_norm: none,
        q_norm_full: None,
        k_norm_full: None,
        k_scale: F32_ONE,
        v_scale: F32_ONE,
    };
    let scale: u32 = p.attn_scale;
    let parts = AttentionParts {
        input_norm,
        attn,
        post_attn_norm,
        ffn: p.ffn,
        attn_layer_idx: i,
        q_nvfp4: None,
        k_nvfp4: None,
        v_nvfp4: None,
        fp8_calibration_tokens: 0,
    };
    match Qwen3AttentionLayer::new_ungated(parts, c, kv_dtype, fp32_residual, table) {
        Ok(l) => {
            let mut layer: Qwen3AttentionLayer = l;
            layer.set_mla_weights(mla, scale);
            Ok(layer)
        },
        Err(e) => Err(AssembleError::Kernel(e)),
    }
}

/// Chooses the feed-forward part of a layer: experts when the model has some,
/// they were loaded and the layer can be set up, nothing otherwise. The flag
/// says whether the experts are to be transposed for prefill, which is done
/// where they are spread over several ranks.
pub fn build_moe_ffn(
    num_experts: usize,
    num_experts_per_tok: usize,
    ep_world_size: usize,
    loaded: Option<MoeWeights>,
    res: MoeResources,
    flags: MoeFlags,
    table: &KernelTable,
    fp32_residual: bool,
) -> (r: (FfnComponent, bool))
    ensures
        if num_experts > 0 && loaded is Some && MoeLayer::selectable(
            num_experts_per_tok,
            num_experts,
        ) && MoeKernels::missing(table, fp32_residual) is None {
            &&& r.0 is Moe
            &&& r.0->0.k == MoeKernels::of(table, fp32_residual)
            &&& r.0->0.fresh(loaded->0, None, res, flags, 0)
            &&& r.1 == (ep_world_size > 1)
        } else {
            r.0 is Empty && !r.1
        },
{
    if num_experts == 0 {
        return (FfnComponent::Empty, false);
    }
    match loaded {
        Some(w) => match MoeLayer::new(
            w,
            num_experts,
            num_experts_per_tok,
            None,
            res,
            flags,
            table,
            fp32_residual,
            0,
        ) {
            Ok(l) => (FfnComponent::Moe(Box::new(l)), ep_world_size > 1),
            Err(_) => (FfnComponent::Empty, false),
        },
        None => (FfnComponent::Empty, false),
    }
}

/// What the table of rotary frequencies is computed from. Numbers are f32 bits.
#[derive(Clone, Copy, PartialEq, Eq, Structural, Debug)]
pub struct YarnParameters {
    pub factor: u32,
    pub beta_fast: u32,
    pub beta_slow: u32,
    pub original_positions: usize,
    /// Entries of the table.
    pub pairs: usize,
}

/// Picks the parameters: where the configuration has no positive value, a
/// factor of one, cutoffs of 32 and 1 rotations, and a context of 8192.
pub fn yarn_parameters(c: &ModelConfig, rope: usize) -> (r: YarnParameters)
    ensures
        r == (YarnParameters {
            factor: if f32_positive(c.yarn_factor) {
                c.yarn_factor
            } else {
                F32_ONE
            },
            beta_fast: if f32_positive(c.yarn_beta_fast) {
                c.yarn_beta_fast
            } else {
                F32_THIRTY_TWO
            },
            beta_slow: if f32_positive(c.yarn_beta_slow) {
                c.yarn_beta_slow
            } else {
                F32_ONE
            },
            original_positions: if c.yarn_original_max_position_embeddings > 0 {
                c.yarn_original_max_position_embeddings
            } else {
                DEFAULT_ORIGINAL_POSITIONS
            },
            pairs: (rope / 2) as usize,
        }),
{
    YarnParameters {
        factor: if is_f32_positive(c.yarn_factor) {
            c.yarn_factor
        } else {
            F32_ONE
        },
        beta_fast: if is_f32_positive(c.yarn_beta_fast) {
            c.yarn_beta_fast
        } else {
            F32_THIRTY_TWO
        },
        beta_slow: if is_f32_positive(c.yarn_beta_slow) {
            c.yarn_beta_slow
        } else {
            F32_ONE
        },
        original_positions: if c.yarn_original_max_position_embeddings > 0 {
            c.yarn_original_max_position_embeddings
        } else {
            DEFAULT_ORIGINAL_POSITIONS
        },
        pairs: rope / 2,
    }
}

} // verus!
