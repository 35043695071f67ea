//! Sequences, logits and the other small services of a model.

use crate::bytes::{decode_le32, encode_le64, from_le32, le32_list, le64_all, read_le32};
use crate::config::layers::layers_of;
use crate::config::LayerType;
use crate::gpu::{DevicePtr, KernelHandle};
use crate::model::sequence::{LayerState, SequenceState, SsmLayerState};
use crate::model::TransformerModel;
use crate::num::{lemma_span_mono, span};
use crate::plan::{Op, Program, ProgramView, Step};
use vstd::prelude::*;

verus! {

/// Extents of the swap area of a model.
#[derive(Clone, Copy, PartialEq, Eq, Structural, Debug)]
pub struct ModelDims {
    pub num_layers: u32,
    pub max_blocks_per_layer: u32,
    pub num_q_heads: u16,
    pub num_kv_heads: u16,
    pub head_dim: u16,
    pub block_size: u16,
}

/// Addresses of one linear-attention layer's states in a claimed slot.
pub struct PoolLayer {
    pub h_state: DevicePtr,
    pub conv_state: DevicePtr,
    pub h_checkpoint: DevicePtr,
    pub conv_checkpoint: DevicePtr,
    pub h_intermediates: Vec<DevicePtr>,
    pub conv_intermediates: Vec<DevicePtr>,
}

impl TransformerModel {
    pub fn vocab_size_dispatch(&self) -> (r: usize)
        ensures
            r == self.config.vocab_size,
    {
        self.config.vocab_size
    }

    pub fn high_speed_swap_dims_dispatch(&self) -> (r: Option<ModelDims>)
        ensures
            r == Some(
                ModelDims {
                    num_layers: self.config.num_hidden_layers as u32,
                    max_blocks_per_layer: self.max_blocks_per_seq,
                    num_q_heads: self.config.num_attention_heads as u16,
                    num_kv_heads: self.config.num_key_value_heads as u16,
                    head_dim: self.config.head_dim as u16,
                    block_size: self.block_size as u16,
                },
            ),
    {
        Some(
            ModelDims {
                num_layers: self.config.num_hidden_layers as u32,
                max_blocks_per_layer: self.max_blocks_per_seq,
                num_q_heads: self.config.num_attention_heads as u16,
                num_kv_heads: self.config.num_key_value_heads as u16,
                head_dim: self.config.head_dim as u16,
                block_size: self.block_size as u16,
            },
        )
    }

    /// The addresses of a list of device buffers.
    pub open spec fn addresses(ptrs: Seq<DevicePtr>) -> Seq<u64> {
        ptrs.map_values(|p: DevicePtr| p.0)
    }

    /// Uploads the state addresses and launches the normalization; nothing when
    /// there are no such states or no kernel for it.
    pub open spec fn normalize_program(
        &self, h_states: Seq<DevicePtr>, stream: u64,
    ) -> ProgramView {
        if self.num_ssm_layers == 0 || self.k.ssm_state_norm.0 == 0 {
            ProgramView::empty()
        } else {
            ProgramView::empty().upload(
                stream,
                le64_all(Self::addresses(h_states)),
                self.ssm_norm_ptrs_buf,
            ).run(
                stream,
                Op::SsmStateNorm(
                    self.k.ssm_state_norm,
                    self.ssm_norm_ptrs_buf,
                    self.ssm_norm_dims.0 as u32,
                    self.num_ssm_layers as u32,
                    self.ssm_norm_dims.1 as u32,
                    self.ssm_norm_dims.2 as u32,
                ),
            )
        }
    }

    /// Plans the normalization of the recurrent states of a slot. `h_states`
    /// are their addresses, one per linear-attention layer.
    pub fn normalize_ssm_states_dispatch(&self, h_states: &[DevicePtr], stream: u64) -> (r: Program)
        requires
            h_states.len() == self.num_ssm_layers,
        ensures
            r@ == self.normalize_program(h_states@, stream),
    {
        let mut program: Program = Program::new();
        if self.num_ssm_layers == 0 || self.k.ssm_state_norm.0 == 0 {
            return program;
        }
        let mut ptrs: Vec<u64> = Vec::new();
        let mut i: usize = 0;
        while i < h_states.len()
            invariant
                i <= h_states@.len(),
                ptrs@ == Self::addresses(h_states@.take(i as int)),
            decreases h_states@.len() - i,
        {
            ptrs.push(h_states[i].0);
            i = i + 1;
            proof {
                assert(ptrs@ =~= Self::addresses(h_states@.take(i as int)));
            }
        }
        proof {
            assert(h_states@.take(i as int) =~= h_states@);
        }
        let bytes: Vec<u8> = encode_le64(ptrs.as_slice());
        program.upload(stream, bytes.as_slice(), self.ssm_norm_ptrs_buf);
        program.run(
            stream,
            Op::SsmStateNorm(
                self.k.ssm_state_norm,
                self.ssm_norm_ptrs_buf,
                self.ssm_norm_dims.0 as u32,
                self.num_ssm_layers as u32,
                self.ssm_norm_dims.1 as u32,
                self.ssm_norm_dims.2 as u32,
            ),
        );
        program
    }

    pub fn bind_gpu_to_thread_dispatch(&self) -> (r: Vec<Step>)
        ensures
            r@ == seq![Step::On(self.default_stream, Op::BindThread)],
    {
        let mut plan: Vec<Step> = Vec::new();
        plan.push(Step::On(self.default_stream, Op::BindThread));
        plan
    }

    /// Linear-attention layers among the first `n`.
    pub open spec fn linear_before(&self, n: nat) -> nat
        decreases n,
    {
        if n == 0 {
            0
        } else {
            self.linear_before((n - 1) as nat) + (if self.layers@[n - 1].kind
                == LayerType::LinearAttention {
                1nat
            } else {
                0
            })
        }
    }

    /// Later layers have no fewer linear-attention layers before them.
    pub proof fn lemma_linear_mono(&self, a: nat, b: nat)
        requires
            a <= b,
        ensures
            self.linear_before(a) <= self.linear_before(b),
        decreases b,
    {
        if a < b {
            self.lemma_linear_mono(a, (b - 1) as nat);
        }
    }

    /// Whether `state` is the fresh state of layer `i`: linear-attention layers
    /// get the next states of the pool, with checkpoints and intermediates only
    /// where tokens are drafted.
    pub open spec fn fresh_state(&self, state: LayerState, pool: Seq<PoolLayer>, i: int) -> bool {
        if self.layers@[i].kind != LayerType::LinearAttention {
            state is Cached
        } else {
            let p = pool[self.linear_before(i as nat) as int];
            let drafts = self.has_proposer || self.self_speculative;
            &&& state is Recurrent
            &&& state->0.h_state == p.h_state
            &&& state->0.conv_state == p.conv_state
            &&& state->0.h_state_checkpoint == (if drafts {
                Some(p.h_checkpoint)
            } else {
                None
            })
            &&& state->0.conv_state_checkpoint == (if drafts {
                Some(p.conv_checkpoint)
            } else {
                None
            })
            &&& state->0.h_state_intermediates@ == (if drafts {
                p.h_intermediates@
            } else {
                Seq::empty()
            })
            &&& state->0.conv_state_intermediates@ == (if drafts {
                p.conv_intermediates@
            } else {
                Seq::empty()
            })
        }
    }

    /// Sets up a sequence in a claimed slot. The states are zeroed before they
    /// are handed out and reset after, each time with a wait. Attention layers
    /// keep nothing of their own. Every attention layer of the configuration can
    /// offload cache blocks, and has offloaded none.
    pub fn alloc_sequence_dispatch(
        &self,
        slot: usize,
        pool: &[PoolLayer],
    ) -> (r: (Vec<Step>, SequenceState))
        requires
            self.config.layer_types@.len() > 0 || self.config.full_attention_interval > 0,
            pool.len() >= self.linear_before(self.layers@.len()),
        ensures
            r.0@ == seq![
                Step::On(self.default_stream, Op::ZeroSlot(slot)),
                Step::On(self.default_stream, Op::Synchronize),
                Step::On(self.default_stream, Op::ResetSlot(slot)),
                Step::On(self.default_stream, Op::Synchronize),
            ],
            r.1.tokens@ == Seq::<u32>::empty(),
            r.1.block_table@ == Seq::<u32>::empty(),
            r.1.hss_window_start == 0,
            r.1.seq_len == 0,
            r.1.layer_states@.len() == self.layers@.len(),
            forall|i: int|
                0 <= i < self.layers@.len() ==> #[trigger] self.fresh_state(
                    r.1.layer_states@[i],
                    pool@,
                    i,
                ),
            r.1.slot_idx == slot,
            r.1.marconi_skip_to == 0,
            r.1.session_hash == 0,
            r.1.chunked_prefill_meta is None,
            r.1.cached_prefix_tokens == 0,
            r.1.prompt_len == 0,
            r.1.disk_block_ids@ == Seq::<u32>::empty(),
            r.1.disk_last_offloaded_per_layer@ == Seq::new(
                layers_of(self.config.layer_kinds(), LayerType::FullAttention),
                |i: int| 0usize,
            ),
    {
        let drafts: bool = self.has_proposer || self.self_speculative;
        let mut states: Vec<LayerState> = Vec::new();
        let mut next: usize = 0;
        let mut i: usize = 0;
        while i < self.layers.len()
            invariant
                i <= self.layers@.len(),
                next == self.linear_before(i as nat),
                pool@.len() >= self.linear_before(self.layers@.len()),
                drafts == (self.has_proposer || self.self_speculative),
                states@.len() == i,
                forall|j: int| 0 <= j < i ==> #[trigger] self.fresh_state(states@[j], pool@, j),
            decreases self.layers@.len() - i,
        {
            proof {
                self.lemma_linear_mono((i + 1) as nat, self.layers@.len());
            }
            let ghost before = states@;
            if self.layers[i].kind == LayerType::LinearAttention {
                let p: &PoolLayer = &pool[next];
                let mut h: Vec<DevicePtr> = Vec::new();
                let mut conv: Vec<DevicePtr> = Vec::new();
                if drafts {
                    h.extend_from_slice(p.h_intermediates.as_slice());
                    conv.extend_from_slice(p.conv_intermediates.as_slice());
                    proof {
                        assert(h@ =~= p.h_intermediates@);
                        assert(conv@ =~= p.conv_intermediates@);
                    }
                }
                let state = SsmLayerState {
                    h_state: p.h_state,
                    conv_state: p.conv_state,
                    h_state_checkpoint: if drafts {
                        Some(p.h_checkpoint)
                    } else {
                        None
                    },
                    conv_state_checkpoint: if drafts {
                        Some(p.conv_checkpoint)
                    } else {
                        None
                    },
                    h_state_intermediates: h,
                    conv_state_intermediates: conv,
                };
                states.push(LayerState::Recurrent(state));
                next = next + 1;
            } else {
                states.push(LayerState::Cached);
            }
            proof {
                assert forall|j: int| 0 <= j < i + 1 implies #[trigger] self.fresh_state(
                    states@[j],
                    pool@,
                    j,
                ) by {
                    if j < i {
                        assert(states@[j] == before[j]);
                        assert(self.fresh_state(before[j], pool@, j));
                    }
                }
            }
            i = i + 1;
        }
        let attention_layers: usize = self.config.num_attention_layers();
        let mut offloaded: Vec<usize> = Vec::new();
        let mut a: usize = 0;
        while a < attention_layers
            invariant
                a <= attention_layers,
                offloaded@ == Seq::new(a as nat, |k: int| 0usize),
            decreases attention_layers - a,
        {
            offloaded.push(0);
            a = a + 1;
            proof {
                assert(offloaded@ =~= Seq::new(a as nat, |k: int| 0usize));
            }
        }
        let st: u64 = self.default_stream;
        let mut plan: Vec<Step> = Vec::new();
        plan.push(Step::On(st, Op::ZeroSlot(slot)));
        plan.push(Step::On(st, Op::Synchronize));
        plan.push(Step::On(st, Op::ResetSlot(slot)));
        plan.push(Step::On(st, Op::Synchronize));
        (
            plan,
            SequenceState {
                tokens: Vec::new(),
                block_table: Vec::new(),
                hss_window_start: 0,
                seq_len: 0,
                layer_states: states,
                slot_idx: slot,
                marconi_skip_to: 0,
                session_hash: 0,
                chunked_prefill_meta: None,
                cached_prefix_tokens: 0,
                prompt_len: 0,
                disk_block_ids: Vec::new(),
                disk_last_offloaded_per_layer: offloaded,
            },
        )
    }

    pub open spec fn spec_logits_ptr_is_fp32(&self, logits_ptr: DevicePtr) -> bool {
        self.use_fp32_logits && logits_ptr.0 == self.logits_fp32_buf.0
    }

    /// Whether the logits at `logits_ptr` are in single precision.
    pub fn logits_ptr_is_fp32_dispatch(&self, logits_ptr: DevicePtr) -> (r: bool)
        ensures
            r == self.spec_logits_ptr_is_fp32(logits_ptr),
    {
        self.use_fp32_logits && logits_ptr.0 == self.logits_fp32_buf.0
    }

    pub fn logits_buffer_ptr_dispatch(&self) -> (r: DevicePtr)
        ensures
            r == self.buffers.logits,
    {
        self.buffers.logits
    }

    /// The last row after the final norm.
    pub fn hidden_after_norm_dispatch(&self) -> (r: DevicePtr)
        ensures
            r == self.buffers.norm_output,
    {
        self.buffers.norm_output
    }

    /// Plans the selection of the most likely token, with the kernel that fits
    /// the precision of the logits. Returns the plan and where the four bytes
    /// of the token will be.
    pub fn argmax_on_device_dispatch(&self, logits_ptr: DevicePtr) -> (r: (Vec<Step>, DevicePtr))
        ensures
            r.0@ == seq![
                Step::On(
                    self.default_stream,
                    Op::Argmax(
                        if self.spec_logits_ptr_is_fp32(logits_ptr) {
                            self.k.argmax_logits
                        } else {
                            self.k.argmax
                        },
                        logits_ptr,
                        self.buffers.scratch,
                        self.config.vocab_size as u32,
                    ),
                ),
            ],
            r.1 == self.buffers.scratch,
    {
        let kernel: KernelHandle = if self.logits_ptr_is_fp32_dispatch(logits_ptr) {
            self.k.argmax_logits
        } else {
            self.k.argmax
        };
        let mut plan: Vec<Step> = Vec::new();
        plan.push(
            Step::On(
                self.default_stream,
                Op::Argmax(
                    kernel,
                    logits_ptr,
                    self.buffers.scratch,
                    self.config.vocab_size as u32,
                ),
            ),
        );
        (plan, self.buffers.scratch)
    }

    /// The token in the bytes that a selection left.
    pub fn argmax_token(bytes: &[u8]) -> (r: u32)
        requires
            bytes.len() == 4,
        ensures
            r == from_le32(bytes@),
    {
        proof {
            assert(bytes@.subrange(0, 4) =~= bytes@);
        }
        read_le32(bytes, 0)
    }

    /// Selections of the first `n` rows of half-precision logits.
    pub open spec fn argmax_rows(&self, logits_ptr: DevicePtr, n: nat) -> Seq<Step>
        decreases n,
    {
        if n == 0 {
            Seq::empty()
        } else {
            self.argmax_rows(logits_ptr, (n - 1) as nat).push(
                Step::On(
                    self.default_stream,
                    Op::Argmax(
                        self.k.argmax,
                        logits_ptr.at((n - 1) * self.config.vocab_size * 2),
                        self.buffers.scratch.at((n - 1) * 4),
                        self.config.vocab_size as u32,
                    ),
                ),
            )
        }
    }

    /// Plans the selection of the most likely token of each of `n` rows.
    /// Returns the plan and where the bytes of the tokens will be.
    pub fn argmax_batch_dispatch(&self, logits_ptr: DevicePtr, n: usize) -> (r: (
        Vec<Step>,
        DevicePtr,
    ))
        requires
            n * self.config.vocab_size * 2 <= usize::MAX,
            n * 4 <= usize::MAX,
        ensures
            r.0@ == self.argmax_rows(logits_ptr, n as nat),
            r.1 == self.buffers.scratch,
    {
        let v: usize = self.config.vocab_size;
        let mut plan: Vec<Step> = Vec::new();
        let mut i: usize = 0;
        while i < n
            invariant
                i <= n,
                v == self.config.vocab_size,
                n * v * 2 <= usize::MAX,
                n * 4 <= usize::MAX,
                plan@ == self.argmax_rows(logits_ptr, i as nat),
            decreases n - i,
        {
            proof {
                lemma_span_mono(i as int, n as int, v as int, 2);
            }
            plan.push(
                Step::On(
                    self.default_stream,
                    Op::Argmax(
                        self.k.argmax,
                        logits_ptr.offset(span(i, v, 2)),
                        self.buffers.scratch.offset(i * 4),
                        v as u32,
                    ),
                ),
            );
            i = i + 1;
        }
        (plan, self.buffers.scratch)
    }

    /// The tokens in the bytes that `n` selections left.
    pub fn argmax_tokens(bytes: &[u8], n: usize) -> (r: Vec<u32>)
        requires
            n * 4 <= bytes.len(),
        ensures
            r@ == le32_list(bytes@, n as nat),
    {
        decode_le32(bytes, n)
    }

    /// Rows that the images of a prompt take together.
    pub open spec fn sum_patches(patches: Seq<usize>) -> int
        decreases patches.len(),
    {
        if patches.len() == 0 {
            0
        } else {
            Self::sum_patches(patches.drop_last()) + patches.last()
        }
    }

    proof fn lemma_sum_patches(patches: Seq<usize>, k: int)
        requires
            0 <= k <= patches.len(),
        ensures
            0 <= Self::sum_patches(patches.take(k)) <= Self::sum_patches(patches),
        decreases patches.len() - k, k,
    {
        if k < patches.len() {
            assert(patches.take(k + 1).drop_last() =~= patches.take(k));
            Self::lemma_sum_patches(patches, k + 1);
            Self::lemma_sum_nonneg(patches.take(k));
        } else {
            assert(patches.take(k) =~= patches);
            Self::lemma_sum_nonneg(patches);
        }
    }

    proof fn lemma_sum_nonneg(patches: Seq<usize>)
        ensures
            0 <= Self::sum_patches(patches),
        decreases patches.len(),
    {
        if patches.len() > 0 {
            Self::lemma_sum_nonneg(patches.drop_last());
        }
    }

    /// Records what the vision encoder made of the images of the next prompt:
    /// `grids` are their sizes in patches and `patches` the rows written for
    /// each. The encoder merges squares of patches, so the recorded grids are
    /// smaller by the side of such a square. Nothing is recorded for models
    /// without vision.
    pub fn prepare_vision_embed_dispatch(
        &mut self,
        grids: &[(usize, usize)],
        patches: &[usize],
    )
        requires
            grids.len() == patches.len(),
            Self::sum_patches(patches@) <= usize::MAX,
        ensures
            old(self).vision is None ==> *final(self) == *old(self),
            old(self).vision is Some ==> {
                let m = crate::num::imax(old(self).vision->0.spatial_merge_size as int, 1);
                &&& final(self).vision_embed_patches == Self::sum_patches(patches@)
                &&& final(self).vision_image_grids@.len() == grids@.len()
                &&& forall|i: int|
                    0 <= i < grids@.len() ==> #[trigger] final(self).vision_image_grids@[i] == ((
                        grids@[i].0 as int / m) as usize,
                        (grids@[i].1 as int / m) as usize,
                    )
                &&& *final(self) == (TransformerModel {
                    vision_embed_patches: final(self).vision_embed_patches,
                    vision_image_grids: final(self).vision_image_grids,
                    ..*old(self)
                })
            },
    {
        let merge: usize = match self.vision {
            Some(v) => if v.spatial_merge_size >= 1 {
                v.spatial_merge_size
            } else {
                1
            },
            None => {
                return ;
            },
        };
        let mut total: usize = 0;
        let mut merged: Vec<(usize, usize)> = Vec::new();
        let mut i: usize = 0;
        while i < grids.len()
            invariant
                i <= grids@.len(),
                grids@.len() == patches@.len(),
                merge >= 1,
                Self::sum_patches(patches@) <= usize::MAX,
                total == Self::sum_patches(patches@.take(i as int)),
                merged@.len() == i,
                forall|j: int|
                    0 <= j < i ==> #[trigger] merged@[j] == (
                        (grids@[j].0 as int / merge as int) as usize,
                        (grids@[j].1 as int / merge as int) as usize,
                    ),
            decreases grids@.len() - i,
        {
            proof {
                Self::lemma_sum_patches(patches@, i + 1);
                assert(patches@.take(i + 1).drop_last() =~= patches@.take(i as int));
            }
            total = total + patches[i];
            merged.push((grids[i].0 / merge, grids[i].1 / merge));
            i = i + 1;
        }
        proof {
            assert(patches@.take(i as int) =~= patches@);
        }
        self.vision_embed_patches = total;
        self.vision_image_grids = merged;
    }
}

} // verus!
