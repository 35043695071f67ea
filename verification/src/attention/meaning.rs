//! What the plans of latent attention compute.

use crate::attention::mla_cache_skip::MlaCacheSkip;
use crate::attention::mla_decode::MlaDecode;
use crate::attention::mla_paged::MlaPaged;
use crate::gpu::{DenseWeight, DevicePtr, KernelHandle, QuantizedWeight};
use crate::meaning::{binary, group_after, product, unary, Content, Layout, Memory, Rule, Weight};
use crate::plan::{on, Op, Step};
use vstd::prelude::*;

verus! {

/// The 4-bit form of a weight where there is one, the dense form otherwise.
pub open spec fn best(w: Option<QuantizedWeight>, dense: DenseWeight) -> Weight {
    match w {
        Some(x) => Weight::Nvfp4(x),
        None => Weight::Dense(dense),
    }
}

impl MlaDecode {
    /// The input, the metadata and the buffers of a step are apart.
    pub open spec fn places(self) -> Seq<DevicePtr> {
        seq![
            self.a.normed,
            self.meta.positions,
            self.meta.slot,
            self.meta.block_table,
            self.meta.seq_len,
            self.b.ssm_ba,
            self.b.ssm_deinterleaved,
            self.b.expert_up_out,
            self.b.ssm_conv_out_f32,
            self.b.expert_gate_out,
            self.b.ssm_qkvz,
            self.a.k_out,
            self.a.v_out,
            self.a.k_pool,
            self.a.v_pool,
            self.b.attn_output,
            self.b.norm_output,
            self.b.gate_logits,
            self.b.qkv_output,
        ]
    }

    /// Whether every kernel that takes all heads at once is loaded.
    pub open spec fn whole_heads(self) -> bool {
        &&& self.k.mla_batched_gemv.0 != 0
        &&& self.k.mla_q_rope_scatter.0 != 0
        &&& self.k.mla_q_rope_writeback.0 != 0
        &&& self.k.mla_cache_assemble.0 != 0
    }

    /// All query heads of a row: projected down, normed where the model has a
    /// norm there, and projected up.
    pub open spec fn query_of(self, x: Content) -> Content {
        let r = self.q_lora();
        let down = if r == self.a.h {
            unary(Rule::First((r * 2) as usize), x)
        } else {
            product(x, best(self.m.wq_a_nvfp4, self.m.wq_a), 1, r, self.a.h)
        };
        let normed = if self.m.q_a_norm.weight.0 != 0 {
            unary(Rule::Norm(self.m.q_a_norm, 1, r, self.a.eps), down)
        } else {
            down
        };
        product(normed, best(self.m.wq_b_nvfp4, self.m.wq_b), 1, self.a.q_dim, r)
    }

    /// The latent row.
    pub open spec fn latent_of(self, x: Content) -> Content {
        unary(
            Rule::Norm(self.m.kv_a_norm, 1, self.kv_lora(), self.a.eps),
            product(x, best(self.m.wkv_a_nvfp4, self.m.wkv_a), 1, self.kv_lora(), self.a.h),
        )
    }

    /// Rotated by position, with the frequencies of the layer.
    pub open spec fn rotated(self, x: Content, positions: Content, heads: u32) -> Content {
        let r = self.rope();
        binary(Rule::Rotated(1, heads, r, r, self.m.yarn_inv_freq, self.theta), x, positions)
    }

    /// The rotated key of a row.
    pub open spec fn key_of(self, x: Content, positions: Content) -> Content {
        self.rotated(
            product(x, Weight::Dense(self.m.wkv_a_rope), 1, self.rope(), self.a.h),
            positions,
            1,
        )
    }

    /// What attention asks with: the heads absorbed into the latent space, each
    /// with its rotated part behind it.
    pub open spec fn absorbed_query_of(self, x: Content, positions: Content) -> Content {
        let (nq, hd, cd) = (self.a.nq, self.a.hd, self.cache_dim());
        let (lat, nope, rope) = (self.kv_lora(), self.nope(), self.rope());
        let q = self.query_of(x);
        let absorbed = unary(Rule::PerHead(self.m.w_uk_t.weight, lat, nope, nq, hd, cd), q);
        let part = unary(Rule::RopePart(1, nq, hd, nope, rope, (nq * hd) as u32), q);
        let with = Rule::WithRope(1, nq, lat, rope, cd, (nq * cd) as u32);
        binary(with, binary(with, absorbed, part), self.rotated(part, positions, nq))
    }

    proof fn lemma_front(self, l: Layout, m: Memory)
        requires
            self.whole_heads(),
            l.holds(self.places()),
        ensures
            ({
                let s = self.q_full(self.q_latent(Seq::empty()));
                let s = self.scatter(self.absorb(s));
                let after = l.after(m, self.k_rope(self.kv_latent(s)));
                let x = m[self.a.normed];
                let positions = m[self.meta.positions];
                &&& after[self.b.expert_up_out] == self.absorbed_query_of(x, positions)
                &&& after[self.b.expert_gate_out] == self.latent_of(x)
                &&& after[self.b.ssm_qkvz] == self.key_of(x, positions)
                &&& forall|p: DevicePtr|
                    p != self.b.ssm_ba && p != self.b.ssm_deinterleaved && p
                        != self.b.expert_up_out && p != self.b.ssm_conv_out_f32 && p
                        != self.b.expert_gate_out && p != self.b.ssm_qkvz ==> #[trigger] after[p]
                        == m[p]
            }),
    {
        broadcast use group_after;

        let ps = self.places();
        l.lemma_rank(ps);
        assert(ps[0] == self.a.normed);
        assert(ps[1] == self.meta.positions);
        assert(ps[2] == self.meta.slot);
        assert(ps[3] == self.meta.block_table);
        assert(ps[4] == self.meta.seq_len);
        assert(ps[5] == self.b.ssm_ba);
        assert(ps[6] == self.b.ssm_deinterleaved);
        assert(ps[7] == self.b.expert_up_out);
        assert(ps[8] == self.b.ssm_conv_out_f32);
        assert(ps[9] == self.b.expert_gate_out);
        assert(ps[10] == self.b.ssm_qkvz);
        assert(ps[11] == self.a.k_out);
        assert(ps[12] == self.a.v_out);
        assert(ps[13] == self.a.k_pool);
        assert(ps[14] == self.a.v_pool);
        assert(ps[15] == self.b.attn_output);
        assert(ps[16] == self.b.norm_output);
        assert(ps[17] == self.b.gate_logits);
        assert(ps[18] == self.b.qkv_output);
    }

    /// A decode step stores its latent row with the rotated key in the key cache
    /// of the layer and the latent row with zeros in the value cache. It attends
    /// to these two caches, keys first, with the absorbed query, and projects
    /// the heads, gated where the model has a gate, to the output.
    #[verifier::rlimit(40)]
    pub proof fn lemma_step(self, l: Layout, m: Memory)
        requires
            self.whole_heads(),
            l.holds(self.places()),
            (l.key_pool)(self.layer) == self.a.k_pool,
            (l.value_pool)(self.layer) == self.a.v_pool,
        ensures
            ({
                let after = l.after(m, self.steps());
                let x = m[self.a.normed];
                let positions = m[self.meta.positions];
                let slots = m[self.meta.slot];
                let (nq, cd, bs) = (self.a.nq, self.cache_dim(), self.a.bs as u32);
                let (lat, rope, vd) = (self.kv_lora(), self.rope(), self.v_dim());
                let key = binary(
                    Rule::CacheKey(1, lat, rope, cd),
                    self.latent_of(x),
                    self.key_of(x, positions),
                );
                let value = unary(Rule::CacheValue(1, lat, rope, cd), self.latent_of(x));
                let keys = Content::Of(
                    Rule::Stored(1, 1, cd, bs, cd),
                    seq![m[self.a.k_pool], key, slots],
                );
                let values = Content::Of(
                    Rule::Stored(1, 1, cd, bs, cd),
                    seq![m[self.a.v_pool], value, slots],
                );
                let attended = Content::Of(
                    Rule::AttendPaged(
                        self.meta.max_blocks_per_seq, 1, nq, 1, cd, bs, self.scale,
                        (nq * cd) as u32, 0,
                    ),
                    seq![
                        self.absorbed_query_of(x, positions),
                        keys,
                        values,
                        m[self.meta.block_table],
                        m[self.meta.seq_len],
                    ],
                );
                let heads = unary(
                    Rule::PerHead(self.m.w_uv.weight, vd, lat, nq, cd, vd),
                    attended,
                );
                let gates = product(x, Weight::Dense(self.m.g_proj), 1, nq, self.a.h);
                let gated = if self.m.g_proj.weight.0 != 0 && self.lk.headwise_gate.0 != 0 {
                    binary(Rule::HeadGate(1), heads, gates)
                } else {
                    heads
                };
                &&& after[self.a.k_pool] == keys
                &&& after[self.a.v_pool] == values
                &&& after[self.b.qkv_output] == product(
                    gated,
                    best(self.m.wo_nvfp4, self.m.wo),
                    1,
                    self.a.h,
                    (nq * vd) as u32,
                )
            }),
    {
        broadcast use group_after;

        let ps = self.places();
        l.lemma_rank(ps);
        assert(ps[0] == self.a.normed);
        assert(ps[1] == self.meta.positions);
        assert(ps[2] == self.meta.slot);
        assert(ps[3] == self.meta.block_table);
        assert(ps[4] == self.meta.seq_len);
        assert(ps[5] == self.b.ssm_ba);
        assert(ps[6] == self.b.ssm_deinterleaved);
        assert(ps[7] == self.b.expert_up_out);
        assert(ps[8] == self.b.ssm_conv_out_f32);
        assert(ps[9] == self.b.expert_gate_out);
        assert(ps[10] == self.b.ssm_qkvz);
        assert(ps[11] == self.a.k_out);
        assert(ps[12] == self.a.v_out);
        assert(ps[13] == self.a.k_pool);
        assert(ps[14] == self.a.v_pool);
        assert(ps[15] == self.b.attn_output);
        assert(ps[16] == self.b.norm_output);
        assert(ps[17] == self.b.gate_logits);
        assert(ps[18] == self.b.qkv_output);
        self.lemma_front(l, m);
    }
}

impl MlaDecode {
    /// Whichever kernels are loaded, attention takes its keys from the key cache
    /// and its values from the value cache of the layer, and asks with the
    /// absorbed query.
    pub proof fn lemma_attends(self, l: Layout, m: Memory, s: Seq<Step>)
        requires
            l.holds(
                seq![
                    self.b.expert_up_out,
                    self.a.k_pool,
                    self.a.v_pool,
                    self.meta.block_table,
                    self.meta.seq_len,
                    self.b.attn_output,
                ],
            ),
        ensures
            ({
                let before = l.after(m, s);
                let (nq, cd) = (self.a.nq, self.cache_dim());
                l.after(m, self.attend(s)) == before.insert(
                    self.b.attn_output,
                    Content::Of(
                        Rule::AttendPaged(
                            self.meta.max_blocks_per_seq, 1, nq, 1, cd, self.a.bs as u32,
                            self.scale, (nq * cd) as u32, 0,
                        ),
                        seq![
                            before[self.b.expert_up_out],
                            before[self.a.k_pool],
                            before[self.a.v_pool],
                            before[self.meta.block_table],
                            before[self.meta.seq_len],
                        ],
                    ),
                )
            }),
    {
        broadcast use group_after;

        let ps = seq![
            self.b.expert_up_out,
            self.a.k_pool,
            self.a.v_pool,
            self.meta.block_table,
            self.meta.seq_len,
            self.b.attn_output,
        ];
        l.lemma_rank(ps);
        assert(ps[0] == self.b.expert_up_out && ps[1] == self.a.k_pool && ps[2] == self.a.v_pool);
        assert(ps[3] == self.meta.block_table && ps[4] == self.meta.seq_len && ps[5]
            == self.b.attn_output);
    }

    /// Whichever kernels are loaded, the entry for the key cache is the latent row
    /// and behind it the rotated key, that for the value cache the latent row and
    /// behind it zeros, and each goes to the slot of the token in its cache.
    pub proof fn lemma_stores(self, l: Layout, m: Memory, s: Seq<Step>)
        requires
            l.holds(
                seq![
                    self.b.expert_gate_out,
                    self.b.ssm_qkvz,
                    self.a.k_out,
                    self.a.v_out,
                    self.meta.slot,
                    self.a.k_pool,
                    self.a.v_pool,
                ],
            ),
            0 < self.m.kv_lora_rank && self.m.kv_lora_rank * 2 <= usize::MAX,
            (l.home)(self.a.k_out.at(self.m.kv_lora_rank * 2)) == (
                self.a.k_out,
                self.m.kv_lora_rank * 2,
            ),
            (l.home)(self.a.v_out.at(self.m.kv_lora_rank * 2)) == (
                self.a.v_out,
                self.m.kv_lora_rank * 2,
            ),
            (l.key_pool)(self.layer) == self.a.k_pool,
            (l.value_pool)(self.layer) == self.a.v_pool,
        ensures
            ({
                let before = l.after(m, s);
                let after = l.after(m, self.cache_write(s));
                let (cd, bs) = (self.cache_dim(), self.a.bs as u32);
                let (lat, rope) = (self.kv_lora(), self.rope());
                let latent = before[self.b.expert_gate_out];
                let key = before[self.b.ssm_qkvz];
                let wide = (self.m.kv_lora_rank * 2) as usize;
                let narrow = (self.m.rope * 2) as usize;
                let whole = self.k.mla_cache_assemble.0 != 0;
                let k = if whole {
                    binary(Rule::CacheKey(1, lat, rope, cd), latent, key)
                } else {
                    binary(
                        Rule::Into(wide as int),
                        unary(Rule::First(wide), latent),
                        unary(Rule::First(narrow), key),
                    )
                };
                let v = if whole {
                    unary(Rule::CacheValue(1, lat, rope, cd), latent)
                } else {
                    binary(
                        Rule::Into(wide as int),
                        unary(Rule::First(wide), latent),
                        Content::Of(Rule::Filled(0, narrow), Seq::empty()),
                    )
                };
                let stored = Rule::Stored(1, 1, cd, bs, cd);
                let slots = before[self.meta.slot];
                &&& after[self.a.k_pool] == Content::Of(
                    stored,
                    seq![before[self.a.k_pool], k, slots],
                )
                &&& after[self.a.v_pool] == Content::Of(
                    stored,
                    seq![before[self.a.v_pool], v, slots],
                )
            }),
    {
        broadcast use group_after;

        let ps = seq![
            self.b.expert_gate_out,
            self.b.ssm_qkvz,
            self.a.k_out,
            self.a.v_out,
            self.meta.slot,
            self.a.k_pool,
            self.a.v_pool,
        ];
        l.lemma_rank(ps);
        assert(ps[0] == self.b.expert_gate_out && ps[1] == self.b.ssm_qkvz);
        assert(ps[2] == self.a.k_out && ps[3] == self.a.v_out && ps[4] == self.meta.slot);
        assert(ps[5] == self.a.k_pool && ps[6] == self.a.v_pool);
    }
}

/// What is done for one head by a product per head.
pub open spec fn product_of_head(op: Op, kernel: KernelHandle, i: int) -> Op {
    match op {
        Op::MlaBatchedGemv(_, x, w, out, n, k, _, from, to) => Op::DenseGemv(
            kernel,
            x.at(i * from * 2),
            DenseWeight { weight: w.at(i * (n * k) * 2) },
            out.at(i * to * 2),
            n,
            k,
        ),
        _ => op,
    }
}

/// What is copied for one head, first or second, when rope parts are moved.
pub open spec fn copy_of_head(op: Op, i: int, second: bool) -> Op {
    match op {
        Op::MlaQRopeScatter(_, q, absorbed, part, _, hd, nope, rope, latent, cd) => Op::CopyD2d(
            q.at((i * hd + nope) * 2),
            if second {
                absorbed.at((i * cd + latent) * 2)
            } else {
                part.at(i * rope * 2)
            },
            (rope * 2) as usize,
        ),
        Op::MlaQRopeWriteback(_, part, absorbed, _, rope, latent, cd) => Op::CopyD2d(
            part.at(i * rope * 2),
            absorbed.at((i * cd + latent) * 2),
            (rope * 2) as usize,
        ),
        _ => op,
    }
}

/// The four copies that assemble a cache entry: latent row and rope key, latent
/// row and zeros.
pub open spec fn copies_of_entry(op: Op) -> Seq<Op> {
    match op {
        Op::MlaCacheAssemble(_, kv, part, k, v, latent, rope, _) => seq![
            Op::CopyD2d(kv, k, (latent * 2) as usize),
            Op::CopyD2d(part, k.at(latent * 2), (rope * 2) as usize),
            Op::CopyD2d(kv, v, (latent * 2) as usize),
            Op::Memset(v.at(latent * 2), 0, (rope * 2) as usize),
        ],
        _ => seq![op],
    }
}

impl MlaDecode {
    /// The widths of the model as the kernels take them.
    pub open spec fn narrow(self) -> bool {
        &&& self.m.kv_lora_rank <= u32::MAX
        &&& self.m.nope <= u32::MAX
        &&& self.m.rope <= u32::MAX
        &&& self.m.v_dim <= u32::MAX
        &&& self.fits()
    }

    /// An entry of the cache is as wide as a latent row and a rope key.
    pub proof fn lemma_widths(self)
        requires
            self.narrow(),
        ensures
            self.cache_dim() == self.m.kv_lora_rank + self.m.rope,
            self.kv_lora() == self.m.kv_lora_rank,
            self.nope() == self.m.nope,
            self.rope() == self.m.rope,
            self.v_dim() == self.m.v_dim,
    {
    }

    proof fn lemma_absorb_heads(self, whole: MlaDecode, s: Seq<Step>, n: nat)
        requires
            whole.k.mla_batched_gemv.0 != 0,
            whole.m == self.m && whole.a == self.a && whole.b == self.b,
            self.narrow(),
        ensures
            ({
                let t = self.absorb_heads(s, n);
                let op = whole.absorb(Seq::empty())[0]->On_1;
                &&& t.len() == s.len() + n
                &&& forall|i: int| 0 <= i < s.len() ==> #[trigger] t[i] == s[i]
                &&& forall|i: int|
                    0 <= i < n ==> #[trigger] t[s.len() + i] == Step::On(
                        self.a.stream,
                        product_of_head(op, self.k.dense_gemv, i),
                    )
            }),
        decreases n,
    {
        if n > 0 {
            self.lemma_absorb_heads(whole, s, (n - 1) as nat);
            let q = self.absorb_heads(s, (n - 1) as nat);
            let t = self.absorb_heads(s, n);
            let op = whole.absorb(Seq::empty())[0]->On_1;
            let j = n - 1;
            assert(j * self.m.nope * self.m.kv_lora_rank * 2 == j * (self.kv_lora() * self.nope())
                * 2) by (nonlinear_arith)
                requires
                    self.kv_lora() == self.m.kv_lora_rank,
                    self.nope() == self.m.nope,
            ;
            assert forall|i: int| 0 <= i < n implies #[trigger] t[s.len() + i] == Step::On(
                self.a.stream,
                product_of_head(op, self.k.dense_gemv, i),
            ) by {
                if i < n - 1 {
                    assert(t[s.len() + i] == q[s.len() + i]);
                }
            }
            assert forall|i: int| 0 <= i < s.len() implies #[trigger] t[i] == s[i] by {
                assert(t[i] == q[i]);
            }
        }
    }

    proof fn lemma_extract_heads(self, whole: MlaDecode, s: Seq<Step>, n: nat)
        requires
            whole.k.mla_batched_gemv.0 != 0,
            whole.m == self.m && whole.a == self.a && whole.b == self.b,
            self.narrow(),
        ensures
            ({
                let t = self.extract_heads(s, n);
                let op = whole.extract(Seq::empty())[0]->On_1;
                &&& t.len() == s.len() + n
                &&& forall|i: int| 0 <= i < s.len() ==> #[trigger] t[i] == s[i]
                &&& forall|i: int|
                    0 <= i < n ==> #[trigger] t[s.len() + i] == Step::On(
                        self.a.stream,
                        product_of_head(op, self.k.dense_gemv, i),
                    )
            }),
        decreases n,
    {
        if n > 0 {
            self.lemma_extract_heads(whole, s, (n - 1) as nat);
            let q = self.extract_heads(s, (n - 1) as nat);
            let t = self.extract_heads(s, n);
            let op = whole.extract(Seq::empty())[0]->On_1;
            let j = n - 1;
            assert(j * self.m.v_dim * self.m.kv_lora_rank * 2 == j * (self.v_dim()
                * self.kv_lora()) * 2) by (nonlinear_arith)
                requires
                    self.kv_lora() == self.m.kv_lora_rank,
                    self.v_dim() == self.m.v_dim,
            ;
            assert forall|i: int| 0 <= i < n implies #[trigger] t[s.len() + i] == Step::On(
                self.a.stream,
                product_of_head(op, self.k.dense_gemv, i),
            ) by {
                if i < n - 1 {
                    assert(t[s.len() + i] == q[s.len() + i]);
                }
            }
            assert forall|i: int| 0 <= i < s.len() implies #[trigger] t[i] == s[i] by {
                assert(t[i] == q[i]);
            }
        }
    }

    proof fn lemma_scatter_heads(self, whole: MlaDecode, s: Seq<Step>, n: nat)
        requires
            whole.k.mla_q_rope_scatter.0 != 0,
            whole.m == self.m && whole.a == self.a && whole.b == self.b,
            self.narrow(),
        ensures
            ({
                let t = self.scatter_heads(s, n);
                let op = whole.scatter(Seq::empty())[0]->On_1;
                &&& t.len() == s.len() + 2 * n
                &&& forall|i: int| 0 <= i < s.len() ==> #[trigger] t[i] == s[i]
                &&& forall|i: int|
                    #![trigger copy_of_head(op, i, true)]
                    0 <= i < n ==> t[s.len() + 2 * i] == Step::On(
                        self.a.stream,
                        copy_of_head(op, i, false),
                    ) && t[s.len() + 2 * i + 1] == Step::On(
                        self.a.stream,
                        copy_of_head(op, i, true),
                    )
            }),
        decreases n,
    {
        if n > 0 {
            self.lemma_scatter_heads(whole, s, (n - 1) as nat);
            let q = self.scatter_heads(s, (n - 1) as nat);
            let t = self.scatter_heads(s, n);
            let op = whole.scatter(Seq::empty())[0]->On_1;
            assert forall|i: int|
                #![trigger copy_of_head(op, i, true)]
                0 <= i < n implies t[s.len() + 2 * i] == Step::On(
                self.a.stream,
                copy_of_head(op, i, false),
            ) && t[s.len() + 2 * i + 1] == Step::On(
                self.a.stream,
                copy_of_head(op, i, true),
            ) by {
                if i < n - 1 {
                    assert(t[s.len() + 2 * i] == q[s.len() + 2 * i]);
                    assert(t[s.len() + 2 * i + 1] == q[s.len() + 2 * i + 1]);
                }
            }
            assert forall|i: int| 0 <= i < s.len() implies #[trigger] t[i] == s[i] by {
                assert(t[i] == q[i]);
            }
        }
    }

    proof fn lemma_writeback_heads(self, whole: MlaDecode, s: Seq<Step>, n: nat)
        requires
            whole.k.mla_q_rope_writeback.0 != 0,
            !whole.profile,
            whole.m == self.m && whole.a == self.a && whole.b == self.b,
            self.narrow(),
        ensures
            ({
                let t = self.writeback_heads(s, n);
                let op = whole.k_rope(Seq::empty())[2]->On_1;
                &&& t.len() == s.len() + n
                &&& forall|i: int| 0 <= i < s.len() ==> #[trigger] t[i] == s[i]
                &&& forall|i: int|
                    0 <= i < n ==> #[trigger] t[s.len() + i] == Step::On(
                        self.a.stream,
                        copy_of_head(op, i, false),
                    )
            }),
        decreases n,
    {
        if n > 0 {
            self.lemma_writeback_heads(whole, s, (n - 1) as nat);
            let q = self.writeback_heads(s, (n - 1) as nat);
            let t = self.writeback_heads(s, n);
            let op = whole.k_rope(Seq::empty())[2]->On_1;
            assert forall|i: int| 0 <= i < n implies #[trigger] t[s.len() + i] == Step::On(
                self.a.stream,
                copy_of_head(op, i, false),
            ) by {
                if i < n - 1 {
                    assert(t[s.len() + i] == q[s.len() + i]);
                }
            }
            assert forall|i: int| 0 <= i < s.len() implies #[trigger] t[i] == s[i] by {
                assert(t[i] == q[i]);
            }
        }
    }

    /// Without the kernels that take all heads at once, a step does for each
    /// head in turn what they do for it: same operands, same weights, at the
    /// places of that head.
    pub proof fn lemma_head_by_head(self, whole: MlaDecode, s: Seq<Step>)
        requires
            whole.whole_heads(),
            !whole.profile,
            whole.m == self.m && whole.a == self.a && whole.b == self.b,
            whole.meta == self.meta && whole.theta == self.theta,
            self.narrow(),
        ensures
            self.k.mla_batched_gemv.0 == 0 ==> forall|i: int|
                #![trigger self.absorb(s)[s.len() + i]]
                #![trigger self.extract(s)[s.len() + i]]
                0 <= i < self.a.nq ==> self.absorb(s)[s.len() + i] == Step::On(
                    self.a.stream,
                    product_of_head(
                        whole.absorb(Seq::empty())[0]->On_1,
                        self.k.dense_gemv,
                        i,
                    ),
                ) && self.extract(s)[s.len() + i] == Step::On(
                    self.a.stream,
                    product_of_head(
                        whole.extract(Seq::empty())[0]->On_1,
                        self.k.dense_gemv,
                        i,
                    ),
                ),
            self.k.mla_q_rope_scatter.0 == 0 ==> forall|i: int|
                #![trigger self.scatter(s)[s.len() + 2 * i]]
                0 <= i < self.a.nq ==> self.scatter(s)[s.len() + 2 * i] == Step::On(
                    self.a.stream,
                    copy_of_head(whole.scatter(Seq::empty())[0]->On_1, i, false),
                ) && self.scatter(s)[s.len() + 2 * i + 1] == Step::On(
                    self.a.stream,
                    copy_of_head(whole.scatter(Seq::empty())[0]->On_1, i, true),
                ),
            self.k.mla_q_rope_writeback.0 == 0 ==> forall|i: int|
                #![trigger self.k_rope(s)[s.len() + 2 + i]]
                0 <= i < self.a.nq ==> self.k_rope(s)[s.len() + 2 + i] == Step::On(
                    self.a.stream,
                    copy_of_head(whole.k_rope(Seq::empty())[2]->On_1, i, false),
                ),
            self.k.mla_cache_assemble.0 == 0 ==> forall|i: int|
                #![trigger self.cache_write(s)[s.len() + i]]
                0 <= i < 4 ==> self.cache_write(s)[s.len() + i] == Step::On(
                    self.a.stream,
                    copies_of_entry(whole.cache_write(Seq::empty())[0]->On_1)[i],
                ),
    {
        let nq = self.a.nq as nat;
        self.lemma_absorb_heads(whole, s, nq);
        self.lemma_extract_heads(whole, s, nq);
        self.lemma_scatter_heads(whole, s, nq);
        if self.k.mla_batched_gemv.0 == 0 {
            assert forall|i: int|
                #![trigger self.absorb(s)[s.len() + i]]
                #![trigger self.extract(s)[s.len() + i]]
                0 <= i < self.a.nq implies self.absorb(s)[s.len() + i] == Step::On(
                self.a.stream,
                product_of_head(whole.absorb(Seq::empty())[0]->On_1, self.k.dense_gemv, i),
            ) && self.extract(s)[s.len() + i] == Step::On(
                self.a.stream,
                product_of_head(whole.extract(Seq::empty())[0]->On_1, self.k.dense_gemv, i),
            ) by {
                let t = self.absorb_heads(s, nq);
                let u = self.extract_heads(s, nq);
                assert(self.absorb(s)[s.len() + i] == t[s.len() + i]);
                assert(self.extract(s)[s.len() + i] == u[s.len() + i]);
            }
        }
        if self.k.mla_q_rope_scatter.0 == 0 {
            let op = whole.scatter(Seq::empty())[0]->On_1;
            let t = self.scatter_heads(s, nq);
            assert forall|i: int|
                #![trigger self.scatter(s)[s.len() + 2 * i]]
                0 <= i < self.a.nq implies self.scatter(s)[s.len() + 2 * i] == Step::On(
                self.a.stream,
                copy_of_head(op, i, false),
            ) && self.scatter(s)[s.len() + 2 * i + 1] == Step::On(
                self.a.stream,
                copy_of_head(op, i, true),
            ) by {
                assert(t[s.len() + 2 * i + 1] == Step::On(
                    self.a.stream,
                    copy_of_head(op, i, true),
                ));
                assert(self.scatter(s)[s.len() + 2 * i] == t[s.len() + 2 * i]);
                assert(self.scatter(s)[s.len() + 2 * i + 1] == t[s.len() + 2 * i + 1]);
            }
        }
        if self.k.mla_q_rope_writeback.0 == 0 {
            let s1 = on(
                s,
                self.a.stream,
                Op::DenseGemv(
                    self.k.dense_gemv,
                    self.a.normed,
                    self.m.wkv_a_rope,
                    self.b.ssm_qkvz,
                    self.rope(),
                    self.a.h,
                ),
            );
            let s2 = on(
                s1,
                self.a.stream,
                Op::RopeYarn(
                    self.k.rope_yarn,
                    self.b.ssm_conv_out_f32,
                    self.b.ssm_qkvz,
                    self.meta.positions,
                    1,
                    self.a.nq,
                    1,
                    self.rope(),
                    self.rope(),
                    self.m.yarn_inv_freq,
                    self.theta,
                ),
            );
            self.lemma_writeback_heads(whole, s2, nq);
            let t = self.writeback_heads(s2, nq);
            assert forall|i: int|
                #![trigger self.k_rope(s)[s.len() + 2 + i]]
                0 <= i < self.a.nq implies self.k_rope(s)[s.len() + 2 + i] == Step::On(
                self.a.stream,
                copy_of_head(whole.k_rope(Seq::empty())[2]->On_1, i, false),
            ) by {
                assert(t[s2.len() + i] == self.k_rope(s)[s.len() + 2 + i]);
            }
        }
    }
}

impl MlaCacheSkip {
    /// The widths that the model's own widths make up.
    pub proof fn lemma_widths(self)
        requires
            self.m.kv_lora_rank <= u32::MAX && self.m.nope <= u32::MAX,
            self.m.rope <= u32::MAX && self.m.v_dim <= u32::MAX,
            self.fits(),
        ensures
            self.cache_dim() == self.m.kv_lora_rank + self.m.rope,
            self.hd() == self.m.nope + self.m.rope,
            self.q_width() == self.a.nq * (self.m.nope + self.m.rope),
            self.kv_width() == self.a.nkv * (self.m.nope + self.m.v_dim),
    {
    }

    /// The input, the metadata, the caches and the buffers of a prefill are
    /// apart; the values lie behind the keys.
    pub open spec fn places(self, l: Layout) -> Seq<DevicePtr> {
        seq![
            self.a.normed,
            self.meta.positions,
            self.meta.slot,
            self.b.ssm_ba,
            self.b.qkv_output,
            self.b.expert_gate_out,
            self.b.ssm_conv_out_f32,
            self.b.expert_up_out,
            self.b.expert_down_out,
            self.b.ssm_deinterleaved,
            self.b.ssm_qkvz,
            self.b.ssm_qkvz.at(self.a.num_tokens * self.a.kv_dim * self.a.bf16),
            self.b.attn_output,
            self.b.gate_logits,
            (l.key_pool)(self.layer),
            (l.value_pool)(self.layer),
        ]
    }

    pub open spec fn query_of(self, x: Content) -> Content {
        let (n, r) = (self.a.n, self.q_lora());
        let down = product(x, Weight::Dense(self.m.wq_a), n, r, self.a.h);
        let normed = if self.m.q_a_norm.weight.0 != 0 {
            unary(Rule::Norm(self.m.q_a_norm, n, r, self.a.eps), down)
        } else {
            down
        };
        product(normed, Weight::Dense(self.m.wq_b), n, self.q_width(), r)
    }

    pub open spec fn latent_of(self, x: Content) -> Content {
        unary(
            Rule::Norm(self.m.kv_a_norm, self.a.n, self.kv_lora(), self.a.eps),
            product(x, Weight::Dense(self.m.wkv_a), self.a.n, self.kv_lora(), self.a.h),
        )
    }

    pub open spec fn rotated(self, x: Content, positions: Content, heads: u32) -> Content {
        let (n, r) = (self.a.n, self.rope());
        binary(Rule::Rotated(n, heads, r, r, self.m.yarn_inv_freq, self.theta), x, positions)
    }

    pub open spec fn key_of(self, x: Content, positions: Content) -> Content {
        self.rotated(
            product(x, Weight::Dense(self.m.wkv_a_rope), self.a.n, self.rope(), self.a.h),
            positions,
            1,
        )
    }

    /// The query with its rope part rotated in place.
    pub open spec fn rotated_query_of(self, x: Content, positions: Content) -> Content {
        let (n, nq, hd) = (self.a.n, self.a.nq, self.hd());
        let (nope, rope, w) = (self.nope(), self.rope(), self.q_width());
        let q = self.query_of(x);
        let part = unary(Rule::RopePart(n, nq, hd, nope, rope, w), q);
        binary(
            Rule::WithRope(n, nq, nope, rope, hd, w),
            q,
            self.rotated(part, positions, nq),
        )
    }

    proof fn lemma_front(self, l: Layout, m: Memory)
        requires
            l.holds(self.places(l)),
        ensures
            ({
                let after = l.after(m, self.project(Seq::empty()));
                let x = m[self.a.normed];
                &&& after[self.b.qkv_output] == self.query_of(x)
                &&& after[self.b.expert_gate_out] == self.latent_of(x)
                &&& after[self.b.ssm_ba] == product(
                    x,
                    Weight::Dense(self.m.wkv_a_rope),
                    self.a.n,
                    self.rope(),
                    self.a.h,
                )
                &&& forall|p: DevicePtr|
                    p != self.b.qkv_output && p != self.b.expert_gate_out && p != self.b.ssm_ba
                        ==> #[trigger] after[p] == m[p]
            }),
    {
        broadcast use group_after;

        let ps = self.places(l);
        l.lemma_rank(ps);
        assert(ps[0] == self.a.normed);
        assert(ps[1] == self.meta.positions);
        assert(ps[2] == self.meta.slot);
        assert(ps[3] == self.b.ssm_ba);
        assert(ps[4] == self.b.qkv_output);
        assert(ps[5] == self.b.expert_gate_out);
        assert(ps[6] == self.b.ssm_conv_out_f32);
        assert(ps[7] == self.b.expert_up_out);
        assert(ps[8] == self.b.expert_down_out);
        assert(ps[9] == self.b.ssm_deinterleaved);
        assert(ps[10] == self.b.ssm_qkvz);
        assert(ps[11] == self.b.ssm_qkvz.at(self.a.num_tokens * self.a.kv_dim * self.a.bf16));
        assert(ps[12] == self.b.attn_output);
        assert(ps[13] == self.b.gate_logits);
        assert(ps[14] == (l.key_pool)(self.layer));
        assert(ps[15] == (l.value_pool)(self.layer));
    }

    /// A prefill stores each latent row with its rotated key in the key cache
    /// and with zeros in the value cache. It attends causally among its own rows
    /// with the keys and values that the latent rows expand to, gates the heads
    /// where the model has a gate, and projects them to the output.
    #[verifier::rlimit(40)]
    pub proof fn lemma_prefill(self, l: Layout, m: Memory)
        requires
            l.holds(self.places(l)),
        ensures
            ({
                let after = l.after(m, self.steps());
                let x = m[self.a.normed];
                let positions = m[self.meta.positions];
                let slots = m[self.meta.slot];
                let (n, nq, nkv, h) = (self.a.n, self.a.nq, self.a.nkv, self.a.h);
                let (lat, nope) = (self.kv_lora(), self.nope());
                let (rope, vd) = (self.rope(), self.v_dim());
                let (cd, hd, w, bs) = (
                    self.cache_dim(),
                    self.hd(),
                    self.kv_width(),
                    self.a.bs as u32,
                );
                let kp = (l.key_pool)(self.layer);
                let vp = (l.value_pool)(self.layer);
                let latent = self.latent_of(x);
                let key = self.key_of(x, positions);
                let expanded = product(latent, Weight::Dense(self.m.wkv_b), n, w, lat);
                let keys = binary(Rule::HeadKeys(n, nkv, nope, vd, rope, hd, w), expanded, key);
                let values = unary(Rule::HeadValues(n, nkv, nope, vd, rope, hd, w), expanded);
                let width = if hd == 192 && vd == 128 && self.lk.ling_prefill_attn.0 != 0 {
                    vd
                } else {
                    hd
                };
                let attended = Content::Of(
                    Rule::Attend(n, 1, nq, nkv, hd, width, self.a.inv_sqrt_hd, 0),
                    seq![self.rotated_query_of(x, positions), keys, values],
                );
                let gates = product(x, Weight::Dense(self.m.g_proj), n, nq, h);
                let gated = if self.m.g_proj.weight.0 != 0 && self.lk.headwise_gate.0 != 0 {
                    binary(Rule::HeadGate(n), attended, gates)
                } else {
                    attended
                };
                &&& after[kp] == Content::Of(
                    Rule::Stored(n, 1, cd, bs, cd),
                    seq![m[kp], binary(Rule::CacheKey(n, lat, rope, cd), latent, key), slots],
                )
                &&& after[vp] == Content::Of(
                    Rule::Stored(n, 1, cd, bs, cd),
                    seq![m[vp], unary(Rule::CacheValue(n, lat, rope, cd), latent), slots],
                )
                &&& after[self.b.qkv_output] == product(
                    gated,
                    best(self.m.wo_nvfp4, self.m.wo),
                    n,
                    h,
                    (nq * vd) as u32,
                )
            }),
    {
        broadcast use group_after;

        let ps = self.places(l);
        l.lemma_rank(ps);
        assert(ps[0] == self.a.normed);
        assert(ps[1] == self.meta.positions);
        assert(ps[2] == self.meta.slot);
        assert(ps[3] == self.b.ssm_ba);
        assert(ps[4] == self.b.qkv_output);
        assert(ps[5] == self.b.expert_gate_out);
        assert(ps[6] == self.b.ssm_conv_out_f32);
        assert(ps[7] == self.b.expert_up_out);
        assert(ps[8] == self.b.expert_down_out);
        assert(ps[9] == self.b.ssm_deinterleaved);
        assert(ps[10] == self.b.ssm_qkvz);
        assert(ps[11] == self.b.ssm_qkvz.at(self.a.num_tokens * self.a.kv_dim * self.a.bf16));
        assert(ps[12] == self.b.attn_output);
        assert(ps[13] == self.b.gate_logits);
        assert(ps[14] == (l.key_pool)(self.layer));
        assert(ps[15] == (l.value_pool)(self.layer));
        self.lemma_front(l, m);
    }
}

impl MlaPaged {
    /// The widths that the model's own widths make up.
    pub proof fn lemma_widths(self)
        requires
            self.m.kv_lora_rank <= u32::MAX && self.m.nope <= u32::MAX,
            self.m.rope <= u32::MAX && self.m.v_dim <= u32::MAX,
            self.fits(),
        ensures
            self.cache_dim() == self.m.kv_lora_rank + self.m.rope,
            self.hd() == self.m.nope + self.m.rope,
            self.q_width() == self.a.nq * (self.m.nope + self.m.rope),
            self.kv_width() == self.a.nkv * (self.m.nope + self.m.v_dim),
    {
    }

    /// The input, the metadata, the caches and the buffers of a prefill are
    /// apart; the values lie behind the keys, among the rows and among the rows
    /// for the cache.
    pub open spec fn places(self, l: Layout) -> Seq<DevicePtr> {
        seq![
            self.a.normed,
            self.meta.positions,
            self.meta.slot,
            self.b.ssm_ba,
            self.b.attn_output,
            self.b.expert_gate_out,
            self.b.ssm_conv_out_f32,
            self.b.expert_down_out,
            self.b.expert_down_out.at(self.a.num_tokens * self.cache_dim() * self.a.bf16),
            self.b.ssm_deinterleaved,
            self.b.ssm_qkvz,
            self.b.ssm_qkvz.at(self.a.num_tokens * self.a.kv_dim * self.a.bf16),
            self.b.norm_output,
            (l.key_pool)(self.layer),
            (l.value_pool)(self.layer),
        ]
    }

    pub open spec fn query_of(self, x: Content) -> Content {
        let (n, r) = (self.a.n, self.q_lora());
        let down = product(x, Weight::Dense(self.m.wq_a), n, r, self.a.h);
        let normed = if self.m.q_a_norm.weight.0 != 0 {
            unary(Rule::Norm(self.m.q_a_norm, n, r, self.a.eps), down)
        } else {
            down
        };
        product(normed, Weight::Dense(self.m.wq_b), n, self.q_width(), r)
    }

    pub open spec fn latent_of(self, x: Content) -> Content {
        unary(
            Rule::Norm(self.m.kv_a_norm, self.a.n, self.kv_lora(), self.a.eps),
            product(x, Weight::Dense(self.m.wkv_a), self.a.n, self.kv_lora(), self.a.h),
        )
    }

    pub open spec fn rotated(self, x: Content, positions: Content, heads: u32) -> Content {
        let (n, r) = (self.a.n, self.rope());
        binary(Rule::Rotated(n, heads, r, r, self.m.yarn_inv_freq, self.theta), x, positions)
    }

    pub open spec fn key_of(self, x: Content, positions: Content) -> Content {
        self.rotated(
            product(x, Weight::Dense(self.m.wkv_a_rope), self.a.n, self.rope(), self.a.h),
            positions,
            1,
        )
    }

    pub open spec fn rotated_query_of(self, x: Content, positions: Content) -> Content {
        let (n, nq, hd) = (self.a.n, self.a.nq, self.hd());
        let (nope, rope, w) = (self.nope(), self.rope(), self.q_width());
        let q = self.query_of(x);
        let part = unary(Rule::RopePart(n, nq, hd, nope, rope, w), q);
        binary(
            Rule::WithRope(n, nq, nope, rope, hd, w),
            q,
            self.rotated(part, positions, nq),
        )
    }

    proof fn lemma_front(self, l: Layout, m: Memory)
        requires
            l.holds(self.places(l)),
        ensures
            ({
                let after = l.after(m, self.project(Seq::empty()));
                let x = m[self.a.normed];
                &&& after[self.b.attn_output] == self.query_of(x)
                &&& after[self.b.expert_gate_out] == self.latent_of(x)
                &&& after[self.b.ssm_deinterleaved] == product(
                    self.latent_of(x),
                    Weight::Dense(self.m.wkv_b),
                    self.a.n,
                    self.kv_width(),
                    self.kv_lora(),
                )
                &&& after[self.b.ssm_ba] == product(
                    x,
                    Weight::Dense(self.m.wkv_a_rope),
                    self.a.n,
                    self.rope(),
                    self.a.h,
                )
                &&& forall|p: DevicePtr|
                    p != self.b.attn_output && p != self.b.expert_gate_out && p != self.b.ssm_ba
                        && p != self.b.ssm_deinterleaved ==> #[trigger] after[p] == m[p]
            }),
    {
        broadcast use group_after;

        let ps = self.places(l);
        l.lemma_rank(ps);
        assert(ps[0] == self.a.normed);
        assert(ps[1] == self.meta.positions);
        assert(ps[2] == self.meta.slot);
        assert(ps[3] == self.b.ssm_ba);
        assert(ps[4] == self.b.attn_output);
        assert(ps[5] == self.b.expert_gate_out);
        assert(ps[6] == self.b.ssm_conv_out_f32);
        assert(ps[7] == self.b.expert_down_out);
        assert(ps[8] == self.b.expert_down_out.at(
            self.a.num_tokens * self.cache_dim() * self.a.bf16,
        ));
        assert(ps[9] == self.b.ssm_deinterleaved);
        assert(ps[10] == self.b.ssm_qkvz);
        assert(ps[11] == self.b.ssm_qkvz.at(self.a.num_tokens * self.a.kv_dim * self.a.bf16));
        assert(ps[12] == self.b.norm_output);
        assert(ps[13] == (l.key_pool)(self.layer));
        assert(ps[14] == (l.value_pool)(self.layer));
    }

    /// A prefill of a paged sequence stores and attends in the same way, inside
    /// the window of the layer.
    #[verifier::rlimit(40)]
    pub proof fn lemma_prefill(self, l: Layout, m: Memory)
        requires
            l.holds(self.places(l)),
        ensures
            ({
                let after = l.after(m, self.steps());
                let x = m[self.a.normed];
                let positions = m[self.meta.positions];
                let slots = m[self.meta.slot];
                let (n, nq, nkv, h) = (self.a.n, self.a.nq, self.a.nkv, self.a.h);
                let (lat, nope) = (self.kv_lora(), self.nope());
                let (rope, vd) = (self.rope(), self.v_dim());
                let (cd, hd, w, bs) = (self.cache_dim(), self.hd(), self.kv_width(), self.a.bs);
                let kp = (l.key_pool)(self.layer);
                let vp = (l.value_pool)(self.layer);
                let latent = self.latent_of(x);
                let key = self.key_of(x, positions);
                let expanded = product(latent, Weight::Dense(self.m.wkv_b), n, w, lat);
                let keys = binary(Rule::HeadKeys(n, nkv, nope, vd, rope, hd, w), expanded, key);
                let values = unary(Rule::HeadValues(n, nkv, nope, vd, rope, hd, w), expanded);
                let attended = Content::Of(
                    Rule::Attend(n, 1, nq, nkv, hd, hd, self.scale, self.window),
                    seq![self.rotated_query_of(x, positions), keys, values],
                );
                &&& after[kp] == Content::Of(
                    Rule::Stored(n, 1, cd, bs, cd),
                    seq![m[kp], binary(Rule::CacheKey(n, lat, rope, cd), latent, key), slots],
                )
                &&& after[vp] == Content::Of(
                    Rule::Stored(n, 1, cd, bs, cd),
                    seq![m[vp], unary(Rule::CacheValue(n, lat, rope, cd), latent), slots],
                )
                &&& after[self.b.norm_output] == product(
                    attended,
                    best(self.m.wo_nvfp4, self.m.wo),
                    n,
                    h,
                    (nq * vd) as u32,
                )
            }),
    {
        broadcast use group_after;

        let ps = self.places(l);
        l.lemma_rank(ps);
        assert(ps[0] == self.a.normed);
        assert(ps[1] == self.meta.positions);
        assert(ps[2] == self.meta.slot);
        assert(ps[3] == self.b.ssm_ba);
        assert(ps[4] == self.b.attn_output);
        assert(ps[5] == self.b.expert_gate_out);
        assert(ps[6] == self.b.ssm_conv_out_f32);
        assert(ps[7] == self.b.expert_down_out);
        assert(ps[8] == self.b.expert_down_out.at(
            self.a.num_tokens * self.cache_dim() * self.a.bf16,
        ));
        assert(ps[9] == self.b.ssm_deinterleaved);
        assert(ps[10] == self.b.ssm_qkvz);
        assert(ps[11] == self.b.ssm_qkvz.at(self.a.num_tokens * self.a.kv_dim * self.a.bf16));
        assert(ps[12] == self.b.norm_output);
        assert(ps[13] == (l.key_pool)(self.layer));
        assert(ps[14] == (l.value_pool)(self.layer));
        self.lemma_front(l, m);
    }
}

} // verus!
