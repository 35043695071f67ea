//! What the plans of a mixture-of-experts layer with squared activations
//! compute.

use crate::context::ForwardContext;
use crate::gpu::{DevicePtr, ExpertPtrTable, F32_ONE};
use crate::meaning::{
    binary, group_after, part, product, unary, Choice, Content, Layout, Memory, Rule, Weight,
};
use crate::moe::routing::sort_regions;
use crate::nemotron::{NemotronMoeLayer, SortedPrefillCtx};
use crate::plan::{on, Step};
use vstd::prelude::*;

verus! {

impl NemotronMoeLayer {
    /// How experts are selected for `rows` rows.
    pub open spec fn choice(
        self,
        cx: &ForwardContext,
        rows: u32,
        experts: u32,
        top_k: u32,
        scale: u32,
    ) -> Choice {
        Choice {
            bias: Some(self.weights.e_score_correction_bias.weight),
            rows,
            experts,
            top_k,
            normalize: cx.config.norm_topk_prob,
            scale,
            n_group: cx.config.n_group as u32,
            topk_group: cx.config.topk_group as u32,
        }
    }

    /// What the experts and the shared expert make of a row: `x` is what the
    /// experts read, `dim` wide, `up` the shared up product. On the latent width
    /// the experts' sum goes back up before the shared part is added.
    pub open spec fn row_result(
        self,
        x: Content,
        up: Content,
        chosen: Content,
        shares: Content,
        extents: (u32, u32, u32, u32, u32),
    ) -> Content {
        let (h, dim, inter, shared_inter, k) = extents;
        let e = binary(
            Rule::ByExpertRow(Weight::Experts(self.up_ptrs), inter, dim, k, 0),
            x,
            chosen,
        );
        let routed = binary(
            Rule::ByExpert(Weight::Experts(self.down_ptrs), dim, inter, k),
            unary(Rule::Relu2, e),
            chosen,
        );
        let shared = product(
            unary(Rule::Relu2, up),
            Weight::Nvfp4(self.weights.shared_down),
            1,
            h,
            shared_inter,
        );
        if self.moe_latent_size > 0 {
            let zeros = Content::Of(Rule::Filled(0, (dim * 2) as usize), Seq::empty());
            let sum = Content::Of(Rule::WeightedSum(dim, k, F32_ONE), seq![routed, shares, zeros]);
            binary(
                Rule::Add(h),
                product(sum, Weight::Dense(self.weights.fc2_latent_proj->0), 1, h, dim),
                shared,
            )
        } else {
            Content::Of(Rule::WeightedSum(h, k, F32_ONE), seq![routed, shares, shared])
        }
    }

    /// One row: its norm is routed, goes through the selected experts, on the
    /// latent width where the layer has one, and through the shared expert; the
    /// result is added to the hidden state.
    pub proof fn lemma_decode(
        self,
        l: Layout,
        m: Memory,
        cx: &ForwardContext,
        hidden: DevicePtr,
        residual: DevicePtr,
        stream: u64,
    )
        requires
            l.holds(
                seq![
                    hidden,
                    residual,
                    cx.buffers.norm_output,
                    cx.buffers.gate_logits,
                    cx.buffers.scratch,
                    cx.buffers.scratch.at(cx.top_k() * 4),
                    cx.buffers.ssm_ba,
                    cx.buffers.expert_up_out,
                    cx.buffers.ssm_qkvz,
                    cx.buffers.expert_down_out,
                    cx.buffers.ssm_deinterleaved,
                    cx.buffers.expert_gate_out,
                    cx.buffers.moe_output,
                ],
            ),
        ensures
            ({
                let (h, k) = (cx.h(), cx.top_k());
                let x = m[hidden];
                let normed = unary(Rule::Norm(self.input_norm, 1, h, cx.rms_norm_eps), x);
                let logits = product(normed, Weight::Dense(self.weights.gate), 1, cx.experts(), h);
                let c = self.choice(cx, 1, cx.experts(), k, cx.routed_scaling_factor);
                let up = product(
                    normed,
                    Weight::Nvfp4(self.weights.shared_up),
                    1,
                    cx.shared_inter(),
                    h,
                );
                let latent = self.moe_latent_size as u32;
                let (rows, dim) = if self.moe_latent_size > 0 {
                    (
                        product(
                            normed,
                            Weight::Dense(self.weights.fc1_latent_proj->0),
                            1,
                            latent,
                            h,
                        ),
                        latent,
                    )
                } else {
                    (normed, h)
                };
                let after = l.after(m, self.decode_plan(cx, hidden, residual, stream));
                &&& after[hidden] == binary(
                    Rule::Add(h),
                    x,
                    self.row_result(
                        rows,
                        up,
                        unary(Rule::Chosen(c), logits),
                        unary(Rule::Shares(c), logits),
                        (h, dim, cx.inter(), cx.shared_inter(), k),
                    ),
                )
                &&& after[residual] == x
            }),
    {
        broadcast use group_after;

        let ps = seq![
            hidden,
            residual,
            cx.buffers.norm_output,
            cx.buffers.gate_logits,
            cx.buffers.scratch,
            cx.buffers.scratch.at(cx.top_k() * 4),
            cx.buffers.ssm_ba,
            cx.buffers.expert_up_out,
            cx.buffers.ssm_qkvz,
            cx.buffers.expert_down_out,
            cx.buffers.ssm_deinterleaved,
            cx.buffers.expert_gate_out,
            cx.buffers.moe_output,
        ];
        l.lemma_rank(ps);
        assert(ps[0] == hidden);
        assert(ps[1] == residual);
        assert(ps[2] == cx.buffers.norm_output);
        assert(ps[3] == cx.buffers.gate_logits);
        assert(ps[4] == cx.buffers.scratch);
        assert(ps[5] == cx.buffers.scratch.at(cx.top_k() * 4));
        assert(ps[6] == cx.buffers.ssm_ba);
        assert(ps[7] == cx.buffers.expert_up_out);
        assert(ps[8] == cx.buffers.ssm_qkvz);
        assert(ps[9] == cx.buffers.expert_down_out);
        assert(ps[10] == cx.buffers.ssm_deinterleaved);
        assert(ps[11] == cx.buffers.expert_gate_out);
        assert(ps[12] == cx.buffers.moe_output);
        let s = Seq::<Step>::empty();
        assert(self.decode_route(cx, hidden, residual, stream) =~= s.push(
            self.decode_route(cx, hidden, residual, stream)[0],
        ).push(self.decode_route(cx, hidden, residual, stream)[1]).push(
            self.decode_route(cx, hidden, residual, stream)[2],
        ));
    }

    /// The expert weights of a batch: transposed where they are held.
    pub open spec fn table(held: Option<ExpertPtrTable>, plain: ExpertPtrTable) -> Weight {
        match held {
            Some(t) => Weight::Experts(t),
            None => Weight::Experts(plain),
        }
    }

    /// Places of a batch.
    pub open spec fn batch_places(self, cx: &ForwardContext, p: SortedPrefillCtx) -> Seq<
        DevicePtr,
    > {
        let te = (p.n * p.top_k) as u32;
        let g = p.gate_logits;
        let x = if self.moe_latent_size > 0 {
            p.latent_base->0
        } else {
            p.normed
        };
        seq![
            p.hidden,
            x,
            p.shared_up_out_base,
            g,
            g.at(te * 4),
            g.at(te * 8),
            g.at(te * 8 + (p.num_experts + 1) * 4),
            p.indices_dev,
            p.weights_dev,
            cx.buffers.expert_up_out,
            cx.buffers.expert_down_out,
            cx.buffers.moe_output,
            cx.buffers.ssm_deinterleaved,
            cx.buffers.attn_output,
        ]
    }

    /// A batch: rows sorted by selected expert, up product, squared activation,
    /// down product, gathered with the shares; the shared expert on all rows;
    /// back from the latent width where there is one; added to the hidden rows.
    #[verifier::rlimit(40)]
    pub proof fn lemma_batch(
        self,
        l: Layout,
        m: Memory,
        cx: &ForwardContext,
        p: SortedPrefillCtx,
        stream: u64,
    )
        requires
            p.gate_logits.0 != 0,
            l.holds(self.batch_places(cx, p)),
        ensures
            ({
                let te = (p.n * p.top_k) as u32;
                let (e, i, n, k) = (p.num_experts, p.inter, p.n, p.top_k);
                let h = p.h as u32;
                let all = (p.num_tokens * p.h) as u32;
                let (x, dim) = if self.moe_latent_size > 0 {
                    (m[p.latent_base->0], p.latent)
                } else {
                    (m[p.normed], h)
                };
                let c = self.choice(cx, n, e, k, p.scale);
                let logits = m[p.gate_logits];
                let chosen = unary(Rule::Chosen(c), logits);
                let tokens = unary(Rule::Sorted(0, te, e, k), chosen);
                let offsets = unary(Rule::Sorted(2, te, e, k), chosen);
                let positions = unary(Rule::Sorted(3, te, e, k), chosen);
                let up = Content::Of(
                    Rule::Grouped(Self::table(self.up_ptrs_t, self.up_ptrs), e, i, dim),
                    seq![x, offsets, tokens],
                );
                let act = unary(Rule::Relu2All((te * i) as u32), up);
                let down = binary(
                    Rule::Grouped(Self::table(self.down_ptrs_t, self.down_ptrs), e, dim, i),
                    act,
                    offsets,
                );
                let routed = Content::Of(
                    Rule::Gathered(dim, n, k),
                    seq![down, positions, unary(Rule::Shares(c), logits)],
                );
                let w = match self.shared_down_t {
                    Some(w) => Weight::Nvfp4T(w),
                    None => Weight::Nvfp4(self.weights.shared_down),
                };
                let shared = product(
                    unary(
                        Rule::Relu2All((n * p.shared_inter) as u32),
                        m[p.shared_up_out_base],
                    ),
                    w,
                    n,
                    h,
                    p.shared_inter,
                );
                let back = if self.moe_latent_size > 0 {
                    product(
                        routed,
                        Weight::Dense(self.weights.fc2_latent_proj->0),
                        n,
                        h,
                        p.latent,
                    )
                } else {
                    routed
                };
                l.after(
                    m,
                    self.sorted_finish(cx, self.sorted_routed(cx, p, stream), p, stream),
                )[p.hidden] == binary(
                    Rule::Add(all),
                    m[p.hidden],
                    binary(Rule::Add(all), back, shared),
                )
            }),
    {
        broadcast use group_after;

        let te = Self::expanded(p);
        let g = p.gate_logits;
        let r = sort_regions(g, te as int, p.num_experts as int);
        let x = if self.moe_latent_size > 0 {
            p.latent_base->0
        } else {
            p.normed
        };
        let ps = self.batch_places(cx, p);
        l.lemma_rank(ps);
        assert(ps[0] == p.hidden);
        assert(ps[1] == x);
        assert(ps[2] == p.shared_up_out_base);
        assert(ps[3] == g);
        assert(ps[4] == g.at(te * 4));
        assert(ps[5] == g.at(te * 8));
        assert(ps[6] == g.at(te * 8 + (p.num_experts + 1) * 4));
        assert(ps[7] == p.indices_dev);
        assert(ps[8] == p.weights_dev);
        assert(ps[9] == cx.buffers.expert_up_out);
        assert(ps[10] == cx.buffers.expert_down_out);
        assert(ps[11] == cx.buffers.moe_output);
        assert(ps[12] == cx.buffers.ssm_deinterleaved);
        assert(ps[13] == cx.buffers.attn_output);
        assert(r.sorted_expert_ids == ps[4] && r.expert_offsets == ps[5] && r.token_to_perm
            == ps[6]);
    }

    /// Where row `t` of a batch that goes row by row is written.
    pub open spec fn hidden_row(p: SortedPrefillCtx, t: int) -> DevicePtr {
        p.hidden.at(t * p.h * 2)
    }

    /// Places of a batch that goes row by row, besides its hidden rows.
    pub open spec fn row_places(self, cx: &ForwardContext, p: SortedPrefillCtx) -> Seq<
        DevicePtr,
    > {
        let x = if self.moe_latent_size > 0 {
            p.latent_base->0
        } else {
            p.normed
        };
        let up = p.shared_up_out_base;
        let g = p.gate_logits;
        seq![
            x,
            up,
            g,
            p.indices_dev,
            p.weights_dev,
            cx.buffers.scratch,
            cx.buffers.scratch.at(p.top_k * 4),
            cx.buffers.expert_up_out,
            cx.buffers.expert_down_out,
            cx.buffers.ssm_deinterleaved,
            cx.buffers.expert_gate_out,
            cx.buffers.attn_output,
            cx.buffers.moe_output,
        ]
    }

    /// The rows that the experts read, the shared up products and the router
    /// logits lie one after the other, and the hidden rows are apart.
    pub open spec fn rows_laid_out(
        self,
        l: Layout,
        cx: &ForwardContext,
        p: SortedPrefillCtx,
    ) -> bool {
        let (x, dim) = if self.moe_latent_size > 0 {
            (p.latent_base->0, p.latent as int)
        } else {
            (p.normed, p.h as int)
        };
        let ps = self.row_places(cx, p);
        let up = p.shared_up_out_base;
        &&& l.holds(ps)
        &&& forall|t: int|
            #![trigger Self::hidden_row(p, t)]
            0 <= t < p.num_tokens ==> {
                &&& (l.home)(Self::hidden_row(p, t)) == (Self::hidden_row(p, t), 0int)
                &&& !ps.contains(Self::hidden_row(p, t))
                &&& (l.home)(x.at(t * dim * 2)) == (x, t * dim * 2)
                &&& (l.home)(up.at(t * p.shared_inter * 2)) == (up, t * p.shared_inter * 2)
                &&& (l.home)(p.gate_logits.at(t * p.num_experts * 2)) == (
                    p.gate_logits,
                    t * p.num_experts * 2,
                )
                &&& (l.home)(p.indices_dev.at(t * p.top_k * 4)) == (
                    p.indices_dev,
                    t * p.top_k * 4,
                )
                &&& (l.home)(p.weights_dev.at(t * p.top_k * 4)) == (
                    p.weights_dev,
                    t * p.top_k * 4,
                )
            }
        &&& forall|t: int, u: int|
            #![trigger Self::hidden_row(p, t), Self::hidden_row(p, u)]
            0 <= t < u < p.num_tokens ==> Self::hidden_row(p, t) != Self::hidden_row(p, u)
    }

    /// What row `t` adds to its hidden row; the selection is that of its own
    /// logits, or its part of the selection for all rows.
    pub open spec fn row_addend(
        self,
        m: Memory,
        cx: &ForwardContext,
        p: SortedPrefillCtx,
        t: int,
    ) -> Content {
        let (x, dim) = if self.moe_latent_size > 0 {
            (p.latent_base->0, p.latent)
        } else {
            (p.normed, p.h as u32)
        };
        let wide: int = if self.moe_latent_size > 0 {
            p.latent as int
        } else {
            p.h as int
        };
        let logits = part(m[p.gate_logits], t * p.num_experts * 2);
        let c = self.choice(cx, 1, p.num_experts, p.top_k, p.scale);
        self.row_result(
            part(m[x], t * wide * 2),
            part(m[p.shared_up_out_base], t * p.shared_inter * 2),
            if self.routes_rows_at_once(p) {
                part(m[p.indices_dev], t * p.top_k * 4)
            } else {
                unary(Rule::Chosen(c), logits)
            },
            if self.routes_rows_at_once(p) {
                part(m[p.weights_dev], t * p.top_k * 4)
            } else {
                unary(Rule::Shares(c), logits)
            },
            (p.h as u32, dim, p.inter, p.shared_inter, p.top_k),
        )
    }

    #[verifier::rlimit(40)]
    proof fn lemma_one_row(
        self,
        l: Layout,
        m: Memory,
        cx: &ForwardContext,
        s: Seq<Step>,
        p: SortedPrefillCtx,
        t: int,
        stream: u64,
    )
        requires
            0 <= t < p.num_tokens,
            self.rows_laid_out(l, cx, p),
        ensures
            ({
                let before = l.after(m, s);
                let s1 = self.row_route(cx, s, p, t, stream);
                let after = l.after(
                    m,
                    if self.moe_latent_size > 0 {
                        self.row_latent(cx, s1, p, t, stream)
                    } else {
                        self.row_direct(cx, s1, p, t, stream)
                    },
                );
                let h = Self::hidden_row(p, t);
                let ps = self.row_places(cx, p);
                &&& after[h] == binary(
                    Rule::Add(p.h as u32),
                    before[h],
                    self.row_addend(before, cx, p, t),
                )
                &&& after[ps[0]] == before[ps[0]]
                &&& after[ps[1]] == before[ps[1]]
                &&& after[ps[2]] == before[ps[2]]
                &&& after[ps[3]] == before[ps[3]]
                &&& after[ps[4]] == before[ps[4]]
                &&& forall|q: DevicePtr|
                    q != h && !ps.contains(q) ==> #[trigger] after[q] == before[q]
            }),
    {
        broadcast use group_after;

        let x = if self.moe_latent_size > 0 {
            p.latent_base->0
        } else {
            p.normed
        };
        let up = p.shared_up_out_base;
        let g = p.gate_logits;
        let h = Self::hidden_row(p, t);
        let ps = self.row_places(cx, p);
        l.lemma_rank(ps);
        assert(ps[0] == x);
        assert(ps[1] == up);
        assert(ps[2] == g);
        assert(ps[3] == p.indices_dev);
        assert(ps[4] == p.weights_dev);
        assert(ps[5] == cx.buffers.scratch);
        assert(ps[6] == cx.buffers.scratch.at(p.top_k * 4));
        assert(ps[7] == cx.buffers.expert_up_out);
        assert(ps[8] == cx.buffers.expert_down_out);
        assert(ps[9] == cx.buffers.ssm_deinterleaved);
        assert(ps[10] == cx.buffers.expert_gate_out);
        assert(ps[11] == cx.buffers.attn_output);
        assert(ps[12] == cx.buffers.moe_output);
        assert(!ps.contains(h));
    }

    proof fn lemma_rows(
        self,
        l: Layout,
        m: Memory,
        cx: &ForwardContext,
        s0: Seq<Step>,
        p: SortedPrefillCtx,
        n: nat,
        stream: u64,
    )
        requires
            n <= p.num_tokens,
            self.rows_laid_out(l, cx, p),
        ensures
            ({
                let base = l.after(m, s0);
                let after = l.after(m, self.fallback_rows(cx, s0, p, n, stream));
                let ps = self.row_places(cx, p);
                &&& forall|t: int|
                    #![trigger Self::hidden_row(p, t)]
                    0 <= t < p.num_tokens ==> after[Self::hidden_row(p, t)] == if t < n {
                        binary(
                            Rule::Add(p.h as u32),
                            base[Self::hidden_row(p, t)],
                            self.row_addend(base, cx, p, t),
                        )
                    } else {
                        base[Self::hidden_row(p, t)]
                    }
                &&& forall|k: int| 0 <= k < 5 ==> after[#[trigger] ps[k]] == base[ps[k]]
            }),
        decreases n,
    {
        broadcast use group_after;

        let ps = self.row_places(cx, p);
        if n > 0 {
            self.lemma_rows(l, m, cx, s0, p, (n - 1) as nat, stream);
            let s = self.fallback_rows(cx, s0, p, (n - 1) as nat, stream);
            self.lemma_one_row(l, m, cx, s, p, n - 1, stream);
            let base = l.after(m, s0);
            let before = l.after(m, s);
            let h = Self::hidden_row(p, n - 1);
            assert(before[ps[0]] == base[ps[0]] && before[ps[1]] == base[ps[1]]);
            assert(before[ps[2]] == base[ps[2]] && before[ps[3]] == base[ps[3]]);
            assert(before[ps[4]] == base[ps[4]]);
            assert(self.row_addend(before, cx, p, n - 1) == self.row_addend(base, cx, p, n - 1));
            let after = l.after(m, self.fallback_rows(cx, s0, p, n, stream));
            assert forall|k: int| 0 <= k < 5 implies after[#[trigger] ps[k]] == base[ps[k]] by {
                assert(k == 0 || k == 1 || k == 2 || k == 3 || k == 4);
            }
            assert forall|t: int|
                #![trigger Self::hidden_row(p, t)]
                0 <= t < p.num_tokens && t != n - 1 implies after[Self::hidden_row(p, t)]
                == before[Self::hidden_row(p, t)] by {
                assert(Self::hidden_row(p, t) != h);
                assert(!ps.contains(Self::hidden_row(p, t)));
            }
        }
    }

    /// Row by row the batch does to each hidden row what one row gets: the
    /// experts that its own logits select, on its own inputs. Where the
    /// selection is made for all rows at once, a row uses its part of it.
    pub proof fn lemma_row_by_row(
        self,
        l: Layout,
        m: Memory,
        cx: &ForwardContext,
        p: SortedPrefillCtx,
        stream: u64,
    )
        requires
            self.rows_laid_out(l, cx, p),
        ensures
            ({
                let after = l.after(m, self.fallback_plan(cx, p, stream));
                let c = self.choice(cx, p.n, p.num_experts, p.top_k, p.scale);
                let base = if self.k.topk_sigmoid_batched.0 != 0 && p.num_tokens > 1 {
                    m.insert(p.indices_dev, unary(Rule::Chosen(c), m[p.gate_logits])).insert(
                        p.weights_dev,
                        unary(Rule::Shares(c), m[p.gate_logits]),
                    )
                } else {
                    m
                };
                forall|t: int|
                    #![trigger Self::hidden_row(p, t)]
                    0 <= t < p.num_tokens ==> after[Self::hidden_row(p, t)] == binary(
                        Rule::Add(p.h as u32),
                        m[Self::hidden_row(p, t)],
                        self.row_addend(base, cx, p, t),
                    )
            }),
    {
        broadcast use group_after;

        let x = if self.moe_latent_size > 0 {
            p.latent_base->0
        } else {
            p.normed
        };
        let up = p.shared_up_out_base;
        let g = p.gate_logits;
        let ps = self.row_places(cx, p);
        l.lemma_rank(ps);
        assert(ps[0] == x);
        assert(ps[1] == up);
        assert(ps[2] == g);
        assert(ps[3] == p.indices_dev);
        assert(ps[4] == p.weights_dev);
        assert(ps[5] == cx.buffers.scratch);
        assert(ps[6] == cx.buffers.scratch.at(p.top_k * 4));
        assert(ps[7] == cx.buffers.expert_up_out);
        assert(ps[8] == cx.buffers.expert_down_out);
        assert(ps[9] == cx.buffers.ssm_deinterleaved);
        assert(ps[10] == cx.buffers.expert_gate_out);
        assert(ps[11] == cx.buffers.attn_output);
        assert(ps[12] == cx.buffers.moe_output);
        let s = if self.routes_rows_at_once(p) {
            on(Seq::empty(), stream, self.topk_sigmoid_rows(cx, p))
        } else {
            Seq::empty()
        };
        let base = l.after(m, s);
        self.lemma_rows(l, m, cx, s, p, p.num_tokens as nat, stream);
        assert forall|t: int|
            #![trigger Self::hidden_row(p, t)]
            0 <= t < p.num_tokens implies base[Self::hidden_row(p, t)] == m[Self::hidden_row(
            p,
            t,
        )] by {
            assert(!ps.contains(Self::hidden_row(p, t)));
        }
    }
}

} // verus!
