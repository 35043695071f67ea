//! What the plans of a mixture-of-experts layer compute.

use crate::context::ForwardContext;
use crate::gpu::{f32_positive, DevicePtr, KernelHandle, F32_ONE};
use crate::meaning::{
    binary, group_after, part, product, unary, Choice, Content, Layout, Memory, Rule, Weight,
};
use crate::moe::forward_prefill_routed::RoutedRows;
use crate::moe::routing::{max_m_tiles, sort_regions};
use crate::moe::MoeLayer;
use crate::plan::{on, timed, Op, Step};
use vstd::prelude::*;

verus! {

impl MoeLayer {
    /// Expert weights of the grouped pass: transposed tables come in pairs for
    /// gate and up, and count only together.
    pub open spec fn gate_experts(&self) -> Weight {
        if self.gate_ptrs_t is Some && self.up_ptrs_t is Some {
            Weight::ExpertsT(self.gate_ptrs_t->0)
        } else {
            Weight::Experts(self.gate_ptrs)
        }
    }

    pub open spec fn up_experts(&self) -> Weight {
        if self.gate_ptrs_t is Some && self.up_ptrs_t is Some {
            Weight::ExpertsT(self.up_ptrs_t->0)
        } else {
            Weight::Experts(self.up_ptrs)
        }
    }

    pub open spec fn down_experts(&self) -> Weight {
        if self.down_ptrs_t is Some {
            Weight::ExpertsT(self.down_ptrs_t->0)
        } else {
            Weight::Experts(self.down_ptrs)
        }
    }

    /// The activation with its limit, where there is one.
    pub open spec fn limited(&self, x: Content, elems: u32) -> Content {
        if f32_positive(self.swiglu_clamp) && self.k.clamp_bf16.0 != 0 {
            unary(Rule::Clamp(self.swiglu_clamp, elems), x)
        } else {
            x
        }
    }

    /// In a grouped pass two products read the same rows, one with the weights for
    /// gates and one with those for up projections; the activation takes both, and
    /// the down product takes the activation. This holds for plain and transposed
    /// tables alike.
    pub proof fn lemma_routed_pass(
        &self,
        l: Layout,
        m: Memory,
        cx: &ForwardContext,
        s: Seq<Step>,
        r: RoutedRows,
        stream: u64,
    )
        requires
            max_m_tiles(r.num_tokens, cx.top_k()) > 0,
            r.sorted_token_ids.0 != 0,
            l.holds(
                seq![
                    r.expert_input,
                    r.expert_offsets,
                    r.sorted_token_ids,
                    cx.buffers.expert_gate_out,
                    cx.buffers.expert_up_out,
                    cx.buffers.expert_down_out,
                ],
            ),
        ensures
            ({
                let before = l.after(m, s);
                let rows = before[r.expert_input];
                let offsets = before[r.expert_offsets];
                let order = before[r.sorted_token_ids];
                let (e, h, i) = (cx.experts(), cx.h(), cx.inter());
                let gate = Content::Of(
                    Rule::Grouped(self.gate_experts(), e, i, h),
                    seq![rows, offsets, order],
                );
                let up = Content::Of(
                    Rule::Grouped(self.up_experts(), e, i, h),
                    seq![rows, offsets, order],
                );
                let elems = (Self::expanded(cx, r.num_tokens) * i) as u32;
                let act = self.limited(binary(Rule::Activate(elems), gate, up), elems);
                let down = binary(Rule::Grouped(self.down_experts(), e, h, i), act, offsets);
                l.after(m, self.routed_plan(cx, s, r, stream)) =~= before.insert(
                    cx.buffers.expert_gate_out,
                    act,
                ).insert(cx.buffers.expert_up_out, up).insert(cx.buffers.expert_down_out, down)
            }),
    {
        broadcast use group_after;

        let ps = seq![
            r.expert_input,
            r.expert_offsets,
            r.sorted_token_ids,
            cx.buffers.expert_gate_out,
            cx.buffers.expert_up_out,
            cx.buffers.expert_down_out,
        ];
        l.lemma_rank(ps);
        assert(ps[0] == r.expert_input && ps[1] == r.expert_offsets && ps[2] == r.sorted_token_ids);
        assert(ps[3] == cx.buffers.expert_gate_out && ps[4] == cx.buffers.expert_up_out && ps[5]
            == cx.buffers.expert_down_out);
    }

    /// Weights of the shared expert in a batch: gate and up in one format, down
    /// in the first format that is held.
    pub open spec fn shared_weights(&self) -> (Weight, Weight, Weight) {
        let sh = self.weights.shared_expert;
        let (gate, up) = if self.shared_gate_fp8 is Some && self.shared_up_fp8 is Some {
            (Weight::Fp8(self.shared_gate_fp8->0), Weight::Fp8(self.shared_up_fp8->0))
        } else if self.shared_gate_dense is Some && self.shared_up_dense is Some
            && self.shared_down_dense is Some {
            (Weight::Dense(self.shared_gate_dense->0), Weight::Dense(self.shared_up_dense->0))
        } else if self.shared_gate_t is Some && self.shared_up_t is Some
            && self.shared_down_t is Some {
            (Weight::Nvfp4T(self.shared_gate_t->0), Weight::Nvfp4T(self.shared_up_t->0))
        } else {
            (Weight::Nvfp4(sh.gate_proj), Weight::Nvfp4(sh.up_proj))
        };
        let down = if self.shared_down_fp8 is Some {
            Weight::Fp8(self.shared_down_fp8->0)
        } else if self.shared_down_t is Some {
            Weight::Nvfp4T(self.shared_down_t->0)
        } else if self.shared_down_dense is Some {
            Weight::Dense(self.shared_down_dense->0)
        } else {
            Weight::Nvfp4(sh.down_proj)
        };
        (gate, up, down)
    }

    /// The router's weight; a batch prefers an FP8 copy.
    pub open spec fn router_weight(&self, batch: bool) -> Weight {
        if batch && self.gate_fp8 is Some {
            Weight::Fp8(self.gate_fp8->0)
        } else if self.gate_nvfp4 is Some {
            Weight::Nvfp4(self.gate_nvfp4->0)
        } else {
            Weight::Dense(self.weights.gate)
        }
    }

    /// How the layer selects experts for `rows` rows.
    pub open spec fn choice(&self, cx: &ForwardContext, rows: u32, scale: u32) -> Choice {
        let sigmoid = self.correction_bias_dev is Some;
        Choice {
            bias: self.correction_bias_dev,
            rows,
            experts: cx.experts(),
            top_k: cx.top_k(),
            normalize: cx.config.norm_topk_prob,
            scale: if sigmoid {
                scale
            } else {
                0
            },
            n_group: if sigmoid {
                cx.n_group()
            } else {
                0
            },
            topk_group: if sigmoid {
                cx.topk_group()
            } else {
                0
            },
        }
    }

    /// Scores that experts are selected by.
    pub open spec fn logits_of(
        &self,
        cx: &ForwardContext,
        x: Content,
        rows: u32,
        batch: bool,
    ) -> Content {
        product(
            unary(Rule::RouterView(rows, cx.h()), x),
            self.router_weight(batch),
            rows,
            cx.experts(),
            cx.h(),
        )
    }

    /// The shared expert computes its down product of the activation of its gate
    /// and up products, all of the layer's input, and leaves everything else but
    /// its own buffers alone.
    pub proof fn lemma_shared_expert(
        &self,
        l: Layout,
        m: Memory,
        cx: &ForwardContext,
        s: Seq<Step>,
        input: DevicePtr,
        n: u32,
        h: u32,
        inter: u32,
        aux: u64,
        stream: u64,
        overlap: bool,
    )
        requires
            inter > 0,
            l.holds(
                seq![
                    input,
                    cx.buffers.ssm_deinterleaved,
                    cx.buffers.ssm_qkvz,
                    cx.buffers.attn_output,
                ],
            ),
        ensures
            ({
                let before = l.after(m, s);
                let after = l.after(
                    m,
                    self.shared_expert(cx, s, input, n, h, inter, aux, stream, overlap),
                );
                let (g, u, d) = self.shared_weights();
                let gate = product(before[input], g, n, inter, h);
                let up = product(before[input], u, n, inter, h);
                let act = binary(Rule::Activate((n * inter) as u32), gate, up);
                &&& after =~= before.insert(cx.buffers.ssm_deinterleaved, act).insert(
                    cx.buffers.ssm_qkvz,
                    up,
                ).insert(cx.buffers.attn_output, product(act, d, n, h, inter))
            }),
    {
        broadcast use group_after;

        let ps = seq![
            input,
            cx.buffers.ssm_deinterleaved,
            cx.buffers.ssm_qkvz,
            cx.buffers.attn_output,
        ];
        l.lemma_rank(ps);
        assert(ps[0] == input && ps[1] == cx.buffers.ssm_deinterleaved);
        assert(ps[2] == cx.buffers.ssm_qkvz && ps[3] == cx.buffers.attn_output);
    }

    /// Where a batch keeps what it works on: the input, the router's view of it,
    /// the buffers of the shared expert, the regions of the sort, the selection
    /// and its shares, the buffers of the experts and the result.
    pub open spec fn batch_places(
        cx: &ForwardContext,
        input: DevicePtr,
        router_in: DevicePtr,
        num_tokens: usize,
    ) -> Seq<DevicePtr> {
        let te = Self::expanded(cx, num_tokens);
        let g = cx.buffers.gate_logits;
        seq![
            input,
            router_in,
            cx.buffers.ssm_deinterleaved,
            cx.buffers.ssm_qkvz,
            cx.buffers.attn_output,
            g,
            g.at(te * 4),
            g.at(te * 8),
            g.at(te * 8 + (cx.experts() + 1) * 4),
            cx.buffers.scratch,
            cx.buffers.scratch.at(te * 4),
            cx.buffers.expert_gate_out,
            cx.buffers.expert_up_out,
            cx.buffers.expert_down_out,
            cx.buffers.moe_output,
        ]
    }

    /// The rows of a batch after its experts: sorted by selected expert, sent
    /// through gate, up, activation and down, brought back to their tokens with
    /// the shares that the selection gave.
    pub open spec fn experts_of(
        cx: &ForwardContext,
        rows: Content,
        logits: Content,
        weights: (Weight, Weight, Weight),
        choice: Choice,
        limit: Option<u32>,
        num_tokens: usize,
    ) -> Content {
        let n = num_tokens as u32;
        let te = Self::expanded(cx, num_tokens);
        let (e, h, i) = (cx.experts(), cx.h(), cx.inter());
        let chosen = unary(Rule::Chosen(choice), logits);
        let shares = unary(Rule::Shares(choice), logits);
        let tokens = unary(Rule::Sorted(0, te, e, cx.top_k()), chosen);
        let offsets = unary(Rule::Sorted(2, te, e, cx.top_k()), chosen);
        let positions = unary(Rule::Sorted(3, te, e, cx.top_k()), chosen);
        let gate = Content::Of(Rule::Grouped(weights.0, e, i, h), seq![rows, offsets, tokens]);
        let up = Content::Of(Rule::Grouped(weights.1, e, i, h), seq![rows, offsets, tokens]);
        let act = binary(Rule::Activate((te * i) as u32), gate, up);
        let act = match limit {
            Some(x) => unary(Rule::Clamp(x, (te * i) as u32), act),
            None => act,
        };
        let down = binary(Rule::Grouped(weights.2, e, h, i), act, offsets);
        Content::Of(Rule::Gathered(h, n, cx.top_k()), seq![down, positions, shares])
    }

    /// The routed rows summed over the ranks where there are several, and then
    /// the shared expert of the input through its own gate.
    pub open spec fn batch_result(
        &self,
        cx: &ForwardContext,
        input: Content,
        routed: Content,
        weights: (Weight, Weight, Weight),
        num_tokens: usize,
    ) -> Content {
        let n = num_tokens as u32;
        let (h, si) = (cx.h(), cx.shared_inter());
        let total = if cx.spec_is_ep() {
            unary(Rule::OverRanks((num_tokens * h * 2) as usize), routed)
        } else {
            routed
        };
        if si > 0 {
            let gate = product(input, weights.0, n, si, h);
            let up = product(input, weights.1, n, si, h);
            let act = binary(Rule::Activate((n * si) as u32), gate, up);
            Content::Of(
                Rule::AddShared(self.weights.shared_expert_gate.weight, h, n),
                seq![total, product(act, weights.2, n, h, si), input],
            )
        } else {
            total
        }
    }

    proof fn lemma_front(
        &self,
        l: Layout,
        m: Memory,
        cx: &ForwardContext,
        input: DevicePtr,
        router_in: DevicePtr,
        num_tokens: usize,
        stream: u64,
    )
        requires
            l.holds(Self::batch_places(cx, input, router_in, num_tokens)),
        ensures
            ({
                let n = num_tokens as u32;
                let after = l.after(
                    m,
                    self.prefill_front(cx, Seq::empty(), input, router_in, n, stream),
                );
                let (g, u, d) = self.shared_weights();
                let (h, si) = (cx.h(), cx.shared_inter());
                let gate = product(m[input], g, n, si, h);
                let up = product(m[input], u, n, si, h);
                let act = binary(Rule::Activate((n * si) as u32), gate, up);
                &&& after[input] == m[input]
                &&& after[cx.buffers.gate_logits] == self.logits_of(cx, m[input], n, true)
                &&& si > 0 ==> after[cx.buffers.attn_output] == product(act, d, n, h, si)
            }),
    {
        broadcast use group_after;

        let n = num_tokens as u32;
        let ps = Self::batch_places(cx, input, router_in, num_tokens);
        l.lemma_rank(ps);
        assert(ps[0] == input && ps[1] == router_in);
        assert(ps[2] == cx.buffers.ssm_deinterleaved && ps[3] == cx.buffers.ssm_qkvz);
        assert(ps[4] == cx.buffers.attn_output && ps[5] == cx.buffers.gate_logits);
        let qs = seq![
            input,
            cx.buffers.ssm_deinterleaved,
            cx.buffers.ssm_qkvz,
            cx.buffers.attn_output,
        ];
        assert(qs[0] == ps[0] && qs[1] == ps[2] && qs[2] == ps[3] && qs[3] == ps[4]);
        let time_transpose = cx.profile && self.down_t_scratch_packed is Some;
        let s = timed(Seq::empty(), time_transpose, stream);
        let s = on(s, stream, Op::MoeTransposeDown);
        let s = timed(s, time_transpose, stream);
        let s = timed(s, cx.profile, stream);
        assert(l.after(m, s) == m);
        if cx.shared_inter() > 0 {
            self.lemma_shared_expert(
                l,
                m,
                cx,
                s,
                input,
                n,
                cx.h(),
                cx.shared_inter(),
                stream,
                stream,
                false,
            );
        }
    }

    /// A batch on 4-bit experts computes the routed experts of its rows, or of
    /// their norm where the layer has one in front of the experts, and adds the
    /// shared expert.
    #[verifier::rlimit(60)]
    pub proof fn lemma_batch(
        &self,
        l: Layout,
        m: Memory,
        cx: &ForwardContext,
        input: DevicePtr,
        router_in: DevicePtr,
        num_tokens: usize,
        stream: u64,
    )
        requires
            max_m_tiles(num_tokens, cx.top_k()) > 0,
            !self.lacks_batch_selection(),
            cx.buffers.gate_logits.0 != 0,
            l.holds(Self::batch_places(cx, input, router_in, num_tokens)),
        ensures
            ({
                let n = num_tokens as u32;
                let x = m[input];
                let rows = match self.pre_expert_norm {
                    Some(w) => unary(Rule::Norm(w, n, cx.h(), cx.rms_norm_eps), x),
                    None => x,
                };
                let limit = if f32_positive(self.swiglu_clamp) && self.k.clamp_bf16.0 != 0 {
                    Some(self.swiglu_clamp)
                } else {
                    None
                };
                let routed = Self::experts_of(
                    cx,
                    rows,
                    self.logits_of(cx, x, n, true),
                    (self.gate_experts(), self.up_experts(), self.down_experts()),
                    self.choice(cx, n, F32_ONE),
                    limit,
                    num_tokens,
                );
                l.after(m, self.prefill_plan(cx, input, router_in, num_tokens, stream))[
                    cx.buffers.moe_output
                ] == self.batch_result(cx, x, routed, self.shared_weights(), num_tokens)
            }),
    {
        broadcast use group_after;

        let n = num_tokens as u32;
        let te = Self::expanded(cx, num_tokens);
        let r = sort_regions(cx.buffers.gate_logits, te as int, cx.experts() as int);
        let ps = Self::batch_places(cx, input, router_in, num_tokens);
        l.lemma_rank(ps);
        assert(ps[0] == input);
        assert(ps[1] == router_in);
        assert(ps[2] == cx.buffers.ssm_deinterleaved);
        assert(ps[3] == cx.buffers.ssm_qkvz);
        assert(ps[4] == cx.buffers.attn_output);
        assert(ps[5] == cx.buffers.gate_logits);
        assert(ps[6] == r.sorted_expert_ids);
        assert(ps[7] == r.expert_offsets);
        assert(ps[8] == r.token_to_perm);
        assert(ps[9] == cx.buffers.scratch);
        assert(ps[10] == cx.buffers.scratch.at(te * 4));
        assert(ps[11] == cx.buffers.expert_gate_out);
        assert(ps[12] == cx.buffers.expert_up_out);
        assert(ps[13] == cx.buffers.expert_down_out);
        assert(ps[14] == cx.buffers.moe_output);
        self.lemma_front(l, m, cx, input, router_in, num_tokens, stream);
        let s = self.prefill_front(cx, Seq::empty(), input, router_in, n, stream);
        let weights = cx.buffers.scratch.at(te * 4);
        let s = timed(self.prefill_topk(cx, s, weights, n, stream), cx.profile, stream);
        let s = timed(on(s, stream, self.sort_op(cx, r, te)), cx.profile, stream);
        let s = timed(self.pre_norm(cx, s, input, n, stream), cx.profile, stream);
        let rr = RoutedRows {
            expert_input: self.expert_input(cx, input),
            expert_offsets: r.expert_offsets,
            sorted_token_ids: r.sorted_token_ids,
            num_tokens,
        };
        let qs = seq![
            rr.expert_input,
            rr.expert_offsets,
            rr.sorted_token_ids,
            cx.buffers.expert_gate_out,
            cx.buffers.expert_up_out,
            cx.buffers.expert_down_out,
        ];
        assert(qs[0] == ps[0] || qs[0] == ps[2]);
        assert(qs[1] == ps[7] && qs[2] == ps[5] && qs[3] == ps[11] && qs[4] == ps[12] && qs[5]
            == ps[13]);
        self.lemma_routed_pass(l, m, cx, s, rr, stream);
    }

    /// A batch on FP8 experts computes the same function on the FP8 weights.
    #[verifier::rlimit(60)]
    pub proof fn lemma_fp8_batch(
        &self,
        l: Layout,
        m: Memory,
        cx: &ForwardContext,
        input: DevicePtr,
        router_in: DevicePtr,
        num_tokens: usize,
        kernel: KernelHandle,
        stream: u64,
    )
        requires
            max_m_tiles(num_tokens, cx.top_k()) > 0,
            cx.buffers.gate_logits.0 != 0,
            l.holds(Self::batch_places(cx, input, router_in, num_tokens)),
        ensures
            ({
                let n = num_tokens as u32;
                let sh = self.fp8_shared_expert->0;
                let routed = Self::experts_of(
                    cx,
                    m[input],
                    self.logits_of(cx, m[input], n, false),
                    (
                        Weight::Fp8Experts(self.fp8_gate_weight_ptrs->0),
                        Weight::Fp8Experts(self.fp8_up_weight_ptrs->0),
                        Weight::Fp8Experts(self.fp8_down_weight_ptrs->0),
                    ),
                    self.choice(cx, n, cx.routed_scaling_factor),
                    None,
                    num_tokens,
                );
                let shared = (
                    Weight::RowScaled(sh.gate_proj.weight, sh.gate_proj.row_scale),
                    Weight::RowScaled(sh.up_proj.weight, sh.up_proj.row_scale),
                    Weight::RowScaled(sh.down_proj.weight, sh.down_proj.row_scale),
                );
                l.after(m, self.fp8_plan(cx, input, router_in, num_tokens, kernel, stream))[
                    cx.buffers.moe_output
                ] == self.batch_result(cx, m[input], routed, shared, num_tokens)
            }),
    {
        broadcast use group_after;

        let te = Self::expanded(cx, num_tokens);
        let r = sort_regions(cx.buffers.gate_logits, te as int, cx.experts() as int);
        let ps = Self::batch_places(cx, input, router_in, num_tokens);
        l.lemma_rank(ps);
        assert(ps[0] == input);
        assert(ps[1] == router_in);
        assert(ps[2] == cx.buffers.ssm_deinterleaved);
        assert(ps[3] == cx.buffers.ssm_qkvz);
        assert(ps[4] == cx.buffers.attn_output);
        assert(ps[5] == cx.buffers.gate_logits);
        assert(ps[6] == r.sorted_expert_ids);
        assert(ps[7] == r.expert_offsets);
        assert(ps[8] == r.token_to_perm);
        assert(ps[9] == cx.buffers.scratch);
        assert(ps[10] == cx.buffers.scratch.at(te * 4));
        assert(ps[11] == cx.buffers.expert_gate_out);
        assert(ps[12] == cx.buffers.expert_up_out);
        assert(ps[13] == cx.buffers.expert_down_out);
        assert(ps[14] == cx.buffers.moe_output);
    }

    /// Weights of the routed experts and of the shared one, in that order gate,
    /// up and down, where rows go through one by one or in pairs.
    pub open spec fn row_weights(&self, transposed: bool) -> (
        (Weight, Weight, Weight),
        (Weight, Weight, Weight),
    ) {
        let sh = self.weights.shared_expert;
        let f = self.fp8_shared_expert->0;
        if self.spec_fp8_ready() {
            (
                (
                    Weight::Fp8Experts(self.fp8_gate_weight_ptrs->0),
                    Weight::Fp8Experts(self.fp8_up_weight_ptrs->0),
                    Weight::Fp8Experts(self.fp8_down_weight_ptrs->0),
                ),
                (
                    Weight::RowScaled(f.gate_proj.weight, f.gate_proj.row_scale),
                    Weight::RowScaled(f.up_proj.weight, f.up_proj.row_scale),
                    Weight::RowScaled(f.down_proj.weight, f.down_proj.row_scale),
                ),
            )
        } else if transposed {
            (
                (
                    Weight::ExpertsT(self.gate_ptrs_t->0),
                    Weight::ExpertsT(self.up_ptrs_t->0),
                    Weight::ExpertsT(self.down_ptrs_t->0),
                ),
                (
                    Weight::Nvfp4T(Self::or_null(self.shared_gate_t)),
                    Weight::Nvfp4T(Self::or_null(self.shared_up_t)),
                    Weight::Nvfp4T(Self::or_null(self.shared_down_t)),
                ),
            )
        } else {
            (
                (
                    Weight::Experts(self.gate_ptrs),
                    Weight::Experts(self.up_ptrs),
                    Weight::Experts(self.down_ptrs),
                ),
                (
                    Weight::Nvfp4(sh.gate_proj),
                    Weight::Nvfp4(sh.up_proj),
                    Weight::Nvfp4(sh.down_proj),
                ),
            )
        }
    }

    /// Down product of the activation of gate and up, by the selected experts
    /// and by the shared one.
    pub open spec fn row_experts(
        &self,
        cx: &ForwardContext,
        x: Content,
        chosen: Content,
        transposed: bool,
        rows: u32,
    ) -> (Content, Content) {
        let (r, sh) = self.row_weights(transposed);
        let (h, i, k) = (cx.h(), cx.inter(), cx.top_k());
        let gate = binary(Rule::ByExpert(r.0, i, h, k), x, chosen);
        let up = binary(Rule::ByExpert(r.1, i, h, k), x, chosen);
        let act = binary(Rule::Activate(i), gate, up);
        let shared_gate = product(x, sh.0, rows, i, h);
        let shared_up = product(x, sh.1, rows, i, h);
        let shared_act = binary(Rule::Activate(i), shared_gate, shared_up);
        (
            binary(Rule::ByExpert(r.2, h, i, k), act, chosen),
            product(shared_act, sh.2, rows, h, i),
        )
    }

    /// Two rows at once: the experts that the router selects, weighted with its
    /// shares, and the shared expert. With several ranks the shared part is
    /// added once, behind the sum over the ranks.
    #[verifier::rlimit(60)]
    pub proof fn lemma_pair(
        &self,
        l: Layout,
        m: Memory,
        cx: &ForwardContext,
        input: DevicePtr,
        router_in: DevicePtr,
        stream: u64,
    )
        requires
            cx.buffers.attn_output.0 != 0,
            l.holds(
                seq![
                    input,
                    router_in,
                    cx.buffers.gate_logits,
                    cx.buffers.scratch,
                    cx.buffers.scratch.at(2 * cx.top_k() * 4),
                    cx.buffers.expert_gate_out,
                    cx.buffers.expert_up_out,
                    cx.buffers.expert_down_out,
                    cx.buffers.logits,
                    cx.buffers.ssm_qkvz,
                    cx.buffers.attn_output,
                    cx.buffers.moe_output,
                ],
            ),
        ensures
            ({
                let (h, k) = (cx.h(), cx.top_k());
                let x = m[input];
                let c = self.choice(cx, 2, F32_ONE);
                let logits = self.logits_of(cx, x, 2, false);
                let (routed, shared) = self.row_experts(
                    cx,
                    x,
                    unary(Rule::Chosen(c), logits),
                    self.t_layout_decode,
                    2,
                );
                let shares = unary(Rule::Shares(c), logits);
                let g = self.weights.shared_expert_gate.weight;
                let bytes = (2 * h * 2) as usize;
                l.after(m, self.k2_plan(cx, input, router_in, stream))[cx.buffers.moe_output]
                    == if cx.spec_is_ep() {
                    let zeros = Content::Of(Rule::Filled(0, bytes), Seq::empty());
                    let total = unary(
                        Rule::OverRanks(bytes),
                        Content::Of(Rule::Blend(g, 0, h, k, h), seq![routed, shares, zeros, x]),
                    );
                    if g.0 == 0 {
                        binary(Rule::Add((2 * h) as u32), total, shared)
                    } else {
                        Content::Of(Rule::AddShared(g, h, 2), seq![total, shared, x])
                    }
                } else {
                    Content::Of(Rule::Blend(g, 0, h, k, h), seq![routed, shares, shared, x])
                }
            }),
    {
        broadcast use group_after;

        let ps = seq![
            input,
            router_in,
            cx.buffers.gate_logits,
            cx.buffers.scratch,
            cx.buffers.scratch.at(2 * cx.top_k() * 4),
            cx.buffers.expert_gate_out,
            cx.buffers.expert_up_out,
            cx.buffers.expert_down_out,
            cx.buffers.logits,
            cx.buffers.ssm_qkvz,
            cx.buffers.attn_output,
            cx.buffers.moe_output,
        ];
        l.lemma_rank(ps);
        assert(ps[0] == input);
        assert(ps[1] == router_in);
        assert(ps[2] == cx.buffers.gate_logits);
        assert(ps[3] == cx.buffers.scratch);
        assert(ps[4] == cx.buffers.scratch.at(2 * cx.top_k() * 4));
        assert(ps[5] == cx.buffers.expert_gate_out);
        assert(ps[6] == cx.buffers.expert_up_out);
        assert(ps[7] == cx.buffers.expert_down_out);
        assert(ps[8] == cx.buffers.logits);
        assert(ps[9] == cx.buffers.ssm_qkvz);
        assert(ps[10] == cx.buffers.attn_output);
        assert(ps[11] == cx.buffers.moe_output);
    }

    /// Where row `t` of a batch that goes row by row is written.
    pub open spec fn out_row(cx: &ForwardContext, t: int) -> DevicePtr {
        cx.buffers.moe_output.at(t * cx.h() * 2)
    }

    /// Places of a batch that goes row by row, besides its output rows.
    pub open spec fn row_places(
        cx: &ForwardContext,
        input: DevicePtr,
        router_in: DevicePtr,
    ) -> Seq<DevicePtr> {
        seq![
            input,
            router_in,
            cx.buffers.gate_logits,
            cx.buffers.scratch,
            cx.buffers.scratch.at(cx.top_k() * 4),
            cx.buffers.expert_gate_out,
            cx.buffers.expert_up_out,
            cx.buffers.expert_down_out,
            cx.buffers.logits,
            cx.buffers.ssm_qkvz,
            cx.buffers.attn_output,
        ]
    }

    /// The input rows and the router logits lie one after the other, and the
    /// output rows are apart.
    pub open spec fn rows_laid_out(
        l: Layout,
        cx: &ForwardContext,
        input: DevicePtr,
        router_in: DevicePtr,
        n: int,
    ) -> bool {
        let ps = Self::row_places(cx, input, router_in);
        let g = cx.buffers.gate_logits;
        &&& l.holds(ps)
        &&& forall|t: int|
            #![trigger Self::out_row(cx, t)]
            0 <= t < n ==> {
                &&& (l.home)(Self::out_row(cx, t)) == (Self::out_row(cx, t), 0int)
                &&& !ps.contains(Self::out_row(cx, t))
                &&& (l.home)(input.at(t * cx.h() * 2)) == (input, t * cx.h() * 2)
                &&& (l.home)(g.at(t * cx.experts() * 2)) == (g, t * cx.experts() * 2)
            }
        &&& forall|t: int, u: int|
            #![trigger Self::out_row(cx, t), Self::out_row(cx, u)]
            0 <= t < u < n ==> Self::out_row(cx, t) != Self::out_row(cx, u)
    }

    /// What row `t` comes to, from all input rows and all router logits.
    pub open spec fn row_result(
        &self,
        cx: &ForwardContext,
        input: Content,
        logits: Content,
        t: int,
    ) -> Content {
        let (h, k) = (cx.h(), cx.top_k());
        let x = part(input, t * h * 2);
        let own = part(logits, t * cx.experts() * 2);
        let c = self.choice(cx, 1, F32_ONE);
        let (routed, shared) = self.row_experts(
            cx,
            x,
            unary(Rule::Chosen(c), own),
            self.t_layout_prefill,
            1,
        );
        let sum = Content::Of(
            Rule::Blend(
                self.weights.shared_expert_gate.weight,
                cx.routed_scaling_factor,
                h,
                k,
                h,
            ),
            seq![routed, unary(Rule::Shares(c), own), shared, x],
        );
        if cx.spec_is_ep() {
            unary(Rule::OverRanks((h * 2) as usize), sum)
        } else {
            sum
        }
    }

    #[verifier::rlimit(40)]
    proof fn lemma_one_row(
        &self,
        l: Layout,
        m: Memory,
        cx: &ForwardContext,
        s: Seq<Step>,
        input: DevicePtr,
        router_in: DevicePtr,
        n: int,
        t: int,
        stream: u64,
    )
        requires
            0 <= t < n,
            Self::rows_laid_out(l, cx, input, router_in, n),
        ensures
            ({
                let before = l.after(m, s);
                let after = l.after(m, self.batched_row(cx, s, input, t, stream));
                let ps = Self::row_places(cx, input, router_in);
                &&& after[Self::out_row(cx, t)] == self.row_result(
                    cx,
                    before[input],
                    before[cx.buffers.gate_logits],
                    t,
                )
                &&& after[input] == before[input]
                &&& after[cx.buffers.gate_logits] == before[cx.buffers.gate_logits]
                &&& forall|q: DevicePtr|
                    q != Self::out_row(cx, t) && !ps.contains(q) ==> #[trigger] after[q]
                        == before[q]
            }),
    {
        broadcast use group_after;

        let ps = Self::row_places(cx, input, router_in);
        l.lemma_rank(ps);
        assert(ps[0] == input);
        assert(ps[1] == router_in);
        assert(ps[2] == cx.buffers.gate_logits);
        assert(ps[3] == cx.buffers.scratch);
        assert(ps[4] == cx.buffers.scratch.at(cx.top_k() * 4));
        assert(ps[5] == cx.buffers.expert_gate_out);
        assert(ps[6] == cx.buffers.expert_up_out);
        assert(ps[7] == cx.buffers.expert_down_out);
        assert(ps[8] == cx.buffers.logits);
        assert(ps[9] == cx.buffers.ssm_qkvz);
        assert(ps[10] == cx.buffers.attn_output);
        assert(!ps.contains(Self::out_row(cx, t)));
    }

    proof fn lemma_rows(
        &self,
        l: Layout,
        m: Memory,
        cx: &ForwardContext,
        s: Seq<Step>,
        input: DevicePtr,
        router_in: DevicePtr,
        n: int,
        rows: nat,
        stream: u64,
    )
        requires
            rows <= n,
            Self::rows_laid_out(l, cx, input, router_in, n),
        ensures
            ({
                let base = l.after(m, s);
                let after = l.after(m, self.batched_rows(cx, s, input, rows, stream));
                let g = cx.buffers.gate_logits;
                &&& forall|t: int|
                    #![trigger Self::out_row(cx, t)]
                    0 <= t < rows ==> after[Self::out_row(cx, t)] == self.row_result(
                        cx,
                        base[input],
                        base[g],
                        t,
                    )
                &&& after[input] == base[input]
                &&& after[g] == base[g]
            }),
        decreases rows,
    {
        if rows > 0 {
            self.lemma_rows(l, m, cx, s, input, router_in, n, (rows - 1) as nat, stream);
            let q = self.batched_rows(cx, s, input, (rows - 1) as nat, stream);
            self.lemma_one_row(l, m, cx, q, input, router_in, n, rows - 1, stream);
            let ps = Self::row_places(cx, input, router_in);
            let before = l.after(m, q);
            let after = l.after(m, self.batched_rows(cx, s, input, rows, stream));
            assert forall|t: int|
                #![trigger Self::out_row(cx, t)]
                0 <= t < rows - 1 implies after[Self::out_row(cx, t)] == before[Self::out_row(
                cx,
                t,
            )] by {
                assert(Self::out_row(cx, t) != Self::out_row(cx, rows - 1));
                assert(!ps.contains(Self::out_row(cx, t)));
            }
        }
    }

    /// A batch that goes row by row computes for each row the experts that its
    /// own logits select, weighted with its own shares, and the shared expert,
    /// all of its own input row, and puts the result into its own output row.
    pub proof fn lemma_row_by_row(
        &self,
        l: Layout,
        m: Memory,
        cx: &ForwardContext,
        input: DevicePtr,
        router_in: DevicePtr,
        num_tokens: usize,
        stream: u64,
    )
        requires
            Self::rows_laid_out(l, cx, input, router_in, num_tokens as int),
        ensures
            ({
                let after = l.after(
                    m,
                    self.batched_plan(cx, Seq::empty(), input, router_in, num_tokens, stream),
                );
                let logits = self.logits_of(cx, m[input], num_tokens as u32, false);
                forall|t: int|
                    #![trigger Self::out_row(cx, t)]
                    0 <= t < num_tokens ==> after[Self::out_row(cx, t)] == self.row_result(
                        cx,
                        m[input],
                        logits,
                        t,
                    )
            }),
    {
        broadcast use group_after;

        let n = num_tokens as u32;
        let s = self.router_logits(cx, Seq::empty(), input, router_in, n, stream);
        let ps = Self::row_places(cx, input, router_in);
        l.lemma_rank(ps);
        assert(ps[0] == input);
        assert(ps[1] == router_in);
        assert(ps[2] == cx.buffers.gate_logits);
        assert(ps[3] == cx.buffers.scratch);
        assert(ps[4] == cx.buffers.scratch.at(cx.top_k() * 4));
        assert(ps[5] == cx.buffers.expert_gate_out);
        assert(ps[6] == cx.buffers.expert_up_out);
        assert(ps[7] == cx.buffers.expert_down_out);
        assert(ps[8] == cx.buffers.logits);
        assert(ps[9] == cx.buffers.ssm_qkvz);
        assert(ps[10] == cx.buffers.attn_output);
        self.lemma_rows(
            l,
            m,
            cx,
            s,
            input,
            router_in,
            num_tokens as int,
            num_tokens as nat,
            stream,
        );
    }

    /// The selection of one row within a selection of all rows.
    pub open spec fn selection_of_row(op: Op, kernel: KernelHandle, t: int) -> Op {
        match op {
            Op::MoeTopkSigmoidBatched(
                _, logits, bias, indices, weights, experts, top_k, normalize, scale, _, n_group,
                topk_group,
            ) => Op::MoeTopkSigmoid(
                kernel, logits.at(t * experts * 4), bias, indices.at(t * top_k * 4),
                weights.at(t * top_k * 4), experts, top_k, normalize, scale, n_group, topk_group,
            ),
            _ => op,
        }
    }

    /// Where the kernel that selects for all rows is missing, each row in turn is
    /// selected for as that kernel would: from its own logits, to its own place.
    pub proof fn lemma_selection_row_by_row(
        &self,
        cx: &ForwardContext,
        s: Seq<Step>,
        weights: DevicePtr,
        n: u32,
        rows: nat,
        stream: u64,
    )
        requires
            self.correction_bias_dev is Some,
        ensures
            ({
                let whole = self.topk_rows(cx, cx.buffers.scratch, weights, F32_ONE, n);
                let bias = self.correction_bias_dev->0;
                let t = self.prefill_topk_each(cx, s, bias, weights, rows, stream);
                &&& t.len() == s.len() + rows
                &&& forall|i: int| 0 <= i < s.len() ==> #[trigger] t[i] == s[i]
                &&& forall|i: int|
                    0 <= i < rows ==> #[trigger] t[s.len() + i] == Step::On(
                        stream,
                        Self::selection_of_row(whole, self.k.topk_sigmoid, i),
                    )
                &&& self.k.topk_sigmoid_batched.0 == 0 ==> self.prefill_topk(
                    cx,
                    s,
                    weights,
                    n,
                    stream,
                ) == self.prefill_topk_each(cx, s, bias, weights, n as nat, stream)
            }),
        decreases rows,
    {
        if rows > 0 {
            self.lemma_selection_row_by_row(cx, s, weights, n, (rows - 1) as nat, stream);
            let whole = self.topk_rows(cx, cx.buffers.scratch, weights, F32_ONE, n);
            let bias = self.correction_bias_dev->0;
            let q = self.prefill_topk_each(cx, s, bias, weights, (rows - 1) as nat, stream);
            let t = self.prefill_topk_each(cx, s, bias, weights, rows, stream);
            assert forall|i: int| 0 <= i < rows implies #[trigger] t[s.len() + i] == Step::On(
                stream,
                Self::selection_of_row(whole, self.k.topk_sigmoid, i),
            ) by {
                if i < rows - 1 {
                    assert(t[s.len() + i] == q[s.len() + i]);
                }
            }
            assert forall|i: int| 0 <= i < s.len() implies #[trigger] t[i] == s[i] by {
                assert(t[i] == q[i]);
            }
        }
    }
}

} // verus!
