//! What the plans of a linear-attention layer compute.

use crate::context::ForwardContext;
use crate::gpu::{DevicePtr, F32_1E_MINUS_6};
use crate::meaning::{
    binary, group_after, part, product, unary, Content, Layout, Memory, Rule, Weight,
};
use crate::plan::{on, GdnPrefillBuffers, Op, SsmState, Step};
use crate::ssm::prefill_gdn::{
    lemma_pieces, piece_len, pieces, GDN_MAX_ROWS, KDA_MAX_ROWS,
};
use crate::ssm::{SsmDims, Qwen3SsmLayer};
use vstd::prelude::*;

verus! {

impl SsmDims {
    /// Channels are heads times width; the convolution covers query, key and
    /// value.
    pub proof fn lemma_channels(cx: &ForwardContext)
        requires
            SsmDims::fit(cx),
        ensures
            ({
                let d = SsmDims::of(cx);
                &&& d.key_dim == d.nk * d.kd
                &&& d.value_dim == d.nv * d.vd
                &&& d.conv_dim == d.nk * d.kd + d.nk * d.kd + d.nv * d.vd
                &&& d.nk == cx.config.linear_num_key_heads
                &&& d.nv == cx.config.linear_num_value_heads
                &&& d.kd == cx.config.linear_key_head_dim
                &&& d.vd == cx.config.linear_value_head_dim
                &&& d.d_conv == cx.config.linear_conv_kernel_dim
                &&& d.h == cx.config.hidden_size
            }),
    {
    }
}

impl Qwen3SsmLayer {
    /// Places of a row with scalar gates.
    pub open spec fn row_places(
        cx: &ForwardContext,
        normed: DevicePtr,
        state: SsmState,
    ) -> Seq<DevicePtr> {
        let d = SsmDims::of(cx);
        seq![
            normed,
            cx.buffers.ssm_deinterleaved,
            cx.buffers.ssm_qkvz,
            cx.buffers.ssm_gates,
            cx.buffers.ssm_gates.at(d.nv * 4),
            cx.buffers.ssm_conv_out_f32,
            cx.buffers.ssm_conv_out_f32.at(d.conv_dim * 4),
            cx.buffers.attn_output,
            cx.buffers.moe_output,
            state.h_state,
            state.conv_state,
        ]
    }

    /// Places of a row with a decay per channel.
    pub open spec fn kda_places(
        cx: &ForwardContext,
        normed: DevicePtr,
        state: SsmState,
    ) -> Seq<DevicePtr> {
        let d = SsmDims::of(cx);
        let f_raw = cx.buffers.ssm_conv_out_f32.at(d.conv_dim * 4);
        let b_raw = f_raw.at(d.nv * d.kd * 2);
        let decay = b_raw.at(d.nv * 2);
        let beta = decay.at(d.nv * d.kd * 4);
        let out = beta.at(d.nv * 4);
        seq![
            normed,
            cx.buffers.ssm_deinterleaved,
            cx.buffers.ssm_qkvz,
            cx.buffers.ssm_conv_out_f32,
            f_raw,
            b_raw,
            decay,
            beta,
            out,
            cx.buffers.moe_output,
            state.h_state,
            state.conv_state,
        ]
    }

    /// Where the parts of projected and convolved rows begin: key and value
    /// within what the convolution writes, in single or half precision, and the
    /// output gate within the projection.
    pub open spec fn row_parts(l: Layout, cx: &ForwardContext) -> bool {
        let d = SsmDims::of(cx);
        let (f, c, x) = (
            cx.buffers.ssm_conv_out_f32,
            cx.buffers.ssm_qkvz,
            cx.buffers.ssm_deinterleaved,
        );
        &&& (l.home)(f.at(d.key_dim * 4)) == (f, d.key_dim * 4)
        &&& (l.home)(f.at(d.key_dim * 2 * 4)) == (f, d.key_dim * 2 * 4)
        &&& (l.home)(c.at(d.key_dim * 2)) == (c, d.key_dim * 2)
        &&& (l.home)(c.at(d.key_dim * 2 * 2)) == (c, d.key_dim * 2 * 2)
        &&& (l.home)(x.at(d.conv_dim * 2)) == (x, d.conv_dim * 2)
    }

    /// The fused projection of a row, in sequential order.
    pub open spec fn projected_row(&self, d: SsmDims, x: Content) -> Content {
        let w = match (self.qkvz_fp8w, self.qkvz_nvfp4) {
            (Some(w), _) => Weight::RowScaled(w.weight, w.row_scale),
            (None, Some(w)) => Weight::Nvfp4(w),
            (None, None) => Weight::Dense(self.ssm.in_proj_qkvz),
        };
        let y = product(x, w, 1, d.qkvz as u32, d.h as u32);
        if self.sequential_qkvz {
            y
        } else {
            unary(
                Rule::Sequential(
                    1,
                    d.nk as u32,
                    d.kd as u32,
                    (d.nv as int / d.nk as int) as u32,
                    d.vd as u32,
                ),
                y,
            )
        }
    }

    /// The convolved row, query and key heads at unit length.
    pub open spec fn convolved_row(&self, d: SsmDims, y: Content, state: Content) -> Content {
        unary(
            Rule::UnitHeads(
                (d.key_dim * 2) as u32,
                d.kd as u32,
                F32_1E_MINUS_6,
                1,
                d.conv_dim as u32,
            ),
            binary(Rule::Conv(self.ssm.conv1d, d.conv_dim as u32, d.d_conv as u32, 1), y, state),
        )
    }

    /// The state, then query, key and value of a convolved row: they lie one
    /// after the other, at elements zero, `key_dim` and twice that.
    pub open spec fn mixed_operands(
        &self,
        d: SsmDims,
        conv: Content,
        state: Content,
        decay: Content,
        beta: Content,
    ) -> Seq<Content> {
        let bytes: int = if self.k.conv1d_l2norm_f32.0 != 0 {
            4
        } else {
            2
        };
        seq![
            state,
            part(conv, 0),
            part(conv, d.key_dim * bytes),
            part(conv, 2 * d.key_dim * bytes),
            decay,
            beta,
        ]
    }

    /// What the mixing part makes of a row, and the state that it leaves.
    pub open spec fn mixed_row(
        &self,
        cx: &ForwardContext,
        x: Content,
        h_state: Content,
        conv_state: Content,
    ) -> (Content, Content) {
        let d = SsmDims::of(cx);
        let (h, nk, nv) = (d.h as u32, d.nk as u32, d.nv as u32);
        let (kd, vd) = (d.kd as u32, d.vd as u32);
        let (a, dt) = (self.ssm.a_log.weight, self.ssm.dt_bias.weight);
        let y = if self.kda_mode {
            product(x, Weight::Dense(self.ssm.in_proj_qkvz), 1, d.qkvz as u32, h)
        } else {
            self.projected_row(d, x)
        };
        let (decay, beta) = if self.kda_mode {
            let f = product(x, Weight::Dense(self.kda_f_proj), 1, (d.nv * d.kd) as u32, h);
            let g = product(x, Weight::Dense(self.kda_b_proj), 1, nv, h);
            (
                unary(Rule::ChannelDecay(a, dt, 1, nk, nv, kd, self.kda_lower_bound), f),
                unary(Rule::ChannelBeta(a, dt, 1, nk, nv, kd, self.kda_lower_bound), g),
            )
        } else {
            let vpg = (d.nv as int / d.nk as int) as u32;
            let w = self.ssm.in_proj_ba;
            (
                unary(Rule::ScalarDecay(w, a, dt, 1, d.ba as u32, h, vpg), x),
                unary(Rule::ScalarBeta(w, a, dt, 1, d.ba as u32, h, vpg), x),
            )
        };
        let args = self.mixed_operands(
            d,
            self.convolved_row(d, y, conv_state),
            h_state,
            decay,
            beta,
        );
        let normed = binary(
            Rule::GatedNorm(self.ssm.norm, 1, nv, vd, cx.rms_norm_eps, vd, vd),
            Content::Of(Rule::Recur(1, nk, nv, kd, vd), args),
            part(y, d.conv_dim * 2),
        );
        let w = match (self.out_proj_fp8w, self.out_proj_dense) {
            (Some(w), _) => Weight::RowScaled(w.weight, w.row_scale),
            (None, Some(w)) => Weight::Dense(w),
            (None, None) => Weight::Nvfp4(self.ssm.out_proj),
        };
        (
            product(normed, w, 1, h, d.value_dim as u32),
            Content::Of(Rule::RecurState(1, nk, nv, kd, vd), args),
        )
    }

    #[verifier::rlimit(40)]
    proof fn lemma_gdn_row(
        &self,
        l: Layout,
        m: Memory,
        cx: &ForwardContext,
        s: Seq<Step>,
        normed: DevicePtr,
        state: SsmState,
        stream: u64,
        trace: bool,
    )
        requires
            !self.kda_mode,
            l.holds(Self::row_places(cx, normed, state)),
            Self::row_parts(l, cx),
        ensures
            self.row_law(l, m, cx, s, normed, state, stream, trace),
    {
        broadcast use group_after;

        let d = SsmDims::of(cx);
        let ps = Self::row_places(cx, normed, state);
        l.lemma_rank(ps);
        assert(ps[0] == normed);
        assert(ps[1] == cx.buffers.ssm_deinterleaved);
        assert(ps[2] == cx.buffers.ssm_qkvz);
        assert(ps[3] == cx.buffers.ssm_gates);
        assert(ps[4] == cx.buffers.ssm_gates.at(d.nv * 4));
        assert(ps[5] == cx.buffers.ssm_conv_out_f32);
        assert(ps[6] == cx.buffers.ssm_conv_out_f32.at(d.conv_dim * 4));
        assert(ps[7] == cx.buffers.attn_output);
        assert(ps[8] == cx.buffers.moe_output);
        assert(ps[9] == state.h_state);
        assert(ps[10] == state.conv_state);
        let before = l.after(m, s);
        let s1 = self.qkvz_row(cx, s, d, normed, stream);
        assert(l.after(m, s1)[cx.buffers.ssm_deinterleaved] == self.projected_row(
            d,
            before[normed],
        ));
        assert forall|p: DevicePtr|
            p != cx.buffers.ssm_deinterleaved && p
                != cx.buffers.ssm_qkvz implies #[trigger] l.after(m, s1)[p] == before[p] by {}
    }

    #[verifier::rlimit(40)]
    proof fn lemma_kda_row(
        &self,
        l: Layout,
        m: Memory,
        cx: &ForwardContext,
        s: Seq<Step>,
        normed: DevicePtr,
        state: SsmState,
        stream: u64,
        trace: bool,
    )
        requires
            self.kda_mode,
            self.k.gated_rms_norm_f32.0 != 0,
            l.holds(Self::kda_places(cx, normed, state)),
            Self::row_parts(l, cx),
        ensures
            self.row_law(l, m, cx, s, normed, state, stream, trace),
    {
        broadcast use group_after;

        let d = SsmDims::of(cx);
        let f_raw = cx.buffers.ssm_conv_out_f32.at(d.conv_dim * 4);
        let b_raw = f_raw.at(d.nv * d.kd * 2);
        let decay = b_raw.at(d.nv * 2);
        let beta = decay.at(d.nv * d.kd * 4);
        let out = beta.at(d.nv * 4);
        let ps = Self::kda_places(cx, normed, state);
        l.lemma_rank(ps);
        assert(ps[0] == normed);
        assert(ps[1] == cx.buffers.ssm_deinterleaved);
        assert(ps[2] == cx.buffers.ssm_qkvz);
        assert(ps[3] == cx.buffers.ssm_conv_out_f32);
        assert(ps[4] == f_raw);
        assert(ps[5] == b_raw);
        assert(ps[6] == decay);
        assert(ps[7] == beta);
        assert(ps[8] == out);
        assert(ps[9] == cx.buffers.moe_output);
        assert(ps[10] == state.h_state);
        assert(ps[11] == state.conv_state);
    }

    /// A row leaves its mixed content in `moe_output`, the next state in place
    /// of the state, and touches nothing but its buffers.
    pub open spec fn row_law(
        &self,
        l: Layout,
        m: Memory,
        cx: &ForwardContext,
        s: Seq<Step>,
        normed: DevicePtr,
        state: SsmState,
        stream: u64,
        trace: bool,
    ) -> bool {
        let before = l.after(m, s);
        let after = l.after(m, self.row_plan(cx, s, normed, state, stream, trace));
        let (mixed, next) = self.mixed_row(
            cx,
            before[normed],
            before[state.h_state],
            before[state.conv_state],
        );
        &&& after[cx.buffers.moe_output] == mixed
        &&& after[state.h_state] == next
        &&& forall|p: DevicePtr|
            !self.row_writes(cx, state).contains(p) ==> #[trigger] after[p] == before[p]
    }

    /// What a row may write.
    pub open spec fn row_writes(&self, cx: &ForwardContext, state: SsmState) -> Set<DevicePtr> {
        let d = SsmDims::of(cx);
        if self.kda_mode {
            let f_raw = cx.buffers.ssm_conv_out_f32.at(d.conv_dim * 4);
            let b_raw = f_raw.at(d.nv * d.kd * 2);
            let decay = b_raw.at(d.nv * 2);
            let beta = decay.at(d.nv * d.kd * 4);
            let out = beta.at(d.nv * 4);
            set![
                state.h_state, state.conv_state, cx.buffers.ssm_deinterleaved,
                cx.buffers.ssm_qkvz, cx.buffers.ssm_conv_out_f32, cx.buffers.moe_output, f_raw,
                b_raw, decay, beta, out,
            ]
        } else {
            set![
                state.h_state, state.conv_state, cx.buffers.ssm_deinterleaved,
                cx.buffers.ssm_qkvz, cx.buffers.ssm_conv_out_f32, cx.buffers.moe_output,
                cx.buffers.ssm_gates, cx.buffers.ssm_gates.at(d.nv * 4),
                cx.buffers.ssm_conv_out_f32.at(d.conv_dim * 4), cx.buffers.attn_output,
            ]
        }
    }

    /// Whether the places of a row are apart.
    pub open spec fn row_apart(
        &self,
        l: Layout,
        cx: &ForwardContext,
        normed: DevicePtr,
        state: SsmState,
    ) -> bool {
        &&& Self::row_parts(l, cx)
        &&& if self.kda_mode {
            l.holds(Self::kda_places(cx, normed, state))
        } else {
            l.holds(Self::row_places(cx, normed, state))
        }
    }

    /// A decoded row is projected and convolved; the recurrence takes query, key
    /// and value from what the convolution wrote, in that order, with decay and
    /// strength of the same row; its output is normed under the output gate of
    /// the projection and projected.
    pub proof fn lemma_row(
        &self,
        l: Layout,
        m: Memory,
        cx: &ForwardContext,
        s: Seq<Step>,
        normed: DevicePtr,
        state: SsmState,
        stream: u64,
        trace: bool,
    )
        requires
            self.row_result(cx) is Ok,
            self.row_apart(l, cx, normed, state),
        ensures
            self.row_law(l, m, cx, s, normed, state, stream, trace),
    {
        if self.kda_mode {
            self.lemma_kda_row(l, m, cx, s, normed, state, stream, trace);
        } else {
            self.lemma_gdn_row(l, m, cx, s, normed, state, stream, trace);
        }
    }

    /// A decoded layer adds the mixed row of its normed input to the hidden
    /// state, and to that the feed-forward part of its norm.
    pub proof fn lemma_layer(
        &self,
        l: Layout,
        m: Memory,
        cx: &ForwardContext,
        hidden: DevicePtr,
        residual: DevicePtr,
        state: SsmState,
        ffn_out: DevicePtr,
        stream: u64,
        trace: bool,
    )
        requires
            self.row_result(cx) is Ok,
            self.row_apart(l, cx, cx.buffers.norm_output, state),
            l.holds(seq![hidden, residual, ffn_out, cx.buffers.norm_output, cx.buffers.moe_output]),
            hidden != state.h_state && hidden != state.conv_state,
            residual != state.h_state && residual != state.conv_state,
            !self.row_writes(cx, state).contains(hidden),
            !self.row_writes(cx, state).contains(cx.buffers.norm_output),
        ensures
            ({
                let (h, eps) = (cx.h(), cx.rms_norm_eps);
                let after = l.after(
                    m,
                    self.decode_plan(cx, hidden, residual, state, ffn_out, stream, trace),
                );
                let x = m[hidden];
                let (mixed, next) = self.mixed_row(
                    cx,
                    unary(Rule::Norm(self.input_norm, 1, h, eps), x),
                    m[state.h_state],
                    m[state.conv_state],
                );
                let y = binary(Rule::Add((1 * h) as u32), x, mixed);
                let ffn = unary(
                    Rule::FeedForward(1),
                    unary(Rule::Norm(self.post_attn_norm, 1, h, eps), y),
                );
                &&& after[hidden] == binary(Rule::Add(h), y, ffn)
                &&& after[residual] == y
            }),
    {
        broadcast use group_after;

        let ps = seq![hidden, residual, ffn_out, cx.buffers.norm_output, cx.buffers.moe_output];
        l.lemma_rank(ps);
        assert(ps[0] == hidden && ps[1] == residual && ps[2] == ffn_out);
        assert(ps[3] == cx.buffers.norm_output && ps[4] == cx.buffers.moe_output);
        let s = on(
            Seq::empty(),
            stream,
            Op::RmsNormResidual(
                self.k.rms_norm_residual,
                hidden,
                self.input_norm,
                cx.buffers.norm_output,
                residual,
                1,
                cx.h(),
                cx.rms_norm_eps,
            ),
        );
        assert(l.after(m, s)[cx.buffers.norm_output] == unary(
            Rule::Norm(self.input_norm, 1, cx.h(), cx.rms_norm_eps),
            m[hidden],
        ));
        if self.kda_mode {
            let qs = Self::kda_places(cx, cx.buffers.norm_output, state);
            l.lemma_rank(qs);
            assert(qs[0] == cx.buffers.norm_output && qs[10] == state.h_state && qs[11]
                == state.conv_state);
        } else {
            let qs = Self::row_places(cx, cx.buffers.norm_output, state);
            l.lemma_rank(qs);
            assert(qs[0] == cx.buffers.norm_output && qs[9] == state.h_state && qs[10]
                == state.conv_state);
        }
        self.lemma_row(l, m, cx, s, cx.buffers.norm_output, state, stream, trace);
    }

    /// Places of a prefill.
    pub open spec fn prefill_places(
        cx: &ForwardContext,
        hidden: DevicePtr,
        residual: DevicePtr,
        state: SsmState,
    ) -> Seq<DevicePtr> {
        seq![
            hidden,
            residual,
            cx.buffers.norm_output,
            cx.buffers.ssm_deinterleaved,
            cx.buffers.ssm_qkvz,
            cx.buffers.ssm_gates,
            cx.buffers.attn_output,
            cx.buffers.moe_output,
            state.h_state,
            state.conv_state,
        ]
    }

    /// Rows after the feed-forward half of a layer, from the rows `x` and what
    /// the mixing half adds to them.
    pub open spec fn fed_forward(
        &self,
        cx: &ForwardContext,
        x: Content,
        mixed: Content,
        num_tokens: usize,
    ) -> (Content, Content) {
        let n = num_tokens as u32;
        let y = binary(Rule::Add((n * cx.h()) as u32), x, mixed);
        let normed = unary(Rule::Norm(self.post_attn_norm, n, cx.h(), cx.rms_norm_eps), y);
        (
            binary(
                Rule::Add((num_tokens * cx.config.hidden_size) as u32),
                y,
                unary(Rule::FeedForward(num_tokens), normed),
            ),
            y,
        )
    }

    /// A prefilled layer does the same on all rows: norm, projection, gates,
    /// convolution and unit heads, recurrence on query, key and value in that
    /// order, gated norm, output, feed-forward part.
    #[verifier::rlimit(40)]
    pub proof fn lemma_prefill(
        &self,
        l: Layout,
        m: Memory,
        cx: &ForwardContext,
        hidden: DevicePtr,
        residual: DevicePtr,
        num_tokens: usize,
        state: SsmState,
        stream: u64,
    )
        requires
            l.holds(Self::prefill_places(cx, hidden, residual, state)),
            l.rows_out == cx.buffers.moe_output,
            Self::row_parts(l, cx),
        ensures
            ({
                let d = SsmDims::of(cx);
                let n = num_tokens as u32;
                let h = d.h as u32;
                let after = l.after(
                    m,
                    self.prefill_plan(cx, hidden, residual, num_tokens, state, stream),
                );
                let x = unary(Rule::Norm(self.input_norm, n, h, cx.rms_norm_eps), m[hidden]);
                let vpg = d.nv as int / d.nk as int;
                let y = unary(
                    Rule::LayerProjection(n, d.qkvz, d.h, d.nk, d.kd, vpg as usize, d.vd),
                    x,
                );
                let gates = unary(
                    Rule::ScalarGates(
                        self.ssm.in_proj_ba, self.ssm.a_log.weight, self.ssm.dt_bias.weight, n,
                        d.ba as u32, h, h, (d.nv * 2) as u32, d.nv as u32, vpg as u32,
                    ),
                    x,
                );
                let c = d.conv_dim as u32;
                let conv = unary(
                    Rule::UnitHeads((d.nk * 2) as u32, d.kd as u32, F32_1E_MINUS_6, n, c),
                    binary(
                        Rule::ConvRows(
                            self.ssm.conv1d, DevicePtr(0), c, d.d_conv as u32, n, d.qkvz as u32, c,
                        ),
                        y,
                        m[state.conv_state],
                    ),
                );
                let args = seq![
                    m[state.h_state],
                    part(conv, 0),
                    part(conv, d.key_dim * 2),
                    part(conv, 2 * d.key_dim * 2),
                    gates,
                ];
                let normed = binary(
                    Rule::GatedNorm(
                        self.ssm.norm, n, d.nv as u32, d.vd as u32, cx.rms_norm_eps,
                        d.value_dim as u32, d.qkvz as u32,
                    ),
                    Content::Of(Rule::LayerRecur(n, d.nk, d.nv, d.kd, d.vd, d.conv_dim), args),
                    part(y, d.conv_dim * 2),
                );
                let mixed = unary(Rule::LayerOutput(n, d.h, d.value_dim), normed);
                let (out, res) = self.fed_forward(cx, m[hidden], mixed, num_tokens);
                &&& after[hidden] == out
                &&& after[residual] == res
                &&& after[state.h_state] == Content::Of(
                    Rule::LayerRecurState(n, d.nk, d.nv, d.kd, d.vd, d.conv_dim),
                    args,
                )
            }),
    {
        broadcast use group_after;

        let d = SsmDims::of(cx);
        let ps = Self::prefill_places(cx, hidden, residual, state);
        l.lemma_rank(ps);
        assert(ps[0] == hidden);
        assert(ps[1] == residual);
        assert(ps[2] == cx.buffers.norm_output);
        assert(ps[3] == cx.buffers.ssm_deinterleaved);
        assert(ps[4] == cx.buffers.ssm_qkvz);
        assert(ps[5] == cx.buffers.ssm_gates);
        assert(ps[6] == cx.buffers.attn_output);
        assert(ps[7] == cx.buffers.moe_output);
        assert(ps[8] == state.h_state);
        assert(ps[9] == state.conv_state);
        assert(2 * d.key_dim * 2 == d.key_dim * 2 * 2);
    }

    /// The fused projection of a chunk, in sequential order.
    pub open spec fn projected_rows(
        &self,
        d: SsmDims,
        x: Content,
        n: u32,
        dense_qkvz: bool,
    ) -> Content {
        let w = if self.qkvz_fp8 is Some {
            Weight::Fp8(self.qkvz_fp8->0)
        } else if dense_qkvz {
            Weight::Dense(self.ssm.in_proj_qkvz)
        } else if self.qkvz_nvfp4_t is Some {
            Weight::Nvfp4T(self.qkvz_nvfp4_t->0)
        } else if self.qkvz_nvfp4 is Some {
            Weight::Nvfp4(self.qkvz_nvfp4->0)
        } else {
            Weight::Dense(self.ssm.in_proj_qkvz)
        };
        let y = product(x, w, n, d.qkvz as u32, d.h as u32);
        if self.sequential_qkvz {
            y
        } else {
            unary(
                Rule::Sequential(
                    n,
                    d.nk as u32,
                    d.kd as u32,
                    (d.nv as int / d.nk as int) as u32,
                    d.vd as u32,
                ),
                y,
            )
        }
    }

    /// Convolved rows, query and key heads at unit length.
    pub open spec fn convolved_rows(
        &self,
        d: SsmDims,
        y: Content,
        state: Content,
        n: u32,
    ) -> Content {
        let c = d.conv_dim as u32;
        unary(
            Rule::UnitHeads((d.nk * 2) as u32, d.kd as u32, F32_1E_MINUS_6, n, c),
            binary(
                Rule::ConvRows(
                    self.ssm.conv1d, DevicePtr(0), c, d.d_conv as u32, n, d.qkvz as u32, c,
                ),
                y,
                state,
            ),
        )
    }

    /// Places of the input half of a chunk.
    pub open spec fn phase1_places(
        &self,
        cx: &ForwardContext,
        hidden: DevicePtr,
        residual: DevicePtr,
        num_tokens: usize,
        state: SsmState,
        g: GdnPrefillBuffers,
        token_offset: usize,
    ) -> Seq<DevicePtr> {
        let d = SsmDims::of(cx);
        if self.kda_mode {
            seq![
                hidden,
                residual,
                cx.buffers.norm_output,
                cx.buffers.ssm_deinterleaved,
                cx.buffers.ssm_qkvz,
                state.conv_state,
                g.qkv.at(token_offset * d.conv_dim * 2),
                cx.buffers.ssm_conv_out_f32,
                cx.buffers.ssm_conv_out_f32.at(num_tokens * d.nv * d.kd * 2),
                g.gate_beta.at(token_offset * d.nv * d.kd * 4),
                cx.buffers.ssm_gates.at(token_offset * d.nv * 4),
            ]
        } else {
            seq![
                hidden,
                residual,
                cx.buffers.norm_output,
                cx.buffers.ssm_deinterleaved,
                cx.buffers.ssm_qkvz,
                cx.buffers.ssm_gates,
                state.conv_state,
                g.qkv.at(token_offset * d.conv_dim * 2),
                g.gate_beta.at(token_offset * (d.nv * 2) * 4),
            ]
        }
    }

    /// The input half of a chunk puts the convolved rows, and decay and strength
    /// of the same rows, to the places of the chunk among those of the prompt,
    /// and leaves the projection for the output gates.
    #[verifier::rlimit(40)]
    pub proof fn lemma_phase1(
        &self,
        l: Layout,
        m: Memory,
        cx: &ForwardContext,
        hidden: DevicePtr,
        residual: DevicePtr,
        num_tokens: usize,
        state: SsmState,
        g: GdnPrefillBuffers,
        token_offset: usize,
        dense_qkvz: bool,
        stream: u64,
    )
        requires
            SsmDims::of(cx).nv * 2 <= usize::MAX,
            l.holds(
                self.phase1_places(
                    cx, hidden, residual, num_tokens, state, g, token_offset,
                ),
            ),
        ensures
            ({
                let d = SsmDims::of(cx);
                let n = num_tokens as u32;
                let (h, nk, nv, kd) = (d.h as u32, d.nk as u32, d.nv as u32, d.kd as u32);
                let (a, dt) = (self.ssm.a_log.weight, self.ssm.dt_bias.weight);
                let s = self.phase1_project(cx, d, hidden, residual, n, dense_qkvz, stream);
                let s = self.phase1_gates(cx, s, d, g, num_tokens, token_offset, stream);
                let s = self.phase1_pack(cx, s, d, g, state, num_tokens, token_offset, stream);
                let after = l.after(m, s);
                let x = unary(Rule::Norm(self.input_norm, n, h, cx.rms_norm_eps), m[hidden]);
                let y = self.projected_rows(d, x, n, dense_qkvz);
                let conv = self.convolved_rows(d, y, m[state.conv_state], n);
                &&& after[residual] == m[hidden]
                &&& after[cx.buffers.ssm_deinterleaved] == y
                &&& after[g.qkv.at(token_offset * d.conv_dim * 2)] == unary(
                    Rule::First((num_tokens * d.conv_dim * 2) as usize),
                    conv,
                )
                &&& if self.kda_mode {
                    let f = product(
                        x,
                        Weight::Dense(self.kda_f_proj),
                        n,
                        (d.nv * d.kd) as u32,
                        h,
                    );
                    let r = product(x, Weight::Dense(self.kda_b_proj), n, nv, h);
                    &&& after[g.gate_beta.at(token_offset * d.nv * d.kd * 4)] == unary(
                        Rule::ChannelDecay(a, dt, n, nk, nv, kd, self.kda_lower_bound),
                        f,
                    )
                    &&& after[cx.buffers.ssm_gates.at(token_offset * d.nv * 4)] == unary(
                        Rule::ChannelBeta(a, dt, n, nk, nv, kd, self.kda_lower_bound),
                        r,
                    )
                } else {
                    after[g.gate_beta.at(token_offset * (d.nv * 2) * 4)] == unary(
                        Rule::First((num_tokens * (d.nv * 2) * 4) as usize),
                        unary(
                            Rule::ScalarGates(
                                self.ssm.in_proj_ba, a, dt, n, d.ba as u32, h, h,
                                (d.nv * 2) as u32, nv, (d.nv as int / d.nk as int) as u32,
                            ),
                            x,
                        ),
                    )
                }
            }),
    {
        broadcast use group_after;

        let d = SsmDims::of(cx);
        let ps = self.phase1_places(cx, hidden, residual, num_tokens, state, g, token_offset);
        l.lemma_rank(ps);
        if self.kda_mode {
            assert(ps[0] == hidden);
            assert(ps[1] == residual);
            assert(ps[2] == cx.buffers.norm_output);
            assert(ps[3] == cx.buffers.ssm_deinterleaved);
            assert(ps[4] == cx.buffers.ssm_qkvz);
            assert(ps[5] == state.conv_state);
            assert(ps[6] == g.qkv.at(token_offset * d.conv_dim * 2));
            assert(ps[7] == cx.buffers.ssm_conv_out_f32);
            assert(ps[8] == cx.buffers.ssm_conv_out_f32.at(num_tokens * d.nv * d.kd * 2));
            assert(ps[9] == g.gate_beta.at(token_offset * d.nv * d.kd * 4));
            assert(ps[10] == cx.buffers.ssm_gates.at(token_offset * d.nv * 4));
        } else {
            assert(ps[0] == hidden);
            assert(ps[1] == residual);
            assert(ps[2] == cx.buffers.norm_output);
            assert(ps[3] == cx.buffers.ssm_deinterleaved);
            assert(ps[4] == cx.buffers.ssm_qkvz);
            assert(ps[5] == cx.buffers.ssm_gates);
            assert(ps[6] == state.conv_state);
            assert(ps[7] == g.qkv.at(token_offset * d.conv_dim * 2));
            assert(ps[8] == g.gate_beta.at(token_offset * (d.nv * 2) * 4));
        }
    }

    /// The output gates of a chunk are copied row by row: row `t` from behind the
    /// convolved channels of projected row `t`, to its place among the rows of
    /// the prompt.
    pub proof fn lemma_output_gates(
        cx: &ForwardContext,
        s: Seq<Step>,
        d: SsmDims,
        g: GdnPrefillBuffers,
        token_offset: usize,
        rows: nat,
        stream: u64,
    )
        requires
            cx.buffers.ssm_deinterleaved.0 + (rows * d.qkvz + d.conv_dim) * 2 <= u64::MAX,
            g.z.0 + (token_offset + rows) * d.value_dim * 2 <= u64::MAX,
            d.value_dim * 2 <= usize::MAX,
        ensures
            ({
                let t = Self::phase1_z(cx, s, d, g, token_offset, rows, stream);
                &&& t.len() == s.len() + rows
                &&& forall|i: int| 0 <= i < s.len() ==> #[trigger] t[i] == s[i]
                &&& forall|i: int|
                    0 <= i < rows ==> ((#[trigger] t[s.len() + i]) matches Step::On(
                        st,
                        Op::CopyD2d(from, to, count),
                    ) && st == stream && from.0 == cx.buffers.ssm_deinterleaved.0 + (i * d.qkvz
                        + d.conv_dim) * 2 && to.0 == g.z.0 + (token_offset + i) * d.value_dim * 2
                        && count == d.value_dim * 2)
            }),
        decreases rows,
    {
        if rows > 0 {
            let i = rows - 1;
            let (w, v, o) = (d.qkvz as int, d.value_dim as int, token_offset as int);
            assert(i * w * 2 + d.conv_dim * 2 == (i * w + d.conv_dim) * 2) by (nonlinear_arith);
            assert(0 <= i * w <= rows * w) by (nonlinear_arith)
                requires
                    0 <= i <= rows,
                    0 <= w,
            ;
            assert(o * v * 2 + i * v * 2 == (o + i) * v * 2) by (nonlinear_arith);
            assert(0 <= o * v * 2) by (nonlinear_arith)
                requires
                    0 <= o,
                    0 <= v,
            ;
            assert(0 <= i * v * 2) by (nonlinear_arith)
                requires
                    0 <= i,
                    0 <= v,
            ;
            assert((o + i) * v * 2 <= (o + rows) * v * 2) by (nonlinear_arith)
                requires
                    i <= rows,
                    0 <= v,
            ;
            Self::lemma_output_gates(cx, s, d, g, token_offset, (rows - 1) as nat, stream);
            let q = Self::phase1_z(cx, s, d, g, token_offset, (rows - 1) as nat, stream);
            let t = Self::phase1_z(cx, s, d, g, token_offset, rows, stream);
            assert forall|k: int| 0 <= k < rows implies ((
            #[trigger] t[s.len() + k]) matches Step::On(
                st,
                Op::CopyD2d(from, to, count),
            ) && st == stream && from.0 == cx.buffers.ssm_deinterleaved.0 + (k * d.qkvz
                + d.conv_dim) * 2 && to.0 == g.z.0 + (token_offset + k) * d.value_dim * 2 && count
                == d.value_dim * 2) by {
                if k < rows - 1 {
                    assert(t[s.len() + k] == q[s.len() + k]);
                }
            }
            assert forall|k: int| 0 <= k < s.len() implies #[trigger] t[k] == s[k] by {
                assert(t[k] == q[k]);
            }
        }
    }

    /// The output half of a chunk norms the recurrence's rows of the chunk under
    /// the output gates of the same rows, projects them, adds them to the hidden
    /// rows and runs the feed-forward part.
    #[verifier::rlimit(40)]
    pub proof fn lemma_phase3(
        &self,
        l: Layout,
        m: Memory,
        cx: &ForwardContext,
        hidden: DevicePtr,
        residual: DevicePtr,
        num_tokens: usize,
        g: GdnPrefillBuffers,
        token_offset: usize,
        dense_out: bool,
        stream: u64,
    )
        requires
            SsmDims::fit(cx),
            l.rows_out == cx.buffers.moe_output,
            ({
                let d = SsmDims::of(cx);
                l.holds(
                    seq![
                        hidden,
                        residual,
                        cx.buffers.norm_output,
                        cx.buffers.ssm_qkvz,
                        cx.buffers.moe_output,
                        g.output.at(token_offset * d.value_dim * 2),
                        g.z.at(token_offset * d.value_dim * 2),
                    ],
                )
            }),
        ensures
            ({
                let d = SsmDims::of(cx);
                let n = num_tokens as u32;
                let v = d.value_dim as u32;
                let after = l.after(
                    m,
                    self.phase3_plan(
                        cx, hidden, residual, num_tokens, g, token_offset, dense_out, stream,
                    ),
                );
                let normed = binary(
                    Rule::GatedNorm(
                        self.ssm.norm, n, d.nv as u32, d.vd as u32, cx.rms_norm_eps, v, v,
                    ),
                    m[g.output.at(token_offset * d.value_dim * 2)],
                    m[g.z.at(token_offset * d.value_dim * 2)],
                );
                let w = if self.out_proj_dense is Some {
                    Weight::Dense(self.out_proj_dense->0)
                } else if dense_out {
                    Weight::Nvfp4T(self.out_proj_nvfp4_t->0)
                } else if self.out_proj_fp8 is Some {
                    Weight::Fp8(self.out_proj_fp8->0)
                } else if self.out_proj_nvfp4_t is Some {
                    Weight::Nvfp4T(self.out_proj_nvfp4_t->0)
                } else {
                    Weight::Nvfp4(self.ssm.out_proj)
                };
                let (out, res) = self.fed_forward(
                    cx,
                    m[hidden],
                    product(normed, w, n, cx.h(), v),
                    num_tokens,
                );
                &&& after[hidden] == out
                &&& after[residual] == res
            }),
    {
        broadcast use group_after;

        let d = SsmDims::of(cx);
        let ps = seq![
            hidden,
            residual,
            cx.buffers.norm_output,
            cx.buffers.ssm_qkvz,
            cx.buffers.moe_output,
            g.output.at(token_offset * d.value_dim * 2),
            g.z.at(token_offset * d.value_dim * 2),
        ];
        l.lemma_rank(ps);
        assert(ps[0] == hidden);
        assert(ps[1] == residual);
        assert(ps[2] == cx.buffers.norm_output);
        assert(ps[3] == cx.buffers.ssm_qkvz);
        assert(ps[4] == cx.buffers.moe_output);
        assert(ps[5] == g.output.at(token_offset * d.value_dim * 2));
        assert(ps[6] == g.z.at(token_offset * d.value_dim * 2));
    }

    /// Whether a launch of the recurrence covers the `rows` rows of the prompt
    /// from row `first` on: query, key and value side by side in the convolved
    /// row, decay and strength side by side in the row of gates, the output in
    /// its own row, and the state of the sequence. With a decay per channel the
    /// strengths have rows of their own.
    pub open spec fn recurs_on(
        op: Op,
        d: SsmDims,
        g: GdnPrefillBuffers,
        betas: DevicePtr,
        state: DevicePtr,
        seqs: u32,
        first: int,
        rows: int,
    ) -> bool {
        let at = |q: DevicePtr, k: DevicePtr, v: DevicePtr, x: DevicePtr, y: DevicePtr, o:
            DevicePtr|
            {
                &&& q.0 == g.qkv.0 + first * d.conv_dim * 2
                &&& k.0 == q.0 + d.key_dim * 2
                &&& v.0 == k.0 + d.key_dim * 2
                &&& x.0 == g.gate_beta.0 + first * (d.nv * 2) * 4
                &&& y.0 == x.0 + d.nv * 4
                &&& o.0 == g.output.0 + first * d.value_dim * 2
            };
        let fit = |n: u32, r: u32, nk: u32, nv: u32, kd: u32, vd: u32, qs: u32, vs: u32, gs: u32|
            {
                &&& n == seqs && r == rows
                &&& nk == d.nk as u32 && nv == d.nv as u32
                &&& kd == d.kd as u32 && vd == d.vd as u32
                &&& qs == d.conv_dim as u32 && vs == d.conv_dim as u32
                &&& gs == (d.nv * 2) as u32
            };
        match op {
            Op::GdnPrefillPersistent(
                _, h, q, k, v, x, y, o, n, r, nk, nv, kd, vd, qs, vs, gs,
            ) => h == state && at(q, k, v, x, y, o) && fit(n, r, nk, nv, kd, vd, qs, vs, gs),
            Op::GdnPrefillSplit4(
                _, h, q, k, v, x, y, o, n, r, nk, nv, kd, vd, qs, vs, gs,
            ) => h == state && at(q, k, v, x, y, o) && fit(n, r, nk, nv, kd, vd, qs, vs, gs),
            Op::GdnPrefillPersistentSmem(
                _, h, q, k, v, x, y, o, n, r, nk, nv, kd, vd, qs, vs, gs, _,
            ) => h == state && at(q, k, v, x, y, o) && fit(n, r, nk, nv, kd, vd, qs, vs, gs),
            Op::GdnPrefillPersistentBatched(
                _, h, q, k, v, x, y, o, n, r, nk, nv, kd, vd, qs, vs, gs,
            ) => h == state && at(q, k, v, x, y, o) && fit(n, r, nk, nv, kd, vd, qs, vs, gs),
            Op::GdnPrefillSplit4Batched(
                _, h, q, k, v, x, y, o, n, r, nk, nv, kd, vd, qs, vs, gs,
            ) => h == state && at(q, k, v, x, y, o) && fit(n, r, nk, nv, kd, vd, qs, vs, gs),
            Op::GdnPrefillPersistentSmemBatched(
                _, h, q, k, v, x, y, o, n, r, nk, nv, kd, vd, qs, vs, gs, _,
            ) => h == state && at(q, k, v, x, y, o) && fit(n, r, nk, nv, kd, vd, qs, vs, gs),
            Op::KdaPrefill(
                _, h, q, k, v, x, y, o, n, r, nk, nv, kd, vd, qs, vs, gs, bs,
            ) => {
                &&& h == state
                &&& q.0 == g.qkv.0 + first * d.conv_dim * 2
                &&& k.0 == q.0 + d.key_dim * 2
                &&& v.0 == k.0 + d.key_dim * 2
                &&& x.0 == g.gate_beta.0 + first * d.nv * d.kd * 4
                &&& y.0 == betas.0 + first * d.nv * 4
                &&& o.0 == g.output.0 + first * d.value_dim * 2
                &&& n == seqs && r == rows
                &&& nk == d.nk as u32 && nv == d.nv as u32
                &&& kd == d.kd as u32 && vd == d.vd as u32
                &&& qs == d.conv_dim as u32 && vs == d.conv_dim as u32
                &&& gs == (d.nv * d.kd) as u32 && bs == d.nv as u32
            },
            _ => false,
        }
    }

    /// The buffers of a prompt of `rows` rows end within the address space.
    pub open spec fn recurrence_in_space(
        &self,
        cx: &ForwardContext,
        g: GdnPrefillBuffers,
        rows: int,
    ) -> bool {
        let d = SsmDims::of(cx);
        &&& SsmDims::fit(cx)
        &&& d.nv * 2 <= u32::MAX
        &&& g.qkv.0 + rows * d.conv_dim * 2 <= u64::MAX
        &&& g.output.0 + rows * d.value_dim * 2 <= u64::MAX
        &&& if self.kda_mode {
            &&& g.gate_beta.0 + rows * d.nv * d.kd * 4 <= u64::MAX
            &&& cx.buffers.ssm_gates.0 + rows * d.nv * 4 <= u64::MAX
        } else {
            g.gate_beta.0 + rows * (d.nv * 2) * 4 <= u64::MAX
        }
    }

    proof fn lemma_row_offsets(d: SsmDims, first: int, rows: int)
        requires
            0 <= first < rows,
            d.conv_dim == d.key_dim * 2 + d.value_dim,
        ensures
            0 <= first * d.conv_dim * 2,
            first * d.conv_dim * 2 + d.key_dim * 4 <= rows * d.conv_dim * 2,
            0 <= first * d.value_dim * 2 <= rows * d.value_dim * 2,
            0 <= first * (d.nv * 2) * 4,
            first * (d.nv * 2) * 4 + d.nv * 4 <= rows * (d.nv * 2) * 4,
            0 <= first * d.nv * d.kd * 4 <= rows * d.nv * d.kd * 4,
            0 <= first * d.nv * 4 <= rows * d.nv * 4,
    {
        let (c, v, nv, kd) = (d.conv_dim as int, d.value_dim as int, d.nv as int, d.kd as int);
        assert((first + 1) * c <= rows * c && 0 <= first * c && (first + 1) * c == first * c + c)
            by (nonlinear_arith)
            requires
                0 <= first < rows,
                0 <= c,
        ;
        assert(0 <= first * v <= rows * v) by (nonlinear_arith)
            requires
                0 <= first < rows,
                0 <= v,
        ;
        assert((first + 1) * (nv * 2) <= rows * (nv * 2) && 0 <= first * (nv * 2) && (first + 1) * (
        nv * 2) == first * (nv * 2) + nv * 2) by (nonlinear_arith)
            requires
                0 <= first < rows,
                0 <= nv,
        ;
        assert(0 <= first * nv <= rows * nv) by (nonlinear_arith)
            requires
                0 <= first < rows,
                0 <= nv,
        ;
        assert(0 <= first * nv * kd <= rows * nv * kd) by (nonlinear_arith)
            requires
                0 <= first < rows,
                0 <= nv,
                0 <= kd,
        ;
    }

    proof fn lemma_gdn_rows(
        &self,
        cx: &ForwardContext,
        g: GdnPrefillBuffers,
        persistent: bool,
        state: DevicePtr,
        first: int,
        rows: u32,
        total: int,
    )
        requires
            !self.kda_mode,
            0 <= first < total,
            self.recurrence_in_space(cx, g, total),
        ensures
            ({
                let d = SsmDims::of(cx);
                Self::recurs_on(
                    self.gdn_rows(g, d, persistent, state, first, rows),
                    d,
                    g, cx.buffers.ssm_gates,
                    state,
                    1,
                    first,
                    rows as int,
                )
            }),
    {
        let d = SsmDims::of(cx);
        Self::lemma_row_offsets(d, first, total);
        let gs = (d.nv * 2) as u32;
        assert(gs == d.nv * 2);
    }

    proof fn lemma_gdn_pieces(
        &self,
        cx: &ForwardContext,
        g: GdnPrefillBuffers,
        state: DevicePtr,
        m: nat,
        stream: u64,
    )
        requires
            !self.kda_mode,
            m <= pieces((g.total_len as u32) as int, GDN_MAX_ROWS as int),
            self.recurrence_in_space(cx, g, (g.total_len as u32) as int),
        ensures
            ({
                let d = SsmDims::of(cx);
                let t = self.gdn_pieces(g, d, state, m, stream);
                let total = (g.total_len as u32) as int;
                &&& t.len() == m
                &&& forall|j: int|
                    0 <= j < m ==> ((#[trigger] t[j]) matches Step::On(st, op) && st == stream
                        && Self::recurs_on(
                        op,
                        d,
                        g, cx.buffers.ssm_gates,
                        state,
                        1,
                        j * 4096,
                        piece_len(total, 4096, j),
                    ))
            }),
        decreases m,
    {
        if m > 0 {
            let d = SsmDims::of(cx);
            let total = (g.total_len as u32) as int;
            self.lemma_gdn_pieces(cx, g, state, (m - 1) as nat, stream);
            let q = self.gdn_pieces(g, d, state, (m - 1) as nat, stream);
            let t = self.gdn_pieces(g, d, state, m, stream);
            let rows = piece_len(total, GDN_MAX_ROWS as int, m - 1);
            lemma_pieces(total, GDN_MAX_ROWS as int, m - 1);
            self.lemma_gdn_rows(
                cx,
                g,
                self.k.gdn_prefill_persistent.0 != 0 && rows as u32 >= 256,
                state,
                (m - 1) * GDN_MAX_ROWS,
                rows as u32,
                total,
            );
            assert forall|j: int| 0 <= j < m implies ((#[trigger] t[j]) matches Step::On(st, op)
                && st == stream && Self::recurs_on(
                op,
                d,
                g, cx.buffers.ssm_gates,
                state,
                1,
                j * 4096,
                piece_len(total, 4096, j),
            )) by {
                if j < m - 1 {
                    assert(t[j] == q[j]);
                }
            }
        }
    }

    /// The recurrence with scalar gates runs over the rows of the prompt in
    /// order: in one launch over all of them, or in launches of 4096 rows and
    /// the rest, each on the next rows.
    pub proof fn lemma_gdn_covers(
        &self,
        cx: &ForwardContext,
        g: GdnPrefillBuffers,
        state: SsmState,
        stream: u64,
    )
        requires
            !self.kda_mode,
            0 < g.total_len <= u32::MAX,
            self.recurrence_in_space(cx, g, g.total_len as int),
        ensures
            ({
                let d = SsmDims::of(cx);
                let t = self.gdn_full_plan(cx, g, state, stream);
                let total = g.total_len as int;
                let size = if t.len() == 1 {
                    total
                } else {
                    4096
                };
                &&& t.len() == 1 || t.len() == pieces(total, 4096)
                &&& forall|j: int|
                    0 <= j < t.len() ==> ((#[trigger] t[j]) matches Step::On(st, op) && st
                        == stream && Self::recurs_on(
                        op,
                        d,
                        g, cx.buffers.ssm_gates,
                        state.h_state,
                        1,
                        j * size,
                        piece_len(total, size, j),
                    ))
            }),
    {
        let d = SsmDims::of(cx);
        let total = g.total_len as int;
        Self::lemma_row_offsets(d, 0, total);
        assert((d.nv * 2) as u32 == d.nv * 2);
        self.lemma_gdn_pieces(
            cx,
            g,
            state.h_state,
            pieces(total, GDN_MAX_ROWS as int),
            stream,
        );
        if total > 0 {
            self.lemma_gdn_rows(
                cx,
                g,
                256 <= total <= 4096 && self.k.gdn_prefill_persistent.0 != 0,
                state.h_state,
                0,
                total as u32,
                total,
            );
        }
        let t = self.gdn_full_plan(cx, g, state, stream);
        let in_pieces = !(self.k.gdn_prefill_wy32.0 != 0 && total > 32) && total > GDN_MAX_ROWS;
        if in_pieces {
            lemma_pieces(total, GDN_MAX_ROWS as int, 1);
        } else {
            assert(t.len() == 1);
            assert(piece_len(total, total, 0) == total);
            let op = t[0]->On_1;
            assert(t[0] == Step::On(stream, op));
            assert(Self::recurs_on(op, d, g, cx.buffers.ssm_gates, state.h_state, 1, 0, total));
            assert forall|j: int| 0 <= j < t.len() implies ((#[trigger] t[j]) matches Step::On(
                st,
                op,
            ) && st == stream && Self::recurs_on(
                op,
                d,
                g, cx.buffers.ssm_gates,
                state.h_state,
                1,
                j * total,
                piece_len(total, total, j),
            )) by {
                assert(j == 0);
                assert(j * total == 0) by (nonlinear_arith)
                    requires
                        j == 0,
                ;
            }
        }
    }

    /// Several sequences of one length go through the recurrence in one launch
    /// that reads their rows as the launch for one does.
    pub proof fn lemma_gdn_batched(
        &self,
        cx: &ForwardContext,
        g: GdnPrefillBuffers,
        h_state_ptrs: DevicePtr,
        batch: u32,
        rows: u32,
    )
        requires
            !self.kda_mode,
            rows > 0,
            self.recurrence_in_space(cx, g, rows as int),
        ensures
            self.gdn_batched_op(cx, g, h_state_ptrs, batch, rows) matches Some(op)
                ==> Self::recurs_on(
                op,
                SsmDims::of(cx),
                g, cx.buffers.ssm_gates,
                h_state_ptrs,
                batch,
                0,
                rows as int,
            ),
    {
        Self::lemma_row_offsets(SsmDims::of(cx), 0, rows as int);
    }

    proof fn lemma_kda_launches(
        &self,
        cx: &ForwardContext,
        g: GdnPrefillBuffers,
        state: SsmState,
        m: nat,
        stream: u64,
    )
        requires
            self.kda_mode,
            m <= pieces(g.total_len as int, KDA_MAX_ROWS as int),
            self.recurrence_in_space(cx, g, g.total_len as int),
        ensures
            ({
                let d = SsmDims::of(cx);
                let t = self.kda_launches(cx, g, state, m, stream);
                &&& t.len() == m
                &&& forall|j: int|
                    0 <= j < m ==> ((#[trigger] t[j]) matches Step::On(st, op) && st == stream
                        && Self::recurs_on(
                        op,
                        d,
                        g, cx.buffers.ssm_gates,
                        state.h_state,
                        1,
                        j * KDA_MAX_ROWS,
                        piece_len(g.total_len as int, KDA_MAX_ROWS as int, j),
                    ))
            }),
        decreases m,
    {
        if m > 0 {
            let d = SsmDims::of(cx);
            let total = g.total_len as int;
            self.lemma_kda_launches(cx, g, state, (m - 1) as nat, stream);
            let q = self.kda_launches(cx, g, state, (m - 1) as nat, stream);
            let t = self.kda_launches(cx, g, state, m, stream);
            lemma_pieces(total, KDA_MAX_ROWS as int, m - 1);
            Self::lemma_row_offsets(d, (m - 1) * KDA_MAX_ROWS, total);
            assert forall|j: int| 0 <= j < m implies ((#[trigger] t[j]) matches Step::On(st, op)
                && st == stream && Self::recurs_on(
                op,
                d,
                g, cx.buffers.ssm_gates,
                state.h_state,
                1,
                j * KDA_MAX_ROWS,
                piece_len(total, KDA_MAX_ROWS as int, j),
            )) by {
                if j < m - 1 {
                    assert(t[j] == q[j]);
                }
            }
        }
    }

    /// The recurrence with a decay per channel runs over the rows of the prompt
    /// in order, at most so many rows to a launch.
    pub proof fn lemma_kda_covers(
        &self,
        cx: &ForwardContext,
        g: GdnPrefillBuffers,
        state: SsmState,
        stream: u64,
    )
        requires
            self.kda_mode,
            self.recurrence_in_space(cx, g, g.total_len as int),
        ensures
            ({
                let t = self.kda_full_plan(cx, g, state, stream);
                let (total, size) = (g.total_len as int, KDA_MAX_ROWS as int);
                &&& t.len() == pieces(total, size)
                &&& forall|j: int|
                    0 <= j < t.len() ==> ((#[trigger] t[j]) matches Step::On(st, op) && st
                        == stream && Self::recurs_on(
                        op,
                        SsmDims::of(cx),
                        g, cx.buffers.ssm_gates,
                        state.h_state,
                        1,
                        j * size,
                        piece_len(total, size, j),
                    ))
            }),
    {
        self.lemma_kda_launches(
            cx,
            g,
            state,
            pieces(g.total_len as int, KDA_MAX_ROWS as int),
            stream,
        );
    }
}

} // verus!
