//! What plans compute.
//!
//! The contents of device memory are expressions over what was there before.
//! Running a step replaces the contents that it writes by an expression over the
//! contents that it reads, whatever buffers these are in. A law about a plan
//! then says what a buffer holds in the end, as a formula over inputs and
//! weights. Steps count as done one after the other, in the order in which they
//! are enqueued.

pub mod assembled;
pub mod draft_head;
pub mod launches;
pub mod named;
pub mod steps;
pub mod streams;
pub mod work;

use crate::gpu::{
    AnyWeight, DenseWeight, DevicePtr, ExpertPtrTable, Fp8ExpertPtrTable, QuantizedWeight,
};
use crate::plan::{reduced, timed, Op, ProgramView, Step};
use crate::meaning::steps::group_steps;
use vstd::prelude::*;

verus! {

/// A weight that rows are multiplied by.
pub enum Weight {
    Dense(DenseWeight),
    Nvfp4(QuantizedWeight),
    /// 4-bit, stored transposed.
    Nvfp4T(QuantizedWeight),
    RowScaled(DevicePtr, DevicePtr),
    Fp8(DevicePtr),
    Any(AnyWeight),
    /// The weight of each expert.
    Experts(ExpertPtrTable),
    ExpertsT(ExpertPtrTable),
    Fp8Experts(Fp8ExpertPtrTable),
    /// The weight of each head, one after the other.
    Heads(DevicePtr),
}

/// How experts are selected.
pub struct Choice {
    /// Sigmoid scores with this bias; softmax scores without one.
    pub bias: Option<DevicePtr>,
    pub rows: u32,
    pub experts: u32,
    pub top_k: u32,
    pub normalize: bool,
    /// f32 bits.
    pub scale: u32,
    pub n_group: u32,
    pub topk_group: u32,
}

/// What an operation makes of its operands. Numbers are extents.
pub enum Rule {
    /// Bytes with this value.
    Filled(u8, usize),
    /// The first so many bytes.
    First(usize),
    /// From this byte on.
    From(int),
    /// The first operand with the second one from this byte on.
    Into(int),
    /// Summed over the ranks.
    OverRanks(usize),
    /// Rows, outputs, inputs.
    Product(Weight, u32, u32, u32),
    /// Rows, width, epsilon.
    Norm(DenseWeight, u32, u32, u32),
    Add(u32),
    /// Activation of the first operand, times the second.
    Activate(u32),
    Clamp(u32, u32),
    RouterView(u32, u32),
    /// The selected experts.
    Chosen(Choice),
    /// Their shares.
    Shares(Choice),
    /// Token ids, expert ids, offsets or positions of the sorted rows; which of
    /// these, rows, experts, experts per token.
    Sorted(int, u32, u32, u32),
    /// Rows by the weights of their selected experts; outputs, inputs, experts
    /// per row.
    ByExpert(Weight, u32, u32, u32),
    /// The same, with the distance between the rows of two experts.
    ByExpertRow(Weight, u32, u32, u32, u32),
    /// Sorted rows by the weight of each one's expert; experts, outputs, inputs.
    Grouped(Weight, u32, u32, u32),
    /// Sorted rows back at their tokens, weighted and summed; width, rows,
    /// experts per row.
    Gathered(u32, u32, u32),
    /// Weighted sum of experts, and the shared part through its gate; gate,
    /// scale, width, experts per row, input width.
    Blend(DevicePtr, u32, u32, u32, u32),
    /// The first operand and the gated second one; gate, width, rows.
    AddShared(DevicePtr, u32, u32),
    /// Squares of positive values; the second one of so many.
    Relu2,
    Relu2All(u32),
    /// Weighted sum of experts and the shared part; width, experts, scale.
    WeightedSum(u32, u32, u32),
    /// One product per head; weights, outputs, inputs, heads, strides.
    PerHead(DevicePtr, u32, u32, u32, u32, u32),
    /// The rope part of each head; rows, heads, head width, plain width, rope
    /// width, row stride.
    RopePart(u32, u32, u32, u32, u32, u32),
    /// The first operand with the second as rope part of each head; rows,
    /// heads, where the part begins in a head, its width, head and row stride.
    WithRope(u32, u32, u32, u32, u32, u32),
    /// Rotated by position; rows, heads, head width, rotated width,
    /// frequencies, base.
    Rotated(u32, u32, u32, u32, DevicePtr, u32),
    /// Latent row and rope key; rows, widths and their sum.
    CacheKey(u32, u32, u32, u32),
    /// Latent row and zeros.
    CacheValue(u32, u32, u32, u32),
    /// The first operand with the second stored at slots; rows, heads, width,
    /// block size, stride.
    Stored(u32, u32, u32, u32, u32),
    /// Keys of all heads from expanded rows and rope keys; rows, heads, plain
    /// width, value width, rope width, head width, row stride.
    HeadKeys(u32, u32, u32, u32, u32, u32, u32),
    HeadValues(u32, u32, u32, u32, u32, u32, u32),
    /// Attention over the paged cache: blocks per sequence, sequences, query
    /// heads, key heads, width, block size, scale, query stride, window.
    AttendPaged(u32, u32, u32, u32, u32, u32, u32, u32, u32),
    /// Causal attention among rows: rows, sequences, query heads, key heads,
    /// key width, value width, scale, window.
    Attend(u32, u32, u32, u32, u32, u32, u32, u32),
    /// Heads scaled by the sigmoid of their gates.
    HeadGate(u32),
    /// Projected rows in sequential order; rows, key heads, key width, value
    /// heads per key head, value width.
    Sequential(u32, u32, u32, u32, u32),
    /// Decay and strength of scalar gates; weight, decay, bias, rows, outputs,
    /// inputs, value heads per key head.
    ScalarDecay(DenseWeight, DevicePtr, DevicePtr, u32, u32, u32, u32),
    ScalarBeta(DenseWeight, DevicePtr, DevicePtr, u32, u32, u32, u32),
    /// Decay and strength row by row, side by side; besides, strides and heads.
    ScalarGates(DenseWeight, DevicePtr, DevicePtr, u32, u32, u32, u32, u32, u32, u32),
    /// Decay per channel; parameters, rows, heads, width, lower bound.
    ChannelDecay(DevicePtr, DevicePtr, u32, u32, u32, u32, u32),
    ChannelBeta(DevicePtr, DevicePtr, u32, u32, u32, u32, u32),
    /// Convolution; weight, channels, taps, rows.
    Conv(DenseWeight, u32, u32, u32),
    /// What a convolution leaves for the next rows.
    ConvState(DenseWeight, u32, u32, u32),
    /// Convolution of many rows; weight, bias, channels, taps, rows, strides.
    ConvRows(DenseWeight, DevicePtr, u32, u32, u32, u32, u32),
    ConvRowsState(DenseWeight, DevicePtr, u32, u32, u32, u32, u32),
    /// Heads scaled to unit length; heads, width, epsilon, rows, stride.
    UnitHeads(u32, u32, u32, u32, u32),
    /// Recurrence on a state: operands state, query, key, value, decay and
    /// strength; rows, key heads, value heads, key width, value width.
    Recur(u32, u32, u32, u32, u32),
    RecurState(u32, u32, u32, u32, u32),
    /// The same within a layer: rows, heads, widths, channels.
    LayerRecur(u32, usize, usize, usize, usize, usize),
    LayerRecurState(u32, usize, usize, usize, usize, usize),
    /// The same over many rows: sequences, rows, key heads, value heads, key
    /// width, value width and the strides of query and key, value, decay and
    /// strength.
    RecurRows(u32, u32, u32, u32, u32, u32, u32, u32, u32, u32),
    RecurRowsState(u32, u32, u32, u32, u32, u32, u32, u32, u32, u32),
    /// Norm of the first operand, gated by the second; rows, heads, width,
    /// epsilon, strides.
    GatedNorm(DenseWeight, u32, u32, u32, u32, u32, u32),
    /// The input projection of a recurrent layer; extents.
    LayerProjection(u32, usize, usize, usize, usize, usize, usize),
    /// Its output projection; rows, outputs, inputs.
    LayerOutput(u32, usize, usize),
    /// The feed-forward part of the layer; rows.
    FeedForward(usize),
    /// Embedding of a token.
    TokenRow(u32),
    /// Embeddings of uploaded tokens; table, rows, width.
    TokenRows(DevicePtr, u32, u32),
    ScaledRows(usize),
    Logits,
    /// The most likely of so many tokens.
    Best(u32),
    /// Cache slots of positions, by the block table; first, count, block size.
    SlotsOf(u32, u32, u32),
    /// Hidden state and residual after a layer on one row; layer, position.
    LayerHidden(usize, usize),
    LayerResidual(usize, usize),
    /// The same on several rows; layer, rows, first position, first written.
    RowsHidden(usize, usize, usize, usize),
    RowsResidual(usize, usize, usize, usize),
}

/// Contents of memory.
pub enum Content {
    Bytes(Seq<u8>),
    Of(Rule, Seq<Content>),
}

/// What is in each buffer.
pub type Memory = Map<DevicePtr, Content>;

/// Where things are.
pub struct Layout {
    /// The buffer that an address lies in, and how far from its start.
    pub home: spec_fn(DevicePtr) -> (DevicePtr, int),
    /// Key and value cache of an attention layer.
    pub key_pool: spec_fn(usize) -> DevicePtr,
    pub value_pool: spec_fn(usize) -> DevicePtr,
    /// Where logits go, and the result of a feed-forward part on several rows.
    pub logits: DevicePtr,
    pub rows_out: DevicePtr,
    /// Host bytes that uploads copy from.
    pub staging: Seq<u8>,
}

pub open spec fn unary(r: Rule, a: Content) -> Content {
    Content::Of(r, seq![a])
}

pub open spec fn binary(r: Rule, a: Content, b: Content) -> Content {
    Content::Of(r, seq![a, b])
}

/// Contents from a byte on.
pub open spec fn part(v: Content, at: int) -> Content {
    if at == 0 {
        v
    } else {
        unary(Rule::From(at), v)
    }
}

/// `rows` rows `x` times a weight with `n` outputs and `k` inputs.
pub open spec fn product(x: Content, w: Weight, rows: u32, n: u32, k: u32) -> Content {
    unary(Rule::Product(w, rows, n, k), x)
}

impl Layout {
    /// The contents from an address on.
    pub open spec fn read(self, m: Memory, p: DevicePtr) -> Content {
        let (base, at) = (self.home)(p);
        part(m[base], at)
    }

    /// Memory after a write to an address.
    pub open spec fn write(self, m: Memory, p: DevicePtr, v: Content) -> Memory {
        let (base, at) = (self.home)(p);
        if at == 0 {
            m.insert(base, v)
        } else {
            m.insert(base, binary(Rule::Into(at), m[base], v))
        }
    }

    /// Whether these are the starts of different buffers.
    pub open spec fn holds(self, ps: Seq<DevicePtr>) -> bool {
        &&& forall|i: int, j: int| 0 <= i < j < ps.len() ==> ps[i] != ps[j]
        &&& forall|i: int| 0 <= i < ps.len() ==> (self.home)(#[trigger] ps[i]) == (ps[i], 0int)
    }

    /// Which of several buffers starts at an address.
    pub closed spec fn rank(ps: Seq<DevicePtr>, p: DevicePtr) -> int {
        choose|i: int| 0 <= i < ps.len() && ps[i] == p
    }

    pub proof fn lemma_rank(self, ps: Seq<DevicePtr>)
        requires
            self.holds(ps),
        ensures
            forall|i: int|
                0 <= i < ps.len() ==> Self::rank(ps, #[trigger] ps[i]) == i && (self.home)(ps[i])
                    == (ps[i], 0int),
    {
        assert forall|i: int| 0 <= i < ps.len() implies Self::rank(ps, #[trigger] ps[i]) == i by {
            let j = Self::rank(ps, ps[i]);
            assert(0 <= j < ps.len() && ps[j] == ps[i]);
        }
    }

    /// What the selection of experts writes.
    pub open spec fn choose_experts(
        self,
        m: Memory,
        logits: DevicePtr,
        indices: DevicePtr,
        weights: DevicePtr,
        c: Choice,
    ) -> Memory {
        let x = self.read(m, logits);
        self.write(
            self.write(m, indices, unary(Rule::Chosen(c), x)),
            weights,
            unary(Rule::Shares(c), x),
        )
    }

    /// Gate and up products of the selected experts and of the shared one.
    pub open spec fn gate_up(
        self,
        m: Memory,
        x: DevicePtr,
        tables: (Weight, Weight),
        outs: (DevicePtr, DevicePtr),
        indices: DevicePtr,
        shared: (Weight, Weight),
        shared_outs: (DevicePtr, DevicePtr),
        rows: u32,
        extents: (u32, u32, u32),
    ) -> Memory {
        let v = self.read(m, x);
        let i = self.read(m, indices);
        let (n, k, t) = extents;
        let m = self.write(m, outs.0, binary(Rule::ByExpert(tables.0, n, k, t), v, i));
        let m = self.write(m, outs.1, binary(Rule::ByExpert(tables.1, n, k, t), v, i));
        let m = self.write(m, shared_outs.0, product(v, shared.0, rows, n, k));
        self.write(m, shared_outs.1, product(v, shared.1, rows, n, k))
    }

    /// Activation and down product of the selected experts and of the shared
    /// one.
    pub open spec fn silu_down(
        self,
        m: Memory,
        ins: (DevicePtr, DevicePtr),
        table: Weight,
        out: DevicePtr,
        indices: DevicePtr,
        shared_ins: (DevicePtr, DevicePtr),
        shared: Weight,
        shared_out: DevicePtr,
        rows: u32,
        extents: (u32, u32, u32),
    ) -> Memory {
        let i = self.read(m, indices);
        let (n, k, t) = extents;
        let a = binary(Rule::Activate(k), self.read(m, ins.0), self.read(m, ins.1));
        let s = binary(Rule::Activate(k), self.read(m, shared_ins.0), self.read(m, shared_ins.1));
        let m = self.write(m, out, binary(Rule::ByExpert(table, n, k, t), a, i));
        self.write(m, shared_out, product(s, shared, rows, n, k))
    }

    /// Sorted rows times the weights of their experts.
    pub open spec fn grouped(
        self,
        m: Memory,
        x: DevicePtr,
        w: Weight,
        out: DevicePtr,
        offsets: DevicePtr,
        order: DevicePtr,
        extents: (u32, u32, u32),
    ) -> Memory {
        let (e, n, k) = extents;
        let v = self.read(m, x);
        let o = self.read(m, offsets);
        self.write(
            m,
            out,
            if order.0 == 0 {
                binary(Rule::Grouped(w, e, n, k), v, o)
            } else {
                Content::Of(Rule::Grouped(w, e, n, k), seq![v, o, self.read(m, order)])
            },
        )
    }

    /// A recurrence: output and next state.
    pub open spec fn recur(
        self,
        m: Memory,
        state: DevicePtr,
        qkv: (DevicePtr, DevicePtr, DevicePtr),
        gates: (DevicePtr, DevicePtr),
        out: DevicePtr,
        extents: (u32, u32, u32, u32, u32),
    ) -> Memory {
        let args = seq![
            self.read(m, state),
            self.read(m, qkv.0),
            self.read(m, qkv.1),
            self.read(m, qkv.2),
            self.read(m, gates.0),
            self.read(m, gates.1),
        ];
        let (rows, nk, nv, kd, vd) = extents;
        let m = self.write(m, out, Content::Of(Rule::Recur(rows, nk, nv, kd, vd), args));
        self.write(m, state, Content::Of(Rule::RecurState(rows, nk, nv, kd, vd), args))
    }

    /// A recurrence over many rows: outputs and next state.
    pub open spec fn recur_rows(
        self,
        m: Memory,
        state: DevicePtr,
        qkv: (DevicePtr, DevicePtr, DevicePtr),
        gates: (DevicePtr, DevicePtr),
        out: DevicePtr,
        extents: (u32, u32, u32, u32, u32, u32),
        strides: (u32, u32, u32, u32),
    ) -> Memory {
        let args = seq![
            self.read(m, state),
            self.read(m, qkv.0),
            self.read(m, qkv.1),
            self.read(m, qkv.2),
            self.read(m, gates.0),
            self.read(m, gates.1),
        ];
        let (seqs, rows, nk, nv, kd, vd) = extents;
        let (qs, vs, gs, bs) = strides;
        let m = self.write(
            m,
            out,
            Content::Of(Rule::RecurRows(seqs, rows, nk, nv, kd, vd, qs, vs, gs, bs), args),
        );
        self.write(
            m,
            state,
            Content::Of(Rule::RecurRowsState(seqs, rows, nk, nv, kd, vd, qs, vs, gs, bs), args),
        )
    }

    /// Memory after a product, a norm or another operation on rows.
    pub open spec fn basic(self, m: Memory, op: Op) -> Memory {
        match op {
            Op::Memset(p, v, n) => self.write(m, p, Content::Of(Rule::Filled(v, n), Seq::empty())),
            Op::CopyD2d(x, out, n) => self.write(
                m,
                out,
                unary(Rule::First(n), self.read(m, x)),
            ),
            Op::AllReduceAsync(p, n) => self.write(
                m,
                p,
                unary(Rule::OverRanks(n), self.read(m, p)),
            ),
            Op::Upload(first, count, out) => self.write(
                m,
                out,
                Content::Bytes(self.staging.subrange(first as int, first + count)),
            ),
            Op::DenseGemv(_, x, w, out, n, k) => self.write(
                m,
                out,
                product(self.read(m, x), Weight::Dense(w), 1, n, k),
            ),
            Op::DenseGemm(_, x, w, out, r, n, k) => self.write(
                m,
                out,
                product(self.read(m, x), Weight::Dense(w), r, n, k),
            ),
            Op::DenseGemmTc(_, x, w, out, r, n, k) => self.write(
                m,
                out,
                product(self.read(m, x), Weight::Dense(w), r, n, k),
            ),
            Op::W4a16Gemv(_, x, w, out, n, k) => self.write(
                m,
                out,
                product(self.read(m, x), Weight::Nvfp4(w), 1, n, k),
            ),
            Op::W4a16GemvBatch2(_, x, w, out, n, k) => self.write(
                m,
                out,
                product(self.read(m, x), Weight::Nvfp4(w), 2, n, k),
            ),
            Op::W4a16Gemm(_, x, w, out, r, n, k) => self.write(
                m,
                out,
                product(self.read(m, x), Weight::Nvfp4(w), r, n, k),
            ),
            Op::W4a16GemmN128(_, x, w, out, r, n, k) => self.write(
                m,
                out,
                product(self.read(m, x), Weight::Nvfp4T(w), r, n, k),
            ),
            Op::W4a16GemmN128M128(_, x, w, out, r, n, k) => self.write(
                m,
                out,
                product(self.read(m, x), Weight::Nvfp4T(w), r, n, k),
            ),
            Op::W8a16Gemv(_, x, w, scales, out, n, k) => self.write(
                m,
                out,
                product(self.read(m, x), Weight::RowScaled(w, scales), 1, n, k),
            ),
            Op::W8a16Gemm(_, x, w, scales, out, r, n, k) => self.write(
                m,
                out,
                product(self.read(m, x), Weight::RowScaled(w, scales), r, n, k),
            ),
            Op::Fp8GemmN128(_, x, w, out, r, n, k) => self.write(
                m,
                out,
                product(self.read(m, x), Weight::Fp8(w), r, n, k),
            ),
            Op::Fp8GemmN128M128(_, x, w, out, r, n, k) => self.write(
                m,
                out,
                product(self.read(m, x), Weight::Fp8(w), r, n, k),
            ),
            Op::AnyGemv(x, w, out, n, k) => self.write(
                m,
                out,
                product(self.read(m, x), Weight::Any(w), 1, n, k),
            ),
            Op::RmsNorm(_, x, w, out, rows, dim, eps) => self.write(
                m,
                out,
                unary(Rule::Norm(w, rows, dim, eps), self.read(m, x)),
            ),
            Op::RmsNormResidual(_, x, w, out, residual, rows, dim, eps) => {
                let v = self.read(m, x);
                self.write(
                    self.write(m, residual, v),
                    out,
                    unary(Rule::Norm(w, rows, dim, eps), v),
                )
            },
            Op::ResidualAdd(_, x, y, n) => self.write(
                m,
                x,
                binary(Rule::Add(n), self.read(m, x), self.read(m, y)),
            ),
            Op::ResidualAddRmsNorm(_, x, y, w, out, residual, rows, dim, eps) => {
                let v = binary(Rule::Add((rows * dim) as u32), self.read(m, x), self.read(m, y));
                self.write(
                    self.write(self.write(m, x, v), residual, v),
                    out,
                    unary(Rule::Norm(w, rows, dim, eps), v),
                )
            },
            Op::SiluMul(_, g, u, out, n) => self.write(
                m,
                out,
                binary(Rule::Activate(n), self.read(m, g), self.read(m, u)),
            ),
            Op::MoeSiluMul(_, g, u, out, n) => self.write(
                m,
                out,
                binary(Rule::Activate(n), self.read(m, g), self.read(m, u)),
            ),
            Op::ClampBf16(_, p, limit, n) => self.write(
                m,
                p,
                unary(Rule::Clamp(limit, n), self.read(m, p)),
            ),
            _ => Map::empty(),
        }
    }

    /// Memory after an operation on experts.
    pub open spec fn experts(self, m: Memory, op: Op) -> Memory {
        match op {
            Op::RouterInput(x, rows, dim, out) => self.write(
                m,
                out,
                unary(Rule::RouterView(rows, dim), self.read(m, x)),
            ),
            Op::MoeTopkSoftmax(_, logits, indices, weights, experts, top_k, normalize) =>
            self.choose_experts(
                m,
                logits,
                indices,
                weights,
                Choice {
                    bias: None,
                    rows: 1,
                    experts,
                    top_k,
                    normalize,
                    scale: 0,
                    n_group: 0,
                    topk_group: 0,
                },
            ),
            Op::MoeTopkSoftmaxBatched(_, logits, indices, weights, experts, top_k, normalize, rows)
            => self.choose_experts(
                m,
                logits,
                indices,
                weights,
                Choice {
                    bias: None,
                    rows,
                    experts,
                    top_k,
                    normalize,
                    scale: 0,
                    n_group: 0,
                    topk_group: 0,
                },
            ),
            Op::MoeTopkSigmoid(
                _, logits, bias, indices, weights, experts, top_k, normalize, scale, n_group,
                topk_group,
            ) => self.choose_experts(
                m,
                logits,
                indices,
                weights,
                Choice {
                    bias: Some(bias),
                    rows: 1,
                    experts,
                    top_k,
                    normalize,
                    scale,
                    n_group,
                    topk_group,
                },
            ),
            Op::MoeTopkSigmoidBatched(
                _, logits, bias, indices, weights, experts, top_k, normalize, scale, rows, n_group,
                topk_group,
            ) => self.choose_experts(
                m,
                logits,
                indices,
                weights,
                Choice {
                    bias: Some(bias),
                    rows,
                    experts,
                    top_k,
                    normalize,
                    scale,
                    n_group,
                    topk_group,
                },
            ),
            Op::TopkSigmoidRows(
                _, logits, bias, indices, weights, experts, top_k, normalize, scale, rows, n_group,
                topk_group,
            ) => self.choose_experts(
                m,
                logits,
                indices,
                weights,
                Choice {
                    bias: Some(bias),
                    rows,
                    experts,
                    top_k,
                    normalize,
                    scale,
                    n_group,
                    topk_group,
                },
            ),
            Op::MoeSortByExpert(
                _, indices, tokens, ids, offsets, positions, rows, experts, top_k,
            ) => {
                let v = self.read(m, indices);
                let m = self.write(m, tokens, unary(Rule::Sorted(0, rows, experts, top_k), v));
                let m = self.write(m, ids, unary(Rule::Sorted(1, rows, experts, top_k), v));
                let m = self.write(m, offsets, unary(Rule::Sorted(2, rows, experts, top_k), v));
                self.write(m, positions, unary(Rule::Sorted(3, rows, experts, top_k), v))
            },
            Op::MoeGateUpShared(_, x, g, go, u, uo, i, sg, sgo, su, suo, n, k, t) => self.gate_up(
                m,
                x,
                (Weight::Experts(g), Weight::Experts(u)),
                (go, uo),
                i,
                (Weight::Nvfp4(sg), Weight::Nvfp4(su)),
                (sgo, suo),
                1,
                (n, k, t),
            ),
            Op::MoeGateUpSharedT(_, x, g, go, u, uo, i, sg, sgo, su, suo, n, k, t) => self.gate_up(
                m,
                x,
                (Weight::ExpertsT(g), Weight::ExpertsT(u)),
                (go, uo),
                i,
                (Weight::Nvfp4T(sg), Weight::Nvfp4T(su)),
                (sgo, suo),
                1,
                (n, k, t),
            ),
            Op::MoeGateUpSharedFp8(_, x, g, go, u, uo, i, sg, sgo, su, suo, n, k, t) =>
            self.gate_up(
                m,
                x,
                (Weight::Fp8Experts(g), Weight::Fp8Experts(u)),
                (go, uo),
                i,
                (
                    Weight::RowScaled(sg.weight, sg.row_scale),
                    Weight::RowScaled(su.weight, su.row_scale),
                ),
                (sgo, suo),
                1,
                (n, k, t),
            ),
            Op::MoeGateUpSharedBatch2(_, x, g, go, u, uo, i, sg, sgo, su, suo, n, k, t, _) =>
            self.gate_up(
                m,
                x,
                (Weight::Experts(g), Weight::Experts(u)),
                (go, uo),
                i,
                (Weight::Nvfp4(sg), Weight::Nvfp4(su)),
                (sgo, suo),
                2,
                (n, k, t),
            ),
            Op::MoeGateUpSharedBatch2T(_, x, g, go, u, uo, i, sg, sgo, su, suo, n, k, t) =>
            self.gate_up(
                m,
                x,
                (Weight::ExpertsT(g), Weight::ExpertsT(u)),
                (go, uo),
                i,
                (Weight::Nvfp4T(sg), Weight::Nvfp4T(su)),
                (sgo, suo),
                2,
                (n, k, t),
            ),
            Op::MoeGateUpSharedFp8Batch2(_, x, g, go, u, uo, i, sg, sgo, su, suo, n, k, t) =>
            self.gate_up(
                m,
                x,
                (Weight::Fp8Experts(g), Weight::Fp8Experts(u)),
                (go, uo),
                i,
                (
                    Weight::RowScaled(sg.weight, sg.row_scale),
                    Weight::RowScaled(su.weight, su.row_scale),
                ),
                (sgo, suo),
                2,
                (n, k, t),
            ),
            Op::MoeSiluDownShared(_, g, u, d, out, i, sg, su, sd, so, n, k, t) => self.silu_down(
                m,
                (g, u),
                Weight::Experts(d),
                out,
                i,
                (sg, su),
                Weight::Nvfp4(sd),
                so,
                1,
                (n, k, t),
            ),
            Op::MoeSiluDownSharedT(_, g, u, d, out, i, sg, su, sd, so, n, k, t) => self.silu_down(
                m,
                (g, u),
                Weight::ExpertsT(d),
                out,
                i,
                (sg, su),
                Weight::Nvfp4T(sd),
                so,
                1,
                (n, k, t),
            ),
            Op::MoeSiluDownSharedFp8(_, g, u, d, out, i, sg, su, sd, so, n, k, t) =>
            self.silu_down(
                m,
                (g, u),
                Weight::Fp8Experts(d),
                out,
                i,
                (sg, su),
                Weight::RowScaled(sd.weight, sd.row_scale),
                so,
                1,
                (n, k, t),
            ),
            Op::MoeSiluDownSharedBatch2(_, g, u, d, out, i, sg, su, sd, so, n, k, t, _) =>
            self.silu_down(
                m,
                (g, u),
                Weight::Experts(d),
                out,
                i,
                (sg, su),
                Weight::Nvfp4(sd),
                so,
                2,
                (n, k, t),
            ),
            Op::MoeSiluDownSharedBatch2T(_, g, u, d, out, i, sg, su, sd, so, n, k, t) =>
            self.silu_down(
                m,
                (g, u),
                Weight::ExpertsT(d),
                out,
                i,
                (sg, su),
                Weight::Nvfp4T(sd),
                so,
                2,
                (n, k, t),
            ),
            Op::MoeSiluDownSharedFp8Batch2(_, g, u, d, out, i, sg, su, sd, so, n, k, t) =>
            self.silu_down(
                m,
                (g, u),
                Weight::Fp8Experts(d),
                out,
                i,
                (sg, su),
                Weight::RowScaled(sd.weight, sd.row_scale),
                so,
                2,
                (n, k, t),
            ),
            Op::MoeWeightedSumBlend(_, out, x, w, shared, input, g, scale, h, t, k) => self.write(
                m,
                out,
                Content::Of(
                    Rule::Blend(g, scale, h, t, k),
                    seq![
                        self.read(m, x), self.read(m, w), self.read(m, shared), self.read(m, input),
                    ],
                ),
            ),
            Op::MoeWeightedSumBlendBatch2(_, out, x, w, shared, input, g, h, t, k) => self.write(
                m,
                out,
                Content::Of(
                    Rule::Blend(g, 0, h, t, k),
                    seq![
                        self.read(m, x), self.read(m, w), self.read(m, shared), self.read(m, input),
                    ],
                ),
            ),
            Op::MoeBatchedBlend(_, out, shared, input, g, h, rows) => self.write(
                m,
                out,
                Content::Of(
                    Rule::AddShared(g, h, rows),
                    seq![self.read(m, out), self.read(m, shared), self.read(m, input)],
                ),
            ),
            Op::MoeGroupedGemm(_, x, w, out, offsets, order, e, n, k, _) => self.grouped(
                m, x, Weight::Experts(w), out, offsets, order, (e, n, k),
            ),
            Op::MoeGroupedGemmN128(_, x, w, out, offsets, order, e, n, k, _) => self.grouped(
                m, x, Weight::ExpertsT(w), out, offsets, order, (e, n, k),
            ),
            Op::MoeFp8GroupedGemm(_, x, w, out, offsets, order, e, n, k, _) => self.grouped(
                m, x, Weight::Fp8Experts(w), out, offsets, order, (e, n, k),
            ),
            Op::MoeFusedGateUpN128(_, x, g, u, go, uo, offsets, order, e, n, k, _) => {
                let a = self.grouped(m, x, Weight::ExpertsT(g), go, offsets, order, (e, n, k));
                let v = self.grouped(m, x, Weight::ExpertsT(u), uo, offsets, order, (e, n, k));
                self.write(a, uo, self.read(v, uo))
            },
            Op::MoeFusedGateUpM128(_, x, g, u, go, uo, offsets, order, e, n, k, _) => {
                let a = self.grouped(m, x, Weight::ExpertsT(g), go, offsets, order, (e, n, k));
                let v = self.grouped(m, x, Weight::ExpertsT(u), uo, offsets, order, (e, n, k));
                self.write(a, uo, self.read(v, uo))
            },
            Op::MoeUnpermuteReduce(_, x, out, positions, shares, h, rows, t) => self.write(
                m,
                out,
                Content::Of(
                    Rule::Gathered(h, rows, t),
                    seq![self.read(m, x), self.read(m, positions), self.read(m, shares)],
                ),
            ),
            Op::MoeTransposeDown => m,
            Op::MoeExpertGemv(_, x, w, out, indices, n, k, t, stride) => self.write(
                m,
                out,
                binary(
                    Rule::ByExpertRow(Weight::Experts(w), n, k, t, stride),
                    self.read(m, x),
                    self.read(m, indices),
                ),
            ),
            Op::Relu2DownShared(_, _, up, d, out, i, su, sd, so, n, k, sk, h, t) => {
                let a = unary(Rule::Relu2, self.read(m, up));
                let s = unary(Rule::Relu2, self.read(m, su));
                let idx = self.read(m, i);
                let m = self.write(
                    m,
                    out,
                    binary(Rule::ByExpert(Weight::Experts(d), n, k, t), a, idx),
                );
                self.write(m, so, product(s, Weight::Nvfp4(sd), 1, h, sk))
            },
            Op::WeightedSumScale(_, out, x, w, shared, h, t, scale) => self.write(
                m,
                out,
                Content::Of(
                    Rule::WeightedSum(h, t, scale),
                    seq![self.read(m, x), self.read(m, w), self.read(m, shared)],
                ),
            ),
            Op::Relu2Elementwise(_, p, n) => self.write(
                m,
                p,
                unary(Rule::Relu2All(n), self.read(m, p)),
            ),
            _ => self.basic(m, op),
        }
    }

    /// Memory after an operation of latent attention.
    pub open spec fn attention(self, m: Memory, op: Op) -> Memory {
        match op {
            Op::MlaBatchedGemv(_, x, w, out, n, k, heads, from, to) => self.write(
                m,
                out,
                unary(Rule::PerHead(w, n, k, heads, from, to), self.read(m, x)),
            ),
            Op::MlaQRopeScatter(_, q, absorbed, part, heads, hd, nope, rope, latent, cd) => {
                let v = unary(
                    Rule::RopePart(1, heads, hd, nope, rope, (heads * hd) as u32),
                    self.read(m, q),
                );
                let w = binary(
                    Rule::WithRope(1, heads, latent, rope, cd, (heads * cd) as u32),
                    self.read(m, absorbed),
                    v,
                );
                self.write(self.write(m, part, v), absorbed, w)
            },
            Op::MlaQRopeWriteback(_, part, absorbed, heads, rope, latent, cd) => self.write(
                m,
                absorbed,
                binary(
                    Rule::WithRope(1, heads, latent, rope, cd, (heads * cd) as u32),
                    self.read(m, absorbed),
                    self.read(m, part),
                ),
            ),
            Op::MlaQRopeExtractBatched(_, q, part, rows, heads, hd, nope, rope, stride) =>
            self.write(
                m,
                part,
                unary(Rule::RopePart(rows, heads, hd, nope, rope, stride), self.read(m, q)),
            ),
            Op::MlaQRopeWritebackBatched(_, part, q, rows, heads, hd, nope, rope, stride) =>
            self.write(
                m,
                q,
                binary(
                    Rule::WithRope(rows, heads, nope, rope, hd, stride),
                    self.read(m, q),
                    self.read(m, part),
                ),
            ),
            Op::RopeYarn(_, q, k, positions, rows, qh, kh, hd, rd, freq, theta) => {
                let p = self.read(m, positions);
                let a = binary(Rule::Rotated(rows, qh, hd, rd, freq, theta), self.read(m, q), p);
                let b = binary(Rule::Rotated(rows, kh, hd, rd, freq, theta), self.read(m, k), p);
                self.write(self.write(m, q, a), k, b)
            },
            Op::MlaCacheAssemble(_, kv, part, k, v, latent, rope, cd) => {
                let a = self.read(m, kv);
                self.write(
                    self.write(
                        m,
                        k,
                        binary(Rule::CacheKey(1, latent, rope, cd), a, self.read(m, part)),
                    ),
                    v,
                    unary(Rule::CacheValue(1, latent, rope, cd), a),
                )
            },
            Op::MlaCacheAssembleBatched(_, kv, part, k, v, rows, latent, rope, cd) => {
                let a = self.read(m, kv);
                self.write(
                    self.write(
                        m,
                        k,
                        binary(Rule::CacheKey(rows, latent, rope, cd), a, self.read(m, part)),
                    ),
                    v,
                    unary(Rule::CacheValue(rows, latent, rope, cd), a),
                )
            },
            Op::MlaKvAssembleBatched(_, kv, part, k, v, rows, heads, nope, vd, rope, hd, stride)
            => {
                let a = self.read(m, kv);
                self.write(
                    self.write(
                        m,
                        k,
                        binary(
                            Rule::HeadKeys(rows, heads, nope, vd, rope, hd, stride),
                            a,
                            self.read(m, part),
                        ),
                    ),
                    v,
                    unary(Rule::HeadValues(rows, heads, nope, vd, rope, hd, stride), a),
                )
            },
            Op::WriteKvCache(layer, k, v, slots, rows, heads, dim, bs, ks, vs, _) => {
                let kp = (self.key_pool)(layer);
                let vp = (self.value_pool)(layer);
                let s = self.read(m, slots);
                let a = Content::Of(
                    Rule::Stored(rows, heads, dim, bs, ks),
                    seq![self.read(m, kp), self.read(m, k), s],
                );
                let b = Content::Of(
                    Rule::Stored(rows, heads, dim, bs, vs),
                    seq![self.read(m, vp), self.read(m, v), s],
                );
                self.write(self.write(m, kp, a), vp, b)
            },
            Op::PagedDecodeAttn(
                _, q, k, v, out, table, lens, blocks, seqs, qh, kh, hd, bs, scale, stride, window,
            ) => self.write(
                m,
                out,
                Content::Of(
                    Rule::AttendPaged(blocks, seqs, qh, kh, hd, bs, scale, stride, window),
                    seq![
                        self.read(m, q),
                        self.read(m, k),
                        self.read(m, v),
                        self.read(m, table),
                        self.read(m, lens),
                    ],
                ),
            ),
            Op::LingMlaPrefillAttn(_, q, k, v, out, rows, qh, kh, hd, vd, scale) => self.write(
                m,
                out,
                Content::Of(
                    Rule::Attend(rows, 1, qh, kh, hd, vd, scale, 0),
                    seq![self.read(m, q), self.read(m, k), self.read(m, v)],
                ),
            ),
            Op::PrefillAttention64(
                _, q, k, v, out, rows, seqs, qh, kh, hd, scale, causal, window,
            ) => if causal {
                self.write(
                    m,
                    out,
                    Content::Of(
                        Rule::Attend(rows, seqs, qh, kh, hd, hd, scale, window),
                        seq![self.read(m, q), self.read(m, k), self.read(m, v)],
                    ),
                )
            } else {
                Map::empty()
            },
            Op::PrefillAttention(
                _, q, k, v, out, rows, seqs, qh, kh, hd, scale, causal, window,
            ) => if causal {
                self.write(
                    m,
                    out,
                    Content::Of(
                        Rule::Attend(rows, seqs, qh, kh, hd, hd, scale, window),
                        seq![self.read(m, q), self.read(m, k), self.read(m, v)],
                    ),
                )
            } else {
                Map::empty()
            },
            Op::HeadwiseGate(_, x, g, rows) => self.write(
                m,
                x,
                binary(Rule::HeadGate(rows), self.read(m, x), self.read(m, g)),
            ),
            _ => self.experts(m, op),
        }
    }

    /// Memory after an operation of a recurrent layer.
    pub open spec fn recurrent(self, m: Memory, op: Op) -> Memory {
        match op {
            Op::DeinterleaveQkvz(_, x, out, rows, nk, kd, vpg, vd) => self.write(
                m,
                out,
                unary(Rule::Sequential(rows, nk, kd, vpg, vd), self.read(m, x)),
            ),
            Op::W4a16GemvQkvz(_, x, w, out, n, k, nk, kd, vpg, vd) => self.write(
                m,
                out,
                unary(
                    Rule::Sequential(1, nk, kd, vpg, vd),
                    product(self.read(m, x), Weight::Nvfp4(w), 1, n, k),
                ),
            ),
            Op::DenseGemvBaGates(_, x, w, a, d, gates, betas, n, k, vpg) => {
                let v = self.read(m, x);
                self.write(
                    self.write(m, gates, unary(Rule::ScalarDecay(w, a, d, 1, n, k, vpg), v)),
                    betas,
                    unary(Rule::ScalarBeta(w, a, d, 1, n, k, vpg), v),
                )
            },
            Op::DenseGemmBaGatesPrefill(_, x, w, a, d, out, rows, n, k, xs, os, nv, vpg) =>
            self.write(
                m,
                out,
                unary(Rule::ScalarGates(w, a, d, rows, n, k, xs, os, nv, vpg), self.read(m, x)),
            ),
            Op::Conv1dUpdateL2norm(_, state, x, w, out, channels, taps, seqs, qk, kd, eps) => {
                let v = self.read(m, x);
                let s = self.read(m, state);
                self.write(
                    self.write(
                        m,
                        out,
                        unary(
                            Rule::UnitHeads(qk, kd, eps, seqs, channels),
                            binary(Rule::Conv(w, channels, taps, seqs), v, s),
                        ),
                    ),
                    state,
                    binary(Rule::ConvState(w, channels, taps, seqs), v, s),
                )
            },
            Op::Conv1dUpdatePrefill(_, state, x, w, bias, out, channels, taps, rows, xs, os) => {
                let v = self.read(m, x);
                let s = self.read(m, state);
                self.write(
                    self.write(
                        m,
                        out,
                        binary(Rule::ConvRows(w, bias, channels, taps, rows, xs, os), v, s),
                    ),
                    state,
                    binary(Rule::ConvRowsState(w, bias, channels, taps, rows, xs, os), v, s),
                )
            },
            Op::L2Norm(_, p, heads, dim, eps, rows, stride) => self.write(
                m,
                p,
                unary(Rule::UnitHeads(heads, dim, eps, rows, stride), self.read(m, p)),
            ),
            Op::GdnDecode(_, state, q, k, v, g, b, out, seqs, nk, nv, kd, vd) => self.recur(
                m, state, (q, k, v), (g, b), out, (seqs, nk, nv, kd, vd),
            ),
            Op::KdaDecode(_, state, q, k, v, g, b, out, seqs, nk, nv, kd, vd) => self.recur(
                m, state, (q, k, v), (g, b), out, (seqs, nk, nv, kd, vd),
            ),
            Op::GatedRmsNorm(_, x, z, w, out, heads, dim, xs, eps, zs) => self.write(
                m,
                out,
                binary(
                    Rule::GatedNorm(w, 1, heads, dim, eps, xs, zs),
                    self.read(m, x),
                    self.read(m, z),
                ),
            ),
            Op::GatedRmsNormPrefill(_, x, z, w, out, heads, dim, eps, rows, xs, zs) => self.write(
                m,
                out,
                binary(
                    Rule::GatedNorm(w, rows, heads, dim, eps, xs, zs),
                    self.read(m, x),
                    self.read(m, z),
                ),
            ),
            Op::KdaGates(_, f, b, a, d, decay, beta, rows, nk, nv, kd, bound) => {
                let x = self.read(m, f);
                let y = self.read(m, b);
                self.write(
                    self.write(
                        m,
                        decay,
                        unary(Rule::ChannelDecay(a, d, rows, nk, nv, kd, bound), x),
                    ),
                    beta,
                    unary(Rule::ChannelBeta(a, d, rows, nk, nv, kd, bound), y),
                )
            },
            Op::PrefillQkvzProj(x, out, rows, size, h, nk, kd, vpg, vd) => self.write(
                m,
                out,
                unary(Rule::LayerProjection(rows, size, h, nk, kd, vpg, vd), self.read(m, x)),
            ),
            Op::PrefillOutProj(x, out, rows, h, dim) => self.write(
                m,
                out,
                unary(Rule::LayerOutput(rows, h, dim), self.read(m, x)),
            ),
            Op::PrefillGdnRecurrence(state, q, k, v, gates, out, rows, nk, nv, kd, vd, c) => {
                let args = seq![
                    self.read(m, state),
                    self.read(m, q),
                    self.read(m, k),
                    self.read(m, v),
                    self.read(m, gates),
                ];
                let m = self.write(
                    m,
                    out,
                    Content::Of(Rule::LayerRecur(rows, nk, nv, kd, vd, c), args),
                );
                self.write(
                    m,
                    state,
                    Content::Of(Rule::LayerRecurState(rows, nk, nv, kd, vd, c), args),
                )
            },
            Op::KdaPrefill(
                _, state, q, k, v, g, b, out, seqs, rows, nk, nv, kd, vd, qs, vs, gs, bs,
            ) => self.recur_rows(
                m, state, (q, k, v), (g, b), out, (seqs, rows, nk, nv, kd, vd), (qs, vs, gs, bs),
            ),
            Op::GdnPrefillPersistent(
                _, state, q, k, v, g, b, out, seqs, rows, nk, nv, kd, vd, qs, vs, gs,
            ) => self.recur_rows(
                m, state, (q, k, v), (g, b), out, (seqs, rows, nk, nv, kd, vd), (qs, vs, gs, gs),
            ),
            Op::GdnPrefillSplit4(
                _, state, q, k, v, g, b, out, seqs, rows, nk, nv, kd, vd, qs, vs, gs,
            ) => self.recur_rows(
                m, state, (q, k, v), (g, b), out, (seqs, rows, nk, nv, kd, vd), (qs, vs, gs, gs),
            ),
            Op::GdnPrefillPersistentSmem(
                _, state, q, k, v, g, b, out, seqs, rows, nk, nv, kd, vd, qs, vs, gs, _,
            ) => self.recur_rows(
                m, state, (q, k, v), (g, b), out, (seqs, rows, nk, nv, kd, vd), (qs, vs, gs, gs),
            ),
            Op::FfnForward(x, out) => self.write(
                m,
                out,
                unary(Rule::FeedForward(1), self.read(m, x)),
            ),
            Op::FfnForwardPrefill(x, rows) => self.write(
                m,
                self.rows_out,
                unary(Rule::FeedForward(rows), self.read(m, x)),
            ),
            _ => self.attention(m, op),
        }
    }

    /// Memory after an operation.
    pub open spec fn after_op(self, m: Memory, op: Op) -> Memory {
        match op {
            Op::Synchronize => m,
            Op::RecordEvent(_) => m,
            Op::WaitEvent(_) => m,
            Op::BeginCapture => m,
            Op::EndCapture => m,
            Op::CaptureDecode(_, _) => m,
            Op::CapturePrefill(_, _, _) => m,
            Op::NormalizeSsmStates => m,
            Op::Embed(token, out) => self.write(
                m,
                out,
                Content::Of(Rule::TokenRow(token), Seq::empty()),
            ),
            Op::BatchedEmbed(_, ids, table, out, rows, h) => self.write(
                m,
                out,
                unary(Rule::TokenRows(table, rows, h), self.read(m, ids)),
            ),
            Op::ScaleEmbeddings(p, rows) => self.write(
                m,
                p,
                unary(Rule::ScaledRows(rows), self.read(m, p)),
            ),
            Op::Argmax(_, x, out, n) => self.write(
                m,
                out,
                unary(Rule::Best(n), self.read(m, x)),
            ),
            Op::FillSlots(_, slots, table, first, count, bs) => self.write(
                m,
                slots,
                unary(Rule::SlotsOf(first, count, bs), self.read(m, table)),
            ),
            Op::LmHead(x) => self.write(m, self.logits, unary(Rule::Logits, self.read(m, x))),
            Op::LayerDecode(i, hidden, residual, position) => {
                let h = self.read(m, hidden);
                let r = self.read(m, residual);
                self.write(
                    self.write(m, hidden, binary(Rule::LayerHidden(i, position), h, r)),
                    residual,
                    binary(Rule::LayerResidual(i, position), h, r),
                )
            },
            Op::LayerPrefill(i, hidden, residual, rows, start, write) => {
                let h = self.read(m, hidden);
                let r = self.read(m, residual);
                self.write(
                    self.write(m, hidden, binary(Rule::RowsHidden(i, rows, start, write), h, r)),
                    residual,
                    binary(Rule::RowsResidual(i, rows, start, write), h, r),
                )
            },
            _ => self.recurrent(m, op),
        }
    }

    /// Memory after a step.
    #[verifier::opaque]
    pub open spec fn after_step(self, m: Memory, s: Step) -> Memory {
        match s {
            Step::On(_, op) => self.after_op(m, op),
            Step::AllReduce(p, n) => self.write(
                m,
                p,
                unary(Rule::OverRanks(n), self.read(m, p)),
            ),
        }
    }

    /// Memory after a plan.
    pub open spec fn after(self, m: Memory, s: Seq<Step>) -> Memory
        decreases s.len(),
    {
        if s.len() == 0 {
            m
        } else {
            self.after_step(self.after(m, s.drop_last()), s.last())
        }
    }

    pub broadcast proof fn lemma_after_push(self, m: Memory, s: Seq<Step>, x: Step)
        ensures
            #[trigger] self.after(m, s.push(x)) == self.after_step(self.after(m, s), x),
    {
        assert(s.push(x).drop_last() =~= s);
    }

    pub broadcast proof fn lemma_after_timed(
        self,
        m: Memory,
        s: Seq<Step>,
        profile: bool,
        stream: u64,
    )
        ensures
            #[trigger] self.after(m, timed(s, profile, stream)) == self.after(m, s),
    {
        broadcast use group_steps;

        self.lemma_after_push(m, s, Step::On(stream, Op::Synchronize));
    }

    pub broadcast proof fn lemma_after_reduced(
        self,
        m: Memory,
        s: Seq<Step>,
        is_ep: bool,
        graph_capture: bool,
        buf: DevicePtr,
        bytes: int,
        stream: u64,
    )
        ensures
            #[trigger] self.after(m, reduced(s, is_ep, graph_capture, buf, bytes, stream))
                == if is_ep {
                let t = self.after(m, s);
                self.write(t, buf, unary(Rule::OverRanks(bytes as usize), self.read(t, buf)))
            } else {
                self.after(m, s)
            },
    {
        broadcast use {Layout::lemma_after_push, group_steps};

    }

    pub broadcast proof fn lemma_after_empty(self, m: Memory)
        ensures
            #[trigger] self.after(m, Seq::empty()) == m,
    {
    }
}

impl Layout {
    /// An upload puts the bytes that were staged for it to its destination.
    pub proof fn lemma_after_upload(
        self,
        m: Memory,
        p: ProgramView,
        stream: u64,
        bytes: Seq<u8>,
        out: DevicePtr,
    )
        requires
            p.staging.len() + bytes.len() <= usize::MAX,
            p.upload(stream, bytes, out).staging.is_prefix_of(self.staging),
        ensures
            self.after(m, p.upload(stream, bytes, out).steps) == self.write(
                self.after(m, p.steps),
                out,
                Content::Bytes(bytes),
            ),
            p.staging.is_prefix_of(self.staging),
    {
        broadcast use group_after;

        let all = self.staging;
        let (a, b) = (p.staging.len() as int, (p.staging.len() + bytes.len()) as int);
        let both = p.staging + bytes;
        assert(both == all.subrange(0, b));
        assert forall|i: int| 0 <= i < bytes.len() implies all.subrange(a, b)[i] == bytes[i] by {
            assert(both[a + i] == bytes[i]);
            assert(all.subrange(0, b)[a + i] == all[a + i]);
        }
        assert(all.subrange(a, b) =~= bytes);
        assert(p.staging =~= all.subrange(0, a)) by {
            assert forall|i: int| 0 <= i < a implies p.staging[i] == all[i] by {
                assert(both[i] == p.staging[i]);
                assert(all.subrange(0, b)[i] == all[i]);
            }
        }
    }
}

pub broadcast group group_after {
    Layout::lemma_after_push,
    Layout::lemma_after_timed,
    Layout::lemma_after_empty,
    Layout::lemma_after_reduced,
    group_steps,
}

} // verus!
