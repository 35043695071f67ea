//! The recurrence of a prefill over all buffered rows.

use crate::context::ForwardContext;
use crate::gpu::{DevicePtr, KernelHandle};
use crate::num::{ceil_div, imin, lemma_ceil_div, lemma_span4_mono, lemma_span_mono, span, span4};
use crate::plan::{enqueue, on, GdnPrefillBuffers, Op, SsmState, Step};
use crate::ssm::{Qwen3SsmLayer, SsmDims, SsmError};
use vstd::prelude::*;

verus! {

/// Most rows that one launch with per-channel decay takes.
pub const KDA_MAX_ROWS: usize = 65535;

/// Most rows that one launch with scalar gates takes.
pub const GDN_MAX_ROWS: u32 = 4096;

/// Rows of launch `j` when `total` rows are cut into pieces of `limit`.
pub open spec fn piece_len(total: int, limit: int, j: int) -> int {
    imin(total - j * limit, limit)
}

/// Launches needed for `total` rows.
pub open spec fn pieces(total: int, limit: int) -> nat {
    ceil_div(total, limit) as nat
}

pub proof fn lemma_pieces(total: int, limit: int, j: int)
    requires
        total >= 0,
        limit > 0,
        j >= 0,
    ensures
        j < pieces(total, limit) <==> j * limit < total,
        j * limit >= 0,
{
    lemma_ceil_div(total, limit);
    let c = ceil_div(total, limit);
    assert(j * limit >= 0) by (nonlinear_arith)
        requires
            j >= 0,
            limit > 0,
    ;
    if j < c {
        assert(j * limit < total) by (nonlinear_arith)
            requires
                j <= c - 1,
                c * limit < total + limit,
                limit > 0,
        ;
    } else {
        assert(j * limit >= total) by (nonlinear_arith)
            requires
                j >= c,
                c * limit >= total,
                limit > 0,
        ;
    }
}

/// The pieces cut `total` rows without gap or overlap: each begins where the
/// one before ends, none is empty or longer than the limit, and the last ends
/// at `total`.
pub proof fn lemma_pieces_partition(total: int, limit: int)
    requires
        total >= 0,
        limit > 0,
    ensures
        forall|j: int|
            0 <= j < pieces(total, limit) ==> 0 < #[trigger] piece_len(total, limit, j) <= limit,
        forall|j: int|
            0 <= j < pieces(total, limit) - 1 ==> #[trigger] piece_len(total, limit, j) == limit,
        pieces(total, limit) > 0 ==> (pieces(total, limit) - 1) * limit + piece_len(
            total,
            limit,
            pieces(total, limit) - 1,
        ) == total,
        pieces(total, limit) == 0 <==> total == 0,
{
    assert forall|j: int| 0 <= j < pieces(total, limit) implies 0 < #[trigger] piece_len(
        total,
        limit,
        j,
    ) <= limit by {
        lemma_pieces(total, limit, j);
    }
    assert forall|j: int| 0 <= j < pieces(total, limit) - 1 implies #[trigger] piece_len(
        total,
        limit,
        j,
    ) == limit by {
        lemma_pieces(total, limit, j + 1);
        assert((j + 1) * limit == j * limit + limit) by (nonlinear_arith);
    }
    lemma_pieces(total, limit, 0);
    if pieces(total, limit) > 0 {
        let p = pieces(total, limit) as int;
        lemma_pieces(total, limit, p);
        lemma_pieces(total, limit, p - 1);
        assert((p - 1) * limit + limit == p * limit) by (nonlinear_arith);
    }
}

impl Qwen3SsmLayer {
    // ---- per-channel decay ----

    pub open spec fn kda_full_fits(cx: &ForwardContext, g: GdnPrefillBuffers) -> bool {
        let d = SsmDims::of(cx);
        &&& SsmDims::fit(cx)
        &&& d.conv_dim * 2 <= usize::MAX
        &&& d.nv * d.kd <= usize::MAX
        &&& g.total_len * d.conv_dim * 2 <= usize::MAX
        &&& g.total_len * d.nv <= usize::MAX
        &&& g.total_len * d.nv * d.kd * 4 <= usize::MAX
        &&& g.total_len * d.nv * 4 <= usize::MAX
        &&& g.total_len * d.value_dim * 2 <= usize::MAX
    }

    /// The launch whose first row is `offset`.
    pub open spec fn kda_launch(
        &self,
        cx: &ForwardContext,
        g: GdnPrefillBuffers,
        state: SsmState,
        offset: int,
        rows: u32,
    ) -> Op {
        let d = SsmDims::of(cx);
        Op::KdaPrefill(
            self.k.kda_prefill, state.h_state, g.qkv.at(offset * d.conv_dim * 2),
            g.qkv.at(d.key_dim * 2).at(offset * d.conv_dim * 2),
            g.qkv.at(d.key_dim * 2 * 2).at(offset * d.conv_dim * 2),
            g.gate_beta.at(offset * d.nv * d.kd * 4), cx.buffers.ssm_gates.at(offset * d.nv * 4),
            g.output.at(offset * d.value_dim * 2), 1, rows, d.nk as u32, d.nv as u32,
            d.kd as u32, d.vd as u32, d.conv_dim as u32, d.conv_dim as u32,
            (d.nv * d.kd) as u32, d.nv as u32,
        )
    }

    /// The first `m` launches, in order; each carries the state to the next.
    pub open spec fn kda_launches(
        &self,
        cx: &ForwardContext,
        g: GdnPrefillBuffers,
        state: SsmState,
        m: nat,
        stream: u64,
    ) -> Seq<Step>
        decreases m,
    {
        if m == 0 {
            Seq::empty()
        } else {
            let j = m - 1;
            on(
                self.kda_launches(cx, g, state, (m - 1) as nat, stream),
                stream,
                self.kda_launch(
                    cx,
                    g,
                    state,
                    j * KDA_MAX_ROWS,
                    piece_len(g.total_len as int, KDA_MAX_ROWS as int, j) as u32,
                ),
            )
        }
    }

    /// The recurrence with per-channel decay over all rows.
    pub open spec fn kda_full_plan(
        &self,
        cx: &ForwardContext,
        g: GdnPrefillBuffers,
        state: SsmState,
        stream: u64,
    ) -> Seq<Step> {
        self.kda_launches(
            cx,
            g,
            state,
            pieces(g.total_len as int, KDA_MAX_ROWS as int),
            stream,
        )
    }

    /// Plans the recurrence with per-channel decay over all rows.
    pub fn prefill_kda_full(
        &self,
        cx: &ForwardContext,
        g: GdnPrefillBuffers,
        state: SsmState,
        stream: u64,
    ) -> (r: Result<Vec<Step>, SsmError>)
        requires
            self.k.kda_prefill.0 != 0 ==> Self::kda_full_fits(cx, g),
        ensures
            match r {
                Ok(plan) => self.k.kda_prefill.0 != 0 && plan@ == self.kda_full_plan(
                    cx,
                    g,
                    state,
                    stream,
                ),
                Err(e) => self.k.kda_prefill.0 == 0 && e == SsmError::KdaPrefillUnavailable,
            },
    {
        if self.k.kda_prefill.0 == 0 {
            return Err(SsmError::KdaPrefillUnavailable);
        }
        let d: SsmDims = SsmDims::read(cx);
        let total: usize = g.total_len;
        let k_base: DevicePtr = g.qkv.offset(d.key_dim * 2);
        let v_base: DevicePtr = g.qkv.offset(d.key_dim * 2 * 2);
        let mut plan: Vec<Step> = Vec::new();
        let mut offset: usize = 0;
        let ghost mut j: int = 0;
        while offset < total
            invariant
                0 <= j <= pieces(total as int, KDA_MAX_ROWS as int),
                offset == imin(j * KDA_MAX_ROWS, total as int),
                total == g.total_len,
                Self::kda_full_fits(cx, g),
                d == SsmDims::of(cx),
                k_base == g.qkv.at(d.key_dim * 2),
                v_base == g.qkv.at(d.key_dim * 2 * 2),
                plan@ == self.kda_launches(cx, g, state, j as nat, stream),
            decreases total - offset,
        {
            proof {
                lemma_pieces(total as int, KDA_MAX_ROWS as int, j);
                lemma_pieces(total as int, KDA_MAX_ROWS as int, j + 1);
                lemma_span_mono(offset as int, total as int, d.conv_dim as int, 2);
                lemma_span_mono(offset as int, total as int, d.nv as int, 4);
                lemma_span_mono(offset as int, total as int, d.value_dim as int, 2);
                lemma_span4_mono(offset as int, total as int, d.nv as int, d.kd as int, 4);
            }
            let chunk: usize = if total - offset < KDA_MAX_ROWS {
                total - offset
            } else {
                KDA_MAX_ROWS
            };
            let row: usize = span(offset, d.conv_dim, 2);
            enqueue(
                &mut plan,
                stream,
                Op::KdaPrefill(
                    self.k.kda_prefill, state.h_state, g.qkv.offset(row), k_base.offset(row),
                    v_base.offset(row), g.gate_beta.offset(span4(offset, d.nv, d.kd, 4)),
                    cx.buffers.ssm_gates.offset(span(offset, d.nv, 4)),
                    g.output.offset(span(offset, d.value_dim, 2)), 1, chunk as u32, d.nk as u32,
                    d.nv as u32, d.kd as u32, d.vd as u32, d.conv_dim as u32, d.conv_dim as u32,
                    (d.nv * d.kd) as u32, d.nv as u32,
                ),
            );
            offset = offset + chunk;
            proof {
                j = j + 1;
            }
        }
        proof {
            lemma_pieces(total as int, KDA_MAX_ROWS as int, j);
        }
        Ok(plan)
    }

    // ---- scalar gates ----

    pub open spec fn gdn_full_fits(cx: &ForwardContext, g: GdnPrefillBuffers) -> bool {
        let d = SsmDims::of(cx);
        &&& SsmDims::fit(cx)
        &&& d.conv_dim * 2 <= usize::MAX
        &&& d.nv * 4 <= usize::MAX
        &&& g.total_len as u32 * d.conv_dim * 2 <= usize::MAX
        &&& g.total_len as u32 * ((d.nv * 2) as u32) * 4 <= usize::MAX
        &&& g.total_len as u32 * d.value_dim * 2 <= usize::MAX
        &&& d.kd * d.vd <= usize::MAX
        &&& d.kd * d.vd * 4 + 64 * d.kd * 2 + 32 * 32 * 4 + 256 <= usize::MAX
    }

    /// Shared memory of the 32-row kernel.
    pub open spec fn wy32_smem(d: SsmDims) -> u32 {
        (d.kd * d.vd * 4 + 32 * d.kd * 2 + 32 * d.kd * 2 + 32 * 32 * 4 + 256) as u32
    }

    /// Shared memory of the 4-row kernel.
    pub open spec fn wy4_smem(d: SsmDims) -> u32 {
        (d.kd * d.vd * 4 + 8 * d.kd * 4 + 56) as u32
    }

    /// A launch with explicit shared memory over all rows.
    pub open spec fn gdn_smem(
        g: GdnPrefillBuffers,
        d: SsmDims,
        kernel: KernelHandle,
        h_state: DevicePtr,
        rows: u32,
        smem: u32,
    ) -> Op {
        Op::GdnPrefillPersistentSmem(
            kernel, h_state, g.qkv, g.qkv.at(d.key_dim * 2), g.qkv.at(d.key_dim * 2 * 2),
            g.gate_beta, g.gate_beta.at(d.nv * 4), g.output, 1, rows, d.nk as u32, d.nv as u32,
            d.kd as u32, d.vd as u32, d.conv_dim as u32, d.conv_dim as u32, (d.nv * 2) as u32,
            smem,
        )
    }

    /// A launch of the persistent or the split kernel on `rows` rows from
    /// `offset` on.
    pub open spec fn gdn_rows(
        &self,
        g: GdnPrefillBuffers,
        d: SsmDims,
        persistent: bool,
        h_state: DevicePtr,
        offset: int,
        rows: u32,
    ) -> Op {
        let gs = (d.nv * 2) as u32;
        let q = g.qkv.at(offset * d.conv_dim * 2);
        let k = g.qkv.at(d.key_dim * 2).at(offset * d.conv_dim * 2);
        let v = g.qkv.at(d.key_dim * 2 * 2).at(offset * d.conv_dim * 2);
        let gate = g.gate_beta.at(offset * gs * 4);
        let beta = g.gate_beta.at(d.nv * 4).at(offset * gs * 4);
        let out = g.output.at(offset * d.value_dim * 2);
        if persistent {
            Op::GdnPrefillPersistent(
                self.k.gdn_prefill_persistent, h_state, q, k, v, gate, beta, out, 1, rows,
                d.nk as u32, d.nv as u32, d.kd as u32, d.vd as u32, d.conv_dim as u32,
                d.conv_dim as u32, gs,
            )
        } else {
            Op::GdnPrefillSplit4(
                self.k.gdn_prefill_split4, h_state, q, k, v, gate, beta, out, 1, rows,
                d.nk as u32, d.nv as u32, d.kd as u32, d.vd as u32, d.conv_dim as u32,
                d.conv_dim as u32, gs,
            )
        }
    }

    fn gdn_rows_op(
        &self,
        g: GdnPrefillBuffers,
        d: SsmDims,
        persistent: bool,
        h_state: DevicePtr,
        offset: u32,
        rows: u32,
    ) -> (r: Op)
        requires
            d.conv_dim == d.key_dim * 2 + d.value_dim,
            d.conv_dim * 2 <= usize::MAX,
            d.nv * 4 <= usize::MAX,
            offset * d.conv_dim * 2 <= usize::MAX,
            offset * ((d.nv * 2) as u32) * 4 <= usize::MAX,
            offset * d.value_dim * 2 <= usize::MAX,
        ensures
            r == self.gdn_rows(g, d, persistent, h_state, offset as int, rows),
    {
        let gs: u32 = (d.nv * 2) as u32;
        let at: usize = offset as usize;
        let row: usize = span(at, d.conv_dim, 2);
        let gate_row: usize = span(at, gs as usize, 4);
        let q: DevicePtr = g.qkv.offset(row);
        let k: DevicePtr = g.qkv.offset(d.key_dim * 2).offset(row);
        let v: DevicePtr = g.qkv.offset(d.key_dim * 2 * 2).offset(row);
        let gate: DevicePtr = g.gate_beta.offset(gate_row);
        let beta: DevicePtr = g.gate_beta.offset(d.nv * 4).offset(gate_row);
        let out: DevicePtr = g.output.offset(span(at, d.value_dim, 2));
        if persistent {
            Op::GdnPrefillPersistent(
                self.k.gdn_prefill_persistent, h_state, q, k, v, gate, beta, out, 1, rows,
                d.nk as u32, d.nv as u32, d.kd as u32, d.vd as u32, d.conv_dim as u32,
                d.conv_dim as u32, gs,
            )
        } else {
            Op::GdnPrefillSplit4(
                self.k.gdn_prefill_split4, h_state, q, k, v, gate, beta, out, 1, rows,
                d.nk as u32, d.nv as u32, d.kd as u32, d.vd as u32, d.conv_dim as u32,
                d.conv_dim as u32, gs,
            )
        }
    }

    /// The first `m` launches of a long prompt.
    pub open spec fn gdn_pieces(
        &self,
        g: GdnPrefillBuffers,
        d: SsmDims,
        h_state: DevicePtr,
        m: nat,
        stream: u64,
    ) -> Seq<Step>
        decreases m,
    {
        if m == 0 {
            Seq::empty()
        } else {
            let j = m - 1;
            let rows = piece_len((g.total_len as u32) as int, GDN_MAX_ROWS as int, j) as u32;
            on(
                self.gdn_pieces(g, d, h_state, (m - 1) as nat, stream),
                stream,
                self.gdn_rows(
                    g,
                    d,
                    self.k.gdn_prefill_persistent.0 != 0 && rows >= 256,
                    h_state,
                    j * GDN_MAX_ROWS,
                    rows,
                ),
            )
        }
    }

    /// The recurrence with scalar gates: the 32-row kernel where it is loaded
    /// and the prompt is longer than 32 rows; else pieces of 4096 rows on longer
    /// prompts; else the 4-row kernel; else the persistent kernel on 256 rows or
    /// more; else the split kernel.
    pub open spec fn gdn_full_plan(
        &self,
        cx: &ForwardContext,
        g: GdnPrefillBuffers,
        state: SsmState,
        stream: u64,
    ) -> Seq<Step> {
        let d = SsmDims::of(cx);
        let total = g.total_len as u32;
        if self.k.gdn_prefill_wy32.0 != 0 && total > 32 {
            on(
                Seq::empty(),
                stream,
                Self::gdn_smem(
                    g, d, self.k.gdn_prefill_wy32, state.h_state, total, Self::wy32_smem(d),
                ),
            )
        } else if total > GDN_MAX_ROWS {
            self.gdn_pieces(
                g,
                d,
                state.h_state,
                pieces(total as int, GDN_MAX_ROWS as int),
                stream,
            )
        } else if self.k.gdn_prefill_persistent_wy4.0 != 0 {
            on(
                Seq::empty(),
                stream,
                Self::gdn_smem(
                    g, d, self.k.gdn_prefill_persistent_wy4, state.h_state, total,
                    Self::wy4_smem(d),
                ),
            )
        } else {
            on(
                Seq::empty(),
                stream,
                self.gdn_rows(
                    g,
                    d,
                    256 <= total <= 4096 && self.k.gdn_prefill_persistent.0 != 0,
                    state.h_state,
                    0,
                    total,
                ),
            )
        }
    }

    fn plan_gdn_pieces(
        &self,
        cx: &ForwardContext,
        plan: &mut Vec<Step>,
        g: GdnPrefillBuffers,
        d: SsmDims,
        h_state: DevicePtr,
        stream: u64,
    )
        requires
            old(plan)@ == Seq::<Step>::empty(),
            Self::gdn_full_fits(cx, g),
            d == SsmDims::of(cx),
            d.conv_dim == d.key_dim * 2 + d.value_dim,
        ensures
            final(plan)@ == self.gdn_pieces(
                g,
                d,
                h_state,
                pieces((g.total_len as u32) as int, GDN_MAX_ROWS as int),
                stream,
            ),
    {
        let total: u32 = g.total_len as u32;
        let mut offset: u32 = 0;
        let ghost mut j: int = 0;
        while offset < total
            invariant
                0 <= j <= pieces(total as int, GDN_MAX_ROWS as int),
                offset == imin(j * GDN_MAX_ROWS, total as int),
                total == g.total_len as u32,
                Self::gdn_full_fits(cx, g),
                d == SsmDims::of(cx),
                d.conv_dim == d.key_dim * 2 + d.value_dim,
                plan@ == self.gdn_pieces(g, d, h_state, j as nat, stream),
            decreases total - offset,
        {
            proof {
                lemma_pieces(total as int, GDN_MAX_ROWS as int, j);
                lemma_pieces(total as int, GDN_MAX_ROWS as int, j + 1);
                lemma_span_mono(offset as int, total as int, d.conv_dim as int, 2);
                lemma_span_mono(offset as int, total as int, ((d.nv * 2) as u32) as int, 4);
                lemma_span_mono(offset as int, total as int, d.value_dim as int, 2);
            }
            let chunk: u32 = if total - offset < GDN_MAX_ROWS {
                total - offset
            } else {
                GDN_MAX_ROWS
            };
            let persistent: bool = self.k.gdn_prefill_persistent.0 != 0 && chunk >= 256;
            enqueue(plan, stream, self.gdn_rows_op(g, d, persistent, h_state, offset, chunk));
            offset = offset + chunk;
            proof {
                j = j + 1;
            }
        }
        proof {
            lemma_pieces(total as int, GDN_MAX_ROWS as int, j);
        }
    }

    fn smem_sizes(d: SsmDims) -> (r: (u32, u32))
        requires
            d.kd * d.vd <= usize::MAX,
            d.kd * d.vd * 4 + 64 * d.kd * 2 + 32 * 32 * 4 + 256 <= usize::MAX,
        ensures
            r.0 == Self::wy32_smem(d),
            r.1 == Self::wy4_smem(d),
    {
        proof {
            vstd::arithmetic::mul::lemma_mul_nonnegative(d.kd as int, d.vd as int);
        }
        let state: usize = d.kd * d.vd * 4;
        (
            (state + 32 * d.kd * 2 + 32 * d.kd * 2 + 32 * 32 * 4 + 256) as u32,
            (state + 8 * d.kd * 4 + 56) as u32,
        )
    }

    pub(crate) fn prefill_gdn_full_inner(
        &self,
        cx: &ForwardContext,
        g: GdnPrefillBuffers,
        state: SsmState,
        stream: u64,
    ) -> (r: Result<Vec<Step>, SsmError>)
        requires
            Self::gdn_full_fits(cx, g),
        ensures
            match r {
                Ok(plan) => !cx.config.ssm_per_channel_gates && plan@ == self.gdn_full_plan(
                    cx,
                    g,
                    state,
                    stream,
                ),
                Err(e) => cx.config.ssm_per_channel_gates && e == SsmError::PerChannelGates,
            },
    {
        let d: SsmDims = SsmDims::read(cx);
        if cx.config.ssm_per_channel_gates {
            return Err(SsmError::PerChannelGates);
        }
        let total: u32 = g.total_len as u32;
        let smem: (u32, u32) = Self::smem_sizes(d);
        let mut plan: Vec<Step> = Vec::new();
        if self.k.gdn_prefill_wy32.0 != 0 && total > 32 {
            enqueue(
                &mut plan,
                stream,
                Op::GdnPrefillPersistentSmem(
                    self.k.gdn_prefill_wy32, state.h_state, g.qkv, g.qkv.offset(d.key_dim * 2),
                    g.qkv.offset(d.key_dim * 2 * 2), g.gate_beta, g.gate_beta.offset(d.nv * 4),
                    g.output, 1, total, d.nk as u32, d.nv as u32, d.kd as u32, d.vd as u32,
                    d.conv_dim as u32, d.conv_dim as u32, (d.nv * 2) as u32, smem.0,
                ),
            );
        } else if total > GDN_MAX_ROWS {
            self.plan_gdn_pieces(cx, &mut plan, g, d, state.h_state, stream);
        } else if self.k.gdn_prefill_persistent_wy4.0 != 0 {
            enqueue(
                &mut plan,
                stream,
                Op::GdnPrefillPersistentSmem(
                    self.k.gdn_prefill_persistent_wy4, state.h_state, g.qkv,
                    g.qkv.offset(d.key_dim * 2), g.qkv.offset(d.key_dim * 2 * 2), g.gate_beta,
                    g.gate_beta.offset(d.nv * 4), g.output, 1, total, d.nk as u32, d.nv as u32,
                    d.kd as u32, d.vd as u32, d.conv_dim as u32, d.conv_dim as u32,
                    (d.nv * 2) as u32, smem.1,
                ),
            );
        } else {
            let persistent: bool = 256 <= total && total <= 4096
                && self.k.gdn_prefill_persistent.0 != 0;
            enqueue(&mut plan, stream, self.gdn_rows_op(g, d, persistent, state.h_state, 0, total));
        }
        Ok(plan)
    }

    /// Plans the recurrence between the two halves of a prefill: the one with
    /// per-channel decay where the layer has it, the one with scalar gates
    /// otherwise.
    pub fn prefill_gdn_full(
        &self,
        cx: &ForwardContext,
        g: GdnPrefillBuffers,
        state: SsmState,
        stream: u64,
    ) -> (r: Result<Vec<Step>, SsmError>)
        requires
            self.kda_mode && self.k.kda_prefill.0 != 0 ==> Self::kda_full_fits(cx, g),
            !self.kda_mode ==> Self::gdn_full_fits(cx, g),
        ensures
            self.kda_mode ==> match r {
                Ok(plan) => self.k.kda_prefill.0 != 0 && plan@ == self.kda_full_plan(
                    cx,
                    g,
                    state,
                    stream,
                ),
                Err(e) => self.k.kda_prefill.0 == 0 && e == SsmError::KdaPrefillUnavailable,
            },
            !self.kda_mode ==> match r {
                Ok(plan) => !cx.config.ssm_per_channel_gates && plan@ == self.gdn_full_plan(
                    cx,
                    g,
                    state,
                    stream,
                ),
                Err(e) => cx.config.ssm_per_channel_gates && e == SsmError::PerChannelGates,
            },
    {
        if self.kda_mode {
            return self.prefill_kda_full(cx, g, state, stream);
        }
        self.prefill_gdn_full_inner(cx, g, state, stream)
    }

    // ---- several sequences at once ----

    /// The launch for several sequences of the same length, or none when no
    /// such kernel is loaded.
    pub open spec fn gdn_batched_op(
        &self,
        cx: &ForwardContext,
        g: GdnPrefillBuffers,
        h_state_ptrs: DevicePtr,
        batch: u32,
        rows: u32,
    ) -> Option<Op> {
        let d = SsmDims::of(cx);
        let k = g.qkv.at(d.key_dim * 2);
        let v = g.qkv.at(d.key_dim * 2 * 2);
        let beta = g.gate_beta.at(d.nv * 4);
        let gs = (d.nv * 2) as u32;
        let cd = d.conv_dim as u32;
        let (nk, nv, kd, vd) = (d.nk as u32, d.nv as u32, d.kd as u32, d.vd as u32);
        if self.k.gdn_prefill_wy32_batched.0 != 0 && rows > 32 {
            Some(
                Op::GdnPrefillPersistentSmemBatched(
                    self.k.gdn_prefill_wy32_batched, h_state_ptrs, g.qkv, k, v, g.gate_beta, beta,
                    g.output, batch, rows, nk, nv, kd, vd, cd, cd, gs, Self::wy32_smem(d),
                ),
            )
        } else if self.k.gdn_prefill_persistent_wy4_batched.0 != 0 {
            Some(
                Op::GdnPrefillPersistentSmemBatched(
                    self.k.gdn_prefill_persistent_wy4_batched, h_state_ptrs, g.qkv, k, v,
                    g.gate_beta, beta, g.output, batch, rows, nk, nv, kd, vd, cd, cd, gs,
                    Self::wy4_smem(d),
                ),
            )
        } else if 256 <= rows <= 4096 && self.k.gdn_prefill_persistent_batched.0 != 0 {
            Some(
                Op::GdnPrefillPersistentBatched(
                    self.k.gdn_prefill_persistent_batched, h_state_ptrs, g.qkv, k, v, g.gate_beta,
                    beta, g.output, batch, rows, nk, nv, kd, vd, cd, cd, gs,
                ),
            )
        } else if self.k.gdn_prefill_split4_batched.0 != 0 {
            Some(
                Op::GdnPrefillSplit4Batched(
                    self.k.gdn_prefill_split4_batched, h_state_ptrs, g.qkv, k, v, g.gate_beta,
                    beta, g.output, batch, rows, nk, nv, kd, vd, cd, cd, gs,
                ),
            )
        } else {
            None
        }
    }

    /// Whether the offsets, and the shared memory where a launch needs any, are
    /// representable.
    pub open spec fn gdn_batched_fits(&self, cx: &ForwardContext) -> bool {
        let d = SsmDims::of(cx);
        let sized = self.k.gdn_prefill_wy32_batched.0 != 0
            || self.k.gdn_prefill_persistent_wy4_batched.0 != 0;
        &&& SsmDims::fit(cx)
        &&& d.key_dim * 4 <= usize::MAX
        &&& d.nv * 4 <= usize::MAX
        &&& sized ==> d.kd * d.vd <= usize::MAX
        &&& sized ==> d.kd * d.vd * 4 + 64 * d.kd * 2 + 32 * 32 * 4 + 256 <= usize::MAX
    }

    /// Plans the recurrence of several sequences at once.
    pub fn prefill_gdn_full_batched(
        &self,
        cx: &ForwardContext,
        g: GdnPrefillBuffers,
        h_state_ptrs: DevicePtr,
        batch: u32,
        rows: u32,
        stream: u64,
    ) -> (r: Result<Vec<Step>, SsmError>)
        requires
            self.gdn_batched_fits(cx),
        ensures
            match r {
                Ok(plan) => !cx.config.ssm_per_channel_gates && self.gdn_batched_op(
                    cx,
                    g,
                    h_state_ptrs,
                    batch,
                    rows,
                ) is Some && plan@ == on(
                    Seq::empty(),
                    stream,
                    self.gdn_batched_op(cx, g, h_state_ptrs, batch, rows)->0,
                ),
                Err(SsmError::PerChannelGates) => cx.config.ssm_per_channel_gates,
                Err(SsmError::NoBatchedKernel) => !cx.config.ssm_per_channel_gates
                    && self.gdn_batched_op(cx, g, h_state_ptrs, batch, rows) is None,
                Err(_) => false,
            },
    {
        let d: SsmDims = SsmDims::read(cx);
        if cx.config.ssm_per_channel_gates {
            return Err(SsmError::PerChannelGates);
        }
        let k: DevicePtr = g.qkv.offset(d.key_dim * 2);
        let v: DevicePtr = g.qkv.offset(d.key_dim * 2 * 2);
        let beta: DevicePtr = g.gate_beta.offset(d.nv * 4);
        let gs: u32 = (d.nv * 2) as u32;
        let cd: u32 = d.conv_dim as u32;
        let nk: u32 = d.nk as u32;
        let nv: u32 = d.nv as u32;
        let kd: u32 = d.kd as u32;
        let vd: u32 = d.vd as u32;
        let sized: bool = self.k.gdn_prefill_wy32_batched.0 != 0
            || self.k.gdn_prefill_persistent_wy4_batched.0 != 0;
        let smem: (u32, u32) = if sized {
            Self::smem_sizes(d)
        } else {
            (0, 0)
        };
        let mut plan: Vec<Step> = Vec::new();
        if self.k.gdn_prefill_wy32_batched.0 != 0 && rows > 32 {
            enqueue(
                &mut plan,
                stream,
                Op::GdnPrefillPersistentSmemBatched(
                    self.k.gdn_prefill_wy32_batched, h_state_ptrs, g.qkv, k, v, g.gate_beta, beta,
                    g.output, batch, rows, nk, nv, kd, vd, cd, cd, gs, smem.0,
                ),
            );
        } else if self.k.gdn_prefill_persistent_wy4_batched.0 != 0 {
            enqueue(
                &mut plan,
                stream,
                Op::GdnPrefillPersistentSmemBatched(
                    self.k.gdn_prefill_persistent_wy4_batched, h_state_ptrs, g.qkv, k, v,
                    g.gate_beta, beta, g.output, batch, rows, nk, nv, kd, vd, cd, cd, gs, smem.1,
                ),
            );
        } else if 256 <= rows && rows <= 4096 && self.k.gdn_prefill_persistent_batched.0 != 0 {
            enqueue(
                &mut plan,
                stream,
                Op::GdnPrefillPersistentBatched(
                    self.k.gdn_prefill_persistent_batched, h_state_ptrs, g.qkv, k, v, g.gate_beta,
                    beta, g.output, batch, rows, nk, nv, kd, vd, cd, cd, gs,
                ),
            );
        } else if self.k.gdn_prefill_split4_batched.0 != 0 {
            enqueue(
                &mut plan,
                stream,
                Op::GdnPrefillSplit4Batched(
                    self.k.gdn_prefill_split4_batched, h_state_ptrs, g.qkv, k, v, g.gate_beta,
                    beta, g.output, batch, rows, nk, nv, kd, vd, cd, cd, gs,
                ),
            );
        } else {
            return Err(SsmError::NoBatchedKernel);
        }
        Ok(plan)
    }
}

} // verus!
