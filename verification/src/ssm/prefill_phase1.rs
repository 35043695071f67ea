//! First half of a two-phase prefill: projections, gates and convolution of one
//! chunk of rows, packed into the buffers that the recurrence reads.

use crate::context::ForwardContext;
use crate::gpu::DevicePtr;
use crate::num::{lemma_span4_mono, lemma_span_mono, span, span4};
use crate::plan::{enqueue, on, GdnPrefillBuffers, Op, SsmState, Step};
use crate::ssm::{Qwen3SsmLayer, SsmDims};
use vstd::prelude::*;

verus! {

impl Qwen3SsmLayer {
    /// Every extent and byte count of a chunk is representable; there is a key
    /// head.
    pub open spec fn phase1_fits(
        &self,
        cx: &ForwardContext,
        num_tokens: usize,
        token_offset: usize,
    ) -> bool {
        let d = SsmDims::of(cx);
        &&& SsmDims::fit(cx)
        &&& d.nk > 0
        &&& d.conv_dim * 2 <= usize::MAX
        &&& d.nv * 2 <= usize::MAX
        &&& d.nk * 2 <= usize::MAX
        &&& d.value_dim * 2 <= usize::MAX
        &&& num_tokens * d.conv_dim * 2 <= usize::MAX
        &&& num_tokens * d.qkvz * 2 <= usize::MAX
        &&& num_tokens * d.value_dim * 2 <= usize::MAX
        &&& token_offset * d.conv_dim * 2 <= usize::MAX
        &&& token_offset * d.value_dim * 2 <= usize::MAX
        &&& if self.kda_mode {
            &&& d.nv * d.kd <= usize::MAX
            &&& num_tokens * d.nv <= usize::MAX
            &&& num_tokens * d.nv * d.kd * 2 <= usize::MAX
            &&& token_offset * d.nv * 4 <= usize::MAX
            &&& token_offset * d.nv * d.kd * 4 <= usize::MAX
        } else {
            &&& num_tokens * ((d.nv * 2) as usize) * 4 <= usize::MAX
            &&& token_offset * ((d.nv * 2) as usize) * 4 <= usize::MAX
        }
    }

    /// The fused projection of the chunk: FP8, dense when asked for, transposed
    /// 4-bit with tall tiles on more than 128 rows, plain 4-bit, dense.
    pub open spec fn qkvz_rows(
        &self,
        d: SsmDims,
        normed: DevicePtr,
        dst: DevicePtr,
        k: u32,
        dense_qkvz: bool,
    ) -> Op {
        let n = d.qkvz as u32;
        let h = d.h as u32;
        let dense = Op::DenseGemm(
            self.k.dense_gemm, normed, self.ssm.in_proj_qkvz, dst, k, n, h,
        );
        match self.qkvz_fp8 {
            Some(w) => Op::Fp8GemmN128(self.k.fp8_gemm, normed, w, dst, k, n, h),
            None => if dense_qkvz {
                dense
            } else {
                match (self.qkvz_nvfp4_t, self.qkvz_nvfp4) {
                    (Some(w), _) => if k > 128 {
                        Op::W4a16GemmN128M128(
                            self.k.w4a16_gemm_t_m128, normed, w, dst, k, n, h,
                        )
                    } else {
                        Op::W4a16GemmN128(self.k.w4a16_gemm_t, normed, w, dst, k, n, h)
                    },
                    (None, Some(w)) => Op::W4a16Gemm(
                        self.k.w4a16_gemm, normed, w, dst, k, n, h,
                    ),
                    (None, None) => dense,
                }
            },
        }
    }

    fn qkvz_rows_op(
        &self,
        d: SsmDims,
        normed: DevicePtr,
        dst: DevicePtr,
        k: u32,
        dense_qkvz: bool,
    ) -> (r: Op)
        ensures
            r == self.qkvz_rows(d, normed, dst, k, dense_qkvz),
    {
        let n: u32 = d.qkvz as u32;
        let h: u32 = d.h as u32;
        if let Some(w) = self.qkvz_fp8 {
            Op::Fp8GemmN128(self.k.fp8_gemm, normed, w, dst, k, n, h)
        } else if dense_qkvz {
            Op::DenseGemm(self.k.dense_gemm, normed, self.ssm.in_proj_qkvz, dst, k, n, h)
        } else if let Some(w) = self.qkvz_nvfp4_t {
            if k > 128 {
                Op::W4a16GemmN128M128(self.k.w4a16_gemm_t_m128, normed, w, dst, k, n, h)
            } else {
                Op::W4a16GemmN128(self.k.w4a16_gemm_t, normed, w, dst, k, n, h)
            }
        } else if let Some(w) = self.qkvz_nvfp4 {
            Op::W4a16Gemm(self.k.w4a16_gemm, normed, w, dst, k, n, h)
        } else {
            Op::DenseGemm(self.k.dense_gemm, normed, self.ssm.in_proj_qkvz, dst, k, n, h)
        }
    }

    /// Norm and projection, in sequential order.
    pub open spec fn phase1_project(
        &self,
        cx: &ForwardContext,
        d: SsmDims,
        hidden: DevicePtr,
        residual: DevicePtr,
        k: u32,
        dense_qkvz: bool,
        stream: u64,
    ) -> Seq<Step> {
        let b = cx.buffers;
        let dst = if self.sequential_qkvz {
            b.ssm_deinterleaved
        } else {
            b.ssm_qkvz
        };
        let s = on(
            Seq::empty(),
            stream,
            Op::RmsNormResidual(
                self.k.rms_norm_residual, hidden, self.input_norm, b.norm_output, residual, k,
                d.h as u32, cx.rms_norm_eps,
            ),
        );
        let s = on(s, stream, self.qkvz_rows(d, b.norm_output, dst, k, dense_qkvz));
        if self.sequential_qkvz {
            s
        } else {
            on(
                s,
                stream,
                Op::DeinterleaveQkvz(
                    self.k.deinterleave, dst, b.ssm_deinterleaved, k, d.nk as u32, d.kd as u32,
                    Self::vpg(d), d.vd as u32,
                ),
            )
        }
    }

    /// Gates of the chunk. Per-channel decay and its betas go straight to their
    /// places among those of the whole prompt: the decay in the recurrence
    /// buffers, the betas in `ssm_gates`, one row of betas per token. Scalar
    /// gates stay at the start of `ssm_gates`.
    pub open spec fn phase1_gates(
        &self,
        cx: &ForwardContext,
        s: Seq<Step>,
        d: SsmDims,
        g: GdnPrefillBuffers,
        num_tokens: usize,
        token_offset: usize,
        stream: u64,
    ) -> Seq<Step> {
        let b = cx.buffers;
        let k = num_tokens as u32;
        let h = d.h as u32;
        if self.kda_mode {
            let f_raw = b.ssm_conv_out_f32;
            let b_raw = f_raw.at(num_tokens * d.nv * d.kd * 2);
            let s = on(
                s,
                stream,
                Op::DenseGemm(
                    self.k.dense_gemm, b.norm_output, self.kda_f_proj, f_raw, k,
                    (d.nv * d.kd) as u32, h,
                ),
            );
            let s = on(
                s,
                stream,
                Op::DenseGemm(
                    self.k.dense_gemm, b.norm_output, self.kda_b_proj, b_raw, k, d.nv as u32, h,
                ),
            );
            on(
                s,
                stream,
                Op::KdaGates(
                    self.k.kda_gates, f_raw, b_raw, self.ssm.a_log.weight,
                    self.ssm.dt_bias.weight, g.gate_beta.at(token_offset * d.nv * d.kd * 4),
                    b.ssm_gates.at(token_offset * d.nv * 4), k, d.nk as u32, d.nv as u32,
                    d.kd as u32, self.kda_lower_bound,
                ),
            )
        } else {
            on(s, stream, self.gates_rows(cx, d, b.norm_output, k))
        }
    }

    /// Convolution, norm, and the copies into the recurrence buffers.
    pub open spec fn phase1_pack(
        &self,
        cx: &ForwardContext,
        s: Seq<Step>,
        d: SsmDims,
        g: GdnPrefillBuffers,
        state: SsmState,
        num_tokens: usize,
        token_offset: usize,
        stream: u64,
    ) -> Seq<Step> {
        let k = num_tokens as u32;
        let s = on(s, stream, self.conv_rows(cx, d, state, k));
        let s = on(s, stream, self.l2_rows(cx, d, k));
        let s = on(
            s,
            stream,
            Op::CopyD2d(
                cx.buffers.ssm_qkvz, g.qkv.at(token_offset * d.conv_dim * 2),
                (num_tokens * d.conv_dim * 2) as usize,
            ),
        );
        if self.kda_mode {
            s
        } else {
            on(
                s,
                stream,
                Op::CopyD2d(
                    cx.buffers.ssm_gates,
                    g.gate_beta.at(token_offset * ((d.nv * 2) as usize) * 4),
                    (num_tokens * ((d.nv * 2) as usize) * 4) as usize,
                ),
            )
        }
    }

    /// The part of the projection that gates the output, copied row by row: the
    /// first `rows` rows.
    pub open spec fn phase1_z(
        cx: &ForwardContext,
        s: Seq<Step>,
        d: SsmDims,
        g: GdnPrefillBuffers,
        token_offset: usize,
        rows: nat,
        stream: u64,
    ) -> Seq<Step>
        decreases rows,
    {
        if rows == 0 {
            s
        } else {
            let t = rows - 1;
            on(
                Self::phase1_z(cx, s, d, g, token_offset, (rows - 1) as nat, stream),
                stream,
                Op::CopyD2d(
                    cx.buffers.ssm_deinterleaved.at(d.conv_dim * 2).at(t * d.qkvz * 2),
                    g.z.at(token_offset * d.value_dim * 2).at(t * d.value_dim * 2),
                    (d.value_dim * 2) as usize,
                ),
            )
        }
    }

    /// The plan of `prefill_phase1`.
    pub open spec fn phase1_plan(
        &self,
        cx: &ForwardContext,
        hidden: DevicePtr,
        residual: DevicePtr,
        num_tokens: usize,
        state: SsmState,
        g: GdnPrefillBuffers,
        token_offset: usize,
        dense_qkvz: bool,
        stream: u64,
    ) -> Seq<Step> {
        let d = SsmDims::of(cx);
        let s = self.phase1_project(
            cx, d, hidden, residual, num_tokens as u32, dense_qkvz, stream,
        );
        let s = self.phase1_gates(cx, s, d, g, num_tokens, token_offset, stream);
        let s = self.phase1_pack(cx, s, d, g, state, num_tokens, token_offset, stream);
        Self::phase1_z(cx, s, d, g, token_offset, num_tokens as nat, stream)
    }

    /// Whether step `j` of `b` copies to where the copy of step `i` of `a` ends.
    pub open spec fn copy_goes_on(a: Seq<Step>, i: int, b: Seq<Step>, j: int) -> bool {
        &&& 0 <= i < a.len()
        &&& 0 <= j < b.len()
        &&& match (a[i], b[j]) {
            (
                Step::On(_, Op::CopyD2d(_, to, count)),
                Step::On(_, Op::CopyD2d(_, next, _)),
            ) => next.0 == to.0 + count,
            _ => false,
        }
    }

    /// Whether step `j` of `b` writes log decay and betas to where those of the
    /// `rows` rows of step `i` of `a` end.
    pub open spec fn gates_go_on(
        a: Seq<Step>,
        i: int,
        b: Seq<Step>,
        j: int,
        d: SsmDims,
        rows: int,
    ) -> bool {
        &&& 0 <= i < a.len()
        &&& 0 <= j < b.len()
        &&& match (a[i], b[j]) {
            (
                Step::On(_, Op::KdaGates(_, _, _, _, _, decay, beta, k, _, _, _, _)),
                Step::On(_, Op::KdaGates(_, _, _, _, _, next_decay, next_beta, _, _, _, _, _)),
            ) => {
                &&& k == rows as u32
                &&& next_decay.0 == decay.0 + rows * d.nv * d.kd * 4
                &&& next_beta.0 == beta.0 + rows * d.nv * 4
            },
            _ => false,
        }
    }

    /// The buffers that a prompt of `rows` rows fills end within the address
    /// space.
    pub open spec fn prompt_in_space(
        &self,
        cx: &ForwardContext,
        d: SsmDims,
        g: GdnPrefillBuffers,
        rows: int,
    ) -> bool {
        &&& g.qkv.0 + rows * d.conv_dim * 2 <= u64::MAX
        &&& if self.kda_mode {
            &&& g.gate_beta.0 + rows * d.nv * d.kd * 4 <= u64::MAX
            &&& cx.buffers.ssm_gates.0 + rows * d.nv * 4 <= u64::MAX
        } else {
            g.gate_beta.0 + rows * (d.nv * 2) * 4 <= u64::MAX
        }
    }

    /// Chunk after chunk fills the recurrence buffers without gap or overlap:
    /// the rows of a chunk are copied to where those of the chunk before end.
    /// With per-channel decay, log decay and betas are written to where those of
    /// the chunk before end.
    pub proof fn lemma_chunks_adjoin(
        &self,
        cx: &ForwardContext,
        s: Seq<Step>,
        next: Seq<Step>,
        d: SsmDims,
        g: GdnPrefillBuffers,
        state: SsmState,
        rows: usize,
        next_rows: usize,
        token_offset: usize,
        stream: u64,
    )
        requires
            token_offset + rows <= usize::MAX,
            d.nv * 2 <= usize::MAX,
            rows * d.conv_dim * 2 <= usize::MAX,
            !self.kda_mode ==> rows * (d.nv * 2) * 4 <= usize::MAX,
            self.prompt_in_space(cx, d, g, token_offset + rows),
        ensures
            ({
                let o2 = (token_offset + rows) as usize;
                let a = self.phase1_pack(cx, s, d, g, state, rows, token_offset, stream);
                let b = self.phase1_pack(cx, next, d, g, state, next_rows, o2, stream);
                let ga = self.phase1_gates(cx, s, d, g, rows, token_offset, stream);
                let gb = self.phase1_gates(cx, next, d, g, next_rows, o2, stream);
                let i = s.len() as int;
                let j = next.len() as int;
                &&& Self::copy_goes_on(a, i + 2, b, j + 2)
                &&& !self.kda_mode ==> Self::copy_goes_on(a, i + 3, b, j + 3)
                &&& self.kda_mode ==> Self::gates_go_on(ga, i + 2, gb, j + 2, d, rows as int)
            }),
    {
        let (o, n, c, v) = (token_offset as int, rows as int, d.conv_dim as int, d.nv * 2);
        let (h, kd) = (d.nv as int, d.kd as int);
        assert((o + n) * c * 2 == o * c * 2 + n * c * 2) by (nonlinear_arith);
        assert((o + n) * v * 4 == o * v * 4 + n * v * 4) by (nonlinear_arith);
        assert((o + n) * h * 4 == o * h * 4 + n * h * 4) by (nonlinear_arith);
        assert((o + n) * h * kd * 4 == o * h * kd * 4 + n * h * kd * 4) by (nonlinear_arith);
        lemma_span_mono(0, o, c, 2);
        lemma_span_mono(0, n, c, 2);
        lemma_span_mono(0, o, v, 4);
        lemma_span_mono(0, n, v, 4);
        lemma_span_mono(0, o, h, 4);
        lemma_span_mono(0, n, h, 4);
        lemma_span4_mono(0, o, h, kd, 4);
        lemma_span4_mono(0, n, h, kd, 4);
    }

    /// The recurrence with per-channel decay reads a chunk's rows where the
    /// first half put them: queries, log decay and betas of the row at
    /// `token_offset`.
    pub proof fn lemma_recurrence_reads_chunk(
        &self,
        cx: &ForwardContext,
        s: Seq<Step>,
        g: GdnPrefillBuffers,
        state: SsmState,
        rows: usize,
        token_offset: usize,
        launched: u32,
        stream: u64,
    )
        requires
            self.kda_mode,
        ensures
            ({
                let d = SsmDims::of(cx);
                let gates = self.phase1_gates(cx, s, d, g, rows, token_offset, stream);
                let copies = self.phase1_pack(cx, s, d, g, state, rows, token_offset, stream);
                let read = self.kda_launch(cx, g, state, token_offset as int, launched);
                match (gates.last(), copies.last(), read) {
                    (
                        Step::On(_, Op::KdaGates(_, _, _, _, _, decay, beta, _, _, _, _, _)),
                        Step::On(_, Op::CopyD2d(_, qkv, _)),
                        Op::KdaPrefill(_, h, q, _, _, g2, b2, _, _, _, _, _, _, _, _, _, _, _),
                    ) => q == qkv && g2 == decay && b2 == beta && h == state.h_state,
                    _ => false,
                }
            }),
    {
    }

    /// Where a row's output gate is copied to depends on its position in the
    /// prompt alone, not on how the prompt is cut.
    pub proof fn lemma_row_place(
        cx: &ForwardContext,
        s: Seq<Step>,
        d: SsmDims,
        g: GdnPrefillBuffers,
        token_offset: usize,
        rows: nat,
        t: int,
        stream: u64,
    )
        requires
            0 <= t < rows,
            g.z.0 + (token_offset + rows) * d.value_dim * 2 <= u64::MAX,
        ensures
            Self::phase1_z(cx, s, d, g, token_offset, rows, stream).len() == s.len() + rows,
            Self::phase1_z(cx, s, d, g, token_offset, rows, stream)[s.len() + t] matches Step::On(
                _,
                Op::CopyD2d(_, to, count),
            ) && to.0 == g.z.0 + (token_offset + t) * d.value_dim * 2 && count == (d.value_dim
                * 2) as usize,
        decreases rows,
    {
        let (o, v, n) = (token_offset as int, d.value_dim as int, rows as int);
        Self::lemma_z_len(cx, s, d, g, token_offset, rows, stream);
        assert((o + t) * v == o * v + t * v && (o + n) * v == (o + n - 1) * v + v)
            by (nonlinear_arith);
        assert(o * v >= 0 && t * v >= 0 && (o + t) * v <= (o + n) * v) by (nonlinear_arith)
            requires
                o >= 0,
                v >= 0,
                0 <= t < n,
        ;
        if t + 1 < rows {
            Self::lemma_row_place(cx, s, d, g, token_offset, (rows - 1) as nat, t, stream);
        } else {
            Self::lemma_z_len(cx, s, d, g, token_offset, (rows - 1) as nat, stream);
        }
    }

    proof fn lemma_z_len(
        cx: &ForwardContext,
        s: Seq<Step>,
        d: SsmDims,
        g: GdnPrefillBuffers,
        token_offset: usize,
        rows: nat,
        stream: u64,
    )
        ensures
            Self::phase1_z(cx, s, d, g, token_offset, rows, stream).len() == s.len() + rows,
        decreases rows,
    {
        if rows > 0 {
            Self::lemma_z_len(cx, s, d, g, token_offset, (rows - 1) as nat, stream);
        }
    }

    fn plan_phase1_gates(
        &self,
        cx: &ForwardContext,
        plan: &mut Vec<Step>,
        d: SsmDims,
        g: GdnPrefillBuffers,
        num_tokens: usize,
        token_offset: usize,
        stream: u64,
    )
        requires
            self.phase1_fits(cx, num_tokens, token_offset),
            d == SsmDims::of(cx),
        ensures
            final(plan)@ == self.phase1_gates(
                cx,
                old(plan)@,
                d,
                g,
                num_tokens,
                token_offset,
                stream,
            ),
    {
        let b = cx.buffers;
        let k: u32 = num_tokens as u32;
        let h: u32 = d.h as u32;
        if self.kda_mode {
            let f_raw: DevicePtr = b.ssm_conv_out_f32;
            let b_raw: DevicePtr = f_raw.offset(span4(num_tokens, d.nv, d.kd, 2));
            enqueue(
                plan,
                stream,
                Op::DenseGemm(
                    self.k.dense_gemm, b.norm_output, self.kda_f_proj, f_raw, k,
                    (d.nv * d.kd) as u32, h,
                ),
            );
            enqueue(
                plan,
                stream,
                Op::DenseGemm(
                    self.k.dense_gemm, b.norm_output, self.kda_b_proj, b_raw, k, d.nv as u32, h,
                ),
            );
            enqueue(
                plan,
                stream,
                Op::KdaGates(
                    self.k.kda_gates, f_raw, b_raw, self.ssm.a_log.weight,
                    self.ssm.dt_bias.weight,
                    g.gate_beta.offset(span4(token_offset, d.nv, d.kd, 4)),
                    b.ssm_gates.offset(span(token_offset, d.nv, 4)), k, d.nk as u32,
                    d.nv as u32, d.kd as u32, self.kda_lower_bound,
                ),
            );
        } else {
            enqueue(plan, stream, self.gates_rows_op(cx, d, b.norm_output, k));
        }
    }

    fn plan_phase1_z(
        cx: &ForwardContext,
        plan: &mut Vec<Step>,
        d: SsmDims,
        g: GdnPrefillBuffers,
        num_tokens: usize,
        token_offset: usize,
        stream: u64,
    )
        requires
            d.conv_dim * 2 <= usize::MAX,
            d.value_dim * 2 <= usize::MAX,
            num_tokens * d.qkvz * 2 <= usize::MAX,
            num_tokens * d.value_dim * 2 <= usize::MAX,
            token_offset * d.value_dim * 2 <= usize::MAX,
        ensures
            final(plan)@ == Self::phase1_z(
                cx,
                old(plan)@,
                d,
                g,
                token_offset,
                num_tokens as nat,
                stream,
            ),
    {
        let src: DevicePtr = cx.buffers.ssm_deinterleaved.offset(d.conv_dim * 2);
        let dst: DevicePtr = g.z.offset(span(token_offset, d.value_dim, 2));
        let mut t: usize = 0;
        while t < num_tokens
            invariant
                t <= num_tokens,
                d.value_dim * 2 <= usize::MAX,
                num_tokens * d.qkvz * 2 <= usize::MAX,
                num_tokens * d.value_dim * 2 <= usize::MAX,
                src == cx.buffers.ssm_deinterleaved.at(d.conv_dim * 2),
                dst == g.z.at(token_offset * d.value_dim * 2),
                plan@ == Self::phase1_z(cx, old(plan)@, d, g, token_offset, t as nat, stream),
            decreases num_tokens - t,
        {
            proof {
                lemma_span_mono(t as int, num_tokens as int, d.qkvz as int, 2);
                lemma_span_mono(t as int, num_tokens as int, d.value_dim as int, 2);
            }
            enqueue(
                plan,
                stream,
                Op::CopyD2d(
                    src.offset(span(t, d.qkvz, 2)), dst.offset(span(t, d.value_dim, 2)),
                    d.value_dim * 2,
                ),
            );
            t = t + 1;
        }
    }

    /// Plans the first half of a prefill for one chunk of rows, the chunk that
    /// begins at row `token_offset` of the recurrence buffers.
    pub fn prefill_phase1(
        &self,
        cx: &ForwardContext,
        hidden: DevicePtr,
        residual: DevicePtr,
        num_tokens: usize,
        state: SsmState,
        g: GdnPrefillBuffers,
        token_offset: usize,
        dense_qkvz: bool,
        stream: u64,
    ) -> (r: Vec<Step>)
        requires
            self.phase1_fits(cx, num_tokens, token_offset),
        ensures
            r@ == self.phase1_plan(
                cx,
                hidden,
                residual,
                num_tokens,
                state,
                g,
                token_offset,
                dense_qkvz,
                stream,
            ),
    {
        let b = cx.buffers;
        let d: SsmDims = SsmDims::read(cx);
        let k: u32 = num_tokens as u32;
        let mut plan: Vec<Step> = Vec::new();
        enqueue(
            &mut plan,
            stream,
            Op::RmsNormResidual(
                self.k.rms_norm_residual, hidden, self.input_norm, b.norm_output, residual, k,
                d.h as u32, cx.rms_norm_eps,
            ),
        );
        let dst: DevicePtr = if self.sequential_qkvz {
            b.ssm_deinterleaved
        } else {
            b.ssm_qkvz
        };
        enqueue(&mut plan, stream, self.qkvz_rows_op(d, b.norm_output, dst, k, dense_qkvz));
        if !self.sequential_qkvz {
            enqueue(
                &mut plan,
                stream,
                Op::DeinterleaveQkvz(
                    self.k.deinterleave, dst, b.ssm_deinterleaved, k, d.nk as u32, d.kd as u32,
                    (d.nv / d.nk) as u32, d.vd as u32,
                ),
            );
        }
        self.plan_phase1_gates(cx, &mut plan, d, g, num_tokens, token_offset, stream);
        enqueue(&mut plan, stream, self.conv_rows_op(cx, d, state, k));
        enqueue(&mut plan, stream, self.l2_rows_op(cx, d, k));
        enqueue(
            &mut plan,
            stream,
            Op::CopyD2d(
                b.ssm_qkvz, g.qkv.offset(span(token_offset, d.conv_dim, 2)),
                span(num_tokens, d.conv_dim, 2),
            ),
        );
        if !self.kda_mode {
            let gate_stride: usize = d.nv * 2;
            enqueue(
                &mut plan,
                stream,
                Op::CopyD2d(
                    b.ssm_gates, g.gate_beta.offset(span(token_offset, gate_stride, 4)),
                    span(num_tokens, gate_stride, 4),
                ),
            );
        }
        Self::plan_phase1_z(cx, &mut plan, d, g, num_tokens, token_offset, stream);
        plan
    }
}

} // verus!
