//! Which kernels the plans of a linear-attention layer launch.

use crate::context::ForwardContext;
use crate::gpu::{DevicePtr, KernelHandle};
use crate::plan::{lemma_one_more, steps_with, GdnPrefillBuffers, Op, SsmState, Step};
use crate::ssm::prefill_gdn::{pieces, GDN_MAX_ROWS, KDA_MAX_ROWS};
use crate::ssm::{Qwen3SsmLayer, SsmDims};
use vstd::prelude::*;

verus! {

impl Qwen3SsmLayer {
    /// The single-precision kernel where it is loaded, the other one otherwise.
    pub open spec fn either(wide: KernelHandle, plain: KernelHandle) -> KernelHandle {
        if wide.0 != 0 {
            wide
        } else {
            plain
        }
    }

    /// Whether an operation is launched with the kernel that was loaded for it.
    /// Recurrence and output norm of a row work in single precision together or
    /// not at all; the norm of a row with a decay per channel always does.
    pub open spec fn right_kernel(&self, op: Op) -> bool {
        let single = self.k.gdn_f32.0 != 0 && self.k.gated_rms_norm_f32.0 != 0;
        match op {
            Op::RmsNormResidual(k, ..) => k == self.k.rms_norm_residual,
            Op::ResidualAddRmsNorm(k, ..) => k == self.k.residual_add_rms_norm,
            Op::ResidualAdd(k, ..) => k == self.k.residual_add,
            Op::DenseGemv(k, ..) => k == self.k.dense_gemv,
            Op::W4a16Gemv(k, ..) => k == self.k.w4a16_gemv,
            Op::W8a16Gemv(k, ..) => k == self.k.w8a16_gemv,
            Op::DenseGemm(k, ..) => k == self.k.dense_gemm,
            Op::W4a16Gemm(k, ..) => k == self.k.w4a16_gemm,
            Op::W4a16GemmN128(k, ..) => k == self.k.w4a16_gemm_t,
            Op::W4a16GemmN128M128(k, ..) => k == self.k.w4a16_gemm_t_m128,
            Op::Fp8GemmN128(k, ..) => k == self.k.fp8_gemm,
            Op::Fp8GemmN128M128(k, ..) => k == self.k.fp8_gemm_t_m128,
            Op::W4a16GemvQkvz(k, ..) => k == self.k.w4a16_gemv_qkvz,
            Op::DeinterleaveQkvz(k, ..) => k == self.k.deinterleave,
            Op::DenseGemvBaGates(k, ..) => k == self.k.ba_gates,
            Op::DenseGemmBaGatesPrefill(k, ..) => k == self.k.ba_gates_prefill,
            Op::Conv1dUpdatePrefill(k, ..) => k == self.k.conv1d_prefill,
            Op::L2Norm(k, ..) => k == self.k.l2_norm,
            Op::GatedRmsNormPrefill(k, ..) => k == self.k.gated_rms_norm_prefill,
            Op::KdaGates(k, ..) => k == self.k.kda_gates,
            Op::KdaPrefill(k, ..) => k == self.k.kda_prefill,
            Op::GdnPrefillPersistent(k, ..) => k == self.k.gdn_prefill_persistent,
            Op::GdnPrefillSplit4(k, ..) => k == self.k.gdn_prefill_split4,
            Op::Conv1dUpdateL2norm(k, ..) => k == Self::either(
                self.k.conv1d_l2norm_f32,
                self.k.conv1d_l2norm,
            ),
            Op::GdnDecode(k, ..) => k == if single {
                self.k.gdn_f32
            } else {
                self.k.gdn
            },
            Op::GatedRmsNorm(k, ..) => k == if single || self.kda_mode {
                self.k.gated_rms_norm_f32
            } else {
                self.k.gated_rms_norm
            },
            Op::KdaDecode(k, ..) => k == if self.k.conv1d_l2norm_f32.0 != 0 {
                self.k.kda_decode_f32i
            } else {
                self.k.kda_decode
            },
            Op::GdnPrefillPersistentSmem(k, _, _, _, _, _, _, _, _, rows, ..) => k
                == if self.k.gdn_prefill_wy32.0 != 0 && rows > 32 {
                self.k.gdn_prefill_wy32
            } else {
                self.k.gdn_prefill_persistent_wy4
            },
            Op::Synchronize => true,
            Op::CopyD2d(..) => true,
            Op::PrefillQkvzProj(..) => true,
            Op::PrefillGdnRecurrence(..) => true,
            Op::PrefillOutProj(..) => true,
            Op::FfnForward(..) => true,
            Op::FfnForwardPrefill(..) => true,
            _ => false,
        }
    }

    /// The step launches another kernel than the one for it.
    pub open spec fn wrong_kernel(&self) -> spec_fn(Step) -> bool {
        |x: Step|
            match x {
                Step::On(_, op) => !self.right_kernel(op),
                _ => false,
            }
    }

    proof fn lemma_row_kernels(
        &self,
        cx: &ForwardContext,
        s: Seq<Step>,
        normed: DevicePtr,
        state: SsmState,
        stream: u64,
        trace: bool,
    )
        ensures
            steps_with(self.row_plan(cx, s, normed, state, stream, trace), self.wrong_kernel())
                == steps_with(s, self.wrong_kernel()),
    {
        broadcast use lemma_one_more;

    }

    /// Every step of a decoded layer launches the kernel loaded for it.
    pub proof fn lemma_layer_kernels(
        &self,
        cx: &ForwardContext,
        hidden: DevicePtr,
        residual: DevicePtr,
        state: SsmState,
        ffn_out: DevicePtr,
        stream: u64,
        trace: bool,
    )
        ensures
            steps_with(
                self.decode_plan(cx, hidden, residual, state, ffn_out, stream, trace),
                self.wrong_kernel(),
            ) == 0,
    {
        broadcast use lemma_one_more;

        assert forall|s: Seq<Step>|
            steps_with(
                #[trigger] self.row_plan(cx, s, cx.buffers.norm_output, state, stream, trace),
                self.wrong_kernel(),
            ) == steps_with(s, self.wrong_kernel()) by {
            self.lemma_row_kernels(cx, s, cx.buffers.norm_output, state, stream, trace);
        }
    }

    /// So does every step of a prefilled layer.
    pub proof fn lemma_prefill_kernels(
        &self,
        cx: &ForwardContext,
        hidden: DevicePtr,
        residual: DevicePtr,
        num_tokens: usize,
        state: SsmState,
        stream: u64,
    )
        ensures
            steps_with(
                self.prefill_plan(cx, hidden, residual, num_tokens, state, stream),
                self.wrong_kernel(),
            ) == 0,
    {
        broadcast use lemma_one_more;

    }

    proof fn lemma_gates_copied(
        &self,
        cx: &ForwardContext,
        s: Seq<Step>,
        d: SsmDims,
        g: GdnPrefillBuffers,
        token_offset: usize,
        rows: nat,
        stream: u64,
    )
        ensures
            steps_with(
                Self::phase1_z(cx, s, d, g, token_offset, rows, stream),
                self.wrong_kernel(),
            ) == steps_with(s, self.wrong_kernel()),
        decreases rows,
    {
        broadcast use lemma_one_more;

        if rows > 0 {
            self.lemma_gates_copied(cx, s, d, g, token_offset, (rows - 1) as nat, stream);
        }
    }

    /// So do the two halves of a chunk.
    pub proof fn lemma_chunk_kernels(
        &self,
        cx: &ForwardContext,
        hidden: DevicePtr,
        residual: DevicePtr,
        num_tokens: usize,
        state: SsmState,
        g: GdnPrefillBuffers,
        token_offset: usize,
        dense: bool,
        stream: u64,
    )
        ensures
            steps_with(
                self.phase1_plan(
                    cx, hidden, residual, num_tokens, state, g, token_offset, dense, stream,
                ),
                self.wrong_kernel(),
            ) == 0,
            steps_with(
                self.phase3_plan(
                    cx, hidden, residual, num_tokens, g, token_offset, dense, stream,
                ),
                self.wrong_kernel(),
            ) == 0,
    {
        broadcast use lemma_one_more;

        let d = SsmDims::of(cx);
        let n = num_tokens as u32;
        let s = self.phase1_project(cx, d, hidden, residual, n, dense, stream);
        let s = self.phase1_gates(cx, s, d, g, num_tokens, token_offset, stream);
        let s = self.phase1_pack(cx, s, d, g, state, num_tokens, token_offset, stream);
        self.lemma_gates_copied(cx, s, d, g, token_offset, num_tokens as nat, stream);
    }

    proof fn lemma_pieces_kernels(
        &self,
        cx: &ForwardContext,
        g: GdnPrefillBuffers,
        state: SsmState,
        m: nat,
        stream: u64,
    )
        ensures
            steps_with(
                self.gdn_pieces(g, SsmDims::of(cx), state.h_state, m, stream),
                self.wrong_kernel(),
            ) == 0,
            steps_with(self.kda_launches(cx, g, state, m, stream), self.wrong_kernel()) == 0,
        decreases m,
    {
        broadcast use lemma_one_more;

        if m > 0 {
            self.lemma_pieces_kernels(cx, g, state, (m - 1) as nat, stream);
        }
    }

    /// So does the recurrence over a prompt, in either form.
    pub proof fn lemma_recurrence_kernels(
        &self,
        cx: &ForwardContext,
        g: GdnPrefillBuffers,
        state: SsmState,
        stream: u64,
    )
        ensures
            steps_with(self.gdn_full_plan(cx, g, state, stream), self.wrong_kernel()) == 0,
            steps_with(self.kda_full_plan(cx, g, state, stream), self.wrong_kernel()) == 0,
    {
        broadcast use lemma_one_more;

        let total = (g.total_len as u32) as int;
        self.lemma_pieces_kernels(cx, g, state, pieces(total, GDN_MAX_ROWS as int), stream);
        self.lemma_pieces_kernels(
            cx,
            g,
            state,
            pieces(g.total_len as int, KDA_MAX_ROWS as int),
            stream,
        );
    }
}

} // verus!
