//! Where the plans of a linear-attention layer are enqueued.

use crate::context::ForwardContext;
use crate::gpu::DevicePtr;
use crate::meaning::streams::stray;
use crate::plan::{lemma_one_more, steps_with, GdnPrefillBuffers, SsmState, Step};
use crate::ssm::prefill_gdn::{pieces, GDN_MAX_ROWS, KDA_MAX_ROWS};
use crate::ssm::{Qwen3SsmLayer, SsmDims};
use vstd::prelude::*;

verus! {

impl Qwen3SsmLayer {
    proof fn lemma_row_enqueued(
        &self,
        cx: &ForwardContext,
        s: Seq<Step>,
        normed: DevicePtr,
        state: SsmState,
        stream: u64,
        trace: bool,
    )
        ensures
            steps_with(
                self.row_plan(cx, s, normed, state, stream, trace),
                stray(stream, cx.profile || trace),
            )
                == steps_with(s, stray(stream, cx.profile || trace)),
    {
        broadcast use lemma_one_more;

    }

    /// A decoded layer is enqueued on the stream that is given, and waits only where it
    /// is timed or traced.
    pub proof fn lemma_layer_enqueued(
        &self,
        cx: &ForwardContext,
        hidden: DevicePtr,
        residual: DevicePtr,
        state: SsmState,
        ffn_out: DevicePtr,
        stream: u64,
        trace: bool,
    )
        ensures
            steps_with(
                self.decode_plan(cx, hidden, residual, state, ffn_out, stream, trace),
                stray(stream, cx.profile || trace),
            ) == 0,
    {
        broadcast use lemma_one_more;

        assert forall|s: Seq<Step>|
            steps_with(
                #[trigger] self.row_plan(cx, s, cx.buffers.norm_output, state, stream, trace),
                stray(stream, cx.profile || trace),
            ) == steps_with(s, stray(stream, cx.profile || trace)) by {
            self.lemma_row_enqueued(cx, s, cx.buffers.norm_output, state, stream, trace);
        }
    }

    /// So is a prefilled layer.
    pub proof fn lemma_prefill_enqueued(
        &self,
        cx: &ForwardContext,
        hidden: DevicePtr,
        residual: DevicePtr,
        num_tokens: usize,
        state: SsmState,
        stream: u64,
    )
        ensures
            steps_with(
                self.prefill_plan(cx, hidden, residual, num_tokens, state, stream),
                stray(stream, cx.profile),
            ) == 0,
    {
        broadcast use lemma_one_more;

    }

    proof fn lemma_gates_enqueued(
        &self,
        cx: &ForwardContext,
        s: Seq<Step>,
        d: SsmDims,
        g: GdnPrefillBuffers,
        token_offset: usize,
        rows: nat,
        stream: u64,
    )
        ensures
            steps_with(
                Self::phase1_z(cx, s, d, g, token_offset, rows, stream),
                stray(stream, false),
            ) == steps_with(s, stray(stream, false)),
        decreases rows,
    {
        broadcast use lemma_one_more;

        if rows > 0 {
            self.lemma_gates_enqueued(cx, s, d, g, token_offset, (rows - 1) as nat, stream);
        }
    }

    /// So are the two halves of a chunk, which never wait.
    pub proof fn lemma_chunk_enqueued(
        &self,
        cx: &ForwardContext,
        hidden: DevicePtr,
        residual: DevicePtr,
        num_tokens: usize,
        state: SsmState,
        g: GdnPrefillBuffers,
        token_offset: usize,
        dense: bool,
        stream: u64,
    )
        ensures
            steps_with(
                self.phase1_plan(
                    cx, hidden, residual, num_tokens, state, g, token_offset, dense, stream,
                ),
                stray(stream, false),
            ) == 0,
            steps_with(
                self.phase3_plan(
                    cx, hidden, residual, num_tokens, g, token_offset, dense, stream,
                ),
                stray(stream, false),
            ) == 0,
    {
        broadcast use lemma_one_more;

        let d = SsmDims::of(cx);
        let n = num_tokens as u32;
        let s = self.phase1_project(cx, d, hidden, residual, n, dense, stream);
        let s = self.phase1_gates(cx, s, d, g, num_tokens, token_offset, stream);
        let s = self.phase1_pack(cx, s, d, g, state, num_tokens, token_offset, stream);
        self.lemma_gates_enqueued(cx, s, d, g, token_offset, num_tokens as nat, stream);
    }

    proof fn lemma_pieces_enqueued(
        &self,
        cx: &ForwardContext,
        g: GdnPrefillBuffers,
        state: SsmState,
        m: nat,
        stream: u64,
    )
        ensures
            steps_with(
                self.gdn_pieces(g, SsmDims::of(cx), state.h_state, m, stream),
                stray(stream, false),
            ) == 0,
            steps_with(self.kda_launches(cx, g, state, m, stream), stray(stream, false)) == 0,
        decreases m,
    {
        broadcast use lemma_one_more;

        if m > 0 {
            self.lemma_pieces_enqueued(cx, g, state, (m - 1) as nat, stream);
        }
    }

    /// So is the recurrence over a prompt, in either form.
    pub proof fn lemma_recurrence_enqueued(
        &self,
        cx: &ForwardContext,
        g: GdnPrefillBuffers,
        state: SsmState,
        stream: u64,
    )
        ensures
            steps_with(self.gdn_full_plan(cx, g, state, stream), stray(stream, false)) == 0,
            steps_with(self.kda_full_plan(cx, g, state, stream), stray(stream, false)) == 0,
    {
        broadcast use lemma_one_more;

        let total = (g.total_len as u32) as int;
        self.lemma_pieces_enqueued(cx, g, state, pieces(total, GDN_MAX_ROWS as int), stream);
        self.lemma_pieces_enqueued(
            cx,
            g,
            state,
            pieces(g.total_len as int, KDA_MAX_ROWS as int),
            stream,
        );
    }
}

} // verus!
