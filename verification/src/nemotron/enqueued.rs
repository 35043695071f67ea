//! Where the plans of a mixture-of-experts layer with squared activations are
//! enqueued.

use crate::context::ForwardContext;
use crate::gpu::DevicePtr;
use crate::meaning::streams::stray;
use crate::nemotron::{NemotronMoeLayer, SortedPrefillCtx};
use crate::plan::{lemma_one_more, on, steps_with, Step};
use vstd::prelude::*;

verus! {

impl NemotronMoeLayer {
    /// One row is enqueued on the stream that is given, and never waits.
    pub proof fn lemma_decode_enqueued(
        self,
        cx: &ForwardContext,
        hidden: DevicePtr,
        residual: DevicePtr,
        stream: u64,
    )
        ensures
            steps_with(
                self.decode_plan(cx, hidden, residual, stream),
                stray(stream, false),
            ) == 0,
    {
        broadcast use lemma_one_more;

        let t = self.decode_route(cx, hidden, residual, stream);
        assert(t =~= Seq::<Step>::empty().push(t[0]).push(t[1]).push(t[2]));
    }

    /// So is a batch.
    pub proof fn lemma_batch_enqueued(self, cx: &ForwardContext, p: SortedPrefillCtx, stream: u64)
        ensures
            steps_with(
                self.sorted_finish(cx, self.sorted_routed(cx, p, stream), p, stream),
                stray(stream, false),
            ) == 0,
    {
        broadcast use lemma_one_more;

    }

    proof fn lemma_rows_enqueued(
        self,
        cx: &ForwardContext,
        s: Seq<Step>,
        p: SortedPrefillCtx,
        rows: nat,
        stream: u64,
    )
        ensures
            steps_with(self.fallback_rows(cx, s, p, rows, stream), stray(stream, false))
                == steps_with(s, stray(stream, false)),
        decreases rows,
    {
        broadcast use lemma_one_more;

        if rows > 0 {
            self.lemma_rows_enqueued(cx, s, p, (rows - 1) as nat, stream);
        }
    }

    /// So is a batch that goes row by row.
    pub proof fn lemma_row_by_row_enqueued(
        self,
        cx: &ForwardContext,
        p: SortedPrefillCtx,
        stream: u64,
    )
        ensures
            steps_with(self.fallback_plan(cx, p, stream), stray(stream, false)) == 0,
    {
        broadcast use lemma_one_more;

        let s = if self.routes_rows_at_once(p) {
            on(Seq::empty(), stream, self.topk_sigmoid_rows(cx, p))
        } else {
            Seq::empty()
        };
        self.lemma_rows_enqueued(cx, s, p, p.num_tokens as nat, stream);
    }
}

} // verus!
