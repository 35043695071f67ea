//! Where the programs of a model are enqueued, and when they wait.

use crate::meaning::streams::stray;
use crate::model::decode::DecodeMode;
use crate::model::prefill::{ProcRange, Reuse};
use crate::model::sequence::SequenceState;
use crate::model::TransformerModel;
use crate::plan::{lemma_one_more, steps_with, Op, ProgramView, Step};
use crate::ssm::prefill_gdn::pieces;
use vstd::prelude::*;

verus! {

/// How many steps of a program wait, or are on another stream than `stream`.
pub open spec fn strays(p: ProgramView, stream: u64) -> nat {
    steps_with(p.steps, stray(stream, false))
}

impl TransformerModel {
    proof fn lemma_decoded_enqueued(&self, p: ProgramView, seq: &SequenceState, n: nat)
        ensures
            strays(self.decode_layers(p, seq, n), self.default_stream) == strays(
                p,
                self.default_stream,
            ),
            strays(self.draft_layers(p, seq, n), self.default_stream) == strays(
                p,
                self.default_stream,
            ),
            strays(self.profiled_layers(p, seq, n), self.default_stream) == strays(
                p,
                self.default_stream,
            ) + n,
            steps_with(self.profiled_layers(p, seq, n).steps, stray(self.default_stream, true))
                == steps_with(p.steps, stray(self.default_stream, true)),
        decreases n,
    {
        broadcast use lemma_one_more;

        if n > 0 {
            self.lemma_decoded_enqueued(p, seq, (n - 1) as nat);
        }
    }

    /// A decode step is enqueued on the model's stream. Nothing waits while a
    /// graph is captured or replayed; an eager step waits once, and only where
    /// attention is latent; a timed one waits before the layers, behind each of
    /// them and at its end.
    pub proof fn lemma_decode_enqueued(&self, seq: &SequenceState, no_graphs: bool)
        ensures
            ({
                let p = self.decode_program(seq, no_graphs);
                let st = self.default_stream;
                &&& strays(p, st) == match self.decode_mode(seq, no_graphs) {
                    DecodeMode::Profiled(_) => self.layers@.len() + 2,
                    DecodeMode::Eager => if self.config.kv_lora_rank > 0 {
                        1
                    } else {
                        0
                    },
                    _ => 0,
                }
                &&& steps_with(p.steps, stray(st, true)) == 0
                &&& self.decode_mode(seq, no_graphs) is Capture ==> p.steps.last() == Step::On(
                    st,
                    Op::EndCapture,
                )
                &&& strays(self.draft_program(seq), st) == 0
            }),
    {
        broadcast use lemma_one_more;

        let st = self.default_stream;
        let p = self.decode_meta_program(ProgramView::empty(), seq, st);
        let n = self.layers@.len();
        self.lemma_decoded_enqueued(p, seq, n);
        self.lemma_decoded_enqueued(p.run(st, Op::BeginCapture), seq, n);
        self.lemma_decoded_enqueued(p.run(st, Op::Synchronize), seq, n);
        self.lemma_on_stream(p, seq, n);
        self.lemma_on_stream(p.run(st, Op::BeginCapture), seq, n);
    }

    proof fn lemma_on_stream(&self, p: ProgramView, seq: &SequenceState, n: nat)
        ensures
            steps_with(self.decode_layers(p, seq, n).steps, stray(self.default_stream, true))
                == steps_with(p.steps, stray(self.default_stream, true)),
        decreases n,
    {
        broadcast use lemma_one_more;

        if n > 0 {
            self.lemma_on_stream(p, seq, (n - 1) as nat);
        }
    }

    proof fn lemma_prefilled_enqueued(
        &self,
        p: ProgramView,
        r: ProcRange,
        u: Reuse,
        n: nat,
        stream: u64,
    )
        ensures
            strays(self.prefill_layers(p, r, u, n, stream), stream) == strays(p, stream) + if
            self.profile && r.count > 1 {
                n
            } else {
                0
            },
        decreases n,
    {
        broadcast use lemma_one_more;

        if n > 0 {
            self.lemma_prefilled_enqueued(p, r, u, (n - 1) as nat, stream);
        }
    }

    /// A prompt in one pass is enqueued on the model's stream and waits, behind
    /// each layer, only where several rows are timed.
    pub proof fn lemma_prefill_enqueued(&self, tokens: Seq<u32>, seq: &SequenceState, u: Reuse)
        ensures
            strays(self.prefill_program(tokens, seq, u), self.default_stream) == if self.profile
                && Self::prefill_range_of(tokens.len() as int, u).count > 1 {
                self.layers@.len()
            } else {
                0
            },
    {
        broadcast use lemma_one_more;

        let st = self.default_stream;
        let n = tokens.len() as int;
        let r = Self::prefill_range_of(n, u);
        let p = self.embed_program(
            ProgramView::empty(),
            tokens.subrange(r.start as int, r.start + r.count),
            st,
        );
        let p = self.prefill_meta_program(p, seq, n, u, st);
        self.lemma_prefilled_enqueued(p, r, u, self.layers@.len(), st);
    }

    proof fn lemma_phases_enqueued(
        &self,
        p: ProgramView,
        i: usize,
        r: ProcRange,
        first: usize,
        size: usize,
        j: nat,
        stream: u64,
    )
        ensures
            strays(self.phase1_chunks(p, i, r, first, size, j, stream), stream) == strays(
                p,
                stream,
            ),
            strays(self.phase3_chunks(p, i, r, size, j, stream), stream) == strays(p, stream),
        decreases j,
    {
        broadcast use lemma_one_more;

        if j > 0 {
            self.lemma_phases_enqueued(p, i, r, first, size, (j - 1) as nat, stream);
        }
    }

    proof fn lemma_layers_enqueued(
        &self,
        p: ProgramView,
        r: ProcRange,
        first: usize,
        size: usize,
        n: nat,
        stream: u64,
    )
        ensures
            strays(self.twophase_layers(p, r, first, size, n, stream), stream) == strays(
                p,
                stream,
            ),
        decreases n,
    {
        broadcast use lemma_one_more;

        if n > 0 {
            self.lemma_layers_enqueued(p, r, first, size, (n - 1) as nat, stream);
            let q = self.twophase_layers(p, r, first, size, (n - 1) as nat, stream);
            let i = (n - 1) as usize;
            let c = pieces(r.count as int, size as int);
            self.lemma_phases_enqueued(q, i, r, first, size, c, stream);
            let a = self.phase1_chunks(q, i, r, first, size, c, stream).run(
                stream,
                Op::LayerRecurrence(i),
            );
            self.lemma_phases_enqueued(a, i, r, first, size, c, stream);
        }
    }

    /// A pass in two phases is enqueued on the stream that is given and waits
    /// once: behind its uploads, before the first layer.
    pub proof fn lemma_twophase_enqueued(
        &self,
        tokens: Seq<u32>,
        seq: &SequenceState,
        u: Reuse,
        size: usize,
        stream: u64,
    )
        ensures
            strays(self.twophase_program(tokens, seq, u, size, stream), stream) == 1,
            ({
                let r = Self::twophase_range_of(tokens.len() as int, u);
                let a = if r.start > 0 {
                    self.embed_program(ProgramView::empty(), tokens.skip(r.start as int), stream)
                } else {
                    ProgramView::empty()
                };
                strays(self.twophase_meta_program(a, seq, r, stream), stream) == 0
            }),
    {
        broadcast use lemma_one_more;

        let r = Self::twophase_range_of(tokens.len() as int, u);
        let a = if r.start > 0 {
            self.embed_program(ProgramView::empty(), tokens.skip(r.start as int), stream)
        } else {
            ProgramView::empty()
        };
        let b = self.twophase_meta_program(a, seq, r, stream);
        assert(strays(b, stream) == 0);
        let p = b.run(stream, Op::Synchronize);
        self.lemma_layers_enqueued(
            p,
            r,
            Self::layer_write_start(u),
            size,
            self.layers@.len(),
            stream,
        );
    }

    proof fn lemma_chunked_enqueued(
        &self,
        p: ProgramView,
        count: usize,
        start: usize,
        first: usize,
        n: nat,
        stream: u64,
    )
        ensures
            ({
                let q = self.chunk_layers(p, count, start, first, n, stream);
                &&& q.steps.len() >= p.steps.len()
                &&& forall|i: int| 0 <= i < p.steps.len() ==> #[trigger] q.steps[i] == p.steps[i]
                &&& strays(q, stream) == strays(p, stream) + if self.profiles_now() {
                    2 * n
                } else {
                    0
                }
            }),
        decreases n,
    {
        broadcast use lemma_one_more;

        if n > 0 {
            self.lemma_chunked_enqueued(p, count, start, first, (n - 1) as nat, stream);
        }
    }

    /// The layers of a chunk are enqueued on the stream that is given, behind a
    /// wait for the metadata; a timed chunk waits before and behind each layer
    /// too, and at both ends.
    pub proof fn lemma_chunk_enqueued(
        &self,
        count: usize,
        start: usize,
        first: usize,
        stream: u64,
    )
        ensures
            ({
                let p = self.chunk_program(count, start, first, stream);
                &&& p.steps.len() > 0 && p.steps[0] == Step::On(stream, Op::Synchronize)
                &&& strays(p, stream) == if self.profiles_now() {
                    2 * self.layers@.len() + 3
                } else {
                    1
                }
            }),
    {
        broadcast use lemma_one_more;

        let p = ProgramView::empty().run(stream, Op::Synchronize).timed(
            self.profiles_now(),
            stream,
        );
        self.lemma_chunked_enqueued(p, count, start, first, self.layers@.len(), stream);
        let q = self.chunk_layers(p, count, start, first, self.layers@.len(), stream);
        assert(q.steps[0] == p.steps[0]);
    }
}

} // verus!
