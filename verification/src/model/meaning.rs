//! What the programs of a model run, in which order, on what.

use crate::bytes::{
    le32, le32_all, le64, le64_all, lemma_align_up, lemma_le32_all_len, lemma_le64_all_entry,
    lemma_le64_all_len,
};
use crate::config::LayerType;
use crate::gpu::DevicePtr;
use crate::meaning::work::{group_work, saved, work};
use crate::meaning::{binary, group_after, unary, Content, Layout, Memory, Rule};
use crate::model::decode::DecodeMode;
use crate::model::metadata::{lemma_packed_meta, packed_meta, positions, slots_at, table_at};
use crate::model::prefill::{ProcRange, Reuse};
use crate::model::sequence::SequenceState;
use crate::model::TransformerModel;
use crate::plan::{Op, ProgramView, Step};
use crate::ssm::prefill_gdn::{piece_len, pieces};
use vstd::prelude::*;

verus! {

impl TransformerModel {
    /// Layer `k` on one row at a position.
    pub open spec fn layer_on_row(&self, k: int, position: usize) -> Op {
        Op::LayerDecode(
            k as usize,
            self.buffers.hidden_states,
            self.buffers.residual,
            position,
        )
    }

    /// The final norm of one row.
    pub open spec fn norm_of_row(&self, row: DevicePtr) -> Op {
        Op::RmsNorm(
            self.k.rms_norm,
            row,
            self.final_norm,
            self.buffers.norm_output,
            1,
            self.config.hidden_size as u32,
            self.rms_norm_eps,
        )
    }

    /// Whether `w` ends in the final norm of `row` and the logits of that norm.
    pub open spec fn ends_in_head(&self, w: Seq<Op>, row: DevicePtr) -> bool {
        &&& w.len() >= 2
        &&& w[w.len() - 2] == self.norm_of_row(row)
        &&& w[w.len() - 1] == Op::LmHead(self.buffers.norm_output)
    }

    proof fn lemma_profiled_layers(&self, p: ProgramView, seq: &SequenceState, n: nat)
        ensures
            ({
                let w = work(self.profiled_layers(p, seq, n).steps);
                let v = work(p.steps);
                &&& w.len() == v.len() + n
                &&& forall|k: int| 0 <= k < v.len() ==> #[trigger] w[k] == v[k]
                &&& forall|k: int|
                    0 <= k < n ==> #[trigger] w[v.len() + k] == self.layer_on_row(k, seq.seq_len)
            }),
        decreases n,
    {
        broadcast use group_work;

        if n > 0 {
            self.lemma_profiled_layers(p, seq, (n - 1) as nat);
        }
    }

    proof fn lemma_decode_layers(&self, p: ProgramView, seq: &SequenceState, n: nat)
        ensures
            ({
                let q = self.decode_layers(p, seq, n);
                let w = work(q.steps);
                let v = work(p.steps);
                let s = saved(q.steps);
                let t = saved(p.steps);
                &&& w.len() == v.len() + n
                &&& forall|k: int| 0 <= k < v.len() ==> #[trigger] w[k] == v[k]
                &&& forall|k: int|
                    0 <= k < n ==> #[trigger] w[v.len() + k] == self.layer_on_row(k, seq.seq_len)
                &&& s.len() == t.len() + n
                &&& forall|k: int|
                    0 <= k < n ==> #[trigger] s[t.len() + k] == Op::CaptureDecode(k as usize, 0)
            }),
        decreases n,
    {
        broadcast use group_work;

        if n > 0 {
            self.lemma_decode_layers(p, seq, (n - 1) as nat);
        }
    }

    /// A decode step that replays no graph runs every layer once, from the first
    /// to the last, on the hidden state and at the position of the token; then
    /// the final norm of the hidden state; then the logits of that norm. Nothing
    /// else computes. Outside a timed pass the output of every layer is saved,
    /// in the same order.
    pub proof fn lemma_decode_order(&self, seq: &SequenceState, no_graphs: bool)
        requires
            !(self.decode_mode(seq, no_graphs) is Replay),
        ensures
            ({
                let steps = self.decode_program(seq, no_graphs).steps;
                let w = work(steps);
                let n = self.layers@.len() as int;
                &&& w.len() == n + 2
                &&& forall|k: int|
                    0 <= k < n ==> #[trigger] w[k] == Op::LayerDecode(
                        k as usize,
                        self.buffers.hidden_states,
                        self.buffers.residual,
                        seq.seq_len,
                    )
                &&& self.ends_in_head(w, self.buffers.hidden_states)
                &&& !(self.decode_mode(seq, no_graphs) is Profiled) ==> saved(steps).len() == n && (
                forall|k: int|
                    0 <= k < n ==> #[trigger] saved(steps)[k] == Op::CaptureDecode(k as usize, 0))
            }),
    {
        broadcast use group_work;

        let st = self.default_stream;
        let p = self.decode_meta_program(ProgramView::empty(), seq, st);
        let n = self.layers@.len();
        assert(work(p.steps) =~= Seq::empty());
        assert(saved(p.steps) =~= Seq::empty());
        let b = p.run(st, Op::BeginCapture);
        let t = p.run(st, Op::Synchronize);
        assert(work(b.steps) =~= Seq::empty() && saved(b.steps) =~= Seq::empty());
        assert(work(t.steps) =~= Seq::empty());
        self.lemma_decode_layers(p, seq, n);
        self.lemma_decode_layers(b, seq, n);
        self.lemma_profiled_layers(t, seq, n);
        let w = work(self.decode_program(seq, no_graphs).steps);
        assert forall|k: int| 0 <= k < n implies #[trigger] w[k] == Op::LayerDecode(
            k as usize,
            self.buffers.hidden_states,
            self.buffers.residual,
            seq.seq_len,
        ) by {
            let x = work(self.decode_layers(p, seq, n).steps);
            let y = work(self.decode_layers(b, seq, n).steps);
            let z = work(self.profiled_layers(t, seq, n).steps);
            assert(x[0 + k] == self.layer_on_row(k, seq.seq_len));
            assert(y[0 + k] == self.layer_on_row(k, seq.seq_len));
            assert(z[0 + k] == self.layer_on_row(k, seq.seq_len));
        }
        let s = saved(self.decode_program(seq, no_graphs).steps);
        if !(self.decode_mode(seq, no_graphs) is Profiled) {
            assert forall|k: int| 0 <= k < n implies #[trigger] s[k] == Op::CaptureDecode(
                k as usize,
                0,
            ) by {
                let x = saved(self.decode_layers(p, seq, n).steps);
                let y = saved(self.decode_layers(b, seq, n).steps);
                assert(x[0 + k] == Op::CaptureDecode(k as usize, 0));
                assert(y[0 + k] == Op::CaptureDecode(k as usize, 0));
            }
        }
    }

    /// Indices below `n` of the layers that keep no recurrent state, in order.
    pub open spec fn plain_layers(&self, n: nat) -> Seq<int>
        decreases n,
    {
        if n == 0 {
            Seq::empty()
        } else if self.layers@[n - 1].kind == LayerType::LinearAttention {
            self.plain_layers((n - 1) as nat)
        } else {
            self.plain_layers((n - 1) as nat).push(n - 1)
        }
    }

    proof fn lemma_draft_work(&self, p: ProgramView, seq: &SequenceState, n: nat)
        requires
            work(p.steps).len() == 0,
        ensures
            ({
                let w = work(self.draft_layers(p, seq, n).steps);
                let l = self.plain_layers(n);
                &&& w.len() == l.len()
                &&& forall|k: int|
                    0 <= k < l.len() ==> #[trigger] w[k] == self.layer_on_row(l[k], seq.seq_len)
            }),
        decreases n,
    {
        broadcast use group_work;

        if n > 0 {
            self.lemma_draft_work(p, seq, (n - 1) as nat);
        }
    }

    /// A drafting step runs exactly the layers that keep no recurrent state, in
    /// order, and then norm and logits as a decode step does.
    pub proof fn lemma_draft_order(&self, seq: &SequenceState)
        ensures
            ({
                let w = work(self.draft_program(seq).steps);
                let l = self.plain_layers(self.layers@.len());
                &&& w.len() == l.len() + 2
                &&& forall|k: int|
                    0 <= k < l.len() ==> #[trigger] w[k] == Op::LayerDecode(
                        l[k] as usize,
                        self.buffers.hidden_states,
                        self.buffers.residual,
                        seq.seq_len,
                    )
                &&& self.ends_in_head(w, self.buffers.hidden_states)
            }),
    {
        broadcast use group_work;

        let p = self.decode_meta_program(ProgramView::empty(), seq, self.default_stream);
        assert(work(p.steps) =~= Seq::empty());
        self.lemma_draft_work(p, seq, self.layers@.len());
    }

    proof fn lemma_prefill_layers(
        &self,
        p: ProgramView,
        r: ProcRange,
        u: Reuse,
        n: nat,
        stream: u64,
    )
        ensures
            ({
                let q = self.prefill_layers(p, r, u, n, stream);
                let w = work(q.steps);
                let v = work(p.steps);
                let s = saved(q.steps);
                let t = saved(p.steps);
                let first: usize = if u.skip {
                    0
                } else {
                    u.kv_write_start
                };
                &&& w.len() == v.len() + n
                &&& forall|k: int| 0 <= k < v.len() ==> #[trigger] w[k] == v[k]
                &&& forall|k: int|
                    0 <= k < n ==> #[trigger] w[v.len() + k] == Op::LayerPrefill(
                        k as usize,
                        self.buffers.hidden_states,
                        self.buffers.residual,
                        r.count,
                        r.start,
                        first,
                    )
                &&& s.len() == t.len() + n
                &&& forall|k: int|
                    0 <= k < n ==> #[trigger] s[t.len() + k] == Op::CapturePrefill(
                        k as usize,
                        first,
                        r.count,
                    )
                &&& q.staging == p.staging
            }),
        decreases n,
    {
        broadcast use group_work;

        if n > 0 {
            self.lemma_prefill_layers(p, r, u, (n - 1) as nat, stream);
        }
    }

    /// A prompt of `n` tokens in one pass processes the positions from some
    /// start to its end: those behind what is reused, or the last one. Their
    /// tokens are embedded, every layer takes their rows, first to last, and
    /// the one final norm reads the last of these rows, that of the last prompt
    /// position.
    #[verifier::rlimit(40)]
    pub proof fn lemma_prefill_order(&self, tokens: Seq<u32>, seq: &SequenceState, u: Reuse)
        requires
            0 < tokens.len() <= usize::MAX,
        ensures
            ({
                let n = tokens.len() as int;
                let steps = self.prefill_program(tokens, seq, u).steps;
                let w = work(steps);
                let layers = self.layers@.len() as int;
                let start: int = if !u.skip {
                    0
                } else if u.kv_write_start >= n {
                    n - 1
                } else {
                    u.kv_write_start as int
                };
                let count = n - start;
                let bytes: int = if self.fp32_residual {
                    4
                } else {
                    2
                };
                let first: usize = if u.skip {
                    0
                } else {
                    u.kv_write_start
                };
                &&& w.len() == layers + 4
                &&& w[0] == Op::BatchedEmbed(
                    self.k.batched_embed,
                    self.buffers.scratch,
                    self.embed_tokens.weight,
                    self.buffers.hidden_states,
                    count as u32,
                    self.config.hidden_size as u32,
                )
                &&& w[1] == Op::ScaleEmbeddings(self.buffers.hidden_states, count as usize)
                &&& forall|k: int|
                    0 <= k < layers ==> #[trigger] w[2 + k] == Op::LayerPrefill(
                        k as usize,
                        self.buffers.hidden_states,
                        self.buffers.residual,
                        count as usize,
                        start as usize,
                        first,
                    )
                &&& self.ends_in_head(
                    w,
                    self.buffers.hidden_states.at((count - 1) * self.config.hidden_size * bytes),
                )
                &&& saved(steps).len() == layers
                &&& forall|k: int|
                    0 <= k < layers ==> #[trigger] saved(steps)[k] == Op::CapturePrefill(
                        k as usize,
                        first,
                        count as usize,
                    )
            }),
    {
        broadcast use group_work;

        let st = self.default_stream;
        let n = tokens.len() as int;
        let r = Self::prefill_range_of(n, u);
        let a = self.embed_program(
            ProgramView::empty(),
            tokens.subrange(r.start as int, r.start + r.count),
            st,
        );
        let p = self.prefill_meta_program(a, seq, n, u, st);
        assert(work(p.steps).len() == 2);
        assert(saved(p.steps) =~= Seq::empty());
        let layers = self.layers@.len();
        self.lemma_prefill_layers(p, r, u, layers, st);
        let q = self.prefill_layers(p, r, u, layers, st);
        let w = work(self.prefill_program(tokens, seq, u).steps);
        assert(w[0] == work(q.steps)[0] && w[1] == work(q.steps)[1]);
        assert(work(q.steps)[0] == work(p.steps)[0] && work(q.steps)[1] == work(p.steps)[1]);
        assert forall|k: int| 0 <= k < layers implies #[trigger] w[2 + k] == work(q.steps)[2
            + k] by {}
        let s = saved(self.prefill_program(tokens, seq, u).steps);
        assert forall|k: int| 0 <= k < layers implies #[trigger] s[k] == saved(q.steps)[0 + k] by {}
    }

    /// The tokens whose embeddings are looked up are those that are asked for:
    /// their ids are uploaded to where the lookup reads them.
    pub proof fn lemma_embedded_tokens(
        &self,
        l: Layout,
        m: Memory,
        p: ProgramView,
        tokens: Seq<u32>,
        stream: u64,
    )
        requires
            l.holds(seq![self.buffers.scratch, self.buffers.hidden_states]),
            p.staging.len() + 4 * tokens.len() <= usize::MAX,
            (p.staging + le32_all(tokens)).is_prefix_of(l.staging),
        ensures
            l.after(m, self.embed_program(p, tokens, stream).steps)[self.buffers.hidden_states]
                == unary(
                Rule::ScaledRows(tokens.len() as usize),
                unary(
                    Rule::TokenRows(
                        self.embed_tokens.weight,
                        tokens.len() as u32,
                        self.config.hidden_size as u32,
                    ),
                    Content::Bytes(le32_all(tokens)),
                ),
            ),
    {
        broadcast use group_after;

        let ps = seq![self.buffers.scratch, self.buffers.hidden_states];
        l.lemma_rank(ps);
        assert(ps[0] == self.buffers.scratch && ps[1] == self.buffers.hidden_states);
        lemma_le32_all_len(tokens);
        l.lemma_after_upload(m, p, stream, le32_all(tokens), self.buffers.scratch);
    }

    proof fn lemma_chunk_layers(
        &self,
        p: ProgramView,
        count: usize,
        start: usize,
        first: usize,
        n: nat,
        stream: u64,
    )
        requires
            work(p.steps).len() == 0,
            saved(p.steps).len() == 0,
        ensures
            ({
                let q = self.chunk_layers(p, count, start, first, n, stream);
                let w = work(q.steps);
                let s = saved(q.steps);
                &&& w.len() == n
                &&& s.len() == n
                &&& forall|k: int|
                    0 <= k < n ==> #[trigger] w[k] == if count == 1 && start > 0 {
                        self.layer_on_row(k, start)
                    } else {
                        Op::LayerPrefill(
                            k as usize,
                            self.buffers.hidden_states,
                            self.buffers.residual,
                            count,
                            start,
                            first,
                        )
                    }
                &&& forall|k: int|
                    0 <= k < n ==> #[trigger] s[k] == Op::CapturePrefill(k as usize, first, count)
            }),
        decreases n,
    {
        broadcast use group_work;

        if n > 0 {
            self.lemma_chunk_layers(p, count, start, first, (n - 1) as nat, stream);
        }
    }

    /// A chunk goes through every layer once, from the first to the last: as a
    /// decoded token when it is a single row behind others, as rows otherwise.
    /// The output of each layer is saved.
    pub proof fn lemma_chunk_order(&self, count: usize, start: usize, first: usize, stream: u64)
        ensures
            ({
                let steps = self.chunk_program(count, start, first, stream).steps;
                let w = work(steps);
                let n = self.layers@.len() as int;
                &&& w.len() == n
                &&& saved(steps).len() == n
                &&& forall|k: int|
                    0 <= k < n ==> #[trigger] w[k] == if count == 1 && start > 0 {
                        Op::LayerDecode(
                            k as usize,
                            self.buffers.hidden_states,
                            self.buffers.residual,
                            start,
                        )
                    } else {
                        Op::LayerPrefill(
                            k as usize,
                            self.buffers.hidden_states,
                            self.buffers.residual,
                            count,
                            start,
                            first,
                        )
                    }
                &&& forall|k: int|
                    0 <= k < n ==> #[trigger] saved(steps)[k] == Op::CapturePrefill(
                        k as usize,
                        first,
                        count,
                    )
            }),
    {
        broadcast use group_work;

        let p = ProgramView::empty().run(stream, Op::Synchronize).timed(
            self.profiles_now(),
            stream,
        );
        assert(work(p.steps) =~= Seq::empty());
        assert(saved(p.steps) =~= Seq::empty());
        self.lemma_chunk_layers(p, count, start, first, self.layers@.len(), stream);
    }

    /// What layer `i` does with the rows of a pass in two phases. A layer with a
    /// recurrence takes its input half chunk by chunk, then the recurrence once,
    /// then its output half over the same chunks: chunk `j` covers the rows from
    /// `j * size` on, wherever they are counted.
    pub open spec fn layer_in_phases(
        &self,
        i: int,
        r: ProcRange,
        first: usize,
        size: int,
    ) -> Seq<Op> {
        let n = pieces(r.count as int, size);
        let bytes: int = if self.fp32_residual {
            4
        } else {
            2
        };
        let row = self.config.hidden_size * bytes;
        let (h, res) = (self.buffers.hidden_states, self.buffers.residual);
        if self.layers@[i].is_ssm {
            Seq::new(
                n,
                |j: int|
                    Op::LayerPhase1(
                        i as usize,
                        h.at(j * size * row),
                        res.at(j * size * row),
                        piece_len(r.count as int, size, j) as usize,
                        (r.start + j * size) as usize,
                        first,
                        (j * size) as usize,
                    ),
            ).push(Op::LayerRecurrence(i as usize)) + Seq::new(
                n,
                |j: int|
                    Op::LayerPhase3(
                        i as usize,
                        h.at(j * size * row),
                        res.at(j * size * row),
                        piece_len(r.count as int, size, j) as usize,
                        (j * size) as usize,
                    ),
            )
        } else {
            seq![Op::LayerPrefill(i as usize, h, res, r.count, r.start, first)]
        }
    }

    /// The work of the first `n` layers, layer by layer.
    pub open spec fn layers_in_phases(
        &self,
        r: ProcRange,
        first: usize,
        size: int,
        n: nat,
    ) -> Seq<Op>
        decreases n,
    {
        if n == 0 {
            Seq::empty()
        } else {
            self.layers_in_phases(r, first, size, (n - 1) as nat) + self.layer_in_phases(
                n - 1,
                r,
                first,
                size,
            )
        }
    }

    proof fn lemma_phase1_work(
        &self,
        p: ProgramView,
        i: usize,
        r: ProcRange,
        first: usize,
        size: usize,
        n: nat,
        stream: u64,
    )
        ensures
            ({
                let q = self.phase1_chunks(p, i, r, first, size, n, stream);
                let bytes: int = if self.fp32_residual {
                    4
                } else {
                    2
                };
                let row = self.config.hidden_size * bytes;
                work(q.steps) =~= work(p.steps) + Seq::new(
                    n,
                    |j: int|
                        Op::LayerPhase1(
                            i,
                            self.buffers.hidden_states.at(j * size * row),
                            self.buffers.residual.at(j * size * row),
                            piece_len(r.count as int, size as int, j) as usize,
                            (r.start + j * size) as usize,
                            first,
                            (j * size) as usize,
                        ),
                )
            }),
        decreases n,
    {
        broadcast use group_work;

        if n > 0 {
            self.lemma_phase1_work(p, i, r, first, size, (n - 1) as nat, stream);
            let e = self.elem();
            let h = self.config.hidden_size;
            let j = n - 1;
            assert(j * size * h * e == j * size * (h * e)) by (nonlinear_arith);
        }
    }

    proof fn lemma_phase3_work(
        &self,
        p: ProgramView,
        i: usize,
        r: ProcRange,
        size: usize,
        n: nat,
        stream: u64,
    )
        ensures
            ({
                let q = self.phase3_chunks(p, i, r, size, n, stream);
                let bytes: int = if self.fp32_residual {
                    4
                } else {
                    2
                };
                let row = self.config.hidden_size * bytes;
                work(q.steps) =~= work(p.steps) + Seq::new(
                    n,
                    |j: int|
                        Op::LayerPhase3(
                            i,
                            self.buffers.hidden_states.at(j * size * row),
                            self.buffers.residual.at(j * size * row),
                            piece_len(r.count as int, size as int, j) as usize,
                            (j * size) as usize,
                        ),
                )
            }),
        decreases n,
    {
        broadcast use group_work;

        if n > 0 {
            self.lemma_phase3_work(p, i, r, size, (n - 1) as nat, stream);
            let e = self.elem();
            let h = self.config.hidden_size;
            let j = n - 1;
            assert(j * size * h * e == j * size * (h * e)) by (nonlinear_arith);
        }
    }

    proof fn lemma_twophase_layers(
        &self,
        p: ProgramView,
        r: ProcRange,
        first: usize,
        size: usize,
        n: nat,
        stream: u64,
    )
        requires
            n <= self.layers@.len() <= usize::MAX,
        ensures
            work(self.twophase_layers(p, r, first, size, n, stream).steps) =~= work(p.steps)
                + self.layers_in_phases(r, first, size as int, n),
        decreases n,
    {
        broadcast use group_work;

        if n > 0 {
            self.lemma_twophase_layers(p, r, first, size, (n - 1) as nat, stream);
            let q = self.twophase_layers(p, r, first, size, (n - 1) as nat, stream);
            let i = (n - 1) as usize;
            let c = pieces(r.count as int, size as int);
            if self.layers@[i as int].is_ssm {
                self.lemma_phase1_work(q, i, r, first, size, c, stream);
                let a = self.phase1_chunks(q, i, r, first, size, c, stream).run(
                    stream,
                    Op::LayerRecurrence(i),
                );
                self.lemma_phase3_work(a, i, r, size, c, stream);
            }
        }
    }

    /// A pass in two phases takes layer after layer through its phases and ends
    /// in the final norm of the last row that it processed.
    pub proof fn lemma_twophase_order(
        &self,
        tokens: Seq<u32>,
        seq: &SequenceState,
        u: Reuse,
        size: usize,
        stream: u64,
    )
        requires
            tokens.len() <= usize::MAX,
            u.skip ==> u.kv_write_start <= tokens.len(),
        ensures
            ({
                let n = tokens.len() as int;
                let w = work(self.twophase_program(tokens, seq, u, size, stream).steps);
                let start: int = if u.skip {
                    u.kv_write_start as int
                } else {
                    0
                };
                let r = ProcRange { start: start as usize, count: (n - start) as usize };
                let first: usize = if u.skip {
                    0
                } else {
                    u.kv_write_start
                };
                let inner = self.layers_in_phases(r, first, size as int, self.layers@.len());
                let front: int = if start > 0 {
                    3
                } else {
                    0
                };
                let bytes: int = if self.fp32_residual {
                    4
                } else {
                    2
                };
                &&& w.len() == front + inner.len() + 2
                &&& w.subrange(front, front + inner.len()) =~= inner
                &&& self.ends_in_head(
                    w,
                    self.buffers.hidden_states.at(
                        (n - start - 1) * self.config.hidden_size * bytes,
                    ),
                )
                &&& start > 0 ==> w[0] == Op::BatchedEmbed(
                    self.k.batched_embed,
                    self.buffers.scratch,
                    self.embed_tokens.weight,
                    self.buffers.hidden_states,
                    (n - start) as u32,
                    self.config.hidden_size as u32,
                )
            }),
    {
        broadcast use group_work;

        let r = Self::twophase_range_of(tokens.len() as int, u);
        let a = if r.start > 0 {
            self.embed_program(ProgramView::empty(), tokens.skip(r.start as int), stream)
        } else {
            ProgramView::empty()
        };
        let b = self.twophase_meta_program(a, seq, r, stream);
        let p = b.run(stream, Op::Synchronize);
        assert(work(a.steps).len() == if r.start > 0 {
            2int
        } else {
            0int
        });
        assert(work(p.steps).len() == if r.start > 0 {
            3int
        } else {
            0int
        });
        assert(r.start > 0 ==> work(p.steps)[0] == work(a.steps)[0]);
        let first = Self::layer_write_start(u);
        let n = self.layers@.len();
        assert(n <= usize::MAX) by {
            assert(self.layers.len() == n);
        }
        self.lemma_twophase_layers(p, r, first, size, n, stream);
    }

    /// The kernels of a decode step find, where they are told to look, the
    /// position of the token, its cache slot, the length with the token, and the
    /// block table.
    pub proof fn lemma_decode_metadata(
        &self,
        l: Layout,
        m: Memory,
        seq: &SequenceState,
        stream: u64,
    )
        requires
            ({
                let d = self.decode_attn_metadata(seq);
                let base = self.buffers.scratch.at(32768);
                l.holds(seq![base, base.at(8), base.at(16), base.at(256)])
            }),
            16 + 4 * seq.block_table@.len() <= usize::MAX,
            self.decode_meta_program(ProgramView::empty(), seq, stream).staging == l.staging,
        ensures
            ({
                let d = self.decode_attn_metadata(seq);
                let after = l.after(
                    m,
                    self.decode_meta_program(ProgramView::empty(), seq, stream).steps,
                );
                let bs = self.block_size as int;
                let slot = seq.slot(self.dummy_kv_block, bs, seq.seq_len as int);
                &&& after[d.positions] == Content::Bytes(le32(seq.seq_len as u32))
                &&& d.positions_h == d.positions && d.positions_w == d.positions
                &&& after[d.slot] == Content::Bytes(le64(slot as u64))
                &&& after[d.seq_len] == Content::Bytes(le32((seq.seq_len + 1) as u32))
                &&& after[d.block_table] == Content::Bytes(le32_all(seq.block_table@))
                &&& d.max_blocks_per_seq == seq.block_table@.len() as u32
                &&& d.num_seqs == 1
            }),
    {
        broadcast use group_after;

        let base = self.buffers.scratch.at(32768);
        let ps = seq![base, base.at(8), base.at(16), base.at(256)];
        l.lemma_rank(ps);
        assert(ps[0] == base && ps[1] == base.at(8) && ps[2] == base.at(16) && ps[3] == base.at(
            256,
        ));
        let slot = seq.slot(self.dummy_kv_block, self.block_size as int, seq.seq_len as int);
        let a = le32(seq.seq_len as u32);
        let b = le64(slot as u64);
        let c = le32((seq.seq_len + 1) as u32);
        let d = le32_all(seq.block_table@);
        lemma_le32_all_len(seq.block_table@);
        let e = Seq::<u8>::empty();
        assert(l.staging =~= e + a + b + c + d);
        assert(l.staging.subrange(0, 4) =~= a);
        assert(l.staging.subrange(4, 12) =~= b);
        assert(l.staging.subrange(12, 16) =~= c);
        assert(l.staging.subrange(16, 16 + d.len() as int) =~= d);
        assert((e + a).len() == 4 && (e + a + b).len() == 12 && (e + a + b + c).len() == 16);
    }

    /// The kernels of a batch find positions, slots, lengths and block tables of
    /// its rows where they are told to look.
    pub proof fn lemma_batch_metadata(
        &self,
        l: Layout,
        m: Memory,
        seqs: Seq<&SequenceState>,
        rows: nat,
        base: DevicePtr,
        stream: u64,
    )
        requires
            l.holds(seq![base, base.at(256), base.at(512), base.at(768)]),
            16 * rows + 4 * self.batch_table(seqs, rows).len() <= usize::MAX,
            self.batch_meta_program(seqs, rows, base, stream).staging == l.staging,
        ensures
            ({
                let d = self.batch_attn_metadata(rows, base);
                let after = l.after(m, self.batch_meta_program(seqs, rows, base, stream).steps);
                &&& after[d.positions] == Content::Bytes(
                    le32_all(Self::batch_positions(seqs, rows)),
                )
                &&& d.positions_h == d.positions && d.positions_w == d.positions
                &&& after[d.slot] == Content::Bytes(le64_all(self.batch_slots(seqs, rows)))
                &&& after[d.seq_len] == Content::Bytes(le32_all(Self::batch_lens(seqs, rows)))
                &&& after[d.block_table] == Content::Bytes(le32_all(self.batch_table(seqs, rows)))
                &&& d.max_blocks_per_seq == self.max_blocks_per_seq
                &&& d.num_seqs == rows as u32
            }),
    {
        broadcast use group_after;

        let ps = seq![base, base.at(256), base.at(512), base.at(768)];
        l.lemma_rank(ps);
        assert(ps[0] == base && ps[1] == base.at(256) && ps[2] == base.at(512) && ps[3] == base.at(
            768,
        ));
        let a = le32_all(Self::batch_positions(seqs, rows));
        let b = le64_all(self.batch_slots(seqs, rows));
        let c = le32_all(Self::batch_lens(seqs, rows));
        let d = le32_all(self.batch_table(seqs, rows));
        lemma_le32_all_len(Self::batch_positions(seqs, rows));
        lemma_le64_all_len(self.batch_slots(seqs, rows));
        lemma_le32_all_len(Self::batch_lens(seqs, rows));
        lemma_le32_all_len(self.batch_table(seqs, rows));
        let e = Seq::<u8>::empty();
        assert(l.staging =~= e + a + b + c + d);
        let i = a.len() as int;
        let j = i + b.len();
        let k = j + c.len();
        assert(l.staging.subrange(0, i) =~= a);
        assert(l.staging.subrange(i, j) =~= b);
        assert(l.staging.subrange(j, k) =~= c);
        assert(l.staging.subrange(k, k + d.len()) =~= d);
        assert((e + a).len() == i && (e + a + b).len() == j && (e + a + b + c).len() == k);
    }

    /// Row `i` of a batch of logits is searched from its own first logit, and its
    /// token goes to its own place.
    pub proof fn lemma_argmax_rows(&self, logits: DevicePtr, n: nat)
        ensures
            ({
                let t = self.argmax_rows(logits, n);
                &&& t.len() == n
                &&& forall|i: int|
                    0 <= i < n ==> #[trigger] t[i] == Step::On(
                        self.default_stream,
                        Op::Argmax(
                            self.k.argmax,
                            logits.at(i * self.config.vocab_size * 2),
                            self.buffers.scratch.at(i * 4),
                            self.config.vocab_size as u32,
                        ),
                    )
            }),
        decreases n,
    {
        if n > 0 {
            self.lemma_argmax_rows(logits, (n - 1) as nat);
        }
    }

    /// States are normalized by the addresses that were handed in: entry `i` of
    /// the list on the device is the address of state `i`, and the kernel reads
    /// that list.
    pub proof fn lemma_normalized_states(
        &self,
        l: Layout,
        m: Memory,
        h_states: Seq<DevicePtr>,
        stream: u64,
        i: int,
    )
        requires
            self.num_ssm_layers > 0,
            self.k.ssm_state_norm.0 != 0,
            8 * h_states.len() <= usize::MAX,
            0 <= i < h_states.len(),
            l.holds(seq![self.ssm_norm_ptrs_buf]),
            self.normalize_program(h_states, stream).staging == l.staging,
        ensures
            ({
                let p = self.normalize_program(h_states, stream);
                let list = l.after(m, p.steps.drop_last())[self.ssm_norm_ptrs_buf];
                &&& list is Bytes
                &&& list->Bytes_0.len() == 8 * h_states.len()
                &&& list->Bytes_0.subrange(8 * i, 8 * i + 8) == le64(h_states[i].0)
                &&& p.steps.last() == Step::On(
                    stream,
                    Op::SsmStateNorm(
                        self.k.ssm_state_norm,
                        self.ssm_norm_ptrs_buf,
                        self.ssm_norm_dims.0 as u32,
                        self.num_ssm_layers as u32,
                        self.ssm_norm_dims.1 as u32,
                        self.ssm_norm_dims.2 as u32,
                    ),
                )
            }),
    {
        broadcast use group_after;

        let ps = seq![self.ssm_norm_ptrs_buf];
        l.lemma_rank(ps);
        assert(ps[0] == self.ssm_norm_ptrs_buf);
        let xs = Self::addresses(h_states);
        let bytes = le64_all(xs);
        lemma_le64_all_len(xs);
        lemma_le64_all_entry(xs, i);
        let e = ProgramView::empty();
        let p = e.upload(stream, bytes, self.ssm_norm_ptrs_buf);
        assert(p.staging =~= bytes);
        assert(l.staging =~= l.staging.subrange(0, l.staging.len() as int));
        l.lemma_after_upload(m, e, stream, bytes, self.ssm_norm_ptrs_buf);
        assert(self.normalize_program(h_states, stream).steps.drop_last() =~= p.steps);
    }

    /// The rows of the image encoder replace the embeddings of the image tokens,
    /// one for one and in order: copy `j` takes encoder row `j` to the position
    /// of the image token that has `j` image tokens before it.
    pub proof fn lemma_overlaid_images(
        &self,
        p: ProgramView,
        tokens: Seq<u32>,
        n: nat,
        stream: u64,
    )
        requires
            n <= tokens.len(),
        ensures
            ({
                let v = work(p.steps);
                let w = work(self.vision_overlay(p, tokens, n, stream).steps);
                let enc = self.vision->0;
                let bytes: int = if self.fp32_residual {
                    4
                } else {
                    2
                };
                &&& w.len() == v.len() + self.pads_before(tokens, n)
                &&& forall|j: int| 0 <= j < v.len() ==> #[trigger] w[j] == v[j]
                &&& forall|t: int|
                    0 <= t < n && #[trigger] tokens[t] == self.pad_token() ==> {
                        let j = self.pads_before(tokens, t as nat) as int;
                        &&& 0 <= j < self.pads_before(tokens, n)
                        &&& w[v.len() + j] == Op::CopyD2d(
                            enc.buf_out.at(j * enc.out_hidden_size * 2),
                            self.buffers.hidden_states.at(t * self.config.hidden_size * bytes),
                            (enc.out_hidden_size * 2) as usize,
                        )
                    }
            }),
        decreases n,
    {
        broadcast use group_work;

        if n > 0 {
            self.lemma_overlaid_images(p, tokens, (n - 1) as nat, stream);
        }
    }

    /// A pass in two phases begins on cleared buffers with the embeddings of all
    /// its tokens.
    pub proof fn lemma_twophase_begins(&self, tokens: Seq<u32>, stream: u64)
        ensures
            ({
                let w = work(self.twophase_open(tokens, stream).steps);
                let images: int = if self.vision_embed_patches > 0 && self.vision is Some {
                    self.pads_before(tokens, tokens.len()) as int
                } else {
                    0
                };
                &&& w.len() == 3 + images
                &&& w[0] == Op::ZeroAll
                &&& w[1] == Op::BatchedEmbed(
                    self.k.batched_embed,
                    self.buffers.scratch,
                    self.embed_tokens.weight,
                    self.buffers.hidden_states,
                    tokens.len() as u32,
                    self.config.hidden_size as u32,
                )
                &&& w[2] == Op::ScaleEmbeddings(
                    self.buffers.hidden_states,
                    tokens.len() as usize,
                )
            }),
    {
        broadcast use group_work;

        let p = self.embed_program(
            ProgramView::empty().run(stream, Op::ZeroAll),
            tokens,
            stream,
        );
        assert(work(p.steps).len() == 3);
        self.lemma_overlaid_images(p, tokens, tokens.len(), stream);
    }

    /// A decode step begins with the embedding of its token in the hidden state,
    /// on cleared buffers where latent attention reuses them.
    pub proof fn lemma_decode_begins(&self, token: u32, keep_buffers: bool)
        ensures
            ({
                let w = work(self.decode_open(token, keep_buffers).steps);
                let clears = self.config.kv_lora_rank > 0 && !keep_buffers;
                &&& w.len() == if clears {
                    2int
                } else {
                    1int
                }
                &&& w.last() == Op::Embed(token, self.buffers.hidden_states)
                &&& clears ==> w[0] == Op::ZeroAll
            }),
    {
        broadcast use group_work;

    }

    /// Each sequence of a batch has the row of its own index: its length as
    /// position, the slot of that position in its own cache, and the length with
    /// the new token. Rows that pad the batch write to the dummy block and attend
    /// to one position.
    pub proof fn lemma_batch_rows(&self, seqs: Seq<&SequenceState>, rows: nat, i: int)
        requires
            0 <= i < rows,
        ensures
            ({
                let position = Self::batch_positions(seqs, rows)[i];
                let slot = self.batch_slots(seqs, rows)[i];
                let len = Self::batch_lens(seqs, rows)[i];
                let bs = self.block_size as int;
                &&& i < seqs.len() ==> {
                    &&& position == seqs[i].seq_len as u32
                    &&& len == (seqs[i].seq_len + 1) as u32
                    &&& seqs[i].seq_len <= u32::MAX ==> slot == seqs[i].slot(
                        self.dummy_kv_block,
                        bs,
                        seqs[i].seq_len as int,
                    ) as u64
                }
                &&& i >= seqs.len() ==> {
                    &&& position == 0
                    &&& len == 1
                    &&& slot == (self.dummy_kv_block * bs) as u64
                }
            }),
    {
    }

    /// The kernels of a prompt in one pass find, at the offsets that they are
    /// told, the positions of its rows from the first processed one on, the cache
    /// slots of these positions, and, where cached positions are read, the block
    /// table and the whole length.
    pub proof fn lemma_prefill_metadata(&self, seq: &SequenceState, n: usize, u: Reuse)
        requires
            0 < n <= u32::MAX,
            ({
                let r = Self::prefill_range_of(n as int, u);
                let base = self.prefill_meta_base(r.count as int);
                base.0 + r.count * 12 + 16 + seq.block_table@.len() * 4 <= u64::MAX
            }),
        ensures
            ({
                let r = Self::prefill_range_of(n as int, u);
                let (start, count) = (r.start as int, r.count as int);
                let d = self.prefill_metadata(seq, r, u);
                let base = self.prefill_meta_base(count);
                let p = self.prefill_meta_program(ProgramView::empty(), seq, n as int, u, 0);
                let bytes = p.staging;
                let at = d.slot.0 - base.0;
                let positions = Seq::new(count as nat, |i: int| (start + i) as u32);
                let slots = Seq::new(
                    count as nat,
                    |i: int|
                        seq.slot(self.dummy_kv_block, self.block_size as int, start + i) as u64,
                );
                &&& p.steps == seq![
                    Step::On(0, Op::Upload(0, bytes.len() as usize, d.positions)),
                ]
                &&& d.positions == base && d.positions_h == base && d.positions_w == base
                &&& bytes.subrange(0, 4 * count) == le32_all(positions)
                &&& 4 * count <= at && at + 8 * count <= bytes.len()
                &&& bytes.subrange(at, at + 8 * count) == le64_all(slots)
                &&& d.num_seqs == 1 && d.max_blocks_per_seq == seq.block_table@.len() as u32
                &&& u.skip ==> {
                    let t = d.block_table.0 - base.0;
                    let k = d.seq_len.0 - base.0;
                    &&& at + 8 * count <= t
                    &&& t + 4 * seq.block_table@.len() <= k && k + 4 == bytes.len()
                    &&& bytes.subrange(t, t + 4 * seq.block_table@.len() as int) == le32_all(
                        seq.block_table@,
                    )
                    &&& bytes.subrange(k, k + 4) == le32(n as u32)
                }
            }),
    {
        let r = Self::prefill_range_of(n as int, u);
        let (start, count) = (r.start as int, r.count as int);
        let ps = positions(start, count as nat);
        let slots = self.slots(seq, start, count as nat);
        let blocks = seq.block_table@;
        lemma_packed_meta(ps, slots, blocks, n as u32);
        lemma_align_up(4 * count);
        lemma_align_up(slots_at(count) + 8 * count);
        lemma_align_up(table_at(count) + 4 * blocks.len());
        let flat = packed_meta(ps, slots, None);
        let full = packed_meta(ps, slots, Some((blocks, n as u32)));
        let p = self.prefill_meta_program(ProgramView::empty(), seq, n as int, u, 0);
        assert(p.staging =~= if u.skip {
            full
        } else {
            flat
        });
        let at = slots_at(count);
        assert(full.subrange(0, 4 * count) =~= flat.subrange(0, 4 * count)) by {
            assert forall|i: int| 0 <= i < 4 * count implies full[i] == flat[i] by {
                assert(full.subrange(0, flat.len() as int)[i] == flat[i]);
            }
        }
        assert(full.subrange(at, at + 8 * count) =~= flat.subrange(at, at + 8 * count)) by {
            assert forall|i: int| at <= i < at + 8 * count implies full[i] == flat[i] by {
                assert(full.subrange(0, flat.len() as int)[i] == flat[i]);
            }
        }
        assert(p.steps =~= seq![
            Step::On(
                0,
                Op::Upload(
                    0,
                    p.staging.len() as usize,
                    self.prefill_metadata(seq, r, u).positions,
                ),
            ),
        ]);
        assert(ps =~= Seq::new(count as nat, |i: int| (start + i) as u32));
        assert(slots =~= Seq::new(
            count as nat,
            |i: int| seq.slot(self.dummy_kv_block, self.block_size as int, start + i) as u64,
        ));
    }

    /// A pass in two phases behind cached positions tells its kernels the
    /// positions of its rows, the length up to its last row, and slots that are
    /// looked up in the block table on the device, after the entries that this
    /// lacked have been appended to it.
    pub proof fn lemma_twophase_metadata(
        &self,
        l: Layout,
        m: Memory,
        seq: &SequenceState,
        r: ProcRange,
        stream: u64,
    )
        requires
            r.start > 0,
            seq.chunked_prefill_meta is Some,
            ({
                let meta = seq.chunked_prefill_meta->0;
                let base = self.prefill_meta_base(r.count as int);
                let old = meta.uploaded_blocks as int;
                &&& l.holds(
                    seq![base, base.at(slots_at(r.count as int)), meta.block_table, meta.seq_len],
                )
                &&& old > 0
                &&& (l.home)(meta.block_table.at(old * 4)) == (meta.block_table, old * 4)
            }),
            4 * r.count + 4 * seq.block_table@.len() + 4 <= usize::MAX,
            l.staging == self.twophase_meta_program(ProgramView::empty(), seq, r, stream).staging,
        ensures
            ({
                let meta = seq.chunked_prefill_meta->0;
                let after = l.after(
                    m,
                    self.twophase_meta_program(ProgramView::empty(), seq, r, stream).steps,
                );
                let d = self.twophase_metadata(seq, r);
                let (start, count) = (r.start as int, r.count as int);
                let old = meta.uploaded_blocks as int;
                let blocks = seq.block_table@;
                let table = if old < blocks.len() && seq.hss_window_start == 0 {
                    binary(
                        Rule::Into(old * 4),
                        m[meta.block_table],
                        Content::Bytes(le32_all(blocks.skip(old))),
                    )
                } else {
                    m[meta.block_table]
                };
                &&& after[d.positions] == Content::Bytes(
                    le32_all(Seq::new(count as nat, |i: int| (start + i) as u32)),
                )
                &&& after[d.seq_len] == Content::Bytes(le32((start + count) as u32))
                &&& after[d.block_table] == table
                &&& after[d.slot] == unary(
                    Rule::SlotsOf(start as u32, count as u32, self.block_size as u32),
                    table,
                )
                &&& d.positions_h == d.positions && d.positions_w == d.positions
                &&& d.max_blocks_per_seq == blocks.len() as u32 && d.num_seqs == 1
            }),
    {
        broadcast use group_after;

        let meta = seq.chunked_prefill_meta->0;
        let count = r.count as int;
        let old = meta.uploaded_blocks as int;
        let blocks = seq.block_table@;
        let base = self.prefill_meta_base(count);
        let ps = seq![base, base.at(slots_at(count)), meta.block_table, meta.seq_len];
        l.lemma_rank(ps);
        assert(ps[0] == base && ps[1] == base.at(slots_at(count)) && ps[2] == meta.block_table
            && ps[3] == meta.seq_len);
        let pos = positions(r.start as int, count as nat);
        lemma_le32_all_len(pos);
        let p0 = ProgramView::empty();
        let p1 = p0.upload(stream, le32_all(pos), base);
        let p2 = Self::table_program(p1, seq, stream);
        let len = le32((r.start + r.count) as u32);
        let p3 = p2.upload(stream, len, meta.seq_len);
        assert(l.staging =~= l.staging.subrange(0, l.staging.len() as int));
        if Self::uploads_table(seq) {
            lemma_le32_all_len(blocks.skip(old));
        }
        l.lemma_after_upload(m, p2, stream, len, meta.seq_len);
        if Self::uploads_table(seq) {
            l.lemma_after_upload(
                m,
                p1,
                stream,
                le32_all(blocks.skip(old)),
                meta.block_table.at(old * 4),
            );
        }
        l.lemma_after_upload(m, p0, stream, le32_all(pos), base);
        assert(pos =~= Seq::new(count as nat, |i: int| (r.start as int + i) as u32));
    }
}

} // verus!
