//! One token of one sequence.

use crate::config::LayerType;
use crate::gpu::{AttnMetadataDev, DevicePtr};
use crate::model::sequence::SequenceState;
use crate::model::TransformerModel;
use crate::plan::{Op, Program, ProgramView, Step};
use vstd::prelude::*;

verus! {

/// Recurrent states are normalized every so many tokens.
pub const STATE_NORM_INTERVAL: usize = 64;

/// Tokens past calibration after which graphs are used again.
pub const CALIBRATION_MARGIN: usize = 10;

/// How a decode step runs.
#[derive(Clone, Copy, PartialEq, Eq, Structural, Debug)]
pub enum DecodeMode {
    /// Layer by layer, with a wait after each. The flag says whether the layers
    /// time their own operations too.
    Profiled(bool),
    /// A captured graph.
    Replay(u64),
    /// Layer by layer, into a new graph.
    Capture,
    /// Layer by layer.
    Eager,
}

/// A planned decode step.
pub struct DecodePlan {
    pub program: Program,
    pub metadata: AttnMetadataDev,
    pub mode: DecodeMode,
}

/// Whether a step embeds a token or zeroes the buffers, as a pass begins.
pub open spec fn opens(s: Step) -> bool {
    s matches Step::On(_, op) && (op is Embed || op is ZeroAll)
}

impl TransformerModel {
    /// Index of the last cache block that the sequence's next token needs.
    pub open spec fn decode_block(&self, seq: &SequenceState) -> int {
        seq.seq_len as int / self.block_size as int
    }

    /// What runs before the token's block is there. Latent attention reuses
    /// buffers that other passes write, so they are zeroed first.
    pub open spec fn decode_open(&self, token: u32, keep_buffers: bool) -> ProgramView {
        let p = if self.config.kv_lora_rank > 0 && !keep_buffers {
            ProgramView::empty().run(self.default_stream, Op::ZeroAll)
        } else {
            ProgramView::empty()
        };
        p.run(self.default_stream, Op::Embed(token, self.buffers.hidden_states))
    }

    /// Plans the part of a decode step before the token's block is there.
    /// Returns the plan and the block that the sequence then has to reach.
    pub fn decode_begin(&self, token: u32, seq: &SequenceState, keep_buffers: bool) -> (r: (
        Program,
        usize,
    ))
        requires
            self.block_size > 0,
        ensures
            r.0@ == self.decode_open(token, keep_buffers),
            r.1 == self.decode_block(seq),
    {
        let mut p: Program = Program::new();
        if self.config.kv_lora_rank > 0 && !keep_buffers {
            p.run(self.default_stream, Op::ZeroAll);
        }
        p.run(self.default_stream, Op::Embed(token, self.buffers.hidden_states));
        (p, seq.seq_len / self.block_size)
    }

    /// Graphs stay suppressed until calibration is over.
    pub open spec fn suppressed_at(&self, seq: &SequenceState) -> bool {
        self.suppress_graphs && !(self.config.fp8_kv_calibration_tokens > 0 && seq.seq_len
            > self.config.fp8_kv_calibration_tokens + CALIBRATION_MARGIN)
    }

    /// Graphs cannot hold collectives, waits, or swapping to disk.
    pub open spec fn graphs_usable(&self, seq: &SequenceState, no_graphs: bool) -> bool {
        !self.has_comm && !self.profile && !self.suppressed_at(seq)
            && self.cache_blocks_per_seq is None && !no_graphs
    }

    pub open spec fn decode_mode(&self, seq: &SequenceState, no_graphs: bool) -> DecodeMode {
        let cached = if self.decode_graphs@.contains_key(seq.slot_idx) {
            self.decode_graphs@[seq.slot_idx]
        } else {
            0
        };
        if self.profile {
            DecodeMode::Profiled(
                self.config.kv_lora_rank > 0 || seq.seq_len < seq.tokens@.len() + 2,
            )
        } else if !self.graphs_usable(seq, no_graphs) {
            DecodeMode::Eager
        } else if cached != 0 {
            DecodeMode::Replay(cached)
        } else {
            DecodeMode::Capture
        }
    }

    /// The first `n` layers, each with a wait.
    pub open spec fn profiled_layers(
        &self, p: ProgramView, seq: &SequenceState, n: nat,
    ) -> ProgramView
        decreases n,
    {
        if n == 0 {
            p
        } else {
            self.profiled_layers(p, seq, (n - 1) as nat).run(
                self.default_stream,
                Op::LayerDecode(
                    (n - 1) as usize,
                    self.buffers.hidden_states,
                    self.buffers.residual,
                    seq.seq_len,
                ),
            ).run(self.default_stream, Op::Synchronize)
        }
    }

    /// The first `n` layers.
    pub open spec fn decode_layers(
        &self, p: ProgramView, seq: &SequenceState, n: nat,
    ) -> ProgramView
        decreases n,
    {
        if n == 0 {
            p
        } else {
            self.decode_layers(p, seq, (n - 1) as nat).run(
                self.default_stream,
                Op::LayerDecode(
                    (n - 1) as usize,
                    self.buffers.hidden_states,
                    self.buffers.residual,
                    seq.seq_len,
                ),
            ).run(self.default_stream, Op::CaptureDecode((n - 1) as usize, 0))
        }
    }

    /// The first `n` layers without those that keep recurrent states.
    pub open spec fn draft_layers(&self, p: ProgramView, seq: &SequenceState, n: nat) -> ProgramView
        decreases n,
    {
        if n == 0 {
            p
        } else {
            let p = self.draft_layers(p, seq, (n - 1) as nat);
            if self.layers@[n - 1].kind == LayerType::LinearAttention {
                p
            } else {
                p.run(
                    self.default_stream,
                    Op::LayerDecode(
                        (n - 1) as usize,
                        self.buffers.hidden_states,
                        self.buffers.residual,
                        seq.seq_len,
                    ),
                )
            }
        }
    }

    /// Final norm of the row at `row`, and its logits.
    pub open spec fn head_of(&self, p: ProgramView, row: DevicePtr, stream: u64) -> ProgramView {
        p.run(
            stream,
            Op::RmsNorm(
                self.k.rms_norm,
                row,
                self.final_norm,
                self.buffers.norm_output,
                1,
                self.config.hidden_size as u32,
                self.rms_norm_eps,
            ),
        ).run(stream, Op::LmHead(self.buffers.norm_output))
    }

    pub(crate) fn run_head(&self, program: &mut Program, row: DevicePtr, stream: u64)
        ensures
            final(program)@ == self.head_of(old(program)@, row, stream),
    {
        program.run(
            stream,
            Op::RmsNorm(
                self.k.rms_norm,
                row,
                self.final_norm,
                self.buffers.norm_output,
                1,
                self.config.hidden_size as u32,
                self.rms_norm_eps,
            ),
        );
        program.run(stream, Op::LmHead(self.buffers.norm_output));
    }

    /// Whether the recurrent states are normalized at this token.
    pub open spec fn normalizes(&self, seq: &SequenceState) -> bool {
        self.config.mamba_num_heads > 0 && seq.seq_len > 0 && seq.seq_len % STATE_NORM_INTERVAL == 0
    }

    /// Layers, normalization and head of a step that does not replay a graph.
    pub open spec fn decode_body(
        &self,
        p: ProgramView,
        seq: &SequenceState,
        capture: bool,
    ) -> ProgramView {
        let st = self.default_stream;
        let p = if capture {
            p.run(st, Op::BeginCapture)
        } else {
            p
        };
        let p = self.decode_layers(p, seq, self.layers@.len());
        let p = p.timed(self.config.kv_lora_rank > 0 && !capture, st);
        let p = if self.normalizes(seq) {
            p.run(st, Op::NormalizeSsmStates)
        } else {
            p
        };
        let p = self.head_of(p, self.buffers.hidden_states, st);
        if capture {
            p.run(st, Op::EndCapture)
        } else {
            p
        }
    }

    pub open spec fn profiled_body(&self, p: ProgramView, seq: &SequenceState) -> ProgramView {
        let st = self.default_stream;
        let p = self.profiled_layers(p.run(st, Op::Synchronize), seq, self.layers@.len());
        self.head_of(p, self.buffers.hidden_states, st).run(st, Op::Synchronize)
    }

    /// The program of a decode step, once its block is there.
    pub open spec fn decode_program(&self, seq: &SequenceState, no_graphs: bool) -> ProgramView {
        let st = self.default_stream;
        let p = self.decode_meta_program(ProgramView::empty(), seq, st);
        match self.decode_mode(seq, no_graphs) {
            DecodeMode::Profiled(_) => self.profiled_body(p, seq),
            DecodeMode::Replay(g) => p.run(st, Op::LaunchGraph(g)),
            DecodeMode::Capture => self.decode_body(p, seq, true),
            DecodeMode::Eager => self.decode_body(p, seq, false),
        }
    }

    fn run_layers(&self, program: &mut Program, seq: &SequenceState)
        ensures
            final(program)@ == self.decode_layers(old(program)@, seq, self.layers@.len()),
    {
        let b = self.buffers;
        let st: u64 = self.default_stream;
        let ghost p0 = program@;
        let mut i: usize = 0;
        while i < self.layers.len()
            invariant
                i <= self.layers@.len(),
                b == self.buffers,
                st == self.default_stream,
                program@ == self.decode_layers(p0, seq, i as nat),
            decreases self.layers@.len() - i,
        {
            program.run(st, Op::LayerDecode(i, b.hidden_states, b.residual, seq.seq_len));
            program.run(st, Op::CaptureDecode(i, 0));
            i = i + 1;
        }
    }

    fn run_body(&self, program: &mut Program, seq: &SequenceState, capture: bool)
        ensures
            final(program)@ == self.decode_body(old(program)@, seq, capture),
    {
        let st: u64 = self.default_stream;
        if capture {
            program.run(st, Op::BeginCapture);
        }
        self.run_layers(program, seq);
        program.timed(self.config.kv_lora_rank > 0 && !capture, st);
        if self.config.mamba_num_heads > 0 && seq.seq_len > 0 && seq.seq_len % STATE_NORM_INTERVAL
            == 0 {
            program.run(st, Op::NormalizeSsmStates);
        }
        self.run_head(program, self.buffers.hidden_states, st);
        if capture {
            program.run(st, Op::EndCapture);
        }
    }

    /// Plans the layers one by one, with a wait after each.
    pub fn decode_profiled(&self, program: &mut Program, seq: &SequenceState)
        ensures
            final(program)@ == self.profiled_body(old(program)@, seq),
    {
        let b = self.buffers;
        let st: u64 = self.default_stream;
        program.run(st, Op::Synchronize);
        let ghost p0 = program@;
        let mut i: usize = 0;
        while i < self.layers.len()
            invariant
                i <= self.layers@.len(),
                b == self.buffers,
                st == self.default_stream,
                program@ == self.profiled_layers(p0, seq, i as nat),
            decreases self.layers@.len() - i,
        {
            program.run(st, Op::LayerDecode(i, b.hidden_states, b.residual, seq.seq_len));
            program.run(st, Op::Synchronize);
            i = i + 1;
        }
        self.run_head(program, b.hidden_states, st);
        program.run(st, Op::Synchronize);
    }

    /// Plans a decode step, once the token's block is there. Calibration that
    /// is over stops suppressing graphs. When the mode is `Capture`,
    /// `decode_captured` takes the captured graph.
    pub fn decode_dispatch(&mut self, seq: &SequenceState, no_graphs: bool) -> (r: DecodePlan)
        requires
            0 < old(self).block_size <= 0x8000_0000,
            seq.seq_len < usize::MAX,
            seq.tokens@.len() + 2 <= usize::MAX,
            old(self).config.fp8_kv_calibration_tokens + CALIBRATION_MARGIN <= usize::MAX,
        ensures
            *final(self) == (TransformerModel {
                suppress_graphs: old(self).suppressed_at(seq),
                ..*old(self)
            }),
            r.mode == old(self).decode_mode(seq, no_graphs),
            r.metadata == old(self).decode_attn_metadata(seq),
            r.program@ == old(self).decode_program(seq, no_graphs),
    {
        broadcast use vstd::std_specs::hash::group_hash_axioms;

        let ghost m0 = *self;
        if self.config.fp8_kv_calibration_tokens > 0 && self.suppress_graphs && seq.seq_len
            > self.config.fp8_kv_calibration_tokens + CALIBRATION_MARGIN {
            self.suppress_graphs = false;
        }
        let st: u64 = self.default_stream;
        let mut program: Program = Program::new();
        let metadata: AttnMetadataDev = self.upload_decode_meta(&mut program, seq, st);
        proof {
            assert(program@ == m0.decode_meta_program(ProgramView::empty(), seq, st));
        }
        let usable: bool = !self.has_comm && !self.profile && !self.suppress_graphs
            && self.cache_blocks_per_seq.is_none() && !no_graphs;
        let cached: u64 = match self.decode_graphs.get(&seq.slot_idx) {
            Some(g) => *g,
            None => 0,
        };
        let mode: DecodeMode;
        if self.profile {
            mode = DecodeMode::Profiled(
                self.config.kv_lora_rank > 0 || seq.seq_len < seq.tokens.len() + 2,
            );
            self.decode_profiled(&mut program, seq);
        } else if !usable {
            mode = DecodeMode::Eager;
            self.run_body(&mut program, seq, false);
        } else if cached != 0 {
            mode = DecodeMode::Replay(cached);
            program.run(st, Op::LaunchGraph(cached));
        } else {
            mode = DecodeMode::Capture;
            self.run_body(&mut program, seq, true);
        }
        proof {
            m0.lemma_layers_frame(*self, m0.decode_meta_program(ProgramView::empty(), seq, st).run(
                st,
                Op::BeginCapture,
            ), seq, m0.layers@.len());
            m0.lemma_layers_frame(
                *self,
                m0.decode_meta_program(ProgramView::empty(), seq, st),
                seq,
                m0.layers@.len(),
            );
            m0.lemma_layers_frame(
                *self,
                m0.decode_meta_program(ProgramView::empty(), seq, st).run(st, Op::Synchronize),
                seq,
                m0.layers@.len(),
            );
        }
        DecodePlan { program, metadata, mode }
    }

    proof fn lemma_layers_frame(
        &self,
        other: TransformerModel,
        p: ProgramView,
        seq: &SequenceState,
        n: nat,
    )
        requires
            other.buffers == self.buffers,
            other.default_stream == self.default_stream,
        ensures
            self.decode_layers(p, seq, n) == other.decode_layers(p, seq, n),
            self.profiled_layers(p, seq, n) == other.profiled_layers(p, seq, n),
        decreases n,
    {
        if n > 0 {
            self.lemma_layers_frame(other, p, seq, (n - 1) as nat);
        }
    }

    /// Keeps a graph that was just captured and plans its launch. Handle zero
    /// means that the device ran the steps instead of capturing them.
    pub fn decode_captured(&mut self, slot: usize, graph: u64) -> (r: Program)
        ensures
            graph == 0 ==> *final(self) == *old(self) && r@ == ProgramView::empty(),
            graph != 0 ==> {
                &&& final(self).decode_graphs@ == old(self).decode_graphs@.insert(slot, graph)
                &&& *final(self) == (TransformerModel {
                    decode_graphs: final(self).decode_graphs,
                    ..*old(self)
                })
                &&& r@ == ProgramView::empty().run(
                    old(self).default_stream,
                    Op::LaunchGraph(graph),
                )
            },
    {
        broadcast use vstd::std_specs::hash::group_hash_axioms;

        let mut program: Program = Program::new();
        if graph != 0 {
            self.decode_graphs.insert(slot, graph);
            program.run(self.default_stream, Op::LaunchGraph(graph));
        }
        program
    }

    /// Once captured, a sequence's graph is replayed.
    pub proof fn lemma_captured_is_replayed(
        before: TransformerModel,
        after: TransformerModel,
        slot: usize,
        graph: u64,
        seq: &SequenceState,
        no_graphs: bool,
    )
        requires
            graph != 0,
            after.decode_graphs@ == before.decode_graphs@.insert(slot, graph),
            after == (TransformerModel { decode_graphs: after.decode_graphs, ..before }),
            seq.slot_idx == slot,
            before.graphs_usable(seq, no_graphs),
        ensures
            after.decode_mode(seq, no_graphs) == DecodeMode::Replay(graph),
    {
    }

    /// What a drafting step runs before the token's block is there: the token's
    /// embedding, and nothing is zeroed.
    pub open spec fn draft_open(&self, token: u32) -> ProgramView {
        ProgramView::empty().run(
            self.default_stream,
            Op::Embed(token, self.buffers.hidden_states),
        )
    }

    /// Plans the part of a drafting step before the token's block is there.
    /// Returns the plan and the block that the sequence then has to reach.
    pub fn draft_begin(&self, token: u32, seq: &SequenceState) -> (r: (Program, usize))
        requires
            self.block_size > 0,
        ensures
            r.0@ == self.draft_open(token),
            r.1 == self.decode_block(seq),
    {
        self.decode_begin(token, seq, true)
    }

    /// All steps of a drafting step, in order: the opening, and the rest once
    /// the block is there.
    pub open spec fn draft_pass(&self, token: u32, seq: &SequenceState) -> Seq<Step> {
        self.draft_open(token).steps + self.draft_program(seq).steps
    }

    /// A drafting step embeds the drafted token first, embeds no other, and
    /// leaves the buffers of other passes as they are.
    pub proof fn lemma_draft_pass(&self, token: u32, seq: &SequenceState)
        ensures
            self.draft_pass(token, seq).len() > 0,
            self.draft_pass(token, seq)[0] == Step::On(
                self.default_stream,
                Op::Embed(token, self.buffers.hidden_states),
            ),
            forall|i: int|
                0 < i < self.draft_pass(token, seq).len() ==> !opens(
                    #[trigger] self.draft_pass(token, seq)[i],
                ),
    {
        let p = self.decode_meta_program(ProgramView::empty(), seq, self.default_stream);
        assert forall|i: int| 0 <= i < p.steps.len() implies !opens(#[trigger] p.steps[i]) by {}
        self.lemma_draft_opens_nothing(p, seq, self.layers@.len());
        let q = self.draft_program(seq).steps;
        assert forall|i: int| 0 <= i < q.len() implies !opens(#[trigger] q[i]) by {}
        assert forall|i: int| 0 < i < self.draft_pass(token, seq).len() implies !opens(
            #[trigger] self.draft_pass(token, seq)[i],
        ) by {
            assert(self.draft_pass(token, seq)[i] == q[i - 1]);
        }
    }

    proof fn lemma_draft_opens_nothing(&self, p: ProgramView, seq: &SequenceState, n: nat)
        requires
            forall|i: int| 0 <= i < p.steps.len() ==> !opens(#[trigger] p.steps[i]),
        ensures
            ({
                let steps = self.draft_layers(p, seq, n).steps;
                forall|i: int| 0 <= i < steps.len() ==> !opens(#[trigger] steps[i])
            }),
        decreases n,
    {
        if n > 0 {
            self.lemma_draft_opens_nothing(p, seq, (n - 1) as nat);
            let q = self.draft_layers(p, seq, (n - 1) as nat).steps;
            let r = self.draft_layers(p, seq, n).steps;
            assert forall|i: int| 0 <= i < r.len() implies !opens(#[trigger] r[i]) by {
                if i < q.len() {
                    assert(r[i] == q[i]);
                }
            }
        }
    }

    /// The program of a drafting step after its opening: no buffers are zeroed, recurrent layers
    /// are left out, and nothing is captured.
    pub open spec fn draft_program(&self, seq: &SequenceState) -> ProgramView {
        let st = self.default_stream;
        let p = self.decode_meta_program(ProgramView::empty(), seq, st);
        let p = self.draft_layers(p, seq, self.layers@.len());
        self.head_of(p, self.buffers.hidden_states, st)
    }

    /// Plans a drafting step, once the token's block is there.
    pub fn decode_draft(&self, seq: &SequenceState) -> (r: (Program, AttnMetadataDev))
        requires
            0 < self.block_size <= 0x8000_0000,
            seq.seq_len < usize::MAX,
        ensures
            r.0@ == self.draft_program(seq),
            r.1 == self.decode_attn_metadata(seq),
    {
        let b = self.buffers;
        let st: u64 = self.default_stream;
        let mut program: Program = Program::new();
        let metadata: AttnMetadataDev = self.upload_decode_meta(&mut program, seq, st);
        let ghost p0 = program@;
        let mut i: usize = 0;
        while i < self.layers.len()
            invariant
                i <= self.layers@.len(),
                b == self.buffers,
                st == self.default_stream,
                program@ == self.draft_layers(p0, seq, i as nat),
            decreases self.layers@.len() - i,
        {
            if self.layers[i].kind != LayerType::LinearAttention {
                program.run(st, Op::LayerDecode(i, b.hidden_states, b.residual, seq.seq_len));
            }
            i = i + 1;
        }
        self.run_head(&mut program, b.hidden_states, st);
        (program, metadata)
    }

    /// A drafting step runs no layer that keeps a recurrent state.
    pub proof fn lemma_draft_keeps_states(&self, seq: &SequenceState, i: int)
        requires
            0 <= i < self.draft_program(seq).steps.len(),
        ensures
            self.draft_program(seq).steps[i] matches Step::On(
                _,
                Op::LayerDecode(l, _, _, _),
            ) ==> l < self.layers@.len() && self.layers@[l as int].kind
                != LayerType::LinearAttention,
    {
        let p = self.decode_meta_program(ProgramView::empty(), seq, self.default_stream);
        assert(self.layers@.len() == self.layers.len());
        self.lemma_draft_layers(p, seq, self.layers@.len());
    }

    proof fn lemma_draft_layers(&self, p: ProgramView, seq: &SequenceState, n: nat)
        requires
            n <= self.layers@.len(),
            self.layers@.len() <= usize::MAX,
            forall|i: int|
                0 <= i < p.steps.len() ==> !((#[trigger] p.steps[i]) matches Step::On(
                    _,
                    Op::LayerDecode(_, _, _, _),
                )),
        ensures
            ({
                let steps = self.draft_layers(p, seq, n).steps;
                forall|i: int|
                    0 <= i < steps.len() ==> ((#[trigger] steps[i]) matches Step::On(
                        _,
                        Op::LayerDecode(l, _, _, _),
                    ) ==> l < self.layers@.len() && self.layers@[l as int].kind
                        != LayerType::LinearAttention)
            }),
        decreases n,
    {
        if n > 0 {
            self.lemma_draft_layers(p, seq, (n - 1) as nat);
            let q = self.draft_layers(p, seq, (n - 1) as nat);
            let r = self.draft_layers(p, seq, n);
            assert forall|i: int| 0 <= i < r.steps.len() implies ((
            #[trigger] r.steps[i]) matches Step::On(
                _,
                Op::LayerDecode(l, _, _, _),
            ) ==> l < self.layers@.len() && self.layers@[l as int].kind
                != LayerType::LinearAttention) by {
                if i < q.steps.len() {
                    assert(r.steps[i] == q.steps[i]);
                }
            }
        }
    }
}

} // verus!
