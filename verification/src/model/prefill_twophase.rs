//! A prompt in two phases: the linear-attention layers project it chunk by
//! chunk, run one recurrence over all of it, and finish it chunk by chunk.

use crate::bytes::{encode_le32, le32, le32_all, le32_bytes};
use crate::gpu::{AttnMetadataDev, DevicePtr};
use crate::model::metadata::{pack_meta, packed_meta, position_list, positions, slots_at};
use crate::model::prefill::{PrefixMatch, ProcRange, Reuse};
use crate::model::sequence::{ChunkedPrefillMeta, SequenceState};
use crate::model::{TransformerModel, VisionOutput};
use crate::num::{lemma_span_mono, span};
use crate::plan::{GdnPrefillBuffers, Op, Program, ProgramView};
use crate::ssm::prefill_gdn::{piece_len, pieces};
use vstd::prelude::*;

verus! {

/// A chunk of a prompt.
#[derive(Clone, Copy, PartialEq, Eq, Structural, Debug)]
pub struct Chunk {
    pub start: usize,
    pub len: usize,
    pub is_last: bool,
}

/// How a prompt is processed.
pub enum TwoPhaseRoute {
    /// There is nothing to do.
    Nothing,
    /// Chunk by chunk.
    Chunks(Vec<Chunk>),
    /// In two phases, on this stream.
    TwoPhase(u64),
}

/// A planned two-phase pass.
pub struct TwoPhasePlan {
    pub program: Program,
    pub metadata: AttnMetadataDev,
    /// The buffers between the phases.
    pub gdn: GdnPrefillBuffers,
}

/// The chunks of `total` tokens.
pub open spec fn chunk_list(total: int, size: int) -> Seq<Chunk> {
    Seq::new(
        pieces(total, size),
        |j: int|
            Chunk {
                start: (j * size) as usize,
                len: piece_len(total, size, j) as usize,
                is_last: j == pieces(total, size) - 1,
            },
    )
}

/// Cuts `total` tokens into chunks of `size`.
pub fn cut_chunks(total: usize, size: usize) -> (r: Vec<Chunk>)
    requires
        size > 0,
    ensures
        r@ == chunk_list(total as int, size as int),
{
    let mut out: Vec<Chunk> = Vec::new();
    let mut start: usize = 0;
    let ghost mut j: int = 0;
    proof {
        lemma_piece_bounds(total as int, size as int, 0);
    }
    while start < total
        invariant
            start <= total,
            size > 0,
            0 <= j <= pieces(total as int, size as int),
            start < total ==> start == j * size && j < pieces(total as int, size as int),
            start == total ==> j == pieces(total as int, size as int),
            total > 0 || start == 0,
            out@ == chunk_list(total as int, size as int).take(j),
        decreases total - start,
    {
        let left: usize = total - start;
        let len: usize = if left <= size {
            left
        } else {
            size
        };
        let is_last: bool = len >= left;
        proof {
            lemma_piece_bounds(total as int, size as int, j);
        }
        out.push(Chunk { start, len, is_last });
        start = start + len;
        proof {
            j = j + 1;
            lemma_piece_bounds(total as int, size as int, j);
            assert(out@ =~= chunk_list(total as int, size as int).take(j));
        }
    }
    proof {
        lemma_piece_bounds(total as int, size as int, 0);
        assert(out@ =~= chunk_list(total as int, size as int));
    }
    out
}

proof fn lemma_piece_bounds(total: int, size: int, j: int)
    requires
        total >= 0,
        size > 0,
        j >= 0,
    ensures
        j < pieces(total, size) <==> j * size < total,
        j * size >= 0,
        (j + 1) * size == j * size + size,
        0 * size == 0,
        j + 1 < pieces(total, size) <==> (j + 1) * size < total,
        j - 1 < pieces(total, size) <==> j * size - size < total,
        (j - 1) * size == j * size - size,
{
    crate::ssm::prefill_gdn::lemma_pieces(total, size, j);
    crate::ssm::prefill_gdn::lemma_pieces(total, size, j + 1);
    assert((j + 1) * size == j * size + size) by (nonlinear_arith);
    assert((j - 1) * size == j * size - size) by (nonlinear_arith);
    if j > 0 {
        crate::ssm::prefill_gdn::lemma_pieces(total, size, j - 1);
    } else {
        assert(j * size == 0) by (nonlinear_arith)
            requires
                j == 0,
        ;
    }
}

/// The chunks of a prompt follow each other without gap, cover it, and only the
/// last one is marked so.
pub proof fn lemma_chunks_cover(total: int, size: int)
    requires
        0 < total <= usize::MAX,
        0 < size <= usize::MAX,
    ensures
        ({
            let c = chunk_list(total, size);
            &&& c.len() > 0
            &&& c[0].start == 0
            &&& c.last().start + c.last().len == total
            &&& forall|j: int|
                0 <= j < c.len() ==> 0 < (#[trigger] c[j]).len <= size && c[j].is_last == (j
                    == c.len() - 1)
            &&& forall|j: int|
                0 <= j < c.len() - 1 ==> (#[trigger] c[j]).start + c[j].len == c[j + 1].start
        }),
{
    let c = chunk_list(total, size);
    crate::ssm::prefill_gdn::lemma_pieces_partition(total, size);
    lemma_piece_bounds(total, size, 0);
    let k = pieces(total, size) as int;
    assert forall|j: int| 0 <= j < k implies {
        &&& 0 < (#[trigger] c[j]).len <= size
        &&& c[j].is_last == (j == k - 1)
        &&& c[j].start == j * size
        &&& c[j].len == piece_len(total, size, j)
    } by {
        lemma_piece_bounds(total, size, j);
        assert(0 < piece_len(total, size, j) <= size);
    }
    assert forall|j: int| 0 <= j < k - 1 implies (#[trigger] c[j]).start + c[j].len == c[j
        + 1].start by {
        lemma_piece_bounds(total, size, j);
        assert(piece_len(total, size, j) == size);
        assert(c[j + 1].start == (j + 1) * size);
    }
    lemma_piece_bounds(total, size, k - 1);
}

impl TransformerModel {
    /// Decides how a prompt is processed. Prompts that the buffers do not hold
    /// are cut into chunks of `chunk_size`; prompts that the recurrence buffers
    /// do not hold form one chunk.
    pub fn prefill_twophase_dispatch(&self, total: usize, chunk_size: usize, stream: u64) -> (r:
        TwoPhaseRoute)
        requires
            total > self.buffers.max_batch_tokens ==> chunk_size > 0,
        ensures
            match r {
                TwoPhaseRoute::Nothing => total == 0,
                TwoPhaseRoute::Chunks(c) => {
                    &&& total > 0
                    &&& if total > self.buffers.max_batch_tokens {
                        c@ == chunk_list(total as int, chunk_size as int)
                    } else {
                        &&& self.gdn.qkv.is_null() || total > self.gdn.max_len
                        &&& c@ == seq![(Chunk { start: 0, len: total, is_last: true })]
                    }
                },
                TwoPhaseRoute::TwoPhase(s) => {
                    &&& 0 < total <= self.buffers.max_batch_tokens
                    &&& !self.gdn.qkv.is_null() && total <= self.gdn.max_len
                    &&& s == self.pass_stream(stream)
                },
            },
    {
        if total == 0 {
            return TwoPhaseRoute::Nothing;
        }
        if total > self.buffers.max_batch_tokens {
            return TwoPhaseRoute::Chunks(cut_chunks(total, chunk_size));
        }
        if self.gdn.qkv.is_null() || total > self.gdn.max_len {
            let mut one: Vec<Chunk> = Vec::new();
            one.push(Chunk { start: 0, len: total, is_last: true });
            return TwoPhaseRoute::Chunks(one);
        }
        TwoPhaseRoute::TwoPhase(self.stream_for(stream))
    }

    // ---- embedding ----

    /// The token that stands for an image row.
    pub open spec fn pad_token(&self) -> u32 {
        if self.config.vision is Some && self.config.vision->0.image_pad_token_id != 0 {
            self.config.vision->0.image_pad_token_id
        } else {
            self.vision->0.fallback_pad_token
        }
    }

    /// Image tokens among the first `n`.
    pub open spec fn pads_before(&self, tokens: Seq<u32>, n: nat) -> nat
        decreases n,
    {
        if n == 0 {
            0
        } else {
            self.pads_before(tokens, (n - 1) as nat) + (if tokens[n - 1] == self.pad_token() {
                1nat
            } else {
                0
            })
        }
    }

    proof fn lemma_pads(&self, tokens: Seq<u32>, n: nat)
        ensures
            self.pads_before(tokens, n) <= n,
        decreases n,
    {
        if n > 0 {
            self.lemma_pads(tokens, (n - 1) as nat);
        }
    }

    /// The encoder's rows over the embeddings of the image tokens among the
    /// first `n`, in order.
    pub open spec fn vision_overlay(
        &self,
        p: ProgramView,
        tokens: Seq<u32>,
        n: nat,
        stream: u64,
    ) -> ProgramView
        decreases n,
    {
        if n == 0 {
            p
        } else {
            let q = self.vision_overlay(p, tokens, (n - 1) as nat, stream);
            let v = self.vision->0;
            if tokens[n - 1] == self.pad_token() {
                q.run(
                    stream,
                    Op::CopyD2d(
                        v.buf_out.at(
                            self.pads_before(tokens, (n - 1) as nat) * v.out_hidden_size * 2,
                        ),
                        self.hidden_row(n - 1),
                        (v.out_hidden_size * 2) as usize,
                    ),
                )
            } else {
                q
            }
        }
    }

    pub open spec fn twophase_open(&self, tokens: Seq<u32>, stream: u64) -> ProgramView {
        let p = self.embed_program(
            ProgramView::empty().run(stream, Op::ZeroAll),
            tokens,
            stream,
        );
        if self.vision_embed_patches > 0 && self.vision is Some {
            self.vision_overlay(p, tokens, tokens.len(), stream)
        } else {
            p
        }
    }

    /// Plans the start of a two-phase pass: buffers zeroed, all tokens
    /// embedded, image rows spliced in.
    pub fn twophase_begin(&self, tokens: &[u32], stream: u64) -> (r: Program)
        requires
            tokens@.len() * self.config.hidden_size * self.elem() <= usize::MAX,
            self.vision is Some ==> self.vision->0.out_hidden_size * 2 <= usize::MAX
                && tokens@.len() * self.vision->0.out_hidden_size * 2 <= usize::MAX,
        ensures
            r@ == self.twophase_open(tokens@, stream),
    {
        let mut program: Program = Program::new();
        program.run(stream, Op::ZeroAll);
        self.run_embed(&mut program, tokens, stream);
        if self.vision_embed_patches > 0 && self.vision.is_some() {
            let v: VisionOutput = self.vision.unwrap();
            let pad: u32 = match &self.config.vision {
                Some(c) => if c.image_pad_token_id != 0 {
                    c.image_pad_token_id
                } else {
                    v.fallback_pad_token
                },
                None => v.fallback_pad_token,
            };
            let ghost p0 = program@;
            let mut used: usize = 0;
            let mut i: usize = 0;
            while i < tokens.len()
                invariant
                    i <= tokens@.len(),
                    self.vision == Some(v),
                    pad == self.pad_token(),
                    used == self.pads_before(tokens@, i as nat),
                    used <= i,
                    tokens@.len() * self.config.hidden_size * self.elem() <= usize::MAX,
                    v.out_hidden_size * 2 <= usize::MAX,
                    tokens@.len() * v.out_hidden_size * 2 <= usize::MAX,
                    program@ == self.vision_overlay(p0, tokens@, i as nat, stream),
                decreases tokens@.len() - i,
            {
                if tokens[i] == pad {
                    proof {
                        lemma_span_mono(
                            used as int,
                            tokens@.len() as int,
                            v.out_hidden_size as int,
                            2,
                        );
                        lemma_span_mono(
                            i as int,
                            tokens@.len() as int,
                            self.config.hidden_size as int,
                            self.elem(),
                        );
                    }
                    program.run(
                        stream,
                        Op::CopyD2d(
                            v.buf_out.offset(span(used, v.out_hidden_size, 2)),
                            self.hidden_row_ptr(i),
                            v.out_hidden_size * 2,
                        ),
                    );
                    used = used + 1;
                }
                i = i + 1;
            }
        }
        program
    }

    // ---- reuse ----

    /// Only a restored snapshot lets positions be skipped: those that it
    /// covers, or all when the whole prompt is cached.
    pub open spec fn twophase_reuse_of(m: &PrefixMatch, total: int, session_ok: bool) -> Reuse {
        if m.restorable(total, session_ok) {
            Reuse {
                restore: m.ssm_snapshot,
                kv_write_start: if m.matched_tokens >= total {
                    m.matched_tokens
                } else {
                    m.ssm_snapshot_tokens
                },
                skip: true,
            }
        } else {
            Reuse { restore: None, kv_write_start: 0, skip: false }
        }
    }

    /// Takes over the cached prefix of a prompt and decides what of it is
    /// skipped. Returns that and the block that the sequence has to reach.
    pub fn twophase_adopt(
        &self,
        seq: &mut SequenceState,
        m: &PrefixMatch,
        total: usize,
        session_ok: bool,
    ) -> (r: (Reuse, usize))
        requires
            total > 0,
            self.block_size > 0,
        ensures
            r.0 == Self::twophase_reuse_of(m, total as int, session_ok),
            r.1 == self.last_block(total as int),
            final(seq).cached_prefix_tokens == m.matched_tokens,
            final(seq).prompt_len == total,
            final(seq).block_table@ == old(seq).block_table@ + m.matched_blocks@,
            final(seq).marconi_skip_to == r.0.kv_write_start,
            final(seq).same_but_prefix(
                &(SequenceState { marconi_skip_to: r.0.kv_write_start, ..*old(seq) }),
            ),
    {
        seq.adopt_prefix(m, total);
        let u: Reuse = if m.is_restorable(total, session_ok) {
            Reuse {
                restore: m.ssm_snapshot,
                kv_write_start: if m.matched_tokens >= total {
                    m.matched_tokens
                } else {
                    m.ssm_snapshot_tokens
                },
                skip: true,
            }
        } else {
            Reuse { restore: None, kv_write_start: 0, skip: false }
        };
        seq.marconi_skip_to = u.kv_write_start;
        (u, (total - 1) / self.block_size)
    }

    /// Rows of a prompt that are processed. None are when the whole prompt is
    /// cached.
    pub open spec fn twophase_range_of(total: int, u: Reuse) -> ProcRange {
        if u.skip && u.kv_write_start > 0 {
            ProcRange { start: u.kv_write_start, count: (total - u.kv_write_start) as usize }
        } else {
            ProcRange { start: 0, count: total as usize }
        }
    }

    pub fn twophase_range(total: usize, u: Reuse) -> (r: ProcRange)
        requires
            u.skip ==> u.kv_write_start <= total,
        ensures
            r == Self::twophase_range_of(total as int, u),
    {
        if u.skip && u.kv_write_start > 0 {
            ProcRange { start: u.kv_write_start, count: total - u.kv_write_start }
        } else {
            ProcRange { start: 0, count: total }
        }
    }

    /// The processed rows end where the prompt ends. There are none exactly
    /// when a snapshot is restored and the whole prompt is cached.
    pub proof fn lemma_twophase_range(m: &PrefixMatch, total: usize, session_ok: bool)
        requires
            total > 0,
            m.ssm_snapshot_tokens <= m.matched_tokens,
        ensures
            ({
                let u = Self::twophase_reuse_of(m, total as int, session_ok);
                let r = Self::twophase_range_of(total as int, u);
                &&& u.skip ==> u.kv_write_start <= total
                &&& r.start + r.count == total
                &&& r.start <= m.matched_tokens
                &&& r.start > 0 ==> u.restore is Some
                &&& r.count == 0 <==> m.restorable(total as int, session_ok) && m.matched_tokens
                    == total
            }),
    {
    }

    // ---- layers ----

    /// The first `j` chunks of the input half of layer `i`.
    pub open spec fn phase1_chunks(
        &self,
        p: ProgramView,
        i: usize,
        r: ProcRange,
        write_start: usize,
        size: usize,
        j: nat,
        stream: u64,
    ) -> ProgramView
        decreases j,
    {
        if j == 0 {
            p
        } else {
            let at = (j - 1) * size;
            self.phase1_chunks(p, i, r, write_start, size, (j - 1) as nat, stream).run(
                stream,
                Op::LayerPhase1(
                    i,
                    self.hidden_row(at),
                    self.buffers.residual.at(at * self.config.hidden_size * self.elem()),
                    piece_len(r.count as int, size as int, j - 1) as usize,
                    (r.start + at) as usize,
                    write_start,
                    at as usize,
                ),
            )
        }
    }

    /// The first `j` chunks of the output half of layer `i`.
    pub open spec fn phase3_chunks(
        &self,
        p: ProgramView,
        i: usize,
        r: ProcRange,
        size: usize,
        j: nat,
        stream: u64,
    ) -> ProgramView
        decreases j,
    {
        if j == 0 {
            p
        } else {
            let at = (j - 1) * size;
            self.phase3_chunks(p, i, r, size, (j - 1) as nat, stream).run(
                stream,
                Op::LayerPhase3(
                    i,
                    self.hidden_row(at),
                    self.buffers.residual.at(at * self.config.hidden_size * self.elem()),
                    piece_len(r.count as int, size as int, j - 1) as usize,
                    at as usize,
                ),
            )
        }
    }

    /// Layer `i`: a linear-attention layer projects all rows in chunks, runs
    /// its recurrence once, and finishes the rows in chunks; other layers take
    /// all rows at once.
    pub open spec fn twophase_layer(
        &self,
        p: ProgramView,
        i: usize,
        r: ProcRange,
        write_start: usize,
        size: usize,
        stream: u64,
    ) -> ProgramView {
        if self.layers@[i as int].is_ssm {
            let n = pieces(r.count as int, size as int);
            let p = self.phase1_chunks(p, i, r, write_start, size, n, stream);
            let p = p.run(stream, Op::LayerRecurrence(i));
            self.phase3_chunks(p, i, r, size, n, stream)
        } else {
            p.run(
                stream,
                Op::LayerPrefill(
                    i,
                    self.buffers.hidden_states,
                    self.buffers.residual,
                    r.count,
                    r.start,
                    write_start,
                ),
            )
        }
    }

    /// The first `k` layers.
    pub open spec fn twophase_layers(
        &self,
        p: ProgramView,
        r: ProcRange,
        write_start: usize,
        size: usize,
        k: nat,
        stream: u64,
    ) -> ProgramView
        decreases k,
    {
        if k == 0 {
            p
        } else {
            self.twophase_layer(
                self.twophase_layers(p, r, write_start, size, (k - 1) as nat, stream),
                (k - 1) as usize,
                r,
                write_start,
                size,
                stream,
            )
        }
    }

    fn run_twophase_layer(
        &self,
        program: &mut Program,
        i: usize,
        r: ProcRange,
        write_start: usize,
        size: usize,
        stream: u64,
    )
        requires
            i < self.layers@.len(),
            size > 0,
            r.start + r.count <= usize::MAX,
            r.count * self.config.hidden_size * self.elem() <= usize::MAX,
        ensures
            final(program)@ == self.twophase_layer(
                old(program)@,
                i,
                r,
                write_start,
                size,
                stream,
            ),
    {
        if !self.layers[i].is_ssm {
            program.run(
                stream,
                Op::LayerPrefill(
                    i,
                    self.buffers.hidden_states,
                    self.buffers.residual,
                    r.count,
                    r.start,
                    write_start,
                ),
            );
            return ;
        }
        let chunks: Vec<Chunk> = cut_chunks(r.count, size);
        let ghost p0 = program@;
        let mut j: usize = 0;
        while j < chunks.len()
            invariant
                j <= chunks@.len(),
                size > 0,
                chunks@ == chunk_list(r.count as int, size as int),
                r.start + r.count <= usize::MAX,
                r.count * self.config.hidden_size * self.elem() <= usize::MAX,
                program@ == self.phase1_chunks(p0, i, r, write_start, size, j as nat, stream),
            decreases chunks@.len() - j,
        {
            proof {
                lemma_piece_bounds(r.count as int, size as int, j as int);
                lemma_span_mono(
                    j * size,
                    r.count as int,
                    self.config.hidden_size as int,
                    self.elem(),
                );
                crate::ssm::prefill_gdn::lemma_pieces_partition(r.count as int, size as int);
                assert(0 < piece_len(r.count as int, size as int, j as int) <= size);
            }
            let c: Chunk = chunks[j];
            let at: usize = span(c.start, self.config.hidden_size, self.elem_bytes());
            program.run(
                stream,
                Op::LayerPhase1(
                    i,
                    self.buffers.hidden_states.offset(at),
                    self.buffers.residual.offset(at),
                    c.len,
                    r.start + c.start,
                    write_start,
                    c.start,
                ),
            );
            j = j + 1;
        }
        program.run(stream, Op::LayerRecurrence(i));
        let ghost p1 = program@;
        j = 0;
        while j < chunks.len()
            invariant
                j <= chunks@.len(),
                size > 0,
                chunks@ == chunk_list(r.count as int, size as int),
                r.count * self.config.hidden_size * self.elem() <= usize::MAX,
                program@ == self.phase3_chunks(p1, i, r, size, j as nat, stream),
            decreases chunks@.len() - j,
        {
            proof {
                lemma_piece_bounds(r.count as int, size as int, j as int);
                lemma_span_mono(
                    j * size,
                    r.count as int,
                    self.config.hidden_size as int,
                    self.elem(),
                );
                crate::ssm::prefill_gdn::lemma_pieces_partition(r.count as int, size as int);
                assert(0 < piece_len(r.count as int, size as int, j as int) <= size);
            }
            let c: Chunk = chunks[j];
            let at: usize = span(c.start, self.config.hidden_size, self.elem_bytes());
            program.run(
                stream,
                Op::LayerPhase3(
                    i,
                    self.buffers.hidden_states.offset(at),
                    self.buffers.residual.offset(at),
                    c.len,
                    c.start,
                ),
            );
            j = j + 1;
        }
    }

    // ---- the pass ----

    /// Bytes of metadata that the pass stages.
    pub open spec fn twophase_meta_len(r: ProcRange) -> int {
        if r.start > 0 {
            4 * r.count
        } else {
            slots_at(r.count as int) + 8 * r.count
        }
    }

    pub open spec fn twophase_fits(
        &self, seq: &SequenceState, total: int, u: Reuse, size: usize,
    ) -> bool {
        let r = Self::twophase_range_of(total, u);
        &&& total <= u32::MAX
        &&& u.skip ==> u.kv_write_start <= total
        &&& r.count > 0
        &&& size > 0
        &&& 0 < self.block_size <= 0x8000_0000
        &&& r.count * self.config.num_experts_per_tok * 4 * 2 + 7 <= usize::MAX
        &&& r.count * self.config.hidden_size * self.elem() <= usize::MAX
        &&& r.count * 12 + 16 <= usize::MAX
        &&& seq.block_table@.len() * 4 <= usize::MAX
        &&& Self::twophase_meta_len(r) <= self.pinned_bytes
        &&& r.start > 0 ==> seq.chunked_prefill_meta is Some
    }

    /// Uploads the block table entries that are not on the device yet, unless
    /// earlier blocks were swapped out.
    pub open spec fn table_program(
        p: ProgramView, seq: &SequenceState, stream: u64,
    ) -> ProgramView {
        let meta = seq.chunked_prefill_meta->0;
        if Self::uploads_table(seq) {
            p.upload(
                stream,
                le32_all(seq.block_table@.skip(meta.uploaded_blocks as int)),
                meta.block_table.at(meta.uploaded_blocks * 4),
            )
        } else {
            p
        }
    }

    pub open spec fn uploads_table(seq: &SequenceState) -> bool {
        seq.chunked_prefill_meta->0.uploaded_blocks < seq.block_table@.len()
            && seq.hss_window_start == 0
    }

    /// Positions, and slots: from the host when the whole prompt is processed,
    /// from the block table on the device otherwise.
    pub open spec fn twophase_meta_program(
        &self,
        p: ProgramView,
        seq: &SequenceState,
        r: ProcRange,
        stream: u64,
    ) -> ProgramView {
        let base = self.prefill_meta_base(r.count as int);
        let pos = positions(r.start as int, r.count as nat);
        if r.start > 0 {
            let meta = seq.chunked_prefill_meta->0;
            let p = p.upload(stream, le32_all(pos), base);
            let p = Self::table_program(p, seq, stream);
            p.upload(stream, le32((r.start + r.count) as u32), meta.seq_len).run(
                stream,
                Op::FillSlots(
                    self.k.fill_slots,
                    base.at(slots_at(r.count as int)),
                    meta.block_table,
                    r.start as u32,
                    r.count as u32,
                    self.block_size as u32,
                ),
            )
        } else {
            p.upload(
                stream,
                packed_meta(pos, self.slots(seq, r.start as int, r.count as nat), None),
                base,
            )
        }
    }

    pub open spec fn twophase_metadata(
        &self, seq: &SequenceState, r: ProcRange,
    ) -> AttnMetadataDev {
        let base = self.prefill_meta_base(r.count as int);
        AttnMetadataDev {
            positions: base,
            positions_h: base,
            positions_w: base,
            slot: base.at(slots_at(r.count as int)),
            seq_len: if r.start > 0 {
                seq.chunked_prefill_meta->0.seq_len
            } else {
                DevicePtr(0)
            },
            block_table: if r.start > 0 {
                seq.chunked_prefill_meta->0.block_table
            } else {
                DevicePtr(0)
            },
            max_blocks_per_seq: seq.block_table@.len() as u32,
            num_seqs: 1,
        }
    }

    /// The program of a two-phase pass, after the blocks are there and a
    /// snapshot has been restored. Rows after skipped ones are embedded again,
    /// from the first row of the hidden states on.
    pub open spec fn twophase_program(
        &self,
        tokens: Seq<u32>,
        seq: &SequenceState,
        u: Reuse,
        size: usize,
        stream: u64,
    ) -> ProgramView {
        let r = Self::twophase_range_of(tokens.len() as int, u);
        let p = if r.start > 0 {
            self.embed_program(ProgramView::empty(), tokens.skip(r.start as int), stream)
        } else {
            ProgramView::empty()
        };
        let p = self.twophase_meta_program(p, seq, r, stream);
        let p = p.run(stream, Op::Synchronize);
        let p = self.twophase_layers(
            p,
            r,
            Self::layer_write_start(u),
            size,
            self.layers@.len(),
            stream,
        );
        self.head_of(p, self.hidden_row(r.count - 1), stream)
    }

    fn run_twophase_meta(
        &self,
        program: &mut Program,
        seq: &mut SequenceState,
        r: ProcRange,
        stream: u64,
    ) -> (m: AttnMetadataDev)
        requires
            r.count > 0,
            r.start + r.count <= u32::MAX,
            0 < self.block_size <= 0x8000_0000,
            r.count * self.config.num_experts_per_tok * 4 * 2 + 7 <= usize::MAX,
            r.count * 12 + 16 <= usize::MAX,
            old(seq).block_table@.len() * 4 <= usize::MAX,
            r.start > 0 ==> old(seq).chunked_prefill_meta is Some,
        ensures
            final(program)@ == self.twophase_meta_program(old(program)@, old(seq), r, stream),
            m == self.twophase_metadata(old(seq), r),
            *final(seq) == (SequenceState {
                chunked_prefill_meta: final(seq).chunked_prefill_meta,
                ..*old(seq)
            }),
            final(seq).chunked_prefill_meta == Self::meta_after(old(seq), r),
    {
        let base: DevicePtr = self.meta_base_for(r.count);
        let slot_at: usize = (r.count * 4 + 7) / 8 * 8;
        let pos: Vec<u32> = position_list(r.start, r.count);
        let mut block_table: DevicePtr = DevicePtr(0);
        let mut seq_len: DevicePtr = DevicePtr(0);
        if r.start > 0 {
            let bytes: Vec<u8> = encode_le32(pos.as_slice());
            program.upload(stream, bytes.as_slice(), base);
            let meta: ChunkedPrefillMeta = seq.chunked_prefill_meta.unwrap();
            let current: usize = seq.block_table.len();
            if meta.uploaded_blocks < current && seq.hss_window_start == 0 {
                let fresh: &[u32] = vstd::slice::slice_subrange(
                    seq.block_table.as_slice(),
                    meta.uploaded_blocks,
                    current,
                );
                proof {
                    assert(fresh@ =~= old(seq).block_table@.skip(meta.uploaded_blocks as int));
                }
                let bytes: Vec<u8> = encode_le32(fresh);
                program.upload(
                    stream,
                    bytes.as_slice(),
                    meta.block_table.offset(meta.uploaded_blocks * 4),
                );
                seq.chunked_prefill_meta = Some(
                    ChunkedPrefillMeta {
                        block_table: meta.block_table,
                        seq_len: meta.seq_len,
                        uploaded_blocks: current,
                    },
                );
            }
            program.upload(
                stream,
                le32_bytes((r.start + r.count) as u32).as_slice(),
                meta.seq_len,
            );
            program.run(
                stream,
                Op::FillSlots(
                    self.k.fill_slots,
                    base.offset(slot_at),
                    meta.block_table,
                    r.start as u32,
                    r.count as u32,
                    self.block_size as u32,
                ),
            );
            block_table = meta.block_table;
            seq_len = meta.seq_len;
        } else {
            let slots: Vec<u64> = self.slot_list(seq, r.start, r.count);
            let bytes: Vec<u8> = pack_meta(pos.as_slice(), slots.as_slice());
            program.upload(stream, bytes.as_slice(), base);
        }
        AttnMetadataDev {
            positions: base,
            positions_h: base,
            positions_w: base,
            slot: base.offset(slot_at),
            seq_len,
            block_table,
            max_blocks_per_seq: seq.block_table.len() as u32,
            num_seqs: 1,
        }
    }

    /// What is known to be on the device after the pass.
    pub open spec fn meta_after(seq: &SequenceState, r: ProcRange) -> Option<ChunkedPrefillMeta> {
        if r.start > 0 && Self::uploads_table(seq) {
            Some(
                ChunkedPrefillMeta {
                    uploaded_blocks: seq.block_table@.len() as usize,
                    ..seq.chunked_prefill_meta->0
                },
            )
        } else {
            seq.chunked_prefill_meta
        }
    }

    /// Plans a two-phase pass, after the blocks are there and a snapshot has
    /// been restored, for a prompt of which some rows are left to process.
    pub fn twophase_forward(
        &self,
        tokens: &[u32],
        seq: &mut SequenceState,
        u: Reuse,
        size: usize,
        stream: u64,
    ) -> (plan: TwoPhasePlan)
        requires
            self.twophase_fits(old(seq), tokens@.len() as int, u, size),
        ensures
            ({
                let r = Self::twophase_range_of(tokens@.len() as int, u);
                &&& plan.program@ == self.twophase_program(tokens@, old(seq), u, size, stream)
                &&& plan.metadata == self.twophase_metadata(old(seq), r)
                &&& plan.gdn == GdnPrefillBuffers {
                    qkv: self.gdn.qkv,
                    gate_beta: self.gdn.gate_beta,
                    output: self.gdn.output,
                    z: self.gdn.z,
                    total_len: r.count,
                }
                &&& final(seq).chunked_prefill_meta == Self::meta_after(old(seq), r)
            }),
            *final(seq) == (SequenceState {
                chunked_prefill_meta: final(seq).chunked_prefill_meta,
                ..*old(seq)
            }),
    {
        let n: usize = tokens.len();
        let r: ProcRange = Self::twophase_range(n, u);
        let mut program: Program = Program::new();
        if r.start > 0 {
            let part: &[u32] = vstd::slice::slice_subrange(tokens, r.start, n);
            proof {
                assert(part@ =~= tokens@.skip(r.start as int));
            }
            self.run_embed(&mut program, part, stream);
        }
        let metadata: AttnMetadataDev = self.run_twophase_meta(&mut program, seq, r, stream);
        program.run(stream, Op::Synchronize);
        let write_start: usize = if u.skip {
            0
        } else {
            u.kv_write_start
        };
        let ghost p0 = program@;
        let mut i: usize = 0;
        while i < self.layers.len()
            invariant
                i <= self.layers@.len(),
                size > 0,
                r.start + r.count <= usize::MAX,
                r.count * self.config.hidden_size * self.elem() <= usize::MAX,
                program@ == self.twophase_layers(p0, r, write_start, size, i as nat, stream),
            decreases self.layers@.len() - i,
        {
            self.run_twophase_layer(&mut program, i, r, write_start, size, stream);
            i = i + 1;
        }
        proof {
            lemma_span_mono(
                r.count - 1,
                r.count as int,
                self.config.hidden_size as int,
                self.elem(),
            );
        }
        let row: DevicePtr = self.hidden_row_ptr(r.count - 1);
        self.run_head(&mut program, row, stream);
        TwoPhasePlan {
            program,
            metadata,
            gdn: GdnPrefillBuffers {
                qkv: self.gdn.qkv,
                gate_beta: self.gdn.gate_beta,
                output: self.gdn.output,
                z: self.gdn.z,
                total_len: r.count,
            },
        }
    }
}

} // verus!
